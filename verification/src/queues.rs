//! Selection of queue families: the scan that walks the families a physical
//! device reports, records the latest family fit for graphics work and the
//! latest fit for presentation, and stops as soon as both are recorded.

use vstd::prelude::*;

verus! {

/// What the driver reports of one queue family, reduced to what the
/// selection reads: how many queues it offers, whether it can do graphics
/// work, and whether it can present to the surface.
#[derive(Clone, Copy, Debug)]
pub struct QueueFamilyInfo {
    pub queue_count: u32,
    pub supports_graphics: bool,
    pub supports_present: bool,
}

/// The queue family indices chosen for graphics work and for presentation.
#[derive(Clone, Copy, Debug, PartialEq, Eq)]
pub struct QueueFamilyIndices {
    pub graphics_family: Option<u32>,
    pub present_family: Option<u32>,
}

impl QueueFamilyIndices {
    /// Both a graphics family and a present family have been chosen.
    pub open spec fn complete(self) -> bool {
        self.graphics_family is Some && self.present_family is Some
    }

    pub fn is_complete(&self) -> (r: bool)
        ensures
            r == self.complete(),
    {
        self.graphics_family.is_some() && self.present_family.is_some()
    }
}

/// One step of the scan: a family with at least one queue overwrites the
/// recorded graphics index if it can do graphics work, and the recorded
/// present index if it can present.
pub open spec fn scan_step(st: QueueFamilyIndices, fam: QueueFamilyInfo, idx: u32) -> QueueFamilyIndices {
    QueueFamilyIndices {
        graphics_family: if fam.queue_count > 0 && fam.supports_graphics {
            Some(idx)
        } else {
            st.graphics_family
        },
        present_family: if fam.queue_count > 0 && fam.supports_present {
            Some(idx)
        } else {
            st.present_family
        },
    }
}

/// The scan from index `idx` onward, starting from state `st`; it stops at
/// the first index whose step leaves the state complete.
pub open spec fn scan_families(
    families: Seq<QueueFamilyInfo>,
    st: QueueFamilyIndices,
    idx: int,
) -> QueueFamilyIndices
    decreases families.len() - idx,
{
    if idx < 0 || idx >= families.len() {
        st
    } else {
        let st2 = scan_step(st, families[idx], idx as u32);
        if st2.complete() {
            st2
        } else {
            scan_families(families, st2, idx + 1)
        }
    }
}

/// The queue family indices the whole scan chooses.
pub open spec fn chosen_queue_families(families: Seq<QueueFamilyInfo>) -> QueueFamilyIndices {
    scan_families(
        families,
        QueueFamilyIndices { graphics_family: None, present_family: None },
        0,
    )
}

/// Some family at index `idx` or later offers a queue and graphics work.
pub open spec fn has_graphics_from(families: Seq<QueueFamilyInfo>, idx: int) -> bool {
    exists|i: int| idx <= i < families.len()
        && (#[trigger] families[i]).queue_count > 0
        && families[i].supports_graphics
}

/// Some family at index `idx` or later offers a queue and presentation.
pub open spec fn has_present_from(families: Seq<QueueFamilyInfo>, idx: int) -> bool {
    exists|i: int| idx <= i < families.len()
        && (#[trigger] families[i]).queue_count > 0
        && families[i].supports_present
}

/// What the scan finds, from any start: an index is recorded exactly when
/// the start state already held one or the remaining families offer one,
/// and a recorded index really points at a fit family.
pub proof fn lemma_scan_families_props(
    families: Seq<QueueFamilyInfo>,
    st: QueueFamilyIndices,
    idx: int,
)
    requires
        0 <= idx <= families.len(),
        families.len() <= u32::MAX,
    ensures
        ({
            let r = scan_families(families, st, idx);
            &&& (r.graphics_family is Some <==> st.graphics_family is Some || has_graphics_from(
                families,
                idx,
            ))
            &&& (r.present_family is Some <==> st.present_family is Some || has_present_from(
                families,
                idx,
            ))
            &&& (r.graphics_family matches Some(g) ==> st.graphics_family == Some(g) || (idx <= g
                < families.len() && families[g as int].queue_count > 0
                && families[g as int].supports_graphics))
            &&& (r.present_family matches Some(p) ==> st.present_family == Some(p) || (idx <= p
                < families.len() && families[p as int].queue_count > 0
                && families[p as int].supports_present))
        }),
    decreases families.len() - idx,
{
    if idx < families.len() {
        let st2 = scan_step(st, families[idx], idx as u32);
        if families[idx].queue_count > 0 && families[idx].supports_graphics {
            assert(has_graphics_from(families, idx));
        }
        if families[idx].queue_count > 0 && families[idx].supports_present {
            assert(has_present_from(families, idx));
        }
        if st2.complete() {
        } else {
            lemma_scan_families_props(families, st2, idx + 1);
            assert(has_graphics_from(families, idx + 1) ==> has_graphics_from(families, idx)) by {
                if has_graphics_from(families, idx + 1) {
                    let i = choose|i: int| idx + 1 <= i < families.len()
                        && (#[trigger] families[i]).queue_count > 0 && families[i].supports_graphics;
                    assert(families[i].queue_count > 0 && families[i].supports_graphics);
                }
            }
            assert(has_present_from(families, idx + 1) ==> has_present_from(families, idx)) by {
                if has_present_from(families, idx + 1) {
                    let i = choose|i: int| idx + 1 <= i < families.len()
                        && (#[trigger] families[i]).queue_count > 0 && families[i].supports_present;
                    assert(families[i].queue_count > 0 && families[i].supports_present);
                }
            }
            assert(has_graphics_from(families, idx) && !(families[idx].queue_count > 0
                && families[idx].supports_graphics) ==> has_graphics_from(families, idx + 1)) by {
                if has_graphics_from(families, idx) {
                    let i = choose|i: int| idx <= i < families.len()
                        && (#[trigger] families[i]).queue_count > 0 && families[i].supports_graphics;
                    if i > idx {
                        assert(families[i].queue_count > 0 && families[i].supports_graphics);
                    }
                }
            }
            assert(has_present_from(families, idx) && !(families[idx].queue_count > 0
                && families[idx].supports_present) ==> has_present_from(families, idx + 1)) by {
                if has_present_from(families, idx) {
                    let i = choose|i: int| idx <= i < families.len()
                        && (#[trigger] families[i]).queue_count > 0 && families[i].supports_present;
                    if i > idx {
                        assert(families[i].queue_count > 0 && families[i].supports_present);
                    }
                }
            }
        }
    }
}

/// The queue family indices for `families`: the graphics index is the last
/// graphics-capable family the scan saw, the present index the last
/// present-capable one, and the scan stops at the first index where both
/// are recorded.
pub fn find_queue_family(families: &Vec<QueueFamilyInfo>) -> (r: QueueFamilyIndices)
    requires
        families@.len() <= u32::MAX,
    ensures
        r == chosen_queue_families(families@),
        r.complete() <==> has_graphics_from(families@, 0) && has_present_from(families@, 0),
        r.graphics_family matches Some(g) ==> g < families@.len()
            && families@[g as int].queue_count > 0 && families@[g as int].supports_graphics,
        r.present_family matches Some(p) ==> p < families@.len()
            && families@[p as int].queue_count > 0 && families@[p as int].supports_present,
{
    let mut indices = QueueFamilyIndices { graphics_family: None, present_family: None };
    let mut index: u32 = 0;
    while (index as usize) < families.len()
        invariant
            families@.len() <= u32::MAX,
            0 <= index <= families@.len(),
            scan_families(families@, indices, index as int) == chosen_queue_families(families@),
        decreases families@.len() - index,
    {
        let fam = families[index as usize];
        let mut next = indices;
        if fam.queue_count > 0 {
            if fam.supports_graphics {
                next.graphics_family = Some(index);
            }
            if fam.supports_present {
                next.present_family = Some(index);
            }
        }
        proof {
            assert(next == scan_step(indices, families@[index as int], index));
        }
        indices = next;
        if indices.is_complete() {
            proof {
                lemma_scan_families_props(
                    families@,
                    QueueFamilyIndices { graphics_family: None, present_family: None },
                    0,
                );
            }
            return indices;
        }
        index = index + 1;
    }
    proof {
        lemma_scan_families_props(
            families@,
            QueueFamilyIndices { graphics_family: None, present_family: None },
            0,
        );
    }
    indices
}

} // verus!
