//! Picking a physical device: a device is taken when its queue families
//! cover graphics work and presentation, it reports the required extensions,
//! and the surface offers it at least one format and one present mode; of
//! several such devices the first one enumerated wins.

use crate::config::{check_physic_device_extension_support, DeviceExtension};
use crate::names::all_names_supported;
use crate::queues::{chosen_queue_families, find_queue_family, QueueFamilyIndices, QueueFamilyInfo};
use crate::swapchain::SwapChainSupportDetails;
use vstd::prelude::*;

verus! {

/// What the suitability test reads of one physical device: the queue
/// families it reports, the extension names it reports (each a
/// NUL-terminated byte array), and what the surface supports of it.
#[derive(Clone, Debug)]
pub struct PhysicalDeviceInfo {
    pub queue_families: Vec<QueueFamilyInfo>,
    pub extension_names_raw: Vec<Vec<u8>>,
    pub swap_chain_support: SwapChainSupportDetails,
}

/// A device is suitable when the queue family scan completes, every
/// required extension is reported, and the surface offers at least one
/// format and one present mode.
pub open spec fn device_suitable(dev: PhysicalDeviceInfo, required_extensions: Seq<&str>) -> bool {
    &&& chosen_queue_families(dev.queue_families@).complete()
    &&& all_names_supported(required_extensions, dev.extension_names_raw@)
    &&& dev.swap_chain_support.formats@.len() > 0
    &&& dev.swap_chain_support.present_modes@.len() > 0
}

/// Whether one physical device can drive the bootstrap.
pub fn is_device_suitable(dev: &PhysicalDeviceInfo, required: &DeviceExtension) -> (r: bool)
    requires
        dev.queue_families@.len() <= u32::MAX,
    ensures
        r == device_suitable(*dev, required.name@),
{
    let queue_family_indices = find_queue_family(&dev.queue_families);
    let extensions_support = check_physic_device_extension_support(
        required,
        &dev.extension_names_raw,
    );
    let mut swap_chain_adequate = false;
    if extensions_support {
        swap_chain_adequate = dev.swap_chain_support.formats.len() > 0
            && dev.swap_chain_support.present_modes.len() > 0;
    }
    queue_family_indices.is_complete() && extensions_support && swap_chain_adequate
}

/// The device the bootstrap runs on: the first suitable one in enumeration
/// order, or none when no device is suitable (including when none exists).
pub fn pick_physic_device(
    devices: &Vec<PhysicalDeviceInfo>,
    required: &DeviceExtension,
) -> (r: Option<usize>)
    requires
        forall|i: int| 0 <= i < devices@.len()
            ==> (#[trigger] devices@[i]).queue_families@.len() <= u32::MAX,
    ensures
        r matches Some(i) ==> i < devices@.len() && device_suitable(
            devices@[i as int],
            required.name@,
        ) && (forall|j: int| 0 <= j < i ==> !device_suitable(
            #[trigger] devices@[j],
            required.name@,
        )),
        r is None ==> forall|j: int| 0 <= j < devices@.len() ==> !device_suitable(
            #[trigger] devices@[j],
            required.name@,
        ),
{
    let mut i: usize = 0;
    while i < devices.len()
        invariant
            0 <= i <= devices@.len(),
            forall|k: int| 0 <= k < devices@.len()
                ==> (#[trigger] devices@[k]).queue_families@.len() <= u32::MAX,
            forall|j: int| 0 <= j < i ==> !device_suitable(
                #[trigger] devices@[j],
                required.name@,
            ),
        decreases devices@.len() - i,
    {
        if is_device_suitable(&devices[i], required) {
            return Some(i);
        }
        i = i + 1;
    }
    None
}

/// The distinct queue family indices a logical device creates queues for:
/// the graphics family and, when it differs, the present family.
pub fn unique_queue_families(indices: &QueueFamilyIndices) -> (r: Vec<u32>)
    requires
        indices.complete(),
    ensures
        ({
            let g = indices.graphics_family.unwrap();
            let p = indices.present_family.unwrap();
            &&& (g == p ==> r@ == seq![g])
            &&& (g != p ==> r@ == seq![g, p])
        }),
{
    let g = indices.graphics_family.unwrap();
    let p = indices.present_family.unwrap();
    let mut out: Vec<u32> = Vec::new();
    out.push(g);
    if p != g {
        out.push(p);
        proof {
            assert(out@ =~= seq![g, p]);
        }
    } else {
        proof {
            assert(out@ =~= seq![g]);
        }
    }
    out
}

} // verus!
