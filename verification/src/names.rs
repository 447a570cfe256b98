//! NUL-terminated names, as the driver reports them in fixed-size byte
//! arrays, and the test whether a set of required names is covered by the
//! names that were reported.

use vstd::prelude::*;
use vstd::slice::slice_to_vec;
use vstd::string::StringSliceAdditionalSpecFns;

verus! {

/// Length of the prefix of `s` that precedes the first NUL byte, or the
/// whole length when no NUL occurs.
pub open spec fn len_to_nul(s: Seq<u8>) -> int
    decreases s.len(),
{
    if s.len() == 0 {
        0
    } else if s[0] == 0u8 {
        0
    } else {
        1 + len_to_nul(s.drop_first())
    }
}

/// The name held in a NUL-terminated byte array: everything before the
/// first NUL byte.
pub open spec fn cstr_of(s: Seq<u8>) -> Seq<u8> {
    s.take(len_to_nul(s))
}

pub proof fn lemma_len_to_nul_is_first_nul(s: Seq<u8>, n: int)
    requires
        0 <= n <= s.len(),
        forall|j: int| 0 <= j < n ==> s[j] != 0u8,
        n < s.len() ==> s[n] == 0u8,
    ensures
        len_to_nul(s) == n,
    decreases s.len(),
{
    if n == 0 {
    } else {
        assert(s[0] != 0u8);
        assert forall|j: int| 0 <= j < n - 1 implies s.drop_first()[j] != 0u8 by {
            assert(s.drop_first()[j] == s[j + 1]);
        }
        assert(n - 1 < s.drop_first().len() ==> s.drop_first()[n - 1] == 0u8);
        lemma_len_to_nul_is_first_nul(s.drop_first(), n - 1);
    }
}

/// The bytes of a NUL-terminated name: the prefix of `raw` before the first
/// NUL byte, or all of `raw` when it holds no NUL.
pub fn cstr_prefix(raw: &[u8]) -> (r: Vec<u8>)
    ensures
        r@ == cstr_of(raw@),
{
    let mut out: Vec<u8> = Vec::new();
    let mut i: usize = 0;
    while i < raw.len()
        invariant
            0 <= i <= raw@.len(),
            out@ == raw@.take(i as int),
            forall|j: int| 0 <= j < i ==> raw@[j] != 0u8,
        decreases raw@.len() - i,
    {
        if raw[i] == 0 {
            proof {
                lemma_len_to_nul_is_first_nul(raw@, i as int);
            }
            return out;
        }
        out.push(raw[i]);
        i = i + 1;
        proof {
            assert(out@ =~= raw@.take(i as int));
        }
    }
    proof {
        lemma_len_to_nul_is_first_nul(raw@, raw@.len() as int);
        assert(raw@.take(raw@.len() as int) =~= raw@);
    }
    out
}

/// Whether two byte strings hold the same bytes.
pub fn bytes_equal(a: &[u8], b: &[u8]) -> (r: bool)
    ensures
        r == (a@ == b@),
{
    if a.len() != b.len() {
        return false;
    }
    let mut i: usize = 0;
    while i < a.len()
        invariant
            a@.len() == b@.len(),
            0 <= i <= a@.len(),
            forall|j: int| 0 <= j < i ==> a@[j] == b@[j],
        decreases a@.len() - i,
    {
        if a[i] != b[i] {
            return false;
        }
        i = i + 1;
    }
    proof {
        assert(a@ =~= b@);
    }
    true
}

/// Whether `name` is among the names reported in `available`, each entry of
/// which is a NUL-terminated byte array.
pub open spec fn name_supported(name: Seq<u8>, available: Seq<Vec<u8>>) -> bool {
    exists|j: int| 0 <= j < available.len() && cstr_of(#[trigger] available[j]@) == name
}

/// Whether every name in `required` (in UTF-8 bytes) is among the
/// NUL-terminated names reported in `available`.
pub open spec fn all_names_supported(required: Seq<&str>, available: Seq<Vec<u8>>) -> bool {
    forall|i: int| 0 <= i < required.len()
        ==> name_supported((#[trigger] required[i]).spec_bytes(), available)
}

/// Whether `name` occurs among the NUL-terminated names in `available_raw`.
pub fn name_present(name: &[u8], available_raw: &Vec<Vec<u8>>) -> (r: bool)
    ensures
        r == name_supported(name@, available_raw@),
{
    let mut j: usize = 0;
    while j < available_raw.len()
        invariant
            0 <= j <= available_raw@.len(),
            forall|k: int| 0 <= k < j ==> cstr_of(#[trigger] available_raw@[k]@) != name@,
        decreases available_raw@.len() - j,
    {
        let candidate = cstr_prefix(available_raw[j].as_slice());
        if bytes_equal(candidate.as_slice(), name) {
            proof {
                assert(cstr_of(available_raw@[j as int]@) == name@);
            }
            return true;
        }
        j = j + 1;
    }
    false
}

/// Whether every name in `required` occurs among the NUL-terminated names
/// in `available_raw`.
pub fn all_names_present(required: &[&'static str], available_raw: &Vec<Vec<u8>>) -> (r: bool)
    ensures
        r == all_names_supported(required@, available_raw@),
{
    let mut i: usize = 0;
    while i < required.len()
        invariant
            0 <= i <= required@.len(),
            forall|k: int| 0 <= k < i
                ==> name_supported((#[trigger] required@[k]).spec_bytes(), available_raw@),
        decreases required@.len() - i,
    {
        let name: Vec<u8> = slice_to_vec(required[i].as_bytes());
        if !name_present(name.as_slice(), available_raw) {
            return false;
        }
        i = i + 1;
    }
    true
}

} // verus!
