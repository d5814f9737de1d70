//! Layer and extension names, and the membership checks the capability
//! prober runs over them.
//!
//! The driver reports layer and extension names as fixed-size C strings; the
//! embedder hands them to this crate as plain byte vectors, one per name.

use vstd::prelude::*;

verus! {

/// ASCII bytes of the swap-chain device extension name, `VK_KHR_swapchain`.
pub open spec fn spec_khr_swapchain_extension_name() -> Seq<u8> {
    seq![86u8, 75, 95, 75, 72, 82, 95, 115, 119, 97, 112, 99, 104, 97, 105, 110]
}

/// ASCII bytes of the validation layer name, `VK_LAYER_KHRONOS_validation`.
pub open spec fn spec_validation_layer_name() -> Seq<u8> {
    seq![86u8, 75, 95, 76, 65, 89, 69, 82, 95, 75, 72, 82, 79, 78, 79, 83, 95, 118, 97, 108, 105, 100, 97, 116, 105, 111, 110]
}

/// ASCII bytes of the debug-utilities instance extension name,
/// `VK_EXT_debug_utils`.
pub open spec fn spec_debug_utils_extension_name() -> Seq<u8> {
    seq![86u8, 75, 95, 69, 88, 84, 95, 100, 101, 98, 117, 103, 95, 117, 116, 105, 108, 115]
}

/// The name `VK_KHR_swapchain` as a byte vector.
pub fn khr_swapchain_extension_name() -> (r: Vec<u8>)
    ensures
        r@ == spec_khr_swapchain_extension_name(),
{
    let r: Vec<u8> = vec![86, 75, 95, 75, 72, 82, 95, 115, 119, 97, 112, 99, 104, 97, 105, 110];
    proof {
        assert(r@ =~= spec_khr_swapchain_extension_name());
    }
    r
}

/// The name `VK_LAYER_KHRONOS_validation` as a byte vector.
pub fn validation_layer_name() -> (r: Vec<u8>)
    ensures
        r@ == spec_validation_layer_name(),
{
    let r: Vec<u8> = vec![86, 75, 95, 76, 65, 89, 69, 82, 95, 75, 72, 82, 79, 78, 79, 83, 95, 118, 97, 108, 105, 100, 97, 116, 105, 111, 110];
    proof {
        assert(r@ =~= spec_validation_layer_name());
    }
    r
}

/// The name `VK_EXT_debug_utils` as a byte vector.
pub fn debug_utils_extension_name() -> (r: Vec<u8>)
    ensures
        r@ == spec_debug_utils_extension_name(),
{
    let r: Vec<u8> = vec![86, 75, 95, 69, 88, 84, 95, 100, 101, 98, 117, 103, 95, 117, 116, 105, 108, 115];
    proof {
        assert(r@ =~= spec_debug_utils_extension_name());
    }
    r
}

/// The single required device extension: the swap-chain extension.
pub fn required_device_extensions() -> (r: Vec<Vec<u8>>)
    ensures
        r@.len() == 1,
        r@[0]@ == spec_khr_swapchain_extension_name(),
{
    let mut r: Vec<Vec<u8>> = Vec::new();
    r.push(khr_swapchain_extension_name());
    r
}

/// Whether the list `names` holds an entry with exactly the bytes of `name`.
pub open spec fn spec_contains_name(names: Seq<Vec<u8>>, name: Seq<u8>) -> bool {
    exists|i: int| 0 <= i < names.len() && names[i]@ == name
}

/// Whether every name in `required` occurs in `available`.
pub open spec fn spec_supports_all(available: Seq<Vec<u8>>, required: Seq<Vec<u8>>) -> bool {
    forall|i: int| #![auto] 0 <= i < required.len() ==> spec_contains_name(available, required[i]@)
}

/// Byte-for-byte equality of two names.
pub fn names_equal(a: &Vec<u8>, b: &Vec<u8>) -> (r: bool)
    ensures
        r <==> a@ == b@,
{
    if a.len() != b.len() {
        return false;
    }
    let mut i: usize = 0;
    while i < a.len()
        invariant
            i <= a@.len(),
            a@.len() == b@.len(),
            forall|j: int| 0 <= j < i ==> a@[j] == b@[j],
        decreases a@.len() - i,
    {
        if a[i] != b[i] {
            return false;
        }
        i = i + 1;
    }
    proof {
        assert(a@ =~= b@);
    }
    true
}

/// Membership of `name` in `names`, byte-for-byte.
pub fn contains_name(names: &Vec<Vec<u8>>, name: &Vec<u8>) -> (r: bool)
    ensures
        r <==> spec_contains_name(names@, name@),
{
    let mut i: usize = 0;
    while i < names.len()
        invariant
            i <= names@.len(),
            forall|j: int| #![auto] 0 <= j < i ==> names@[j]@ != name@,
        decreases names@.len() - i,
    {
        if names_equal(&names[i], name) {
            return true;
        }
        i = i + 1;
    }
    false
}

/// Whether every required name occurs in the available list: the
/// extension-coverage check of the suitability predicate.
pub fn supports_all_names(available: &Vec<Vec<u8>>, required: &Vec<Vec<u8>>) -> (r: bool)
    ensures
        r <==> spec_supports_all(available@, required@),
{
    let mut i: usize = 0;
    while i < required.len()
        invariant
            i <= required@.len(),
            forall|j: int| #![auto] 0 <= j < i ==> spec_contains_name(available@, required@[j]@),
        decreases required@.len() - i,
    {
        if !contains_name(available, &required[i]) {
            return false;
        }
        i = i + 1;
    }
    true
}

} // verus!
