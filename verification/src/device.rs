//! Device suitability screening: the plain-value decisions behind picking a
//! physical accelerator.
//!
//! The application enumerates devices and queries each one's extension
//! names and surface support; the decisions — does the device list every
//! required extension, does the surface report usable formats and present
//! modes — are made here.

use vstd::prelude::*;

verus! {

/// Whether `available` lists `name`.
pub open spec fn name_listed(available: Seq<Vec<u8>>, name: Seq<u8>) -> bool {
    exists|i: int| 0 <= i < available.len() && #[trigger] available[i]@ == name
}

/// Whether `available` lists every name in `required`.
pub open spec fn all_listed(available: Seq<Vec<u8>>, required: Seq<Vec<u8>>) -> bool {
    forall|i: int| 0 <= i < required.len() ==> name_listed(available, #[trigger] required[i]@)
}

/// Byte-wise equality of two names.
fn bytes_eq(a: &Vec<u8>, b: &Vec<u8>) -> (r: bool)
    ensures
        r == (a@ == b@),
{
    if a.len() != b.len() {
        return false;
    }
    let n = a.len();
    let mut i: usize = 0;
    while i < n
        invariant
            n == a@.len(),
            n == b@.len(),
            0 <= i <= n,
            forall|j: int| 0 <= j < i ==> a@[j] == b@[j],
        decreases n - i,
    {
        if a[i] != b[i] {
            return false;
        }
        i += 1;
    }
    assert(a@ =~= b@);
    true
}

/// Whether the device's extension list carries `name`.
fn name_available(available: &Vec<Vec<u8>>, name: &Vec<u8>) -> (r: bool)
    ensures
        r == name_listed(available@, name@),
{
    let n = available.len();
    let mut i: usize = 0;
    while i < n
        invariant
            n == available@.len(),
            0 <= i <= n,
            forall|j: int| 0 <= j < i ==> available@[j]@ != name@,
        decreases n - i,
    {
        if bytes_eq(&available[i], name) {
            return true;
        }
        i += 1;
    }
    false
}

/// Decides whether a device offers every required extension: true exactly
/// when each required name appears, byte for byte, among the names the
/// device reports.
pub fn check_physical_device_extensions(
    available: &Vec<Vec<u8>>,
    required: &Vec<Vec<u8>>,
) -> (r: bool)
    ensures
        r == all_listed(available@, required@),
{
    let n = required.len();
    let mut i: usize = 0;
    while i < n
        invariant
            n == required@.len(),
            0 <= i <= n,
            forall|j: int| 0 <= j < i ==> name_listed(available@, #[trigger] required@[j]@),
        decreases n - i,
    {
        if !name_available(available, &required[i]) {
            return false;
        }
        i += 1;
    }
    true
}

/// Decides whether a surface can host a swapchain at all: it must report
/// at least one format and at least one present mode. Checked at device
/// selection time, as the swapchain builder's precondition.
pub fn surface_support_adequate(format_count: usize, present_mode_count: usize) -> (r: bool)
    ensures
        r == (format_count > 0 && present_mode_count > 0),
{
    format_count > 0 && present_mode_count > 0
}

} // verus!
