//! Readings of the raw values that the window system returns.

use vstd::prelude::*;

verus! {

/// The handle is one that no window has.
pub open spec fn handle_invalid(handle: isize) -> bool {
    handle == -1 || handle == 0
}

/// The flag is set.
pub open spec fn flag_set(flag: i32) -> bool {
    flag != 0
}

/// Calls `windows::Win32::Foundation::HANDLE::is_invalid`, which holds of the
/// null handle and of the handle of all ones, and of no other.
#[verifier::external_body]
pub(crate) fn handle_is_invalid(handle: isize) -> (invalid: bool)
    ensures
        invalid == handle_invalid(handle),
{
    windows::Win32::Foundation::HANDLE(handle).is_invalid()
}

/// Calls `windows::Win32::Foundation::BOOL::as_bool`, which holds of every
/// value but zero.
#[verifier::external_body]
pub(crate) fn as_bool(flag: i32) -> (set: bool)
    ensures
        set == flag_set(flag),
{
    windows::Win32::Foundation::BOOL(flag).as_bool()
}

} // verus!
