//! What the kernel tells about a shared memory, and the rights over one.

use vstd::prelude::*;

verus! {

/// The right to map a shared memory, with no right yet to read or write it.
pub const SHM_PERMISSION_MAP: u32 = 0x1;

/// The right to read a shared memory that is mapped.
pub const SHM_PERMISSION_READ: u32 = 0x2;

/// The right to write a shared memory that is mapped.
pub const SHM_PERMISSION_WRITE: u32 = 0x4;

/// The right to hand a shared memory over to another task.
pub const SHM_PERMISSION_TRANSFER: u32 = 0x8;

/// The record that the kernel keeps of a shared memory, as it was when asked.
#[derive(Clone, Copy, PartialEq, Eq, Structural, Debug)]
pub struct ShmInfo {
    /// The handle that the kernel gave the shared memory at boot.
    pub handle: u32,
    /// The label that the shared memory was given when the image was built.
    pub label: u32,
    /// The address at which the shared memory starts.
    pub base: usize,
    /// The size of the shared memory, in bytes.
    pub len: usize,
    /// The rights of the caller over the shared memory, one bit each.
    pub perms: u32,
}

/// Whether the rights `perms` hold the right `right`, one of the four
/// `SHM_PERMISSION` bits.
pub open spec fn grants(perms: u32, right: u32) -> bool {
    perms & right != 0
}

/// Tells whether the rights `perms` hold the right `right`.
pub fn has_right(perms: u32, right: u32) -> (held: bool)
    ensures
        held == grants(perms, right),
{
    perms & right != 0
}

} // verus!
