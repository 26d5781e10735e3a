//! The way to the kernel.

use vstd::prelude::*;
use crate::info::ShmInfo;
use crate::status::Status;

verus! {

/// The requests that this crate makes of a kernel, one method each.
///
/// Nothing is asked of an implementation: whatever it answers, the functions of
/// this crate behave as their contracts say. [`crate::sentry::Sentry`] is the
/// kernel itself; a test may put another in its place.
pub trait Transport {
    /// Asks for the handle of the shared memory labelled `label`; a kernel
    /// that finds it leaves it in the exchange area.
    fn get_shm_handle(&mut self, label: u32) -> Status;

    /// Asks for the handle of the task labelled `label`; a kernel that finds
    /// it leaves it in the exchange area.
    fn get_process_handle(&mut self, label: u32) -> Status;

    /// Asks for the record of the shared memory `handle`; a kernel that has it
    /// leaves it in the exchange area.
    fn shm_get_infos(&mut self, handle: u32) -> Status;

    /// Asks to give the task `to_task` the rights `perms` over the shared
    /// memory `handle`.
    fn shm_set_credential(&mut self, handle: u32, to_task: u32, perms: u32) -> Status;

    /// Asks to map the shared memory `handle` into the caller's memory.
    fn map_shm(&mut self, handle: u32) -> Status;

    /// Asks to take the shared memory `handle` out of the caller's memory.
    fn unmap_shm(&mut self, handle: u32) -> Status;

    /// Asks to send the first `len` bytes of the exchange area to the log.
    fn log(&mut self, len: usize) -> Status;

    /// Takes a handle out of the exchange area into `to`.
    fn copy_handle_from_kernel(&mut self, to: &mut u32) -> Result<Status, Status>;

    /// Takes the record of a shared memory out of the exchange area into `to`.
    fn copy_info_from_kernel(&mut self, to: &mut ShmInfo) -> Result<Status, Status>;

    /// Puts `bytes` into the exchange area.
    fn copy_bytes_to_kernel(&mut self, bytes: &[u8]) -> Result<Status, Status>;
}

} // verus!
