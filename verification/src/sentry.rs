//! The Sentry kernel, reached through the `sentry_uapi` crate.
//!
//! Each function of `sentry_uapi` that this crate calls stands here once,
//! behind a private function whose contract is believed, not proved. Believed
//! of each is that a status of `sentry_uapi`, taken as a number, is one of its
//! eleven, 0 to 10; and of the four that `sentry_uapi` answers without the
//! kernel, the log of more bytes than the exchange area holds and the three
//! copies, which status that is. What the kernel answers, and what it leaves
//! in the exchange area, is the kernel's to decide: nothing is claimed of it.
//! On a target `sentry_uapi` panics where the kernel answers with a number
//! that is no status; off target it answers every request itself.

use vstd::prelude::*;
use crate::info::ShmInfo;
use crate::status::Status;
use crate::transport::Transport;

verus! {

/// The size of the exchange area, in bytes.
pub const EXCHANGE_AREA_LEN: usize = 128;

/// Calls `sentry_uapi::syscall::get_shm_handle`. Believed of it: the status it
/// returns, taken as a number, is one of the eleven of
/// `sentry_uapi::systypes::Status`, 0 to 10.
#[verifier::external_body]
fn sys_get_shm_handle(label: u32) -> (code: u32)
    ensures
        code <= 10,
{
    sentry_uapi::syscall::get_shm_handle(label) as u32
}

/// Calls `sentry_uapi::syscall::get_process_handle`. Believed of it: the
/// status it returns, taken as a number, is one of the eleven of
/// `sentry_uapi::systypes::Status`, 0 to 10.
#[verifier::external_body]
fn sys_get_process_handle(label: u32) -> (code: u32)
    ensures
        code <= 10,
{
    sentry_uapi::syscall::get_process_handle(label) as u32
}

/// Calls `sentry_uapi::syscall::shm_get_infos`. Believed of it: the status it
/// returns, taken as a number, is one of the eleven of
/// `sentry_uapi::systypes::Status`, 0 to 10.
#[verifier::external_body]
fn sys_shm_get_infos(handle: u32) -> (code: u32)
    ensures
        code <= 10,
{
    sentry_uapi::syscall::shm_get_infos(handle) as u32
}

/// Calls `sentry_uapi::syscall::shm_set_credential`. Believed of it: the
/// status it returns, taken as a number, is one of the eleven of
/// `sentry_uapi::systypes::Status`, 0 to 10.
#[verifier::external_body]
fn sys_shm_set_credential(handle: u32, to_task: u32, perms: u32) -> (code: u32)
    ensures
        code <= 10,
{
    sentry_uapi::syscall::shm_set_credential(handle, to_task, perms) as u32
}

/// Calls `sentry_uapi::syscall::map_shm`. Believed of it: the status it
/// returns, taken as a number, is one of the eleven of
/// `sentry_uapi::systypes::Status`, 0 to 10.
#[verifier::external_body]
fn sys_map_shm(handle: u32) -> (code: u32)
    ensures
        code <= 10,
{
    sentry_uapi::syscall::map_shm(handle) as u32
}

/// Calls `sentry_uapi::syscall::unmap_shm`. Believed of it: the status it
/// returns, taken as a number, is one of the eleven of
/// `sentry_uapi::systypes::Status`, 0 to 10.
#[verifier::external_body]
fn sys_unmap_shm(handle: u32) -> (code: u32)
    ensures
        code <= 10,
{
    sentry_uapi::syscall::unmap_shm(handle) as u32
}

/// Calls `sentry_uapi::syscall::log`. Believed of it: the status it returns,
/// taken as a number, is one of the eleven of `sentry_uapi::systypes::Status`,
/// 0 to 10; and for more bytes than the exchange area holds it is `Invalid`,
/// which is 1, and the kernel is not asked.
#[verifier::external_body]
fn sys_log(len: usize) -> (code: u32)
    ensures
        code <= 10,
        len > EXCHANGE_AREA_LEN ==> code == 1,
{
    sentry_uapi::syscall::log(len) as u32
}

/// Calls `sentry_uapi::copy_from_kernel` on a `u32`. Believed of it: it
/// returns `Ok` of the status `Ok`, which is 0, or else `Err` of the status
/// `Invalid`, which is 1, and then it has left `to` as it was. Nothing is
/// claimed of what it leaves in `to` where it returns `Ok`.
#[verifier::external_body]
fn sys_copy_handle_from_kernel(to: &mut u32) -> (copied: Result<u32, u32>)
    ensures
        (copied is Ok && copied->Ok_0 == 0) || (copied is Err && copied->Err_0 == 1),
        copied is Err ==> *final(to) == *old(to),
{
    match sentry_uapi::copy_from_kernel(to) {
        Ok(status) => Ok(status as u32),
        Err(status) => Err(status as u32),
    }
}

/// Calls `sentry_uapi::copy_from_kernel` on a `sentry_uapi::systypes::shm::ShmInfo`
/// that starts with the fields of `to` and whose fields `to` has in the end.
/// Believed of it: it returns `Ok` of the status `Ok`, which is 0. Nothing is
/// claimed of what it leaves in `to`.
#[verifier::external_body]
fn sys_copy_info_from_kernel(to: &mut ShmInfo) -> (copied: Result<u32, u32>)
    ensures
        copied is Ok && copied->Ok_0 == 0,
{
    let ShmInfo { handle, label, base, len, perms } = *to;
    let mut raw = sentry_uapi::systypes::shm::ShmInfo { handle, label, base, len, perms };
    let copied = sentry_uapi::copy_from_kernel(&mut raw);
    let sentry_uapi::systypes::shm::ShmInfo { handle, label, base, len, perms } = raw;
    *to = ShmInfo { handle, label, base, len, perms };
    match copied {
        Ok(status) => Ok(status as u32),
        Err(status) => Err(status as u32),
    }
}

/// Calls `sentry_uapi::copy_to_kernel` on a slice of bytes. Believed of it:
/// it returns `Ok` of the status `Ok`, which is 0.
#[verifier::external_body]
fn sys_copy_bytes_to_kernel(bytes: &[u8]) -> (copied: Result<u32, u32>)
    ensures
        copied is Ok && copied->Ok_0 == 0,
{
    match sentry_uapi::copy_to_kernel(&bytes) {
        Ok(status) => Ok(status as u32),
        Err(status) => Err(status as u32),
    }
}

/// The status that the number `code` stands for.
fn status_of(code: u32) -> (status: Status)
    requires
        code <= 10,
    ensures
        status.code() == code,
{
    Status::from_code(code).unwrap()
}

/// The two statuses of a copy, each for its number.
fn copied_of(copied: Result<u32, u32>) -> (statuses: Result<Status, Status>)
    requires
        copied is Ok ==> copied->Ok_0 <= 10,
        copied is Err ==> copied->Err_0 <= 10,
    ensures
        copied is Ok ==> statuses is Ok && statuses->Ok_0.code() == copied->Ok_0,
        copied is Err ==> statuses is Err && statuses->Err_0.code() == copied->Err_0,
{
    match copied {
        Ok(code) => Ok(status_of(code)),
        Err(code) => Err(status_of(code)),
    }
}

/// The Sentry kernel under the running task.
///
/// Requests are system calls; what the kernel hands back beside a status lies
/// in the exchange area of the task, from which the three copies take it.
#[derive(Clone, Copy, Debug)]
pub struct Sentry;

impl Transport for Sentry {
    /// Asks for the handle of the shared memory labelled `label`. The answer
    /// is the kernel's.
    fn get_shm_handle(&mut self, label: u32) -> Status {
        status_of(sys_get_shm_handle(label))
    }

    /// Asks for the handle of the task labelled `label`. The answer is the
    /// kernel's.
    fn get_process_handle(&mut self, label: u32) -> Status {
        status_of(sys_get_process_handle(label))
    }

    /// Asks for the record of the shared memory `handle`. The answer is the
    /// kernel's.
    fn shm_get_infos(&mut self, handle: u32) -> Status {
        status_of(sys_shm_get_infos(handle))
    }

    /// Asks to give the task `to_task` the rights `perms` over the shared
    /// memory `handle`. The answer is the kernel's.
    fn shm_set_credential(&mut self, handle: u32, to_task: u32, perms: u32) -> Status {
        status_of(sys_shm_set_credential(handle, to_task, perms))
    }

    /// Asks to map the shared memory `handle`. The answer is the kernel's.
    fn map_shm(&mut self, handle: u32) -> Status {
        status_of(sys_map_shm(handle))
    }

    /// Asks to unmap the shared memory `handle`. The answer is the kernel's.
    fn unmap_shm(&mut self, handle: u32) -> Status {
        status_of(sys_unmap_shm(handle))
    }

    /// Asks to send the first `len` bytes of the exchange area to the log.
    ///
    /// More bytes than the exchange area holds are refused with `Invalid`
    /// before the kernel is asked; else the answer is the kernel's.
    fn log(&mut self, len: usize) -> (status: Status)
        ensures
            len > EXCHANGE_AREA_LEN ==> status == Status::Invalid,
    {
        status_of(sys_log(len))
    }

    /// Takes a handle out of the exchange area into `to`.
    ///
    /// The copy reports success, or else `Invalid` where the exchange area has
    /// no place for a handle, and then `to` is as it was.
    fn copy_handle_from_kernel(&mut self, to: &mut u32) -> (copied: Result<Status, Status>)
        ensures
            (copied is Ok && copied->Ok_0 == Status::Success) || (copied is Err && copied->Err_0
                == Status::Invalid),
            copied is Err ==> *final(to) == *old(to),
    {
        copied_of(sys_copy_handle_from_kernel(to))
    }

    /// Takes the record of a shared memory out of the exchange area into
    /// `to`. The copy always reports success.
    fn copy_info_from_kernel(&mut self, to: &mut ShmInfo) -> (copied: Result<Status, Status>)
        ensures
            copied is Ok && copied->Ok_0 == Status::Success,
    {
        copied_of(sys_copy_info_from_kernel(to))
    }

    /// Puts `bytes` into the exchange area, as many of them as it holds. The
    /// copy always reports success.
    fn copy_bytes_to_kernel(&mut self, bytes: &[u8]) -> (copied: Result<Status, Status>)
        ensures
            copied is Ok && copied->Ok_0 == Status::Success,
    {
        copied_of(sys_copy_bytes_to_kernel(bytes))
    }
}

} // verus!
