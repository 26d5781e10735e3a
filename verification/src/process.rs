//! The handles of tasks.

use vstd::prelude::*;
use crate::handle::{is_granted, looked_up, lookup_len, take_handle};
use crate::session::{Exchange, Session};
use crate::status::Status;
use crate::transport::Transport;

verus! {

/// Whether `run` begins with a lookup of the task labelled `task`: the
/// request for its handle and, only where that was granted, the copy of a
/// handle.
pub open spec fn begins_with_process_lookup(task: u32, run: Seq<Exchange>) -> bool {
    &&& run.len() >= lookup_len(run)
    &&& run[0] is GetProcessHandle
    &&& run[0]->GetProcessHandle_label == task
    &&& is_granted(run[0]) ==> run[1] is CopyHandle
}

/// Looks up the handle of the task labelled `task`.
///
/// The kernel is asked once. Where it grants the request, the handle is copied
/// out of the exchange area; where it does not, nothing is copied. The result
/// is the handle, or `Denied` where the request was refused or the copy did
/// not report success.
pub fn get_process_handle<K: Transport>(session: &mut Session<K>, task: u32) -> (res: Result<
    u32,
    Status,
>)
    ensures
        final(session).extends(*old(session)),
        begins_with_process_lookup(task, final(session).since(*old(session))),
        final(session).since(*old(session)).len() == lookup_len(final(session).since(*old(session))),
        res == looked_up(final(session).since(*old(session))),
{
    let status = session.get_process_handle(task);
    if status != Status::Success {
        return Err(Status::Denied);
    }
    take_handle(session)
}

} // verus!
