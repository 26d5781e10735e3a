//! From a label to a handle.
//!
//! A label is fixed when the image is built; the handle that goes with it is
//! the kernel's to give, anew at each boot. A lookup is one request and, where
//! the kernel grants it, one copy out of the exchange area.

use vstd::prelude::*;
use crate::session::{Exchange, Session};
use crate::status::Status;
use crate::transport::Transport;

verus! {

/// Whether `x` is a request for a handle that the kernel granted.
pub open spec fn is_granted(x: Exchange) -> bool {
    ||| x is GetShmHandle && x->GetShmHandle_status == Status::Success
    ||| x is GetProcessHandle && x->GetProcessHandle_status == Status::Success
}

/// How many exchanges the lookup takes that `run` begins with: the request
/// and, only where that was granted, the copy of a handle.
pub open spec fn lookup_len(run: Seq<Exchange>) -> int {
    if run.len() >= 1 && is_granted(run[0]) {
        2
    } else {
        1
    }
}

/// Whether `run` begins with a lookup of the shared memory labelled `label`:
/// the request for its handle and, only where that was granted, the copy of a
/// handle.
pub open spec fn begins_with_shm_lookup(label: u32, run: Seq<Exchange>) -> bool {
    &&& run.len() >= lookup_len(run)
    &&& run[0] is GetShmHandle
    &&& run[0]->GetShmHandle_label == label
    &&& is_granted(run[0]) ==> run[1] is CopyHandle
}

/// What the lookup comes to that `run` begins with: the handle that was
/// copied, where the request was granted and the copy reported success, and
/// `Denied` in every other case.
pub open spec fn looked_up(run: Seq<Exchange>) -> Result<u32, Status> {
    if run.len() >= 2 && is_granted(run[0]) && run[1] is CopyHandle && run[1]->CopyHandle_copied
        == Ok::<Status, Status>(Status::Success) {
        Ok(run[1]->CopyHandle_value)
    } else {
        Err(Status::Denied)
    }
}

/// Takes out of the exchange area the handle that a granted request left
/// there.
pub(crate) fn take_handle<K: Transport>(session: &mut Session<K>) -> (res: Result<u32, Status>)
    ensures
        final(session).exchanges() == old(session).exchanges().push(final(session).exchanges().last()),
        final(session).exchanges().last() is CopyHandle,
        res == if final(session).exchanges().last()->CopyHandle_copied == Ok::<Status, Status>(
            Status::Success,
        ) {
            Ok::<u32, Status>(final(session).exchanges().last()->CopyHandle_value)
        } else {
            Err(Status::Denied)
        },
{
    let mut handle: u32 = 0;
    let copied = session.copy_handle_from_kernel(&mut handle);
    match copied {
        Ok(Status::Success) => Ok(handle),
        _ => Err(Status::Denied),
    }
}

} // verus!
