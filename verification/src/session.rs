//! A session with a kernel, and the record of what passed in it.

use vstd::prelude::*;
use crate::info::ShmInfo;
use crate::status::Status;
use crate::transport::Transport;

verus! {

/// One request that went to the kernel, together with its answer.
pub enum Exchange {
    /// The handle of the shared memory `label` was asked for.
    GetShmHandle { label: u32, status: Status },
    /// The handle of the task `label` was asked for.
    GetProcessHandle { label: u32, status: Status },
    /// The record of the shared memory `handle` was asked for.
    ShmGetInfos { handle: u32, status: Status },
    /// The rights `perms` over the shared memory `handle` were asked for the
    /// task `to_task`.
    ShmSetCredential { handle: u32, to_task: u32, perms: u32, status: Status },
    /// The shared memory `handle` was asked to be mapped.
    MapShm { handle: u32, status: Status },
    /// The shared memory `handle` was asked to be unmapped.
    UnmapShm { handle: u32, status: Status },
    /// The first `len` bytes of the exchange area were asked to be logged.
    Log { len: usize, status: Status },
    /// A handle was taken out of the exchange area: `value` is what the buffer
    /// held afterwards.
    CopyHandle { copied: Result<Status, Status>, value: u32 },
    /// A record was taken out of the exchange area: `info` is what the buffer
    /// held afterwards.
    CopyInfo { copied: Result<Status, Status>, info: ShmInfo },
    /// The bytes `bytes` were put into the exchange area.
    CopyBytes { bytes: Seq<u8>, copied: Result<Status, Status> },
}

/// A kernel, and the record of every exchange with it since the session began.
///
/// The record is ghost: it costs nothing when the program runs. A function
/// that takes a session says in its contract which exchanges it added to the
/// record, and what it made of the answers.
pub struct Session<K: Transport> {
    kernel: K,
    exchanges: Ghost<Seq<Exchange>>,
}

impl<K: Transport> Session<K> {
    /// The kernel of the session, as it is now.
    pub closed spec fn kernel(&self) -> K {
        self.kernel
    }

    /// Every exchange of the session so far, the first one first.
    pub closed spec fn exchanges(&self) -> Seq<Exchange> {
        self.exchanges@
    }

    /// The exchanges that the session has had since it was `before`.
    pub open spec fn since(&self, before: Self) -> Seq<Exchange> {
        self.exchanges().skip(before.exchanges().len() as int)
    }

    /// The session went on from `before`: what was on record then still is,
    /// and in the same place.
    pub open spec fn extends(&self, before: Self) -> bool {
        &&& before.exchanges().len() <= self.exchanges().len()
        &&& self.exchanges().take(before.exchanges().len() as int) =~= before.exchanges()
    }

    /// Begins a session with `kernel`.
    pub fn new(kernel: K) -> (session: Self)
        ensures
            session.kernel() == kernel,
            session.exchanges() == Seq::<Exchange>::empty(),
    {
        Session { kernel, exchanges: Ghost(Seq::empty()) }
    }

    /// Ends the session and gives the kernel back.
    pub fn into_inner(self) -> (kernel: K)
        ensures
            kernel == self.kernel(),
    {
        self.kernel
    }

    /// Asks for the handle of the shared memory labelled `label`.
    pub fn get_shm_handle(&mut self, label: u32) -> (status: Status)
        ensures
            final(self).exchanges() == old(self).exchanges().push(Exchange::GetShmHandle { label, status }),
    {
        let status = self.kernel.get_shm_handle(label);
        proof {
            self.exchanges@ = self.exchanges@.push(Exchange::GetShmHandle { label, status });
        }
        status
    }

    /// Asks for the handle of the task labelled `label`.
    pub fn get_process_handle(&mut self, label: u32) -> (status: Status)
        ensures
            final(self).exchanges() == old(self).exchanges().push(
                Exchange::GetProcessHandle { label, status },
            ),
    {
        let status = self.kernel.get_process_handle(label);
        proof {
            self.exchanges@ = self.exchanges@.push(Exchange::GetProcessHandle { label, status });
        }
        status
    }

    /// Asks for the record of the shared memory `handle`.
    pub fn shm_get_infos(&mut self, handle: u32) -> (status: Status)
        ensures
            final(self).exchanges() == old(self).exchanges().push(Exchange::ShmGetInfos { handle, status }),
    {
        let status = self.kernel.shm_get_infos(handle);
        proof {
            self.exchanges@ = self.exchanges@.push(Exchange::ShmGetInfos { handle, status });
        }
        status
    }

    /// Asks to give the task `to_task` the rights `perms` over the shared
    /// memory `handle`.
    pub fn shm_set_credential(&mut self, handle: u32, to_task: u32, perms: u32) -> (status: Status)
        ensures
            final(self).exchanges() == old(self).exchanges().push(
                Exchange::ShmSetCredential { handle, to_task, perms, status },
            ),
    {
        let status = self.kernel.shm_set_credential(handle, to_task, perms);
        proof {
            self.exchanges@ = self.exchanges@.push(
                Exchange::ShmSetCredential { handle, to_task, perms, status },
            );
        }
        status
    }

    /// Asks to map the shared memory `handle`.
    pub fn map_shm(&mut self, handle: u32) -> (status: Status)
        ensures
            final(self).exchanges() == old(self).exchanges().push(Exchange::MapShm { handle, status }),
    {
        let status = self.kernel.map_shm(handle);
        proof {
            self.exchanges@ = self.exchanges@.push(Exchange::MapShm { handle, status });
        }
        status
    }

    /// Asks to unmap the shared memory `handle`.
    pub fn unmap_shm(&mut self, handle: u32) -> (status: Status)
        ensures
            final(self).exchanges() == old(self).exchanges().push(Exchange::UnmapShm { handle, status }),
    {
        let status = self.kernel.unmap_shm(handle);
        proof {
            self.exchanges@ = self.exchanges@.push(Exchange::UnmapShm { handle, status });
        }
        status
    }

    /// Asks to send the first `len` bytes of the exchange area to the log.
    pub fn log(&mut self, len: usize) -> (status: Status)
        ensures
            final(self).exchanges() == old(self).exchanges().push(Exchange::Log { len, status }),
    {
        let status = self.kernel.log(len);
        proof {
            self.exchanges@ = self.exchanges@.push(Exchange::Log { len, status });
        }
        status
    }

    /// Takes a handle out of the exchange area into `to`.
    pub fn copy_handle_from_kernel(&mut self, to: &mut u32) -> (copied: Result<Status, Status>)
        ensures
            final(self).exchanges() == old(self).exchanges().push(
                Exchange::CopyHandle { copied, value: *final(to) },
            ),
    {
        let copied = self.kernel.copy_handle_from_kernel(to);
        proof {
            self.exchanges@ = self.exchanges@.push(Exchange::CopyHandle { copied, value: *to });
        }
        copied
    }

    /// Takes the record of a shared memory out of the exchange area into `to`.
    pub fn copy_info_from_kernel(&mut self, to: &mut ShmInfo) -> (copied: Result<Status, Status>)
        ensures
            final(self).exchanges() == old(self).exchanges().push(
                Exchange::CopyInfo { copied, info: *final(to) },
            ),
    {
        let copied = self.kernel.copy_info_from_kernel(to);
        proof {
            self.exchanges@ = self.exchanges@.push(Exchange::CopyInfo { copied, info: *to });
        }
        copied
    }

    /// Puts `bytes` into the exchange area.
    pub fn copy_bytes_to_kernel(&mut self, bytes: &[u8]) -> (copied: Result<Status, Status>)
        ensures
            final(self).exchanges() == old(self).exchanges().push(
                Exchange::CopyBytes { bytes: bytes@, copied },
            ),
    {
        let copied = self.kernel.copy_bytes_to_kernel(bytes);
        proof {
            self.exchanges@ = self.exchanges@.push(Exchange::CopyBytes { bytes: bytes@, copied });
        }
        copied
    }
}

} // verus!
