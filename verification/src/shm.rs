//! Shared memories, mapped and unmapped.
//!
//! A [`Shm`] stands for one shared memory of the kernel. Its type says whether
//! it is mapped: `map` exists on `Shm<Unmapped>` alone and gives a
//! `Shm<Mapped>`, `unmap` exists on `Shm<Mapped>` alone and gives a
//! `Shm<Unmapped>`. The object that a transition started from keeps a mark of
//! it, so that what the types cannot rule out, a second `map` on that same
//! object, is refused before the kernel hears of it.

use core::marker::PhantomData;
use vstd::prelude::*;
use crate::handle::{begins_with_shm_lookup, looked_up, lookup_len, take_handle};
use crate::info::{
    grants,
    has_right,
    ShmInfo,
    SHM_PERMISSION_MAP,
    SHM_PERMISSION_READ,
    SHM_PERMISSION_TRANSFER,
    SHM_PERMISSION_WRITE,
};
use crate::session::{Exchange, Session};
use crate::status::Status;
use crate::transport::Transport;

verus! {

/// The state of a shared memory that is mapped.
#[derive(Debug)]
pub struct Mapped;

/// The state of a shared memory that is not mapped.
#[derive(Debug)]
pub struct Unmapped;

/// What a [`Shm`] knows of its shared memory.
pub struct ShmView {
    /// The handle, once the kernel has given it.
    pub handle: Option<u32>,
    /// The label that the object was made for.
    pub label: Option<u32>,
    /// The task that the shared memory was mapped for, while it is mapped.
    pub mapped_to: Option<u32>,
    /// The rights that were last granted or seen.
    pub perms: Option<u32>,
}

impl ShmView {
    /// What an object knows that was just made for `label`, with `handle`
    /// looked up.
    pub open spec fn fresh(label: u32, handle: u32) -> ShmView {
        ShmView { handle: Some(handle), label: Some(label), mapped_to: None, perms: None }
    }

    /// Whether the handle has to be looked up before the kernel can be asked
    /// anything about the shared memory.
    pub open spec fn needs_lookup(self) -> bool {
        self.handle is None && self.label is Some
    }

    /// How many exchanges it takes until the handle is there, or is known not
    /// to be had: none where it is kept, or where there is no label to look it
    /// up by.
    pub open spec fn lookup_len(self, run: Seq<Exchange>) -> int {
        if self.needs_lookup() {
            lookup_len(run)
        } else {
            0
        }
    }

    /// Whether `run` begins with the lookup of the handle, where one is
    /// needed.
    pub open spec fn begins_with_lookup(self, run: Seq<Exchange>) -> bool {
        self.needs_lookup() ==> begins_with_shm_lookup(self.label->0, run)
    }

    /// The handle to ask the kernel with: the one that is kept, or else the one
    /// that the lookup at the beginning of `run` found. Without a handle and
    /// without a label it is `Invalid`.
    pub open spec fn handle_found(self, run: Seq<Exchange>) -> Result<u32, Status> {
        match self.handle {
            Some(handle) => Ok(handle),
            None => match self.label {
                Some(_) => looked_up(run),
                None => Err(Status::Invalid),
            },
        }
    }

    /// What is known once the handle was sought: a handle that was found is
    /// kept, and nothing else changes.
    pub open spec fn after_lookup(self, run: Seq<Exchange>) -> ShmView {
        match self.handle_found(run) {
            Ok(handle) => ShmView { handle: Some(handle), ..self },
            Err(_) => self,
        }
    }

    /// Whether `run` is the lookup of the handle, where one is needed, and
    /// after it, only where the handle is there, one more exchange.
    pub open spec fn is_lookup_and_request(self, run: Seq<Exchange>) -> bool {
        &&& self.begins_with_lookup(run)
        &&& run.len() == self.lookup_len(run) + if self.handle_found(run) is Ok {
            1int
        } else {
            0int
        }
    }

    /// The exchange that follows the lookup of the handle.
    pub open spec fn request(self, run: Seq<Exchange>) -> Exchange {
        run[self.lookup_len(run)]
    }

    /// Whether `run` is what asking for the record of the shared memory
    /// exchanges: the lookup of the handle, where one is needed; with the
    /// handle, the request for the record; and, only where that was granted,
    /// the copy of the record.
    pub open spec fn is_info_run(self, run: Seq<Exchange>) -> bool {
        let at = self.lookup_len(run);
        &&& self.begins_with_lookup(run)
        &&& match self.handle_found(run) {
            Ok(handle) => {
                &&& run.len() > at
                &&& run[at] is ShmGetInfos
                &&& run[at]->ShmGetInfos_handle == handle
                &&& if run[at]->ShmGetInfos_status == Status::Success {
                    run.len() == at + 2 && run[at + 1] is CopyInfo
                } else {
                    run.len() == at + 1
                }
            },
            Err(_) => run.len() == at,
        }
    }

    /// What asking for the record comes to: the record that was copied, where
    /// the handle was there, the request was granted and the copy reported
    /// success; the reason why there is no handle; and `Denied` in every other
    /// case.
    pub open spec fn info_result(self, run: Seq<Exchange>) -> Result<ShmInfo, Status> {
        let at = self.lookup_len(run);
        match self.handle_found(run) {
            Ok(_) => if run.len() == at + 2 && run[at]->ShmGetInfos_status == Status::Success
                && run[at + 1]->CopyInfo_copied == Ok::<Status, Status>(Status::Success) {
                Ok(run[at + 1]->CopyInfo_info)
            } else {
                Err(Status::Denied)
            },
            Err(status) => Err(status),
        }
    }

    /// Whether asking for the record shows the right `right`: there is a
    /// record, and it holds the right.
    pub open spec fn shows_right(self, right: u32, run: Seq<Exchange>) -> bool {
        self.info_result(run) is Ok && grants(self.info_result(run)->Ok_0.perms, right)
    }

    /// What is known once the right `right` was asked after: the rights of the
    /// record are kept where they hold it.
    pub open spec fn after_right(self, right: u32, run: Seq<Exchange>) -> ShmView {
        if self.shows_right(right, run) {
            ShmView { perms: Some(self.info_result(run)->Ok_0.perms), ..self.after_lookup(run) }
        } else {
            self.after_lookup(run)
        }
    }

    /// Whether `run` is what granting the task `to_task` the rights `perms`
    /// exchanges: nothing while the shared memory is mapped; else the lookup
    /// of the handle, where one is needed, and with the handle the request.
    pub open spec fn is_credential_run(self, to_task: u32, perms: u32, run: Seq<Exchange>) -> bool {
        if self.mapped_to is Some {
            run.len() == 0
        } else {
            &&& self.is_lookup_and_request(run)
            &&& self.handle_found(run) is Ok ==> {
                &&& self.request(run) is ShmSetCredential
                &&& self.request(run)->ShmSetCredential_handle == self.handle_found(run)->Ok_0
                &&& self.request(run)->ShmSetCredential_to_task == to_task
                &&& self.request(run)->ShmSetCredential_perms == perms
            }
        }
    }

    /// What granting rights comes to: `Busy` while the shared memory is
    /// mapped; the reason why there is no handle; else the answer of the
    /// kernel.
    pub open spec fn credential_result(self, run: Seq<Exchange>) -> Result<Status, Status> {
        if self.mapped_to is Some {
            Err(Status::Busy)
        } else {
            match self.handle_found(run) {
                Ok(_) => if self.request(run)->ShmSetCredential_status == Status::Success {
                    Ok(Status::Success)
                } else {
                    Err(self.request(run)->ShmSetCredential_status)
                },
                Err(status) => Err(status),
            }
        }
    }

    /// What is known once rights were to be granted: rights that were granted
    /// are kept.
    pub open spec fn after_credential(self, perms: u32, run: Seq<Exchange>) -> ShmView {
        if self.mapped_to is Some {
            self
        } else if self.credential_result(run) is Ok {
            ShmView { perms: Some(perms), ..self.after_lookup(run) }
        } else {
            self.after_lookup(run)
        }
    }

    /// Whether `run` is what mapping exchanges: nothing where the object was
    /// mapped from before; else the lookup of the handle, where one is needed,
    /// and with the handle the request.
    pub open spec fn is_map_run(self, run: Seq<Exchange>) -> bool {
        if self.mapped_to is Some {
            run.len() == 0
        } else {
            &&& self.is_lookup_and_request(run)
            &&& self.handle_found(run) is Ok ==> {
                &&& self.request(run) is MapShm
                &&& self.request(run)->MapShm_handle == self.handle_found(run)->Ok_0
            }
        }
    }

    /// What mapping for the task `to_task` comes to: `Busy` where the object
    /// was mapped from before; the reason why there is no handle; where the
    /// kernel granted the request, what the mapped object knows; else the
    /// answer of the kernel.
    pub open spec fn map_result(self, to_task: u32, run: Seq<Exchange>) -> Result<ShmView, Status> {
        if self.mapped_to is Some {
            Err(Status::Busy)
        } else {
            match self.handle_found(run) {
                Ok(handle) => if self.request(run)->MapShm_status == Status::Success {
                    Ok(
                        ShmView {
                            handle: Some(handle),
                            label: self.label,
                            mapped_to: Some(to_task),
                            perms: self.perms,
                        },
                    )
                } else {
                    Err(self.request(run)->MapShm_status)
                },
                Err(status) => Err(status),
            }
        }
    }

    /// What the object knows that was to be mapped: after a mapping, all that
    /// the mapped object knows, the task included.
    pub open spec fn after_map(self, to_task: u32, run: Seq<Exchange>) -> ShmView {
        if self.mapped_to is Some {
            self
        } else {
            match self.map_result(to_task, run) {
                Ok(mapped) => mapped,
                Err(_) => self.after_lookup(run),
            }
        }
    }

    /// Whether `run` is what unmapping exchanges: nothing where the object is
    /// not mapped any more; else the lookup of the handle, where one is
    /// needed, and with the handle the request.
    pub open spec fn is_unmap_run(self, run: Seq<Exchange>) -> bool {
        if self.mapped_to is None {
            run.len() == 0
        } else {
            &&& self.is_lookup_and_request(run)
            &&& self.handle_found(run) is Ok ==> {
                &&& self.request(run) is UnmapShm
                &&& self.request(run)->UnmapShm_handle == self.handle_found(run)->Ok_0
            }
        }
    }

    /// What unmapping comes to: `Invalid` where the object is not mapped any
    /// more; the reason why there is no handle; where the kernel granted the
    /// request, what the unmapped object knows, which is the handle and the
    /// label; else the answer of the kernel.
    pub open spec fn unmap_result(self, run: Seq<Exchange>) -> Result<ShmView, Status> {
        if self.mapped_to is None {
            Err(Status::Invalid)
        } else {
            match self.handle_found(run) {
                Ok(handle) => if self.request(run)->UnmapShm_status == Status::Success {
                    Ok(
                        ShmView {
                            handle: Some(handle),
                            label: self.label,
                            mapped_to: None,
                            perms: None,
                        },
                    )
                } else {
                    Err(self.request(run)->UnmapShm_status)
                },
                Err(status) => Err(status),
            }
        }
    }

    /// What the object knows that was to be unmapped: after an unmapping, all
    /// that the unmapped object knows.
    pub open spec fn after_unmap(self, run: Seq<Exchange>) -> ShmView {
        if self.mapped_to is None {
            self
        } else {
            match self.unmap_result(run) {
                Ok(unmapped) => unmapped,
                Err(_) => self.after_lookup(run),
            }
        }
    }
}

/// The result of a transition, with what the new object knows in place of the
/// object.
pub open spec fn viewed<State>(res: Result<Shm<State>, Status>) -> Result<ShmView, Status> {
    match res {
        Ok(shm) => Ok(shm@),
        Err(status) => Err(status),
    }
}

/// A shared memory of the kernel, in the state `State`: [`Mapped`] or
/// [`Unmapped`].
#[derive(Debug)]
pub struct Shm<State> {
    handle: Option<u32>,
    label: Option<u32>,
    mapped_to: Option<u32>,
    perms: Option<u32>,
    _marker: PhantomData<State>,
}

impl<State> View for Shm<State> {
    type V = ShmView;

    closed spec fn view(&self) -> ShmView {
        ShmView {
            handle: self.handle,
            label: self.label,
            mapped_to: self.mapped_to,
            perms: self.perms,
        }
    }
}

impl<State> Shm<State> {
    /// The handle, once the kernel has given it.
    pub fn handle(&self) -> (handle: Option<u32>)
        ensures
            handle == self@.handle,
    {
        self.handle
    }

    /// The label that the object was made for.
    pub fn label(&self) -> (label: Option<u32>)
        ensures
            label == self@.label,
    {
        self.label
    }

    /// The task that the shared memory was mapped for, while it is mapped.
    pub fn mapped_to(&self) -> (task: Option<u32>)
        ensures
            task == self@.mapped_to,
    {
        self.mapped_to
    }

    /// The rights that were last granted or seen.
    pub fn perms(&self) -> (perms: Option<u32>)
        ensures
            perms == self@.perms,
    {
        self.perms
    }

    /// Forgets the handle, so that the next request looks it up again by the
    /// label.
    pub fn forget_handle(&mut self)
        ensures
            final(self)@ == (ShmView { handle: None, ..old(self)@ }),
    {
        self.handle = None;
    }

    /// Asks the kernel for the record of the shared memory, and tells whether
    /// it holds the right `right`; rights that hold it are kept.
    fn shows_right<K: Transport>(&mut self, session: &mut Session<K>, right: u32) -> (held: bool)
        ensures
            final(session).extends(*old(session)),
            old(self)@.is_info_run(final(session).since(*old(session))),
            held == old(self)@.shows_right(right, final(session).since(*old(session))),
            final(self)@ == old(self)@.after_right(right, final(session).since(*old(session))),
    {
        match self.get_info(session) {
            Ok(info) => {
                if has_right(info.perms, right) {
                    self.perms = Some(info.perms);
                    true
                } else {
                    false
                }
            },
            Err(_) => false,
        }
    }

    /// The handle to ask the kernel with, looked up now if it is not kept.
    fn resolve<K: Transport>(&mut self, session: &mut Session<K>) -> (res: Result<u32, Status>)
        ensures
            final(session).extends(*old(session)),
            old(self)@.begins_with_lookup(final(session).since(*old(session))),
            final(session).since(*old(session)).len() == old(self)@.lookup_len(
                final(session).since(*old(session)),
            ),
            res == old(self)@.handle_found(final(session).since(*old(session))),
            final(self)@ == old(self)@.after_lookup(final(session).since(*old(session))),
    {
        match self.handle {
            Some(handle) => Ok(handle),
            None => match self.label {
                None => Err(Status::Invalid),
                Some(label) => match Self::get_handle(session, label) {
                    Ok(handle) => {
                        self.handle = Some(handle);
                        Ok(handle)
                    },
                    Err(status) => Err(status),
                },
            },
        }
    }
}

/// What can be asked of a shared memory in either state.
pub trait SentryShm {
    /// The shared memory, mapped.
    type Mapped;

    /// The shared memory, not mapped.
    type Unmapped;

    /// Looks up the handle of the shared memory labelled `label`.
    fn get_handle<K: Transport>(session: &mut Session<K>, label: u32) -> Result<u32, Status>;

    /// Makes the object for the shared memory labelled `label`, not mapped,
    /// with its handle looked up.
    fn new<K: Transport>(session: &mut Session<K>, label: u32) -> Result<Self::Unmapped, Status>;

    /// Asks the kernel for the record of the shared memory.
    fn get_info<K: Transport>(&mut self, session: &mut Session<K>) -> Result<ShmInfo, Status>;

    /// Grants the task `to_task` the rights `perms` over the shared memory.
    fn set_creds<K: Transport>(
        &mut self,
        session: &mut Session<K>,
        to_task: u32,
        perms: u32,
    ) -> Result<Status, Status>;

    /// Asks the kernel for the rights over the shared memory.
    fn get_creds<K: Transport>(&mut self, session: &mut Session<K>) -> Result<u32, Status>;

    /// Asks the kernel whether the shared memory may be mapped.
    fn is_mappable<K: Transport>(&mut self, session: &mut Session<K>) -> bool;

    /// Asks the kernel whether the shared memory may be read.
    fn is_readable<K: Transport>(&mut self, session: &mut Session<K>) -> bool;

    /// Asks the kernel whether the shared memory may be written.
    fn is_writable<K: Transport>(&mut self, session: &mut Session<K>) -> bool;

    /// Asks the kernel whether the shared memory may be handed over.
    fn is_transferable<K: Transport>(&mut self, session: &mut Session<K>) -> bool;

    /// Asks the kernel for the address at which the shared memory starts.
    fn get_base<K: Transport>(&mut self, session: &mut Session<K>) -> Result<usize, Status>;

    /// Asks the kernel for the size of the shared memory.
    fn get_len<K: Transport>(&mut self, session: &mut Session<K>) -> Result<usize, Status>;
}

/// The transition of a shared memory that is not mapped.
pub trait Mappable {
    /// The shared memory, mapped.
    type Mapped;

    /// The shared memory, not mapped.
    type Unmapped;

    /// Maps the shared memory, for the task `to_task`.
    fn map<K: Transport>(&mut self, session: &mut Session<K>, to_task: u32) -> Result<
        Self::Mapped,
        Status,
    >;
}

/// The transition of a shared memory that is mapped.
pub trait Unmappable {
    /// The shared memory, mapped.
    type Mapped;

    /// The shared memory, not mapped.
    type Unmapped;

    /// Unmaps the shared memory.
    fn unmap<K: Transport>(&mut self, session: &mut Session<K>) -> Result<Self::Unmapped, Status>;
}

impl<State> SentryShm for Shm<State> {
    type Mapped = Shm<Mapped>;

    type Unmapped = Shm<Unmapped>;

    /// Looks up the handle of the shared memory labelled `label`.
    ///
    /// The kernel is asked once. Where it grants the request, the handle is
    /// copied out of the exchange area; where it does not, nothing is copied.
    /// The result is the handle, or `Denied` where the request was refused or
    /// the copy did not report success.
    fn get_handle<K: Transport>(session: &mut Session<K>, label: u32) -> (res: Result<u32, Status>)
        ensures
            final(session).extends(*old(session)),
            begins_with_shm_lookup(label, final(session).since(*old(session))),
            final(session).since(*old(session)).len() == lookup_len(
                final(session).since(*old(session)),
            ),
            res == looked_up(final(session).since(*old(session))),
    {
        if session.get_shm_handle(label) != Status::Success {
            return Err(Status::Denied);
        }
        take_handle(session)
    }

    /// Makes the object for the shared memory labelled `label`, not mapped.
    ///
    /// The handle is looked up at once. Where it is found, the object keeps it
    /// beside the label, with no task and no rights; where it is not, the
    /// result is `Denied`.
    fn new<K: Transport>(session: &mut Session<K>, label: u32) -> (res: Result<
        Shm<Unmapped>,
        Status,
    >)
        ensures
            final(session).extends(*old(session)),
            begins_with_shm_lookup(label, final(session).since(*old(session))),
            final(session).since(*old(session)).len() == lookup_len(
                final(session).since(*old(session)),
            ),
            viewed(res) == match looked_up(final(session).since(*old(session))) {
                Ok(handle) => Ok::<ShmView, Status>(ShmView::fresh(label, handle)),
                Err(status) => Err(status),
            },
    {
        match Self::get_handle(session, label) {
            Ok(handle) => Ok(
                Shm {
                    handle: Some(handle),
                    label: Some(label),
                    mapped_to: None,
                    perms: None,
                    _marker: PhantomData,
                },
            ),
            Err(status) => Err(status),
        }
    }

    /// Asks the kernel for the record of the shared memory.
    ///
    /// The handle is looked up, if it is not kept, and from then on kept. The
    /// kernel is asked for the record; where it grants the request, the record
    /// is copied out of the exchange area; where it does not, nothing is
    /// copied. The result is the record as it was copied, never one that was
    /// kept from before; `Invalid` where there is neither a handle nor a label;
    /// and `Denied` where the lookup, the request or the copy failed.
    fn get_info<K: Transport>(&mut self, session: &mut Session<K>) -> (res: Result<ShmInfo, Status>)
        ensures
            final(session).extends(*old(session)),
            old(self)@.is_info_run(final(session).since(*old(session))),
            res == old(self)@.info_result(final(session).since(*old(session))),
            final(self)@ == old(self)@.after_lookup(final(session).since(*old(session))),
    {
        let handle = match self.resolve(session) {
            Ok(handle) => handle,
            Err(status) => {
                return Err(status);
            },
        };
        if session.shm_get_infos(handle) != Status::Success {
            return Err(Status::Denied);
        }
        let mut info = ShmInfo { handle: 0, label: 0, base: 0, len: 0, perms: SHM_PERMISSION_READ };
        match session.copy_info_from_kernel(&mut info) {
            Ok(Status::Success) => Ok(info),
            _ => Err(Status::Denied),
        }
    }

    /// Grants the task `to_task` the rights `perms` over the shared memory.
    ///
    /// While the shared memory is mapped the result is `Busy`, and the kernel
    /// is not asked. Else the handle is looked up, if it is not kept, and the
    /// kernel is asked to grant the rights. Where it does, the object keeps
    /// them as the rights last granted; where it does not, the result is its
    /// answer.
    fn set_creds<K: Transport>(
        &mut self,
        session: &mut Session<K>,
        to_task: u32,
        perms: u32,
    ) -> (res: Result<Status, Status>)
        ensures
            final(session).extends(*old(session)),
            old(self)@.is_credential_run(to_task, perms, final(session).since(*old(session))),
            res == old(self)@.credential_result(final(session).since(*old(session))),
            final(self)@ == old(self)@.after_credential(perms, final(session).since(*old(session))),
            old(self)@.mapped_to is Some ==> res == Err::<Status, Status>(Status::Busy),
            old(self)@.mapped_to is Some ==> *final(session) == *old(session),
            old(self)@.mapped_to is Some ==> final(self)@ == old(self)@,
    {
        if self.mapped_to.is_some() {
            return Err(Status::Busy);
        }
        let handle = match self.resolve(session) {
            Ok(handle) => handle,
            Err(status) => {
                return Err(status);
            },
        };
        let status = session.shm_set_credential(handle, to_task, perms);
        if status == Status::Success {
            self.perms = Some(perms);
            Ok(Status::Success)
        } else {
            Err(status)
        }
    }

    /// Asks the kernel for the rights over the shared memory: those of its
    /// record, as `get_info` has it.
    fn get_creds<K: Transport>(&mut self, session: &mut Session<K>) -> (res: Result<u32, Status>)
        ensures
            final(session).extends(*old(session)),
            old(self)@.is_info_run(final(session).since(*old(session))),
            res == match old(self)@.info_result(final(session).since(*old(session))) {
                Ok(info) => Ok::<u32, Status>(info.perms),
                Err(status) => Err(status),
            },
            final(self)@ == old(self)@.after_lookup(final(session).since(*old(session))),
    {
        match self.get_info(session) {
            Ok(info) => Ok(info.perms),
            Err(status) => Err(status),
        }
    }

    /// Asks the kernel whether the shared memory may be mapped.
    ///
    /// The answer is `true` where the record of the shared memory, as
    /// `get_info` has it, holds the right to map, and `false` where it does
    /// not hold it and where there is no record. Rights that hold it are kept
    /// as the rights last seen.
    fn is_mappable<K: Transport>(&mut self, session: &mut Session<K>) -> (held: bool)
        ensures
            final(session).extends(*old(session)),
            old(self)@.is_info_run(final(session).since(*old(session))),
            held == old(self)@.shows_right(SHM_PERMISSION_MAP, final(session).since(*old(session))),
            final(self)@ == old(self)@.after_right(
                SHM_PERMISSION_MAP,
                final(session).since(*old(session)),
            ),
    {
        self.shows_right(session, SHM_PERMISSION_MAP)
    }

    /// Asks the kernel whether the shared memory may be read.
    ///
    /// The answer is `true` where the record of the shared memory, as
    /// `get_info` has it, holds the right to read, and `false` where it does
    /// not hold it and where there is no record. Rights that hold it are kept
    /// as the rights last seen.
    fn is_readable<K: Transport>(&mut self, session: &mut Session<K>) -> (held: bool)
        ensures
            final(session).extends(*old(session)),
            old(self)@.is_info_run(final(session).since(*old(session))),
            held == old(self)@.shows_right(
                SHM_PERMISSION_READ,
                final(session).since(*old(session)),
            ),
            final(self)@ == old(self)@.after_right(
                SHM_PERMISSION_READ,
                final(session).since(*old(session)),
            ),
    {
        self.shows_right(session, SHM_PERMISSION_READ)
    }

    /// Asks the kernel whether the shared memory may be written.
    ///
    /// The answer is `true` where the record of the shared memory, as
    /// `get_info` has it, holds the right to write, and `false` where it does
    /// not hold it and where there is no record. Rights that hold it are kept
    /// as the rights last seen.
    fn is_writable<K: Transport>(&mut self, session: &mut Session<K>) -> (held: bool)
        ensures
            final(session).extends(*old(session)),
            old(self)@.is_info_run(final(session).since(*old(session))),
            held == old(self)@.shows_right(
                SHM_PERMISSION_WRITE,
                final(session).since(*old(session)),
            ),
            final(self)@ == old(self)@.after_right(
                SHM_PERMISSION_WRITE,
                final(session).since(*old(session)),
            ),
    {
        self.shows_right(session, SHM_PERMISSION_WRITE)
    }

    /// Asks the kernel whether the shared memory may be handed over.
    ///
    /// The answer is `true` where the record of the shared memory, as
    /// `get_info` has it, holds the right to hand it over, and `false` where
    /// it does not hold it and where there is no record. Rights that hold it
    /// are kept as the rights last seen.
    fn is_transferable<K: Transport>(&mut self, session: &mut Session<K>) -> (held: bool)
        ensures
            final(session).extends(*old(session)),
            old(self)@.is_info_run(final(session).since(*old(session))),
            held == old(self)@.shows_right(
                SHM_PERMISSION_TRANSFER,
                final(session).since(*old(session)),
            ),
            final(self)@ == old(self)@.after_right(
                SHM_PERMISSION_TRANSFER,
                final(session).since(*old(session)),
            ),
    {
        self.shows_right(session, SHM_PERMISSION_TRANSFER)
    }

    /// Asks the kernel for the address at which the shared memory starts: that
    /// of its record, as `get_info` has it.
    fn get_base<K: Transport>(&mut self, session: &mut Session<K>) -> (res: Result<usize, Status>)
        ensures
            final(session).extends(*old(session)),
            old(self)@.is_info_run(final(session).since(*old(session))),
            res == match old(self)@.info_result(final(session).since(*old(session))) {
                Ok(info) => Ok::<usize, Status>(info.base),
                Err(status) => Err(status),
            },
            final(self)@ == old(self)@.after_lookup(final(session).since(*old(session))),
    {
        match self.get_info(session) {
            Ok(info) => Ok(info.base),
            Err(status) => Err(status),
        }
    }

    /// Asks the kernel for the size of the shared memory: that of its record,
    /// as `get_info` has it.
    fn get_len<K: Transport>(&mut self, session: &mut Session<K>) -> (res: Result<usize, Status>)
        ensures
            final(session).extends(*old(session)),
            old(self)@.is_info_run(final(session).since(*old(session))),
            res == match old(self)@.info_result(final(session).since(*old(session))) {
                Ok(info) => Ok::<usize, Status>(info.len),
                Err(status) => Err(status),
            },
            final(self)@ == old(self)@.after_lookup(final(session).since(*old(session))),
    {
        match self.get_info(session) {
            Ok(info) => Ok(info.len),
            Err(status) => Err(status),
        }
    }
}

impl Mappable for Shm<Unmapped> {
    type Mapped = Shm<Mapped>;

    type Unmapped = Self;

    /// Maps the shared memory, for the task `to_task`.
    ///
    /// An object that was mapped from before is refused with `Busy`, and the
    /// kernel is not asked. Else the handle is looked up, if it is not kept,
    /// and the kernel is asked to map. Where it does, the result is the mapped
    /// object, and this object keeps the mark of it; where it does not, the
    /// result is its answer.
    fn map<K: Transport>(&mut self, session: &mut Session<K>, to_task: u32) -> (res: Result<
        Shm<Mapped>,
        Status,
    >)
        ensures
            final(session).extends(*old(session)),
            old(self)@.is_map_run(final(session).since(*old(session))),
            viewed(res) == old(self)@.map_result(to_task, final(session).since(*old(session))),
            final(self)@ == old(self)@.after_map(to_task, final(session).since(*old(session))),
            old(self)@.mapped_to is Some ==> res is Err && res->Err_0 == Status::Busy,
            old(self)@.mapped_to is Some ==> *final(session) == *old(session),
            old(self)@.mapped_to is Some ==> final(self)@ == old(self)@,
    {
        if self.mapped_to.is_some() {
            return Err(Status::Busy);
        }
        let handle = match self.resolve(session) {
            Ok(handle) => handle,
            Err(status) => {
                return Err(status);
            },
        };
        let status = session.map_shm(handle);
        if status == Status::Success {
            self.mapped_to = Some(to_task);
            Ok(
                Shm {
                    handle: Some(handle),
                    label: self.label,
                    mapped_to: Some(to_task),
                    perms: self.perms,
                    _marker: PhantomData,
                },
            )
        } else {
            Err(status)
        }
    }
}

impl Unmappable for Shm<Mapped> {
    type Mapped = Self;

    type Unmapped = Shm<Unmapped>;

    /// Unmaps the shared memory.
    ///
    /// An object that is not mapped any more is refused with `Invalid`, and
    /// the kernel is not asked. Else the handle is looked up, if it is not
    /// kept, and the kernel is asked to unmap. Where it does, the result is
    /// the unmapped object, which keeps the handle and the label and no
    /// rights, and this object forgets the task and the rights; where it does
    /// not, the result is its answer.
    fn unmap<K: Transport>(&mut self, session: &mut Session<K>) -> (res: Result<
        Shm<Unmapped>,
        Status,
    >)
        ensures
            final(session).extends(*old(session)),
            old(self)@.is_unmap_run(final(session).since(*old(session))),
            viewed(res) == old(self)@.unmap_result(final(session).since(*old(session))),
            final(self)@ == old(self)@.after_unmap(final(session).since(*old(session))),
            old(self)@.mapped_to is None ==> res is Err && res->Err_0 == Status::Invalid,
            old(self)@.mapped_to is None ==> *final(session) == *old(session),
            old(self)@.mapped_to is None ==> final(self)@ == old(self)@,
    {
        if self.mapped_to.is_none() {
            return Err(Status::Invalid);
        }
        let handle = match self.resolve(session) {
            Ok(handle) => handle,
            Err(status) => {
                return Err(status);
            },
        };
        let status = session.unmap_shm(handle);
        if status == Status::Success {
            self.mapped_to = None;
            self.perms = None;
            Ok(
                Shm {
                    handle: Some(handle),
                    label: self.label,
                    mapped_to: None,
                    perms: None,
                    _marker: PhantomData,
                },
            )
        } else {
            Err(status)
        }
    }
}

/// An object that was just made asks for its record with the handle that was
/// looked up for it, without another lookup, and the record it gives is the
/// one that the kernel had copied.
pub proof fn fresh_object_asks_with_its_handle(label: u32, handle: u32, run: Seq<Exchange>)
    requires
        ShmView::fresh(label, handle).is_info_run(run),
    ensures
        run.len() >= 1,
        run[0] is ShmGetInfos,
        run[0]->ShmGetInfos_handle == handle,
        ShmView::fresh(label, handle).info_result(run) is Ok ==> run.len() == 2 && run[1] is CopyInfo
            && ShmView::fresh(label, handle).info_result(run)->Ok_0 == run[1]->CopyInfo_info,
        ShmView::fresh(label, handle).after_lookup(run) == ShmView::fresh(label, handle),
{
}

/// No record, no right: what asks after a right says no where the record does
/// not hold the right, and says no where there is no record at all.
pub proof fn no_right_without_record(shm: ShmView, right: u32, run: Seq<Exchange>)
    ensures
        shm.info_result(run) is Err ==> !shm.shows_right(right, run),
        shm.info_result(run) is Ok && shm.info_result(run)->Ok_0.perms & right == 0
            ==> !shm.shows_right(right, run),
        shm.info_result(run) is Ok && shm.info_result(run)->Ok_0.perms & right != 0
            ==> shm.shows_right(right, run),
{
}

/// An object that a shared memory was mapped from does not map again: a second
/// `map` on it, for whatever task, is refused with `Busy`, asks the kernel
/// nothing and leaves the object as it is.
pub proof fn second_map_is_refused(
    shm: ShmView,
    to_task: u32,
    run: Seq<Exchange>,
    other_task: u32,
    second_run: Seq<Exchange>,
)
    requires
        shm.is_map_run(run),
        shm.map_result(to_task, run) is Ok,
        shm.after_map(to_task, run).is_map_run(second_run),
    ensures
        second_run.len() == 0,
        shm.after_map(to_task, run).map_result(other_task, second_run) == Err::<ShmView, Status>(
            Status::Busy,
        ),
        shm.after_map(to_task, run).after_map(other_task, second_run) == shm.after_map(
            to_task,
            run,
        ),
{
}

/// An object that a shared memory was unmapped from does not unmap again: a
/// second `unmap` on it is refused with `Invalid`, asks the kernel nothing and
/// leaves the object as it is.
pub proof fn second_unmap_is_refused(shm: ShmView, run: Seq<Exchange>, second_run: Seq<Exchange>)
    requires
        shm.is_unmap_run(run),
        shm.unmap_result(run) is Ok,
        shm.after_unmap(run).is_unmap_run(second_run),
    ensures
        second_run.len() == 0,
        shm.after_unmap(run).unmap_result(second_run) == Err::<ShmView, Status>(Status::Invalid),
        shm.after_unmap(run).after_unmap(second_run) == shm.after_unmap(run),
{
}

/// While a shared memory is mapped, nobody is granted rights over it: on the
/// object that a mapping gave, and on the one that it was mapped from,
/// `set_creds` is refused with `Busy`, asks the kernel nothing and leaves the
/// object as it is.
pub proof fn mapped_object_grants_nothing(
    shm: ShmView,
    to_task: u32,
    run: Seq<Exchange>,
    task: u32,
    perms: u32,
    credential_run: Seq<Exchange>,
)
    requires
        shm.is_map_run(run),
        shm.map_result(to_task, run) is Ok,
        shm.map_result(to_task, run)->Ok_0.is_credential_run(task, perms, credential_run),
    ensures
        shm.after_map(to_task, run) == shm.map_result(to_task, run)->Ok_0,
        credential_run.len() == 0,
        shm.map_result(to_task, run)->Ok_0.credential_result(credential_run) == Err::<
            Status,
            Status,
        >(Status::Busy),
        shm.map_result(to_task, run)->Ok_0.after_credential(perms, credential_run)
            == shm.map_result(to_task, run)->Ok_0,
{
}

/// There and back again: a shared memory that was mapped and then unmapped is
/// known as one that was just made for the label of the object that it was
/// mapped from, without a task and without rights, whatever rights that object
/// kept. The handle is the one that the mapping went by, and unmapping does not
/// look it up again: its only exchange is the request to unmap.
pub proof fn map_then_unmap_is_fresh(
    shm: ShmView,
    to_task: u32,
    map_run: Seq<Exchange>,
    unmap_run: Seq<Exchange>,
)
    requires
        shm.is_map_run(map_run),
        shm.map_result(to_task, map_run) is Ok,
        shm.map_result(to_task, map_run)->Ok_0.is_unmap_run(unmap_run),
        shm.map_result(to_task, map_run)->Ok_0.unmap_result(unmap_run) is Ok,
    ensures
        shm.map_result(to_task, map_run)->Ok_0.handle is Some,
        shm.handle is Some ==> shm.map_result(to_task, map_run)->Ok_0.handle == shm.handle,
        shm.map_result(to_task, map_run)->Ok_0.unmap_result(unmap_run)->Ok_0 == (ShmView {
            handle: shm.map_result(to_task, map_run)->Ok_0.handle,
            label: shm.label,
            mapped_to: None,
            perms: None,
        }),
        shm.label is Some ==> shm.map_result(to_task, map_run)->Ok_0.unmap_result(
            unmap_run,
        )->Ok_0 == ShmView::fresh(
            shm.label->0,
            shm.map_result(to_task, map_run)->Ok_0.handle->0,
        ),
        unmap_run.len() == 1,
        unmap_run[0] is UnmapShm,
        unmap_run[0]->UnmapShm_handle == shm.map_result(to_task, map_run)->Ok_0.handle->0,
{
}

} // verus!
