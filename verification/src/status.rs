//! The status that every kernel request answers with.

use vstd::prelude::*;

verus! {

/// The answer of the kernel to a request, and the reason this crate gives when
/// it refuses one itself.
#[derive(Clone, Copy, PartialEq, Eq, Structural, Debug)]
pub enum Status {
    /// The request was carried out.
    Success,
    /// At least one parameter is not valid: not allowed, or not found.
    Invalid,
    /// The caller is not allowed to do this, or does not own the resource.
    Denied,
    /// The resource does not exist.
    NoEntity,
    /// The resource is in a state that does not allow the request now.
    Busy,
    /// The resource is already mapped.
    AlreadyMapped,
    /// An unexpected event, mostly related to security.
    Critical,
    /// The resource did not answer in time.
    Timeout,
    /// The resource is not there yet: come back later.
    Again,
    /// A blocking call was interrupted before it was done.
    Intr,
    /// The request would have ended in a deadlock.
    Deadlk,
}

impl Status {
    /// The number that stands for this status in a register.
    pub open spec fn spec_code(self) -> u32 {
        match self {
            Status::Success => 0,
            Status::Invalid => 1,
            Status::Denied => 2,
            Status::NoEntity => 3,
            Status::Busy => 4,
            Status::AlreadyMapped => 5,
            Status::Critical => 6,
            Status::Timeout => 7,
            Status::Again => 8,
            Status::Intr => 9,
            Status::Deadlk => 10,
        }
    }

    /// The number that stands for this status in a register.
    #[verifier::when_used_as_spec(spec_code)]
    pub fn code(self) -> (code: u32)
        ensures
            code == self.spec_code(),
            code <= 10,
    {
        match self {
            Status::Success => 0,
            Status::Invalid => 1,
            Status::Denied => 2,
            Status::NoEntity => 3,
            Status::Busy => 4,
            Status::AlreadyMapped => 5,
            Status::Critical => 6,
            Status::Timeout => 7,
            Status::Again => 8,
            Status::Intr => 9,
            Status::Deadlk => 10,
        }
    }

    /// The status that `code` stands for, if it stands for one.
    pub fn from_code(code: u32) -> (status: Option<Status>)
        ensures
            status is Some <==> code <= 10,
            status is Some ==> status->0.code() == code,
    {
        match code {
            0 => Some(Status::Success),
            1 => Some(Status::Invalid),
            2 => Some(Status::Denied),
            3 => Some(Status::NoEntity),
            4 => Some(Status::Busy),
            5 => Some(Status::AlreadyMapped),
            6 => Some(Status::Critical),
            7 => Some(Status::Timeout),
            8 => Some(Status::Again),
            9 => Some(Status::Intr),
            10 => Some(Status::Deadlk),
            _ => None,
        }
    }
}

/// No two statuses share a number: a number names at most one status.
pub proof fn code_names_one_status(a: Status, b: Status)
    requires
        a.code() == b.code(),
    ensures
        a == b,
{
}

} // verus!
