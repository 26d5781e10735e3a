//! User-space runtime support for tasks that run on the Sentry microkernel.
//!
//! The heart of the crate is [`shm::Shm`], a shared memory whose type says
//! whether it is mapped, so that mapping what is mapped, or unmapping what is
//! not, does not compile. Every request goes to the kernel through a
//! [`session::Session`], which keeps a ghost record of what was asked and what
//! was answered; the contracts of this crate are stated over that record. The
//! kernel behind a session is any [`transport::Transport`]: on a target it is
//! [`sentry::Sentry`].

pub mod handle;
pub mod info;
pub mod print;
pub mod process;
pub mod sentry;
pub mod session;
pub mod shm;
pub mod status;
pub mod transport;

pub use status::Status;
