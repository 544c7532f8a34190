//! Decision core for spawning child processes and waiting for them from a
//! cooperative scheduler without blocking a worker thread.
//!
//! A host gives no portable way to suspend one task until one particular
//! child has exited. POSIX raises a process-wide, coalesced signal; Windows
//! fires a callback for a wait registered with the kernel. This crate holds
//! the logic that turns either into a wait for a single child: what to ask
//! of the host next, what a reply means, when a wait is over and what it
//! returns, and what has to be released before it may end.
//!
//! The crate performs no system call and suspends nothing. An operation
//! returns a [`step::Step`]: a request that the caller carries out, or the
//! result. The reply to a request goes to the `*_resume` method of the same
//! operation.
//!
//! - [`status`]: exit statuses in the encodings of the two hosts.
//! - [`unix`]: the waiter built on reap probes and the exit signal.
//! - [`windows`]: the waiter built on a one-shot wait registration.
//! - [`child`]: one child over either waiter, and the collection of output.
//! - [`command`]: the process builder and the launches it plans.

pub mod child;
pub mod command;
pub mod error;
pub mod status;
pub mod step;
pub mod unix;
pub mod windows;

pub use crate::child::{Child, Output};
pub use crate::command::{Command, Stdio};
pub use crate::error::WaitError;
pub use crate::status::ExitStatus;
