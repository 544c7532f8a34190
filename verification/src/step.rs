//! The shape of a conversation between a waiter and its host.
//!
//! Nothing in this crate touches the operating system. An operation that
//! needs the host returns a request; the caller carries it out and hands the
//! reply to the matching `*_resume` method, until the operation is done.

use vstd::prelude::*;
use crate::error::WaitError;

verus! {

/// One turn of an operation: either the host has something to do, or the
/// operation is over.
#[derive(Debug, PartialEq, Eq)]
pub enum Step<Q, T> {
    /// The host must carry out the request and report back.
    Ask(Q),
    /// The operation has ended with this result.
    Done(Result<T, WaitError>),
}

/// Which pipe endpoints the parent holds for a child.
#[derive(Clone, Copy, Debug, PartialEq, Eq, Structural)]
pub struct Pipes {
    /// The writing end of the child's standard input.
    pub stdin: bool,
    /// The reading end of the child's standard output.
    pub stdout: bool,
    /// The reading end of the child's standard error.
    pub stderr: bool,
}

/// The request to end a process by force.
#[derive(Clone, Copy, Debug, PartialEq, Eq, Structural)]
pub struct Terminate {
    /// The process to end.
    pub pid: u32,
}

} // verus!
