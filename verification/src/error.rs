//! The ways in which waiting for a child can fail.

use vstd::prelude::*;

verus! {

/// Why a wait or a status check did not produce an answer.
///
/// "The child has not exited yet" is never among them: that is an ordinary
/// answer, not a failure.
#[derive(Clone, Copy, Debug, PartialEq, Eq, Structural)]
pub enum WaitError {
    /// A call into the host operating system failed; the host's own error
    /// code is kept as it was reported.
    Os(i32),
    /// The notification channel ran dry: the exit-signal stream closed, or the
    /// completion channel lost its sender before anything was sent. The
    /// notification mechanism is unusable; nothing is known about the child.
    Notification,
    /// The host reported that the process handle was signaled, yet no exit
    /// status can be observed.
    MissingStatus,
}

impl WaitError {
    /// The host's error code, where the host supplied one.
    pub open spec fn spec_raw_os_error(self) -> Option<i32> {
        match self {
            WaitError::Os(code) => Some(code),
            _ => None,
        }
    }

    /// The host's error code, where the host supplied one.
    pub fn raw_os_error(&self) -> (code: Option<i32>)
        ensures
            code == self.spec_raw_os_error(),
    {
        match self {
            WaitError::Os(code) => Some(*code),
            _ => None,
        }
    }

    /// The text that describes each failure.
    pub open spec fn spec_message(self) -> Seq<char> {
        match self {
            WaitError::Os(_) => "operating system error"@,
            WaitError::Notification => "failed to recv signal"@,
            WaitError::MissingStatus => "can't get exitstatus"@,
        }
    }

    /// A short description of the failure.
    pub fn message(&self) -> (text: &'static str)
        ensures
            text@ == self.spec_message(),
    {
        match self {
            WaitError::Os(_) => "operating system error",
            WaitError::Notification => "failed to recv signal",
            WaitError::MissingStatus => "can't get exitstatus",
        }
    }
}

} // verus!
