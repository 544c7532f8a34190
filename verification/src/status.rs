//! Exit statuses as the host platforms encode them.

use vstd::prelude::*;

verus! {

/// The terminal status of a child process, kept in the host's own encoding.
#[derive(Clone, Copy, Debug, PartialEq, Eq, Structural)]
pub enum ExitStatus {
    /// A POSIX wait status, as a reap probe wrote it.
    Posix(i32),
    /// A Windows process exit code.
    Windows(u32),
}

/// Whether a POSIX wait status reports a normal exit: its low seven bits,
/// which hold the terminating signal, are all zero.
pub open spec fn wait_exited(raw: int) -> bool {
    raw % 128 == 0
}

/// The exit code that a POSIX wait status carries in its second byte.
pub open spec fn wait_exit_code(raw: int) -> int {
    (raw / 256) % 256
}

/// The terminating signal that a POSIX wait status carries in its low seven bits.
pub open spec fn wait_term_signal(raw: int) -> int {
    raw % 128
}

/// Whether a POSIX wait status reports death by a signal: the signal field
/// is neither zero (a normal exit) nor all ones (a stopped process).
pub open spec fn wait_signaled(raw: int) -> bool {
    raw % 128 != 0 && raw % 128 != 127
}

/// A 32-bit exit code read as a signed number of the same bit pattern.
pub open spec fn as_signed(code: int) -> int {
    if code < 0x8000_0000 {
        code
    } else {
        code - 0x1_0000_0000
    }
}

proof fn lemma_wait_fields(raw: i32)
    ensures
        (raw & 0x7f) == raw % 128,
        ((raw >> 8) & 0xff) == (raw / 256) % 256,
{
    assert((raw & 0x7f) == raw % 128) by (bit_vector);
    assert(((raw >> 8) & 0xff) == (raw / 256) % 256) by (bit_vector);
}

impl ExitStatus {
    /// Whether the process ended normally with exit code zero.
    pub open spec fn spec_success(self) -> bool {
        match self {
            ExitStatus::Posix(raw) => raw == 0,
            ExitStatus::Windows(code) => code == 0,
        }
    }

    /// The exit code, where the process ended by exiting. A process that a
    /// signal ended has none.
    pub open spec fn spec_code(self) -> Option<i32> {
        match self {
            ExitStatus::Posix(raw) => if wait_exited(raw as int) {
                Some(wait_exit_code(raw as int) as i32)
            } else {
                None
            },
            ExitStatus::Windows(code) => Some(as_signed(code as int) as i32),
        }
    }

    /// The signal that ended the process, where one did.
    pub open spec fn spec_signal(self) -> Option<i32> {
        match self {
            ExitStatus::Posix(raw) => if wait_signaled(raw as int) {
                Some(wait_term_signal(raw as int) as i32)
            } else {
                None
            },
            ExitStatus::Windows(_) => None,
        }
    }

    /// Whether the process ended normally with exit code zero.
    pub fn success(&self) -> (ok: bool)
        ensures
            ok == self.spec_success(),
    {
        match self {
            ExitStatus::Posix(raw) => *raw == 0,
            ExitStatus::Windows(code) => *code == 0,
        }
    }

    /// The exit code of the process, or `None` where a signal ended it.
    pub fn code(&self) -> (code: Option<i32>)
        ensures
            code == self.spec_code(),
    {
        match self {
            ExitStatus::Posix(raw) => {
                let raw: i32 = *raw;
                proof {
                    lemma_wait_fields(raw);
                }
                if raw & 0x7f == 0 {
                    Some((raw >> 8) & 0xff)
                } else {
                    None
                }
            },
            ExitStatus::Windows(code) => {
                let code: u32 = *code;
                assert(code as i32 == as_signed(code as int)) by (bit_vector);
                Some(code as i32)
            },
        }
    }

    /// The signal that ended the process, or `None` where it exited.
    pub fn signal(&self) -> (signal: Option<i32>)
        ensures
            signal == self.spec_signal(),
    {
        match self {
            ExitStatus::Posix(raw) => {
                let raw: i32 = *raw;
                proof {
                    lemma_wait_fields(raw);
                }
                let low: i32 = raw & 0x7f;
                if low != 0 && low != 0x7f {
                    Some(low)
                } else {
                    None
                }
            },
            ExitStatus::Windows(_) => None,
        }
    }
}

/// A status tells one story: success means exit code zero, and a process
/// has an exit code or a terminating signal but never both. Every code a
/// POSIX status carries fits in a byte, every signal in seven bits.
pub proof fn law_status_is_consistent(status: ExitStatus)
    ensures
        status.spec_success() ==> status.spec_code() == Some(0i32),
        status.spec_success() ==> status.spec_signal() is None,
        !(status.spec_code() is Some && status.spec_signal() is Some),
        status matches ExitStatus::Posix(_) ==> (status.spec_code() matches Some(c) ==> 0 <= c
            <= 255),
        status.spec_signal() matches Some(s) ==> 1 <= s <= 126,
{
}

} // verus!
