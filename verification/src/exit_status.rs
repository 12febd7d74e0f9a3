use vstd::prelude::*;

verus! {

/// The result of a terminated process, as a POSIX wait status: the low seven
/// bits hold the terminating signal (zero for a normal exit), the next byte up
/// holds the exit code.
#[derive(Clone, Copy, Debug, PartialEq, Eq, Structural)]
pub struct ExitStatus {
    pub raw: i32,
}

/// The signal bits of a wait status.
pub open spec fn term_bits(raw: i32) -> i32 {
    raw & 0x7f
}

/// Whether the wait status `raw` reports a normal exit.
pub open spec fn exited(raw: i32) -> bool {
    term_bits(raw) == 0
}

/// Whether the wait status `raw` reports termination by a signal: the signal
/// bits are neither zero (a normal exit) nor all set (a stopped process).
pub open spec fn signaled(raw: i32) -> bool {
    term_bits(raw) != 0 && term_bits(raw) != 0x7f
}

/// The exit code that the wait status `raw` carries.
pub open spec fn exit_code(raw: i32) -> i32 {
    (raw >> 8) & 0xff
}

impl View for ExitStatus {
    type V = int;

    open spec fn view(&self) -> int {
        self.raw as int
    }
}

impl ExitStatus {
    /// The status that stands for "exited with code 0".
    pub open spec fn clean() -> ExitStatus {
        ExitStatus { raw: 0 }
    }

    /// The exit code of this status, where the process exited normally.
    pub open spec fn spec_code(self) -> Option<i32> {
        if exited(self.raw) {
            Some(exit_code(self.raw))
        } else {
            None
        }
    }

    /// The signal of this status, where a signal terminated the process.
    pub open spec fn spec_signal(self) -> Option<i32> {
        if signaled(self.raw) {
            Some(term_bits(self.raw))
        } else {
            None
        }
    }

    /// Wraps a raw wait status.
    pub fn from_raw(raw: i32) -> (status: ExitStatus)
        ensures
            status.raw == raw,
            status@ == raw,
    {
        ExitStatus { raw }
    }

    /// The raw wait status.
    pub fn into_raw(self) -> (raw: i32)
        ensures
            raw == self.raw,
    {
        self.raw
    }

    /// The exit code, if the process exited normally.
    pub fn code(&self) -> (code: Option<i32>)
        ensures
            code == self.spec_code(),
    {
        if self.raw & 0x7f == 0 {
            Some((self.raw >> 8) & 0xff)
        } else {
            None
        }
    }

    /// The terminating signal, if a signal terminated the process.
    pub fn signal(&self) -> (signal: Option<i32>)
        ensures
            signal == self.spec_signal(),
    {
        let bits: i32 = self.raw & 0x7f;
        if bits != 0 && bits != 0x7f {
            Some(bits)
        } else {
            None
        }
    }

    /// Whether the process exited normally with code 0.
    pub fn success(&self) -> (ok: bool)
        ensures
            ok == (self.spec_code() == Some(0i32)),
    {
        match self.code() {
            Some(code) => code == 0,
            None => false,
        }
    }
}

/// A status never reports both a normal exit and a signal, and the clean
/// status is a normal exit with code 0.
pub proof fn lemma_exit_or_signal(status: ExitStatus)
    ensures
        !(status.spec_code() is Some && status.spec_signal() is Some),
        ExitStatus::clean().spec_code() == Some(0i32),
        ExitStatus::clean().spec_signal() is None,
{
    assert(0i32 & 0x7f == 0) by (bit_vector);
    assert((0i32 >> 8) & 0xff == 0) by (bit_vector);
}

} // verus!
