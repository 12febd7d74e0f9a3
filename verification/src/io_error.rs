use vstd::prelude::*;

verus! {

/// The operating system's error number for "no such process".
pub const ESRCH: i32 = 3;

/// The operating system's error number for "no child processes".
pub const ECHILD: i32 = 10;

/// A failure reported at the operating-system boundary: the raw error number,
/// where the system gave one, and the text that came with it.
#[derive(Debug)]
pub struct IoError {
    pub os_code: Option<i32>,
    pub message: String,
}

impl IoError {
    /// Whether this error carries the raw error number `code`.
    pub open spec fn has_code(&self, code: i32) -> bool {
        self.os_code == Some(code)
    }

    /// Whether this error carries the raw error number `code`.
    pub fn is_os_error(&self, code: i32) -> (hit: bool)
        ensures
            hit == self.has_code(code),
    {
        match self.os_code {
            Some(found) => found == code,
            None => false,
        }
    }
}

} // verus!
