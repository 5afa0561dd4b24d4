//! What is known of a child process once it is gone.

use vstd::prelude::*;

verus! {

/// How a child process ended: whether that counts as success, the exit code where it has one,
/// and the signal where one ended it.
#[derive(Debug, Clone, Copy, PartialEq, Eq)]
pub struct ExitReport {
    pub success: bool,
    pub code: Option<i32>,
    pub signal: Option<i32>,
}

impl ExitReport {
    /// The exit code; -1 where there is none.
    pub open spec fn code_or_minus_one(self) -> i32 {
        match self.code {
            Some(code) => code,
            None => -1i32,
        }
    }

    /// The exit code; -1 where there is none.
    pub fn status(&self) -> (r: i32)
        ensures
            r == self.code_or_minus_one(),
    {
        match self.code {
            Some(code) => code,
            None => -1,
        }
    }
}

} // verus!
