//! An error code of the system, on its own.

use vstd::prelude::*;
use vstd::string::StringExecFns;
use crate::util::{trim_end, trimmed_end};
use crate::windows::def::DWORD;

verus! {

/// A code that says what went wrong. The code of success is no error.
#[derive(Debug)]
pub struct WindowsError(DWORD);

impl View for WindowsError {
    type V = DWORD;

    closed spec fn view(&self) -> DWORD {
        self.0
    }
}

impl WindowsError {
    #[verifier::type_invariant]
    spec fn is_failure(self) -> bool {
        self.0 != 0
    }

    pub fn new(code: DWORD) -> (error: WindowsError)
        requires
            code != 0,
        ensures
            error@ == code,
    {
        WindowsError(code)
    }

    /// The error of the call that just failed, from the thread's last-error code.
    pub fn last(last_error: DWORD) -> (error: WindowsError)
        requires
            last_error != 0,
        ensures
            error@ == last_error,
    {
        WindowsError::new(last_error)
    }

    pub fn code(&self) -> (code: DWORD)
        ensures
            code == self@,
            code != 0,
    {
        proof {
            use_type_invariant(self);
        }
        self.0
    }

    /// What is shown of the error: the message that the system has for the code,
    /// without the white space at its end.
    pub fn to_string(&self, message: &str) -> (text: String)
        ensures
            text@ == trimmed_end(message@),
    {
        String::from_str(trim_end(message))
    }
}

} // verus!
