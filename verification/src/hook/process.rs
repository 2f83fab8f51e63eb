//! A process that is watched.

use vstd::prelude::*;
use crate::windows::def::{DWORD, HANDLE};
use crate::windows::wrappers::{Error, WaitResult};

verus! {

/// A process, by the handle that it was opened with.
#[derive(Debug)]
pub struct Process {
    pub handle: HANDLE,
}

/// What a look at a process asks for next.
#[derive(Clone, Copy, Debug, PartialEq, Eq, Structural)]
pub enum TryWait {
    /// The process runs on.
    Running,
    /// The process has ended: its exit code is to be fetched.
    Exited,
}

impl Process {
    /// The process from the handle that opening it gave.
    pub fn new(opened: Result<HANDLE, Error>) -> (process: Result<Process, Error>)
        ensures
            match opened {
                Ok(handle) => process matches Ok(made) && made.handle == handle,
                Err(error) => process matches Err(same) && same == error,
            },
    {
        match opened {
            Ok(handle) => Ok(Process { handle }),
            Err(error) => Err(error),
        }
    }

    /// Whether a wait on the process is one that `try_wait` can take: a process is
    /// never abandoned.
    pub fn admits(waited: &Result<WaitResult, Error>) -> (able: bool)
        ensures
            able == !(*waited matches Ok(WaitResult::Abandoned(_))),
    {
        match waited {
            Ok(WaitResult::Abandoned(_)) => false,
            _ => true,
        }
    }

    /// What a wait of no duration on the process says: a timeout means that it runs on,
    /// a signalled handle that it has ended.
    pub fn try_wait(&self, waited: Result<WaitResult, Error>) -> (seen: Result<TryWait, Error>)
        requires
            !(waited matches Ok(WaitResult::Abandoned(_))),
        ensures
            seen == match waited {
                Ok(WaitResult::Timeout) => Ok::<TryWait, Error>(TryWait::Running),
                Ok(_) => Ok::<TryWait, Error>(TryWait::Exited),
                Err(error) => Err::<TryWait, Error>(error),
            },
    {
        match waited {
            Ok(WaitResult::Timeout) => Ok(TryWait::Running),
            Ok(_) => Ok(TryWait::Exited),
            Err(error) => Err(error),
        }
    }

    /// The status of a process that has ended, from the exit code that was fetched.
    pub fn exited(&self, exit_code: Result<DWORD, Error>) -> (status: Result<Option<u32>, Error>)
        ensures
            status == match exit_code {
                Ok(code) => Ok::<Option<u32>, Error>(Some(code)),
                Err(error) => Err::<Option<u32>, Error>(error),
            },
    {
        match exit_code {
            Ok(code) => Ok(Some(code)),
            Err(error) => Err(error),
        }
    }
}

} // verus!
