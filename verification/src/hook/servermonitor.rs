//! The watch that the hook process keeps on the server: when the server is gone,
//! the hooks have nobody to report to.

use vstd::prelude::*;
use vstd::string::StringExecFns;
use crate::util::{decimal, push_decimal};
use crate::windows::wrappers;

verus! {

/// The pause between two looks at the server, in milliseconds.
pub const POLL_INTERVAL_MS: u64 = 500;

/// Why the watch ended.
#[derive(Clone, Copy, Debug, PartialEq, Eq, Structural)]
pub enum Error {
    ProcessHandleAquisition(wrappers::Error),
    ServerSync(wrappers::Error),
    ServerQuit(u32),
}

/// What the watch does next.
#[derive(Clone, Copy, Debug, PartialEq, Eq, Structural)]
pub enum Watch {
    /// The server runs: pause, then look again.
    Sleep(u64),
    /// The watch was called off.
    Done,
    /// The server is gone or cannot be seen.
    Fail(Error),
}

/// The watch on the server process.
#[derive(Clone, Copy, Debug, PartialEq, Eq, Structural)]
pub struct ServerMonitor {
    pub pid: u32,
}

impl ServerMonitor {
    pub fn new(pid: u32) -> (monitor: ServerMonitor)
        ensures
            monitor.pid == pid,
    {
        ServerMonitor { pid }
    }

    /// The error of a server process that could not be opened.
    pub fn not_opened(error: wrappers::Error) -> (failure: Error)
        ensures
            failure == Error::ProcessHandleAquisition(error),
    {
        Error::ProcessHandleAquisition(error)
    }

    /// What follows from a look at the server while the watch is on (`run`): a server
    /// that runs is looked at again after the pause; one that has ended, or cannot be
    /// seen, ends the watch with the error. A watch that was called off ends quietly,
    /// before any look.
    pub fn check(&self, run: bool, status: Result<Option<u32>, wrappers::Error>) -> (watch: Watch)
        ensures
            watch == if !run {
                Watch::Done
            } else {
                match status {
                    Ok(Some(code)) => Watch::Fail(Error::ServerQuit(code)),
                    Err(error) => Watch::Fail(Error::ServerSync(error)),
                    Ok(None) => Watch::Sleep(POLL_INTERVAL_MS),
                }
            },
    {
        if !run {
            Watch::Done
        } else {
            match status {
                Ok(Some(code)) => Watch::Fail(Error::ServerQuit(code)),
                Err(error) => Watch::Fail(Error::ServerSync(error)),
                Ok(None) => Watch::Sleep(POLL_INTERVAL_MS),
            }
        }
    }
}

impl Error {
    /// What is shown of the error, around the text of the system error where there is one.
    pub open spec fn report(self, inner: Seq<char>) -> Seq<char> {
        match self {
            Error::ProcessHandleAquisition(_) => "Error acquiring handle to server process: "@
                + inner,
            Error::ServerSync(_) => "Error retrieving server process status: "@ + inner,
            Error::ServerQuit(code) => "Server exited prematurely with code "@ + decimal(
                code as nat,
            ),
        }
    }

    /// Shows the error. `inner` is the text of the system error that it holds, and is
    /// not looked at where it holds none.
    pub fn to_string(&self, inner: &str) -> (text: String)
        ensures
            text@ == self.report(inner@),
    {
        match self {
            Error::ProcessHandleAquisition(_) => {
                let mut text = String::from_str("Error acquiring handle to server process: ");
                text.append(inner);
                text
            },
            Error::ServerSync(_) => {
                let mut text = String::from_str("Error retrieving server process status: ");
                text.append(inner);
                text
            },
            Error::ServerQuit(code) => {
                let mut text = String::from_str("Server exited prematurely with code ");
                push_decimal(&mut text, *code);
                text
            },
        }
    }
}

} // verus!
