//! The hook process: the helper that installs the window hooks of one
//! architecture and reports their events to the server.

pub mod launch;
pub mod process;
pub mod servermonitor;
pub mod windowsloop;

use vstd::prelude::*;
use crate::error::WindowsError;
use crate::windows::def::{DWORD, HANDLE, NULL, WH_CALLWNDPROC, WH_CBT};

verus! {

/// The kinds of hook that are installed.
#[derive(Clone, Copy, Debug, PartialEq, Eq, Structural)]
pub enum HookId {
    /// Sees the messages that are sent to window procedures.
    CallWndProc,
    /// Sees the creation, destruction, activation, moving and sizing of windows.
    Cbt,
}

impl HookId {
    /// The number by which the system knows the kind of hook.
    pub fn get_winapi_int(&self) -> (id: i32)
        ensures
            id == match *self {
                HookId::CallWndProc => WH_CALLWNDPROC,
                HookId::Cbt => WH_CBT,
            },
    {
        match self {
            HookId::CallWndProc => WH_CALLWNDPROC,
            HookId::Cbt => WH_CBT,
        }
    }
}

/// An installed hook.
#[derive(Debug)]
pub struct WindowsHook {
    pub hook_id: HookId,
    pub hook: HANDLE,
}

impl WindowsHook {
    /// The hook that `SetWindowsHookExW` returned for the kind, or the error where it
    /// returned none.
    pub fn new(hook_id: HookId, hook: HANDLE, last_error: DWORD) -> (installed: Result<
        WindowsHook,
        WindowsError,
    >)
        requires
            hook == NULL ==> last_error != 0,
        ensures
            match installed {
                Ok(made) => hook != NULL && made.hook_id == hook_id && made.hook == hook,
                Err(error) => hook == NULL && error@ == last_error,
            },
    {
        if hook == NULL {
            Err(WindowsError::last(last_error))
        } else {
            Ok(WindowsHook { hook_id, hook })
        }
    }
}

/// A loaded library.
#[derive(Debug)]
pub struct Library {
    pub handle: HANDLE,
}

impl Library {
    /// The library that `LoadLibraryW` returned, or the error where it returned none.
    pub fn new(handle: HANDLE, last_error: DWORD) -> (loaded: Result<Library, WindowsError>)
        requires
            handle == NULL ==> last_error != 0,
        ensures
            match loaded {
                Ok(library) => handle != NULL && library.handle == handle,
                Err(error) => handle == NULL && error@ == last_error,
            },
    {
        if handle == NULL {
            Err(WindowsError::last(last_error))
        } else {
            Ok(Library { handle })
        }
    }

    /// The address that `GetProcAddress` returned for a symbol of the library, or the
    /// error where it returned none.
    pub fn get_proc_address(&self, address: usize, last_error: DWORD) -> (found: Result<
        usize,
        WindowsError,
    >)
        requires
            address == 0 ==> last_error != 0,
        ensures
            match found {
                Ok(at) => address != 0 && at == address,
                Err(error) => address == 0 && error@ == last_error,
            },
    {
        if address == 0 {
            Err(WindowsError::last(last_error))
        } else {
            Ok(address)
        }
    }
}

/// The hook library with the addresses of its two hook procedures.
#[derive(Debug)]
pub struct HookDll {
    pub library: Library,
    pub callwndproc_proc: usize,
    pub cbt_proc: usize,
}

/// The symbols that the hook library exports.
pub const CALLWNDPROC_PROC: &'static str = "callwndproc_proc";

pub const CBT_PROC: &'static str = "cbt_proc";

pub const SERVER_PID: &'static str = "server_pid";

impl HookDll {
    /// The hook library from the addresses that were found for `callwndproc_proc`,
    /// `cbt_proc` and `server_pid`, in this order: the first symbol that is missing
    /// decides the error. With the library comes the address at which the server's
    /// process id is to be stored.
    pub fn new(
        library: Library,
        callwndproc_proc: Result<usize, WindowsError>,
        cbt_proc: Result<usize, WindowsError>,
        server_pid: Result<usize, WindowsError>,
    ) -> (loaded: Result<(HookDll, usize), WindowsError>)
        ensures
            match loaded {
                Ok((dll, pid_at)) => {
                    &&& callwndproc_proc matches Ok(first)
                    &&& cbt_proc matches Ok(second)
                    &&& server_pid matches Ok(third)
                    &&& dll.library == library
                    &&& dll.callwndproc_proc == first
                    &&& dll.cbt_proc == second
                    &&& pid_at == third
                },
                Err(error) => match callwndproc_proc {
                    Err(first) => error == first,
                    Ok(_) => match cbt_proc {
                        Err(second) => error == second,
                        Ok(_) => server_pid matches Err(third) && error == third,
                    },
                },
            },
    {
        let callwndproc_proc = match callwndproc_proc {
            Ok(address) => address,
            Err(error) => {
                return Err(error);
            },
        };
        let cbt_proc = match cbt_proc {
            Ok(address) => address,
            Err(error) => {
                return Err(error);
            },
        };
        let server_pid = match server_pid {
            Ok(address) => address,
            Err(error) => {
                return Err(error);
            },
        };
        Ok((HookDll { library, callwndproc_proc, cbt_proc }, server_pid))
    }
}

} // verus!
