//! The hidden main window: the window procedure's decisions and the turns of its
//! message loop.

use vstd::prelude::*;
use crate::error::WindowsError;
use crate::windows::def::{BOOL, DWORD, HWND, NULL, UINT, WM_CLOSE};
use crate::windows::wrappers::{exit_code, MSG};
use crate::util::to_signed;

verus! {

/// What the window procedure does with a message.
#[derive(Clone, Copy, Debug, PartialEq, Eq, Structural)]
pub enum ProcStep {
    /// Post the request to quit with code 0, and answer 0.
    Quit,
    /// Leave the message to the default procedure.
    Default,
    /// Hand the message to the window's own procedure, and report how it went.
    Call,
}

/// What the message loop does after `GetMessageW`.
#[derive(Clone, Copy, Debug, PartialEq, Eq, Structural)]
pub enum LoopStep {
    /// Translate and dispatch the message, then see whether the procedure failed.
    Dispatch(MSG),
    /// Leave the loop with the exit code.
    Exit(i32),
}

/// A registered window class.
#[derive(Debug)]
pub struct WindowClass {
    pub wndclass: u16,
    pub instance: usize,
}

impl WindowClass {
    /// The class that `RegisterClassExW` returned an atom for, or the error where the
    /// atom is zero.
    pub fn new(wndclass: u16, instance: usize, last_error: DWORD) -> (class: Result<
        WindowClass,
        WindowsError,
    >)
        requires
            wndclass == 0 ==> last_error != 0,
        ensures
            match class {
                Ok(made) => wndclass != 0 && made.wndclass == wndclass && made.instance == instance,
                Err(error) => wndclass == 0 && error@ == last_error,
            },
    {
        if wndclass == 0 {
            Err(WindowsError::last(last_error))
        } else {
            Ok(WindowClass { wndclass, instance })
        }
    }
}

/// A created window.
#[derive(Debug)]
pub struct Window {
    pub hwnd: HWND,
}

impl Window {
    /// The window that `CreateWindowExW` returned, or the error where it returned none.
    pub fn new(hwnd: HWND, last_error: DWORD) -> (window: Result<Window, WindowsError>)
        requires
            hwnd == NULL ==> last_error != 0,
        ensures
            match window {
                Ok(made) => hwnd != NULL && made.hwnd == hwnd,
                Err(error) => hwnd == NULL && error@ == last_error,
            },
    {
        if hwnd == NULL {
            Err(WindowsError::last(last_error))
        } else {
            Ok(Window { hwnd })
        }
    }
}

/// The main window: its class, the window, and whether its procedure has failed.
#[derive(Debug)]
pub struct MainWindow {
    pub wndclass: WindowClass,
    pub window: Window,
    pub wndproc_panic: bool,
}

impl MainWindow {
    pub fn new(wndclass: WindowClass, window: Window) -> (main_window: MainWindow)
        ensures
            main_window.wndclass == wndclass,
            main_window.window == window,
            !main_window.wndproc_panic,
    {
        MainWindow { wndclass, window, wndproc_panic: false }
    }

    /// What the window procedure does with a message: a close request ends the loop,
    /// whatever else holds; a window that nothing is attached to yet leaves every
    /// message to the default procedure; otherwise the window's own procedure is asked.
    pub fn window_proc_bootstrap(msg: UINT, user_data: isize) -> (step: ProcStep)
        ensures
            step == if msg == WM_CLOSE {
                ProcStep::Quit
            } else if user_data == 0 {
                ProcStep::Default
            } else {
                ProcStep::Call
            },
    {
        if msg == WM_CLOSE {
            ProcStep::Quit
        } else if user_data == 0 {
            ProcStep::Default
        } else {
            ProcStep::Call
        }
    }

    /// Takes what the window's own procedure made of a message: whether it handled the
    /// message, or `None` where it failed. A failure is remembered and counts as
    /// handled. Returns whether the message is handled; one that is not goes to the
    /// default procedure.
    pub fn proc_returned(&mut self, outcome: Option<bool>) -> (handled: bool)
        ensures
            handled == match outcome {
                Some(result) => result,
                None => true,
            },
            final(self).wndproc_panic == (old(self).wndproc_panic || outcome is None),
            final(self).wndclass == old(self).wndclass,
            final(self).window == old(self).window,
    {
        match outcome {
            Some(result) => result,
            None => {
                self.wndproc_panic = true;
                true
            },
        }
    }

    /// One turn of the message loop, from what `GetMessageW` returned: a positive
    /// number is a message to dispatch, a negative one a failure, and zero the request
    /// to quit, with its exit code.
    pub fn run_event_loop(&self, ret: BOOL, msg: MSG, last_error: DWORD) -> (step: Result<
        LoopStep,
        WindowsError,
    >)
        requires
            ret < 0 ==> last_error != 0,
        ensures
            match step {
                Ok(LoopStep::Dispatch(message)) => ret > 0 && message == msg,
                Ok(LoopStep::Exit(code)) => ret == 0 && code == exit_code(msg.wParam),
                Err(error) => ret < 0 && error@ == last_error,
            },
    {
        if ret > 0 {
            Ok(LoopStep::Dispatch(msg))
        } else if ret < 0 {
            Err(WindowsError::last(last_error))
        } else {
            let low: u64 = msg.wParam as u64 % 0x1_0000_0000;
            Ok(LoopStep::Exit(to_signed(low as u32)))
        }
    }

    /// Whether the loop has to give up after a dispatch: it does once the window's
    /// procedure has failed.
    pub fn must_abort(&self) -> (abort: bool)
        ensures
            abort == self.wndproc_panic,
    {
        self.wndproc_panic
    }

    /// The message that asks the window to close.
    pub fn close(&self) -> (message: (HWND, UINT))
        ensures
            message == (self.window.hwnd, WM_CLOSE),
    {
        (self.window.hwnd, WM_CLOSE)
    }
}

} // verus!
