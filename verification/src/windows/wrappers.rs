//! Typed results of Win32 calls.
//!
//! A function here has the name of the call it interprets. It takes what the call
//! returned, together with the thread's last-error code read straight after it,
//! and gives the typed result.

use vstd::prelude::*;
use vstd::string::StringExecFns;
use crate::util::{as_signed, decimal, push_decimal, to_signed, trim_end, trimmed_end};
use crate::windows::def::{
    BOOL,
    DWORD,
    ERROR_IO_PENDING,
    ERROR_PIPE_CONNECTED,
    ERROR_SUCCESS,
    FALSE,
    HANDLE,
    HWND,
    INVALID_HANDLE_VALUE,
    LONG,
    NULL,
    RECT,
    UINT,
    WAIT_ABANDONED_0,
    WAIT_FAILED,
    WAIT_OBJECT_0,
    WAIT_TIMEOUT,
};

verus! {

/// The call in which an error arose.
#[derive(Clone, Copy, Debug, PartialEq, Eq, Structural)]
pub enum ErrorOrigin {
    SetWindowText,
    GetWindowTextLength,
    GetWindowText,
    GetWindowLong,
    SetWindowLong,
    GetWindowRect,
    SetWindowPos,
    ReadFile,
    WriteFile,
    CloseHandle,
    GetOverlappedResult,
    ConnectNamedPipe,
    CreateNamedPipe,
    DisconnectNamedPipe,
    ResetEvent,
    CreateEvent,
    SetEvent,
    WaitForMultipleObjects,
    CreateFile,
    SetNamedPipeHandleState,
    SetWindowsHookEx,
    UnhookWindowsHookEx,
    LoadLibrary,
    FreeLibrary,
    GetProcAddress,
    WaitForSingleObject,
    OpenProcess,
    GetExitCodeProcess,
    PostThreadMessage,
    GetMessage,
}

/// A failed call: where it failed and the system's error code.
#[derive(Clone, Copy, Debug, PartialEq, Eq, Structural)]
pub struct Error {
    pub origin: ErrorOrigin,
    pub code: DWORD,
}

/// Whether an overlapped operation completed at once or is still under way.
#[derive(Clone, Copy, Debug, PartialEq, Eq, Structural)]
pub enum IoState {
    Pending,
    Finished,
}

/// What ended a wait.
#[derive(Clone, Copy, Debug, PartialEq, Eq, Structural)]
pub enum WaitResult {
    Object(DWORD),
    Abandoned(DWORD),
    Timeout,
}

/// The result of a call that reports failure by returning `FALSE`.
pub open spec fn checked(origin: ErrorOrigin, result: BOOL, last_error: DWORD) -> Result<(), Error> {
    if result == FALSE {
        Err(Error { origin, code: last_error })
    } else {
        Ok(())
    }
}

/// The state of an overlapped transfer that was just issued: a `FALSE` return with
/// `ERROR_IO_PENDING` means the transfer goes on in the background.
pub open spec fn issued(origin: ErrorOrigin, result: BOOL, last_error: DWORD) -> Result<IoState, Error> {
    if result != FALSE {
        Ok(IoState::Finished)
    } else if last_error == ERROR_IO_PENDING {
        Ok(IoState::Pending)
    } else {
        Err(Error { origin, code: last_error })
    }
}

impl ErrorOrigin {
    /// The name of the call, as it is written.
    pub open spec fn name_of(self) -> Seq<char> {
        match self {
            ErrorOrigin::SetWindowText => "SetWindowText"@,
            ErrorOrigin::GetWindowTextLength => "GetWindowTextLength"@,
            ErrorOrigin::GetWindowText => "GetWindowText"@,
            ErrorOrigin::GetWindowLong => "GetWindowLong"@,
            ErrorOrigin::SetWindowLong => "SetWindowLong"@,
            ErrorOrigin::GetWindowRect => "GetWindowRect"@,
            ErrorOrigin::SetWindowPos => "SetWindowPos"@,
            ErrorOrigin::ReadFile => "ReadFile"@,
            ErrorOrigin::WriteFile => "WriteFile"@,
            ErrorOrigin::CloseHandle => "CloseHandle"@,
            ErrorOrigin::GetOverlappedResult => "GetOverlappedResult"@,
            ErrorOrigin::ConnectNamedPipe => "ConnectNamedPipe"@,
            ErrorOrigin::CreateNamedPipe => "CreateNamedPipe"@,
            ErrorOrigin::DisconnectNamedPipe => "DisconnectNamedPipe"@,
            ErrorOrigin::ResetEvent => "ResetEvent"@,
            ErrorOrigin::CreateEvent => "CreateEvent"@,
            ErrorOrigin::SetEvent => "SetEvent"@,
            ErrorOrigin::WaitForMultipleObjects => "WaitForMultipleObjects"@,
            ErrorOrigin::CreateFile => "CreateFile"@,
            ErrorOrigin::SetNamedPipeHandleState => "SetNamedPipeHandleState"@,
            ErrorOrigin::SetWindowsHookEx => "SetWindowsHookEx"@,
            ErrorOrigin::UnhookWindowsHookEx => "UnhookWindowsHookEx"@,
            ErrorOrigin::LoadLibrary => "LoadLibrary"@,
            ErrorOrigin::FreeLibrary => "FreeLibrary"@,
            ErrorOrigin::GetProcAddress => "GetProcAddress"@,
            ErrorOrigin::WaitForSingleObject => "WaitForSingleObject"@,
            ErrorOrigin::OpenProcess => "OpenProcess"@,
            ErrorOrigin::GetExitCodeProcess => "GetExitCodeProcess"@,
            ErrorOrigin::PostThreadMessage => "PostThreadMessage"@,
            ErrorOrigin::GetMessage => "GetMessage"@,
        }
    }

    pub fn name(&self) -> (name: &'static str)
        ensures
            name@ == self.name_of(),
    {
        match self {
            ErrorOrigin::SetWindowText => "SetWindowText",
            ErrorOrigin::GetWindowTextLength => "GetWindowTextLength",
            ErrorOrigin::GetWindowText => "GetWindowText",
            ErrorOrigin::GetWindowLong => "GetWindowLong",
            ErrorOrigin::SetWindowLong => "SetWindowLong",
            ErrorOrigin::GetWindowRect => "GetWindowRect",
            ErrorOrigin::SetWindowPos => "SetWindowPos",
            ErrorOrigin::ReadFile => "ReadFile",
            ErrorOrigin::WriteFile => "WriteFile",
            ErrorOrigin::CloseHandle => "CloseHandle",
            ErrorOrigin::GetOverlappedResult => "GetOverlappedResult",
            ErrorOrigin::ConnectNamedPipe => "ConnectNamedPipe",
            ErrorOrigin::CreateNamedPipe => "CreateNamedPipe",
            ErrorOrigin::DisconnectNamedPipe => "DisconnectNamedPipe",
            ErrorOrigin::ResetEvent => "ResetEvent",
            ErrorOrigin::CreateEvent => "CreateEvent",
            ErrorOrigin::SetEvent => "SetEvent",
            ErrorOrigin::WaitForMultipleObjects => "WaitForMultipleObjects",
            ErrorOrigin::CreateFile => "CreateFile",
            ErrorOrigin::SetNamedPipeHandleState => "SetNamedPipeHandleState",
            ErrorOrigin::SetWindowsHookEx => "SetWindowsHookEx",
            ErrorOrigin::UnhookWindowsHookEx => "UnhookWindowsHookEx",
            ErrorOrigin::LoadLibrary => "LoadLibrary",
            ErrorOrigin::FreeLibrary => "FreeLibrary",
            ErrorOrigin::GetProcAddress => "GetProcAddress",
            ErrorOrigin::WaitForSingleObject => "WaitForSingleObject",
            ErrorOrigin::OpenProcess => "OpenProcess",
            ErrorOrigin::GetExitCodeProcess => "GetExitCodeProcess",
            ErrorOrigin::PostThreadMessage => "PostThreadMessage",
            ErrorOrigin::GetMessage => "GetMessage",
        }
    }
}

/// What is said of an error code: the system's message for it without the white
/// space at its end, or a fixed text where the system has no message.
pub open spec fn error_message(message: Option<Seq<char>>) -> Seq<char> {
    match message {
        Some(text) => trimmed_end(text),
        None => "Unknown Windows error"@,
    }
}

/// The text for an error code from the message that the system gave for it, if any.
pub fn format_error(message: Option<&str>) -> (text: String)
    ensures
        text@ == error_message(
            match message {
                Some(given) => Some(given@),
                None => None,
            },
        ),
{
    match message {
        Some(given) => String::from_str(trim_end(given)),
        None => String::from_str("Unknown Windows error"),
    }
}

impl Error {
    /// The line that reports the error: the call, the message, and the code in brackets.
    pub open spec fn report(self, message: Option<Seq<char>>) -> Seq<char> {
        self.origin.name_of() + ": "@ + error_message(message) + " ["@ + decimal(self.code as nat)
            + "]"@
    }

    /// Reports the error with the message that the system gave for its code, if any.
    pub fn to_string(&self, message: Option<&str>) -> (text: String)
        ensures
            text@ == self.report(
                match message {
                    Some(given) => Some(given@),
                    None => None,
                },
            ),
    {
        let mut text = String::from_str(self.origin.name());
        text.append(": ");
        let said = format_error(message);
        text.append(said.as_str());
        text.append(" [");
        push_decimal(&mut text, self.code);
        text.append("]");
        text
    }

    pub fn new(origin: ErrorOrigin, code: DWORD) -> (error: Error)
        ensures
            error == (Error { origin, code }),
    {
        Error { origin, code }
    }

    /// The error of a call that just failed, from the thread's last-error code.
    pub fn last(origin: ErrorOrigin, last_error: DWORD) -> (error: Error)
        ensures
            error == (Error { origin, code: last_error }),
    {
        Error { origin, code: last_error }
    }
}

/// The result of a call that returns a number, where zero may be a value or a
/// failure: it is a failure exactly where the last-error code is set.
pub open spec fn zero_checked(origin: ErrorOrigin, result: i32, last_error: DWORD) -> Result<i32, Error> {
    if result == 0 && last_error != ERROR_SUCCESS {
        Err(Error { origin, code: last_error })
    } else {
        Ok(result)
    }
}

/// The result of a call that returns a handle, and an invalid one on failure.
pub open spec fn valid_handle(origin: ErrorOrigin, result: HANDLE, invalid: HANDLE, last_error: DWORD) -> Result<HANDLE, Error> {
    if result == invalid {
        Err(Error { origin, code: last_error })
    } else {
        Ok(result)
    }
}

/// The result of `SetWindowTextW`.
pub fn SetWindowText(result: BOOL, last_error: DWORD) -> (outcome: Result<(), Error>)
    ensures
        outcome == checked(ErrorOrigin::SetWindowText, result, last_error),
{
    if result == FALSE {
        Err(Error::new(ErrorOrigin::SetWindowText, last_error))
    } else {
        Ok(())
    }
}

/// The result of `GetWindowTextLengthW`: the length of the title in units.
pub fn GetWindowTextLength(result: i32, last_error: DWORD) -> (value: Result<i32, Error>)
    ensures
        value == zero_checked(ErrorOrigin::GetWindowTextLength, result, last_error),
{
    if result == 0 {
        if last_error == ERROR_SUCCESS {
            Ok(0)
        } else {
            Err(Error::new(ErrorOrigin::GetWindowTextLength, last_error))
        }
    } else {
        Ok(result)
    }
}

/// The number of units to make room for before the title of the given length is
/// fetched: the title and its terminating zero, or nothing for an empty title.
pub fn GetWindowTextCapacity(title_length: i32) -> (size: usize)
    ensures
        size == if title_length > 0 {
            title_length + 1
        } else {
            0
        },
{
    if title_length > 0 {
        title_length as usize + 1
    } else {
        0
    }
}

/// The result of `GetWindowTextW`: the first `result` units of the buffer, which is
/// the title without its terminating zero. Zero units are a failure.
pub fn GetWindowText(buffer: &[u16], result: i32, last_error: DWORD) -> (title: Result<Vec<u16>, Error>)
    requires
        0 <= result <= buffer@.len(),
    ensures
        match title {
            Ok(units) => result != 0 && units@ == buffer@.subrange(0, result as int),
            Err(error) => result == 0 && error == (Error {
                origin: ErrorOrigin::GetWindowText,
                code: last_error,
            }),
        },
{
    if result == 0 {
        Err(Error::new(ErrorOrigin::GetWindowText, last_error))
    } else {
        Ok(crate::util::lpwstr_to_osstring(buffer, result as usize))
    }
}

/// The result of `GetWindowLongW`.
pub fn GetWindowLong(result: LONG, last_error: DWORD) -> (value: Result<LONG, Error>)
    ensures
        value == zero_checked(ErrorOrigin::GetWindowLong, result, last_error),
{
    if result == 0 {
        if last_error == ERROR_SUCCESS {
            Ok(0)
        } else {
            Err(Error::new(ErrorOrigin::GetWindowLong, last_error))
        }
    } else {
        Ok(result)
    }
}

/// The result of `SetWindowLongW`, called with the last-error code cleared: the word that was there before.
pub fn SetWindowLong(result: LONG, last_error: DWORD) -> (value: Result<LONG, Error>)
    ensures
        value == zero_checked(ErrorOrigin::SetWindowLong, result, last_error),
{
    if result == 0 {
        if last_error == ERROR_SUCCESS {
            Ok(0)
        } else {
            Err(Error::new(ErrorOrigin::SetWindowLong, last_error))
        }
    } else {
        Ok(result)
    }
}

/// The result of `GetWindowRect`.
pub fn GetWindowRect(result: BOOL, rect: RECT, last_error: DWORD) -> (outcome: Result<RECT, Error>)
    ensures
        outcome == if result == FALSE {
            Err::<RECT, Error>(Error { origin: ErrorOrigin::GetWindowRect, code: last_error })
        } else {
            Ok::<RECT, Error>(rect)
        },
{
    if result == FALSE {
        Err(Error::new(ErrorOrigin::GetWindowRect, last_error))
    } else {
        Ok(rect)
    }
}

/// The result of `SetWindowPos`.
pub fn SetWindowPos(result: BOOL, last_error: DWORD) -> (outcome: Result<(), Error>)
    ensures
        outcome == checked(ErrorOrigin::SetWindowPos, result, last_error),
{
    if result == FALSE {
        Err(Error::new(ErrorOrigin::SetWindowPos, last_error))
    } else {
        Ok(())
    }
}

/// The result of an overlapped `ReadFile`.
pub fn ReadFile(result: BOOL, last_error: DWORD) -> (state: Result<IoState, Error>)
    ensures
        state == issued(ErrorOrigin::ReadFile, result, last_error),
{
    if result == FALSE {
        if last_error == ERROR_IO_PENDING {
            Ok(IoState::Pending)
        } else {
            Err(Error::new(ErrorOrigin::ReadFile, last_error))
        }
    } else {
        Ok(IoState::Finished)
    }
}

/// The result of an overlapped `WriteFile`.
pub fn WriteFile(result: BOOL, last_error: DWORD) -> (state: Result<IoState, Error>)
    ensures
        state == issued(ErrorOrigin::WriteFile, result, last_error),
{
    if result == FALSE {
        if last_error == ERROR_IO_PENDING {
            Ok(IoState::Pending)
        } else {
            Err(Error::new(ErrorOrigin::WriteFile, last_error))
        }
    } else {
        Ok(IoState::Finished)
    }
}

/// The result of `CloseHandle`.
pub fn CloseHandle(result: BOOL, last_error: DWORD) -> (outcome: Result<(), Error>)
    ensures
        outcome == checked(ErrorOrigin::CloseHandle, result, last_error),
{
    if result == FALSE {
        Err(Error::new(ErrorOrigin::CloseHandle, last_error))
    } else {
        Ok(())
    }
}

/// The result of `GetOverlappedResult`: the count of bytes that were transferred.
pub fn GetOverlappedResult(success: BOOL, num_transferred: DWORD, last_error: DWORD) -> (outcome: Result<
    DWORD,
    Error,
>)
    ensures
        outcome == if success == FALSE {
            Err::<DWORD, Error>(Error { origin: ErrorOrigin::GetOverlappedResult, code: last_error })
        } else {
            Ok::<DWORD, Error>(num_transferred)
        },
{
    if success == FALSE {
        Err(Error::new(ErrorOrigin::GetOverlappedResult, last_error))
    } else {
        Ok(num_transferred)
    }
}

/// The state of a wait for a client that was just issued. A client that connected
/// before the wait was issued counts as a wait that finished.
pub open spec fn connected(result: BOOL, last_error: DWORD) -> Result<IoState, Error> {
    if result != FALSE || last_error == ERROR_PIPE_CONNECTED {
        Ok(IoState::Finished)
    } else if last_error == ERROR_IO_PENDING {
        Ok(IoState::Pending)
    } else {
        Err(Error { origin: ErrorOrigin::ConnectNamedPipe, code: last_error })
    }
}

/// The result of an overlapped `ConnectNamedPipe`.
pub fn ConnectNamedPipe(result: BOOL, last_error: DWORD) -> (state: Result<IoState, Error>)
    ensures
        state == connected(result, last_error),
{
    if result == FALSE {
        if last_error == ERROR_PIPE_CONNECTED {
            Ok(IoState::Finished)
        } else if last_error == ERROR_IO_PENDING {
            Ok(IoState::Pending)
        } else {
            Err(Error::new(ErrorOrigin::ConnectNamedPipe, last_error))
        }
    } else {
        Ok(IoState::Finished)
    }
}

/// The result of `CreateNamedPipeW`.
pub fn CreateNamedPipe(result: HANDLE, last_error: DWORD) -> (handle: Result<HANDLE, Error>)
    ensures
        handle == valid_handle(ErrorOrigin::CreateNamedPipe, result, INVALID_HANDLE_VALUE, last_error),
{
    if result == INVALID_HANDLE_VALUE {
        Err(Error::new(ErrorOrigin::CreateNamedPipe, last_error))
    } else {
        Ok(result)
    }
}

/// The result of `DisconnectNamedPipe`.
pub fn DisconnectNamedPipe(result: BOOL, last_error: DWORD) -> (outcome: Result<(), Error>)
    ensures
        outcome == checked(ErrorOrigin::DisconnectNamedPipe, result, last_error),
{
    if result == FALSE {
        Err(Error::new(ErrorOrigin::DisconnectNamedPipe, last_error))
    } else {
        Ok(())
    }
}

/// The result of `ResetEvent`.
pub fn ResetEvent(result: BOOL, last_error: DWORD) -> (outcome: Result<(), Error>)
    ensures
        outcome == checked(ErrorOrigin::ResetEvent, result, last_error),
{
    if result == FALSE {
        Err(Error::new(ErrorOrigin::ResetEvent, last_error))
    } else {
        Ok(())
    }
}

/// The result of `CreateEventW`.
pub fn CreateEvent(result: HANDLE, last_error: DWORD) -> (handle: Result<HANDLE, Error>)
    ensures
        handle == valid_handle(ErrorOrigin::CreateEvent, result, NULL, last_error),
{
    if result == NULL {
        Err(Error::new(ErrorOrigin::CreateEvent, last_error))
    } else {
        Ok(result)
    }
}

/// The result of `SetEvent`.
pub fn SetEvent(result: BOOL, last_error: DWORD) -> (outcome: Result<(), Error>)
    ensures
        outcome == checked(ErrorOrigin::SetEvent, result, last_error),
{
    if result == FALSE {
        Err(Error::new(ErrorOrigin::SetEvent, last_error))
    } else {
        Ok(())
    }
}

/// Whether a wait on `nCount` objects can have returned the code.
pub open spec fn is_wait_code(result: DWORD, nCount: DWORD) -> bool {
    ||| result == WAIT_FAILED
    ||| result == WAIT_TIMEOUT
    ||| WAIT_OBJECT_0 <= result < WAIT_OBJECT_0 + nCount
    ||| WAIT_ABANDONED_0 <= result < WAIT_ABANDONED_0 + nCount
}

/// What a wait on `nCount` objects returned: a failure, a timeout, the index of the
/// object that was signalled, or the index of the mutex that was abandoned.
pub open spec fn waited(result: DWORD, nCount: DWORD, last_error: DWORD) -> Result<WaitResult, Error> {
    if result == WAIT_FAILED {
        Err(Error { origin: ErrorOrigin::WaitForMultipleObjects, code: last_error })
    } else if result == WAIT_TIMEOUT {
        Ok(WaitResult::Timeout)
    } else if result < WAIT_OBJECT_0 + nCount {
        Ok(WaitResult::Object((result - WAIT_OBJECT_0) as DWORD))
    } else {
        Ok(WaitResult::Abandoned((result - WAIT_ABANDONED_0) as DWORD))
    }
}

/// Whether `WaitForMultipleObjects` can be asked about the code.
pub fn IsWaitCode(result: DWORD, nCount: DWORD) -> (known: bool)
    ensures
        known == is_wait_code(result, nCount),
{
    result == WAIT_FAILED || result == WAIT_TIMEOUT || result < nCount || (result
        >= WAIT_ABANDONED_0 && result - WAIT_ABANDONED_0 < nCount)
}

/// The result of `WaitForMultipleObjects` on `nCount` objects.
pub fn WaitForMultipleObjects(result: DWORD, nCount: DWORD, last_error: DWORD) -> (outcome: Result<
    WaitResult,
    Error,
>)
    requires
        is_wait_code(result, nCount),
    ensures
        outcome == waited(result, nCount, last_error),
        outcome matches Ok(WaitResult::Object(object)) ==> object < nCount,
        outcome matches Ok(WaitResult::Abandoned(object)) ==> object < nCount,
{
    if result == WAIT_FAILED {
        Err(Error::new(ErrorOrigin::WaitForMultipleObjects, last_error))
    } else if result == WAIT_TIMEOUT {
        Ok(WaitResult::Timeout)
    } else if result < nCount {
        Ok(WaitResult::Object(result - WAIT_OBJECT_0))
    } else {
        Ok(WaitResult::Abandoned(result - WAIT_ABANDONED_0))
    }
}

/// Whether a wait on one object can have returned the code.
pub open spec fn is_single_wait_code(result: DWORD) -> bool {
    result == WAIT_TIMEOUT || result == WAIT_OBJECT_0 || result == WAIT_ABANDONED_0 || result
        == WAIT_FAILED
}

/// Whether `WaitForSingleObject` can be asked about the code.
pub fn IsSingleWaitCode(result: DWORD) -> (known: bool)
    ensures
        known == is_single_wait_code(result),
{
    result == WAIT_TIMEOUT || result == WAIT_OBJECT_0 || result == WAIT_ABANDONED_0 || result
        == WAIT_FAILED
}

/// The result of `WaitForSingleObject`.
pub fn WaitForSingleObject(result: DWORD, last_error: DWORD) -> (outcome: Result<WaitResult, Error>)
    requires
        is_single_wait_code(result),
    ensures
        outcome == if result == WAIT_TIMEOUT {
            Ok::<WaitResult, Error>(WaitResult::Timeout)
        } else if result == WAIT_OBJECT_0 {
            Ok::<WaitResult, Error>(WaitResult::Object(0))
        } else if result == WAIT_ABANDONED_0 {
            Ok::<WaitResult, Error>(WaitResult::Abandoned(0))
        } else {
            Err::<WaitResult, Error>(
                Error { origin: ErrorOrigin::WaitForSingleObject, code: last_error },
            )
        },
{
    if result == WAIT_TIMEOUT {
        Ok(WaitResult::Timeout)
    } else if result == WAIT_OBJECT_0 {
        Ok(WaitResult::Object(0))
    } else if result == WAIT_ABANDONED_0 {
        Ok(WaitResult::Abandoned(0))
    } else {
        Err(Error::new(ErrorOrigin::WaitForSingleObject, last_error))
    }
}

/// The result of `OpenProcess`.
pub fn OpenProcess(result: HANDLE, last_error: DWORD) -> (handle: Result<HANDLE, Error>)
    ensures
        handle == valid_handle(ErrorOrigin::OpenProcess, result, NULL, last_error),
{
    if result == NULL {
        Err(Error::new(ErrorOrigin::OpenProcess, last_error))
    } else {
        Ok(result)
    }
}

/// The result of `GetExitCodeProcess`.
pub fn GetExitCodeProcess(result: BOOL, exit_status: DWORD, last_error: DWORD) -> (outcome: Result<
    DWORD,
    Error,
>)
    ensures
        outcome == if result == FALSE {
            Err::<DWORD, Error>(Error { origin: ErrorOrigin::GetExitCodeProcess, code: last_error })
        } else {
            Ok::<DWORD, Error>(exit_status)
        },
{
    if result == FALSE {
        Err(Error::new(ErrorOrigin::GetExitCodeProcess, last_error))
    } else {
        Ok(exit_status)
    }
}

/// The result of `CreateFileW`.
pub fn CreateFile(result: HANDLE, last_error: DWORD) -> (handle: Result<HANDLE, Error>)
    ensures
        handle == valid_handle(ErrorOrigin::CreateFile, result, INVALID_HANDLE_VALUE, last_error),
{
    if result == INVALID_HANDLE_VALUE {
        Err(Error::new(ErrorOrigin::CreateFile, last_error))
    } else {
        Ok(result)
    }
}

/// The result of `SetNamedPipeHandleState`.
pub fn SetNamedPipeHandleState(result: BOOL, last_error: DWORD) -> (outcome: Result<(), Error>)
    ensures
        outcome == checked(ErrorOrigin::SetNamedPipeHandleState, result, last_error),
{
    if result == FALSE {
        Err(Error::new(ErrorOrigin::SetNamedPipeHandleState, last_error))
    } else {
        Ok(())
    }
}

/// The result of `SetWindowsHookExW`: the hook's handle.
pub fn SetWindowsHookEx(result: HANDLE, last_error: DWORD) -> (handle: Result<HANDLE, Error>)
    ensures
        handle == valid_handle(ErrorOrigin::SetWindowsHookEx, result, NULL, last_error),
{
    if result == NULL {
        Err(Error::new(ErrorOrigin::SetWindowsHookEx, last_error))
    } else {
        Ok(result)
    }
}

/// The result of `UnhookWindowsHookEx`.
pub fn UnhookWindowsHookEx(result: BOOL, last_error: DWORD) -> (outcome: Result<(), Error>)
    ensures
        outcome == checked(ErrorOrigin::UnhookWindowsHookEx, result, last_error),
{
    if result == FALSE {
        Err(Error::new(ErrorOrigin::UnhookWindowsHookEx, last_error))
    } else {
        Ok(())
    }
}

/// The result of `LoadLibraryW`: the module's handle.
pub fn LoadLibrary(result: HANDLE, last_error: DWORD) -> (handle: Result<HANDLE, Error>)
    ensures
        handle == valid_handle(ErrorOrigin::LoadLibrary, result, NULL, last_error),
{
    if result == NULL {
        Err(Error::new(ErrorOrigin::LoadLibrary, last_error))
    } else {
        Ok(result)
    }
}

/// The result of `FreeLibrary`.
pub fn FreeLibrary(result: BOOL, last_error: DWORD) -> (outcome: Result<(), Error>)
    ensures
        outcome == checked(ErrorOrigin::FreeLibrary, result, last_error),
{
    if result == FALSE {
        Err(Error::new(ErrorOrigin::FreeLibrary, last_error))
    } else {
        Ok(())
    }
}

/// The result of `GetProcAddress`: the address of the symbol.
pub fn GetProcAddress(result: HANDLE, last_error: DWORD) -> (handle: Result<HANDLE, Error>)
    ensures
        handle == valid_handle(ErrorOrigin::GetProcAddress, result, NULL, last_error),
{
    if result == NULL {
        Err(Error::new(ErrorOrigin::GetProcAddress, last_error))
    } else {
        Ok(result)
    }
}

/// The result of `PostThreadMessageW`.
pub fn PostThreadMessage(result: BOOL, last_error: DWORD) -> (outcome: Result<(), Error>)
    ensures
        outcome == checked(ErrorOrigin::PostThreadMessage, result, last_error),
{
    if result == FALSE {
        Err(Error::new(ErrorOrigin::PostThreadMessage, last_error))
    } else {
        Ok(())
    }
}

/// A message of a thread's queue, as `MSG` lays it out.
#[derive(Clone, Copy, Debug, PartialEq, Eq, Structural)]
pub struct MSG {
    pub hwnd: HWND,
    pub message: UINT,
    pub wParam: usize,
    pub lParam: isize,
    pub time: DWORD,
    pub pt_x: LONG,
    pub pt_y: LONG,
}

/// What came off a thread's message queue.
#[derive(Clone, Copy, Debug, PartialEq, Eq, Structural)]
pub enum GetMessageResult {
    /// The request to quit, with the exit code.
    Quit(i32),
    Message(MSG),
}

/// The exit code that a quit message carries: the low 32 bits of its parameter, signed.
pub open spec fn exit_code(wParam: usize) -> i32 {
    as_signed((wParam as int % 0x1_0000_0000) as u32)
}

/// The result of `GetMessageW`: -1 is a failure, 0 the request to quit.
pub fn GetMessage(result: BOOL, msg: MSG, last_error: DWORD) -> (outcome: Result<GetMessageResult, Error>)
    ensures
        outcome == if result == -1 {
            Err::<GetMessageResult, Error>(
                Error { origin: ErrorOrigin::GetMessage, code: last_error },
            )
        } else if result == 0 {
            Ok::<GetMessageResult, Error>(GetMessageResult::Quit(exit_code(msg.wParam)))
        } else {
            Ok::<GetMessageResult, Error>(GetMessageResult::Message(msg))
        },
{
    if result == -1 {
        Err(Error::new(ErrorOrigin::GetMessage, last_error))
    } else if result == 0 {
        let low: u64 = msg.wParam as u64 % 0x1_0000_0000;
        Ok(GetMessageResult::Quit(to_signed(low as u32)))
    } else {
        Ok(GetMessageResult::Message(msg))
    }
}

/// The result of `TranslateMessage`: whether the message was translated.
pub fn TranslateMessage(result: BOOL) -> (translated: bool)
    ensures
        translated == (result != FALSE),
{
    result != FALSE
}

} // verus!
