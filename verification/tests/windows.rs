use wlw_server::windows::def::RECT;
use wlw_server::windows::wrappers::{
    format_error, CloseHandle, ConnectNamedPipe, CreateEvent, CreateFile, CreateNamedPipe,
    DisconnectNamedPipe, Error, ErrorOrigin, FreeLibrary, GetExitCodeProcess, GetMessage,
    GetMessageResult, GetOverlappedResult, GetProcAddress, GetWindowLong, GetWindowRect,
    GetWindowText, GetWindowTextCapacity, GetWindowTextLength, IoState, IsSingleWaitCode,
    IsWaitCode, LoadLibrary, OpenProcess, PostThreadMessage, ReadFile, ResetEvent, SetEvent,
    SetNamedPipeHandleState, SetWindowLong, SetWindowPos, SetWindowText, SetWindowsHookEx,
    TranslateMessage, UnhookWindowsHookEx, WaitForMultipleObjects, WaitForSingleObject,
    WaitResult, WriteFile, MSG,
};

fn error(origin: ErrorOrigin, code: u32) -> Error {
    Error { origin, code }
}

fn message(w_param: usize) -> MSG {
    MSG { hwnd: 1, message: 0x0012, wParam: w_param, lParam: 0, time: 5, pt_x: 1, pt_y: 2 }
}

#[test]
fn calls_that_return_false_on_failure() {
    type Check = fn(i32, u32) -> Result<(), Error>;
    let checks: [(Check, ErrorOrigin); 11] = [
        (SetWindowText, ErrorOrigin::SetWindowText),
        (SetWindowPos, ErrorOrigin::SetWindowPos),
        (CloseHandle, ErrorOrigin::CloseHandle),
        (DisconnectNamedPipe, ErrorOrigin::DisconnectNamedPipe),
        (ResetEvent, ErrorOrigin::ResetEvent),
        (SetEvent, ErrorOrigin::SetEvent),
        (SetNamedPipeHandleState, ErrorOrigin::SetNamedPipeHandleState),
        (UnhookWindowsHookEx, ErrorOrigin::UnhookWindowsHookEx),
        (FreeLibrary, ErrorOrigin::FreeLibrary),
        (PostThreadMessage, ErrorOrigin::PostThreadMessage),
        (SetWindowText, ErrorOrigin::SetWindowText),
    ];
    for (check, origin) in checks {
        assert_eq!(check(1, 5), Ok(()));
        assert_eq!(check(-1, 5), Ok(()));
        assert_eq!(check(0, 5), Err(error(origin, 5)));
        assert_eq!(check(0, 0), Err(error(origin, 0)));
    }
}

#[test]
fn calls_that_return_a_handle() {
    type Check = fn(usize, u32) -> Result<usize, Error>;
    let null_checks: [(Check, ErrorOrigin); 5] = [
        (CreateEvent, ErrorOrigin::CreateEvent),
        (OpenProcess, ErrorOrigin::OpenProcess),
        (SetWindowsHookEx, ErrorOrigin::SetWindowsHookEx),
        (LoadLibrary, ErrorOrigin::LoadLibrary),
        (GetProcAddress, ErrorOrigin::GetProcAddress),
    ];
    for (check, origin) in null_checks {
        assert_eq!(check(0x40, 6), Ok(0x40));
        assert_eq!(check(usize::MAX, 6), Ok(usize::MAX));
        assert_eq!(check(0, 6), Err(error(origin, 6)));
    }
    let invalid_checks: [(Check, ErrorOrigin); 2] = [
        (CreateNamedPipe, ErrorOrigin::CreateNamedPipe),
        (CreateFile, ErrorOrigin::CreateFile),
    ];
    for (check, origin) in invalid_checks {
        assert_eq!(check(0x40, 231), Ok(0x40));
        assert_eq!(check(0, 231), Ok(0));
        assert_eq!(check(usize::MAX, 231), Err(error(origin, 231)));
    }
}

#[test]
fn overlapped_transfers() {
    assert_eq!(ReadFile(1, 0), Ok(IoState::Finished));
    assert_eq!(ReadFile(0, 997), Ok(IoState::Pending));
    assert_eq!(ReadFile(0, 109), Err(error(ErrorOrigin::ReadFile, 109)));
    assert_eq!(ReadFile(1, 997), Ok(IoState::Finished));
    assert_eq!(WriteFile(1, 0), Ok(IoState::Finished));
    assert_eq!(WriteFile(0, 997), Ok(IoState::Pending));
    assert_eq!(WriteFile(0, 232), Err(error(ErrorOrigin::WriteFile, 232)));
    assert_eq!(ReadFile(0, 535), Err(error(ErrorOrigin::ReadFile, 535)));
}

#[test]
fn connect_named_pipe() {
    assert_eq!(ConnectNamedPipe(1, 0), Ok(IoState::Finished));
    assert_eq!(ConnectNamedPipe(0, 535), Ok(IoState::Finished));
    assert_eq!(ConnectNamedPipe(0, 997), Ok(IoState::Pending));
    assert_eq!(ConnectNamedPipe(0, 231), Err(error(ErrorOrigin::ConnectNamedPipe, 231)));
    assert_eq!(ConnectNamedPipe(0, 0), Err(error(ErrorOrigin::ConnectNamedPipe, 0)));
}

#[test]
fn overlapped_result_and_exit_code() {
    assert_eq!(GetOverlappedResult(1, 21, 0), Ok(21));
    assert_eq!(GetOverlappedResult(0, 21, 996), Err(error(ErrorOrigin::GetOverlappedResult, 996)));
    assert_eq!(GetExitCodeProcess(1, 259, 0), Ok(259));
    assert_eq!(GetExitCodeProcess(0, 259, 5), Err(error(ErrorOrigin::GetExitCodeProcess, 5)));
}

#[test]
fn zero_is_a_failure_only_with_an_error_code() {
    assert_eq!(GetWindowLong(0, 0), Ok(0));
    assert_eq!(GetWindowLong(0, 1400), Err(error(ErrorOrigin::GetWindowLong, 1400)));
    assert_eq!(GetWindowLong(-5, 1400), Ok(-5));
    assert_eq!(SetWindowLong(0, 0), Ok(0));
    assert_eq!(SetWindowLong(0, 5), Err(error(ErrorOrigin::SetWindowLong, 5)));
    assert_eq!(SetWindowLong(0x1000_0000, 5), Ok(0x1000_0000));
    assert_eq!(GetWindowTextLength(0, 0), Ok(0));
    assert_eq!(GetWindowTextLength(0, 1400), Err(error(ErrorOrigin::GetWindowTextLength, 1400)));
    assert_eq!(GetWindowTextLength(12, 1400), Ok(12));
}

#[test]
fn window_text() {
    assert_eq!(GetWindowTextCapacity(0), 0);
    assert_eq!(GetWindowTextCapacity(-3), 0);
    assert_eq!(GetWindowTextCapacity(5), 6);
    let buffer = [104u16, 105, 33, 0, 7, 7];
    assert_eq!(GetWindowText(&buffer, 3, 0), Ok(vec![104, 105, 33]));
    assert_eq!(GetWindowText(&buffer, 6, 0), Ok(buffer.to_vec()));
    assert_eq!(GetWindowText(&buffer, 0, 1400), Err(error(ErrorOrigin::GetWindowText, 1400)));
}

#[test]
fn window_rect() {
    let rect = RECT { left: 1, top: 2, right: 3, bottom: 4 };
    assert_eq!(GetWindowRect(1, rect, 0), Ok(rect));
    assert_eq!(GetWindowRect(0, rect, 1400), Err(error(ErrorOrigin::GetWindowRect, 1400)));
}

#[test]
fn wait_for_multiple_objects() {
    assert_eq!(WaitForMultipleObjects(0, 18, 0), Ok(WaitResult::Object(0)));
    assert_eq!(WaitForMultipleObjects(17, 18, 0), Ok(WaitResult::Object(17)));
    assert_eq!(WaitForMultipleObjects(0x80, 18, 0), Ok(WaitResult::Abandoned(0)));
    assert_eq!(WaitForMultipleObjects(0x91, 18, 0), Ok(WaitResult::Abandoned(17)));
    assert_eq!(WaitForMultipleObjects(258, 18, 0), Ok(WaitResult::Timeout));
    assert_eq!(
        WaitForMultipleObjects(0xFFFF_FFFF, 18, 6),
        Err(error(ErrorOrigin::WaitForMultipleObjects, 6))
    );
    // With more objects than the timeout's code, the code still means the timeout.
    assert_eq!(WaitForMultipleObjects(258, 300, 0), Ok(WaitResult::Timeout));
    assert_eq!(WaitForMultipleObjects(200, 300, 0), Ok(WaitResult::Object(200)));
    assert!(IsWaitCode(17, 18));
    assert!(!IsWaitCode(18, 18));
    assert!(IsWaitCode(0x91, 18));
    assert!(!IsWaitCode(0x92, 18));
    assert!(IsWaitCode(258, 1));
    assert!(IsWaitCode(0xFFFF_FFFF, 0));
    assert!(!IsWaitCode(0, 0));
    assert!(IsWaitCode(0xFFFF_FFFE, 0xFFFF_FFFF));
}

#[test]
fn wait_for_single_object() {
    assert_eq!(WaitForSingleObject(258, 0), Ok(WaitResult::Timeout));
    assert_eq!(WaitForSingleObject(0, 0), Ok(WaitResult::Object(0)));
    assert_eq!(WaitForSingleObject(0x80, 0), Ok(WaitResult::Abandoned(0)));
    assert_eq!(
        WaitForSingleObject(0xFFFF_FFFF, 6),
        Err(error(ErrorOrigin::WaitForSingleObject, 6))
    );
    assert!(IsSingleWaitCode(0) && IsSingleWaitCode(258) && IsSingleWaitCode(0x80));
    assert!(IsSingleWaitCode(0xFFFF_FFFF));
    assert!(!IsSingleWaitCode(1));
}

#[test]
fn get_message() {
    assert_eq!(GetMessage(-1, message(0), 1400), Err(error(ErrorOrigin::GetMessage, 1400)));
    assert_eq!(GetMessage(0, message(3), 0), Ok(GetMessageResult::Quit(3)));
    assert_eq!(GetMessage(0, message(0xFFFF_FFFF), 0), Ok(GetMessageResult::Quit(-1)));
    assert_eq!(GetMessage(0, message(usize::MAX), 0), Ok(GetMessageResult::Quit(-1)));
    assert_eq!(GetMessage(0, message(0x8000_0000), 0), Ok(GetMessageResult::Quit(i32::MIN)));
    assert_eq!(GetMessage(1, message(3), 0), Ok(GetMessageResult::Message(message(3))));
    assert_eq!(GetMessage(-2, message(3), 0), Ok(GetMessageResult::Message(message(3))));
    assert!(TranslateMessage(1));
    assert!(!TranslateMessage(0));
}

#[test]
fn error_text() {
    let failed = Error::new(ErrorOrigin::ReadFile, 109);
    assert_eq!(failed, error(ErrorOrigin::ReadFile, 109));
    assert_eq!(Error::last(ErrorOrigin::SetEvent, 6), error(ErrorOrigin::SetEvent, 6));
    assert_eq!(
        failed.to_string(Some("The pipe has been ended.\r\n")),
        "ReadFile: The pipe has been ended. [109]"
    );
    assert_eq!(failed.to_string(None), "ReadFile: Unknown Windows error [109]");
    assert_eq!(
        error(ErrorOrigin::WaitForMultipleObjects, 4_294_967_295).to_string(Some("x")),
        "WaitForMultipleObjects: x [4294967295]"
    );
    assert_eq!(error(ErrorOrigin::GetMessage, 0).to_string(Some(" a b \t\n")), "GetMessage:  a b [0]");
    assert_eq!(format_error(None), "Unknown Windows error");
    assert_eq!(format_error(Some("Access is denied.\r\n")), "Access is denied.");
    assert_eq!(format_error(Some("   ")), "");
}

#[test]
fn origins_are_named_as_written() {
    assert_eq!(ErrorOrigin::SetWindowText.name(), "SetWindowText");
    assert_eq!(ErrorOrigin::GetOverlappedResult.name(), "GetOverlappedResult");
    assert_eq!(ErrorOrigin::GetMessage.name(), "GetMessage");
    let all = [
        ErrorOrigin::SetWindowText, ErrorOrigin::GetWindowTextLength, ErrorOrigin::GetWindowText,
        ErrorOrigin::GetWindowLong, ErrorOrigin::SetWindowLong, ErrorOrigin::GetWindowRect,
        ErrorOrigin::SetWindowPos, ErrorOrigin::ReadFile, ErrorOrigin::WriteFile,
        ErrorOrigin::CloseHandle, ErrorOrigin::GetOverlappedResult, ErrorOrigin::ConnectNamedPipe,
        ErrorOrigin::CreateNamedPipe, ErrorOrigin::DisconnectNamedPipe, ErrorOrigin::ResetEvent,
        ErrorOrigin::CreateEvent, ErrorOrigin::SetEvent, ErrorOrigin::WaitForMultipleObjects,
        ErrorOrigin::CreateFile, ErrorOrigin::SetNamedPipeHandleState,
        ErrorOrigin::SetWindowsHookEx, ErrorOrigin::UnhookWindowsHookEx, ErrorOrigin::LoadLibrary,
        ErrorOrigin::FreeLibrary, ErrorOrigin::GetProcAddress, ErrorOrigin::WaitForSingleObject,
        ErrorOrigin::OpenProcess, ErrorOrigin::GetExitCodeProcess, ErrorOrigin::PostThreadMessage,
        ErrorOrigin::GetMessage,
    ];
    for origin in all {
        assert_eq!(origin.name(), format!("{:?}", origin));
    }
}
