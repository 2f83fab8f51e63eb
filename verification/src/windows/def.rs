//! Win32 scalar types and constants, by their documented values.

use vstd::prelude::*;

verus! {

pub type BOOL = i32;

pub type DWORD = u32;

pub type UINT = u32;

pub type LONG = i32;

/// A kernel object handle, carried as the integer value of the pointer.
pub type HANDLE = usize;

/// A window handle, carried as the integer value of the pointer.
pub type HWND = usize;

/// A rectangle in screen coordinates, as `RECT` lays it out.
#[derive(Clone, Copy, Debug, PartialEq, Eq, Structural)]
pub struct RECT {
    pub left: LONG,
    pub top: LONG,
    pub right: LONG,
    pub bottom: LONG,
}

pub const FALSE: BOOL = 0;

pub const TRUE: BOOL = 1;

pub const ERROR_SUCCESS: DWORD = 0;

pub const ERROR_PIPE_CONNECTED: DWORD = 535;

pub const ERROR_IO_PENDING: DWORD = 997;

pub const WAIT_OBJECT_0: DWORD = 0;

pub const WAIT_ABANDONED_0: DWORD = 0x80;

pub const WAIT_TIMEOUT: DWORD = 258;

pub const WAIT_FAILED: DWORD = 0xFFFF_FFFF;

pub const INFINITE: DWORD = 0xFFFF_FFFF;

pub const INVALID_HANDLE_VALUE: HANDLE = usize::MAX;

/// The handle that is none.
pub const NULL: HANDLE = 0;

pub const SYNCHRONIZE: DWORD = 0x0010_0000;

pub const FILE_FLAG_OVERLAPPED: DWORD = 0x4000_0000;

pub const PIPE_ACCESS_DUPLEX: DWORD = 0x0000_0003;

pub const PIPE_WAIT: DWORD = 0x0000_0000;

pub const PIPE_READMODE_MESSAGE: DWORD = 0x0000_0002;

pub const PIPE_TYPE_MESSAGE: DWORD = 0x0000_0004;

pub const PIPE_UNLIMITED_INSTANCES: DWORD = 255;

pub const GWL_STYLE: i32 = -16;

pub const GWL_EXSTYLE: i32 = -20;

pub const HWND_TOP: HWND = 0;

pub const SWP_NOACTIVATE: UINT = 0x0010;

pub const WH_CALLWNDPROC: i32 = 4;

pub const WH_CBT: i32 = 5;

pub const WM_CLOSE: UINT = 0x0010;

pub const WM_QUIT: UINT = 0x0012;

pub const SW_HIDE: i32 = 0;

pub const SW_SHOWNORMAL: i32 = 1;

pub const SW_SHOWMINIMIZED: i32 = 2;

pub const SW_MAXIMIZE: i32 = 3;

pub const SW_SHOWNOACTIVATE: i32 = 4;

pub const SW_SHOW: i32 = 5;

pub const SW_MINIMIZE: i32 = 6;

pub const SW_SHOWMINNOACTIVE: i32 = 7;

pub const SW_SHOWNA: i32 = 8;

pub const SW_RESTORE: i32 = 9;

pub const SW_SHOWDEFAULT: i32 = 10;

pub const SW_FORCEMINIMIZE: i32 = 11;

pub const WS_BORDER: DWORD = 0x0080_0000;

pub const WS_CAPTION: DWORD = 0x00C0_0000;

pub const WS_CHILD: DWORD = 0x4000_0000;

pub const WS_CLIPCHILDREN: DWORD = 0x0200_0000;

pub const WS_CLIPSIBLINGS: DWORD = 0x0400_0000;

pub const WS_DISABLED: DWORD = 0x0800_0000;

pub const WS_DLGFRAME: DWORD = 0x0040_0000;

pub const WS_GROUP: DWORD = 0x0002_0000;

pub const WS_HSCROLL: DWORD = 0x0010_0000;

pub const WS_ICONIC: DWORD = 0x2000_0000;

pub const WS_MAXIMIZE: DWORD = 0x0100_0000;

pub const WS_MAXIMIZEBOX: DWORD = 0x0001_0000;

pub const WS_MINIMIZE: DWORD = 0x2000_0000;

pub const WS_MINIMIZEBOX: DWORD = 0x0002_0000;

pub const WS_POPUP: DWORD = 0x8000_0000;

pub const WS_SYSMENU: DWORD = 0x0008_0000;

pub const WS_TABSTOP: DWORD = 0x0001_0000;

pub const WS_THICKFRAME: DWORD = 0x0004_0000;

pub const WS_VISIBLE: DWORD = 0x1000_0000;

pub const WS_VSCROLL: DWORD = 0x0020_0000;

pub const WS_EX_ACCEPTFILES: DWORD = 0x0000_0010;

pub const WS_EX_APPWINDOW: DWORD = 0x0004_0000;

pub const WS_EX_CLIENTEDGE: DWORD = 0x0000_0200;

pub const WS_EX_COMPOSITED: DWORD = 0x0200_0000;

pub const WS_EX_CONTEXTHELP: DWORD = 0x0000_0400;

pub const WS_EX_CONTROLPARENT: DWORD = 0x0001_0000;

pub const WS_EX_DLGMODALFRAME: DWORD = 0x0000_0001;

pub const WS_EX_LAYERED: DWORD = 0x0008_0000;

pub const WS_EX_LAYOUTRTL: DWORD = 0x0040_0000;

pub const WS_EX_LEFTSCROLLBAR: DWORD = 0x0000_4000;

pub const WS_EX_MDICHILD: DWORD = 0x0000_0040;

pub const WS_EX_NOACTIVATE: DWORD = 0x0800_0000;

pub const WS_EX_NOINHERITLAYOUT: DWORD = 0x0010_0000;

pub const WS_EX_NOPARENTNOTIFY: DWORD = 0x0000_0004;

pub const WS_EX_NOREDIRECTIONBITMAP: DWORD = 0x0020_0000;

pub const WS_EX_RIGHT: DWORD = 0x0000_1000;

pub const WS_EX_RTLREADING: DWORD = 0x0000_2000;

pub const WS_EX_STATICEDGE: DWORD = 0x0002_0000;

pub const WS_EX_TOOLWINDOW: DWORD = 0x0000_0080;

pub const WS_EX_TOPMOST: DWORD = 0x0000_0008;

pub const WS_EX_TRANSPARENT: DWORD = 0x0000_0020;

pub const WS_EX_WINDOWEDGE: DWORD = 0x0000_0100;

} // verus!
