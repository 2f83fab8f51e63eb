[package]
name = "wlw_server"
version = "0.1.0"
edition = "2021"
publish = false

[dependencies]
crossbeam-channel = "0.5"
dirs = "*"
flexi_logger = "*"
glob = "0.3"
log = "0.4"
rlua = "0.19"
winapi = { version = "0.3", features = ["errhandlingapi", "fileapi", "handleapi", "ioapiset", "libloaderapi", "minwinbase", "minwindef", "namedpipeapi", "ntdef", "processthreadsapi", "synchapi", "winbase", "windef", "winerror", "winnt", "winuser"] }
wintrap = "*"
