//! Window-lifecycle hook server: the pipe server's connection state machine,
//! the wire format of hook events, and the rules that the scripting layer and
//! the process supervisors follow.
//!
//! Nothing in this library touches the operating system. Every function takes
//! the outcome of a system call as a plain value and says what follows from it,
//! so the program around the library performs the calls and the library decides.

#![allow(non_snake_case)]

pub mod error;
pub mod hook;
pub mod mainwindow;
pub mod server;
pub mod util;
pub mod windows;
