//! The server side: the pipe server and what it carries.

pub mod context;
pub mod debug;
pub mod hookevent;
pub mod hookmanager;
pub mod luauserdata;
pub mod pipeserver;
