//! Plain-value counterparts of the Win32 definitions that the server relies on,
//! and the rules by which the raw results of Win32 calls become typed results.

pub mod def;
pub mod wrappers;
