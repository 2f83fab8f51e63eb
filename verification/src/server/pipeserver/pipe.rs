//! The channel of a slot: how the server's end of the named pipe is made.

use vstd::prelude::*;
use crate::windows::def::{
    DWORD,
    FILE_FLAG_OVERLAPPED,
    PIPE_ACCESS_DUPLEX,
    PIPE_READMODE_MESSAGE,
    PIPE_TYPE_MESSAGE,
    PIPE_UNLIMITED_INSTANCES,
    PIPE_WAIT,
};

verus! {

/// The time, in milliseconds, that a client waits for a free instance by default.
pub const DEFAULT_TIMEOUT_MS: DWORD = 1000;

/// The arguments of the call that makes one instance of the pipe.
#[derive(Clone, Copy, Debug, PartialEq, Eq, Structural)]
pub struct Pipe {
    pub open_mode: DWORD,
    pub pipe_mode: DWORD,
    pub max_instances: DWORD,
    pub out_buffer_size: DWORD,
    pub in_buffer_size: DWORD,
    pub default_timeout: DWORD,
}

impl Pipe {
    /// Whether records of the two sizes fit the sizes that a pipe can be made with.
    pub fn admits(output_size: usize, input_size: usize) -> (able: bool)
        ensures
            able == (output_size <= u32::MAX && input_size <= u32::MAX),
    {
        output_size <= 0xFFFF_FFFF && input_size <= 0xFFFF_FFFF
    }

    /// An instance that goes both ways, overlapped, in whole messages, as one of any
    /// number of instances, with room for one record each way: responses go out,
    /// requests come in.
    pub fn new(output_size: usize, input_size: usize) -> (pipe: Pipe)
        requires
            output_size <= u32::MAX,
            input_size <= u32::MAX,
        ensures
            pipe == (Pipe {
                open_mode: 0x4000_0003,
                pipe_mode: 0x0000_0006,
                max_instances: PIPE_UNLIMITED_INSTANCES,
                out_buffer_size: output_size as DWORD,
                in_buffer_size: input_size as DWORD,
                default_timeout: DEFAULT_TIMEOUT_MS,
            }),
            pipe.open_mode == PIPE_ACCESS_DUPLEX | FILE_FLAG_OVERLAPPED,
            pipe.pipe_mode == PIPE_TYPE_MESSAGE | PIPE_READMODE_MESSAGE | PIPE_WAIT,
    {
        assert(0x0000_0003u32 | 0x4000_0000u32 == 0x4000_0003u32) by (bit_vector);
        assert(0x0000_0004u32 | 0x0000_0002u32 | 0x0000_0000u32 == 0x0000_0006u32) by (bit_vector);
        Pipe {
            open_mode: PIPE_ACCESS_DUPLEX | FILE_FLAG_OVERLAPPED,
            pipe_mode: PIPE_TYPE_MESSAGE | PIPE_READMODE_MESSAGE | PIPE_WAIT,
            max_instances: PIPE_UNLIMITED_INSTANCES,
            out_buffer_size: output_size as DWORD,
            in_buffer_size: input_size as DWORD,
            default_timeout: DEFAULT_TIMEOUT_MS,
        }
    }
}

} // verus!
