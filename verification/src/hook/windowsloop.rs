//! The message loop of the hook process.

use vstd::prelude::*;
use crate::util::to_unsigned;
use crate::windows::def::{UINT, WM_QUIT};
use crate::windows::wrappers::{Error, GetMessageResult, MSG};

verus! {

/// A message to post to a thread.
#[derive(Clone, Copy, Debug, PartialEq, Eq, Structural)]
pub struct ThreadMessage {
    pub thread_id: u32,
    pub msg: UINT,
    pub wParam: usize,
    pub lParam: isize,
}

/// The message that asks a thread to leave its loop with the exit code. A negative
/// code is carried as the machine word of the same bits.
pub fn post_quit_message(thread_id: u32, code: i32) -> (message: ThreadMessage)
    ensures
        message.thread_id == thread_id,
        message.msg == WM_QUIT,
        message.lParam == 0,
        code >= 0 ==> message.wParam == code,
        code < 0 ==> message.wParam == usize::MAX - (-(code as int) - 1),
{
    let wParam: usize = if code >= 0 {
        code as usize
    } else {
        let back: u32 = to_unsigned(-(code + 1));
        usize::MAX - back as usize
    };
    ThreadMessage { thread_id, msg: WM_QUIT, wParam, lParam: 0 }
}

/// What the loop does with what came off the queue.
#[derive(Clone, Copy, Debug, PartialEq, Eq, Structural)]
pub enum LoopStep {
    /// Leave the loop with the exit code.
    Exit(i32),
    /// Translate and dispatch the message, then fetch the next.
    Dispatch(MSG),
}

/// One turn of the loop: the request to quit ends it with its code, any other message
/// is dispatched, and a failure of the queue ends it with the error.
pub fn run_event_loop(fetched: Result<GetMessageResult, Error>) -> (step: Result<LoopStep, Error>)
    ensures
        step == match fetched {
            Ok(GetMessageResult::Quit(code)) => Ok::<LoopStep, Error>(LoopStep::Exit(code)),
            Ok(GetMessageResult::Message(msg)) => Ok::<LoopStep, Error>(LoopStep::Dispatch(msg)),
            Err(error) => Err::<LoopStep, Error>(error),
        },
{
    match fetched {
        Ok(GetMessageResult::Quit(code)) => Ok(LoopStep::Exit(code)),
        Ok(GetMessageResult::Message(msg)) => Ok(LoopStep::Dispatch(msg)),
        Err(error) => Err(error),
    }
}

} // verus!
