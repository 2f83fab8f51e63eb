//! What the server makes of a hook event: which callback of the script is run, with
//! what, and what goes back to the hook.

use vstd::prelude::*;
use vstd::string::StringExecFns;
use crate::server::hookevent::{
    is_event_record,
    event_of,
    HookEvent,
    HookEventC,
    HookResponse,
    PortableRECT,
    PosAndSizeData,
};
use crate::server::luauserdata::{show_command_name, show_command_to_str, Rect};
use crate::server::pipeserver::router::{Request, Response};
use crate::util::{decimal, push_decimal};
use crate::windows::def::{HWND, RECT};
use crate::windows::wrappers;

verus! {

/// The file in the user's home directory that holds the script.
pub const SCRIPT_NAME: &'static str = "wlw.lua";

/// The global table in which the script defines its callbacks.
pub const CALLBACK_TABLE: &'static str = "wlw";

/// Why the server's context could not be made, or why it ended.
#[derive(Debug)]
pub enum Error {
    PipeServerInit(wrappers::Error),
    PipeServerFail(wrappers::Error),
    /// The script could not be read. Holds what the file system said.
    LuaScriptOpen(String),
    /// The script could not be loaded. Holds what the interpreter said.
    LuaInit(String),
    /// A callback failed. Holds what the interpreter said.
    LuaCallback(String),
}

impl Error {
    /// What is shown of the error, before the text of the error behind it.
    pub open spec fn report(self, inner: Seq<char>) -> Seq<char> {
        match self {
            Error::PipeServerInit(_) => "Error creating pipe server: "@ + inner,
            Error::PipeServerFail(_) => "Error in pipe server: "@ + inner,
            Error::LuaScriptOpen(_) => "Error reading Lua script: "@ + inner,
            Error::LuaInit(_) => "Error initializing Lua context: "@ + inner,
            Error::LuaCallback(_) => "Error running Lua callback: "@ + inner,
        }
    }

    /// Shows the error. `inner` is the text of the error behind it.
    pub fn to_string(&self, inner: &str) -> (text: String)
        ensures
            text@ == self.report(inner@),
    {
        let mut text = match self {
            Error::PipeServerInit(_) => String::from_str("Error creating pipe server: "),
            Error::PipeServerFail(_) => String::from_str("Error in pipe server: "),
            Error::LuaScriptOpen(_) => String::from_str("Error reading Lua script: "),
            Error::LuaInit(_) => String::from_str("Error initializing Lua context: "),
            Error::LuaCallback(_) => String::from_str("Error running Lua callback: "),
        };
        text.append(inner);
        text
    }
}

/// What reaches the server's loop.
pub enum Event {
    Interrupt,
    NewRequest(Request),
    PipeServerFail(wrappers::Error),
}

/// What the server's loop does with what reached it.
pub enum Step {
    /// Leave the loop.
    Stop,
    /// Handle the request and answer it.
    Handle(Request),
    /// Leave the loop with the error.
    Fail(Error),
}

/// What a callback is given besides the window.
#[derive(Clone, Copy, Debug, PartialEq, Eq)]
pub enum CallbackArgs {
    Nothing,
    Flag(bool),
    Rect(Rect),
    ShowCommand(&'static str),
}

/// The callback of the script that an event runs.
#[derive(Clone, Copy, Debug, PartialEq, Eq)]
pub struct Callback {
    pub name: &'static str,
    pub hwnd: HWND,
    pub args: CallbackArgs,
    /// Whether the window leaves the table of known windows before the callback runs,
    /// so that the callback runs only for a window that was known.
    pub forgets_window: bool,
    /// Whether the callback's result is the rectangle to answer with.
    pub answers: bool,
}

/// The window of an event.
pub open spec fn window_of(event: HookEvent) -> HWND {
    match event {
        HookEvent::CwpShowWindow { hwnd, .. } => hwnd,
        HookEvent::CbtActivate { hwnd, .. } => hwnd,
        HookEvent::CbtCreateWindow { hwnd, .. } => hwnd,
        HookEvent::CbtDestroyWindow { hwnd } => hwnd,
        HookEvent::CbtMinMax { hwnd, .. } => hwnd,
        HookEvent::CbtMoveSize { hwnd, .. } => hwnd,
    }
}

/// The name of the callback that an event runs.
pub open spec fn callback_name(event: HookEvent) -> Seq<char> {
    match event {
        HookEvent::CwpShowWindow { .. } => "on_window_show"@,
        HookEvent::CbtActivate { .. } => "on_window_activate"@,
        HookEvent::CbtCreateWindow { .. } => "on_window_create"@,
        HookEvent::CbtDestroyWindow { .. } => "on_window_destroy"@,
        HookEvent::CbtMinMax { .. } => "on_window_min_max"@,
        HookEvent::CbtMoveSize { .. } => "on_window_move_resize"@,
    }
}

/// The rectangle that an event proposes, for the events that ask for one back.
pub open spec fn proposed_rect(event: HookEvent) -> Option<RECT> {
    match event {
        HookEvent::CbtCreateWindow { rect, .. } => Some(rect),
        HookEvent::CbtMoveSize { rect, .. } => Some(rect),
        _ => None,
    }
}

pub open spec fn script_rect(rect: RECT) -> Rect {
    Rect { left: rect.left, top: rect.top, right: rect.right, bottom: rect.bottom }
}

pub open spec fn wire_rect(rect: Rect) -> PortableRECT {
    PortableRECT { left: rect.left, top: rect.top, right: rect.right, bottom: rect.bottom }
}

/// The events that have a callback to run: all but a change of the show state to a
/// command that has no name.
pub open spec fn has_callback(event: HookEvent) -> bool {
    event matches HookEvent::CbtMinMax { show_command, .. } ==> show_command_name(show_command) is Some
}

/// The answer to an event after its callback ran. Creating, moving and sizing a
/// window are answered with a rectangle: the one that the callback gave, or the one
/// that the event proposed where the script has no such callback. All other events
/// are acknowledged without an answer.
pub open spec fn answer_to(event: HookEvent, returned: Option<Rect>) -> Option<HookResponse> {
    match proposed_rect(event) {
        Some(rect) => Some(
            HookResponse {
                pos_and_size_data: PosAndSizeData {
                    rect: wire_rect(
                        match returned {
                            Some(given) => given,
                            None => script_rect(rect),
                        },
                    ),
                },
            },
        ),
        None => None,
    }
}

/// The key under which a window stands in the table of known windows: the low 32
/// bits of its handle.
pub fn window_key(hwnd: HWND) -> (key: u32)
    ensures
        key == hwnd as int % 0x1_0000_0000,
{
    (hwnd as u64 % 0x1_0000_0000) as u32
}

/// The name of the pipe of the server process with the given id.
pub fn server_pipe_name(pid: u32) -> (name: String)
    ensures
        name@ == "wlw_server_"@ + decimal(pid as nat),
{
    let mut name = String::from_str("wlw_server_");
    push_decimal(&mut name, pid);
    name
}

/// The server's context: the rules between the pipe server and the script.
pub struct Context {}

impl Context {
    /// What the loop does with what reached it.
    pub fn run(event: Event) -> (step: Step)
        ensures
            match event {
                Event::Interrupt => step is Stop,
                Event::NewRequest(request) => step matches Step::Handle(same) && same == request,
                Event::PipeServerFail(error) => step matches Step::Fail(Error::PipeServerFail(same))
                    && same == error,
            },
    {
        match event {
            Event::Interrupt => Step::Stop,
            Event::NewRequest(request) => Step::Handle(request),
            Event::PipeServerFail(error) => Step::Fail(Error::PipeServerFail(error)),
        }
    }

    /// Reads a request's record as an event, if it is one.
    pub fn decode(message: Vec<u8>) -> (event: Option<HookEvent>)
        ensures
            event == if is_event_record(message@) {
                Some(event_of(message@))
            } else {
                None
            },
    {
        match HookEventC::new(message) {
            Some(record) => Some(record.event()),
            None => None,
        }
    }

    /// Whether the event has a callback to run.
    pub fn has_callback(event: &HookEvent) -> (has: bool)
        ensures
            has == has_callback(*event),
    {
        match event {
            HookEvent::CbtMinMax { show_command, .. } => show_command_to_str(*show_command).is_some(),
            _ => true,
        }
    }

    /// The callback that the event runs, and what it is given.
    pub fn callback(event: HookEvent) -> (callback: Callback)
        requires
            has_callback(event),
        ensures
            callback.name@ == callback_name(event),
            callback.hwnd == window_of(event),
            callback.forgets_window == (event is CbtDestroyWindow),
            callback.answers == (proposed_rect(event) is Some),
            match event {
                HookEvent::CwpShowWindow { shown, .. } => callback.args == CallbackArgs::Flag(shown),
                HookEvent::CbtActivate { caused_by_mouse, .. } => callback.args
                    == CallbackArgs::Flag(caused_by_mouse),
                HookEvent::CbtCreateWindow { rect, .. } => callback.args == CallbackArgs::Rect(
                    script_rect(rect),
                ),
                HookEvent::CbtDestroyWindow { .. } => callback.args == CallbackArgs::Nothing,
                HookEvent::CbtMinMax { show_command, .. } => callback.args matches CallbackArgs::ShowCommand(
                    name,
                ) && Some(name@) == show_command_name(show_command),
                HookEvent::CbtMoveSize { rect, .. } => callback.args == CallbackArgs::Rect(
                    script_rect(rect),
                ),
            },
    {
        match event {
            HookEvent::CwpShowWindow { hwnd, shown } => Callback {
                name: "on_window_show",
                hwnd,
                args: CallbackArgs::Flag(shown),
                forgets_window: false,
                answers: false,
            },
            HookEvent::CbtActivate { hwnd, caused_by_mouse } => Callback {
                name: "on_window_activate",
                hwnd,
                args: CallbackArgs::Flag(caused_by_mouse),
                forgets_window: false,
                answers: false,
            },
            HookEvent::CbtCreateWindow { hwnd, rect } => Callback {
                name: "on_window_create",
                hwnd,
                args: CallbackArgs::Rect(Rect::from(rect)),
                forgets_window: false,
                answers: true,
            },
            HookEvent::CbtDestroyWindow { hwnd } => Callback {
                name: "on_window_destroy",
                hwnd,
                args: CallbackArgs::Nothing,
                forgets_window: true,
                answers: false,
            },
            HookEvent::CbtMinMax { hwnd, show_command } => {
                let name = show_command_to_str(show_command).unwrap();
                Callback {
                    name: "on_window_min_max",
                    hwnd,
                    args: CallbackArgs::ShowCommand(name),
                    forgets_window: false,
                    answers: false,
                }
            },
            HookEvent::CbtMoveSize { hwnd, rect } => Callback {
                name: "on_window_move_resize",
                hwnd,
                args: CallbackArgs::Rect(Rect::from(rect)),
                forgets_window: false,
                answers: true,
            },
        }
    }

    /// The answer to an event after its callback ran. `returned` is the rectangle that
    /// the callback gave, or `None` where the script has no such callback.
    pub fn handle_hook_event(event: HookEvent, returned: Option<Rect>) -> (response: Option<HookResponse>)
        ensures
            response == answer_to(event, returned),
    {
        match event {
            HookEvent::CbtCreateWindow { hwnd: _, rect } => Some(
                Context::rect_response(rect, returned),
            ),
            HookEvent::CbtMoveSize { hwnd: _, rect } => Some(Context::rect_response(rect, returned)),
            _ => None,
        }
    }

    fn rect_response(proposed: RECT, returned: Option<Rect>) -> (response: HookResponse)
        ensures
            response == (HookResponse {
                pos_and_size_data: PosAndSizeData {
                    rect: wire_rect(
                        match returned {
                            Some(given) => given,
                            None => script_rect(proposed),
                        },
                    ),
                },
            }),
    {
        let lua_rect = match returned {
            Some(given) => given,
            None => Rect::from(proposed),
        };
        HookResponse { pos_and_size_data: PosAndSizeData { rect: PortableRECT::from(lua_rect.into_rect()) } }
    }

    /// Answers a request: with the response's record where there is a response, with
    /// a plain acknowledgment where there is none. Where the server is gone, what was
    /// to be sent comes back.
    pub fn answer(request: Request, response: Option<HookResponse>) -> (sent: Result<(), Response>)
        ensures
            sent matches Err(back) ==> back@ == request@.response(
                match response {
                    Some(given) => Some(given.pos_and_size_data.rect.bytes()),
                    None => None,
                },
            ),
    {
        match response {
            Some(given) => request.respond(given.encode()),
            None => request.acknowledge(),
        }
    }
}

} // verus!
