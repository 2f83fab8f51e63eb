//! The pipe server: many fixed-size request/response conversations over one
//! wait list, advanced one system call at a time.
//!
//! `PipeServer` is the poller of one server: the pool of connections and the
//! poller's own life. The thread that runs a server asks `next_action` what to do,
//! does it, and hands the outcome back; it stops when told to exit.

pub mod connection;
pub mod laws;
pub mod list;
pub mod pipe;
pub mod router;

use vstd::prelude::*;
use vstd::string::StringExecFns;
use crate::server::pipeserver::connection::Operation;
use crate::server::pipeserver::list::{
    fresh,
    Completion,
    ConnectionList,
    ConnectionListView,
    PollStep,
    StepView,
};
use crate::windows::def::HANDLE;
use crate::windows::wrappers::{Error, WaitResult};

verus! {

/// The number of slots that are added whenever no connection is free.
pub const GROWTH_INCREMENT: usize = 16;

/// The namespace in which the system keeps named pipes.
pub open spec fn pipe_namespace() -> Seq<char> {
    "\\\\.\\pipe\\"@
}

/// The path under which the pipe of the given name is reached.
pub fn pipe_path(pipe_name: &str) -> (path: String)
    ensures
        path@ == pipe_namespace() + pipe_name@,
{
    let mut path = String::from_str("\\\\.\\pipe\\");
    path.append(pipe_name);
    path
}

/// The life of a poller.
#[derive(Clone, Copy, Debug, PartialEq, Eq, Structural)]
pub enum ServerState {
    Running,
    /// The stop signal was seen.
    Stopped,
    /// A failure that no connection can be blamed for ended the poller.
    Failed,
}

/// What the poller's thread has to do next.
#[derive(Clone, Copy, Debug, PartialEq, Eq, Structural)]
pub enum ServerAction {
    /// Leave the loop.
    Exit,
    /// An operation is under way: make it and `resume`.
    Resume,
    /// Issue the wait for a client on the slot that was added last and has none yet.
    Connect(usize),
    /// Make this many signals and channels and `grow` by them.
    Grow(usize),
    /// Wait on the wait list, without a timeout, and `poll`.
    Wait,
}

/// The poller as the contracts see it.
pub struct PipeServerView {
    pub list: ConnectionListView,
    pub state: ServerState,
    /// The number of slots on which the wait for a client has been asked for.
    pub begun: nat,
}

impl PipeServerView {
    /// The slots that have not been asked to wait for a client are the last ones,
    /// untouched, and no operation is under way on them.
    pub open spec fn wf(self) -> bool {
        &&& self.list.wf()
        &&& self.begun <= self.list.connections.len()
        &&& forall|i: int| self.begun <= i < self.list.connections.len() ==> self.list.connections[i] == fresh()
        &&& self.list.pending matches Some((index, _)) ==> index < self.begun
    }

    pub open spec fn is_running(self) -> bool {
        self.state == ServerState::Running
    }

    /// A poller that is not running exits. A running one finishes the operation under
    /// way, then sees to it that every slot waits for a client, then grows where no
    /// connection is free, and only then waits.
    pub open spec fn next_action(self) -> ServerAction {
        if !self.is_running() {
            ServerAction::Exit
        } else if !self.list.idle() {
            ServerAction::Resume
        } else if self.begun < self.list.connections.len() {
            ServerAction::Connect(self.begun as usize)
        } else if self.list.free == 0 {
            ServerAction::Grow(GROWTH_INCREMENT)
        } else {
            ServerAction::Wait
        }
    }
}

/// The poller of one server.
pub struct PipeServer {
    connections: ConnectionList,
    state: ServerState,
    begun: usize,
}

impl View for PipeServer {
    type V = PipeServerView;

    closed spec fn view(&self) -> PipeServerView {
        PipeServerView { list: self.connections@, state: self.state, begun: self.begun as nat }
    }
}

impl PipeServer {
    /// A running poller for the pipe of the given name, with no slot yet. The two
    /// signals head the wait list and stay the caller's.
    pub fn new(
        pipe_name: &str,
        stop_signal: HANDLE,
        response_signal: HANDLE,
        request_size: usize,
        response_size: usize,
    ) -> (server: PipeServer)
        ensures
            server@ == (PipeServerView {
                list: ConnectionListView {
                    pipe_name: pipe_namespace() + pipe_name@,
                    connections: Seq::empty(),
                    events: seq![stop_signal, response_signal],
                    free: 0,
                    request_size,
                    response_size,
                    pending: None,
                },
                state: ServerState::Running,
                begun: 0,
            }),
            server@.wf(),
            server@.next_action() == ServerAction::Grow(GROWTH_INCREMENT),
    {
        let connections = ConnectionList::new(
            pipe_path(pipe_name),
            stop_signal,
            response_signal,
            request_size,
            response_size,
        );
        PipeServer { connections, state: ServerState::Running, begun: 0 }
    }

    /// The pool, to look at.
    pub fn connections(&self) -> (connections: &ConnectionList)
        ensures
            connections@ == self@.list,
    {
        &self.connections
    }

    pub fn state(&self) -> (state: ServerState)
        ensures
            state == self@.state,
    {
        self.state
    }

    /// What the poller's thread has to do next.
    pub fn next_action(&self) -> (action: ServerAction)
        requires
            self@.wf(),
        ensures
            action == self@.next_action(),
            action == ServerAction::Wait ==> self@.list.free > 0,
            self@.is_running() && self@.list.idle() && self@.begun == self@.list.connections.len()
                && self@.list.free == 0 ==> action == ServerAction::Grow(GROWTH_INCREMENT),
    {
        if self.state != ServerState::Running {
            ServerAction::Exit
        } else if self.connections.pending().is_some() {
            ServerAction::Resume
        } else if self.begun < self.connections.len() {
            ServerAction::Connect(self.begun)
        } else if self.connections.num_free_connections() == 0 {
            ServerAction::Grow(GROWTH_INCREMENT)
        } else {
            ServerAction::Wait
        }
    }

    /// Adds one slot for each of the signals and counts them as free. Returns the index
    /// of the first new slot.
    pub fn grow(&mut self, signals: &Vec<HANDLE>) -> (first: usize)
        requires
            old(self)@.wf(),
            old(self)@.is_running(),
            old(self)@.list.free + signals@.len() <= usize::MAX,
            old(self)@.list.events.len() + signals@.len() <= usize::MAX,
        ensures
            final(self)@ == (PipeServerView { list: old(self)@.list.grow(signals@), ..old(self)@ }),
            final(self)@.wf(),
            final(self)@.list.free == old(self)@.list.free + signals@.len(),
            final(self)@.list.events.len() == old(self)@.list.events.len() + signals@.len(),
            first == old(self)@.list.connections.len(),
    {
        self.connections.grow(signals)
    }

    /// Asks for the wait for a client on the next slot that has not been asked yet.
    pub fn begin_connect(&mut self) -> (step: PollStep)
        requires
            old(self)@.wf(),
            old(self)@.next_action() is Connect,
        ensures
            final(self)@ == (PipeServerView {
                list: old(self)@.list.begin_connect(old(self)@.begun as usize).list,
                begun: old(self)@.begun + 1,
                ..old(self)@
            }),
            step@ == old(self)@.list.begin_connect(old(self)@.begun as usize).step,
            final(self)@.wf(),
    {
        let step = self.connections.begin_connect(self.begun);
        self.begun = self.begun + 1;
        step
    }

    /// Goes on from a wait that a signal ended. The stop signal stops the poller, for good.
    pub fn poll(&mut self, wait: WaitResult) -> (step: PollStep)
        requires
            old(self)@.wf(),
            old(self)@.next_action() == ServerAction::Wait,
            old(self)@.list.admits_wait(wait),
        ensures
            old(self)@.list.polled(wait, final(self)@.list, step@),
            final(self)@.begun == old(self)@.begun,
            final(self)@.state == if step@ is Stop {
                ServerState::Stopped
            } else {
                ServerState::Running
            },
            final(self)@.wf(),
    {
        let step = self.connections.poll(wait);
        if let PollStep::Stop = step {
            self.state = ServerState::Stopped;
        }
        step
    }

    /// Goes on from the outcome of the operation under way.
    pub fn resume(&mut self, completion: Completion) -> (step: PollStep)
        requires
            old(self)@.wf(),
            old(self)@.next_action() == ServerAction::Resume,
            old(self)@.list.admits(completion@),
        ensures
            final(self)@ == (PipeServerView {
                list: old(self)@.list.resume(completion@).list,
                ..old(self)@
            }),
            step@ == old(self)@.list.resume(completion@).step,
            final(self)@.wf(),
    {
        self.connections.resume(completion)
    }

    /// Ends the poller on a failure that is nobody's connection: a wait that failed, a
    /// signal or a channel that could not be made. Returns the error to report, which
    /// it does once: a poller that has stopped or failed already stays as it is and
    /// reports nothing.
    pub fn fail(&mut self, error: Error) -> (report: Option<Error>)
        ensures
            old(self)@.is_running() ==> report == Some(error) && final(self)@ == (PipeServerView {
                state: ServerState::Failed,
                ..old(self)@
            }),
            !old(self)@.is_running() ==> report is None && final(self)@ == old(self)@,
            final(self)@.next_action() == ServerAction::Exit,
            old(self)@.wf() ==> final(self)@.wf(),
    {
        if self.state == ServerState::Running {
            self.state = ServerState::Failed;
            Some(error)
        } else {
            None
        }
    }
}

/// A poller that has stopped or failed never moves again: its next action is to exit,
/// so no request is dispatched after it, and a later failure reports nothing.
pub proof fn lemma_stopped_stays_stopped(server: PipeServerView)
    requires
        !server.is_running(),
    ensures
        server.next_action() == ServerAction::Exit,
{
}

/// The poller never waits with no connection free, nor with a slot that does not wait
/// for a client: before the wait it grows by the increment.
pub proof fn lemma_waits_with_free_connection(server: PipeServerView)
    requires
        server.wf(),
    ensures
        server.next_action() == ServerAction::Wait ==> server.list.free > 0 && server.begun
            == server.list.connections.len() && server.list.idle(),
        server.is_running() && server.list.idle() && server.begun == server.list.connections.len()
            && server.list.free == 0 ==> server.next_action() == ServerAction::Grow(
            GROWTH_INCREMENT,
        ),
{
}

/// Only an outcome can dispatch a request, and only a running poller takes outcomes:
/// every step of a wait's round is the stop, the end of the round, an operation, or
/// a response that cannot be routed.
pub proof fn lemma_wait_dispatches_nothing(
    list: ConnectionListView,
    wait: WaitResult,
    after: ConnectionListView,
    step: StepView,
)
    requires
        list.wf(),
        list.admits_wait(wait),
        list.polled(wait, after, step),
    ensures
        !(step is Dispatch),
        step is Stop <==> wait == WaitResult::Object(0),
        after.connections == list.connections,
        after.events == list.events,
        after.free == list.free,
        step matches StepView::Perform { operation, payload, .. } ==> (operation == Operation::Write || payload.len() == 0),
{
}

} // verus!
