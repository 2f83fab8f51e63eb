//! One connection slot and its state machine.
//!
//! A slot never performs a system call. Each method is handed the outcome of the
//! call that was made on the slot's channel and answers with what has to happen
//! next; where nothing has to be known first, it only says what to do.

use vstd::prelude::*;
use crate::windows::wrappers::{Error, IoState};

verus! {

/// Where a slot stands in its conversation with a client.
#[derive(Clone, Copy, Debug, PartialEq, Eq, Structural)]
pub enum ConnectionState {
    Disconnected,
    Connecting,
    Writing,
    Reading,
    AwaitingResponse,
}

/// A system call on a slot's channel or signal.
#[derive(Clone, Copy, Debug, PartialEq, Eq, Structural)]
pub enum Operation {
    /// Wait for a client, overlapped.
    Connect,
    /// Read one request record, overlapped.
    Read,
    /// Write one response record, overlapped.
    Write,
    /// Reset the slot's completion signal and pick up the record that was read.
    ResetSignal,
    /// Drop the client.
    Disconnect,
    /// Fetch the result of the overlapped operation whose signal fired.
    GetOverlappedResult,
}

/// What a step asks of the poller.
#[derive(Clone, Copy, Debug, PartialEq, Eq, Structural)]
pub enum PollAction {
    /// The slot waits for its signal, or for a response.
    DoNothing,
    /// A request has arrived and goes to the application.
    DispatchRequest,
    /// The operation has to be made, and its outcome handed back.
    Perform(Operation),
}

/// A slot as the contracts see it.
pub struct ConnectionView {
    pub id: nat,
    pub state: ConnectionState,
}

/// What one step makes of a slot.
pub struct Outcome {
    pub connection: ConnectionView,
    /// Whether the step took one off the count of free connections.
    pub spent: bool,
    pub result: Result<PollAction, Error>,
}

/// Everything that can happen to a slot.
pub enum Event {
    Connect(Result<IoState, Error>),
    Read(Result<IoState, Error>),
    Write(Result<IoState, Error>),
    NewConnection,
    ReadComplete(Result<(), Error>),
    WriteComplete,
    Disconnected(Result<(), Error>),
    OverlappedResult { transferred: Result<usize, Error>, request_size: usize, response_size: usize },
    Reconnect,
}

impl ConnectionView {
    /// Whether the slot has, or waits for, a client.
    pub open spec fn is_active(self) -> bool {
        self.state != ConnectionState::Disconnected
    }

    /// Whether an overlapped operation is under way, so that the slot's signal may fire.
    pub open spec fn is_in_flight(self) -> bool {
        self.state == ConnectionState::Connecting || self.state == ConnectionState::Reading
            || self.state == ConnectionState::Writing
    }

    /// The slot unchanged, with the given result.
    pub open spec fn stays(self, result: Result<PollAction, Error>) -> Outcome {
        Outcome { connection: self, spent: false, result }
    }

    /// The slot in a new state, waiting for its signal.
    pub open spec fn moves(self, state: ConnectionState) -> Outcome {
        Outcome {
            connection: ConnectionView { id: self.id, state },
            spent: false,
            result: Ok(PollAction::DoNothing),
        }
    }

    /// A client has taken the slot: it is counted off the free connections, and its
    /// first request is to be read.
    pub open spec fn on_new_connection(self) -> Outcome {
        Outcome { connection: self, spent: true, result: Ok(PollAction::Perform(Operation::Read)) }
    }

    /// The wait for a client was issued: a client that is there already takes the slot,
    /// otherwise the slot connects in the background.
    pub open spec fn connect(self, issued: Result<IoState, Error>) -> Outcome {
        match issued {
            Ok(IoState::Finished) => self.on_new_connection(),
            Ok(IoState::Pending) => self.moves(ConnectionState::Connecting),
            Err(e) => self.stays(Err(e)),
        }
    }

    /// The read of a request was issued: a request that is there already is picked up
    /// after the signal is reset, otherwise the slot reads in the background.
    pub open spec fn read(self, issued: Result<IoState, Error>) -> Outcome {
        match issued {
            Ok(IoState::Finished) => self.stays(Ok(PollAction::Perform(Operation::ResetSignal))),
            Ok(IoState::Pending) => self.moves(ConnectionState::Reading),
            Err(e) => self.stays(Err(e)),
        }
    }

    /// A whole request was read and the signal reset: the request goes to the
    /// application, and the slot waits for the response.
    pub open spec fn on_read_complete(self, reset: Result<(), Error>) -> Outcome {
        match reset {
            Ok(_) => Outcome {
                connection: ConnectionView { id: self.id, state: ConnectionState::AwaitingResponse },
                spent: false,
                result: Ok(PollAction::DispatchRequest),
            },
            Err(e) => self.stays(Err(e)),
        }
    }

    /// The response is out: the next request is to be read.
    pub open spec fn on_write_complete(self) -> Outcome {
        self.stays(Ok(PollAction::Perform(Operation::Read)))
    }

    /// The write of a response was issued: it is out already, or the slot writes in
    /// the background.
    pub open spec fn write(self, issued: Result<IoState, Error>) -> Outcome {
        match issued {
            Ok(IoState::Finished) => self.on_write_complete(),
            Ok(IoState::Pending) => self.moves(ConnectionState::Writing),
            Err(e) => self.stays(Err(e)),
        }
    }

    /// The slot without its client, under the next identity.
    pub open spec fn disconnect(self) -> ConnectionView {
        ConnectionView { id: self.id + 1, state: ConnectionState::Disconnected }
    }

    /// The client was dropped with the given outcome: the wait for the next one follows.
    pub open spec fn on_disconnected(self, settled: Result<(), Error>) -> Outcome {
        match settled {
            Ok(_) => self.stays(Ok(PollAction::Perform(Operation::Connect))),
            Err(e) => self.stays(Err(e)),
        }
    }

    /// The slot starts over: an active one gives its client up, which is counted off
    /// the free connections, and the client is to be dropped; one without a client is
    /// to wait for the next.
    pub open spec fn reconnect(self) -> Outcome {
        if self.is_active() {
            Outcome {
                connection: self.disconnect(),
                spent: true,
                result: Ok(PollAction::Perform(Operation::Disconnect)),
            }
        } else {
            self.stays(Ok(PollAction::Perform(Operation::Connect)))
        }
    }

    /// What the result of the overlapped operation under way means. A count of bytes
    /// other than the record's size is a failure of the connection like any other.
    pub open spec fn get_overlapped_result(
        self,
        transferred: Result<usize, Error>,
        request_size: usize,
        response_size: usize,
    ) -> Outcome {
        match transferred {
            Err(e) => self.stays(Err(e)),
            Ok(count) => match self.state {
                ConnectionState::Connecting => self.on_new_connection(),
                ConnectionState::Reading => if count == request_size {
                    self.stays(Ok(PollAction::Perform(Operation::ResetSignal)))
                } else {
                    self.reconnect()
                },
                ConnectionState::Writing => if count == response_size {
                    self.on_write_complete()
                } else {
                    self.reconnect()
                },
                _ => self.stays(Ok(PollAction::DoNothing)),
            },
        }
    }

    /// What an event makes of the slot.
    pub open spec fn step(self, event: Event) -> Outcome {
        match event {
            Event::Connect(issued) => self.connect(issued),
            Event::Read(issued) => self.read(issued),
            Event::Write(issued) => self.write(issued),
            Event::NewConnection => self.on_new_connection(),
            Event::ReadComplete(reset) => self.on_read_complete(reset),
            Event::WriteComplete => self.on_write_complete(),
            Event::Disconnected(settled) => self.on_disconnected(settled),
            Event::OverlappedResult { transferred, request_size, response_size } =>
                self.get_overlapped_result(transferred, request_size, response_size),
            Event::Reconnect => self.reconnect(),
        }
    }

    /// The states that the event may find the slot in. Elsewhere the step is a fault of the
    /// caller: a slot is connected only while disconnected, written to only while its
    /// request is with the application, and signalled only with an operation under way.
    pub open spec fn allows(self, event: Event) -> bool {
        match event {
            Event::Connect(_) => !self.is_active(),
            Event::Write(_) => self.state == ConnectionState::AwaitingResponse,
            Event::OverlappedResult { .. } => self.is_in_flight(),
            _ => true,
        }
    }
}

/// The count of free connections after a step.
pub open spec fn remaining(free: usize, spent: bool) -> int {
    if spent {
        free - 1
    } else {
        free as int
    }
}

/// One slot of the pool: the client's identity and the state of the conversation.
#[derive(Clone, Copy, Debug)]
pub struct Connection {
    id: usize,
    state: ConnectionState,
}

impl View for Connection {
    type V = ConnectionView;

    closed spec fn view(&self) -> ConnectionView {
        ConnectionView { id: self.id as nat, state: self.state }
    }
}

impl Connection {
    /// A fresh slot: no client yet, and the first identity.
    pub fn new() -> (connection: Connection)
        ensures
            connection@ == (ConnectionView { id: 0, state: ConnectionState::Disconnected }),
    {
        Connection { id: 0, state: ConnectionState::Disconnected }
    }

    /// The identity of the slot's client: the number of clients that the slot has
    /// given up.
    pub fn id(&self) -> (id: usize)
        ensures
            id == self@.id,
    {
        self.id
    }

    pub fn state(&self) -> (state: ConnectionState)
        ensures
            state == self@.state,
    {
        self.state
    }

    /// Whether the identity can still be advanced by a disconnect.
    pub fn can_disconnect(&self) -> (able: bool)
        ensures
            able == (self@.is_active() && self@.id < usize::MAX),
    {
        self.state != ConnectionState::Disconnected && self.id < usize::MAX
    }

    /// The wait for a client was issued with the given outcome. A client that is there
    /// already takes the slot at once; otherwise the slot waits for its signal.
    pub fn connect(&mut self, issued: Result<IoState, Error>, free: &mut usize) -> (result: Result<
        PollAction,
        Error,
    >)
        requires
            !old(self)@.is_active(),
            old(self)@.connect(issued).spent ==> *old(free) > 0,
        ensures
            final(self)@ == old(self)@.connect(issued).connection,
            result == old(self)@.connect(issued).result,
            *final(free) == remaining(*old(free), old(self)@.connect(issued).spent),
    {
        match issued {
            Ok(IoState::Finished) => self.on_new_connection(free),
            Ok(IoState::Pending) => {
                self.state = ConnectionState::Connecting;
                Ok(PollAction::DoNothing)
            },
            Err(e) => Err(e),
        }
    }

    /// The read of a request was issued with the given outcome.
    pub fn read(&mut self, issued: Result<IoState, Error>) -> (result: Result<PollAction, Error>)
        ensures
            final(self)@ == old(self)@.read(issued).connection,
            result == old(self)@.read(issued).result,
    {
        match issued {
            Ok(IoState::Finished) => Ok(PollAction::Perform(Operation::ResetSignal)),
            Ok(IoState::Pending) => {
                self.state = ConnectionState::Reading;
                Ok(PollAction::DoNothing)
            },
            Err(e) => Err(e),
        }
    }

    /// The write of the response was issued with the given outcome.
    pub fn write(&mut self, issued: Result<IoState, Error>) -> (result: Result<PollAction, Error>)
        requires
            old(self)@.state == ConnectionState::AwaitingResponse,
        ensures
            final(self)@ == old(self)@.write(issued).connection,
            result == old(self)@.write(issued).result,
    {
        match issued {
            Ok(IoState::Finished) => self.on_write_complete(),
            Ok(IoState::Pending) => {
                self.state = ConnectionState::Writing;
                Ok(PollAction::DoNothing)
            },
            Err(e) => Err(e),
        }
    }

    /// A client has taken the slot: one free connection fewer, and its first request
    /// is to be read.
    pub fn on_new_connection(&mut self, free: &mut usize) -> (result: Result<PollAction, Error>)
        requires
            *old(free) > 0,
        ensures
            final(self)@ == old(self)@,
            result == old(self)@.on_new_connection().result,
            *final(free) == *old(free) - 1,
    {
        *free = *free - 1;
        Ok(PollAction::Perform(Operation::Read))
    }

    /// A whole request has been read and the slot's signal was reset with the given
    /// outcome: the request goes to the application.
    pub fn on_read_complete(&mut self, reset: Result<(), Error>) -> (result: Result<PollAction, Error>)
        ensures
            final(self)@ == old(self)@.on_read_complete(reset).connection,
            result == old(self)@.on_read_complete(reset).result,
    {
        match reset {
            Ok(_) => {
                self.state = ConnectionState::AwaitingResponse;
                Ok(PollAction::DispatchRequest)
            },
            Err(e) => Err(e),
        }
    }

    /// The response is out: the client's next request is to be read.
    pub fn on_write_complete(&mut self) -> (result: Result<PollAction, Error>)
        ensures
            final(self)@ == old(self)@,
            result == old(self)@.on_write_complete().result,
    {
        Ok(PollAction::Perform(Operation::Read))
    }

    /// Gives the client up. The identity moves on, so that whatever still refers to
    /// the old client can be told apart, and the count of free connections goes down by
    /// one, as it does when a client arrives.
    pub fn disconnect(&mut self, free: &mut usize)
        requires
            old(self)@.is_active(),
            old(self)@.id < usize::MAX,
            *old(free) > 0,
        ensures
            final(self)@ == old(self)@.disconnect(),
            *final(free) == *old(free) - 1,
    {
        self.id = self.id + 1;
        self.state = ConnectionState::Disconnected;
        *free = *free - 1;
    }

    /// The client was dropped with the given outcome: the wait for the next client is
    /// to be issued.
    pub fn on_disconnected(&self, settled: Result<(), Error>) -> (result: Result<PollAction, Error>)
        ensures
            result == self@.on_disconnected(settled).result,
    {
        match settled {
            Ok(_) => Ok(PollAction::Perform(Operation::Connect)),
            Err(e) => Err(e),
        }
    }

    /// Starts over after a failure: an active slot drops its client first, an idle
    /// one waits for the next client straight away.
    pub fn reconnect(&mut self, free: &mut usize) -> (result: Result<PollAction, Error>)
        requires
            old(self)@.is_active() ==> old(self)@.id < usize::MAX && *old(free) > 0,
        ensures
            final(self)@ == old(self)@.reconnect().connection,
            result == old(self)@.reconnect().result,
            *final(free) == remaining(*old(free), old(self)@.reconnect().spent),
    {
        if self.state != ConnectionState::Disconnected {
            self.disconnect(free);
            Ok(PollAction::Perform(Operation::Disconnect))
        } else {
            Ok(PollAction::Perform(Operation::Connect))
        }
    }

    /// The slot's signal fired and the overlapped result was fetched with the given
    /// outcome.
    pub fn get_overlapped_result(
        &mut self,
        transferred: Result<usize, Error>,
        request_size: usize,
        response_size: usize,
        free: &mut usize,
    ) -> (result: Result<PollAction, Error>)
        requires
            old(self)@.is_in_flight(),
            old(self)@.get_overlapped_result(transferred, request_size, response_size).spent ==> *old(
                free,
            ) > 0,
            old(self)@.get_overlapped_result(transferred, request_size, response_size).connection.id
                <= usize::MAX,
        ensures
            final(self)@ == old(self)@.get_overlapped_result(
                transferred,
                request_size,
                response_size,
            ).connection,
            result == old(self)@.get_overlapped_result(transferred, request_size, response_size).result,
            *final(free) == remaining(
                *old(free),
                old(self)@.get_overlapped_result(transferred, request_size, response_size).spent,
            ),
    {
        match transferred {
            Err(e) => Err(e),
            Ok(count) => match self.state {
                ConnectionState::Connecting => self.on_new_connection(free),
                ConnectionState::Reading => {
                    if count == request_size {
                        Ok(PollAction::Perform(Operation::ResetSignal))
                    } else {
                        self.reconnect(free)
                    }
                },
                ConnectionState::Writing => {
                    if count == response_size {
                        self.on_write_complete()
                    } else {
                        self.reconnect(free)
                    }
                },
                _ => Ok(PollAction::DoNothing),
            },
        }
    }
}

/// A slot's identity never goes back, and it moves on, by exactly one, only when an
/// active slot gives its client up.
pub proof fn lemma_id_moves_on_disconnect_only(connection: ConnectionView, event: Event)
    ensures
        connection.step(event).connection.id >= connection.id,
        connection.step(event).connection.id != connection.id <==> connection.is_active()
            && connection.step(event).connection == connection.disconnect(),
        connection.step(event).connection.id != connection.id ==> connection.step(event).connection.id
            == connection.id + 1,
{
}

/// A step that gives the client up counts one connection off, and leaves the slot
/// disconnected with the drop of the client as the next operation.
pub proof fn lemma_disconnect_is_counted(connection: ConnectionView, event: Event)
    requires
        connection.step(event).connection.id != connection.id,
    ensures
        connection.step(event).spent,
        connection.step(event).connection.state == ConnectionState::Disconnected,
        connection.step(event).result == Ok::<PollAction, Error>(
            PollAction::Perform(Operation::Disconnect),
        ),
{
}

/// Reads and writes alternate on a slot: a write gets under way only in answer to a
/// request that is with the application, the wait for a client only on a slot that
/// has none, and a request reaches the application only as the outcome of a reset
/// that went through.
pub proof fn lemma_steps_follow_the_conversation(connection: ConnectionView, event: Event)
    requires
        connection.allows(event),
    ensures
        ({
            let after = connection.step(event).connection.state;
            &&& after == ConnectionState::Writing && connection.state != ConnectionState::Writing
                ==> connection.state == ConnectionState::AwaitingResponse && event is Write
            &&& after == ConnectionState::Connecting && connection.state
                != ConnectionState::Connecting ==> !connection.is_active() && event is Connect
            &&& connection.step(event).result == Ok::<PollAction, Error>(PollAction::DispatchRequest)
                <==> event is ReadComplete && event->ReadComplete_0 is Ok
            &&& connection.step(event).result == Ok::<PollAction, Error>(PollAction::DispatchRequest)
                ==> after == ConnectionState::AwaitingResponse
        }),
{
}

/// A failed operation changes nothing on the slot: the failure comes back as it was
/// given, and the count of free connections stays.
pub proof fn lemma_failure_is_handed_on(connection: ConnectionView, event: Event, error: Error)
    requires
        connection.step(event).result == Err::<PollAction, Error>(error),
    ensures
        connection.step(event).connection == connection,
        !connection.step(event).spent,
        match event {
            Event::Connect(issued) => issued == Err::<IoState, Error>(error),
            Event::Read(issued) => issued == Err::<IoState, Error>(error),
            Event::Write(issued) => issued == Err::<IoState, Error>(error),
            Event::ReadComplete(reset) => reset == Err::<(), Error>(error),
            Event::Disconnected(settled) => settled == Err::<(), Error>(error),
            Event::OverlappedResult { transferred, .. } => transferred == Err::<usize, Error>(error),
            _ => false,
        },
{
}

} // verus!
