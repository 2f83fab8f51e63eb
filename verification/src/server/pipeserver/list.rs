//! The connection pool and its poller.
//!
//! The pool owns the slots and the wait list, in lock-step: entry 0 of the wait
//! list is the stop signal, entry 1 the response-ready signal, and entry `i + 2`
//! the signal of slot `i`. It never shrinks and never reorders.
//!
//! The poller's round is cut at every system call. `poll` takes what the wait
//! returned and answers with a step; where the step is an operation, the caller
//! makes it and hands its outcome to `resume`, until a step ends the round.

use vstd::prelude::*;
use crossbeam_channel::{Receiver, Sender};
use crate::server::pipeserver::connection::{
    Connection,
    ConnectionState,
    ConnectionView,
    Operation,
    Outcome,
    PollAction,
};
use crate::server::pipeserver::router::{
    open_router,
    receive_response,
    share_sender,
    Request,
    RequestView,
    Response,
    ResponseView,
};
use crate::windows::def::HANDLE;
use crate::windows::wrappers::{Error, IoState, WaitResult};

verus! {

/// The outcome of an operation, as the caller hands it back.
#[derive(Debug)]
pub enum Completion {
    /// Of `Connect`, `Read` and `Write`: whether the operation finished at once.
    Issued(Result<IoState, Error>),
    /// Of `ResetSignal`: whether the reset went through, and the record that was read.
    SignalReset { result: Result<(), Error>, message: Vec<u8> },
    /// Of `Disconnect`.
    Settled(Result<(), Error>),
    /// Of `GetOverlappedResult`: the count of bytes that were transferred.
    Transferred(Result<usize, Error>),
}

pub enum CompletionView {
    Issued(Result<IoState, Error>),
    SignalReset { result: Result<(), Error>, message: Seq<u8> },
    Settled(Result<(), Error>),
    Transferred(Result<usize, Error>),
}

impl View for Completion {
    type V = CompletionView;

    open spec fn view(&self) -> CompletionView {
        match *self {
            Completion::Issued(issued) => CompletionView::Issued(issued),
            Completion::SignalReset { result, message } => CompletionView::SignalReset {
                result,
                message: message@,
            },
            Completion::Settled(settled) => CompletionView::Settled(settled),
            Completion::Transferred(transferred) => CompletionView::Transferred(transferred),
        }
    }
}

/// What the poller has to do next.
#[derive(Debug)]
pub enum PollStep {
    /// The stop signal fired: the poller ends.
    Stop,
    /// The round is over: wait again.
    Continue,
    /// Make the operation on slot `index` and hand its outcome to `resume`. `payload`
    /// holds the record to write where the operation is `Write`, and is empty otherwise.
    Perform { index: usize, operation: Operation, payload: Vec<u8> },
    /// Hand the request to the application; the round is over.
    Dispatch(Request),
    /// The response queue gave nothing, or a response that no slot can take.
    Unroutable,
}

pub enum StepView {
    Stop,
    Continue,
    Perform { index: usize, operation: Operation, payload: Seq<u8> },
    Dispatch(RequestView),
    Unroutable,
}

impl View for PollStep {
    type V = StepView;

    open spec fn view(&self) -> StepView {
        match *self {
            PollStep::Stop => StepView::Stop,
            PollStep::Continue => StepView::Continue,
            PollStep::Perform { index, operation, payload } => StepView::Perform {
                index,
                operation,
                payload: payload@,
            },
            PollStep::Dispatch(request) => StepView::Dispatch(request@),
            PollStep::Unroutable => StepView::Unroutable,
        }
    }
}

/// The pool as the contracts see it.
pub struct ConnectionListView {
    pub pipe_name: Seq<char>,
    pub connections: Seq<ConnectionView>,
    /// The wait list: stop signal, response-ready signal, then one signal per slot.
    pub events: Seq<HANDLE>,
    /// The count of free connections.
    pub free: nat,
    pub request_size: usize,
    pub response_size: usize,
    /// The operation that the caller is making, and the slot it is made on.
    pub pending: Option<(usize, Operation)>,
}

/// The pool and the step that a move of the poller leaves.
pub struct Turn {
    pub list: ConnectionListView,
    pub step: StepView,
}

/// Whether the operation may be under way on a slot in this state.
pub open spec fn expects(connection: ConnectionView, operation: Operation) -> bool {
    match operation {
        Operation::Connect => !connection.is_active(),
        Operation::Disconnect => !connection.is_active(),
        Operation::Write => connection.state == ConnectionState::AwaitingResponse,
        Operation::GetOverlappedResult => connection.is_in_flight(),
        Operation::Read => true,
        Operation::ResetSignal => true,
    }
}

/// Whether the outcome is of the kind that the operation gives.
pub open spec fn answers(operation: Operation, completion: CompletionView) -> bool {
    match operation {
        Operation::Connect => completion is Issued,
        Operation::Read => completion is Issued,
        Operation::Write => completion is Issued,
        Operation::ResetSignal => completion is SignalReset,
        Operation::Disconnect => completion is Settled,
        Operation::GetOverlappedResult => completion is Transferred,
    }
}

/// A slot that has not met a client yet.
pub open spec fn fresh() -> ConnectionView {
    ConnectionView { id: 0, state: ConnectionState::Disconnected }
}

impl ConnectionListView {
    /// The wait list and the slots go in lock-step, the wait list can be indexed by the
    /// machine, and an operation under way is one that its slot's state allows.
    pub open spec fn wf(self) -> bool {
        &&& self.events.len() == self.connections.len() + 2
        &&& self.events.len() <= usize::MAX
        &&& match self.pending {
            None => true,
            Some((index, operation)) => index < self.connections.len() && expects(
                self.connections[index as int],
                operation,
            ),
        }
    }

    /// No operation is under way: the poller may wait.
    pub open spec fn idle(self) -> bool {
        self.pending is None
    }

    pub open spec fn stop_signal(self) -> HANDLE {
        self.events[0]
    }

    pub open spec fn response_signal(self) -> HANDLE {
        self.events[1]
    }

    /// The pool with one slot for each of the signals, appended in their order.
    pub open spec fn grow(self, signals: Seq<HANDLE>) -> ConnectionListView {
        ConnectionListView {
            connections: self.connections + Seq::new(signals.len(), |i: int| fresh()),
            events: self.events + signals,
            free: self.free + signals.len(),
            ..self
        }
    }

    pub open spec fn awaiting(self, index: usize, operation: Operation) -> ConnectionListView {
        ConnectionListView { pending: Some((index, operation)), ..self }
    }

    pub open spec fn perform(self, index: usize, operation: Operation, payload: Seq<u8>) -> Turn {
        Turn {
            list: self.awaiting(index, operation),
            step: StepView::Perform { index, operation, payload },
        }
    }

    /// The wait for a client on a disconnected slot is to be issued.
    pub open spec fn begin_connect(self, index: usize) -> Turn {
        self.perform(index, Operation::Connect, Seq::empty())
    }

    /// The waits that the poller can go on from: a signalled entry of the wait list,
    /// and for a slot's signal a slot with an operation under way.
    pub open spec fn admits_wait(self, wait: WaitResult) -> bool {
        &&& self.idle()
        &&& wait matches WaitResult::Object(object)
        &&& object < self.events.len()
        &&& object >= 2 ==> self.connections[object - 2].is_in_flight()
    }

    /// The signal of slot `index` fired: the result of its operation is to be fetched.
    pub open spec fn signalled(self, index: usize) -> Turn {
        self.perform(index, Operation::GetOverlappedResult, Seq::empty())
    }

    /// The responses that the pool can take: for a slot that exists, and, where the
    /// identity is the slot's current one, for a request that is with the application.
    pub open spec fn routes(self, response: ResponseView) -> bool {
        &&& response.index < self.connections.len()
        &&& response.id == self.connections[response.index as int].id
            ==> self.connections[response.index as int].state == ConnectionState::AwaitingResponse
    }

    /// A response came off the queue. One for an earlier client of the slot is dropped;
    /// otherwise its payload is to be written, or, for an acknowledgment, the next
    /// request read.
    pub open spec fn on_response(self, response: ResponseView) -> Turn {
        if response.id != self.connections[response.index as int].id {
            Turn { list: self, step: StepView::Continue }
        } else {
            match response.message {
                Some(payload) => self.perform(response.index as usize, Operation::Write, payload),
                None => self.perform(response.index as usize, Operation::Read, Seq::empty()),
            }
        }
    }

    /// What a round that starts from the wait may leave: the pool and the first step.
    /// The stop signal ends the poller and changes nothing. A slot's signal asks for
    /// the result of the slot's operation. The response-ready signal takes whatever
    /// response is next on the queue, if the pool can take it.
    pub open spec fn polled(self, wait: WaitResult, after: ConnectionListView, step: StepView) -> bool {
        match wait {
            WaitResult::Object(object) => if object == 0 {
                step is Stop && after == self
            } else if object == 1 {
                ||| step is Unroutable && after == self
                ||| exists|response: ResponseView|
                    {
                        &&& #[trigger] self.routes(response)
                        &&& after == self.on_response(response).list
                        &&& step == self.on_response(response).step
                    }
            } else {
                after == self.signalled((object - 2) as usize).list && step == self.signalled(
                    (object - 2) as usize,
                ).step
            },
            _ => false,
        }
    }

    /// What the outcome of the operation under way makes of its slot, before failures
    /// are dealt with. A record of another size than a request's is a failure.
    pub open spec fn advance(self, completion: CompletionView) -> Outcome {
        let (index, operation) = self.pending.unwrap();
        let connection = self.connections[index as int];
        match completion {
            CompletionView::Issued(issued) => match operation {
                Operation::Connect => connection.connect(issued),
                Operation::Write => connection.write(issued),
                _ => connection.read(issued),
            },
            CompletionView::SignalReset { result, message } => if result is Ok && message.len()
                != self.request_size {
                connection.reconnect()
            } else {
                connection.on_read_complete(result)
            },
            CompletionView::Settled(settled) => connection.on_disconnected(settled),
            CompletionView::Transferred(transferred) => connection.get_overlapped_result(
                transferred,
                self.request_size,
                self.response_size,
            ),
        }
    }

    /// A failure costs the client its connection and nothing else: the slot starts over.
    pub open spec fn settle(outcome: Outcome) -> Outcome {
        if outcome.result is Err {
            outcome.connection.reconnect()
        } else {
            outcome
        }
    }

    /// The outcomes that the pool can go on from: of the operation under way, with a
    /// free connection left to count off where the step takes one, and an identity
    /// left to move on to where the step gives the client up.
    pub open spec fn admits(self, completion: CompletionView) -> bool {
        &&& self.pending matches Some((index, operation))
        &&& answers(operation, completion)
        &&& Self::settle(self.advance(completion)).spent ==> self.free > 0
        &&& Self::settle(self.advance(completion)).connection.id <= usize::MAX
    }

    /// The pool after the outcome of the operation under way, and the next step.
    pub open spec fn resume(self, completion: CompletionView) -> Turn {
        let (index, _) = self.pending.unwrap();
        let outcome = Self::settle(self.advance(completion));
        let list = ConnectionListView {
            connections: self.connections.update(index as int, outcome.connection),
            free: if outcome.spent {
                (self.free - 1) as nat
            } else {
                self.free
            },
            pending: None,
            ..self
        };
        match outcome.result {
            Ok(PollAction::Perform(operation)) => list.perform(index, operation, Seq::empty()),
            Ok(PollAction::DispatchRequest) => Turn {
                list,
                step: StepView::Dispatch(
                    RequestView {
                        message: completion->message,
                        index: index as nat,
                        id: outcome.connection.id,
                        signal: self.response_signal(),
                    },
                ),
            },
            _ => Turn { list, step: StepView::Continue },
        }
    }
}

/// The pool of connection slots, their wait list, and the receiving end of the
/// response queue.
pub struct ConnectionList {
    pipe_name: String,
    connections: Vec<Connection>,
    events: Vec<HANDLE>,
    num_free_connections: usize,
    request_size: usize,
    response_size: usize,
    pending: Option<(usize, Operation)>,
    incoming_response_channel: Receiver<Response>,
    outgoing_response_channel: Sender<Response>,
}

impl View for ConnectionList {
    type V = ConnectionListView;

    closed spec fn view(&self) -> ConnectionListView {
        ConnectionListView {
            pipe_name: self.pipe_name@,
            connections: self.connections@.map_values(|connection: Connection| connection@),
            events: self.events@,
            free: self.num_free_connections as nat,
            request_size: self.request_size,
            response_size: self.response_size,
            pending: self.pending,
        }
    }
}

impl ConnectionList {
    /// An empty pool on the named pipe, for records of the two sizes. The wait list
    /// starts with the two signals, which stay the caller's.
    pub fn new(
        pipe_name: String,
        stop_signal: HANDLE,
        response_signal: HANDLE,
        request_size: usize,
        response_size: usize,
    ) -> (list: ConnectionList)
        ensures
            list@ == (ConnectionListView {
                pipe_name: pipe_name@,
                connections: Seq::empty(),
                events: seq![stop_signal, response_signal],
                free: 0,
                request_size,
                response_size,
                pending: None,
            }),
            list@.wf(),
    {
        let (outgoing_response_channel, incoming_response_channel) = open_router();
        let mut events: Vec<HANDLE> = Vec::new();
        events.push(stop_signal);
        events.push(response_signal);
        let list = ConnectionList {
            pipe_name,
            connections: Vec::new(),
            events,
            num_free_connections: 0,
            request_size,
            response_size,
            pending: None,
            incoming_response_channel,
            outgoing_response_channel,
        };
        assert(list@.connections =~= Seq::empty());
        assert(list@.events =~= seq![stop_signal, response_signal]);
        list
    }

    pub fn pipe_name(&self) -> (name: &str)
        ensures
            name@ == self@.pipe_name,
    {
        self.pipe_name.as_str()
    }

    /// The wait list, in the order in which the signals are waited on.
    pub fn events(&self) -> (events: &Vec<HANDLE>)
        ensures
            events@ == self@.events,
    {
        &self.events
    }

    /// The number of slots.
    pub fn len(&self) -> (len: usize)
        ensures
            len == self@.connections.len(),
    {
        proof {
            assert(self@.connections.len() == self.connections@.len());
        }
        self.connections.len()
    }

    pub fn num_free_connections(&self) -> (free: usize)
        ensures
            free == self@.free,
    {
        self.num_free_connections
    }

    pub fn request_size(&self) -> (size: usize)
        ensures
            size == self@.request_size,
    {
        self.request_size
    }

    pub fn response_size(&self) -> (size: usize)
        ensures
            size == self@.response_size,
    {
        self.response_size
    }

    /// The operation that the caller is to make, if any, with its slot.
    pub fn pending(&self) -> (pending: Option<(usize, Operation)>)
        ensures
            pending == self@.pending,
    {
        self.pending
    }

    /// The slot at `index`, or `None` past the end of the pool.
    pub fn connection(&self, index: usize) -> (connection: Option<Connection>)
        ensures
            match connection {
                Some(slot) => index < self@.connections.len() && slot@
                    == self@.connections[index as int],
                None => index >= self@.connections.len(),
            },
    {
        if index < self.connections.len() {
            Some(self.connections[index])
        } else {
            None
        }
    }

    /// Whether the pool can take `amount` more slots without a count running over.
    pub fn can_grow(&self, amount: usize) -> (able: bool)
        ensures
            able == (self@.free + amount <= usize::MAX && self@.events.len() + amount <= usize::MAX),
    {
        amount <= usize::MAX - self.num_free_connections && amount <= usize::MAX
            - self.events.len()
    }

    /// Adds one slot for each of the signals, in their order, and counts them as free.
    /// The new slots are disconnected: the wait for a client is still to be issued on
    /// each. Returns the index of the first of them.
    pub fn grow(&mut self, signals: &Vec<HANDLE>) -> (first: usize)
        requires
            old(self)@.wf(),
            old(self)@.free + signals@.len() <= usize::MAX,
            old(self)@.events.len() + signals@.len() <= usize::MAX,
        ensures
            final(self)@ == old(self)@.grow(signals@),
            final(self)@.wf(),
            final(self)@.free == old(self)@.free + signals@.len(),
            final(self)@.events.len() == old(self)@.events.len() + signals@.len(),
            final(self)@.connections.len() == old(self)@.connections.len() + signals@.len(),
            first == old(self)@.connections.len(),
            forall|i: int|
                0 <= i < old(self)@.connections.len() ==> final(self)@.connections[i] == old(
                    self,
                )@.connections[i],
            forall|i: int|
                0 <= i < old(self)@.events.len() ==> final(self)@.events[i] == old(self)@.events[i],
    {
        let first = self.connections.len();
        let amount = signals.len();
        self.num_free_connections = self.num_free_connections + amount;
        let mut added: usize = 0;
        while added < amount
            invariant
                added <= amount,
                amount == signals@.len(),
                old(self)@.events.len() + amount <= usize::MAX,
                old(self)@.wf(),
                self.pipe_name == old(self).pipe_name,
                self.request_size == old(self).request_size,
                self.response_size == old(self).response_size,
                self.pending == old(self).pending,
                self.num_free_connections == old(self).num_free_connections + amount,
                self.events@ == old(self).events@ + signals@.subrange(0, added as int),
                self@.connections == old(self)@.connections + Seq::new(
                    added as nat,
                    |i: int| fresh(),
                ),
            decreases amount - added,
        {
            let ghost before = self@.connections;
            self.events.push(signals[added]);
            self.connections.push(Connection::new());
            added = added + 1;
            proof {
                assert(self.events@ =~= old(self).events@ + signals@.subrange(0, added as int));
                assert(self@.connections =~= before.push(fresh()));
                assert(self@.connections =~= old(self)@.connections + Seq::new(
                    added as nat,
                    |i: int| fresh(),
                ));
            }
        }
        proof {
            assert(signals@.subrange(0, amount as int) =~= signals@);
            assert(self@.connections =~= old(self)@.grow(signals@).connections);
            assert(self@.events =~= old(self)@.grow(signals@).events);
        }
        first
    }

    /// Whether the wait for a client can be issued on slot `index`.
    pub fn can_begin_connect(&self, index: usize) -> (able: bool)
        ensures
            able == (self@.idle() && index < self@.connections.len()
                && !self@.connections[index as int].is_active()),
    {
        self.pending.is_none() && index < self.connections.len() && self.connections[index].state()
            == ConnectionState::Disconnected
    }

    /// Asks for the wait for a client on the disconnected slot `index`.
    pub fn begin_connect(&mut self, index: usize) -> (step: PollStep)
        requires
            old(self)@.wf(),
            old(self)@.idle(),
            index < old(self)@.connections.len(),
            !old(self)@.connections[index as int].is_active(),
        ensures
            final(self)@ == old(self)@.begin_connect(index).list,
            step@ == old(self)@.begin_connect(index).step,
            final(self)@.wf(),
    {
        self.pending = Some((index, Operation::Connect));
        PollStep::Perform { index, operation: Operation::Connect, payload: Vec::new() }
    }

    /// Whether the poller can go on from this wait.
    pub fn admits_wait(&self, wait: WaitResult) -> (able: bool)
        requires
            self@.wf(),
        ensures
            able == self@.admits_wait(wait),
    {
        match wait {
            WaitResult::Object(object) => {
                if self.pending.is_some() || object as usize >= self.events.len() {
                    false
                } else if object >= 2 {
                    let state = self.connections[object as usize - 2].state();
                    state == ConnectionState::Connecting || state == ConnectionState::Reading
                        || state == ConnectionState::Writing
                } else {
                    true
                }
            },
            _ => false,
        }
    }

    /// Whether the pool can take the response.
    pub fn routes(&self, response: &Response) -> (able: bool)
        ensures
            able == self@.routes(response@),
    {
        if response.index() < self.connections.len() {
            let connection = self.connections[response.index()];
            connection.id() != response.id() || connection.state()
                == ConnectionState::AwaitingResponse
        } else {
            false
        }
    }

    /// Takes a response that came off the queue. One that names an earlier client of
    /// its slot changes nothing. Otherwise the payload is to be written to the client,
    /// unchanged, or, for an acknowledgment, the client's next request read.
    pub fn on_response(&mut self, response: Response) -> (step: PollStep)
        requires
            old(self)@.wf(),
            old(self)@.idle(),
            old(self)@.routes(response@),
        ensures
            final(self)@ == old(self)@.on_response(response@).list,
            step@ == old(self)@.on_response(response@).step,
            final(self)@.wf(),
            response@.id != old(self)@.connections[response@.index as int].id ==> final(self)@ == old(
                self,
            )@ && step@ is Continue,
    {
        let index = response.index();
        if self.connections[index].id() != response.id() {
            PollStep::Continue
        } else {
            match response.into_message() {
                Some(payload) => {
                    self.pending = Some((index, Operation::Write));
                    PollStep::Perform { index, operation: Operation::Write, payload }
                },
                None => {
                    self.pending = Some((index, Operation::Read));
                    PollStep::Perform { index, operation: Operation::Read, payload: Vec::new() }
                },
            }
        }
    }

    /// Goes on from a wait that a signal ended. The stop signal ends the poller and
    /// changes nothing. The response-ready signal takes one response off the queue.
    /// A slot's signal asks for the result of the slot's operation.
    pub fn poll(&mut self, wait: WaitResult) -> (step: PollStep)
        requires
            old(self)@.wf(),
            old(self)@.admits_wait(wait),
        ensures
            final(self)@.wf(),
            old(self)@.polled(wait, final(self)@, step@),
    {
        match wait {
            WaitResult::Object(object) => {
                if object == 0 {
                    PollStep::Stop
                } else if object == 1 {
                    match receive_response(&self.incoming_response_channel) {
                        Some(response) => {
                            if self.routes(&response) {
                                let ghost taken = response@;
                                let step = self.on_response(response);
                                assert(old(self)@.routes(taken));
                                step
                            } else {
                                PollStep::Unroutable
                            }
                        },
                        None => PollStep::Unroutable,
                    }
                } else {
                    let index = object as usize - 2;
                    self.pending = Some((index, Operation::GetOverlappedResult));
                    PollStep::Perform {
                        index,
                        operation: Operation::GetOverlappedResult,
                        payload: Vec::new(),
                    }
                }
            },
            _ => PollStep::Continue,
        }
    }

    /// Whether the pool can go on from this outcome.
    pub fn admits(&self, completion: &Completion) -> (able: bool)
        requires
            self@.wf(),
        ensures
            able == self@.admits(completion@),
    {
        match self.pending {
            None => false,
            Some((index, operation)) => {
                let connection = self.connections[index];
                let id = connection.id();
                let active = connection.state() != ConnectionState::Disconnected;
                // `takes`: a client takes the slot. `fails`: the slot starts over.
                let (fits, takes, fails) = match completion {
                    Completion::Issued(issued) => match operation {
                        Operation::Connect => match issued {
                            Ok(IoState::Finished) => (true, true, false),
                            Ok(IoState::Pending) => (true, false, false),
                            Err(_) => (true, false, true),
                        },
                        Operation::Read => (true, false, issued.is_err()),
                        Operation::Write => (true, false, issued.is_err()),
                        _ => (false, false, false),
                    },
                    Completion::SignalReset { result, message } => (
                        operation == Operation::ResetSignal,
                        false,
                        result.is_err() || message.len() != self.request_size,
                    ),
                    Completion::Settled(settled) => (
                        operation == Operation::Disconnect,
                        false,
                        settled.is_err(),
                    ),
                    Completion::Transferred(transferred) => match transferred {
                        Err(_) => (operation == Operation::GetOverlappedResult, false, true),
                        Ok(count) => match connection.state() {
                            ConnectionState::Connecting => (
                                operation == Operation::GetOverlappedResult,
                                true,
                                false,
                            ),
                            ConnectionState::Reading => (
                                operation == Operation::GetOverlappedResult,
                                false,
                                *count != self.request_size,
                            ),
                            ConnectionState::Writing => (
                                operation == Operation::GetOverlappedResult,
                                false,
                                *count != self.response_size,
                            ),
                            _ => (operation == Operation::GetOverlappedResult, false, false),
                        },
                    },
                };
                if !fits {
                    false
                } else if takes {
                    self.num_free_connections > 0
                } else if fails && active {
                    self.num_free_connections > 0 && id < usize::MAX
                } else {
                    true
                }
            },
        }
    }

    /// Goes on from the outcome of the operation under way. The outcome advances the
    /// one slot; a failure, or a count of bytes that is not the record's size, makes
    /// the slot start over and reaches nobody else. The step that comes back is the
    /// next operation on the same slot, the request to dispatch, or the end of the round.
    pub fn resume(&mut self, completion: Completion) -> (step: PollStep)
        requires
            old(self)@.wf(),
            old(self)@.admits(completion@),
        ensures
            final(self)@ == old(self)@.resume(completion@).list,
            step@ == old(self)@.resume(completion@).step,
            final(self)@.wf(),
    {
        let (index, operation) = self.pending.unwrap();
        let mut connection = self.connections[index];
        let mut free = self.num_free_connections;
        let mut record: Vec<u8> = Vec::new();
        let advanced = match completion {
            Completion::Issued(issued) => match operation {
                Operation::Connect => connection.connect(issued, &mut free),
                Operation::Write => connection.write(issued),
                _ => connection.read(issued),
            },
            Completion::SignalReset { result, message } => {
                if result.is_ok() && message.len() != self.request_size {
                    connection.reconnect(&mut free)
                } else {
                    record = message;
                    connection.on_read_complete(result)
                }
            },
            Completion::Settled(settled) => connection.on_disconnected(settled),
            Completion::Transferred(transferred) => connection.get_overlapped_result(
                transferred,
                self.request_size,
                self.response_size,
                &mut free,
            ),
        };
        let settled = match advanced {
            Err(_) => connection.reconnect(&mut free),
            Ok(action) => Ok(action),
        };
        self.connections.set(index, connection);
        self.num_free_connections = free;
        self.pending = None;
        proof {
            assert(self@.connections =~= old(self)@.connections.update(index as int, connection@));
        }
        match settled {
            Ok(PollAction::Perform(next)) => {
                self.pending = Some((index, next));
                PollStep::Perform { index, operation: next, payload: Vec::new() }
            },
            Ok(PollAction::DispatchRequest) => {
                let channel = share_sender(&self.outgoing_response_channel);
                PollStep::Dispatch(Request::new(record, index, connection.id(), self.events[1], channel))
            },
            _ => PollStep::Continue,
        }
    }
}

} // verus!
