//! What holds of the pool across the poller's moves.

use vstd::prelude::*;
use crate::server::pipeserver::connection::{ConnectionState, Operation};
use crate::server::pipeserver::list::{CompletionView, ConnectionListView, StepView};
use crate::server::pipeserver::router::{RequestView, ResponseView};
use crate::windows::def::HANDLE;
use crate::windows::wrappers::IoState;

verus! {

/// Growing by `n` signals adds exactly `n` free connections and exactly `n` entries
/// to the wait list, each new slot's signal at the slot's index plus two, and leaves
/// every earlier slot and entry where it was. The new slots have no client yet. The
/// pool stays well formed as long as the machine can index the longer wait list.
pub proof fn lemma_grow_adds_exactly(list: ConnectionListView, signals: Seq<HANDLE>)
    requires
        list.wf(),
    ensures
        list.grow(signals).free == list.free + signals.len(),
        list.grow(signals).events.len() == list.events.len() + signals.len(),
        list.grow(signals).connections.len() == list.connections.len() + signals.len(),
        forall|i: int|
            0 <= i < list.events.len() ==> list.grow(signals).events[i] == list.events[i],
        forall|i: int|
            0 <= i < list.connections.len() ==> list.grow(signals).connections[i]
                == list.connections[i],
        forall|i: int|
            0 <= i < signals.len() ==> list.grow(signals).events[list.connections.len() + i + 2]
                == signals[i],
        forall|i: int|
            list.connections.len() <= i < list.grow(signals).connections.len() ==> !list.grow(
                signals,
            ).connections[i].is_active(),
        list.events.len() + signals.len() <= usize::MAX ==> list.grow(signals).wf(),
{
}

/// The outcome of an operation reaches the one slot it was made on: every other slot
/// stays as it was, whatever the outcome, a failure included. The wait list, the pipe
/// and the record sizes stay as well, and the pool stays well formed.
pub proof fn lemma_resume_touches_one_slot(list: ConnectionListView, completion: CompletionView)
    requires
        list.wf(),
        list.admits(completion),
    ensures
        list.resume(completion).list.wf(),
        list.resume(completion).list.events == list.events,
        list.resume(completion).list.pipe_name == list.pipe_name,
        list.resume(completion).list.request_size == list.request_size,
        list.resume(completion).list.response_size == list.response_size,
        list.resume(completion).list.connections.len() == list.connections.len(),
        forall|i: int|
            0 <= i < list.connections.len() && i != list.pending.unwrap().0
                ==> list.resume(completion).list.connections[i] == list.connections[i],
{
}

/// The step after an outcome stays with the slot that the operation was made on.
pub proof fn lemma_resume_stays_on_slot(list: ConnectionListView, completion: CompletionView)
    requires
        list.wf(),
        list.admits(completion),
    ensures
        match list.resume(completion).step {
            StepView::Perform { index, operation, payload } => index == list.pending.unwrap().0
                && operation != Operation::Write && payload.len() == 0
                && list.resume(completion).list.pending == Some((index, operation)),
            StepView::Dispatch(request) => request.index == list.pending.unwrap().0
                && list.resume(completion).list.idle(),
            StepView::Continue => list.resume(completion).list.idle(),
            _ => false,
        },
{
}

/// No outcome frees a connection: the count goes down by one where a client takes a
/// slot or is given up, and stays otherwise.
pub proof fn lemma_resume_counts_down(list: ConnectionListView, completion: CompletionView)
    requires
        list.wf(),
        list.admits(completion),
    ensures
        list.resume(completion).list.free == list.free || list.resume(completion).list.free + 1
            == list.free,
{
}

/// Across an outcome the identity of the slot never goes back. It moves on, by one,
/// exactly when the slot gives up a client, and the slot is then disconnected with
/// the drop of the client as its next operation.
pub proof fn lemma_resume_identity(list: ConnectionListView, completion: CompletionView)
    requires
        list.wf(),
        list.admits(completion),
    ensures
        ({
            let index = list.pending.unwrap().0 as int;
            let before = list.connections[index];
            let after = list.resume(completion).list.connections[index];
            &&& after.id >= before.id
            &&& after.id != before.id ==> before.is_active() && after == before.disconnect()
                && list.resume(completion).step == (StepView::Perform {
                index: index as usize,
                operation: Operation::Disconnect,
                payload: Seq::<u8>::empty(),
            })
        }),
{
}

/// A request that is dispatched holds the record that was read, unchanged and of the
/// size of a request, names the slot and the identity that the slot has from then
/// on, and leaves the slot waiting for the response.
pub proof fn lemma_dispatch_carries_record(list: ConnectionListView, completion: CompletionView)
    requires
        list.wf(),
        list.admits(completion),
        list.resume(completion).step is Dispatch,
    ensures
        ({
            let request = list.resume(completion).step->Dispatch_0;
            let slot = list.resume(completion).list.connections[request.index as int];
            &&& completion is SignalReset
            &&& request.message == completion->message
            &&& request.message.len() == list.request_size
            &&& request.id == slot.id
            &&& request.signal == list.response_signal()
            &&& slot.state == ConnectionState::AwaitingResponse
        }),
{
}

/// A response that carries another identity than its slot's current one is dropped:
/// the pool stays as it was and the round is over.
pub proof fn lemma_stale_response_is_dropped(list: ConnectionListView, response: ResponseView)
    requires
        response.index < list.connections.len(),
        response.id != list.connections[response.index as int].id,
    ensures
        list.routes(response),
        list.on_response(response).list == list,
        list.on_response(response).step == StepView::Continue,
{
}

/// A response to an earlier client of a slot is stale from the moment the slot gives
/// that client up, and stays stale whatever happens on the slot afterwards.
pub proof fn lemma_response_stale_after_disconnect(
    list: ConnectionListView,
    completion: CompletionView,
    request: RequestView,
    message: Option<Seq<u8>>,
)
    requires
        list.wf(),
        list.admits(completion),
        request.index == list.pending.unwrap().0,
        request.id <= list.connections[request.index as int].id,
        list.resume(completion).list.connections[request.index as int].id
            != list.connections[request.index as int].id,
    ensures
        list.resume(completion).list.on_response(request.response(message)).list == list.resume(
            completion,
        ).list,
        list.resume(completion).list.on_response(request.response(message)).step
            == StepView::Continue,
{
}

/// The answer to a request reaches the client as it was given: where the request's
/// slot still serves the same client, a response with a payload makes the next
/// operation the write of exactly that payload on that slot, and an acknowledgment
/// makes it a read, with nothing written. No slot changes either way.
pub proof fn lemma_round_trip(list: ConnectionListView, request: RequestView, payload: Seq<u8>)
    requires
        list.wf(),
        list.idle(),
        request.index < list.connections.len(),
        request.id == list.connections[request.index as int].id,
        list.connections[request.index as int].state == ConnectionState::AwaitingResponse,
    ensures
        list.routes(request.response(Some(payload))),
        list.routes(request.response(None)),
        list.on_response(request.response(Some(payload))).step == (StepView::Perform {
            index: request.index as usize,
            operation: Operation::Write,
            payload,
        }),
        list.on_response(request.response(None)).step == (StepView::Perform {
            index: request.index as usize,
            operation: Operation::Read,
            payload: Seq::<u8>::empty(),
        }),
        list.on_response(request.response(Some(payload))).list.connections == list.connections,
        list.on_response(request.response(None)).list.connections == list.connections,
        list.on_response(request.response(Some(payload))).list.wf(),
        list.on_response(request.response(None)).list.wf(),
{
}

/// From the request to the write: the answer to the request that an outcome has
/// dispatched makes the next operation, on the request's slot, the write of exactly
/// the payload that the application gave, and an acknowledgment makes it the read
/// of the client's next request.
pub proof fn lemma_dispatched_request_is_answered(
    list: ConnectionListView,
    completion: CompletionView,
    payload: Seq<u8>,
)
    requires
        list.wf(),
        list.admits(completion),
        list.resume(completion).step is Dispatch,
    ensures
        ({
            let request = list.resume(completion).step->Dispatch_0;
            let after = list.resume(completion).list;
            &&& after.idle()
            &&& after.routes(request.response(Some(payload)))
            &&& after.routes(request.response(None))
            &&& after.on_response(request.response(Some(payload))).step == (StepView::Perform {
                index: request.index as usize,
                operation: Operation::Write,
                payload,
            })
            &&& after.on_response(request.response(None)).step == (StepView::Perform {
                index: request.index as usize,
                operation: Operation::Read,
                payload: Seq::<u8>::empty(),
            })
        }),
{
    lemma_dispatch_carries_record(list, completion);
    lemma_resume_touches_one_slot(list, completion);
    let request = list.resume(completion).step->Dispatch_0;
    lemma_round_trip(list.resume(completion).list, request, payload);
}

/// Taking a response changes no slot, no entry of the wait list and no count.
pub proof fn lemma_response_changes_no_slot(list: ConnectionListView, response: ResponseView)
    requires
        list.wf(),
        list.idle(),
        list.routes(response),
    ensures
        list.on_response(response).list.wf(),
        list.on_response(response).list.connections == list.connections,
        list.on_response(response).list.events == list.events,
        list.on_response(response).list.free == list.free,
{
}

/// One overlapped operation at a time: an operation that goes on in the background
/// ends the round, and leaves its slot waiting for its signal. A new round on the
/// slot starts only when that signal has fired, so nothing is issued on a slot
/// while an operation of it is under way.
pub proof fn lemma_background_operation_ends_the_round(list: ConnectionListView)
    requires
        list.wf(),
        list.admits(CompletionView::Issued(Ok(IoState::Pending))),
    ensures
        ({
            let turn = list.resume(CompletionView::Issued(Ok(IoState::Pending)));
            let index = list.pending.unwrap().0;
            &&& turn.step == StepView::Continue
            &&& turn.list.idle()
            &&& turn.list.connections[index as int].is_in_flight()
            &&& turn.list.connections[index as int].id == list.connections[index as int].id
            &&& !enabled(turn.list, Move::BeginConnect(index))
            &&& forall|response: ResponseView|
                response.index == index && response.id == turn.list.connections[index as int].id
                    ==> !(#[trigger] turn.list.routes(response))
            &&& enabled(turn.list, Move::Signal(index))
        }),
{
}

/// A move of the poller on the pool.
pub enum Move {
    /// The pool grows by one slot for each of the signals.
    Grow(Seq<HANDLE>),
    /// The wait for a client is asked for on a slot.
    BeginConnect(usize),
    /// The signal of a slot fired.
    Signal(usize),
    /// A response came off the queue.
    Response(ResponseView),
    /// The outcome of the operation under way came back.
    Outcome(CompletionView),
}

/// Whether the pool can make the move.
pub open spec fn enabled(list: ConnectionListView, step: Move) -> bool {
    match step {
        Move::Grow(signals) => list.events.len() + signals.len() <= usize::MAX,
        Move::BeginConnect(index) => list.idle() && index < list.connections.len()
            && !list.connections[index as int].is_active(),
        Move::Signal(index) => list.idle() && index < list.connections.len()
            && list.connections[index as int].is_in_flight(),
        Move::Response(response) => list.idle() && list.routes(response),
        Move::Outcome(completion) => list.admits(completion),
    }
}

/// The pool after the move.
pub open spec fn moved(list: ConnectionListView, step: Move) -> ConnectionListView {
    match step {
        Move::Grow(signals) => list.grow(signals),
        Move::BeginConnect(index) => list.begin_connect(index).list,
        Move::Signal(index) => list.signalled(index).list,
        Move::Response(response) => list.on_response(response).list,
        Move::Outcome(completion) => list.resume(completion).list,
    }
}

/// Whether the pool can make the moves, one after the other.
pub open spec fn runnable(list: ConnectionListView, moves: Seq<Move>) -> bool
    decreases moves.len(),
{
    moves.len() == 0 || (enabled(list, moves.first()) && runnable(
        moved(list, moves.first()),
        moves.drop_first(),
    ))
}

/// The pool after the moves.
pub open spec fn run(list: ConnectionListView, moves: Seq<Move>) -> ConnectionListView
    decreases moves.len(),
{
    if moves.len() == 0 {
        list
    } else {
        run(moved(list, moves.first()), moves.drop_first())
    }
}

/// What a later pool has kept of an earlier one: every slot, under an identity that
/// has not gone back, every entry of the wait list where it was, the pipe, and the
/// record sizes.
pub open spec fn keeps(later: ConnectionListView, earlier: ConnectionListView) -> bool {
    &&& later.pipe_name == earlier.pipe_name
    &&& later.request_size == earlier.request_size
    &&& later.response_size == earlier.response_size
    &&& later.connections.len() >= earlier.connections.len()
    &&& later.events.len() >= earlier.events.len()
    &&& forall|i: int| 0 <= i < earlier.events.len() ==> later.events[i] == earlier.events[i]
    &&& forall|i: int|
        0 <= i < earlier.connections.len() ==> later.connections[i].id >= earlier.connections[i].id
}

/// No move takes a slot or an entry of the wait list away, reorders them, or turns
/// an identity back.
pub proof fn lemma_move_keeps_pool(list: ConnectionListView, step: Move)
    requires
        list.wf(),
        enabled(list, step),
    ensures
        moved(list, step).wf(),
        keeps(moved(list, step), list),
{
    match step {
        Move::Grow(signals) => {
            lemma_grow_adds_exactly(list, signals);
        },
        Move::Outcome(completion) => {
            lemma_resume_touches_one_slot(list, completion);
            lemma_resume_identity(list, completion);
        },
        _ => {},
    }
}

/// Whatever the poller does, and for however long, the pool stays well formed and
/// only grows: the signal of slot `i` stays at entry `i + 2` of the wait list, the
/// stop signal and the response-ready signal stay at its head, and the identity of
/// a slot never goes back.
pub proof fn lemma_pool_only_grows(list: ConnectionListView, moves: Seq<Move>)
    requires
        list.wf(),
        runnable(list, moves),
    ensures
        run(list, moves).wf(),
        keeps(run(list, moves), list),
    decreases moves.len(),
{
    if moves.len() > 0 {
        let next = moved(list, moves.first());
        lemma_move_keeps_pool(list, moves.first());
        lemma_pool_only_grows(next, moves.drop_first());
    }
}

/// A response stays stale for good: once a slot has moved on from the identity that
/// a request was made under, no run of moves makes the pool take the answer.
pub proof fn lemma_stale_stays_stale(
    list: ConnectionListView,
    moves: Seq<Move>,
    request: RequestView,
    message: Option<Seq<u8>>,
)
    requires
        list.wf(),
        runnable(list, moves),
        request.index < list.connections.len(),
        request.id < list.connections[request.index as int].id,
    ensures
        run(list, moves).routes(request.response(message)),
        run(list, moves).on_response(request.response(message)).list == run(list, moves),
        run(list, moves).on_response(request.response(message)).step == StepView::Continue,
{
    lemma_pool_only_grows(list, moves);
}

} // verus!
