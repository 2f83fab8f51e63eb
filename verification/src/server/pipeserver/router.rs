//! The response router: requests go out to the application with the means to
//! answer, and answers come back to the poller through one queue.

use vstd::prelude::*;
use crossbeam_channel::{Receiver, Sender};
use crate::windows::def::HANDLE;

verus! {

/// The sending half of the response queue, `crossbeam_channel::Sender`. Opaque to the verifier.
#[verifier::external_type_specification]
#[verifier::external_body]
#[verifier::reject_recursive_types(T)]
pub struct ExSender<T>(Sender<T>);

/// The receiving half of the response queue, `crossbeam_channel::Receiver`. Opaque to the verifier.
#[verifier::external_type_specification]
#[verifier::external_body]
#[verifier::reject_recursive_types(T)]
pub struct ExReceiver<T>(Receiver<T>);

/// An answer on its way to the poller: the payload to write, or none for a plain
/// acknowledgment, and the connection it is meant for.
#[derive(Debug)]
pub struct Response {
    message: Option<Vec<u8>>,
    index: usize,
    id: usize,
}

pub struct ResponseView {
    pub message: Option<Seq<u8>>,
    pub index: nat,
    pub id: nat,
}

impl View for Response {
    type V = ResponseView;

    closed spec fn view(&self) -> ResponseView {
        ResponseView {
            message: match self.message {
                Some(bytes) => Some(bytes@),
                None => None,
            },
            index: self.index as nat,
            id: self.id as nat,
        }
    }
}

impl Response {
    /// The slot that the response is meant for.
    pub fn index(&self) -> (index: usize)
        ensures
            index == self@.index,
    {
        self.index
    }

    /// The identity of the client that the response is meant for.
    pub fn id(&self) -> (id: usize)
        ensures
            id == self@.id,
    {
        self.id
    }

    /// Gives up the payload, or `None` for an acknowledgment.
    pub fn into_message(self) -> (message: Option<Vec<u8>>)
        ensures
            match message {
                Some(bytes) => self@.message == Some(bytes@),
                None => self@.message is None,
            },
    {
        self.message
    }

    /// The payload, or `None` for an acknowledgment.
    pub fn message(&self) -> (message: &Option<Vec<u8>>)
        ensures
            match *message {
                Some(bytes) => self@.message == Some(bytes@),
                None => self@.message is None,
            },
    {
        &self.message
    }
}

/// What it takes to answer a request: the slot and the identity of the client, the
/// signal that wakes the poller, and a handle on the response queue.
#[derive(Debug)]
pub struct Capability {
    index: usize,
    id: usize,
    signal: HANDLE,
    channel: Sender<Response>,
}

pub struct CapabilityView {
    pub index: nat,
    pub id: nat,
    pub signal: HANDLE,
}

impl View for Capability {
    type V = CapabilityView;

    closed spec fn view(&self) -> CapabilityView {
        CapabilityView { index: self.index as nat, id: self.id as nat, signal: self.signal }
    }
}

/// A request in the hands of the application: the record that the client sent, and
/// what it takes to answer it once.
#[derive(Debug)]
pub struct Request {
    pub message: Vec<u8>,
    pub capability: Capability,
}

pub struct RequestView {
    pub message: Seq<u8>,
    pub index: nat,
    pub id: nat,
    /// The signal that wakes the poller for a response.
    pub signal: HANDLE,
}

impl View for Request {
    type V = RequestView;

    open spec fn view(&self) -> RequestView {
        RequestView {
            message: self.message@,
            index: self.capability@.index,
            id: self.capability@.id,
            signal: self.capability@.signal,
        }
    }
}

impl RequestView {
    /// The response that answers this request with the given payload.
    pub open spec fn response(self, message: Option<Seq<u8>>) -> ResponseView {
        ResponseView { message, index: self.index, id: self.id }
    }
}

impl Request {
    /// A request from the client that slot `index` serves under identity `id`.
    pub(crate) fn new(
        message: Vec<u8>,
        index: usize,
        id: usize,
        signal: HANDLE,
        channel: Sender<Response>,
    ) -> (request: Request)
        ensures
            request@ == (RequestView { message: message@, index: index as nat, id: id as nat, signal }),
    {
        Request { message, capability: Capability { index, id, signal, channel } }
    }

    /// The signal to set before responding, so that the poller wakes up for the response.
    pub fn signal(&self) -> (signal: HANDLE)
        ensures
            signal == self@.signal,
    {
        self.capability.signal
    }

    /// The response that `respond` (with a payload) or `acknowledge` (without) puts on
    /// the queue.
    pub fn response(&self, message: Option<Vec<u8>>) -> (response: Response)
        ensures
            response@ == self@.response(
                match message {
                    Some(bytes) => Some(bytes@),
                    None => None,
                },
            ),
    {
        Response { message, index: self.capability.index, id: self.capability.id }
    }

    /// Answers the request with a payload: the poller will write it to the client and
    /// then read the client's next request. Where the server is gone the response
    /// comes back.
    pub fn respond(self, message: Vec<u8>) -> (sent: Result<(), Response>)
        ensures
            sent matches Err(back) ==> back@ == self@.response(Some(message@)),
    {
        let response = self.response(Some(message));
        send_response(&self.capability.channel, response)
    }

    /// Answers the request without a payload: the poller will read the client's next
    /// request straight away. Where the server is gone the response comes back.
    pub fn acknowledge(self) -> (sent: Result<(), Response>)
        ensures
            sent matches Err(back) ==> back@ == self@.response(None),
    {
        let response = self.response(None);
        send_response(&self.capability.channel, response)
    }
}

/// Calls `crossbeam_channel::unbounded` for the queue that carries responses. Nothing
/// is claimed of the two halves.
#[verifier::external_body]
pub(crate) fn open_router() -> (halves: (Sender<Response>, Receiver<Response>)) {
    crossbeam_channel::unbounded()
}

/// Calls `Sender::clone`: another handle on the same queue. Nothing is claimed of it.
#[verifier::external_body]
pub(crate) fn share_sender(channel: &Sender<Response>) -> (shared: Sender<Response>) {
    channel.clone()
}

/// Calls `Sender::send`, which on an unbounded queue returns at once. Where the
/// receiving half is gone the message comes back unchanged.
#[verifier::external_body]
pub(crate) fn send_response(channel: &Sender<Response>, response: Response) -> (sent: Result<(), Response>)
    ensures
        sent matches Err(back) ==> back == response,
{
    channel.send(response).map_err(|refused| refused.0)
}

/// Calls `Receiver::recv`, which blocks until a response is queued, and gives `None`
/// once every sender is gone and the queue is empty. Which response arrives depends
/// on the other threads, so nothing is claimed of it.
#[verifier::external_body]
pub(crate) fn receive_response(channel: &Receiver<Response>) -> (received: Option<Response>) {
    channel.recv().ok()
}

} // verus!
