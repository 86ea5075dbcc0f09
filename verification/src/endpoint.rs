//! The endpoint's life for one request: received, invoking the backend, and
//! then either streaming or rejected.

use vstd::prelude::*;

use crate::error::{RelayError, BAD_REQUEST, TOO_MANY_REQUESTS};
use crate::invocation::{plan_invocation, planned, Invocation, InvocationView};
use crate::request::ChatRequest;

verus! {

/// Where the endpoint stands with one request.
#[derive(Clone, Copy, Debug, PartialEq, Eq, Structural)]
pub enum EndpointState {
    /// The request has arrived and nothing has been done with it.
    Received,
    /// The backend has been asked and has not answered yet.
    Invoking,
    /// The backend's stream is being relayed as the response body.
    Streaming,
    /// The request was turned down; no stream was ever started.
    Rejected,
}

/// What the endpoint is told.
#[derive(Clone, Debug, PartialEq, Eq)]
pub enum EndpointEvent {
    /// The request body was read.
    Request(ChatRequest),
    /// The backend accepted the invocation and opened its stream.
    InvocationStarted,
    /// The backend failed the invocation before any stream opened.
    InvocationFailed,
}

/// An event as a mathematical value.
pub enum EndpointEventView {
    Request(Seq<Seq<char>>),
    InvocationStarted,
    InvocationFailed,
}

/// The answer to a request that is turned down: a bare status. The body is
/// always empty, so that nothing of the cause leaks to the caller; the cause
/// is kept for the server's own log.
#[derive(Clone, Debug, PartialEq, Eq)]
pub struct Rejection {
    pub status: u16,
    pub body: Vec<u8>,
    pub cause: RelayError,
}

/// A rejection as a mathematical value.
pub struct RejectionView {
    pub status: u16,
    pub body: Seq<u8>,
    pub cause: RelayError,
}

/// What the endpoint's driver is to do next.
#[derive(Clone, Debug, PartialEq, Eq)]
pub enum EndpointAction {
    /// Call the backend with this invocation, once.
    Invoke(Invocation),
    /// Answer with this rejection; the backend is not called, or not again.
    Reject(Rejection),
    /// Answer with an event stream fed by the relay.
    Stream,
    /// The event does not concern the endpoint in its present state.
    Ignore,
}

/// An action as a mathematical value.
pub enum EndpointActionView {
    Invoke(InvocationView),
    Reject(RejectionView),
    Stream,
    Ignore,
}

impl View for Rejection {
    type V = RejectionView;

    open spec fn view(&self) -> RejectionView {
        RejectionView { status: self.status, body: self.body@, cause: self.cause }
    }
}

impl View for EndpointEvent {
    type V = EndpointEventView;

    open spec fn view(&self) -> EndpointEventView {
        match self {
            EndpointEvent::Request(request) => EndpointEventView::Request(request@),
            EndpointEvent::InvocationStarted => EndpointEventView::InvocationStarted,
            EndpointEvent::InvocationFailed => EndpointEventView::InvocationFailed,
        }
    }
}

impl View for EndpointAction {
    type V = EndpointActionView;

    open spec fn view(&self) -> EndpointActionView {
        match self {
            EndpointAction::Invoke(invocation) => EndpointActionView::Invoke(invocation@),
            EndpointAction::Reject(rejection) => EndpointActionView::Reject(rejection@),
            EndpointAction::Stream => EndpointActionView::Stream,
            EndpointAction::Ignore => EndpointActionView::Ignore,
        }
    }
}

impl EndpointState {
    /// What the driver is told in state `self` on `event`.
    ///
    /// A received request is planned: where it has an invocation the
    /// backend is to be called with it, and where it has none it is turned
    /// down as invalid with status 400. While invoking, a started stream is
    /// to be relayed, and a failed invocation is turned down with status
    /// 429. Nothing else concerns the endpoint.
    pub open spec fn action_on(self, event: EndpointEventView) -> EndpointActionView {
        match (self, event) {
            (EndpointState::Received, EndpointEventView::Request(messages)) => match planned(
                messages,
            ) {
                Ok(invocation) => EndpointActionView::Invoke(invocation),
                Err(cause) => EndpointActionView::Reject(
                    RejectionView { status: BAD_REQUEST, body: Seq::empty(), cause },
                ),
            },
            (EndpointState::Invoking, EndpointEventView::InvocationStarted) => {
                EndpointActionView::Stream
            },
            (EndpointState::Invoking, EndpointEventView::InvocationFailed) => {
                EndpointActionView::Reject(
                    RejectionView {
                        status: TOO_MANY_REQUESTS,
                        body: Seq::empty(),
                        cause: RelayError::BackendUnavailable,
                    },
                )
            },
            _ => EndpointActionView::Ignore,
        }
    }

    /// The state that follows `self` on `event`: invoking once the backend
    /// is to be called, streaming once its stream is to be relayed,
    /// rejected once the request is turned down, and unchanged otherwise.
    pub open spec fn after(self, event: EndpointEventView) -> EndpointState {
        match self.action_on(event) {
            EndpointActionView::Invoke(_) => EndpointState::Invoking,
            EndpointActionView::Reject(_) => EndpointState::Rejected,
            EndpointActionView::Stream => EndpointState::Streaming,
            EndpointActionView::Ignore => self,
        }
    }

    /// True of the states that nothing leads out of.
    pub open spec fn settled(self) -> bool {
        self is Streaming || self is Rejected
    }

    /// Whether the endpoint has made up its mind about the request.
    pub fn is_settled(self) -> (settled: bool)
        ensures
            settled == self.settled(),
    {
        match self {
            EndpointState::Streaming => true,
            EndpointState::Rejected => true,
            _ => false,
        }
    }
}

/// One step of the endpoint: from the current state and what just happened
/// to the next state and what to do.
///
/// A received request is planned: if it has an invocation, the backend is
/// to be called with it; if not, the request is rejected as invalid with
/// status 400. While invoking, a started stream makes the endpoint stream,
/// and a failed invocation makes it reject with status 429. Every rejection
/// has an empty body. Anything else is ignored and changes nothing.
pub fn step(state: EndpointState, event: &EndpointEvent) -> (result: (
    EndpointState,
    EndpointAction,
))
    ensures
        result.0 == state.after(event@),
        result.1@ == state.action_on(event@),
{
    match state {
        EndpointState::Received => match event {
            EndpointEvent::Request(request) => match plan_invocation(request) {
                Ok(invocation) => (EndpointState::Invoking, EndpointAction::Invoke(invocation)),
                Err(error) => (EndpointState::Rejected, reject(error)),
            },
            _ => (state, EndpointAction::Ignore),
        },
        EndpointState::Invoking => match event {
            EndpointEvent::InvocationStarted => (EndpointState::Streaming, EndpointAction::Stream),
            EndpointEvent::InvocationFailed => (
                EndpointState::Rejected,
                reject(RelayError::BackendUnavailable),
            ),
            _ => (state, EndpointAction::Ignore),
        },
        _ => (state, EndpointAction::Ignore),
    }
}

/// The rejection that answers a failure which happened before any response
/// began: the status that belongs to the failure, and no body.
fn reject(cause: RelayError) -> (action: EndpointAction)
    requires
        cause.is_pre_stream(),
    ensures
        action@ == EndpointActionView::Reject(
            RejectionView { status: cause.status().unwrap(), body: Seq::empty(), cause },
        ),
{
    EndpointAction::Reject(
        Rejection { status: cause.http_status().unwrap(), body: Vec::new(), cause },
    )
}

/// The state reached from `state` after a sequence of events.
pub open spec fn reached(state: EndpointState, events: Seq<EndpointEventView>) -> EndpointState
    decreases events.len(),
{
    if events.len() == 0 {
        state
    } else {
        reached(state, events.drop_last()).after(events.last())
    }
}

/// How often the backend is called from `state` over a sequence of events.
pub open spec fn invocations(state: EndpointState, events: Seq<EndpointEventView>) -> nat
    decreases events.len(),
{
    if events.len() == 0 {
        0
    } else {
        let earlier = invocations(state, events.drop_last());
        if reached(state, events.drop_last()).action_on(events.last()) is Invoke {
            earlier + 1
        } else {
            earlier
        }
    }
}

} // verus!
