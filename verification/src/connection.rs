//! What is done with one client connection, step by step.
//!
//! The reading, the exchange with the backend and the writing are the
//! caller's. It reports each outcome as an event, and is told what to do
//! next.

use crate::proxy::{
    body_message, is_request_for, request_failure, response_text, ClientResponse, ProxyError,
    ProxyTranslator, UpstreamRequest,
};
use crate::selector::{LoadBalancer, SharedLoadBalancer};
use vstd::prelude::*;
use vstd::string::StringExecFns;

verus! {

/// The cause given where a read or an upstream call ran out of time.
pub const TIMEOUT_CAUSE: &'static str = "Timed out";

/// How far a connection has come.
#[derive(Debug, Clone, Copy, PartialEq, Eq, Structural)]
pub enum ConnectionState {
    /// The client's payload is being read.
    Reading,
    /// The request is with the backend.
    Forwarding,
    /// The answer is being written to the client.
    Replying,
    /// Nothing more is done with the connection.
    Closed,
}

/// What the caller reports.
#[derive(Debug, Clone, PartialEq, Eq)]
pub enum ConnectionEvent {
    /// The one read of the connection gave these bytes.
    Received(Vec<u8>),
    /// The read failed; with the cause.
    ReadFailed(String),
    /// The backend answered with this body.
    UpstreamReplied(Vec<u8>),
    /// The exchange with the backend failed; with the cause.
    UpstreamFailed(String),
    /// The read, or the exchange with the backend, took too long.
    TimedOut,
    /// The answer was written to the client.
    ReplyWritten,
    /// Writing the answer failed; with the cause.
    WriteFailed(String),
}

/// Why a connection was closed without an answer.
#[derive(Debug, Clone, PartialEq, Eq)]
pub enum ConnectionError {
    /// The client's payload could not be read.
    Read(String),
    /// The backend gave no usable answer.
    Proxy(ProxyError),
    /// The answer could not be written.
    Write(String),
    /// An event was reported that the connection's state does not allow.
    OutOfOrder,
}

impl ConnectionError {
    /// The error in words, as it is recorded.
    pub open spec fn message_text(self) -> Seq<char> {
        match self {
            ConnectionError::Read(cause) => "Failed to read from stream: "@ + cause@,
            ConnectionError::Proxy(ProxyError::UpstreamFailure(cause)) => {
                "Error in proxy request: "@ + cause@
            },
            ConnectionError::Proxy(ProxyError::InvalidResponse) => "Failed to parse response"@,
            ConnectionError::Write(cause) => "Failed to write to stream: "@ + cause@,
            ConnectionError::OutOfOrder => "Event out of order"@,
        }
    }

    /// The error in words, as it is recorded.
    pub fn message(&self) -> (message: String)
        ensures
            message@ == self.message_text(),
    {
        match self {
            ConnectionError::Read(cause) => {
                let mut message: String = "Failed to read from stream: ".to_owned();
                message.append(cause.as_str());
                message
            },
            ConnectionError::Proxy(ProxyError::UpstreamFailure(cause)) => {
                let mut message: String = "Error in proxy request: ".to_owned();
                message.append(cause.as_str());
                message
            },
            ConnectionError::Proxy(ProxyError::InvalidResponse) => {
                "Failed to parse response".to_owned()
            },
            ConnectionError::Write(cause) => {
                let mut message: String = "Failed to write to stream: ".to_owned();
                message.append(cause.as_str());
                message
            },
            ConnectionError::OutOfOrder => "Event out of order".to_owned(),
        }
    }
}

/// What the caller is to do next.
#[derive(Debug, Clone, PartialEq, Eq)]
pub enum ConnectionAction {
    /// Send this request to the backend, and report the outcome.
    Forward(UpstreamRequest),
    /// Write this text to the client, and report the outcome.
    Reply(ClientResponse),
    /// Close the connection: all is done.
    Finish,
    /// Record the error and close the connection; nothing is written.
    Abort(ConnectionError),
}

/// One client connection on its way through the pipeline.
pub struct Connection {
    state: ConnectionState,
}

/// `action` aborts the connection for an upstream failure with `cause`.
pub open spec fn aborts_upstream(action: ConnectionAction, cause: Seq<char>) -> bool {
    action matches ConnectionAction::Abort(
        ConnectionError::Proxy(ProxyError::UpstreamFailure(text)),
    ) && text@ == cause
}

/// `event` in `state` makes the connection select a backend. Only a payload
/// that was read does.
pub open spec fn selects(state: ConnectionState, event: ConnectionEvent) -> bool {
    state == ConnectionState::Reading && event is Received
}

/// `next` and `action` are what follows `event` in `state`; `selected` is
/// the address of the backend that was selected, where `event` selects one.
///
/// Any failure closes the connection with nothing written to the client, and
/// an event that the state does not allow closes it as `OutOfOrder`.
pub open spec fn follows(
    state: ConnectionState,
    event: ConnectionEvent,
    selected: Seq<char>,
    next: ConnectionState,
    action: ConnectionAction,
) -> bool {
    match (state, event) {
        (ConnectionState::Reading, ConnectionEvent::Received(payload)) => {
            match request_failure(selected) {
                None => {
                    &&& next == ConnectionState::Forwarding
                    &&& action matches ConnectionAction::Forward(request)
                    &&& is_request_for(request, selected, payload@)
                },
                Some(cause) => {
                    &&& next == ConnectionState::Closed
                    &&& aborts_upstream(action, cause)
                },
            }
        },
        (ConnectionState::Reading, ConnectionEvent::ReadFailed(cause)) => {
            &&& next == ConnectionState::Closed
            &&& action == ConnectionAction::Abort(ConnectionError::Read(cause))
        },
        (ConnectionState::Forwarding, ConnectionEvent::UpstreamReplied(body)) => {
            match body_message(body@) {
                Some(message) => {
                    &&& next == ConnectionState::Replying
                    &&& action matches ConnectionAction::Reply(response)
                    &&& response.text@ == response_text(message)
                },
                None => {
                    &&& next == ConnectionState::Closed
                    &&& action == ConnectionAction::Abort(
                        ConnectionError::Proxy(ProxyError::InvalidResponse),
                    )
                },
            }
        },
        (ConnectionState::Forwarding, ConnectionEvent::UpstreamFailed(cause)) => {
            &&& next == ConnectionState::Closed
            &&& action == ConnectionAction::Abort(
                ConnectionError::Proxy(ProxyError::UpstreamFailure(cause)),
            )
        },
        (ConnectionState::Reading, ConnectionEvent::TimedOut)
        | (ConnectionState::Forwarding, ConnectionEvent::TimedOut) => {
            &&& next == ConnectionState::Closed
            &&& aborts_upstream(action, TIMEOUT_CAUSE@)
        },
        (ConnectionState::Replying, ConnectionEvent::ReplyWritten) => {
            &&& next == ConnectionState::Closed
            &&& action == ConnectionAction::Finish
        },
        (ConnectionState::Replying, ConnectionEvent::WriteFailed(cause)) => {
            &&& next == ConnectionState::Closed
            &&& action == ConnectionAction::Abort(ConnectionError::Write(cause))
        },
        _ => {
            &&& next == ConnectionState::Closed
            &&& action == ConnectionAction::Abort(ConnectionError::OutOfOrder)
        },
    }
}

/// What follows a payload that was read, with the backend at `selected`
/// chosen for it.
fn forward(payload: Vec<u8>, selected: String) -> (reaction: (ConnectionState, ConnectionAction))
    ensures
        follows(
            ConnectionState::Reading,
            ConnectionEvent::Received(payload),
            selected@,
            reaction.0,
            reaction.1,
        ),
{
    match ProxyTranslator::prepare(selected.as_str(), payload.as_slice()) {
        Ok(request) => (ConnectionState::Forwarding, ConnectionAction::Forward(request)),
        Err(error) => (
            ConnectionState::Closed,
            ConnectionAction::Abort(ConnectionError::Proxy(error)),
        ),
    }
}

/// What follows an event that selects no backend.
fn settle(state: ConnectionState, event: ConnectionEvent) -> (reaction: (
    ConnectionState,
    ConnectionAction,
))
    requires
        !selects(state, event),
    ensures
        forall|selected: Seq<char>|
            #[trigger] follows(state, event, selected, reaction.0, reaction.1),
{
    match (state, event) {
        (ConnectionState::Reading, ConnectionEvent::ReadFailed(cause)) => (
            ConnectionState::Closed,
            ConnectionAction::Abort(ConnectionError::Read(cause)),
        ),
        (ConnectionState::Forwarding, ConnectionEvent::UpstreamReplied(body)) => {
            match ProxyTranslator::complete(body.as_slice()) {
                Ok(response) => (ConnectionState::Replying, ConnectionAction::Reply(response)),
                Err(error) => (
                    ConnectionState::Closed,
                    ConnectionAction::Abort(ConnectionError::Proxy(error)),
                ),
            }
        },
        (ConnectionState::Forwarding, ConnectionEvent::UpstreamFailed(cause)) => (
            ConnectionState::Closed,
            ConnectionAction::Abort(ConnectionError::Proxy(ProxyError::UpstreamFailure(cause))),
        ),
        (ConnectionState::Reading, ConnectionEvent::TimedOut)
        | (ConnectionState::Forwarding, ConnectionEvent::TimedOut) => (
            ConnectionState::Closed,
            ConnectionAction::Abort(
                ConnectionError::Proxy(ProxyError::UpstreamFailure(TIMEOUT_CAUSE.to_owned())),
            ),
        ),
        (ConnectionState::Replying, ConnectionEvent::ReplyWritten) => (
            ConnectionState::Closed,
            ConnectionAction::Finish,
        ),
        (ConnectionState::Replying, ConnectionEvent::WriteFailed(cause)) => (
            ConnectionState::Closed,
            ConnectionAction::Abort(ConnectionError::Write(cause)),
        ),
        _ => (ConnectionState::Closed, ConnectionAction::Abort(ConnectionError::OutOfOrder)),
    }
}

impl Connection {
    /// The state that the connection is in.
    pub closed spec fn state(&self) -> ConnectionState {
        self.state
    }

    /// A connection that was just accepted: its payload is to be read.
    pub fn new() -> (connection: Connection)
        ensures
            connection.state() == ConnectionState::Reading,
    {
        Connection { state: ConnectionState::Reading }
    }

    /// The state that the connection is in.
    pub fn current_state(&self) -> (state: ConnectionState)
        ensures
            state == self.state(),
    {
        self.state
    }

    /// Takes the outcome of the step that the caller made, and says what is
    /// to be done next.
    ///
    /// A backend is selected once, when the payload has been read: the one
    /// that `balancer` stands on, and `balancer` moves one step. No other
    /// event moves it.
    pub fn handle(
        &mut self,
        event: ConnectionEvent,
        balancer: &mut LoadBalancer,
    ) -> (action: ConnectionAction)
        ensures
            follows(
                old(self).state(),
                event,
                old(balancer)@.current_address(),
                final(self).state(),
                action,
            ),
            final(balancer)@ == if selects(old(self).state(), event) {
                old(balancer)@.step()
            } else {
                old(balancer)@
            },
    {
        let (next, action) = match (self.state, event) {
            (ConnectionState::Reading, ConnectionEvent::Received(payload)) => {
                let selected: String = balancer.get_server();
                forward(payload, selected)
            },
            (state, event) => settle(state, event),
        };
        self.state = next;
        action
    }

    /// As `handle`, for workers that share one selector. The backend is the
    /// one that the shared rotation stands on when the payload has been
    /// read; which one that is depends on the other workers, and it is one
    /// of the configured backends.
    pub fn handle_shared(
        &mut self,
        event: ConnectionEvent,
        balancer: &SharedLoadBalancer,
    ) -> (action: ConnectionAction)
        ensures
            selects(old(self).state(), event) ==> exists|selected: Seq<char>|
                balancer.addresses().contains(selected) && #[trigger] follows(
                    old(self).state(),
                    event,
                    selected,
                    final(self).state(),
                    action,
                ),
            !selects(old(self).state(), event) ==> forall|selected: Seq<char>|
                #[trigger] follows(old(self).state(), event, selected, final(self).state(), action),
    {
        let (next, action) = match (self.state, event) {
            (ConnectionState::Reading, ConnectionEvent::Received(payload)) => {
                let selected: String = balancer.get_server();
                forward(payload, selected)
            },
            (state, event) => settle(state, event),
        };
        self.state = next;
        action
    }
}

} // verus!
