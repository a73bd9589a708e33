//! The per-connection state machine of the server.
//!
//! One accepted connection goes through one request lifecycle:
//! await the fixed-size header, await exactly the body length the header
//! declared, dispatch the decoded request, close.  The machine here makes
//! every decision of that lifecycle; the surrounding loop only performs the
//! [`Action`] it is told (read that many bytes, invoke the handler, close)
//! and reports what happened as the next [`Event`].  The connection is
//! closed on every exit path — decode failure, non-request header, early
//! peer close, dispatch error and clean completion all end in
//! [`ConnState::Closed`] with a single [`Action::Close`].

use vstd::prelude::*;
use vstd::utf8::encode_utf8;

use crate::cli::lemma_pull_message_round_trip;
use crate::cli::spec_pull_message;
use crate::error::ConnectionError;
use crate::error::DecodeError;
use crate::protocol::spec_body_bytes;
use crate::protocol::STRING_DELIMITER;
use crate::protocol::spec_decode_body;
use crate::protocol::spec_decode_header;
use crate::protocol::Command;
use crate::protocol::Header;
use crate::protocol::Protocol;
use crate::protocol::Type;
use crate::protocol::HEADER_BYTES;
use crate::requests::PullRequest;

verus! {

/// A decoded request, ready for dispatch to the handler registered for its
/// command.
#[derive(Debug)]
pub enum Request {
    /// A pull request with its typed payload.
    Pull(PullRequest),
    /// A command whose payload type is not assigned yet: the raw body
    /// bytes are handed over untouched.
    Other(Command, Vec<u8>),
}

/// Where one connection stands in its lifecycle.
#[derive(Debug, Clone, Copy, PartialEq, Eq, Structural)]
pub enum ConnState {
    /// Waiting for the fixed-size header.
    AwaitHeader,
    /// Header accepted; waiting for exactly the body length it declared.
    AwaitBody(Header),
    /// Body decoded and handed out; waiting for the dispatch outcome.
    Dispatching(Header),
    /// The connection is closed; nothing more happens on it.
    Closed,
}

/// What the surrounding loop reports back to the state machine.
#[derive(Debug)]
pub enum Event {
    /// The requested exact-length read completed with these bytes.
    Bytes(Vec<u8>),
    /// The read failed because the peer closed the stream early.
    ReadClosed,
    /// The dispatched handler finished; `true` means it succeeded.
    Dispatched(bool),
}

/// What the surrounding loop must do next.
#[derive(Debug)]
pub enum Action {
    /// Read exactly this many bytes and report them (or the close).
    ReadBytes(u64),
    /// Invoke the handler registered for the request's command and report
    /// its outcome.
    Dispatch(Request),
    /// Close the connection.  `Some` carries the error to log; `None` is a
    /// clean close after a successful dispatch (or a close the driver
    /// forced by stepping out of order).
    Close(Option<ConnectionError>),
}

/// States the machine actually reaches: a body is only ever awaited, and a
/// request only ever dispatched, under a header that announced a request.
pub open spec fn state_invariant(s: ConnState) -> bool {
    match s {
        ConnState::AwaitBody(h) => h._type == Type::Request,
        ConnState::Dispatching(h) => h._type == Type::Request,
        _ => true,
    }
}

/// The exact contract of one step, as a predicate over the machine's
/// input state and event and its resulting state and action.
pub open spec fn spec_step(s: ConnState, event: Event, next: ConnState, action: Action) -> bool {
    match s {
        ConnState::Closed => next is Closed && action == Action::Close(None::<ConnectionError>),
        ConnState::AwaitHeader => match event {
            Event::Bytes(b) => match spec_decode_header(b@) {
                Err(de) => next is Closed && action == Action::Close(
                    Some(ConnectionError::HeaderDecode(de)),
                ),
                Ok(h) => if h._type == Type::Request {
                    next == ConnState::AwaitBody(h) && action == Action::ReadBytes(h.length)
                } else {
                    next is Closed && action == Action::Close(Some(ConnectionError::NotARequest))
                },
            },
            Event::ReadClosed => next is Closed && action == Action::Close(
                Some(ConnectionError::ConnectionClosed),
            ),
            Event::Dispatched(_) => next is Closed && action == Action::Close(
                None::<ConnectionError>,
            ),
        },
        ConnState::AwaitBody(h) => match event {
            Event::Bytes(b) => if h.command == Command::Pull {
                match spec_decode_body(b@) {
                    Some(chars) => {
                        &&& next == ConnState::Dispatching(h)
                        &&& action matches Action::Dispatch(Request::Pull(p))
                        &&& p.image@ == chars
                    },
                    None => {
                        &&& next is Closed
                        &&& action matches Action::Close(
                            Some(ConnectionError::BodyDecode(DecodeError::MalformedBody { .. })),
                        )
                    },
                }
            } else {
                &&& next == ConnState::Dispatching(h)
                &&& action matches Action::Dispatch(Request::Other(c, raw))
                &&& c == h.command
                &&& raw@ == b@
            },
            Event::ReadClosed => next is Closed && action == Action::Close(
                Some(ConnectionError::ConnectionClosed),
            ),
            Event::Dispatched(_) => next is Closed && action == Action::Close(
                None::<ConnectionError>,
            ),
        },
        ConnState::Dispatching(_) => match event {
            Event::Dispatched(ok) => next is Closed && if ok {
                action == Action::Close(None::<ConnectionError>)
            } else {
                action == Action::Close(Some(ConnectionError::DispatchFailed))
            },
            Event::ReadClosed => next is Closed && action == Action::Close(
                Some(ConnectionError::ConnectionClosed),
            ),
            Event::Bytes(_) => next is Closed && action == Action::Close(
                None::<ConnectionError>,
            ),
        },
    }
}

/// Law: the whole server-side lifecycle of a pull request.  If the two
/// exact-length reads deliver the header part and the body part of the
/// message a pull invocation sends, then the machine asks for exactly the
/// declared body length, dispatches a pull request carrying exactly the
/// image the client named — never a partial string — and, once the handler
/// succeeds, closes the connection cleanly.
pub proof fn lemma_pull_lifecycle(
    image: Seq<char>,
    header: Vec<u8>,
    body: Vec<u8>,
    s1: ConnState,
    a1: Action,
    s2: ConnState,
    a2: Action,
    s3: ConnState,
    a3: Action,
)
    requires
        image.len() > 0,
        !encode_utf8(image).contains(STRING_DELIMITER),
        header@ == spec_pull_message(image).subrange(0, HEADER_BYTES as int),
        body@ == spec_pull_message(image).subrange(
            HEADER_BYTES as int,
            spec_pull_message(image).len() as int,
        ),
        spec_step(ConnState::AwaitHeader, Event::Bytes(header), s1, a1),
        spec_step(s1, Event::Bytes(body), s2, a2),
        spec_step(s2, Event::Dispatched(true), s3, a3),
    ensures
        a1 == Action::ReadBytes(spec_body_bytes(image).len() as u64),
        a2 matches Action::Dispatch(Request::Pull(p)) && p.image@ == image,
        s3 is Closed,
        a3 == Action::Close(None::<ConnectionError>),
{
    lemma_pull_message_round_trip(image);
    let h = Header {
        _type: Type::Request,
        command: Command::Pull,
        length: spec_body_bytes(image).len() as u64,
    };
    assert(s1 == ConnState::AwaitBody(h));
    assert(s2 == ConnState::Dispatching(h));
}

/// Law: a connection handler given a header that does not announce a
/// request closes the connection without invoking any command handler.
pub proof fn lemma_non_request_rejected(
    s: ConnState,
    event: Event,
    next: ConnState,
    action: Action,
)
    requires
        spec_step(s, event, next, action),
        s is AwaitHeader,
        event matches Event::Bytes(b) && spec_decode_header(b@) matches Ok(h) && h._type
            != Type::Request,
    ensures
        next is Closed,
        action == Action::Close(Some(ConnectionError::NotARequest)),
        !(action matches Action::Dispatch(_)),
{
}

impl ConnState {
    /// Open the lifecycle of one accepted connection: the machine starts by
    /// asking for the fixed-size header.
    pub fn start() -> (r: (ConnState, Action))
        ensures
            r.0 == ConnState::AwaitHeader,
            r.1 == Action::ReadBytes(HEADER_BYTES as u64),
            state_invariant(r.0),
    {
        (ConnState::AwaitHeader, Action::ReadBytes(HEADER_BYTES as u64))
    }

    /// Drive the connection one step: consume the event the loop reported
    /// and decide the next state and the next action, exactly as
    /// [`spec_step`] says.  In particular a header that does not announce a
    /// request closes the connection without dispatching anything, and a
    /// dispatch failure still ends in a clean close.
    pub fn step(self, event: Event) -> (r: (ConnState, Action))
        ensures
            spec_step(self, event, r.0, r.1),
            state_invariant(self) ==> state_invariant(r.0),
            r.1 matches Action::Dispatch(_) ==> r.0 matches ConnState::Dispatching(_),
    {
        match self {
            ConnState::Closed => (ConnState::Closed, Action::Close(None)),
            ConnState::AwaitHeader => match event {
                Event::Bytes(b) => match Protocol::decode_header(&b) {
                    Err(de) => (
                        ConnState::Closed,
                        Action::Close(Some(ConnectionError::HeaderDecode(de))),
                    ),
                    Ok(h) => if h._type == Type::Request {
                        (ConnState::AwaitBody(h), Action::ReadBytes(h.length))
                    } else {
                        (ConnState::Closed, Action::Close(Some(ConnectionError::NotARequest)))
                    },
                },
                Event::ReadClosed => (
                    ConnState::Closed,
                    Action::Close(Some(ConnectionError::ConnectionClosed)),
                ),
                Event::Dispatched(_) => (ConnState::Closed, Action::Close(None)),
            },
            ConnState::AwaitBody(h) => match event {
                Event::Bytes(b) => if h.command == Command::Pull {
                    match Protocol::decode_body(&b) {
                        Ok(p) => (
                            ConnState::Dispatching(h),
                            Action::Dispatch(Request::Pull(p)),
                        ),
                        Err(e) => (
                            ConnState::Closed,
                            Action::Close(Some(ConnectionError::BodyDecode(e))),
                        ),
                    }
                } else {
                    (ConnState::Dispatching(h), Action::Dispatch(Request::Other(h.command, b)))
                },
                Event::ReadClosed => (
                    ConnState::Closed,
                    Action::Close(Some(ConnectionError::ConnectionClosed)),
                ),
                Event::Dispatched(_) => (ConnState::Closed, Action::Close(None)),
            },
            ConnState::Dispatching(_) => match event {
                Event::Dispatched(ok) => if ok {
                    (ConnState::Closed, Action::Close(None))
                } else {
                    (ConnState::Closed, Action::Close(Some(ConnectionError::DispatchFailed)))
                },
                Event::ReadClosed => (
                    ConnState::Closed,
                    Action::Close(Some(ConnectionError::ConnectionClosed)),
                ),
                Event::Bytes(_) => (ConnState::Closed, Action::Close(None)),
            },
        }
    }
}

} // verus!
