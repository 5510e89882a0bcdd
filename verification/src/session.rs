//! The per-connection session state machine: how one accepted connection's
//! read/dispatch/write loop advances, which read deadline applies at each
//! point, and which conditions end the session.
//!
//! The machine is pure: a driver owns the transport, performs each requested
//! [`SessionAction`], and reports what happened as a [`SessionEvent`]. Every
//! decision — deadline selection, header decoding, the zero-length-body
//! rejection, translating handler outcomes into responses — happens here.

use crate::models::{
    spec_parse_header, spec_parse_response, FramingError, Header, Message, Response,
};
use vstd::prelude::*;
use vstd::utf8::{decode_utf8, encode_utf8, valid_utf8};

verus! {

/// Which read deadline currently applies: the long idle deadline while
/// waiting for a frame to begin, or the short active deadline once one has.
#[derive(Debug, Clone, Copy, PartialEq, Eq, Structural)]
pub enum Deadline {
    Idle,
    Active,
}

/// A transport-level condition that ends a session. Application errors never
/// appear here: they become error responses and the session continues.
#[derive(Debug, Clone, Copy, PartialEq, Eq, Structural)]
pub enum SessionError {
    /// A read or write failed.
    Io,
    /// The current read deadline passed with bytes still owed.
    Timeout,
    /// The frame could not be decoded, or announced a zero-length body.
    Framing(FramingError),
}

/// Where a session stands in its loop.
#[derive(Debug, Clone, Copy, PartialEq)]
pub enum SessionState {
    /// Waiting under the idle deadline for the first byte of the next frame.
    AwaitingFirstByte,
    /// The first header byte arrived; reading the 15 remaining header bytes
    /// under the active deadline.
    ReadingHeaderTail { first: u8 },
    /// The header decoded; reading exactly its announced body bytes.
    ReadingBody { header: Header },
    /// A whole frame went to the application handler; awaiting its outcome.
    Dispatching,
    /// The response is being written back to the peer.
    WritingResponse,
    /// The session is over and the connection is to be closed.
    Closed { error: SessionError },
}

/// What the driver reports back to the session.
#[derive(Debug, PartialEq)]
pub enum SessionEvent {
    /// The bytes that arrived for the last requested read: exactly the
    /// requested count, or fewer if the peer ended the stream first.
    BytesArrived(Vec<u8>),
    /// The application handler finished with this result.
    HandlerCompleted(Result<Vec<u8>, String>),
    /// The encoded response was written in full.
    ResponseWritten,
    /// The current read deadline passed before the requested bytes arrived.
    TimedOut,
    /// A read or write failed outright.
    TransportFailed,
}

/// What the session asks the driver to do next.
#[derive(Debug, Clone, PartialEq)]
pub enum SessionAction {
    /// Read exactly `count` bytes, giving up when the deadline passes.
    Read { count: u32, deadline: Deadline },
    /// Invoke the application handler on this decoded frame.
    Dispatch(Message),
    /// Encode and write this response, then report completion.
    Write(Response),
    /// Close the connection; the session is finished.
    CloseConnection,
}

/// The events a driver can honestly deliver in a state: byte batches answer
/// the read that the state implies and never exceed the requested count (a
/// shortfall means the peer ended the stream); handler outcomes only answer a
/// dispatch, and are small enough to frame in a 32-bit length field; write
/// completions only answer a write; nothing is delivered to a closed session.
pub open spec fn spec_event_fits(state: SessionState, event: SessionEvent) -> bool {
    match event {
        SessionEvent::BytesArrived(b) => match state {
            SessionState::AwaitingFirstByte => b@.len() <= 1,
            SessionState::ReadingHeaderTail { .. } => b@.len() <= 15,
            SessionState::ReadingBody { header } => b@.len() <= header.message_length,
            _ => false,
        },
        SessionEvent::HandlerCompleted(res) => state is Dispatching && match res {
            Ok(d) => d@.len() <= u32::MAX,
            Err(m) => encode_utf8(m@).len() <= u32::MAX,
        },
        SessionEvent::ResponseWritten => state is WritingResponse,
        SessionEvent::TimedOut => !(state is Closed),
        SessionEvent::TransportFailed => !(state is Closed),
    }
}

/// The machine's transition table: standing in `state` and told `event`, the
/// session moves to `next` and asks the driver for `action`. In words:
/// - a deadline expiry or transport failure closes the session from any state;
/// - the frame's first byte shortens the deadline for the rest of the frame;
/// - a stream that ends before a frame began closes with an empty-header
///   framing error, and a header cut short closes as malformed;
/// - a header announcing a zero-length body closes the session, and the frame
///   is never dispatched to the handler;
/// - a complete body is dispatched; a handler success becomes a success
///   response and a handler failure becomes an error response — either way
///   the response is written and the session stays open;
/// - once the response is written the session awaits the next frame under
///   the idle deadline again.
pub open spec fn spec_step(
    state: SessionState,
    event: SessionEvent,
    next: SessionState,
    action: SessionAction,
) -> bool {
    &&& event is TimedOut ==> next == (SessionState::Closed { error: SessionError::Timeout })
        && action is CloseConnection
    &&& event is TransportFailed ==> next == (SessionState::Closed { error: SessionError::Io })
        && action is CloseConnection
    &&& event matches SessionEvent::BytesArrived(b) ==> ({
        &&& state is AwaitingFirstByte && b@.len() == 1 ==> next == (
        SessionState::ReadingHeaderTail { first: b@[0] }) && action == (SessionAction::Read {
            count: 15,
            deadline: Deadline::Active,
        })
        &&& state is AwaitingFirstByte && b@.len() == 0 ==> next == (SessionState::Closed {
            error: SessionError::Framing(FramingError::Empty),
        }) && action is CloseConnection
        &&& state matches SessionState::ReadingHeaderTail { first } ==> ({
            let p = spec_parse_header(seq![first] + b@);
            &&& b@.len() == 15 ==> ({
                &&& p matches Ok(q)
                &&& q.2 == 0 ==> next == (SessionState::Closed {
                    error: SessionError::Framing(FramingError::ZeroLengthBody),
                }) && action is CloseConnection
                &&& q.2 != 0 ==> ((next matches SessionState::ReadingBody { header }
                    && header.message_type@ == q.0 && header.sender_id@ == q.1
                    && header.message_length == q.2) && action == (SessionAction::Read {
                    count: q.2,
                    deadline: Deadline::Active,
                }))
            })
            &&& b@.len() < 15 ==> next == (SessionState::Closed {
                error: SessionError::Framing(FramingError::Malformed),
            }) && action is CloseConnection
        })
        &&& state matches SessionState::ReadingBody { header } ==> ({
            &&& b@.len() == header.message_length ==> next is Dispatching && (action
                matches SessionAction::Dispatch(m) && m.header == header && m.data == b && m.wf())
            &&& b@.len() < header.message_length ==> next == (SessionState::Closed {
                error: SessionError::Io,
            }) && action is CloseConnection
        })
    })
    &&& event matches SessionEvent::HandlerCompleted(res) ==> ({
        &&& res matches Ok(d) ==> next is WritingResponse && (action
            matches SessionAction::Write(resp) && resp.response_type is SUCC && resp.data == d
            && resp.wf())
        &&& res matches Err(m) ==> next is WritingResponse && (action
            matches SessionAction::Write(resp) && resp.response_type is ERR && resp.data@
            == encode_utf8(m@) && resp.wf())
    })
    &&& state is WritingResponse && event is ResponseWritten ==> next is AwaitingFirstByte
        && action == (SessionAction::Read { count: 1, deadline: Deadline::Idle })
}

/// Begins a session: the first read awaits a frame's first byte under the
/// long idle deadline.
pub fn session_start() -> (r: (SessionState, SessionAction))
    ensures
        r.0 is AwaitingFirstByte,
        r.1 == (SessionAction::Read { count: 1, deadline: Deadline::Idle }),
{
    (SessionState::AwaitingFirstByte, SessionAction::Read { count: 1, deadline: Deadline::Idle })
}

/// Advances the session by one event, exactly as [`spec_step`] prescribes.
pub fn session_step(state: SessionState, event: SessionEvent) -> (r: (
    SessionState,
    SessionAction,
))
    requires
        spec_event_fits(state, event),
    ensures
        spec_step(state, event, r.0, r.1),
{
    match event {
        SessionEvent::TimedOut => (
            SessionState::Closed { error: SessionError::Timeout },
            SessionAction::CloseConnection,
        ),
        SessionEvent::TransportFailed => (
            SessionState::Closed { error: SessionError::Io },
            SessionAction::CloseConnection,
        ),
        SessionEvent::BytesArrived(b) => match state {
            SessionState::AwaitingFirstByte => {
                if b.len() == 1 {
                    (
                        SessionState::ReadingHeaderTail { first: b[0] },
                        SessionAction::Read { count: 15, deadline: Deadline::Active },
                    )
                } else {
                    (
                        SessionState::Closed {
                            error: SessionError::Framing(FramingError::Empty),
                        },
                        SessionAction::CloseConnection,
                    )
                }
            },
            SessionState::ReadingHeaderTail { first } => {
                let mut buf: Vec<u8> = Vec::new();
                buf.push(first);
                let mut rest = b;
                buf.append(&mut rest);
                proof {
                    assert(buf@ =~= seq![first] + event->BytesArrived_0@);
                }
                match Header::from_bytes(&buf) {
                    Ok(header) => {
                        if header.message_length == 0 {
                            (
                                SessionState::Closed {
                                    error: SessionError::Framing(FramingError::ZeroLengthBody),
                                },
                                SessionAction::CloseConnection,
                            )
                        } else {
                            (
                                SessionState::ReadingBody { header },
                                SessionAction::Read {
                                    count: header.message_length,
                                    deadline: Deadline::Active,
                                },
                            )
                        }
                    },
                    Err(_) => (
                        SessionState::Closed {
                            error: SessionError::Framing(FramingError::Malformed),
                        },
                        SessionAction::CloseConnection,
                    ),
                }
            },
            SessionState::ReadingBody { header } => {
                if b.len() == header.message_length as usize {
                    (SessionState::Dispatching, SessionAction::Dispatch(Message::new(header, b)))
                } else {
                    (
                        SessionState::Closed { error: SessionError::Io },
                        SessionAction::CloseConnection,
                    )
                }
            },
            _ => (SessionState::Closed { error: SessionError::Io }, SessionAction::CloseConnection),
        },
        SessionEvent::HandlerCompleted(res) => match res {
            Ok(d) => (SessionState::WritingResponse, SessionAction::Write(Response::success(d))),
            Err(m) => (SessionState::WritingResponse, SessionAction::Write(Response::error(m))),
        },
        SessionEvent::ResponseWritten => (
            SessionState::AwaitingFirstByte,
            SessionAction::Read { count: 1, deadline: Deadline::Idle },
        ),
    }
}

/// Per-connection mutable session state: where the loop stands, plus a
/// monotonically increasing count of dispatched requests, kept for
/// diagnostics only (it saturates rather than overflow).
#[derive(Debug, Clone, Copy, PartialEq)]
pub struct Session {
    pub state: SessionState,
    pub requests_handled: u64,
}

impl Session {
    /// A fresh session for a newly accepted connection, together with the
    /// driver's first action.
    pub fn start() -> (r: (Session, SessionAction))
        ensures
            r.0.state is AwaitingFirstByte,
            r.0.requests_handled == 0,
            r.1 == (SessionAction::Read { count: 1, deadline: Deadline::Idle }),
    {
        let (state, action) = session_start();
        (Session { state, requests_handled: 0 }, action)
    }

    /// Advances this session by one event, counting dispatched requests.
    pub fn step(&mut self, event: SessionEvent) -> (r: SessionAction)
        requires
            spec_event_fits(old(self).state, event),
        ensures
            spec_step(old(self).state, event, final(self).state, r),
            r is Dispatch && old(self).requests_handled < u64::MAX ==> final(self).requests_handled
                == old(self).requests_handled + 1,
            r is Dispatch && old(self).requests_handled == u64::MAX ==> final(self).requests_handled
                == old(self).requests_handled,
            !(r is Dispatch) ==> final(self).requests_handled == old(self).requests_handled,
    {
        let (next, action) = session_step(self.state, event);
        self.state = next;
        let is_dispatch = match &action {
            SessionAction::Dispatch(_) => true,
            _ => false,
        };
        if is_dispatch && self.requests_handled < u64::MAX {
            self.requests_handled = self.requests_handled + 1;
        }
        action
    }
}

/// A deadline expiry is always fatal: whichever deadline was in force, a
/// timeout closes the session and the connection.
pub proof fn lemma_timeout_closes(
    state: SessionState,
    next: SessionState,
    action: SessionAction,
)
    requires
        spec_step(state, SessionEvent::TimedOut, next, action),
    ensures
        next == (SessionState::Closed { error: SessionError::Timeout }),
        action is CloseConnection,
{
}

/// The anti-slow-client tightening: the instant a frame's first byte arrives,
/// every further read of that frame runs under the short active deadline.
pub proof fn lemma_first_byte_tightens_deadline(
    b: Vec<u8>,
    next: SessionState,
    action: SessionAction,
)
    requires
        b@.len() == 1,
        spec_step(SessionState::AwaitingFirstByte, SessionEvent::BytesArrived(b), next, action),
    ensures
        action == (SessionAction::Read { count: 15, deadline: Deadline::Active }),
        next == (SessionState::ReadingHeaderTail { first: b@[0] }),
{
}

/// A header whose length field is zero is rejected: the session closes at
/// once, and in particular the frame is never dispatched to the handler.
pub proof fn lemma_zero_length_body_rejected(
    first: u8,
    b: Vec<u8>,
    next: SessionState,
    action: SessionAction,
)
    requires
        b@.len() == 15,
        spec_parse_header(seq![first] + b@) matches Ok(q) && q.2 == 0,
        spec_step(
            SessionState::ReadingHeaderTail { first },
            SessionEvent::BytesArrived(b),
            next,
            action,
        ),
    ensures
        next == (SessionState::Closed {
            error: SessionError::Framing(FramingError::ZeroLengthBody),
        }),
        action is CloseConnection,
        !(action is Dispatch),
{
}

/// A handler failure is not session-fatal: the session answers it with an
/// error response whose encoding decodes back to kind Error carrying exactly
/// the handler's message, stays open to write it, and — once the write
/// completes — awaits the next frame.
pub proof fn lemma_handler_error_answered(
    state: SessionState,
    m: String,
    next: SessionState,
    action: SessionAction,
)
    requires
        spec_step(state, SessionEvent::HandlerCompleted(Err(m)), next, action),
    ensures
        next is WritingResponse,
        action matches SessionAction::Write(resp) && ({
            let parsed = spec_parse_response(resp.spec_bytes());
            &&& parsed matches Ok(p)
            &&& p.0 is ERR
            &&& valid_utf8(p.1)
            &&& decode_utf8(p.1) == m@
        }),
        forall|n2: SessionState, a2: SessionAction|
            spec_step(next, SessionEvent::ResponseWritten, n2, a2) ==> n2 is AwaitingFirstByte,
{
    let resp = action->Write_0;
    crate::models::lemma_error_body_preserved(resp, m@);
}

} // verus!
