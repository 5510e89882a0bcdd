use frameproto::models::{Header, Message, Response, ResponseType};
use frameproto::server::{admit_connection, prune_finished, ServerConfig};
use frameproto::session::{
    session_start, session_step, Deadline, Session, SessionAction, SessionError, SessionEvent,
    SessionState,
};

#[test]
fn session_reads_one_byte_under_idle_deadline_first() {
    let (state, action) = session_start();
    assert_eq!(state, SessionState::AwaitingFirstByte);
    assert_eq!(action, SessionAction::Read { count: 1, deadline: Deadline::Idle });
}

#[test]
fn first_byte_tightens_the_deadline() {
    let (state, _) = session_start();
    let (state, action) = session_step(state, SessionEvent::BytesArrived(vec![b'R']));
    assert_eq!(state, SessionState::ReadingHeaderTail { first: b'R' });
    assert_eq!(action, SessionAction::Read { count: 15, deadline: Deadline::Active });
}

#[test]
fn idle_timeout_closes_the_session() {
    let (state, _) = session_start();
    let (state, action) = session_step(state, SessionEvent::TimedOut);
    assert_eq!(state, SessionState::Closed { error: SessionError::Timeout });
    assert_eq!(action, SessionAction::CloseConnection);
}

#[test]
fn stall_after_first_byte_closes_the_session() {
    let (state, _) = session_start();
    let (state, action) = session_step(state, SessionEvent::BytesArrived(vec![b'R']));
    // the remaining header bytes are owed under the short active deadline
    assert_eq!(action, SessionAction::Read { count: 15, deadline: Deadline::Active });
    let (state, action) = session_step(state, SessionEvent::TimedOut);
    assert_eq!(state, SessionState::Closed { error: SessionError::Timeout });
    assert_eq!(action, SessionAction::CloseConnection);
}

#[test]
fn eof_before_a_frame_closes_with_empty_framing_error() {
    let (state, _) = session_start();
    let (state, action) = session_step(state, SessionEvent::BytesArrived(Vec::new()));
    assert!(matches!(
        state,
        SessionState::Closed { error: SessionError::Framing(frameproto::models::FramingError::Empty) }
    ));
    assert_eq!(action, SessionAction::CloseConnection);
}

#[test]
fn header_cut_short_closes_as_malformed() {
    let (state, _) = session_start();
    let (state, _) = session_step(state, SessionEvent::BytesArrived(vec![b'R']));
    let (state, action) = session_step(state, SessionEvent::BytesArrived(vec![b'E', b'Q']));
    assert!(matches!(
        state,
        SessionState::Closed {
            error: SessionError::Framing(frameproto::models::FramingError::Malformed)
        }
    ));
    assert_eq!(action, SessionAction::CloseConnection);
}

#[test]
fn zero_length_body_is_rejected_without_dispatch() {
    let header = Header::new(*b"REQ ", *b"abc12345", 0);
    let bytes = header.to_bytes();
    let (state, _) = session_start();
    let (state, _) = session_step(state, SessionEvent::BytesArrived(bytes[0..1].to_vec()));
    let (state, action) = session_step(state, SessionEvent::BytesArrived(bytes[1..16].to_vec()));
    assert!(matches!(
        state,
        SessionState::Closed {
            error: SessionError::Framing(frameproto::models::FramingError::ZeroLengthBody)
        }
    ));
    // the handler is never invoked: the frame ends in a close, not a dispatch
    assert_eq!(action, SessionAction::CloseConnection);
}

#[test]
fn body_cut_short_closes_the_session() {
    let header = Header::new(*b"REQ ", *b"abc12345", 4);
    let bytes = header.to_bytes();
    let (state, _) = session_start();
    let (state, _) = session_step(state, SessionEvent::BytesArrived(bytes[0..1].to_vec()));
    let (state, action) = session_step(state, SessionEvent::BytesArrived(bytes[1..16].to_vec()));
    assert_eq!(action, SessionAction::Read { count: 4, deadline: Deadline::Active });
    let (state, action) = session_step(state, SessionEvent::BytesArrived(b"pi".to_vec()));
    assert_eq!(state, SessionState::Closed { error: SessionError::Io });
    assert_eq!(action, SessionAction::CloseConnection);
}

/// Drives one whole frame through the session: returns the dispatched message
/// after feeding the encoded header and body byte for byte as a driver would.
fn drive_frame(state: SessionState, message: &Message) -> (SessionState, Message) {
    let bytes = message.to_bytes();
    let (state, action) = session_step(state, SessionEvent::BytesArrived(bytes[0..1].to_vec()));
    assert_eq!(action, SessionAction::Read { count: 15, deadline: Deadline::Active });
    let (state, action) = session_step(state, SessionEvent::BytesArrived(bytes[1..16].to_vec()));
    let body_len = (bytes.len() - 16) as u32;
    assert_eq!(action, SessionAction::Read { count: body_len, deadline: Deadline::Active });
    let (state, action) = session_step(state, SessionEvent::BytesArrived(bytes[16..].to_vec()));
    assert_eq!(state, SessionState::Dispatching);
    match action {
        SessionAction::Dispatch(m) => (state, m),
        other => panic!("expected a dispatch, got {:?}", other),
    }
}

#[test]
fn request_reply_round_trip_succeeds_end_to_end() {
    // client side: encode the request frame
    let header = Header::new(*b"REQ ", *b"abc12345", 4);
    let request = Message::new(header, b"ping".to_vec());

    // server side: the session decodes the same frame and dispatches it
    let (state, _) = session_start();
    let (state, dispatched) = drive_frame(state, &request);
    assert_eq!(dispatched.header, header);
    assert_eq!(dispatched.data, b"ping".to_vec());

    // the handler answers; the session frames the response
    let (state, action) = session_step(state, SessionEvent::HandlerCompleted(Ok(b"pong".to_vec())));
    assert_eq!(state, SessionState::WritingResponse);
    let response = match action {
        SessionAction::Write(r) => r,
        other => panic!("expected a write, got {:?}", other),
    };

    // client side: decode what came back
    let decoded = Response::from_bytes(&response.to_bytes()).unwrap();
    assert_eq!(decoded.response_type, ResponseType::SUCC);
    assert_eq!(decoded.data, b"pong".to_vec());

    // the session awaits the next frame under the idle deadline again
    let (state, action) = session_step(state, SessionEvent::ResponseWritten);
    assert_eq!(state, SessionState::AwaitingFirstByte);
    assert_eq!(action, SessionAction::Read { count: 1, deadline: Deadline::Idle });
}

#[test]
fn handler_failure_is_answered_and_not_fatal() {
    let header = Header::new(*b"CMD ", *b"abc12345", 4);
    let request = Message::new(header, b"oops".to_vec());
    let (state, _) = session_start();
    let (state, _) = drive_frame(state, &request);

    // the handler fails; the failure becomes an error response
    let (state, action) = session_step(
        state,
        SessionEvent::HandlerCompleted(Err("unrecognized command".to_string())),
    );
    assert_eq!(state, SessionState::WritingResponse);
    let response = match action {
        SessionAction::Write(r) => r,
        other => panic!("expected a write, got {:?}", other),
    };

    // the client sees kind Error and the exact message text
    let decoded = Response::from_bytes(&response.to_bytes()).unwrap();
    assert_eq!(decoded.response_type, ResponseType::ERR);
    assert_eq!(decoded.error_as_string(), Some("unrecognized command"));

    // the session stays open: a second frame flows through it
    let (state, action) = session_step(state, SessionEvent::ResponseWritten);
    assert_eq!(state, SessionState::AwaitingFirstByte);
    assert_eq!(action, SessionAction::Read { count: 1, deadline: Deadline::Idle });
    let second = Message::new(Header::new(*b"REQ ", *b"abc12345", 2), b"hi".to_vec());
    let (_, dispatched) = drive_frame(state, &second);
    assert_eq!(dispatched.data, b"hi".to_vec());
}

#[test]
fn admission_refuses_at_capacity_and_recovers() {
    let config = ServerConfig::new(2);

    // both slots active: the next connection is refused
    let kept = prune_finished(&vec![false, false]);
    assert_eq!(kept, vec![0, 1]);
    assert!(!admit_connection(kept.len(), config.max_connections));

    // one session ends: pruning frees its slot and the next is admitted
    let kept = prune_finished(&vec![false, true]);
    assert_eq!(kept, vec![0]);
    assert!(admit_connection(kept.len(), config.max_connections));
}

#[test]
fn prune_keeps_unfinished_slots_in_order() {
    assert_eq!(prune_finished(&vec![true, false, true, false]), vec![1, 3]);
    assert_eq!(prune_finished(&Vec::new()), Vec::<usize>::new());
    assert_eq!(prune_finished(&vec![true, true]), Vec::<usize>::new());
}

#[test]
fn deadlines_follow_the_configuration() {
    let mut config = ServerConfig::new(4);
    assert_eq!(config.idle_timeout_secs, 15);
    assert_eq!(config.active_timeout_secs, 5);
    assert_eq!(config.deadline_secs(Deadline::Idle), 15);
    assert_eq!(config.deadline_secs(Deadline::Active), 5);
    config.set_timeout(60);
    assert_eq!(config.deadline_secs(Deadline::Idle), 60);
    assert_eq!(config.deadline_secs(Deadline::Active), 5);
    assert_eq!(config.max_connections, 4);
}

#[test]
fn session_counts_dispatched_requests() {
    let (mut session, action) = Session::start();
    assert_eq!(session.requests_handled, 0);
    assert_eq!(action, SessionAction::Read { count: 1, deadline: Deadline::Idle });

    let message = Message::new(Header::new(*b"REQ ", *b"abc12345", 4), b"ping".to_vec());
    let bytes = message.to_bytes();
    session.step(SessionEvent::BytesArrived(bytes[0..1].to_vec()));
    session.step(SessionEvent::BytesArrived(bytes[1..16].to_vec()));
    let action = session.step(SessionEvent::BytesArrived(bytes[16..].to_vec()));
    assert!(matches!(action, SessionAction::Dispatch(_)));
    assert_eq!(session.requests_handled, 1);
    assert_eq!(session.state, SessionState::Dispatching);

    session.step(SessionEvent::HandlerCompleted(Ok(b"pong".to_vec())));
    session.step(SessionEvent::ResponseWritten);
    assert_eq!(session.requests_handled, 1);
    assert_eq!(session.state, SessionState::AwaitingFirstByte);
}
