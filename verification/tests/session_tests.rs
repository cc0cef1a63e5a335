use os3000_reader::protocol::ReplyClass;
use os3000_reader::session::{
    poll_ready, polls_until_ready, run_acquisition, AcquireOutcome, ReadEvent, Session,
    SessionState,
};

fn response(fill: u8) -> Vec<u8> {
    let mut v: Vec<u8> = vec![0xEEu8; 15];
    for _ in 0..1000 {
        v.push(fill);
    }
    v
}

fn ready_session() -> Session {
    let mut s = Session::new();
    s.begin_connect();
    s.on_handshake_reply(0x41);
    s
}

#[test]
fn session_starts_disconnected() {
    let s = Session::new();
    assert_eq!(s.state, SessionState::Disconnected);
    assert!(!s.may_acquire());
}

#[test]
fn ack_reply_reaches_ready_and_frame_is_delivered() {
    let mut s = Session::new();
    s.begin_connect();
    assert_eq!(s.state, SessionState::Handshaking);
    let r = s.on_handshake_reply(0x41);
    assert_eq!(r, ReplyClass::Ready);
    assert_eq!(s.state, SessionState::Ready);
    assert!(s.may_acquire());
    let cmd = s.begin_request();
    assert_eq!(cmd, b"R1(0000,1000,B)\r".to_vec());
    assert!(!poll_ready(0));
    assert!(poll_ready(1015));
    let raw = response(42);
    match s.on_read_event(ReadEvent::Data(raw.clone())) {
        AcquireOutcome::Delivered(f) => {
            assert_eq!(f.payload.len(), 1000);
            assert_eq!(f.payload[..], raw[15..]);
        }
        _ => panic!("a full-size read must deliver a frame"),
    }
    assert_eq!(s.state, SessionState::Ready);
}

#[test]
fn busy_reply_never_starts_the_loop() {
    let mut s = Session::new();
    s.begin_connect();
    let r = s.on_handshake_reply(0x61);
    assert_eq!(r, ReplyClass::Busy);
    assert_eq!(s.state, SessionState::Failed);
    assert!(!s.may_acquire());
}

#[test]
fn unrecognized_reply_never_starts_the_loop() {
    for b in 0..=255u8 {
        if b != 0x41 && b != 0x61 {
            let mut s = Session::new();
            s.begin_connect();
            let r = s.on_handshake_reply(b);
            assert_eq!(r, ReplyClass::Unrecognized);
            assert_eq!(s.state, SessionState::Failed);
            assert!(!s.may_acquire());
        }
    }
}

#[test]
fn five_short_polls_then_sixth_check_succeeds() {
    let reports: Vec<usize> = vec![0, 200, 400, 600, 800, 1015];
    assert_eq!(polls_until_ready(&reports), Some(5));
}

#[test]
fn polling_never_ready_consumes_everything() {
    let reports: Vec<usize> = vec![0, 1, 1014];
    assert_eq!(polls_until_ready(&reports), None);
}

#[test]
fn first_report_may_already_be_ready() {
    let reports: Vec<usize> = vec![2000];
    assert_eq!(polls_until_ready(&reports), Some(0));
}

#[test]
fn timeout_after_satisfied_poll_is_recoverable() {
    let mut s = ready_session();
    let _cmd = s.begin_request();
    assert!(poll_ready(1015));
    let out = s.on_read_event(ReadEvent::TimedOut);
    assert!(matches!(out, AcquireOutcome::Retry));
    assert_eq!(s.state, SessionState::Ready);
    let _next = s.begin_request();
    assert_eq!(s.state, SessionState::Acquiring);
}

#[test]
fn broken_read_is_fatal() {
    let mut s = ready_session();
    let _cmd = s.begin_request();
    let out = s.on_read_event(ReadEvent::Broken);
    assert!(matches!(out, AcquireOutcome::Fatal));
    assert_eq!(s.state, SessionState::Failed);
    assert!(!s.may_acquire());
}

#[test]
fn short_read_is_fatal() {
    let mut s = ready_session();
    let _cmd = s.begin_request();
    let out = s.on_read_event(ReadEvent::Data(vec![0u8; 10]));
    assert!(matches!(out, AcquireOutcome::Fatal));
    assert_eq!(s.state, SessionState::Failed);
}

#[test]
fn fatal_io_fails_the_session_in_any_phase() {
    let mut s = Session::new();
    s.on_fatal_io();
    assert_eq!(s.state, SessionState::Failed);
    assert!(!s.may_acquire());
}

#[test]
fn scripted_loop_survives_a_timeout_between_frames() {
    let mut s = ready_session();
    let script = vec![
        ReadEvent::Data(response(7)),
        ReadEvent::TimedOut,
        ReadEvent::Data(response(9)),
    ];
    let outcomes = run_acquisition(&mut s, script);
    assert_eq!(outcomes.len(), 3);
    assert!(matches!(outcomes[0], AcquireOutcome::Delivered(_)));
    assert!(matches!(outcomes[1], AcquireOutcome::Retry));
    assert!(matches!(outcomes[2], AcquireOutcome::Delivered(_)));
    match &outcomes[2] {
        AcquireOutcome::Delivered(f) => assert_eq!(f.payload, vec![9u8; 1000]),
        _ => unreachable!(),
    }
    assert_eq!(s.state, SessionState::Ready);
}

#[test]
fn scripted_loop_halts_at_the_first_fatal_report() {
    let mut s = ready_session();
    let script = vec![
        ReadEvent::TimedOut,
        ReadEvent::Broken,
        ReadEvent::TimedOut,
    ];
    let outcomes = run_acquisition(&mut s, script);
    assert_eq!(outcomes.len(), 2);
    assert!(matches!(outcomes[0], AcquireOutcome::Retry));
    assert!(matches!(outcomes[1], AcquireOutcome::Fatal));
    assert_eq!(s.state, SessionState::Failed);
}

#[test]
fn scripted_loop_with_empty_script_stays_ready() {
    let mut s = ready_session();
    let outcomes = run_acquisition(&mut s, Vec::new());
    assert!(outcomes.is_empty());
    assert_eq!(s.state, SessionState::Ready);
}

#[test]
fn two_drained_requests_yield_independent_frames() {
    let mut s = ready_session();
    let c1 = s.begin_request();
    let o1 = s.on_read_event(ReadEvent::Data(response(1)));
    let c2 = s.begin_request();
    let o2 = s.on_read_event(ReadEvent::Data(response(2)));
    assert_eq!(c1, c2);
    match (o1, o2) {
        (AcquireOutcome::Delivered(f1), AcquireOutcome::Delivered(f2)) => {
            assert_eq!(f1.payload, vec![1u8; 1000]);
            assert_eq!(f2.payload, vec![2u8; 1000]);
            assert_ne!(f1.payload, f2.payload);
        }
        _ => panic!("both full-size reads must deliver frames"),
    }
    assert_eq!(s.state, SessionState::Ready);
}
