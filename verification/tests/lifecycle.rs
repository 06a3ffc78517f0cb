use pow_relay::relay::{inbound_step, outbound_step, InboundAction, InboundEnd, OutboundAction};
use pow_relay::session::{KillResult, Phase, RelayEnd, Session};

#[test]
fn inbound_forwards_verbatim() {
    // Bytes the client writes reach the program unmodified and in order.
    let chunks: [&[u8]; 3] = [b"hel", b"lo\n", b"more data"];
    let mut forwarded: Vec<u8> = Vec::new();
    for c in chunks {
        match inbound_step(&c.to_vec()) {
            InboundAction::Forward(f) => forwarded.extend_from_slice(&f),
            InboundAction::Close(_) => panic!("no chunk here is terminal"),
        }
    }
    assert_eq!(forwarded, b"hello\nmore data".to_vec());
}

#[test]
fn inbound_closes_on_peer_close() {
    match inbound_step(&Vec::new()) {
        InboundAction::Close(e) => assert_eq!(e, InboundEnd::PeerClosed),
        InboundAction::Forward(_) => panic!("an empty read must close the relay"),
    }
}

#[test]
fn inbound_closes_on_cancel_byte() {
    // 0x03 first in a chunk is a clean, client-initiated stop.
    match inbound_step(&vec![3, b'x', b'y']) {
        InboundAction::Close(e) => assert_eq!(e, InboundEnd::Cancelled),
        InboundAction::Forward(_) => panic!("a cancel byte must close the relay"),
    }
    // A 0x03 later in the chunk is ordinary data.
    match inbound_step(&vec![b'x', 3]) {
        InboundAction::Forward(f) => assert_eq!(f, vec![b'x', 3]),
        InboundAction::Close(_) => panic!("only a leading cancel byte closes"),
    }
}

#[test]
fn outbound_forwards_verbatim_and_closes_on_eof() {
    match outbound_step(&b"hello\n".to_vec()) {
        OutboundAction::Forward(f) => assert_eq!(f, b"hello\n".to_vec()),
        OutboundAction::Close => panic!("a nonempty read is forwarded"),
    }
    assert!(matches!(outbound_step(&Vec::new()), OutboundAction::Close));
}

#[test]
fn echo_round_trip() {
    // One echoed line: what goes in through the inbound step is what the
    // program would write back, and the outbound step returns it intact.
    let line = b"hello\n".to_vec();
    let to_program = match inbound_step(&line) {
        InboundAction::Forward(f) => f,
        InboundAction::Close(_) => panic!("the line is not terminal"),
    };
    assert_eq!(to_program, line);
    let to_client = match outbound_step(&to_program) {
        OutboundAction::Forward(f) => f,
        OutboundAction::Close => panic!("the echo is not empty"),
    };
    assert_eq!(to_client, line);
}

#[test]
fn session_runs_challenge_then_relay() {
    let mut s = Session::new(20);
    assert_eq!(s.phase, Phase::Greeting);
    assert!(s.after_greeting());
    assert_eq!(s.phase, Phase::Challenge);
    s.after_challenge(true);
    assert_eq!(s.phase, Phase::Spawning);
    s.after_spawn(true);
    assert_eq!(s.phase, Phase::Relaying);
    s.finish_relay(RelayEnd::PeerClosed);
    assert_eq!(s.phase, Phase::TearingDown);
    let fatal = s.record_kill(KillResult::Killed);
    assert!(!fatal);
    assert_eq!(s.phase, Phase::Closed);
    assert_eq!(s.kills, 1);
}

#[test]
fn session_skips_challenge_when_disabled() {
    // With difficulty 0 no challenge phase exists: the relay is set up
    // immediately after the greeting.
    let mut s = Session::new(0);
    assert!(!s.after_greeting());
    assert_eq!(s.phase, Phase::Spawning);
}

#[test]
fn session_closes_on_rejection_without_kill() {
    let mut s = Session::new(1);
    assert!(s.after_greeting());
    s.after_challenge(false);
    assert_eq!(s.phase, Phase::Closed);
    assert_eq!(s.kills, 0);
}

#[test]
fn session_closes_on_spawn_failure_without_kill() {
    let mut s = Session::new(0);
    s.after_greeting();
    s.after_spawn(false);
    assert_eq!(s.phase, Phase::Closed);
    assert_eq!(s.kills, 0);
}

#[test]
fn timeout_kills_exactly_once() {
    let mut s = Session::new(0);
    s.after_greeting();
    s.after_spawn(true);
    s.finish_relay(RelayEnd::TimedOut);
    assert_eq!(s.kills, 0);
    assert_eq!(s.outcome, Some(RelayEnd::TimedOut));
    let fatal = s.record_kill(KillResult::Killed);
    assert!(!fatal);
    assert_eq!(s.kills, 1);
    assert_eq!(s.phase, Phase::Closed);
    assert_eq!(s.outcome, Some(RelayEnd::TimedOut));
}

#[test]
fn kill_of_exited_group_is_success() {
    let mut s = Session::new(0);
    s.after_greeting();
    s.after_spawn(true);
    s.finish_relay(RelayEnd::ProcessClosed);
    assert!(!s.record_kill(KillResult::AlreadyExited));
}

#[test]
fn kill_failure_is_fatal() {
    let mut s = Session::new(0);
    s.after_greeting();
    s.after_spawn(true);
    s.finish_relay(RelayEnd::IoError);
    assert!(s.record_kill(KillResult::Failed));
}
