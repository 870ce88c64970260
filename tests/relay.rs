use tcp_proxy::accept::{AcceptLoop, LoopAction, LoopPhase};
use tcp_proxy::fault::IoErrorKind;
use tcp_proxy::listen::listen_address;
use tcp_proxy::pump::{new_pair, Action, Direction, Operation, Phase, Pump, PumpOutcome};

/// Drives a pump over the given reads, every write succeeding, and returns
/// the bytes written and how it ended.
fn relay(pump: &mut Pump, reads: Vec<Vec<u8>>) -> (Vec<u8>, PumpOutcome) {
    let mut written: Vec<u8> = Vec::new();
    for chunk in reads {
        match pump.on_read(Ok(chunk)) {
            Action::Write(w) => {
                written.extend_from_slice(&w);
                assert!(matches!(pump.on_write(Ok(())), Action::Read));
            }
            Action::Close(o) => return (written, o),
            Action::Read => panic!("a read is never followed by another read"),
        }
    }
    panic!("the reads did not end the stream")
}

#[test]
fn ping_scenario_echoes_through_both_pumps() {
    let (mut forward, mut backward) = new_pair();
    assert_eq!(forward.direction(), Direction::Forward);
    assert_eq!(backward.direction(), Direction::Backward);

    let a = forward.on_read(Ok(b"ping".to_vec()));
    let sent = match a {
        Action::Write(w) => w,
        other => panic!("expected a write, got {:?}", other),
    };
    assert_eq!(sent, b"ping".to_vec());
    assert!(matches!(forward.on_write(Ok(())), Action::Read));

    // the echo server answers with the same bytes
    let b = backward.on_read(Ok(sent));
    match b {
        Action::Write(w) => assert_eq!(w, b"ping".to_vec()),
        other => panic!("expected a write, got {:?}", other),
    }
    assert!(matches!(backward.on_write(Ok(())), Action::Read));

    // the client closes: the target side sees end-of-stream, no error
    match forward.on_read(Ok(Vec::new())) {
        Action::Close(o) => {
            assert_eq!(o, PumpOutcome::NormalClose);
            assert!(!o.is_failure());
        }
        other => panic!("expected a close, got {:?}", other),
    }
    assert_eq!(forward.phase(), Phase::Done(PumpOutcome::NormalClose));
}

#[test]
fn bytes_arrive_in_order_without_loss() {
    let mut p = Pump::new(Direction::Forward);
    let reads = vec![vec![1u8, 2, 3], vec![4u8], vec![5u8, 6], Vec::new()];
    let (written, outcome) = relay(&mut p, reads);
    assert_eq!(written, vec![1u8, 2, 3, 4, 5, 6]);
    assert_eq!(outcome, PumpOutcome::NormalClose);
}

#[test]
fn backward_pump_keeps_bytes_too() {
    let mut p = Pump::new(Direction::Backward);
    let reads = vec![b"hello ".to_vec(), b"world".to_vec(), Vec::new()];
    let (written, outcome) = relay(&mut p, reads);
    assert_eq!(written, b"hello world".to_vec());
    assert_eq!(outcome, PumpOutcome::NormalClose);
}

#[test]
fn half_close_leaves_other_direction_running() {
    let (mut forward, mut backward) = new_pair();
    let (written, outcome) = relay(&mut forward, vec![vec![7u8; 10], Vec::new()]);
    assert_eq!(written.len(), 10);
    assert_eq!(outcome, PumpOutcome::NormalClose);
    // the reverse direction still relays
    match backward.on_read(Ok(vec![9u8, 9])) {
        Action::Write(w) => assert_eq!(w, vec![9u8, 9]),
        other => panic!("expected a write, got {:?}", other),
    }
    assert_eq!(backward.phase(), Phase::Writing);
}

#[test]
fn write_to_closed_peer_ends_without_failure() {
    for k in [
        IoErrorKind::BrokenPipe,
        IoErrorKind::ConnectionReset,
        IoErrorKind::ConnectionAborted,
        IoErrorKind::NotConnected,
    ] {
        let mut p = Pump::new(Direction::Forward);
        assert!(matches!(p.on_read(Ok(vec![1u8])), Action::Write(_)));
        match p.on_write(Err(k)) {
            Action::Close(o) => {
                assert_eq!(o, PumpOutcome::PeerClosed);
                assert!(!o.is_failure());
            }
            other => panic!("expected a close, got {:?}", other),
        }
        assert_eq!(p.phase(), Phase::Done(PumpOutcome::PeerClosed));
    }
}

#[test]
fn other_write_failure_is_reported() {
    let mut p = Pump::new(Direction::Backward);
    assert!(matches!(p.on_read(Ok(vec![1u8])), Action::Write(_)));
    match p.on_write(Err(IoErrorKind::TimedOut)) {
        Action::Close(o) => {
            assert_eq!(o, PumpOutcome::Failed(Operation::Write, IoErrorKind::TimedOut));
            assert!(o.is_failure());
        }
        other => panic!("expected a close, got {:?}", other),
    }
}

#[test]
fn read_failure_is_reported() {
    let mut p = Pump::new(Direction::Backward);
    match p.on_read(Err(IoErrorKind::ConnectionReset)) {
        Action::Close(o) => {
            assert_eq!(o, PumpOutcome::Failed(Operation::Read, IoErrorKind::ConnectionReset));
            assert!(o.is_failure());
        }
        other => panic!("expected a close, got {:?}", other),
    }
}

#[test]
fn peer_closed_kinds() {
    assert!(IoErrorKind::BrokenPipe.is_peer_closed());
    assert!(IoErrorKind::ConnectionReset.is_peer_closed());
    assert!(IoErrorKind::ConnectionAborted.is_peer_closed());
    assert!(IoErrorKind::NotConnected.is_peer_closed());
    assert!(!IoErrorKind::UnexpectedEof.is_peer_closed());
    assert!(!IoErrorKind::TimedOut.is_peer_closed());
    assert!(!IoErrorKind::Interrupted.is_peer_closed());
    assert!(!IoErrorKind::Other.is_peer_closed());
}

#[test]
fn dial_failure_keeps_loop_accepting() {
    let mut l = AcceptLoop::new();
    assert_eq!(l.phase(), LoopPhase::Accepting);
    assert_eq!(l.on_accept(Ok(())), LoopAction::Dial);
    assert_eq!(l.phase(), LoopPhase::Dialing);
    assert_eq!(l.on_dial(Err(IoErrorKind::Other)), LoopAction::DropInbound);
    assert_eq!(l.phase(), LoopPhase::Accepting);
    assert_eq!(l.on_accept(Ok(())), LoopAction::Dial);
    assert_eq!(l.on_dial(Ok(())), LoopAction::SpawnPair);
    assert_eq!(l.phase(), LoopPhase::Accepting);
}

#[test]
fn two_connections_get_their_own_pairs() {
    let mut l = AcceptLoop::new();
    assert_eq!(l.on_accept(Ok(())), LoopAction::Dial);
    assert_eq!(l.on_dial(Ok(())), LoopAction::SpawnPair);
    let (mut f1, _b1) = new_pair();
    assert_eq!(l.on_accept(Ok(())), LoopAction::Dial);
    assert_eq!(l.on_dial(Ok(())), LoopAction::SpawnPair);
    let (mut f2, _b2) = new_pair();
    // interleaved sends stay on their own connection
    let (w1, w2);
    match f1.on_read(Ok(b"aa".to_vec())) {
        Action::Write(w) => w1 = w,
        other => panic!("expected a write, got {:?}", other),
    }
    match f2.on_read(Ok(b"bbb".to_vec())) {
        Action::Write(w) => w2 = w,
        other => panic!("expected a write, got {:?}", other),
    }
    assert_eq!(w1, b"aa".to_vec());
    assert_eq!(w2, b"bbb".to_vec());
    assert_eq!(f1.phase(), Phase::Writing);
    assert_eq!(f2.phase(), Phase::Writing);
}

#[test]
fn accept_failure_stops_loop() {
    let mut l = AcceptLoop::new();
    assert_eq!(
        l.on_accept(Err(IoErrorKind::Other)),
        LoopAction::Stop(IoErrorKind::Other)
    );
    assert_eq!(l.phase(), LoopPhase::Stopped(IoErrorKind::Other));
}

#[test]
fn listen_address_local_only_is_loopback() {
    let a = listen_address(8080, true);
    assert_eq!(a.segments, [0u16, 0, 0, 0, 0, 0, 0, 1]);
    assert_eq!(a.port, 8080);
}

#[test]
fn listen_address_default_is_every_interface() {
    let a = listen_address(0, false);
    assert_eq!(a.segments, [0u16; 8]);
    assert_eq!(a.port, 0);
}

#[test]
fn largest_port_kept() {
    assert_eq!(listen_address(65535, true).port, 65535);
}
