use forza_telemetry::packet::MIN_PACKET_LEN;
use forza_telemetry::server::{Server, ServerState, DEFAULT_FLUSH_INTERVAL};

fn race_on_datagram() -> Vec<u8> {
    let mut buf = vec![0u8; MIN_PACKET_LEN];
    buf[0] = 1;
    buf
}

fn race_off_datagram() -> Vec<u8> {
    vec![0u8; MIN_PACKET_LEN]
}

#[test]
fn race_off_record_is_not_forwarded_but_flushes() {
    let mut server = Server::new(DEFAULT_FLUSH_INTERVAL);
    let d = server.on_datagram(&race_off_datagram());
    assert!(d.forward.is_none());
    assert!(d.flush);
    assert_eq!(server.pending, 0);
    assert_eq!(server.state, ServerState::Running);
}

#[test]
fn truncated_datagram_is_dropped_silently() {
    let mut server = Server::new(DEFAULT_FLUSH_INTERVAL);
    let d = server.on_datagram(&vec![1u8; MIN_PACKET_LEN - 1]);
    assert!(d.forward.is_none());
    assert!(!d.flush);
    assert_eq!(server.pending, 0);
    assert_eq!(server.state, ServerState::Running);
}

#[test]
fn race_on_record_is_forwarded() {
    let mut server = Server::new(DEFAULT_FLUSH_INTERVAL);
    let d = server.on_datagram(&race_on_datagram());
    let p = d.forward.expect("a race-on record must be forwarded");
    assert!(p.is_race_on);
    assert!(!d.flush);
    assert_eq!(server.pending, 1);
}

#[test]
fn flush_interval_triggers_exactly_one_periodic_flush() {
    // With an interval of three, forwarding three valid records flushes
    // exactly once — on the third.
    let mut server = Server::new(3);
    let mut flushes = 0;
    let mut forwards = 0;
    for _ in 0..3 {
        let d = server.on_datagram(&race_on_datagram());
        if d.forward.is_some() {
            forwards += 1;
        }
        if d.flush {
            flushes += 1;
        }
    }
    assert_eq!(forwards, 3);
    assert_eq!(flushes, 1);
    assert_eq!(server.pending, 0);

    // The flush sits on the last record of the interval, not earlier.
    let d = server.on_datagram(&race_on_datagram());
    assert!(!d.flush);
    let d = server.on_datagram(&race_on_datagram());
    assert!(!d.flush);
    let d = server.on_datagram(&race_on_datagram());
    assert!(d.flush);
}

#[test]
fn race_off_flush_does_not_reset_the_interval() {
    // A menu/pause flush is a batching boundary for the sink, but the
    // periodic counter still runs on forwarded records alone.
    let mut server = Server::new(2);
    let d = server.on_datagram(&race_on_datagram());
    assert!(!d.flush);
    let d = server.on_datagram(&race_off_datagram());
    assert!(d.flush);
    assert_eq!(server.pending, 1);
    let d = server.on_datagram(&race_on_datagram());
    assert!(d.flush); // second forwarded record completes the interval
}

#[test]
fn pauses_add_their_own_flushes_to_the_periodic_one() {
    // Interval two, with a pause in the middle: the pause flushes once,
    // and filling the interval adds exactly one more flush.
    let mut server = Server::new(2);
    let inputs = [race_on_datagram(), race_off_datagram(), race_on_datagram()];
    let mut flushes = 0;
    let mut forwards = 0;
    for input in &inputs {
        let d = server.on_datagram(input);
        if d.forward.is_some() {
            forwards += 1;
        }
        if d.flush {
            flushes += 1;
        }
    }
    assert_eq!(forwards, 2);
    assert_eq!(flushes, 2);
}

#[test]
fn shutdown_flushes_once_and_terminates() {
    // Shutdown after two valid records (fewer than the interval) still
    // yields exactly one final flush, and the server reports Terminated.
    let mut server = Server::new(DEFAULT_FLUSH_INTERVAL);
    let d = server.on_datagram(&race_on_datagram());
    assert!(!d.flush);
    let d = server.on_datagram(&race_on_datagram());
    assert!(!d.flush);

    let d = server.on_shutdown();
    assert!(d.forward.is_none());
    assert!(d.flush);
    assert_eq!(server.state, ServerState::Terminated);
}

#[test]
fn new_server_starts_running_with_nothing_pending() {
    let server = Server::new(DEFAULT_FLUSH_INTERVAL);
    assert_eq!(server.state, ServerState::Running);
    assert_eq!(server.pending, 0);
    assert_eq!(server.flush_interval, 1000);
}
