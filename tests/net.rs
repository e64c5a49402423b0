use sjqchat::net::{Action, Connection, Event, Frame, Manager, Readiness, State, BACKOFF_MS, OUTBOUND_CAPACITY};

fn connected() -> (Manager, Connection) {
    let mut m = Manager::new();
    let step = m.step(Readiness::Opened);
    match step.event {
        Some(Event::Connected(h)) => (m, h),
        other => panic!("expected a Connected event, got {:?}", other),
    }
}

fn text(t: &str) -> Readiness {
    Readiness::Inbound(Frame::Text(t.to_string()))
}

#[test]
fn starts_disconnected_and_asks_to_open() {
    let m = Manager::new();
    assert_eq!(m.state(), State::Disconnected);
    assert_eq!(m.action(), Action::Open);
    assert!(m.can_open());
}

#[test]
fn constants() {
    assert_eq!(OUTBOUND_CAPACITY, 100);
    assert_eq!(BACKOFF_MS, 1000);
}

#[test]
fn refused_three_times_then_connects() {
    let mut m = Manager::new();
    let mut seen = Vec::new();
    for _ in 0..3 {
        assert_eq!(m.action(), Action::Open);
        let step = m.step(Readiness::OpenFailed);
        assert_eq!(step.delay_ms, 1000);
        seen.push(step.event);
    }
    let step = m.step(Readiness::Opened);
    assert_eq!(step.delay_ms, 0);
    seen.push(step.event);
    assert_eq!(seen.len(), 4);
    for e in &seen[..3] {
        assert!(matches!(e, Some(Event::Disconnected)));
    }
    assert!(matches!(seen[3], Some(Event::Connected(Connection(0)))));
    assert_eq!(m.state(), State::Connected(0));
    assert_eq!(m.action(), Action::Wait);
}

#[test]
fn failed_attempts_wait_one_second_each() {
    let mut m = Manager::new();
    for _ in 0..5 {
        let step = m.step(Readiness::OpenFailed);
        assert!(step.delay_ms >= 1000);
        assert_eq!(m.state(), State::Disconnected);
    }
}

#[test]
fn connected_event_pairs_with_state() {
    let (m, h) = connected();
    assert_eq!(h, Connection(0));
    assert_eq!(m.state(), State::Connected(0));
    assert!(m.accepts(&h));
}

#[test]
fn inbound_frames_in_order() {
    let (mut m, _) = connected();
    let mut got = Vec::new();
    for t in ["a", "b", "c"] {
        let step = m.step(text(t));
        assert_eq!(step.delay_ms, 0);
        match step.event {
            Some(Event::MessageReceived(s)) => got.push(s),
            other => panic!("unexpected {:?}", other),
        }
    }
    assert_eq!(got, vec!["a".to_string(), "b".to_string(), "c".to_string()]);
    assert_eq!(m.state(), State::Connected(0));
}

#[test]
fn echo_after_write() {
    let (mut m, h) = connected();
    let written = m.step(Readiness::Written);
    assert!(written.event.is_none());
    let echo = m.step(text("hi"));
    match echo.event {
        Some(Event::MessageReceived(s)) => assert_eq!(s, "hi"),
        other => panic!("unexpected {:?}", other),
    }
    assert!(m.accepts(&h));
    assert_eq!(m.state(), State::Connected(0));
}

#[test]
fn peer_closes_mid_read() {
    let (mut m, h) = connected();
    let step = m.step(Readiness::ReadFailed);
    assert!(matches!(step.event, Some(Event::Disconnected)));
    assert_eq!(step.delay_ms, 0);
    assert_eq!(m.state(), State::Disconnected);
    assert!(!m.accepts(&h));
    assert_eq!(m.action(), Action::Open);
}

#[test]
fn write_failure_disconnects() {
    let (mut m, h) = connected();
    let step = m.step(Readiness::WriteFailed);
    assert!(matches!(step.event, Some(Event::Disconnected)));
    assert_eq!(m.state(), State::Disconnected);
    assert!(!m.accepts(&h));
}

#[test]
fn non_text_frames_are_dropped() {
    let (mut m, h) = connected();
    let step = m.step(Readiness::Inbound(Frame::Other));
    assert!(step.event.is_none());
    assert_eq!(step.delay_ms, 0);
    assert!(m.accepts(&h));
}

#[test]
fn empty_text_frame_is_delivered() {
    let (mut m, _) = connected();
    let step = m.step(text(""));
    match step.event {
        Some(Event::MessageReceived(s)) => assert_eq!(s, ""),
        other => panic!("unexpected {:?}", other),
    }
}

#[test]
fn old_handle_rejected_after_reconnect() {
    let (mut m, old) = connected();
    m.step(Readiness::ReadFailed);
    let step = m.step(Readiness::Opened);
    let fresh = match step.event {
        Some(Event::Connected(h)) => h,
        other => panic!("unexpected {:?}", other),
    };
    assert_eq!(fresh, Connection(1));
    assert_ne!(fresh, old);
    assert!(m.accepts(&fresh));
    assert!(!m.accepts(&old));
}

#[test]
fn inputs_that_do_not_fit_the_state_are_ignored() {
    let mut m = Manager::new();
    for input in [Readiness::Written, Readiness::ReadFailed, Readiness::WriteFailed, text("x")] {
        let step = m.step(input);
        assert!(step.event.is_none());
        assert_eq!(step.delay_ms, 0);
        assert_eq!(m.state(), State::Disconnected);
    }
    let (mut m, h) = connected();
    for input in [Readiness::Opened, Readiness::OpenFailed] {
        let step = m.step(input);
        assert!(step.event.is_none());
        assert_eq!(step.delay_ms, 0);
        assert!(m.accepts(&h));
    }
}
