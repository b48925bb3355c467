use picopico_phone::session::{
    alert_config, alert_endpoint, notification_payload, sensor_config, sensor_endpoint, Action,
    Endpoint, Event, Phase, Role, Session, SessionConfig, CONNECT_RETRY_DELAY_MS,
    MIN_ALERT_INTERVAL_MS, SENSOR_PORT,
};

fn connected(config: SessionConfig) -> Session {
    let mut s = Session::new(config);
    s.handle(Event::Start);
    s.handle(Event::Joined);
    s.handle(Event::LinkUp);
    let acts = s.handle(Event::Opened);
    assert_eq!(s.phase, Phase::Connected);
    assert_eq!(acts[0], Action::SetIndicator(true));
    s
}

#[test]
fn endpoints_and_literals() {
    assert_eq!(sensor_endpoint(), Endpoint { a: 169, b: 254, c: 1, d: 1, port: 1234 });
    assert_eq!(alert_endpoint(), Endpoint { a: 169, b: 254, c: 1, d: 2, port: 1234 });
    assert_eq!(SENSOR_PORT, 1234);
    assert_eq!(CONNECT_RETRY_DELAY_MS, 1000);
    assert_eq!(MIN_ALERT_INTERVAL_MS, 5000);
    assert_eq!(notification_payload(), b"high\n".to_vec());
}

#[test]
fn alert_node_startup_sequence() {
    let mut s = Session::new(alert_config());
    assert_eq!(s.phase, Phase::Idle);
    assert_eq!(s.handle(Event::Start), vec![Action::SetIndicator(false), Action::Join]);
    assert_eq!(s.phase, Phase::Joining);
    assert_eq!(s.handle(Event::JoinFailed), vec![Action::Join]);
    assert_eq!(s.handle(Event::JoinFailed), vec![Action::Join]);
    assert_eq!(s.handle(Event::Joined), vec![Action::WaitLinkUp]);
    assert_eq!(s.phase, Phase::LinkPending);
    assert_eq!(
        s.handle(Event::LinkUp),
        vec![Action::OpenStream, Action::Connect(sensor_endpoint())]
    );
    assert_eq!(s.phase, Phase::Connecting);
    assert_eq!(s.handle(Event::Opened), vec![Action::SetIndicator(true), Action::Read]);
    assert!(s.is_connected());
}

#[test]
fn sensor_node_listens_and_reaccepts_immediately() {
    let mut s = Session::new(sensor_config());
    s.handle(Event::Start);
    s.handle(Event::Joined);
    assert_eq!(
        s.handle(Event::LinkUp),
        vec![Action::OpenStream, Action::Accept(1234)]
    );
    assert_eq!(s.phase, Phase::Listening);
    assert_eq!(
        s.handle(Event::OpenFailed),
        vec![Action::OpenStream, Action::Accept(1234)]
    );
    assert_eq!(s.handle(Event::Opened), vec![Action::SetIndicator(true), Action::WaitEdge]);
}

#[test]
fn connect_retries_then_converges() {
    let mut s = Session::new(alert_config());
    s.handle(Event::Start);
    s.handle(Event::Joined);
    let mut acts = s.handle(Event::LinkUp);
    for _ in 0..3 {
        acts.extend(s.handle(Event::OpenFailed));
    }
    acts.extend(s.handle(Event::Opened));
    let peer = sensor_endpoint();
    assert_eq!(
        acts,
        vec![
            Action::OpenStream,
            Action::Connect(peer),
            Action::Delay(1000),
            Action::Connect(peer),
            Action::Delay(1000),
            Action::Connect(peer),
            Action::Delay(1000),
            Action::Connect(peer),
            Action::SetIndicator(true),
            Action::Read,
        ]
    );
    assert_eq!(acts.iter().filter(|a| matches!(a, Action::Delay(_))).count(), 3);
    assert_eq!(s.phase, Phase::Connected);
}

#[test]
fn connect_gives_up_after_configured_failures() {
    let mut config = alert_config();
    config.max_connect_failures = Some(2);
    let mut s = Session::new(config);
    s.handle(Event::Start);
    s.handle(Event::Joined);
    s.handle(Event::LinkUp);
    assert_eq!(
        s.handle(Event::OpenFailed),
        vec![Action::Delay(1000), Action::Connect(sensor_endpoint())]
    );
    assert_eq!(s.connect_failures, 1);
    assert_eq!(s.handle(Event::OpenFailed), vec![Action::Leave, Action::Join]);
    assert_eq!(s.phase, Phase::Joining);
    assert_eq!(s.connect_failures, 0);
}

#[test]
fn sensor_dispatch_scenario() {
    let mut s = connected(sensor_config());
    assert_eq!(s.handle(Event::Edge(0)), vec![Action::Write]);
    assert_eq!(s.handle(Event::Written), vec![Action::WaitEdge]);
    assert_eq!(s.handle(Event::Edge(100)), vec![Action::WaitEdge]);
    assert_eq!(s.handle(Event::Edge(6000)), vec![Action::Write]);
    assert_eq!(s.handle(Event::Written), vec![Action::WaitEdge]);
    assert_eq!(s.debounce.last, Some(6000));
}

#[test]
fn alert_renders_twice_for_spaced_messages() {
    let mut s = connected(alert_config());
    assert_eq!(s.handle(Event::Received(5, 0)), vec![Action::Render]);
    assert!(s.rendering);
    assert_eq!(s.handle(Event::Rendered), vec![Action::Read]);
    assert_eq!(s.handle(Event::Received(5, 6000)), vec![Action::Render]);
    assert_eq!(s.handle(Event::Rendered), vec![Action::Read]);
    assert_eq!(s.limiter.last, Some(6000));
}

#[test]
fn end_to_end_edges_to_renders() {
    let mut sensor = connected(sensor_config());
    let mut alert = connected(alert_config());
    let mut renders = 0;
    for t in [0u64, 100, 6000] {
        let acts = sensor.handle(Event::Edge(t));
        if acts == vec![Action::Write] {
            sensor.handle(Event::Written);
            let payload = notification_payload();
            let answer = alert.handle(Event::Received(payload.len(), t));
            if answer == vec![Action::Render] {
                renders += 1;
                alert.handle(Event::Rendered);
            }
        }
    }
    assert_eq!(renders, 2);
}

#[test]
fn rate_limiter_drops_fast_alerts() {
    let mut s = connected(alert_config());
    assert_eq!(s.handle(Event::Received(1, 10_000)), vec![Action::Render]);
    s.handle(Event::Rendered);
    assert_eq!(s.handle(Event::Received(1, 12_000)), vec![Action::Read]);
    assert_eq!(s.handle(Event::Received(1, 15_000)), vec![Action::Read]);
    assert_eq!(s.handle(Event::Received(1, 15_001)), vec![Action::Render]);
}

#[test]
fn any_nonempty_payload_is_an_alert() {
    let mut s = connected(alert_config());
    assert_eq!(s.handle(Event::Received(1, 0)), vec![Action::Render]);
}

#[test]
fn zero_length_read_reconnects_without_render() {
    let mut s = connected(alert_config());
    let acts = s.handle(Event::Received(0, 7000));
    assert_eq!(acts, vec![Action::SetIndicator(false), Action::Leave, Action::Join]);
    assert!(!acts.contains(&Action::Render));
    assert_eq!(s.phase, Phase::Joining);
    assert!(!s.is_connected());
    assert_eq!(s.limiter.last, None);
}

#[test]
fn read_error_reconnects() {
    let mut s = connected(alert_config());
    assert_eq!(
        s.handle(Event::ReadFailed),
        vec![Action::SetIndicator(false), Action::Leave, Action::Join]
    );
    assert_eq!(s.phase, Phase::Joining);
}

#[test]
fn write_failure_builds_new_stream() {
    let mut s = connected(sensor_config());
    assert_eq!(s.handle(Event::Edge(0)), vec![Action::Write]);
    let acts = s.handle(Event::WriteFailed);
    assert_eq!(
        acts,
        vec![Action::SetIndicator(false), Action::OpenStream, Action::Accept(1234)]
    );
    assert_eq!(s.phase, Phase::Listening);
    // No edge is turned into a write until a new stream is connected.
    assert_eq!(s.handle(Event::Edge(10_000)), vec![]);
    assert_eq!(s.handle(Event::Opened), vec![Action::SetIndicator(true), Action::WaitEdge]);
    assert_eq!(s.handle(Event::Edge(10_001)), vec![Action::Write]);
}

#[test]
fn sensor_window_restarts_with_each_connection() {
    let mut s = connected(sensor_config());
    assert_eq!(s.handle(Event::Edge(1000)), vec![Action::Write]);
    s.handle(Event::WriteFailed);
    s.handle(Event::Opened);
    assert_eq!(s.handle(Event::Edge(1500)), vec![Action::Write]);
}

#[test]
fn alert_window_spans_reconnects() {
    let mut s = connected(alert_config());
    assert_eq!(s.handle(Event::Received(1, 1000)), vec![Action::Render]);
    s.handle(Event::Rendered);
    s.handle(Event::ReadFailed);
    s.handle(Event::Joined);
    s.handle(Event::LinkUp);
    s.handle(Event::Opened);
    assert_eq!(s.handle(Event::Received(1, 2000)), vec![Action::Read]);
}

#[test]
fn no_second_render_while_one_is_in_flight() {
    let mut s = connected(alert_config());
    assert_eq!(s.handle(Event::Received(1, 0)), vec![Action::Render]);
    assert_eq!(s.handle(Event::Received(1, 9000)), vec![]);
    assert!(s.rendering);
    assert_eq!(s.handle(Event::Rendered), vec![Action::Read]);
    assert!(!s.rendering);
}

#[test]
fn events_out_of_phase_change_nothing() {
    let mut s = Session::new(sensor_config());
    let before = s;
    assert_eq!(s.handle(Event::Edge(1)), vec![]);
    assert_eq!(s.handle(Event::Opened), vec![]);
    assert_eq!(s, before);
    assert_eq!(s.config.role, Role::Listener);
}
