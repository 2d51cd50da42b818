use g27_led_bridge::rpm::STALENESS_THRESHOLD;
use g27_led_bridge::supervisor::{
    device_connected, Action, Awaiting, ConnectionState, DeviceId, Event, FailureKind, Frame,
    HaltReason, Report, Step, Supervisor, WheelStatus, DEVICE_LOST_BACKOFF_TICKS, G27_PID,
    G27_VID, MIN_RECEIVE_BUFFER, SEARCH_INTERVAL_TICKS, SOCKET_BIND_BACKOFF_TICKS, TICK_MILLIS,
};
use g27_led_bridge::telemetry::{GameType, TelemetryReading};

const WHEEL: DeviceId = DeviceId { vendor_id: 0x046d, product_id: 0xc29b };
const MOUSE: DeviceId = DeviceId { vendor_id: 0x046d, product_id: 0xc077 };
const KEYBOARD: DeviceId = DeviceId { vendor_id: 0x04d9, product_id: 0xc29b };

fn control(game: GameType, port: u16) -> Event {
    Event::Control { shutdown: false, game, port }
}

fn tick() -> Event {
    Event::Tick { shutdown: false }
}

fn forza(flag: i32, current: f32, max: f32, idle: f32) -> Vec<u8> {
    let mut data = vec![0u8; 232];
    data[0..4].copy_from_slice(&flag.to_le_bytes());
    data[8..12].copy_from_slice(&max.to_le_bytes());
    data[12..16].copy_from_slice(&idle.to_le_bytes());
    data[16..20].copy_from_slice(&current.to_le_bytes());
    data
}

fn dirt(current: f32, max: f32, idle: f32) -> Vec<u8> {
    let mut data = vec![0u8; 264];
    data[148..152].copy_from_slice(&current.to_le_bytes());
    data[252..256].copy_from_slice(&max.to_le_bytes());
    data[256..260].copy_from_slice(&idle.to_le_bytes());
    data
}

/// A supervisor for Forza on port 9999 that has found and opened the wheel
/// and asks for the listener to be bound.
fn at_bind() -> Supervisor {
    let mut supervisor = Supervisor::new(GameType::ForzaHorizon5, 9999, false);
    supervisor.step(control(GameType::ForzaHorizon5, 9999));
    supervisor.step(Event::Enumerated(vec![MOUSE, WHEEL]));
    let step = supervisor.step(Event::Opened);
    assert_eq!(step.action, Action::BindListener { port: 9999 });
    supervisor
}

/// The same, with the listener bound.
fn streaming() -> Supervisor {
    let mut supervisor = at_bind();
    let step = supervisor.step(Event::Bound);
    assert_eq!(step.action, Action::Receive { buffer_size: 512 });
    supervisor
}

#[test]
fn constants() {
    assert_eq!(G27_VID, 0x046d);
    assert_eq!(G27_PID, 0xc29b);
    assert_eq!(TICK_MILLIS, 100);
    assert_eq!(SOCKET_BIND_BACKOFF_TICKS as u64 * TICK_MILLIS, 5000);
    assert_eq!(DEVICE_LOST_BACKOFF_TICKS as u64 * TICK_MILLIS, 2000);
    assert_eq!(SEARCH_INTERVAL_TICKS as u64 * TICK_MILLIS, 5000);
    assert_eq!(MIN_RECEIVE_BUFFER, 512);
    assert_eq!(FailureKind::SocketBind.backoff(), 50);
    assert_eq!(FailureKind::DeviceLost.backoff(), 20);
}

#[test]
fn the_wheel_is_found_by_both_identifiers() {
    assert!(!device_connected(&[]));
    assert!(!device_connected(&[MOUSE]));
    assert!(!device_connected(&[KEYBOARD]));
    assert!(!device_connected(&[MOUSE, KEYBOARD]));
    assert!(device_connected(&[WHEEL]));
    assert!(device_connected(&[MOUSE, WHEEL]));
    assert!(device_connected(&[WHEEL, KEYBOARD]));
    assert!(device_connected(&[MOUSE, KEYBOARD, MOUSE, WHEEL, MOUSE]));
    assert!(!device_connected(&[DeviceId { vendor_id: 0xc29b, product_id: 0x046d }]));
}

#[test]
fn a_new_supervisor_asks_for_the_controls() {
    let supervisor = Supervisor::new(GameType::DirtRally2, 20777, false);
    assert_eq!(supervisor.pending_action(), Action::PollControl);
    assert_eq!(supervisor.connection(), ConnectionState::Searching);
    assert_eq!(supervisor.awaiting(), Awaiting::Control);
    assert_eq!(supervisor.game(), GameType::DirtRally2);
    assert_eq!(supervisor.port(), 20777);
    assert_eq!(supervisor.ticks_left(), 0);
    assert!(!supervisor.holds_device());
    assert!(!supervisor.holds_listener());
    assert_eq!(supervisor.tracker().staleness(), 0);
}

#[test]
fn from_search_to_streaming() {
    let mut supervisor = Supervisor::new(GameType::DirtRally2, 20777, false);
    let step = supervisor.step(control(GameType::DirtRally2, 20777));
    assert_eq!(step, Step { action: Action::Enumerate, report: Some(Report::Searching) });
    assert_eq!(supervisor.connection(), ConnectionState::Searching);

    let step = supervisor.step(Event::Enumerated(vec![KEYBOARD, WHEEL]));
    assert_eq!(step, Step { action: Action::OpenDevice, report: None });
    assert_eq!(supervisor.connection(), ConnectionState::Connected);
    assert!(!supervisor.holds_device());

    let step = supervisor.step(Event::Opened);
    assert_eq!(
        step,
        Step { action: Action::BindListener { port: 20777 }, report: Some(Report::Connected) }
    );
    assert_eq!(supervisor.connection(), ConnectionState::Streaming);
    assert!(supervisor.holds_device());
    assert!(!supervisor.holds_listener());

    let step = supervisor.step(Event::Bound);
    assert_eq!(
        step,
        Step {
            action: Action::Receive { buffer_size: 512 },
            report: Some(Report::Listening { game: GameType::DirtRally2, port: 20777 }),
        }
    );
    assert_eq!(supervisor.connection(), ConnectionState::Streaming);
    assert!(supervisor.holds_device());
    assert!(supervisor.holds_listener());
}

#[test]
fn a_missing_wheel_is_searched_for_again_after_five_seconds() {
    let mut supervisor = Supervisor::new(GameType::DirtRally2, 20777, false);
    supervisor.step(control(GameType::DirtRally2, 20777));
    let step = supervisor.step(Event::Enumerated(vec![MOUSE]));
    assert_eq!(step, Step { action: Action::Wait, report: Some(Report::NotFound) });
    assert_eq!(supervisor.connection(), ConnectionState::Searching);
    assert_eq!(supervisor.ticks_left(), 50);
    for left in (1..50u8).rev() {
        let step = supervisor.step(tick());
        assert_eq!(step, Step { action: Action::Wait, report: None });
        assert_eq!(supervisor.ticks_left(), left);
    }
    let step = supervisor.step(tick());
    assert_eq!(step, Step { action: Action::PollControl, report: None });
    let step = supervisor.step(control(GameType::DirtRally2, 20777));
    assert_eq!(step, Step { action: Action::Enumerate, report: Some(Report::Searching) });
    // Not the first search any more: still no wheel, still no end.
    let step = supervisor.step(Event::Enumerated(vec![]));
    assert_eq!(step, Step { action: Action::Wait, report: Some(Report::NotFound) });
}

#[test]
fn a_required_wheel_that_is_missing_at_startup_ends_the_process() {
    let mut supervisor = Supervisor::new(GameType::DirtRally2, 20777, true);
    supervisor.step(control(GameType::DirtRally2, 20777));
    let step = supervisor.step(Event::Enumerated(vec![MOUSE, KEYBOARD]));
    assert_eq!(
        step,
        Step {
            action: Action::Halt(HaltReason::DeviceRequired),
            report: Some(Report::DeviceRequired),
        }
    );
    assert_eq!(supervisor.awaiting(), Awaiting::Halted(HaltReason::DeviceRequired));
    assert!(!supervisor.holds_device());
    let step = supervisor.step(Event::Enumerated(vec![WHEEL]));
    assert_eq!(step, Step { action: Action::Halt(HaltReason::DeviceRequired), report: None });
}

#[test]
fn a_required_wheel_that_disappears_later_is_waited_for() {
    let mut supervisor = Supervisor::new(GameType::ForzaHorizon5, 9999, true);
    supervisor.step(control(GameType::ForzaHorizon5, 9999));
    supervisor.step(Event::Enumerated(vec![WHEEL]));
    supervisor.step(Event::Opened);
    supervisor.step(Event::Bound);
    let step = supervisor.step(Event::ReceiveFailed);
    assert_eq!(step.action, Action::Wait);
    for _ in 0..20 {
        supervisor.step(tick());
    }
    assert_eq!(supervisor.pending_action(), Action::PollControl);
    supervisor.step(control(GameType::ForzaHorizon5, 9999));
    let step = supervisor.step(Event::Enumerated(vec![]));
    assert_eq!(step, Step { action: Action::Wait, report: Some(Report::NotFound) });
    assert_eq!(supervisor.connection(), ConnectionState::Searching);
}

#[test]
fn a_wheel_that_cannot_be_opened_is_searched_for_again() {
    let mut supervisor = Supervisor::new(GameType::DirtRally2, 20777, true);
    supervisor.step(control(GameType::DirtRally2, 20777));
    supervisor.step(Event::Enumerated(vec![WHEEL]));
    let step = supervisor.step(Event::OpenFailed);
    assert_eq!(step, Step { action: Action::Wait, report: Some(Report::ConnectionFailed) });
    assert_eq!(supervisor.connection(), ConnectionState::Searching);
    assert_eq!(supervisor.ticks_left(), 50);
    assert!(!supervisor.holds_device());
    for _ in 0..50 {
        supervisor.step(tick());
    }
    let step = supervisor.step(control(GameType::DirtRally2, 20777));
    assert_eq!(step.action, Action::Enumerate);
}

#[test]
fn a_failed_bind_is_retried_after_five_seconds() {
    let mut supervisor = at_bind();
    let step = supervisor.step(Event::BindFailed);
    assert_eq!(
        step,
        Step { action: Action::Wait, report: Some(Report::Failure(FailureKind::SocketBind)) }
    );
    assert_eq!(
        supervisor.connection(),
        ConnectionState::RecoverableError(FailureKind::SocketBind)
    );
    assert_eq!(supervisor.ticks_left(), 50);
    assert!(supervisor.holds_device());
    assert!(!supervisor.holds_listener());
    let mut slept_millis: u64 = 0;
    loop {
        match supervisor.pending_action() {
            Action::Wait => {
                slept_millis += TICK_MILLIS;
                supervisor.step(tick());
            }
            Action::PollControl => {
                supervisor.step(control(GameType::ForzaHorizon5, 9999));
            }
            Action::BindListener { port } => {
                assert_eq!(port, 9999);
                break;
            }
            other => panic!("{:?}", other),
        }
    }
    assert_eq!(slept_millis, 5000);
    assert_eq!(supervisor.connection(), ConnectionState::Streaming);
    assert!(supervisor.holds_device());
    // And again, for as long as it fails.
    let step = supervisor.step(Event::BindFailed);
    assert_eq!(step.action, Action::Wait);
    assert_eq!(supervisor.ticks_left(), 50);
}

#[test]
fn a_lost_device_is_searched_for_after_two_seconds() {
    let mut supervisor = streaming();
    let step = supervisor.step(Event::ReceiveFailed);
    assert_eq!(
        step,
        Step { action: Action::Wait, report: Some(Report::Failure(FailureKind::DeviceLost)) }
    );
    assert_eq!(
        supervisor.connection(),
        ConnectionState::RecoverableError(FailureKind::DeviceLost)
    );
    assert_eq!(supervisor.ticks_left(), 20);
    assert!(!supervisor.holds_device());
    assert!(!supervisor.holds_listener());
    let mut slept_millis: u64 = 0;
    loop {
        match supervisor.pending_action() {
            Action::Wait => {
                slept_millis += TICK_MILLIS;
                supervisor.step(tick());
            }
            Action::PollControl => {
                supervisor.step(control(GameType::ForzaHorizon5, 9999));
            }
            Action::Enumerate => break,
            other => panic!("{:?}", other),
        }
    }
    assert_eq!(slept_millis, 2000);
    assert_eq!(supervisor.connection(), ConnectionState::Searching);
}

#[test]
fn a_failing_driver_counts_as_a_lost_device() {
    let mut supervisor = streaming();
    let step = supervisor.step(Event::Datagram(forza(1, 1500.0, 7000.0, 800.0)));
    assert!(matches!(step.action, Action::Forward(_)));
    let step = supervisor.step(Event::DriverFailed);
    assert_eq!(
        step,
        Step { action: Action::Wait, report: Some(Report::Failure(FailureKind::DeviceLost)) }
    );
    assert_eq!(supervisor.ticks_left(), 20);
    assert!(!supervisor.holds_device());
    assert!(!supervisor.holds_listener());
    assert_eq!(supervisor.tracker().reading(), TelemetryReading::sentinel());
}

#[test]
fn shutdown_during_a_backoff_stops_at_the_next_tick() {
    let mut supervisor = at_bind();
    supervisor.step(Event::BindFailed);
    supervisor.step(tick());
    supervisor.step(tick());
    supervisor.step(tick());
    assert_eq!(supervisor.ticks_left(), 47);
    let step = supervisor.step(Event::Tick { shutdown: true });
    assert_eq!(step, Step { action: Action::Halt(HaltReason::Shutdown), report: None });
    assert_eq!(supervisor.awaiting(), Awaiting::Halted(HaltReason::Shutdown));
    assert!(!supervisor.holds_device());
    assert!(!supervisor.holds_listener());
}

#[test]
fn shutdown_during_a_search_wait_stops_at_the_next_tick() {
    let mut supervisor = Supervisor::new(GameType::DirtRally2, 20777, false);
    supervisor.step(control(GameType::DirtRally2, 20777));
    supervisor.step(Event::Enumerated(vec![]));
    let step = supervisor.step(Event::Tick { shutdown: true });
    assert_eq!(step.action, Action::Halt(HaltReason::Shutdown));
}

#[test]
fn shutdown_at_the_top_of_the_loop_stops() {
    let mut supervisor = Supervisor::new(GameType::DirtRally2, 20777, true);
    let step = supervisor.step(Event::Control {
        shutdown: true,
        game: GameType::ForzaHorizon5,
        port: 1,
    });
    assert_eq!(step, Step { action: Action::Halt(HaltReason::Shutdown), report: None });
    assert_eq!(supervisor.game(), GameType::DirtRally2);
    assert_eq!(supervisor.port(), 20777);
}

#[test]
fn a_stopped_supervisor_stays_stopped() {
    let mut supervisor = Supervisor::new(GameType::DirtRally2, 20777, false);
    supervisor.step(Event::Control { shutdown: true, game: GameType::DirtRally2, port: 20777 });
    let events = vec![
        control(GameType::DirtRally2, 20777),
        Event::Enumerated(vec![WHEEL]),
        Event::Opened,
        Event::OpenFailed,
        Event::Bound,
        Event::BindFailed,
        Event::Datagram(dirt(1500.0, 7000.0, 800.0)),
        Event::ReceiveFailed,
        Event::Forwarded,
        Event::DriverFailed,
        tick(),
        Event::Tick { shutdown: true },
    ];
    for event in events {
        let step = supervisor.step(event);
        assert_eq!(step, Step { action: Action::Halt(HaltReason::Shutdown), report: None });
        assert_eq!(supervisor.connection(), ConnectionState::Searching);
    }
}

#[test]
fn events_that_answer_nothing_are_ignored() {
    let mut supervisor = at_bind();
    let events = vec![
        control(GameType::DirtRally2, 1),
        Event::Enumerated(vec![]),
        Event::Opened,
        Event::OpenFailed,
        Event::Datagram(forza(1, 1500.0, 7000.0, 800.0)),
        Event::ReceiveFailed,
        Event::Forwarded,
        Event::DriverFailed,
        tick(),
        Event::Tick { shutdown: true },
    ];
    for event in events {
        let step = supervisor.step(event);
        assert_eq!(step, Step { action: Action::BindListener { port: 9999 }, report: None });
        assert_eq!(supervisor.connection(), ConnectionState::Streaming);
        assert_eq!(supervisor.game(), GameType::ForzaHorizon5);
    }
}

#[test]
fn datagrams_are_decoded_tracked_and_forwarded() {
    let mut supervisor = streaming();
    let packet = forza(1, 1500.0, 7000.0, 800.0);
    let step = supervisor.step(Event::Datagram(packet.clone()));
    assert_eq!(step.report, None);
    let frame = match step.action {
        Action::Forward(frame) => frame,
        other => panic!("{:?}", other),
    };
    assert_eq!(f32::from_bits(frame.reading.current_rpm.bits), 1500.0);
    assert_eq!(f32::from_bits(frame.reading.max_rpm.bits), 7000.0);
    assert_eq!(f32::from_bits(frame.reading.idle_rpm.bits), 800.0);
    assert!(frame.reading.race_active);
    assert_eq!(frame.staleness, 0);
    assert!(!frame.stale);
    assert!(supervisor.holds_listener());

    let step = supervisor.step(Event::Forwarded);
    assert_eq!(step, Step { action: Action::Receive { buffer_size: 512 }, report: None });

    for repeat in 1..=7u8 {
        let step = supervisor.step(Event::Datagram(packet.clone()));
        let expected = Frame {
            reading: frame.reading,
            staleness: repeat.min(STALENESS_THRESHOLD),
            stale: repeat >= STALENESS_THRESHOLD,
        };
        assert_eq!(step, Step { action: Action::Forward(expected), report: None });
        supervisor.step(Event::Forwarded);
    }
    assert!(supervisor.tracker().is_stale());

    let step = supervisor.step(Event::Datagram(forza(1, 1600.0, 7000.0, 800.0)));
    match step.action {
        Action::Forward(frame) => {
            assert_eq!(f32::from_bits(frame.reading.current_rpm.bits), 1600.0);
            assert_eq!(frame.staleness, 0);
            assert!(!frame.stale);
        }
        other => panic!("{:?}", other),
    }
}

#[test]
fn short_datagrams_are_dropped_with_a_note() {
    let mut supervisor = streaming();
    let step = supervisor.step(Event::Datagram(vec![1u8; 231]));
    assert_eq!(
        step,
        Step {
            action: Action::Receive { buffer_size: 512 },
            report: Some(Report::PacketTooSmall { received: 231, expected: 232 }),
        }
    );
    assert_eq!(supervisor.tracker().staleness(), 0);
    let step = supervisor.step(Event::Datagram(vec![]));
    assert_eq!(step.report, Some(Report::PacketTooSmall { received: 0, expected: 232 }));
    assert_eq!(supervisor.connection(), ConnectionState::Streaming);
    assert!(supervisor.holds_listener());
}

#[test]
fn the_tracker_starts_afresh_with_every_bind() {
    let mut supervisor = streaming();
    supervisor.step(Event::Datagram(forza(1, 1500.0, 7000.0, 800.0)));
    supervisor.step(Event::Forwarded);
    assert_eq!(f32::from_bits(supervisor.tracker().state().0.bits), 1500.0);
    supervisor.step(Event::ReceiveFailed);
    assert_eq!(supervisor.tracker().reading(), TelemetryReading::sentinel());
    for _ in 0..20 {
        supervisor.step(tick());
    }
    supervisor.step(control(GameType::ForzaHorizon5, 9999));
    supervisor.step(Event::Enumerated(vec![WHEEL]));
    supervisor.step(Event::Opened);
    supervisor.step(Event::Bound);
    assert_eq!(supervisor.tracker().reading(), TelemetryReading::sentinel());
    assert_eq!(supervisor.tracker().staleness(), 0);
}

#[test]
fn a_changed_configuration_starts_a_new_session() {
    let mut supervisor = at_bind();
    supervisor.step(Event::BindFailed);
    for _ in 0..50 {
        supervisor.step(tick());
    }
    assert!(supervisor.holds_device());
    let step = supervisor.step(control(GameType::DirtRally2, 20777));
    assert_eq!(
        step,
        Step {
            action: Action::Enumerate,
            report: Some(Report::Switched { game: GameType::DirtRally2, port: 20777 }),
        }
    );
    assert_eq!(supervisor.game(), GameType::DirtRally2);
    assert_eq!(supervisor.port(), 20777);
    assert_eq!(supervisor.connection(), ConnectionState::Searching);
    assert!(!supervisor.holds_device());
    assert!(!supervisor.holds_listener());
    supervisor.step(Event::Enumerated(vec![WHEEL]));
    let step = supervisor.step(Event::Opened);
    assert_eq!(step.action, Action::BindListener { port: 20777 });
    let step = supervisor.step(Event::Bound);
    assert_eq!(
        step.report,
        Some(Report::Listening { game: GameType::DirtRally2, port: 20777 })
    );
    let step = supervisor.step(Event::Datagram(dirt(1500.0, 7000.0, 800.0)));
    assert!(matches!(step.action, Action::Forward(_)));
}

#[test]
fn a_changed_port_alone_starts_a_new_session() {
    let mut supervisor = Supervisor::new(GameType::DirtRally2, 20777, false);
    let step = supervisor.step(control(GameType::DirtRally2, 20778));
    assert_eq!(
        step,
        Step {
            action: Action::Enumerate,
            report: Some(Report::Switched { game: GameType::DirtRally2, port: 20778 }),
        }
    );
    assert_eq!(supervisor.port(), 20778);
}

#[test]
fn the_receive_buffer_is_never_smaller_than_the_packet() {
    for game in [GameType::DirtRally2, GameType::ForzaHorizon5] {
        let mut supervisor = Supervisor::new(game, 1, false);
        supervisor.step(control(game, 1));
        supervisor.step(Event::Enumerated(vec![WHEEL]));
        supervisor.step(Event::Opened);
        let step = supervisor.step(Event::Bound);
        assert_eq!(step.action, Action::Receive { buffer_size: 512 });
    }
}

#[test]
fn reports_for_the_status_line() {
    let line = |connected, error| Some(WheelStatus { connected, error });
    assert_eq!(Report::Searching.wheel_status(), line(false, Some("Searching...")));
    assert_eq!(Report::NotFound.wheel_status(), line(false, Some("Not found")));
    assert_eq!(Report::DeviceRequired.wheel_status(), line(false, Some("Not found")));
    assert_eq!(Report::Connected.wheel_status(), line(true, None));
    assert_eq!(Report::ConnectionFailed.wheel_status(), line(false, Some("Connection failed")));
    assert_eq!(
        Report::Failure(FailureKind::SocketBind).wheel_status(),
        line(false, Some("UDP Error"))
    );
    assert_eq!(
        Report::Failure(FailureKind::DeviceLost).wheel_status(),
        line(false, Some("Disconnected"))
    );
    assert_eq!(Report::Listening { game: GameType::DirtRally2, port: 1 }.wheel_status(), None);
    assert_eq!(Report::PacketTooSmall { received: 1, expected: 2 }.wheel_status(), None);
    assert_eq!(Report::Switched { game: GameType::DirtRally2, port: 1 }.wheel_status(), None);
}

#[test]
fn failure_messages() {
    assert_eq!(
        FailureKind::SocketBind.status_message(),
        "UDP Socket Error - retrying in 5 seconds..."
    );
    assert_eq!(
        FailureKind::DeviceLost.status_message(),
        "G27 connection lost - retrying in 2 seconds..."
    );
}

#[test]
fn a_failed_listing_counts_as_a_lost_device() {
    let mut supervisor = Supervisor::new(GameType::DirtRally2, 20777, true);
    supervisor.step(control(GameType::DirtRally2, 20777));
    let step = supervisor.step(Event::EnumerationFailed);
    assert_eq!(
        step,
        Step { action: Action::Wait, report: Some(Report::Failure(FailureKind::DeviceLost)) }
    );
    assert_eq!(
        supervisor.connection(),
        ConnectionState::RecoverableError(FailureKind::DeviceLost)
    );
    assert_eq!(supervisor.ticks_left(), 20);
    for _ in 0..20 {
        supervisor.step(tick());
    }
    let step = supervisor.step(control(GameType::DirtRally2, 20777));
    assert_eq!(step.action, Action::Enumerate);
    // No search has come back yet, so the requirement still holds.
    let step = supervisor.step(Event::Enumerated(vec![MOUSE]));
    assert_eq!(step.action, Action::Halt(HaltReason::DeviceRequired));
}

#[test]
fn failures_are_classified_by_what_was_waited_for() {
    let supervisor = at_bind();
    assert_eq!(supervisor.classify(&Event::BindFailed), Some(FailureKind::SocketBind));
    assert_eq!(supervisor.classify(&Event::ReceiveFailed), None);
    assert_eq!(supervisor.classify(&Event::DriverFailed), None);
    assert_eq!(supervisor.classify(&Event::EnumerationFailed), None);
    assert_eq!(supervisor.classify(&Event::OpenFailed), None);
    assert_eq!(supervisor.classify(&Event::Bound), None);

    let mut supervisor = streaming();
    assert_eq!(supervisor.classify(&Event::ReceiveFailed), Some(FailureKind::DeviceLost));
    assert_eq!(supervisor.classify(&Event::BindFailed), None);
    assert_eq!(supervisor.classify(&Event::DriverFailed), None);
    supervisor.step(Event::Datagram(forza(1, 1500.0, 7000.0, 800.0)));
    assert_eq!(supervisor.classify(&Event::DriverFailed), Some(FailureKind::DeviceLost));
    assert_eq!(supervisor.classify(&Event::ReceiveFailed), None);
    assert_eq!(supervisor.classify(&Event::Forwarded), None);

    let mut supervisor = Supervisor::new(GameType::DirtRally2, 20777, false);
    assert_eq!(supervisor.classify(&Event::EnumerationFailed), None);
    supervisor.step(control(GameType::DirtRally2, 20777));
    assert_eq!(supervisor.classify(&Event::EnumerationFailed), Some(FailureKind::DeviceLost));
    assert_eq!(supervisor.classify(&Event::Enumerated(vec![])), None);
    supervisor.step(Event::Enumerated(vec![WHEEL]));
    assert_eq!(supervisor.classify(&Event::OpenFailed), None);
}
