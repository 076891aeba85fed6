use mitsusplit::connection::AccessPointRecord;
use mitsusplit::connection::AddressInfo;
use mitsusplit::connection::ConnectError;
use mitsusplit::connection::ConnectionState;
use mitsusplit::connection::ControllerPhase;
use mitsusplit::connection::DriverEvent;
use mitsusplit::connection::DriverScript;
use mitsusplit::connection::channel_hint;
use mitsusplit::connection::connect;
use mitsusplit::connection::probe_verdict;
use mitsusplit::connection::step;

fn record(ssid: &str, signal_strength: u8, channel: u8) -> AccessPointRecord {
    AccessPointRecord { ssid: ssid.to_string(), signal_strength, channel }
}

fn addr() -> AddressInfo {
    AddressInfo { address: 0xC0A80117, gateway: 0xC0A80101 }
}

fn script(statuses: Vec<ConnectionState>, transmitted: u32, received: u32) -> DriverScript {
    DriverScript { scan: Vec::new(), statuses, probe_transmitted: transmitted, probe_received: received }
}

#[test]
fn hint_of_first_matching_record() {
    let scan = vec![record("other", 10, 3), record("home", 20, 6), record("home", 30, 11)];
    assert_eq!(channel_hint(&scan, &"home".to_string()), Some(6));
}

#[test]
fn no_hint_without_match() {
    let scan = vec![record("other", 10, 3)];
    assert_eq!(channel_hint(&scan, &"home".to_string()), None);
    assert_eq!(channel_hint(&Vec::new(), &"home".to_string()), None);
}

#[test]
fn connects_and_probes_exactly_once() {
    let statuses = vec![
        ConnectionState::Associating,
        ConnectionState::AwaitingAddress,
        ConnectionState::Connected(addr()),
        ConnectionState::Transitional,
        ConnectionState::Transitional,
    ];
    let (outcome, probes) = connect(&"home".to_string(), 5, script(statuses, 4, 4));
    assert_eq!(outcome, Ok(addr()));
    assert_eq!(probes, 1);
}

#[test]
fn still_transitional_past_deadline_times_out() {
    let statuses = vec![ConnectionState::Transitional; 25];
    let (outcome, probes) = connect(&"home".to_string(), 20, script(statuses, 4, 4));
    assert_eq!(outcome, Err(ConnectError::Timeout));
    assert_eq!(probes, 0);
}

#[test]
fn settled_non_connected_is_unexpected() {
    let statuses = vec![
        ConnectionState::Associating,
        ConnectionState::Failed(7),
        ConnectionState::Connected(addr()),
    ];
    let (outcome, probes) = connect(&"home".to_string(), 3, script(statuses, 4, 4));
    assert_eq!(outcome, Err(ConnectError::UnexpectedStatus));
    assert_eq!(probes, 0);
}

#[test]
fn idle_status_is_unexpected_too() {
    let statuses = vec![ConnectionState::Idle, ConnectionState::Idle];
    let (outcome, probes) = connect(&"home".to_string(), 2, script(statuses, 4, 4));
    assert_eq!(outcome, Err(ConnectError::UnexpectedStatus));
    assert_eq!(probes, 0);
}

#[test]
fn all_probes_lost_is_unreachable() {
    let statuses = vec![ConnectionState::Connected(addr()), ConnectionState::Idle];
    let (outcome, probes) = connect(&"home".to_string(), 2, script(statuses, 4, 0));
    assert_eq!(outcome, Err(ConnectError::GatewayUnreachable));
    assert_eq!(probes, 1);
}

#[test]
fn partial_probe_loss_is_tolerated() {
    for received in 1..=3 {
        let statuses = vec![ConnectionState::Connected(addr()), ConnectionState::Idle];
        let (outcome, probes) = connect(&"home".to_string(), 2, script(statuses, 4, received));
        assert_eq!(outcome, Ok(addr()));
        assert_eq!(probes, 1);
    }
}

#[test]
fn probe_verdict_four_sent_four_lost() {
    assert_eq!(probe_verdict(4, 0), Err(ConnectError::GatewayUnreachable));
}

#[test]
fn probe_verdict_four_sent_some_received() {
    assert_eq!(probe_verdict(4, 1), Ok(()));
    assert_eq!(probe_verdict(4, 2), Ok(()));
    assert_eq!(probe_verdict(4, 3), Ok(()));
    assert_eq!(probe_verdict(4, 4), Ok(()));
}

#[test]
fn scan_event_fixes_the_hint() {
    let scan = vec![record("home", 20, 6)];
    let next = step(ControllerPhase::Scanning, DriverEvent::ScanDone(scan), &"home".to_string(), 20);
    assert!(matches!(next, ControllerPhase::Configuring { hint: Some(6) }));
}

#[test]
fn configured_event_starts_the_wait() {
    let next = step(
        ControllerPhase::Configuring { hint: None },
        DriverEvent::Configured,
        &"home".to_string(),
        20,
    );
    assert!(matches!(next, ControllerPhase::Waiting { elapsed: 0 }));
}

#[test]
fn transitional_poll_keeps_waiting() {
    let next = step(
        ControllerPhase::Waiting { elapsed: 3 },
        DriverEvent::Polled(ConnectionState::Associating),
        &"home".to_string(),
        20,
    );
    assert!(matches!(next, ControllerPhase::Waiting { elapsed: 4 }));
}

#[test]
fn last_transitional_poll_times_out() {
    let next = step(
        ControllerPhase::Waiting { elapsed: 19 },
        DriverEvent::Polled(ConnectionState::Transitional),
        &"home".to_string(),
        20,
    );
    assert!(matches!(
        next,
        ControllerPhase::Complete { result: Err(ConnectError::Timeout) }
    ));
}

#[test]
fn unanswered_event_leaves_the_phase() {
    let next = step(
        ControllerPhase::Waiting { elapsed: 2 },
        DriverEvent::Configured,
        &"home".to_string(),
        20,
    );
    assert!(matches!(next, ControllerPhase::Waiting { elapsed: 2 }));
}

#[test]
fn transitional_states() {
    assert!(ConnectionState::Associating.is_transitional());
    assert!(ConnectionState::AwaitingAddress.is_transitional());
    assert!(ConnectionState::Transitional.is_transitional());
    assert!(!ConnectionState::Idle.is_transitional());
    assert!(!ConnectionState::Connected(addr()).is_transitional());
    assert!(!ConnectionState::Failed(3).is_transitional());
}
