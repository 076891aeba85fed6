use mitsusplit::connection::AddressInfo;
use mitsusplit::connection::ConnectError;
use mitsusplit::connection::ConnectionState;
use mitsusplit::connection::DriverScript;
use mitsusplit::diagnostics::DiagResponse;
use mitsusplit::diagnostics::dispatch;
use mitsusplit::indicator::IndicatorPhase;
use mitsusplit::indicator::Rgb;
use mitsusplit::indicator::brightness_duties;
use mitsusplit::indicator::color_duties;
use mitsusplit::indicator::duty_for_level;
use mitsusplit::indicator::phase_color;
use mitsusplit::provisioning::mixed_mode_credential;
use mitsusplit::selector::BootError;
use mitsusplit::selector::Mode;
use mitsusplit::selector::boot_sequence;
use mitsusplit::selector::select_mode;

fn addr() -> AddressInfo {
    AddressInfo { address: 0x0A000002, gateway: 0x0A000001 }
}

fn good_script() -> DriverScript {
    DriverScript {
        scan: Vec::new(),
        statuses: vec![
            ConnectionState::Associating,
            ConnectionState::Connected(addr()),
            ConnectionState::Idle,
        ],
        probe_transmitted: 4,
        probe_received: 4,
    }
}

#[test]
fn stored_credential_skips_provisioning() {
    let r = boot_sequence(
        Some("home".to_string()),
        Some("secret".to_string()),
        &Vec::new(),
        None,
        None,
        good_script(),
        3,
    );
    assert!(!r.ran_provisioning);
    assert!(r.attempted_connection);
    assert_eq!(r.used.as_ref().map(|c| c.network_id.as_str()), Some("home"));
    assert_eq!(r.outcome, Ok(addr()));
    assert_eq!(r.probes, 1);
    assert_eq!(
        r.phases,
        vec![IndicatorPhase::Idle, IndicatorPhase::Connecting, IndicatorPhase::Connected]
    );
}

#[test]
fn credential_written_during_window_is_used() {
    // nothing stored at boot; an operator writes a credential while the
    // provisioning window is open, so the re-check after expiry finds it
    let r = boot_sequence(
        None,
        None,
        &Vec::new(),
        Some("home".to_string()),
        Some("secret".to_string()),
        good_script(),
        3,
    );
    assert!(r.ran_provisioning);
    assert!(r.attempted_connection);
    assert_eq!(r.used.as_ref().map(|c| c.secret.as_str()), Some("secret"));
    assert_eq!(r.outcome, Ok(addr()));
    assert_eq!(
        r.phases,
        vec![
            IndicatorPhase::Idle,
            IndicatorPhase::ProvisioningPending,
            IndicatorPhase::Connecting,
            IndicatorPhase::Connected,
        ]
    );
}

#[test]
fn no_credential_after_window_is_fatal() {
    let r = boot_sequence(None, None, &Vec::new(), None, Some("secret".to_string()), good_script(), 3);
    assert!(r.ran_provisioning);
    assert!(!r.attempted_connection);
    assert!(r.used.is_none());
    assert_eq!(r.outcome, Err(BootError::NotProvisioned));
    assert_eq!(r.probes, 0);
    assert_eq!(r.phases, vec![IndicatorPhase::Idle, IndicatorPhase::ProvisioningPending]);
}

#[test]
fn failed_connection_surfaces_its_reason() {
    let script = DriverScript {
        scan: Vec::new(),
        statuses: vec![ConnectionState::Transitional, ConnectionState::Transitional],
        probe_transmitted: 4,
        probe_received: 4,
    };
    let r = boot_sequence(
        Some("home".to_string()),
        Some("secret".to_string()),
        &Vec::new(),
        None,
        None,
        script,
        2,
    );
    assert_eq!(r.outcome, Err(BootError::Connect(ConnectError::Timeout)));
    assert_eq!(r.phases, vec![IndicatorPhase::Idle, IndicatorPhase::Connecting]);
}

#[test]
fn mode_follows_the_store() {
    assert!(matches!(select_mode(None), Mode::Provision));
    let c = mixed_mode_credential();
    match select_mode(Some(c)) {
        Mode::Connect(c2) => assert_eq!(c2.network_id, "mitsusplit"),
        Mode::Provision => panic!("a stored credential must connect"),
    }
}

#[test]
fn mixed_mode_defaults_are_fixed() {
    let c = mixed_mode_credential();
    assert_eq!(c.network_id, "mitsusplit");
    assert_eq!(c.secret, "mitsubishi");
}

#[test]
fn phase_colors() {
    assert_eq!(phase_color(IndicatorPhase::Idle), Rgb { red: 0x10, green: 0x00, blue: 0x00 });
    assert_eq!(
        phase_color(IndicatorPhase::ProvisioningPending),
        Rgb { red: 0x10, green: 0x10, blue: 0x00 }
    );
    assert_eq!(
        phase_color(IndicatorPhase::Connecting),
        Rgb { red: 0x10, green: 0x10, blue: 0x00 }
    );
    assert_eq!(phase_color(IndicatorPhase::Connected), Rgb { red: 0x00, green: 0x10, blue: 0x00 });
}

#[test]
fn duty_scales_by_level() {
    assert_eq!(duty_for_level(1023, 0), 0);
    assert_eq!(duty_for_level(1023, 255), 1023);
    assert_eq!(duty_for_level(1023, 128), 513);
    assert_eq!(color_duties(1023, Rgb { red: 255, green: 0, blue: 128 }), (1023, 0, 513));
    assert_eq!(brightness_duties(1023, 255, 0), (1023, 0));
}

#[test]
fn diagnostic_routes() {
    match dispatch("/") {
        DiagResponse::Greeting { body } => assert_eq!(body, "Hello from Rust!"),
        _ => panic!("root route must greet"),
    }
    match dispatch("/foo") {
        DiagResponse::Failure { message } => assert_eq!(message, "Boo, something happened!"),
        _ => panic!("the error route must fail"),
    }
    match dispatch("/bar") {
        DiagResponse::Denied { status, status_message, body } => {
            assert_eq!(status, 403);
            assert_eq!(status_message, "No permissions");
            assert_eq!(body, "You have no permissions to access this page");
        },
        _ => panic!("the denied route must deny"),
    }
    assert!(matches!(dispatch("/panic"), DiagResponse::Crash));
    assert!(matches!(dispatch("/baz"), DiagResponse::NotFound));
}
