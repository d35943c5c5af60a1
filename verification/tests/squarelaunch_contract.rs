use squaregolf_connector::discovery::DiscoveredSquareLaunchEndpoint;
use squaregolf_connector::squarelaunch::{
    message_kind, required_unsigned_field, shot_number_from_text, squarelaunch_step, ws_url_of,
    LinkAction, LinkEvent, SquareLaunchMessageKind,
};
use squaregolf_connector::state::{ConnectionStatus, SquareLaunchStatus};
use squaregolf_connector::json::{JsonField, JsonScalar};

#[test]
fn message_types_are_classified() {
    assert_eq!(message_kind("shot"), SquareLaunchMessageKind::Shot);
    assert_eq!(message_kind("status"), SquareLaunchMessageKind::Status);
    assert_eq!(message_kind("Shot"), SquareLaunchMessageKind::Other("Shot".to_string()));
    assert_eq!(message_kind("calibration"), SquareLaunchMessageKind::Other("calibration".to_string()));
}

#[test]
fn shot_number_is_read_from_the_message() {
    assert_eq!(
        shot_number_from_text(r#"{"type":"shot","shot_number":7,"ball_speed_meters_per_second":10.0}"#),
        Ok(7)
    );
    assert_eq!(shot_number_from_text(r#"{"type":"shot"}"#).unwrap_err(), "missing shot_number");
    assert_eq!(
        shot_number_from_text(r#"{"type":"shot","shot_number":-1}"#).unwrap_err(),
        "shot_number must be an unsigned integer"
    );
    assert_eq!(
        shot_number_from_text(r#"{"type":"shot","shot_number":"7"}"#).unwrap_err(),
        "shot_number must be an unsigned integer"
    );
    let err = shot_number_from_text("{").unwrap_err();
    assert!(err.starts_with("invalid SquareLaunch shot JSON: "), "{err}");
}

#[test]
fn json_members_are_read_by_name() {
    let fields = vec![
        JsonField { name: "a".to_string(), value: JsonScalar::Unsigned(1) },
        JsonField { name: "b".to_string(), value: JsonScalar::Flag(true) },
        JsonField { name: "c".to_string(), value: JsonScalar::Text("x".to_string()) },
        JsonField { name: "d".to_string(), value: JsonScalar::Other },
    ];
    assert_eq!(required_unsigned_field(&fields, "a"), Ok(1));
    assert_eq!(required_unsigned_field(&fields, "b").unwrap_err(), "b must be an unsigned integer");
    assert_eq!(required_unsigned_field(&fields, "d").unwrap_err(), "d must be an unsigned integer");
    assert_eq!(required_unsigned_field(&fields, "z").unwrap_err(), "missing z");
}

fn idle() -> SquareLaunchStatus {
    SquareLaunchStatus {
        enabled: true,
        connection_status: ConnectionStatus::Disconnected,
        host: None,
        port: 2920,
        last_error: None,
        last_shot_number: Some(3),
    }
}

#[test]
fn configured_endpoint_is_opened_directly() {
    let mut s = idle();
    let host = Some("127.0.0.1".to_string());
    let action = squarelaunch_step(&host, 4040, &mut s, LinkEvent::Begin);
    assert_eq!(action, LinkAction::Open("ws://127.0.0.1:4040".to_string()));
    assert_eq!(s.connection_status, ConnectionStatus::Connecting);
    assert_eq!(squarelaunch_step(&host, 4040, &mut s, LinkEvent::Opened), LinkAction::Pump);
    assert_eq!(s.connection_status, ConnectionStatus::Connected);
    assert_eq!(squarelaunch_step(&host, 4040, &mut s, LinkEvent::Closed), LinkAction::Retry(750));
    assert_eq!(s.connection_status, ConnectionStatus::Disconnected);
    assert_eq!(s.last_shot_number, Some(3));
}

#[test]
fn unconfigured_endpoint_is_discovered_first() {
    let mut s = idle();
    assert_eq!(squarelaunch_step(&None, 2920, &mut s, LinkEvent::Begin), LinkAction::Discover);
    assert_eq!(s.connection_status, ConnectionStatus::Scanning);
    let found = DiscoveredSquareLaunchEndpoint { host: "192.168.68.58".to_string(), port: 2920 };
    assert_eq!(
        squarelaunch_step(&None, 2920, &mut s, LinkEvent::Discovered(found)),
        LinkAction::Open("ws://192.168.68.58:2920".to_string())
    );
    assert_eq!(s.host.as_deref(), Some("192.168.68.58"));
    assert_eq!(
        squarelaunch_step(&None, 2920, &mut s, LinkEvent::OpenFailed("refused".to_string())),
        LinkAction::Retry(750)
    );
    assert_eq!(s.connection_status, ConnectionStatus::Disconnected);
    assert_eq!(s.last_error.as_deref(), Some("SquareLaunch websocket connect failed: refused"));
    assert_eq!(
        squarelaunch_step(&None, 2920, &mut s, LinkEvent::DiscoveryFailed("timed out".to_string())),
        LinkAction::Retry(2000)
    );
    assert_eq!(s.connection_status, ConnectionStatus::Error);
    assert_eq!(s.last_error.as_deref(), Some("timed out"));
    assert_eq!(
        squarelaunch_step(&None, 2920, &mut s, LinkEvent::DiscoveryTaskFailed("panicked".to_string())),
        LinkAction::Retry(2000)
    );
    assert_eq!(s.last_error.as_deref(), Some("SquareLaunch discovery task failed: panicked"));
    assert_eq!(ws_url_of("h", 1), "ws://h:1");
}
