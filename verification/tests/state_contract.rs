use squaregolf_connector::api::ConfigUpdate;
use squaregolf_connector::config::AppConfig;
use squaregolf_connector::protocol::parser::decode_shot_ball_metrics;
use squaregolf_connector::state::{
    AppStatus, ConnectionStatus, DeviceStatus, SimulatorStatus, SquareLaunchStatus,
};

fn no_update() -> ConfigUpdate {
    ConfigUpdate {
        gspro_enabled: None,
        gspro_host: None,
        gspro_port: None,
        infinite_tees_enabled: None,
        infinite_tees_host: None,
        infinite_tees_port: None,
        squarelaunch_enabled: None,
        squarelaunch_ws_host: None,
        squarelaunch_ws_port: None,
    }
}

#[test]
fn status_reports_the_configuration_it_started_with() {
    let config = AppConfig {
        api_port: 5177,
        squarelaunch_ws_host: Some("sl.local".to_string()),
        gspro_enabled: true,
        ..Default::default()
    };
    let status = AppStatus::from_config(&config);
    assert_eq!(status.api_port, 5177);
    assert_eq!(status.device.connection_status, ConnectionStatus::Disconnected);
    assert_eq!(status.gspro.connection_status, ConnectionStatus::Disconnected);
    assert!(status.gspro.enabled);
    assert_eq!(status.squarelaunch.host.as_deref(), Some("sl.local"));
    assert_eq!(status.current_config(), config);
}

#[test]
fn config_update_changes_named_settings_only() {
    let mut status = AppStatus::from_config(&AppConfig::default());
    status.gspro.connection_status = ConnectionStatus::Connected;
    status.gspro.last_shot_number = Some(4);
    let update = ConfigUpdate {
        gspro_enabled: Some(true),
        gspro_host: Some("  192.168.1.50 ".to_string()),
        gspro_port: Some(0),
        infinite_tees_host: Some("   ".to_string()),
        squarelaunch_ws_host: Some(" ".to_string()),
        squarelaunch_ws_port: Some(3030),
        ..no_update()
    };
    status.apply_config_update(&update);
    assert!(status.gspro.enabled);
    assert_eq!(status.gspro.host, "192.168.1.50");
    assert_eq!(status.gspro.port, 1);
    assert_eq!(status.gspro.connection_status, ConnectionStatus::Connected);
    assert_eq!(status.gspro.last_shot_number, Some(4));
    assert_eq!(status.infinite_tees.host, "127.0.0.1");
    assert_eq!(status.squarelaunch.host, None);
    assert_eq!(status.squarelaunch.port, 3030);
    assert_eq!(status.api_port, 8080);
}

#[test]
fn empty_update_and_repeated_update() {
    let start = AppStatus::from_config(&AppConfig::default());
    let mut status = start.clone();
    status.apply_config_update(&no_update());
    assert_eq!(status, start);

    let update = ConfigUpdate {
        infinite_tees_host: Some(" 10.0.0.3 ".to_string()),
        infinite_tees_port: Some(1999),
        squarelaunch_ws_host: Some("sl.local".to_string()),
        ..no_update()
    };
    let mut once = start.clone();
    once.apply_config_update(&update);
    let mut twice = once.clone();
    twice.apply_config_update(&update);
    assert_eq!(once, twice);
    assert_eq!(once.infinite_tees.host, "10.0.0.3");
}

#[test]
fn simulator_events() {
    let mut s = SimulatorStatus {
        enabled: true,
        connection_status: ConnectionStatus::Disconnected,
        host: "127.0.0.1".to_string(),
        port: 921,
        last_error: Some("old".to_string()),
        last_shot_number: None,
    };
    s.mark_connecting();
    assert_eq!(s.connection_status, ConnectionStatus::Connecting);
    assert_eq!(s.last_error, None);
    s.mark_connected();
    assert_eq!(s.connection_status, ConnectionStatus::Connected);
    s.record_shot(3);
    assert_eq!(s.last_shot_number, Some(3));
    s.mark_failed("broken pipe".to_string());
    assert_eq!(s.connection_status, ConnectionStatus::Error);
    assert_eq!(s.last_error.as_deref(), Some("broken pipe"));
    s.mark_disconnected();
    assert_eq!(s.connection_status, ConnectionStatus::Disconnected);
    assert_eq!(s.host, "127.0.0.1");
    assert_eq!(s.port, 921);
}

#[test]
fn squarelaunch_events() {
    let mut s = SquareLaunchStatus {
        enabled: true,
        connection_status: ConnectionStatus::Disconnected,
        host: None,
        port: 2920,
        last_error: None,
        last_shot_number: None,
    };
    s.mark_scanning();
    assert_eq!(s.connection_status, ConnectionStatus::Scanning);
    s.record_discovery("192.168.68.58".to_string(), 2920);
    assert_eq!(s.host.as_deref(), Some("192.168.68.58"));
    s.mark_connecting();
    s.mark_connected();
    assert_eq!(s.connection_status, ConnectionStatus::Connected);
    s.record_shot(12);
    assert_eq!(s.last_shot_number, Some(12));
    s.record_ignored_message("\"calibration\"");
    assert_eq!(s.last_error.as_deref(), Some("ignored unknown SquareLaunch message \"calibration\""));
    s.record_message_error("missing shot_number".to_string());
    assert_eq!(s.last_error.as_deref(), Some("missing shot_number"));
    s.record_read_failure("connection reset");
    assert_eq!(s.last_error.as_deref(), Some("SquareLaunch websocket read failed: connection reset"));
    s.mark_connect_failed("refused");
    assert_eq!(s.connection_status, ConnectionStatus::Error);
    assert_eq!(s.last_error.as_deref(), Some("SquareLaunch websocket connect failed: refused"));
    s.mark_failed("no service".to_string());
    assert_eq!(s.last_error.as_deref(), Some("no service"));
    s.mark_disconnected();
    assert_eq!(s.connection_status, ConnectionStatus::Disconnected);
}

#[test]
fn device_events() {
    let mut d = DeviceStatus {
        connection_status: ConnectionStatus::Disconnected,
        device_name: None,
        battery_level: None,
        last_error: None,
        last_ball_metrics: None,
    };
    d.mark_emulator_connected(None);
    assert_eq!(d.device_name.as_deref(), Some("SquareGolf Emulator"));
    assert_eq!(d.battery_level, Some(100));
    d.mark_disconnected();
    assert_eq!(d.device_name, None);
    assert_eq!(d.battery_level, None);
    d.mark_emulator_connected(Some("Bench".to_string()));
    assert_eq!(d.device_name.as_deref(), Some("Bench"));
    d.mark_scanning();
    assert_eq!(d.connection_status, ConnectionStatus::Scanning);
    d.mark_connecting();
    d.mark_connected("SquareGolf A1".to_string());
    assert_eq!(d.connection_status, ConnectionStatus::Connected);
    d.record_battery(&[77, 1]);
    assert_eq!(d.battery_level, Some(77));
    d.record_battery(&[]);
    assert_eq!(d.battery_level, Some(77));
    d.record_error("parse ball metrics", "insufficient data for parsing ball metrics");
    assert_eq!(
        d.last_error.as_deref(),
        Some("parse ball metrics: insufficient data for parsing ball metrics")
    );
    let metrics = decode_shot_ball_metrics(&[
        "11", "02", "37", "64", "00", "C8", "00", "2C", "01", "E8", "03", "F4", "01", "D0", "07",
        "B8", "0B",
    ])
    .unwrap();
    d.record_ball(&metrics);
    let ball = d.last_ball_metrics.clone().unwrap();
    assert_eq!(ball.speed_mps_x100, 100);
    assert_eq!(ball.launch_angle_x100, 200);
    assert_eq!(ball.total_spin_rpm, 1000);
    d.mark_connection_lost();
    assert_eq!(d.connection_status, ConnectionStatus::Disconnected);
    assert_eq!(d.device_name.as_deref(), Some("SquareGolf A1"));
    d.mark_failed("no adapter".to_string());
    assert_eq!(d.connection_status, ConnectionStatus::Error);
}
