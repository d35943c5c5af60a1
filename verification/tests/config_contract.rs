use squaregolf_connector::config::{
    config_from_json_fields, env_truthy, env_value, parse_port, AppConfig, ConfigStore,
};
use squaregolf_connector::json::{JsonField, JsonScalar};

#[test]
fn api_port_defaults_to_8080() {
    let cfg = AppConfig::from_iter_and_env(&["squaregolf-connector"], &[]).expect("default config");

    assert_eq!(cfg.api_port, 8080);
}

#[test]
fn api_port_can_be_set_by_cli() {
    let cfg = AppConfig::from_iter_and_env(
        &["squaregolf-connector", "--api-port", "5177"],
        &[("SQUAREGOLF_API_PORT", "8081")],
    )
    .expect("cli config");

    assert_eq!(cfg.api_port, 5177);
}

#[test]
fn api_port_can_be_set_by_env_when_cli_omits_it() {
    let cfg = AppConfig::from_iter_and_env(&["squaregolf-connector"], &[("SQUAREGOLF_API_PORT", "9090")])
        .expect("env config");

    assert_eq!(cfg.api_port, 9090);
}

#[test]
fn invalid_api_port_is_rejected() {
    let err = AppConfig::from_iter_and_env(&["squaregolf-connector", "--api-port", "70000"], &[])
        .expect_err("port should be invalid");

    assert!(err.contains("api port"));
}

#[test]
fn simulator_endpoints_can_be_set_by_cli() {
    let cfg = AppConfig::from_iter_and_env(
        &[
            "squaregolf-connector",
            "--enable-gspro",
            "--gspro-host",
            "192.168.1.20",
            "--gspro-port",
            "921",
            "--enable-it",
            "--it-host",
            "192.168.1.21",
            "--it-port",
            "999",
        ],
        &[],
    )
    .expect("sim config");

    assert!(cfg.gspro_enabled);
    assert_eq!(cfg.gspro_host, "192.168.1.20");
    assert_eq!(cfg.gspro_port, 921);
    assert!(cfg.infinite_tees_enabled);
    assert_eq!(cfg.infinite_tees_host, "192.168.1.21");
    assert_eq!(cfg.infinite_tees_port, 999);
}

#[test]
fn config_store_loads_legacy_go_settings() {
    let store = ConfigStore::new("/tmp/squaregolf-config-legacy/config.json".to_string());
    let cfg = store
        .config_from_text(
            r#"{
            "gsproIP": "192.168.1.30",
            "gsproPort": 1921,
            "gsproAutoConnect": true,
            "infiniteTeesIP": "192.168.1.31",
            "infiniteTeesPort": 1999,
            "infiniteTeesAutoConnect": true
        }"#,
        )
        .expect("load config");

    assert_eq!(cfg.gspro_host, "192.168.1.30");
    assert_eq!(cfg.gspro_port, 1921);
    assert!(cfg.gspro_enabled);
    assert_eq!(cfg.infinite_tees_host, "192.168.1.31");
    assert_eq!(cfg.infinite_tees_port, 1999);
    assert!(cfg.infinite_tees_enabled);
}

#[test]
fn cli_and_env_override_persisted_base_config() {
    let cfg = AppConfig::from_iter_env_and_base(
        &["squaregolf-connector", "--gspro-host", "10.0.0.10", "--enable-gspro"],
        &[("SQUAREGOLF_API_PORT", "9091")],
        AppConfig {
            gspro_host: "192.168.1.30".to_string(),
            gspro_port: 1921,
            infinite_tees_host: "192.168.1.31".to_string(),
            infinite_tees_enabled: true,
            ..Default::default()
        },
    )
    .expect("merged config");

    assert_eq!(cfg.api_port, 9091);
    assert_eq!(cfg.gspro_host, "10.0.0.10");
    assert_eq!(cfg.gspro_port, 1921);
    assert!(cfg.gspro_enabled);
    assert_eq!(cfg.infinite_tees_host, "192.168.1.31");
    assert!(cfg.infinite_tees_enabled);
}

#[test]
fn default_config_values() {
    let cfg = AppConfig::default();
    assert_eq!(cfg.api_port, 8080);
    assert_eq!(cfg.gspro_host, "127.0.0.1");
    assert_eq!(cfg.gspro_port, 921);
    assert!(!cfg.gspro_enabled);
    assert_eq!(cfg.infinite_tees_host, "127.0.0.1");
    assert_eq!(cfg.infinite_tees_port, 999);
    assert!(!cfg.infinite_tees_enabled);
    assert_eq!(cfg.squarelaunch_ws_host, None);
    assert_eq!(cfg.squarelaunch_ws_port, 2920);
    assert!(!cfg.squarelaunch_enabled);
}

#[test]
fn environment_variables_set_every_field() {
    let cfg = AppConfig::from_iter_and_env(
        &["squaregolf-connector"],
        &[
            ("SQUARELAUNCH_WS_HOST", " 10.1.1.1 "),
            ("SQUARELAUNCH_WS_PORT", "3030"),
            ("SQUARELAUNCH_WS", "yes"),
            ("GSPRO_HOST", "10.1.1.2"),
            ("GSPRO_PORT", "1921"),
            ("GSPRO_ENABLED", "1"),
            ("INFINITE_TEES_HOST", "10.1.1.3"),
            ("INFINITE_TEES_PORT", "1999"),
            ("INFINITE_TEES_ENABLED", "off"),
        ],
    )
    .expect("env config");
    assert_eq!(cfg.squarelaunch_ws_host.as_deref(), Some("10.1.1.1"));
    assert_eq!(cfg.squarelaunch_ws_port, 3030);
    assert!(cfg.squarelaunch_enabled);
    assert_eq!(cfg.gspro_host, "10.1.1.2");
    assert_eq!(cfg.gspro_port, 1921);
    assert!(cfg.gspro_enabled);
    assert_eq!(cfg.infinite_tees_host, "10.1.1.3");
    assert_eq!(cfg.infinite_tees_port, 1999);
    assert!(!cfg.infinite_tees_enabled);
}

#[test]
fn command_line_errors_are_reported() {
    assert_eq!(
        AppConfig::from_iter_and_env(&["prog", "--gspro-port"], &[]).unwrap_err(),
        "--gspro-port requires a value"
    );
    assert_eq!(
        AppConfig::from_iter_and_env(&["prog", "--bogus"], &[]).unwrap_err(),
        "unknown argument --bogus"
    );
    assert_eq!(
        AppConfig::from_iter_and_env(&["prog", "--it-port", "0"], &[]).unwrap_err(),
        "Infinite Tees port must be from 1 to 65535"
    );
    assert_eq!(
        AppConfig::from_iter_and_env(&["prog"], &[("GSPRO_PORT", "abc")]).unwrap_err(),
        "GSPro port must be an integer from 1 to 65535"
    );
    let cfg = AppConfig::from_iter_and_env(
        &["prog", "stray", "--squarelaunch-ws-host", "  ", "--disable-squarelaunch-ws"],
        &[("SQUARELAUNCH_WS_HOST", "10.0.0.5"), ("SQUARELAUNCH_WS", "1")],
    )
    .unwrap();
    assert_eq!(cfg.squarelaunch_ws_host, None);
    assert!(!cfg.squarelaunch_enabled);
}

#[test]
fn cli_wins_over_environment_for_every_port() {
    let cfg = AppConfig::from_iter_and_env(
        &["prog", "--api-port", "7000", "--squarelaunch-ws-port", "7001"],
        &[("SQUAREGOLF_API_PORT", "9000"), ("SQUARELAUNCH_WS_PORT", "9001"), ("GSPRO_PORT", "9002")],
    )
    .unwrap();
    assert_eq!(cfg.api_port, 7000);
    assert_eq!(cfg.squarelaunch_ws_port, 7001);
    assert_eq!(cfg.gspro_port, 9002);
}

#[test]
fn value_rules() {
    assert_eq!(parse_port(" 8080 ", "api port"), Ok(8080));
    assert_eq!(parse_port("65536", "api port").unwrap_err(), "api port must be from 1 to 65535");
    assert_eq!(parse_port("-1", "api port").unwrap_err(), "api port must be an integer from 1 to 65535");
    assert!(env_truthy("TRUE"));
    assert!(env_truthy(" on "));
    for off in ["", " ", "0", "false", "OFF", "No"] {
        assert!(!env_truthy(off), "{off:?}");
    }
    assert_eq!(env_value(&[("A", "1"), ("B", "2"), ("A", "3")], "A"), Some("1"));
    assert_eq!(env_value(&[("A", "1")], "C"), None);
}

#[test]
fn saved_settings_prefer_current_names_and_check_ports() {
    let store = ConfigStore::new("/x/config.json".to_string());
    let cfg = store
        .config_from_text(
            r#"{"gsproHost": "  ", "gsproIP": "10.0.0.9", "apiPort": 5000, "squarelaunchWSHost": "sl.local",
            "squarelaunchWsPort": 4000, "squarelaunchEnabled": true, "gsproEnabled": false,
            "gsproAutoConnect": true}"#,
        )
        .unwrap();
    assert_eq!(cfg.gspro_host, "10.0.0.9");
    assert_eq!(cfg.api_port, 5000);
    assert_eq!(cfg.squarelaunch_ws_host.as_deref(), Some("sl.local"));
    assert_eq!(cfg.squarelaunch_ws_port, 4000);
    assert!(cfg.squarelaunch_enabled);
    assert!(!cfg.gspro_enabled);

    assert_eq!(store.path(), "/x/config.json");
    assert!(store.config_from_text(r#"{"gsproPort": 70000}"#).is_err());
    let err = store.config_from_text("not json").unwrap_err();
    assert!(err.starts_with("parse config /x/config.json: "), "{err}");
    assert_eq!(store.config_from_text("[1, 2]").unwrap(), AppConfig::default());
}

fn field(name: &str, value: JsonScalar) -> JsonField {
    JsonField { name: name.to_string(), value }
}

#[test]
fn saved_settings_from_members() {
    let fields = vec![
        field("infiniteTeesHost", JsonScalar::Text(" 10.0.0.4 ".to_string())),
        field("infiniteTeesPort", JsonScalar::Unsigned(1999)),
        field("infiniteTeesEnabled", JsonScalar::Other),
        field("infiniteTeesAutoConnect", JsonScalar::Flag(true)),
    ];
    let cfg = config_from_json_fields(&fields).unwrap();
    assert_eq!(cfg.infinite_tees_host, "10.0.0.4");
    assert_eq!(cfg.infinite_tees_port, 1999);
    assert!(cfg.infinite_tees_enabled);
    let bad = vec![field("squarelaunchWSPort", JsonScalar::Unsigned(0))];
    assert_eq!(
        config_from_json_fields(&bad).unwrap_err(),
        "squarelaunchWsPort must be from 1 to 65535"
    );
}
