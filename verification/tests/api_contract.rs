use squaregolf_connector::api::{
    api_port_candidates, bind_failure_message, ActionAccepted, ConfigUpdate, DeviceConnectRequest,
};

fn no_update() -> ConfigUpdate {
    ConfigUpdate {
        gspro_enabled: None,
        gspro_host: None,
        gspro_port: None,
        infinite_tees_enabled: None,
        infinite_tees_host: None,
        infinite_tees_port: None,
        squarelaunch_enabled: None,
        squarelaunch_ws_host: None,
        squarelaunch_ws_port: None,
    }
}

#[test]
fn api_ports_tried_in_order() {
    let ports = api_port_candidates(8080);
    assert_eq!(ports.len(), 100);
    assert_eq!(ports[0], 8080);
    assert_eq!(ports[99], 8179);
    assert_eq!(api_port_candidates(65530), vec![65530, 65531, 65532, 65533, 65534, 65535]);
}

#[test]
fn bind_failure_messages() {
    assert_eq!(bind_failure_message(8080, Some("bind API server on 127.0.0.1:8179: busy".to_string())),
        "bind API server on 127.0.0.1:8179: busy");
    assert_eq!(bind_failure_message(8080, None), "bind API server near port 8080: no candidate ports");
}

#[test]
fn update_sections() {
    let update = ConfigUpdate { gspro_port: Some(921), ..no_update() };
    assert!(update.touches_gspro());
    assert!(!update.touches_infinite_tees());
    assert!(!update.touches_squarelaunch());
    let update = ConfigUpdate { squarelaunch_ws_host: Some(String::new()), ..no_update() };
    assert!(update.touches_squarelaunch());
    assert!(!no_update().touches_gspro());
}

#[test]
fn requests_and_answers() {
    assert!(ActionAccepted::new(true).accepted());
    assert!(!ActionAccepted::new(false).accepted());
    let request = DeviceConnectRequest::empty();
    assert!(!request.emulator);
    assert_eq!(request.device_name, None);
}
