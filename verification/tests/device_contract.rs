use squaregolf_connector::api::DeviceConnectRequest;
use squaregolf_connector::device::{
    decode_hex_fields, decode_notification, parse_uuid, uuid_or_error, DeviceConnectOptions,
    Notification,
};

#[test]
fn peripheral_selection() {
    let any = DeviceConnectOptions::default();
    assert!(any.selects("SquareGolf A1", "AA:BB"));
    assert!(!any.selects("Other", "AA:BB"));
    let named = DeviceConnectOptions {
        device_name: Some("SquareGolf A1".to_string()),
        device_address: Some("aa:bb".to_string()),
        emulator: false,
    };
    assert!(named.selects("SquareGolf A1", "AA:BB"));
    assert!(!named.selects("SquareGolf A2", "AA:BB"));
    assert!(!named.selects("SquareGolf A1", "AA:BC"));

    let request = DeviceConnectRequest { emulator: true, ..DeviceConnectRequest::empty() };
    let options = request.into_options();
    assert!(options.emulator);
    assert_eq!(options.device_name, None);
}

#[test]
fn notifications_are_routed_by_frame_kind() {
    assert!(matches!(decode_notification(&[0x10, 0x02]), Notification::Ignored));
    assert!(matches!(decode_notification(&[0x11]), Notification::Ignored));
    assert!(matches!(decode_notification(&[0x11, 0x05, 0x00]), Notification::Ignored));

    let ball = [
        0x11, 0x02, 0x37, 0x64, 0x00, 0xc8, 0x00, 0x2c, 0x01, 0xe8, 0x03, 0xf4, 0x01, 0xd0, 0x07,
        0xb8, 0x0b,
    ];
    match decode_notification(&ball) {
        Notification::Ball(Ok(m)) => {
            assert_eq!(m.ball_speed_mps_x100, 100);
            assert_eq!(m.raw_data[2], "37");
        }
        other => panic!("unexpected {other:?}"),
    }
    match decode_notification(&[0x11, 0x02, 0x37]) {
        Notification::Ball(Err(e)) => assert_eq!(e, "insufficient data for parsing ball metrics"),
        other => panic!("unexpected {other:?}"),
    }

    let club = [0x11, 0x07, 0x02, 0x64, 0x00, 0xc8, 0x00, 0x2c, 0x01, 0x90, 0x01];
    match decode_notification(&club) {
        Notification::Club(Ok(m)) => assert_eq!(m.path_angle_x100, 100),
        other => panic!("unexpected {other:?}"),
    }
    let omni = [
        0x11, 0x07, 0x0f, 0xd8, 0xfe, 0x90, 0x01, 0x38, 0xff, 0xd0, 0x07, 0x64, 0x00, 0xc8, 0xff,
        0xb8, 0x0b, 0x82, 0x00,
    ];
    match decode_notification(&omni) {
        Notification::Club(Ok(m)) => {
            assert_eq!(m.path_angle_x100, -296);
            assert!(!m.is_smash_factor_valid);
        }
        other => panic!("unexpected {other:?}"),
    }
}

#[test]
fn emulator_hex_fields_decode() {
    let fields: Vec<String> = ["11", "02", "Ff", "0a"].iter().map(|s| s.to_string()).collect();
    assert_eq!(decode_hex_fields(&fields), Some(vec![0x11, 0x02, 0xff, 0x0a]));
    let bad: Vec<String> = ["11", "xx"].iter().map(|s| s.to_string()).collect();
    assert_eq!(decode_hex_fields(&bad), None);
}

#[test]
fn characteristic_uuids_parse() {
    assert_eq!(
        parse_uuid("86602102-6b7e-439a-bdd1-489a3213e9bb"),
        Ok(0x86602102_6b7e_439a_bdd1_489a3213e9bb)
    );
    assert_eq!(
        parse_uuid("00002a19-0000-1000-8000-00805f9b34fb"),
        Ok(0x00002a19_0000_1000_8000_00805f9b34fb)
    );
    let err = parse_uuid("not-a-uuid").unwrap_err();
    assert!(err.starts_with("parse UUID not-a-uuid: "), "{err}");
    assert_eq!(uuid_or_error("x", Err("bad".to_string())), Err("parse UUID x: bad".to_string()));
    assert_eq!(uuid_or_error("x", Ok(7)), Ok(7));
}

#[test]
fn notification_hex_fields_read_back_to_the_frame() {
    let frame = vec![0x11u8, 0x02, 0x37, 0x64, 0x00, 0xc8, 0x00, 0x2c, 0x01, 0xe8, 0x03, 0xf4, 0x01, 0xd0, 0x07, 0xb8, 0x0b];
    let fields = match decode_notification(&frame) {
        Notification::Ball(Ok(m)) => m.raw_data,
        other => panic!("unexpected {other:?}"),
    };
    assert_eq!(fields[0], "11");
    assert_eq!(decode_hex_fields(&fields), Some(frame));

    let command = squaregolf_connector::protocol::commands::heartbeat_command(0x2a);
    let command_fields: Vec<String> =
        (0..command.len() / 2).map(|k| command[2 * k..2 * k + 2].to_string()).collect();
    assert_eq!(decode_hex_fields(&command_fields), Some(vec![0x11, 0x83, 0x2a, 0, 0, 0, 0, 0]));
}
