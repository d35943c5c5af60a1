use squaregolf_connector::protocol::parser::{
    apply_omni_ball_validity_bitmask, decode_alignment_data, decode_omni_shot_club_metrics,
    decode_shot_ball_metrics, decode_shot_club_metrics, detect_device_type, parse_i16,
    parse_i16_metric, parse_sensor_data, read_hex_byte, DeviceType,
};

#[test]
fn parses_sensor_data_like_go_connector() {
    let sensor = parse_sensor_data(&[
        "00", "01", "02", "02", "01", "0A", "00", "00", "00", "14", "00", "00", "00", "1E", "00",
        "00", "00",
    ])
    .expect("sensor data");

    assert!(sensor.ball_ready);
    assert!(sensor.ball_detected);
    assert_eq!(sensor.position_x, 10);
    assert_eq!(sensor.position_y, 20);
    assert_eq!(sensor.position_z, 30);

    assert!(parse_sensor_data(&["00", "01"]).is_err());
}

fn units(hundredths: i16) -> f64 {
    f64::from(hundredths) / 100.0
}

#[test]
fn parses_ball_metrics_like_go_connector() {
    let metrics = decode_shot_ball_metrics(&[
        "11", "02", "37", "64", "00", "C8", "00", "2C", "01", "E8", "03", "F4", "01", "D0", "07",
        "B8", "0B",
    ])
    .expect("ball metrics");

    assert_eq!(units(metrics.ball_speed_mps_x100), 1.0);
    assert_eq!(units(metrics.vertical_angle_x100), 2.0);
    assert_eq!(units(metrics.horizontal_angle_x100), 3.0);
    assert_eq!(metrics.total_spin_rpm, 1000);
    assert_eq!(units(metrics.spin_axis_x100), 5.0);
    assert_eq!(metrics.backspin_rpm, 2000);
    assert_eq!(metrics.sidespin_rpm, 3000);
    assert!(metrics.is_ball_speed_valid);
    assert!(metrics.is_total_spin_valid);
}

#[test]
fn ball_metrics_handle_negative_values_and_invalid_hex_like_go_connector() {
    let negative = decode_shot_ball_metrics(&[
        "11", "02", "37", "9C", "FF", "38", "FF", "D4", "FE", "18", "FC", "0C", "FE", "30", "F8",
        "48", "F4",
    ])
    .expect("negative metrics");

    assert_eq!(units(negative.ball_speed_mps_x100), -1.0);
    assert_eq!(units(negative.vertical_angle_x100), -2.0);
    assert_eq!(units(negative.horizontal_angle_x100), -3.0);
    assert_eq!(negative.total_spin_rpm, 1000);
    assert_eq!(units(negative.spin_axis_x100), -5.0);
    assert_eq!(negative.backspin_rpm, -2000);
    assert_eq!(negative.sidespin_rpm, -3000);

    let invalid_speed = decode_shot_ball_metrics(&[
        "11", "02", "37", "ZZ", "00", "C8", "00", "2C", "01", "E8", "03", "F4", "01", "D0", "07",
        "B8", "0B",
    ])
    .expect("invalid speed is non-fatal");

    assert_eq!(units(invalid_speed.ball_speed_mps_x100), 0.0);
    assert!(!invalid_speed.is_ball_speed_valid);
    assert_eq!(units(invalid_speed.vertical_angle_x100), 2.0);
}

#[test]
fn ball_frames_keep_fields_and_reject_short_input() {
    let metrics = decode_shot_ball_metrics(&[
        "11", "02", "37", "64", "00", "C8", "00", "2C", "01", "E8", "03", "F4", "01", "D0", "07",
        "B8", "0B",
    ])
    .unwrap();
    assert_eq!(metrics.validity_bitmask.as_deref(), Some("37"));
    assert_eq!(metrics.raw_data.len(), 17);
    assert_eq!(
        decode_shot_ball_metrics(&["11", "02", "37"]).unwrap_err(),
        "insufficient data for parsing ball metrics"
    );
}

#[test]
fn omni_ball_validity_bitmask_matches_go_connector() {
    let mut metrics = decode_shot_ball_metrics(&[
        "11", "02", "07", "64", "00", "C8", "00", "2C", "01", "E8", "03", "F4", "01", "D0", "07",
        "B8", "0B",
    ])
    .expect("ball metrics");

    apply_omni_ball_validity_bitmask(&mut metrics);

    assert!(metrics.is_ball_speed_valid);
    assert!(metrics.is_total_spin_valid);
    assert!(metrics.is_spin_axis_valid);
    assert!(!metrics.is_backspin_valid);
    assert!(!metrics.is_sidespin_valid);
}

#[test]
fn parses_club_metrics_like_go_connector() {
    let metrics = decode_shot_club_metrics(&[
        "00", "01", "02", "64", "00", "C8", "00", "2C", "01", "90", "01",
    ])
    .expect("club metrics");

    assert_eq!(units(metrics.path_angle_x100), 1.0);
    assert_eq!(units(metrics.face_angle_x100), 2.0);
    assert_eq!(units(metrics.attack_angle_x100), 3.0);
    assert_eq!(units(metrics.dynamic_loft_angle_x100), 4.0);
    assert!(metrics.is_path_angle_valid);
    assert!(metrics.is_face_angle_valid);
}

#[test]
fn parses_omni_club_metrics_bitmask_and_sentinel_like_go_connector() {
    let partial = decode_omni_shot_club_metrics(&[
        "11", "07", "0f", "d8", "fe", "90", "01", "38", "ff", "d0", "07", "64", "00", "c8", "ff",
        "b8", "0b", "82", "00",
    ])
    .expect("partial omni metrics");

    assert_eq!(units(partial.path_angle_x100), -2.96);
    assert_eq!(units(partial.face_angle_x100), 4.0);
    assert!(partial.is_path_angle_valid);
    assert!(partial.is_dynamic_loft_valid);
    assert!(!partial.is_impact_horizontal_valid);
    assert!(!partial.is_smash_factor_valid);

    let sentinel = decode_omni_shot_club_metrics(&[
        "11", "07", "ff", "00", "80", "90", "01", "38", "ff", "d0", "07", "64", "00", "c8", "ff",
        "b8", "0b", "82", "00",
    ])
    .expect("sentinel omni metrics");

    assert_eq!(units(sentinel.path_angle_x100), 0.0);
    assert!(!sentinel.is_path_angle_valid);
    assert!(sentinel.is_face_angle_valid);
}

#[test]
fn parses_alignment_and_detects_omni_devices() {
    let alignment = decode_alignment_data(&["11", "04", "01", "00", "00", "38", "ff"])
        .expect("alignment data");

    assert_eq!(units(alignment.aim_angle_x100), -2.0);
    assert!(alignment.is_aligned);
    assert!(decode_alignment_data(&["11", "04"]).is_err());

    assert_eq!(detect_device_type("some3033303041data"), DeviceType::Omni);
    assert_eq!(detect_device_type("aabbcc"), DeviceType::Home);
}

#[test]
fn hex_fields_read_as_little_endian_values() {
    assert_eq!(read_hex_byte("ff"), Some(255));
    assert_eq!(read_hex_byte("0A"), Some(10));
    assert_eq!(read_hex_byte("zz"), None);
    assert_eq!(parse_i16("38", "ff"), Some(-200));
    assert_eq!(parse_i16("00", "80"), Some(i16::MIN));
    assert_eq!(parse_i16_metric("00", "80"), Some((0, false)));
    assert_eq!(parse_i16_metric("64", "00"), Some((100, true)));
}
