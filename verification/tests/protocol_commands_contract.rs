use squaregolf_connector::protocol::commands::{
    alignment_command_hundredths, club_command, detect_ball_command, get_charge_command,
    get_os_version_command, heartbeat_command, le_bytes, omni_club_command,
    omni_set_carry_distance_adjustment_command, omni_set_green_speed_command,
    omni_set_handed_command, omni_set_units_command, request_club_metrics_command,
    start_alignment_command, swing_stick_command, ClubType, DetectBallMode, Handedness, SpinMode,
};
use squaregolf_connector::protocol::parser::{decode_alignment_data, parse_i32};

#[test]
fn heartbeat_command_matches_go_connector() {
    assert_eq!(heartbeat_command(0), "1183000000000000");
    assert_eq!(heartbeat_command(15), "11830f0000000000");
    assert_eq!(heartbeat_command(255), "1183ff0000000000");
}

#[test]
fn detect_ball_command_matches_go_connector() {
    assert_eq!(
        detect_ball_command(0, DetectBallMode::Deactivate, SpinMode::Standard),
        "118100001000000000"
    );
    assert_eq!(
        detect_ball_command(5, DetectBallMode::Activate, SpinMode::Standard),
        "118105011000000000"
    );
    assert_eq!(
        detect_ball_command(10, DetectBallMode::Deactivate, SpinMode::Advanced),
        "11810a001100000000"
    );
    assert_eq!(
        detect_ball_command(255, DetectBallMode::Activate, SpinMode::Advanced),
        "1181ff011100000000"
    );
}

#[test]
fn club_command_matches_go_connector() {
    assert_eq!(club_command(0, ClubType::PUTTER, Handedness::Right), "118200010700000000");
    assert_eq!(club_command(5, ClubType::DRIVER, Handedness::Left), "118205020401000000");
    assert_eq!(club_command(10, ClubType::IRON_7, Handedness::Right), "11820a070600000000");
    assert_eq!(club_command(255, ClubType::SAND_WEDGE, Handedness::Left), "1182ff0c0601000000");
    assert_eq!(
        club_command(255, ClubType::ALIGNMENT_STICK, Handedness::Right),
        "1182ff000800000000"
    );
}

#[test]
fn swing_stick_command_matches_go_connector() {
    assert_eq!(swing_stick_command(0, ClubType::PUTTER, Handedness::Right), "1182000103000000");
    assert_eq!(swing_stick_command(5, ClubType::DRIVER, Handedness::Left), "1182050202010000");
    assert_eq!(swing_stick_command(10, ClubType::IRON_7, Handedness::Right), "11820a0700000000");
    assert_eq!(
        swing_stick_command(255, ClubType::SAND_WEDGE, Handedness::Left),
        "1182ff0c00010000"
    );
}

#[test]
fn omni_commands_match_go_connector() {
    assert_eq!(omni_set_units_command(0, 0, 0), "1188000000000000");
    assert_eq!(omni_set_units_command(1, 0, 1), "1188010001010000");
    assert_eq!(omni_set_units_command(255, 1, 2), "1188ff0101020000");

    assert_eq!(omni_set_green_speed_command(0, 0), "1189000000000000");
    assert_eq!(omni_set_green_speed_command(2, 2), "1189020200000000");
    assert_eq!(omni_set_green_speed_command(255, 5), "1189ff0500000000");

    assert_eq!(omni_set_carry_distance_adjustment_command(0, -5), "118a005f00000000");
    assert_eq!(omni_set_carry_distance_adjustment_command(1, 0), "118a016400000000");
    assert_eq!(omni_set_carry_distance_adjustment_command(255, 7), "118aff6b00000000");
}

#[test]
fn support_commands_match_go_connector() {
    assert_eq!(request_club_metrics_command(0), "118700000000000000");
    assert_eq!(request_club_metrics_command(15), "11870f000000000000");
    assert_eq!(request_club_metrics_command(255), "1187ff000000000000");

    assert_eq!(get_os_version_command(0), "1192000000000000");
    assert_eq!(get_charge_command(1), "1186010000000000");
    assert_eq!(omni_set_handed_command(2, Handedness::Left), "118202006301000000");
}

#[test]
fn omni_club_command_carries_club_and_hand() {
    assert_eq!(omni_club_command(3, ClubType::DRIVER, Handedness::Left), "118203020001000000");
    assert_eq!(omni_club_command(0, ClubType::PUTTER, Handedness::Right), "118200010300000000");
    assert_eq!(omni_club_command(1, ClubType::ALIGNMENT_STICK, Handedness::Right), "118201000400000000");
    assert_eq!(omni_club_command(2, ClubType::IRON_7, Handedness::Right), "118202070200000000");
}

#[test]
fn alignment_commands_carry_the_angle_in_hundredths() {
    assert_eq!(start_alignment_command(1), "1185010000000000");
    assert_eq!(alignment_command_hundredths(1, 1, 250), "11850101fa000000");
    assert_eq!(alignment_command_hundredths(7, 0, -200), "1185070038ffffff");
    assert_eq!(le_bytes(-2), vec![0xfe, 0xff, 0xff, 0xff]);
    assert_eq!(le_bytes(0x01020304), vec![4, 3, 2, 1]);
}

#[test]
fn alignment_angle_reads_back_through_the_parser() {
    for angle in [0i32, 1, -1, 250, -200, 12345, -32768, i32::MAX, i32::MIN] {
        let text = alignment_command_hundredths(9, 1, angle);
        let fields: Vec<String> =
            (0..text.len() / 2).map(|k| text[2 * k..2 * k + 2].to_string()).collect();
        let refs: Vec<&str> = fields.iter().map(String::as_str).collect();
        assert_eq!(parse_i32(&refs, 4), Some(angle));
    }
    let aligned = decode_alignment_data(&["11", "04", "01", "00", "00", "38", "ff"]).unwrap();
    assert!(aligned.is_aligned);
}

#[test]
fn every_command_starts_with_marker_code_and_sequence() {
    let seq = 0x5a;
    let commands = [
        ("83", heartbeat_command(seq)),
        ("81", detect_ball_command(seq, DetectBallMode::ActivateAlignmentMode, SpinMode::Standard)),
        ("82", club_command(seq, ClubType::WOOD_3, Handedness::Right)),
        ("82", omni_club_command(seq, ClubType::WOOD_3, Handedness::Right)),
        ("82", swing_stick_command(seq, ClubType::WOOD_3, Handedness::Right)),
        ("85", alignment_command_hundredths(seq, 1, -1)),
        ("87", request_club_metrics_command(seq)),
        ("92", get_os_version_command(seq)),
        ("86", get_charge_command(seq)),
        ("88", omni_set_units_command(seq, 1, 1)),
        ("89", omni_set_green_speed_command(seq, 3)),
        ("8a", omni_set_carry_distance_adjustment_command(seq, -100)),
        ("82", omni_set_handed_command(seq, Handedness::Right)),
    ];
    for (code, text) in commands {
        assert_eq!(&text[0..6], format!("11{code}5a"), "{text}");
    }
}
