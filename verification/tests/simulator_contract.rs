use squaregolf_connector::simulator::{next_shot_number, send_report, ShotOptions};

#[test]
fn shot_options_by_message_kind() {
    let ball = ShotOptions::ball_shot();
    assert!(ball.contains_ball_data && !ball.contains_club_data);
    assert_eq!(ball.launch_monitor_is_ready, None);
    let club = ShotOptions::club_shot();
    assert!(!club.contains_ball_data && club.contains_club_data);
    let ready = ShotOptions::readiness(true);
    assert!(!ready.contains_ball_data && !ready.contains_club_data);
    assert_eq!(ready.launch_monitor_is_ready, Some(true));
    assert_eq!(ready.launch_monitor_ball_detected, Some(true));
    assert_eq!(ShotOptions::readiness(false).launch_monitor_is_ready, Some(false));
}

#[test]
fn shots_are_numbered_from_one() {
    assert_eq!(next_shot_number(0), 1);
    assert_eq!(next_shot_number(41), 42);
}

#[test]
fn send_failures_are_reported_together() {
    assert_eq!(send_report(None, None), Ok(()));
    assert_eq!(send_report(Some("refused".to_string()), None), Err("GSPro: refused".to_string()));
    assert_eq!(
        send_report(None, Some("timeout".to_string())),
        Err("Infinite Tees: timeout".to_string())
    );
    assert_eq!(
        send_report(Some("a".to_string()), Some("b".to_string())),
        Err("GSPro: a; Infinite Tees: b".to_string())
    );
}
