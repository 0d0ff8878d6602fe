use simetry::iracing::session_info::{
    resolve_session_info, Driver, DriverInfo, Session, SessionInfo, SessionInfoDocument,
    SessionInfoError, TelemetryOptions, WeekendInfo, WeekendOptions,
};

fn session(num: i32, kind: &str) -> Session {
    Session {
        session_num: num,
        session_laps: "unlimited".to_string(),
        session_time: "600.0000 sec".to_string(),
        session_type: kind.to_string(),
    }
}

fn info_with(sessions: Vec<Session>) -> SessionInfo {
    SessionInfo {
        weekend_info: WeekendInfo::default(),
        driver_info: DriverInfo::default(),
        sessions,
    }
}

#[test]
fn telemetry_options_default_is_blank() {
    let t = TelemetryOptions::default();
    assert_eq!(t.telemetry_disk_file, "");
}

#[test]
fn weekend_options_default_is_blank() {
    let w = WeekendOptions::default();
    assert_eq!(w.num_starters, "");
    assert_eq!(w.green_white_checkered_limit, "");
    assert_eq!(w.telemetry_options.telemetry_disk_file, "");
}

#[test]
fn weekend_info_default_is_blank() {
    let w = WeekendInfo::default();
    assert_eq!(w.session_id, 0);
    assert_eq!(w.track_num_turns, 0);
    assert_eq!(w.track_name, "");
    assert_eq!(w.race_farm, "");
    assert_eq!(w.weekend_options.date, "");
}

#[test]
fn driver_default_is_blank() {
    let d = Driver::default();
    assert_eq!(d.car_id, 0);
    assert_eq!(d.car_idx, 0);
    assert_eq!(d.user_name, "");
    assert_eq!(d.abbrev_name, "");
}

#[test]
fn driver_info_default_is_blank() {
    let d = DriverInfo::default();
    assert_eq!(d.driver_car_sl_shift_rpm, 0);
    assert_eq!(f64::from_bits(d.driver_car_red_line), 0.0);
    assert_eq!(d.driver_car_idx, 0);
    assert_eq!(d.driver_user_id, 0);
    assert!(d.drivers.is_empty());
    assert_eq!(d.pace_car_idx, "");
}

#[test]
fn single_document_is_taken() {
    let r = resolve_session_info(SessionInfoDocument::Single(info_with(vec![session(0, "Race")])));
    let info = r.unwrap();
    assert_eq!(info.sessions, vec![session(0, "Race")]);
}

#[test]
fn first_of_list_is_taken() {
    let docs = vec![
        info_with(vec![session(0, "Practice")]),
        info_with(vec![session(1, "Qualify")]),
        info_with(vec![session(2, "Race")]),
    ];
    let info = resolve_session_info(SessionInfoDocument::List(docs)).unwrap();
    assert_eq!(info.sessions, vec![session(0, "Practice")]);
}

#[test]
fn empty_list_is_refused() {
    let r = resolve_session_info(SessionInfoDocument::List(vec![]));
    assert!(matches!(r, Err(SessionInfoError::NoItems)));
}

#[test]
fn unreadable_text_is_refused_with_message() {
    let r = resolve_session_info(SessionInfoDocument::Unreadable("bad yaml".to_string()));
    match r {
        Err(SessionInfoError::Unreadable(m)) => assert_eq!(m, "bad yaml"),
        _ => panic!("expected an unreadable-text error"),
    }
}

#[test]
fn sessions_compare_by_fields() {
    assert_eq!(session(1, "Race"), session(1, "Race").clone());
    assert_ne!(session(1, "Race"), session(2, "Race"));
}
