use std::sync::Arc;

use simetry::iracing::client::{
    after_empty_poll, wait_timeout_millis, ClientState, ConnectError, ConnectStep, FetchAction,
    SessionInfoCache, CLIENT_TIMEOUT_NANOS, CONNECT_WAIT_NANOS, DATA_WAIT_NANOS, INFINITE,
};
use simetry::iracing::header::{Header, VarBuf};
use simetry::iracing::session_info::{
    DriverInfo, Session, SessionInfo, SessionInfoError, WeekendInfo,
};

fn header(status: i32, num_buf: i32, ticks: [i32; 4]) -> Header {
    Header {
        ver: 2,
        status,
        tick_rate: 60,
        session_info_update: 1,
        session_info_len: 0,
        session_info_offset: 0,
        num_vars: 0,
        var_header_offset: 0,
        num_buf,
        buf_len: 512,
        var_buf: [
            VarBuf { tick_count: ticks[0], buf_offset: 1000 },
            VarBuf { tick_count: ticks[1], buf_offset: 2000 },
            VarBuf { tick_count: ticks[2], buf_offset: 3000 },
            VarBuf { tick_count: ticks[3], buf_offset: 4000 },
        ],
    }
}

fn state(last_tick_count: i32) -> ClientState {
    ClientState {
        vars_at_buf_len: -1,
        last_tick_count,
        last_valid_time: None,
        session_info_cache: SessionInfoCache::default(),
    }
}

fn info(track: &str) -> SessionInfo {
    let mut weekend_info = WeekendInfo::default();
    weekend_info.track_name = track.to_string();
    SessionInfo {
        weekend_info,
        driver_info: DriverInfo::default(),
        sessions: vec![Session {
            session_num: 0,
            session_laps: "5".to_string(),
            session_time: "unlimited".to_string(),
            session_type: "Race".to_string(),
        }],
    }
}

#[test]
fn version_mismatch_is_refused() {
    let mut h = header(1, 3, [1, 2, 3, 0]);
    h.ver = 1;
    match ClientState::from_header(&h) {
        Err(e) => assert_eq!(e, ConnectError::VersionMismatch { expected: 2, received: 1 }),
        Ok(_) => panic!("a header of version 1 must be refused"),
    }
}

#[test]
fn connect_starts_one_tick_behind_newest() {
    let s = ClientState::from_header(&header(1, 3, [5, 9, 7, 100])).unwrap();
    assert_eq!(s.last_tick_count, 8);
    assert_eq!(s.vars_at_buf_len, -1);
    assert_eq!(s.last_valid_time, None);
    assert!(s.session_info_cache.content.is_none());
}

#[test]
fn connect_without_buffers_starts_at_minus_two() {
    let s = ClientState::from_header(&header(1, 0, [5, 9, 7, 100])).unwrap();
    assert_eq!(s.last_tick_count, -2);
    let s = ClientState::from_header(&header(1, 2, [-50, -7, 0, 0])).unwrap();
    assert_eq!(s.last_tick_count, -2);
}

#[test]
fn connect_step_waits_while_not_running() {
    match ClientState::connect_step(&header(0, 3, [1, 2, 3, 0])) {
        ConnectStep::WaitForData { timeout_millis } => assert_eq!(timeout_millis, 250),
        _ => panic!("must wait while the simulator is not running"),
    }
}

#[test]
fn connect_step_rejects_and_accepts() {
    let mut h = header(1, 3, [1, 2, 3, 0]);
    h.ver = 3;
    match ClientState::connect_step(&h) {
        ConnectStep::Rejected(e) => {
            assert_eq!(e, ConnectError::VersionMismatch { expected: 2, received: 3 })
        }
        _ => panic!("a version-3 header must be refused"),
    }
    h.ver = 2;
    match ClientState::connect_step(&h) {
        ConnectStep::Ready(s) => assert_eq!(s.last_tick_count, 2),
        _ => panic!("a running version-2 header must be accepted"),
    }
}

#[test]
fn poll_picks_newest_and_last_of_equal_ticks() {
    let mut s = state(3);
    let out = s.poll(&header(1, 4, [4, 10, 6, 10]), 77);
    assert_eq!(out.latest, Some(3));
    assert_eq!(s.last_tick_count, 10);
    assert_eq!(s.last_valid_time, Some(77));
}

#[test]
fn poll_ignores_buffers_beyond_num_buf() {
    let mut s = state(3);
    let out = s.poll(&header(1, 2, [4, 10, 60, 100]), 5);
    assert_eq!(out.latest, Some(1));
    assert_eq!(s.last_tick_count, 10);
}

#[test]
fn poll_without_new_data_changes_nothing() {
    let mut s = state(10);
    s.last_valid_time = Some(40);
    let out = s.poll(&header(1, 4, [4, 10, 6, 9]), 99);
    assert_eq!(out.latest, None);
    assert_eq!(s.last_tick_count, 10);
    assert_eq!(s.last_valid_time, Some(40));
}

#[test]
fn poll_of_stopped_simulator_resets_tick() {
    let mut s = state(10);
    let out = s.poll(&header(0, 4, [40, 50, 60, 70]), 99);
    assert_eq!(out.latest, None);
    assert_eq!(s.last_tick_count, i32::MAX);
    assert_eq!(s.last_valid_time, None);
}

#[test]
fn stopped_client_never_reads_again() {
    let mut s = state(10);
    s.poll(&header(0, 4, [40, 50, 60, 70]), 1);
    let out = s.poll(&header(1, 4, [i32::MAX - 1, 50, 60, 70]), 2);
    assert_eq!(out.latest, None);
    assert_eq!(s.last_tick_count, i32::MAX);
}

#[test]
fn refresh_follows_row_length() {
    let mut s = state(0);
    let mut h = header(1, 1, [1, 0, 0, 0]);
    assert!(s.poll(&h, 0).refresh_vars);
    h.buf_len = -1;
    assert!(!s.poll(&h, 0).refresh_vars);
    h.status = 0;
    h.buf_len = 8;
    assert!(s.poll(&h, 0).refresh_vars);
    assert_eq!(s.vars_at_buf_len, -1);
}

#[test]
fn first_poll_after_connect_reads_newest() {
    let h = header(1, 4, [31, 35, 33, 34]);
    let mut s = ClientState::from_header(&h).unwrap();
    let out = s.poll(&h, 1);
    assert_eq!(out.latest, Some(1));
    assert_eq!(s.last_tick_count, 35);
    assert_eq!(s.poll(&h, 2).latest, None);
}

#[test]
fn delivered_ticks_strictly_increase() {
    let mut s = state(0);
    s.poll(&header(1, 4, [1, 2, 3, 4]), 1);
    assert_eq!(s.last_tick_count, 4);
    let out = s.poll(&header(1, 4, [5, 2, 3, 4]), 2);
    assert_eq!(out.latest, Some(0));
    assert_eq!(s.last_tick_count, 5);
    let out = s.poll(&header(1, 4, [5, 2, 3, 4]), 3);
    assert_eq!(out.latest, None);
}

#[test]
fn connection_depends_on_status_and_age() {
    let mut s = state(0);
    assert!(!s.is_connected(0, 0));
    assert!(s.is_connected(1, 0));
    s.last_valid_time = Some(1_000);
    assert!(s.is_connected(1, 1_000));
    assert!(s.is_connected(1, 1_000 + CLIENT_TIMEOUT_NANOS - 1));
    assert!(!s.is_connected(1, 1_000 + CLIENT_TIMEOUT_NANOS));
    assert!(!s.is_connected(1, 999));
    assert!(!s.is_connected(2, 1_000));
}

#[test]
fn connected_right_after_delivery() {
    let mut s = state(0);
    let out = s.poll(&header(1, 1, [3, 0, 0, 0]), 123_456);
    assert_eq!(out.latest, Some(0));
    assert!(s.is_connected(1, 123_456));
}

#[test]
fn wait_timeouts_in_millis() {
    assert_eq!(wait_timeout_millis(None), INFINITE);
    assert_eq!(wait_timeout_millis(Some(CONNECT_WAIT_NANOS)), 250);
    assert_eq!(wait_timeout_millis(Some(DATA_WAIT_NANOS)), 0);
    assert_eq!(wait_timeout_millis(Some(1_999_999)), 1);
    assert_eq!(wait_timeout_millis(Some(((1u128 << 32) + 5) * 1_000_000)), 5);
}

#[test]
fn one_retry_after_empty_poll() {
    assert_eq!(after_empty_poll(1), FetchAction::WaitThenPoll { timeout_millis: 0 });
    assert_eq!(after_empty_poll(2), FetchAction::GiveUp);
}

#[test]
fn cache_starts_empty() {
    let c = SessionInfoCache::default();
    assert!(c.cached(0).is_none());
    assert!(c.cached(1).is_none());
}

#[test]
fn cache_gives_back_what_was_stored() {
    let mut c = SessionInfoCache::default();
    let stored = c.store(4, Ok(info("Spa"))).unwrap();
    assert_eq!(stored.weekend_info.track_name, "Spa");
    let again = c.cached(4).unwrap();
    assert!(Arc::ptr_eq(&stored, &again));
    assert!(c.cached(5).is_none());
    let newer = c.store(5, Ok(info("Monza"))).unwrap();
    assert_eq!(c.cached(5).unwrap().weekend_info.track_name, "Monza");
    assert!(c.cached(4).is_none());
    drop(newer);
}

#[test]
fn cache_keeps_old_document_on_error() {
    let mut c = SessionInfoCache::default();
    c.store(4, Ok(info("Spa"))).unwrap();
    let r = c.store(5, Err(SessionInfoError::NoItems));
    assert!(matches!(r, Err(SessionInfoError::NoItems)));
    assert_eq!(c.cached(4).unwrap().weekend_info.track_name, "Spa");
    assert!(c.cached(5).is_none());
}

#[test]
fn delivered_ticks_increase_across_many_polls() {
    let mut s = state(0);
    let rounds = [
        [4, 2, 3, 1],
        [4, 2, 3, 1],
        [4, 7, 3, 1],
        [4, 7, 6, 1],
        [4, 7, 6, 9],
        [4, 7, 6, 9],
    ];
    let mut delivered = Vec::new();
    for (t, ticks) in rounds.iter().enumerate() {
        let h = header(1, 4, *ticks);
        if let Some(i) = s.poll(&h, t as i128).latest {
            delivered.push(h.var_buf[i].tick_count);
        }
    }
    assert_eq!(delivered, vec![4, 7, 9]);
}
