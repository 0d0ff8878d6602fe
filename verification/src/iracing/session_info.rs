//! The session-info document: its sections as plain values, their blank
//! defaults, and the choice between the two shapes the document comes in.

use vstd::prelude::*;

verus! {

/// One session of the event (practice, qualifying, race).
#[derive(Debug, Clone, PartialEq)]
pub struct Session {
    pub session_num: i32,
    pub session_laps: String,
    pub session_time: String,
    pub session_type: String,
}

/// The session-info document that the simulator publishes as YAML.
#[derive(Debug)]
pub struct SessionInfo {
    pub weekend_info: WeekendInfo,
    pub driver_info: DriverInfo,
    pub sessions: Vec<Session>,
}

/// The `DriverInfo` section of the session-info document.
///
/// `driver_car_sl_shift_rpm` and `driver_car_red_line` are floating-point
/// values in the document; they are held here as the bit pattern of the `f64`
/// (`f64::to_bits`), so that the library handles no floating point.
#[derive(Debug)]
pub struct DriverInfo {
    pub driver_car_sl_shift_rpm: u64,
    pub driver_pit_trk_pct: String,
    pub driver_car_sl_last_rpm: String,
    pub driver_head_pos_z: String,
    pub driver_car_fuel_max_ltr: String,
    pub driver_car_idle_rpm: String,
    pub driver_car_est_lap_time: String,
    pub driver_setup_passed_tech: String,
    pub driver_head_pos_x: String,
    pub driver_car_idx: i64,
    pub driver_setup_is_modified: String,
    pub driver_car_sl_blink_rpm: String,
    pub driver_setup_load_type_name: String,
    pub driver_car_red_line: u64,
    pub driver_car_fuel_kg_per_ltr: String,
    pub driver_car_sl_first_rpm: String,
    pub driver_setup_name: String,
    pub driver_incident_count: String,
    pub driver_user_id: i64,
    pub driver_head_pos_y: String,
    pub pace_car_idx: String,
    pub driver_car_max_fuel_pct: String,
    pub drivers: Vec<Driver>,
}

/// One entry of `DriverInfo::drivers`.
#[derive(Debug)]
pub struct Driver {
    pub abbrev_name: String,
    pub car_class_color: String,
    pub car_class_id: String,
    pub car_class_license_level: String,
    pub car_class_max_fuel_pct: String,
    pub car_class_rel_speed: String,
    pub car_class_short_name: String,
    pub car_class_weight_penalty: String,
    pub car_design_str: String,
    pub car_id: i64,
    pub car_idx: i64,
    pub car_is_ai: String,
    pub car_is_pace_car: String,
    pub car_number: String,
    pub car_number_design_str: String,
    pub car_number_raw: String,
    pub car_path: String,
    pub car_screen_name: String,
    pub car_screen_name_short: String,
    pub car_sponsor_1: String,
    pub car_sponsor_2: String,
    pub club_name: String,
    pub cur_driver_incident_count: String,
    pub division_name: String,
    pub helmet_design_str: String,
    pub i_rating: String,
    pub initials: String,
    pub is_spectator: String,
    pub lic_color: String,
    pub lic_level: String,
    pub lic_string: String,
    pub lic_sub_level: String,
    pub suit_design_str: String,
    pub team_id: String,
    pub team_incident_count: String,
    pub team_name: String,
    pub user_id: String,
    pub user_name: String,
}

/// The `WeekendInfo` section of the session-info document.
#[derive(Debug)]
pub struct WeekendInfo {
    pub session_id: i32,
    pub track_name: String,
    pub track_id: String,
    pub track_length: String,
    pub track_length_official: String,
    pub track_display_name: String,
    pub track_display_short_name: String,
    pub track_config_name: String,
    pub track_city: String,
    pub track_country: String,
    pub track_altitude: String,
    pub track_latitude: String,
    pub track_longitude: String,
    pub track_north_offset: String,
    pub track_num_turns: i32,
    pub track_pit_speed_limit: String,
    pub track_type: String,
    pub track_direction: String,
    pub track_weather_type: String,
    pub track_skies: String,
    pub track_surface_temp: String,
    pub track_air_temp: String,
    pub track_air_pressure: String,
    pub track_wind_vel: String,
    pub track_wind_dir: String,
    pub track_relative_humidity: String,
    pub track_fog_level: String,
    pub track_precipitation: String,
    pub track_cleanup: String,
    pub track_dynamic_track: String,
    pub track_version: String,
    pub series_id: String,
    pub season_id: String,
    pub sub_session_id: String,
    pub league_id: String,
    pub official: String,
    pub race_week: String,
    pub event_type: String,
    pub category: String,
    pub sim_mode: String,
    pub team_racing: String,
    pub min_drivers: String,
    pub max_drivers: String,
    pub dc_rule_set: String,
    pub qualifier_must_start_race: String,
    pub num_car_classes: String,
    pub num_car_types: String,
    pub heat_racing: String,
    pub build_type: String,
    pub build_target: String,
    pub build_version: String,
    pub race_farm: String,
    pub weekend_options: WeekendOptions,
}

/// The `WeekendOptions` section of `WeekendInfo`.
#[derive(Debug)]
pub struct WeekendOptions {
    pub num_starters: String,
    pub starting_grid: String,
    pub qualify_scoring: String,
    pub course_cautions: String,
    pub standing_start: String,
    pub short_parade_lap: String,
    pub restarts: String,
    pub weather_type: String,
    pub skies: String,
    pub wind_direction: String,
    pub wind_speed: String,
    pub weather_temp: String,
    pub relative_humidity: String,
    pub fog_level: String,
    pub time_of_day: String,
    pub date: String,
    pub earth_rotation_speedup_factor: String,
    pub unofficial: String,
    pub commercial_mode: String,
    pub night_mode: String,
    pub is_fixed_setup: String,
    pub strict_laps_checking: String,
    pub has_open_registration: String,
    pub hardcore_level: String,
    pub num_joker_laps: String,
    pub incident_limit: String,
    pub fast_repairs_limit: String,
    pub green_white_checkered_limit: String,
    pub telemetry_options: TelemetryOptions,
}

/// The `TelemetryOptions` section of `WeekendOptions`.
#[derive(Debug)]
pub struct TelemetryOptions {
    pub telemetry_disk_file: String,
}

impl DriverInfo {
    /// Every text field is empty, every number zero, every list empty.
    pub open spec fn is_blank(&self) -> bool {
        &&& self.driver_car_sl_shift_rpm == 0
        &&& self.driver_pit_trk_pct@ == Seq::<char>::empty()
        &&& self.driver_car_sl_last_rpm@ == Seq::<char>::empty()
        &&& self.driver_head_pos_z@ == Seq::<char>::empty()
        &&& self.driver_car_fuel_max_ltr@ == Seq::<char>::empty()
        &&& self.driver_car_idle_rpm@ == Seq::<char>::empty()
        &&& self.driver_car_est_lap_time@ == Seq::<char>::empty()
        &&& self.driver_setup_passed_tech@ == Seq::<char>::empty()
        &&& self.driver_head_pos_x@ == Seq::<char>::empty()
        &&& self.driver_car_idx == 0
        &&& self.driver_setup_is_modified@ == Seq::<char>::empty()
        &&& self.driver_car_sl_blink_rpm@ == Seq::<char>::empty()
        &&& self.driver_setup_load_type_name@ == Seq::<char>::empty()
        &&& self.driver_car_red_line == 0
        &&& self.driver_car_fuel_kg_per_ltr@ == Seq::<char>::empty()
        &&& self.driver_car_sl_first_rpm@ == Seq::<char>::empty()
        &&& self.driver_setup_name@ == Seq::<char>::empty()
        &&& self.driver_incident_count@ == Seq::<char>::empty()
        &&& self.driver_user_id == 0
        &&& self.driver_head_pos_y@ == Seq::<char>::empty()
        &&& self.pace_car_idx@ == Seq::<char>::empty()
        &&& self.driver_car_max_fuel_pct@ == Seq::<char>::empty()
        &&& self.drivers@.len() == 0
    }
}

impl Default for DriverInfo {
    fn default() -> (r: Self)
        ensures
            r.is_blank(),
    {
        DriverInfo {
            driver_car_sl_shift_rpm: 0,
            driver_pit_trk_pct: String::new(),
            driver_car_sl_last_rpm: String::new(),
            driver_head_pos_z: String::new(),
            driver_car_fuel_max_ltr: String::new(),
            driver_car_idle_rpm: String::new(),
            driver_car_est_lap_time: String::new(),
            driver_setup_passed_tech: String::new(),
            driver_head_pos_x: String::new(),
            driver_car_idx: 0,
            driver_setup_is_modified: String::new(),
            driver_car_sl_blink_rpm: String::new(),
            driver_setup_load_type_name: String::new(),
            driver_car_red_line: 0,
            driver_car_fuel_kg_per_ltr: String::new(),
            driver_car_sl_first_rpm: String::new(),
            driver_setup_name: String::new(),
            driver_incident_count: String::new(),
            driver_user_id: 0,
            driver_head_pos_y: String::new(),
            pace_car_idx: String::new(),
            driver_car_max_fuel_pct: String::new(),
            drivers: Vec::new(),
        }
    }
}

impl Driver {
    /// Every text field is empty, every number zero, every list empty.
    pub open spec fn is_blank(&self) -> bool {
        &&& self.abbrev_name@ == Seq::<char>::empty()
        &&& self.car_class_color@ == Seq::<char>::empty()
        &&& self.car_class_id@ == Seq::<char>::empty()
        &&& self.car_class_license_level@ == Seq::<char>::empty()
        &&& self.car_class_max_fuel_pct@ == Seq::<char>::empty()
        &&& self.car_class_rel_speed@ == Seq::<char>::empty()
        &&& self.car_class_short_name@ == Seq::<char>::empty()
        &&& self.car_class_weight_penalty@ == Seq::<char>::empty()
        &&& self.car_design_str@ == Seq::<char>::empty()
        &&& self.car_id == 0
        &&& self.car_idx == 0
        &&& self.car_is_ai@ == Seq::<char>::empty()
        &&& self.car_is_pace_car@ == Seq::<char>::empty()
        &&& self.car_number@ == Seq::<char>::empty()
        &&& self.car_number_design_str@ == Seq::<char>::empty()
        &&& self.car_number_raw@ == Seq::<char>::empty()
        &&& self.car_path@ == Seq::<char>::empty()
        &&& self.car_screen_name@ == Seq::<char>::empty()
        &&& self.car_screen_name_short@ == Seq::<char>::empty()
        &&& self.car_sponsor_1@ == Seq::<char>::empty()
        &&& self.car_sponsor_2@ == Seq::<char>::empty()
        &&& self.club_name@ == Seq::<char>::empty()
        &&& self.cur_driver_incident_count@ == Seq::<char>::empty()
        &&& self.division_name@ == Seq::<char>::empty()
        &&& self.helmet_design_str@ == Seq::<char>::empty()
        &&& self.i_rating@ == Seq::<char>::empty()
        &&& self.initials@ == Seq::<char>::empty()
        &&& self.is_spectator@ == Seq::<char>::empty()
        &&& self.lic_color@ == Seq::<char>::empty()
        &&& self.lic_level@ == Seq::<char>::empty()
        &&& self.lic_string@ == Seq::<char>::empty()
        &&& self.lic_sub_level@ == Seq::<char>::empty()
        &&& self.suit_design_str@ == Seq::<char>::empty()
        &&& self.team_id@ == Seq::<char>::empty()
        &&& self.team_incident_count@ == Seq::<char>::empty()
        &&& self.team_name@ == Seq::<char>::empty()
        &&& self.user_id@ == Seq::<char>::empty()
        &&& self.user_name@ == Seq::<char>::empty()
    }
}

impl Default for Driver {
    fn default() -> (r: Self)
        ensures
            r.is_blank(),
    {
        Driver {
            abbrev_name: String::new(),
            car_class_color: String::new(),
            car_class_id: String::new(),
            car_class_license_level: String::new(),
            car_class_max_fuel_pct: String::new(),
            car_class_rel_speed: String::new(),
            car_class_short_name: String::new(),
            car_class_weight_penalty: String::new(),
            car_design_str: String::new(),
            car_id: 0,
            car_idx: 0,
            car_is_ai: String::new(),
            car_is_pace_car: String::new(),
            car_number: String::new(),
            car_number_design_str: String::new(),
            car_number_raw: String::new(),
            car_path: String::new(),
            car_screen_name: String::new(),
            car_screen_name_short: String::new(),
            car_sponsor_1: String::new(),
            car_sponsor_2: String::new(),
            club_name: String::new(),
            cur_driver_incident_count: String::new(),
            division_name: String::new(),
            helmet_design_str: String::new(),
            i_rating: String::new(),
            initials: String::new(),
            is_spectator: String::new(),
            lic_color: String::new(),
            lic_level: String::new(),
            lic_string: String::new(),
            lic_sub_level: String::new(),
            suit_design_str: String::new(),
            team_id: String::new(),
            team_incident_count: String::new(),
            team_name: String::new(),
            user_id: String::new(),
            user_name: String::new(),
        }
    }
}

impl WeekendInfo {
    /// Every text field is empty, every number zero, every list empty.
    pub open spec fn is_blank(&self) -> bool {
        &&& self.session_id == 0
        &&& self.track_name@ == Seq::<char>::empty()
        &&& self.track_id@ == Seq::<char>::empty()
        &&& self.track_length@ == Seq::<char>::empty()
        &&& self.track_length_official@ == Seq::<char>::empty()
        &&& self.track_display_name@ == Seq::<char>::empty()
        &&& self.track_display_short_name@ == Seq::<char>::empty()
        &&& self.track_config_name@ == Seq::<char>::empty()
        &&& self.track_city@ == Seq::<char>::empty()
        &&& self.track_country@ == Seq::<char>::empty()
        &&& self.track_altitude@ == Seq::<char>::empty()
        &&& self.track_latitude@ == Seq::<char>::empty()
        &&& self.track_longitude@ == Seq::<char>::empty()
        &&& self.track_north_offset@ == Seq::<char>::empty()
        &&& self.track_num_turns == 0
        &&& self.track_pit_speed_limit@ == Seq::<char>::empty()
        &&& self.track_type@ == Seq::<char>::empty()
        &&& self.track_direction@ == Seq::<char>::empty()
        &&& self.track_weather_type@ == Seq::<char>::empty()
        &&& self.track_skies@ == Seq::<char>::empty()
        &&& self.track_surface_temp@ == Seq::<char>::empty()
        &&& self.track_air_temp@ == Seq::<char>::empty()
        &&& self.track_air_pressure@ == Seq::<char>::empty()
        &&& self.track_wind_vel@ == Seq::<char>::empty()
        &&& self.track_wind_dir@ == Seq::<char>::empty()
        &&& self.track_relative_humidity@ == Seq::<char>::empty()
        &&& self.track_fog_level@ == Seq::<char>::empty()
        &&& self.track_precipitation@ == Seq::<char>::empty()
        &&& self.track_cleanup@ == Seq::<char>::empty()
        &&& self.track_dynamic_track@ == Seq::<char>::empty()
        &&& self.track_version@ == Seq::<char>::empty()
        &&& self.series_id@ == Seq::<char>::empty()
        &&& self.season_id@ == Seq::<char>::empty()
        &&& self.sub_session_id@ == Seq::<char>::empty()
        &&& self.league_id@ == Seq::<char>::empty()
        &&& self.official@ == Seq::<char>::empty()
        &&& self.race_week@ == Seq::<char>::empty()
        &&& self.event_type@ == Seq::<char>::empty()
        &&& self.category@ == Seq::<char>::empty()
        &&& self.sim_mode@ == Seq::<char>::empty()
        &&& self.team_racing@ == Seq::<char>::empty()
        &&& self.min_drivers@ == Seq::<char>::empty()
        &&& self.max_drivers@ == Seq::<char>::empty()
        &&& self.dc_rule_set@ == Seq::<char>::empty()
        &&& self.qualifier_must_start_race@ == Seq::<char>::empty()
        &&& self.num_car_classes@ == Seq::<char>::empty()
        &&& self.num_car_types@ == Seq::<char>::empty()
        &&& self.heat_racing@ == Seq::<char>::empty()
        &&& self.build_type@ == Seq::<char>::empty()
        &&& self.build_target@ == Seq::<char>::empty()
        &&& self.build_version@ == Seq::<char>::empty()
        &&& self.race_farm@ == Seq::<char>::empty()
        &&& self.weekend_options.is_blank()
    }
}

impl Default for WeekendInfo {
    fn default() -> (r: Self)
        ensures
            r.is_blank(),
    {
        WeekendInfo {
            session_id: 0,
            track_name: String::new(),
            track_id: String::new(),
            track_length: String::new(),
            track_length_official: String::new(),
            track_display_name: String::new(),
            track_display_short_name: String::new(),
            track_config_name: String::new(),
            track_city: String::new(),
            track_country: String::new(),
            track_altitude: String::new(),
            track_latitude: String::new(),
            track_longitude: String::new(),
            track_north_offset: String::new(),
            track_num_turns: 0,
            track_pit_speed_limit: String::new(),
            track_type: String::new(),
            track_direction: String::new(),
            track_weather_type: String::new(),
            track_skies: String::new(),
            track_surface_temp: String::new(),
            track_air_temp: String::new(),
            track_air_pressure: String::new(),
            track_wind_vel: String::new(),
            track_wind_dir: String::new(),
            track_relative_humidity: String::new(),
            track_fog_level: String::new(),
            track_precipitation: String::new(),
            track_cleanup: String::new(),
            track_dynamic_track: String::new(),
            track_version: String::new(),
            series_id: String::new(),
            season_id: String::new(),
            sub_session_id: String::new(),
            league_id: String::new(),
            official: String::new(),
            race_week: String::new(),
            event_type: String::new(),
            category: String::new(),
            sim_mode: String::new(),
            team_racing: String::new(),
            min_drivers: String::new(),
            max_drivers: String::new(),
            dc_rule_set: String::new(),
            qualifier_must_start_race: String::new(),
            num_car_classes: String::new(),
            num_car_types: String::new(),
            heat_racing: String::new(),
            build_type: String::new(),
            build_target: String::new(),
            build_version: String::new(),
            race_farm: String::new(),
            weekend_options: WeekendOptions::default(),
        }
    }
}

impl WeekendOptions {
    /// Every text field is empty, every number zero, every list empty.
    pub open spec fn is_blank(&self) -> bool {
        &&& self.num_starters@ == Seq::<char>::empty()
        &&& self.starting_grid@ == Seq::<char>::empty()
        &&& self.qualify_scoring@ == Seq::<char>::empty()
        &&& self.course_cautions@ == Seq::<char>::empty()
        &&& self.standing_start@ == Seq::<char>::empty()
        &&& self.short_parade_lap@ == Seq::<char>::empty()
        &&& self.restarts@ == Seq::<char>::empty()
        &&& self.weather_type@ == Seq::<char>::empty()
        &&& self.skies@ == Seq::<char>::empty()
        &&& self.wind_direction@ == Seq::<char>::empty()
        &&& self.wind_speed@ == Seq::<char>::empty()
        &&& self.weather_temp@ == Seq::<char>::empty()
        &&& self.relative_humidity@ == Seq::<char>::empty()
        &&& self.fog_level@ == Seq::<char>::empty()
        &&& self.time_of_day@ == Seq::<char>::empty()
        &&& self.date@ == Seq::<char>::empty()
        &&& self.earth_rotation_speedup_factor@ == Seq::<char>::empty()
        &&& self.unofficial@ == Seq::<char>::empty()
        &&& self.commercial_mode@ == Seq::<char>::empty()
        &&& self.night_mode@ == Seq::<char>::empty()
        &&& self.is_fixed_setup@ == Seq::<char>::empty()
        &&& self.strict_laps_checking@ == Seq::<char>::empty()
        &&& self.has_open_registration@ == Seq::<char>::empty()
        &&& self.hardcore_level@ == Seq::<char>::empty()
        &&& self.num_joker_laps@ == Seq::<char>::empty()
        &&& self.incident_limit@ == Seq::<char>::empty()
        &&& self.fast_repairs_limit@ == Seq::<char>::empty()
        &&& self.green_white_checkered_limit@ == Seq::<char>::empty()
        &&& self.telemetry_options.is_blank()
    }
}

impl Default for WeekendOptions {
    fn default() -> (r: Self)
        ensures
            r.is_blank(),
    {
        WeekendOptions {
            num_starters: String::new(),
            starting_grid: String::new(),
            qualify_scoring: String::new(),
            course_cautions: String::new(),
            standing_start: String::new(),
            short_parade_lap: String::new(),
            restarts: String::new(),
            weather_type: String::new(),
            skies: String::new(),
            wind_direction: String::new(),
            wind_speed: String::new(),
            weather_temp: String::new(),
            relative_humidity: String::new(),
            fog_level: String::new(),
            time_of_day: String::new(),
            date: String::new(),
            earth_rotation_speedup_factor: String::new(),
            unofficial: String::new(),
            commercial_mode: String::new(),
            night_mode: String::new(),
            is_fixed_setup: String::new(),
            strict_laps_checking: String::new(),
            has_open_registration: String::new(),
            hardcore_level: String::new(),
            num_joker_laps: String::new(),
            incident_limit: String::new(),
            fast_repairs_limit: String::new(),
            green_white_checkered_limit: String::new(),
            telemetry_options: TelemetryOptions::default(),
        }
    }
}

impl TelemetryOptions {
    /// Every text field is empty, every number zero, every list empty.
    pub open spec fn is_blank(&self) -> bool {
        &&& self.telemetry_disk_file@ == Seq::<char>::empty()
    }
}

impl Default for TelemetryOptions {
    fn default() -> (r: Self)
        ensures
            r.is_blank(),
    {
        TelemetryOptions {
            telemetry_disk_file: String::new(),
        }
    }
}

/// What the YAML reader made of the session-info text.
pub enum SessionInfoDocument {
    /// The text is one session-info document.
    Single(SessionInfo),
    /// The text is a list of session-info documents.
    List(Vec<SessionInfo>),
    /// The text is neither; the reader's message for the list attempt.
    Unreadable(String),
}

/// Why no session info could be had from the text.
#[derive(Debug)]
pub enum SessionInfoError {
    /// The text is a list of documents, but an empty one.
    NoItems,
    /// The text is neither a document nor a list of them.
    Unreadable(String),
}

/// The session info that a read text stands for: the document itself, or
/// the first of a non-empty list of them.
pub fn resolve_session_info(doc: SessionInfoDocument) -> (r: Result<SessionInfo, SessionInfoError>)
    ensures
        match doc {
            SessionInfoDocument::Single(info) => r == Ok::<SessionInfo, SessionInfoError>(info),
            SessionInfoDocument::List(items) => if items@.len() == 0 {
                r == Err::<SessionInfo, SessionInfoError>(SessionInfoError::NoItems)
            } else {
                r == Ok::<SessionInfo, SessionInfoError>(items@[0])
            },
            SessionInfoDocument::Unreadable(msg) => r == Err::<SessionInfo, SessionInfoError>(
                SessionInfoError::Unreadable(msg),
            ),
        },
{
    match doc {
        SessionInfoDocument::Single(info) => Ok(info),
        SessionInfoDocument::List(mut items) => {
            if items.len() == 0 {
                Err(SessionInfoError::NoItems)
            } else {
                Ok(items.swap_remove(0))
            }
        },
        SessionInfoDocument::Unreadable(msg) => Err(SessionInfoError::Unreadable(msg)),
    }
}

} // verus!
