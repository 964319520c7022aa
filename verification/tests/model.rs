//! Domain model tests: bands, modes, validation, classes, contacts, and
//! the activation arithmetic.

use duklog::model::band::Band;
use duklog::model::mode::Mode;
use duklog::model::log::{
    FdClass, FdPowerCategory, FieldDayLog, GeneralLog, Log, PotaLog, WfdClass, WfdLog,
    parse_fd_class, parse_wfd_class,
};
use duklog::model::qso::Qso;
use duklog::model::validation::{
    normalize_grid_square, normalize_park_ref, validate_callsign, validate_grid_square,
    validate_park_ref, validate_section, validate_tx_count, ValidationError,
};
use duklog::time::{Date, Timestamp};

fn ts(year: u16, month: u8, day: u8, hour: u8, minute: u8, second: u8) -> Timestamp {
    Timestamp { year, month, day, hour, minute, second }
}

fn make_qso_on_date_with_call(call: &str, date: Date) -> Qso {
    Qso::new(
        call.to_string(),
        "59".to_string(),
        "59".to_string(),
        Band::M20,
        Mode::Ssb,
        ts(date.year, date.month, date.day, 12, 0, 0),
        String::new(),
        None,
        None,
        None,
    )
    .unwrap()
}

fn make_candidate(call: &str, band: Band, mode: Mode, date: Date) -> Qso {
    Qso::new(
        call.to_string(),
        mode.default_rst().to_string(),
        mode.default_rst().to_string(),
        band,
        mode,
        ts(date.year, date.month, date.day, 12, 0, 0),
        String::new(),
        None,
        None,
        None,
    )
    .unwrap()
}

fn make_log() -> Log {
    Log::Pota(
        PotaLog::new(
            "W1AW".to_string(),
            Some("W1AW".to_string()),
            Some("K-0001".to_string()),
            "FN31".to_string(),
            ts(2026, 2, 16, 12, 0, 0),
        )
        .unwrap(),
    )
}

// --- Band ---

#[test]
fn adif_str_all_bands() {
    assert_eq!(Band::M160.adif_str(), "160M");
    assert_eq!(Band::M80.adif_str(), "80M");
    assert_eq!(Band::M60.adif_str(), "60M");
    assert_eq!(Band::M40.adif_str(), "40M");
    assert_eq!(Band::M30.adif_str(), "30M");
    assert_eq!(Band::M20.adif_str(), "20M");
    assert_eq!(Band::M17.adif_str(), "17M");
    assert_eq!(Band::M15.adif_str(), "15M");
    assert_eq!(Band::M12.adif_str(), "12M");
    assert_eq!(Band::M10.adif_str(), "10M");
    assert_eq!(Band::M6.adif_str(), "6M");
    assert_eq!(Band::M2.adif_str(), "2M");
    assert_eq!(Band::Cm70.adif_str(), "70CM");
}

#[test]
fn all_returns_13_bands() {
    assert_eq!(Band::all().len(), 13);
}

#[test]
fn all_starts_with_160m_ends_with_70cm() {
    assert_eq!(Band::all().first(), Some(&Band::M160));
    assert_eq!(Band::all().last(), Some(&Band::Cm70));
}

#[test]
fn default_is_20m() {
    assert_eq!(Band::default(), Band::M20);
}

// --- Mode ---

#[test]
fn adif_str_all_modes() {
    assert_eq!(Mode::Ssb.adif_str(), "SSB");
    assert_eq!(Mode::Cw.adif_str(), "CW");
    assert_eq!(Mode::Ft8.adif_str(), "FT8");
    assert_eq!(Mode::Ft4.adif_str(), "FT4");
    assert_eq!(Mode::Js8.adif_str(), "JS8");
    assert_eq!(Mode::Psk31.adif_str(), "PSK31");
    assert_eq!(Mode::Rtty.adif_str(), "RTTY");
    assert_eq!(Mode::Fm.adif_str(), "FM");
    assert_eq!(Mode::Am.adif_str(), "AM");
    assert_eq!(Mode::Digi.adif_str(), "DIGI");
}

#[test]
fn default_rst_all_modes() {
    assert_eq!(Mode::Ssb.default_rst(), "59");
    assert_eq!(Mode::Cw.default_rst(), "599");
    assert_eq!(Mode::Ft8.default_rst(), "-10");
    assert_eq!(Mode::Ft4.default_rst(), "-10");
    assert_eq!(Mode::Js8.default_rst(), "-10");
    assert_eq!(Mode::Psk31.default_rst(), "599");
    assert_eq!(Mode::Rtty.default_rst(), "599");
    assert_eq!(Mode::Fm.default_rst(), "59");
    assert_eq!(Mode::Am.default_rst(), "59");
    assert_eq!(Mode::Digi.default_rst(), "-10");
}

#[test]
fn all_returns_10_modes() {
    assert_eq!(Mode::all().len(), 10);
}

#[test]
fn default_is_ssb() {
    assert_eq!(Mode::default(), Mode::Ssb);
}

// --- validate_callsign ---

#[test]
fn callsign_simple() {
    assert_eq!(validate_callsign("W1AW"), Ok(()));
}

#[test]
fn callsign_with_slash() {
    assert_eq!(validate_callsign("W1AW/P"), Ok(()));
}

#[test]
fn callsign_empty() {
    assert_eq!(validate_callsign(""), Err(ValidationError::EmptyCallsign));
}

#[test]
fn callsign_invalid_chars() {
    assert_eq!(
        validate_callsign("W1 AW"),
        Err(ValidationError::InvalidCallsign("W1 AW".to_string()))
    );
}

// --- validate_park_ref ---

#[test]
fn park_ref_us() {
    assert_eq!(validate_park_ref("K-0001"), Ok(()));
}

#[test]
fn park_ref_canada() {
    assert_eq!(validate_park_ref("VE-01234"), Ok(()));
}

#[test]
fn park_ref_three_letter() {
    assert_eq!(validate_park_ref("JAS-1234"), Ok(()));
}

#[test]
fn park_ref_too_few_digits() {
    assert_eq!(
        validate_park_ref("K-001"),
        Err(ValidationError::InvalidParkRef("K-001".to_string()))
    );
}

#[test]
fn park_ref_too_many_digits() {
    assert_eq!(
        validate_park_ref("K-123456"),
        Err(ValidationError::InvalidParkRef("K-123456".to_string()))
    );
}

#[test]
fn park_ref_lowercase() {
    assert_eq!(
        validate_park_ref("k-0001"),
        Err(ValidationError::InvalidParkRef("k-0001".to_string()))
    );
}

#[test]
fn park_ref_empty() {
    assert_eq!(
        validate_park_ref(""),
        Err(ValidationError::InvalidParkRef(String::new()))
    );
}

#[test]
fn park_ref_no_dash() {
    assert_eq!(
        validate_park_ref("K0001"),
        Err(ValidationError::InvalidParkRef("K0001".to_string()))
    );
}

// --- validate_grid_square ---

#[test]
fn grid_four_char() {
    assert_eq!(validate_grid_square("FN31"), Ok(()));
}

#[test]
fn grid_six_char() {
    assert_eq!(validate_grid_square("FN31pr"), Ok(()));
}

#[test]
fn grid_boundary_values() {
    assert_eq!(validate_grid_square("AA00"), Ok(()));
    assert_eq!(validate_grid_square("RR99"), Ok(()));
    assert_eq!(validate_grid_square("AA00aa"), Ok(()));
    assert_eq!(validate_grid_square("RR99xx"), Ok(()));
}

#[test]
fn grid_out_of_range_field() {
    assert_eq!(
        validate_grid_square("SA00"),
        Err(ValidationError::InvalidGridSquare("SA00".to_string()))
    );
}

#[test]
fn grid_uppercase_subsquare() {
    assert_eq!(
        validate_grid_square("FN31PR"),
        Err(ValidationError::InvalidGridSquare("FN31PR".to_string()))
    );
}

#[test]
fn grid_five_chars() {
    assert_eq!(
        validate_grid_square("FN31p"),
        Err(ValidationError::InvalidGridSquare("FN31p".to_string()))
    );
}

#[test]
fn grid_empty() {
    assert_eq!(
        validate_grid_square(""),
        Err(ValidationError::InvalidGridSquare(String::new()))
    );
}

#[test]
fn grid_subsquare_out_of_range() {
    assert_eq!(
        validate_grid_square("FN31yy"),
        Err(ValidationError::InvalidGridSquare("FN31yy".to_string()))
    );
}

// --- normalization ---

#[test]
fn grid_normalization_forms() {
    assert_eq!(normalize_grid_square("fn31pr"), "FN31pr");
    assert_eq!(normalize_grid_square("FN31PR"), "FN31pr");
    assert_eq!(normalize_grid_square("fn31"), "FN31");
}

#[test]
fn park_ref_normalization() {
    assert_eq!(normalize_park_ref("k-0001"), "K-0001");
}

// --- section / tx count ---

#[test]
fn section_nonempty_ok() {
    assert_eq!(validate_section("EPA"), Ok(()));
    assert_eq!(validate_section(""), Err(ValidationError::EmptySection));
}

#[test]
fn tx_count_at_least_one() {
    assert_eq!(validate_tx_count(1), Ok(()));
    assert_eq!(validate_tx_count(0), Err(ValidationError::InvalidTxCount));
}

// --- parse_fd_class ---

#[test]
fn parse_fd_class_valid_letters() {
    assert_eq!(parse_fd_class("A"), Ok(FdClass::A));
    assert_eq!(parse_fd_class("B"), Ok(FdClass::B));
    assert_eq!(parse_fd_class("C"), Ok(FdClass::C));
    assert_eq!(parse_fd_class("D"), Ok(FdClass::D));
    assert_eq!(parse_fd_class("E"), Ok(FdClass::E));
    assert_eq!(parse_fd_class("F"), Ok(FdClass::F));
}

#[test]
fn parse_fd_class_lowercase_accepted() {
    assert_eq!(parse_fd_class("a"), Ok(FdClass::A));
    assert_eq!(parse_fd_class("f"), Ok(FdClass::F));
}

#[test]
fn parse_fd_class_invalid_returns_err() {
    assert_eq!(
        parse_fd_class("G"),
        Err(ValidationError::InvalidFdClass("G".to_string()))
    );
}

// --- parse_wfd_class ---

#[test]
fn parse_wfd_class_valid_letters() {
    assert_eq!(parse_wfd_class("H"), Ok(WfdClass::H));
    assert_eq!(parse_wfd_class("I"), Ok(WfdClass::I));
    assert_eq!(parse_wfd_class("O"), Ok(WfdClass::O));
    assert_eq!(parse_wfd_class("M"), Ok(WfdClass::M));
}

#[test]
fn parse_wfd_class_lowercase_accepted() {
    assert_eq!(parse_wfd_class("h"), Ok(WfdClass::H));
    assert_eq!(parse_wfd_class("m"), Ok(WfdClass::M));
}

#[test]
fn parse_wfd_class_invalid_returns_err() {
    assert_eq!(
        parse_wfd_class("Z"),
        Err(ValidationError::InvalidWfdClass("Z".to_string()))
    );
}

// --- Qso ---

#[test]
fn valid_qso() {
    let qso = make_candidate("W1AW", Band::M20, Mode::Ssb, Date { year: 2026, month: 2, day: 16 });
    assert_eq!(qso.their_call, "W1AW");
    assert_eq!(qso.rst_sent, "59");
    assert_eq!(qso.rst_rcvd, "59");
    assert_eq!(qso.band, Band::M20);
    assert_eq!(qso.mode, Mode::Ssb);
    assert_eq!(qso.comments, "");
    assert_eq!(qso.their_park, None);
}

#[test]
fn empty_callsign_rejected() {
    let result = Qso::new(
        String::new(),
        "59".to_string(),
        "59".to_string(),
        Band::M20,
        Mode::Ssb,
        ts(2026, 2, 16, 12, 0, 0),
        String::new(),
        None,
        None,
        None,
    );
    assert_eq!(result, Err(ValidationError::EmptyCallsign));
}

#[test]
fn invalid_park_ref_rejected() {
    let result = Qso::new(
        "W1AW".to_string(),
        "59".to_string(),
        "59".to_string(),
        Band::M20,
        Mode::Ssb,
        ts(2026, 2, 16, 12, 0, 0),
        String::new(),
        Some("bad".to_string()),
        None,
        None,
    );
    assert_eq!(result, Err(ValidationError::InvalidParkRef("bad".to_string())));
}

// --- Log construction ---

#[test]
fn valid_pota_log_creation_with_park() {
    let log = make_log();
    assert_eq!(log.header().station_callsign, "W1AW");
    assert_eq!(log.header().operator, Some("W1AW".to_string()));
    assert_eq!(log.park_ref(), Some(&"K-0001".to_string()));
    assert_eq!(log.header().grid_square, "FN31");
    assert_eq!(log.header().qsos.len(), 0);
    assert!(log.header().log_id.starts_with("K-0001-"));
}

#[test]
fn valid_general_log_creation() {
    let log = Log::General(
        GeneralLog::new("W1AW".to_string(), None, "FN31".to_string(), ts(2026, 2, 16, 12, 0, 0))
            .unwrap(),
    );
    assert_eq!(log.header().station_callsign, "W1AW");
    assert_eq!(log.park_ref(), None);
    assert!(log.header().log_id.starts_with("W1AW-"));
}

#[test]
fn log_id_stamps() {
    let now = ts(2026, 2, 16, 12, 0, 0);
    let g = GeneralLog::new("W1AW".to_string(), None, "FN31".to_string(), now).unwrap();
    assert_eq!(g.header.log_id, "W1AW-20260216-120000");
    let p = PotaLog::new(
        "W1AW".to_string(),
        None,
        Some("K-0001".to_string()),
        "FN31".to_string(),
        now,
    )
    .unwrap();
    assert_eq!(p.header.log_id, "K-0001-20260216-120000");
    let f = FieldDayLog::new(
        "W1AW".to_string(),
        None,
        3,
        FdClass::A,
        "EPA".to_string(),
        FdPowerCategory::High,
        "FN31".to_string(),
        now,
    )
    .unwrap();
    assert_eq!(f.header.log_id, "FD-W1AW-20260216-120000");
    let w = WfdLog::new(
        "W1AW".to_string(),
        None,
        1,
        WfdClass::H,
        "EPA".to_string(),
        "FN31".to_string(),
        now,
    )
    .unwrap();
    assert_eq!(w.header.log_id, "WFD-W1AW-20260216-120000");
}

#[test]
fn field_day_zero_tx_count_rejected() {
    let result = FieldDayLog::new(
        "W1AW".to_string(),
        None,
        0,
        FdClass::B,
        "EPA".to_string(),
        FdPowerCategory::Low,
        "FN31".to_string(),
        ts(2026, 6, 27, 18, 0, 0),
    );
    assert_eq!(result, Err(ValidationError::InvalidTxCount));
}

#[test]
fn field_day_empty_section_rejected() {
    let result = FieldDayLog::new(
        "W1AW".to_string(),
        None,
        1,
        FdClass::B,
        String::new(),
        FdPowerCategory::Low,
        "FN31".to_string(),
        ts(2026, 6, 27, 18, 0, 0),
    );
    assert_eq!(result, Err(ValidationError::EmptySection));
}

// --- display labels ---

#[test]
fn display_label_with_park_returns_park_ref() {
    assert_eq!(make_log().display_label(), "K-0001");
}

#[test]
fn display_label_field_day_returns_exchange() {
    let log = Log::FieldDay(
        FieldDayLog::new(
            "W1AW".to_string(),
            None,
            1,
            FdClass::B,
            "EPA".to_string(),
            FdPowerCategory::Low,
            "FN31".to_string(),
            ts(2026, 6, 27, 18, 0, 0),
        )
        .unwrap(),
    );
    assert_eq!(log.display_label(), "1B EPA");
}

// --- Activation arithmetic (unique counting per date) ---

#[test]
fn qso_count_on_date_filters_correctly() {
    let mut log = make_log();
    let date1 = Date { year: 2026, month: 1, day: 15 };
    let date2 = Date { year: 2026, month: 1, day: 16 };
    log.add_qso(make_qso_on_date_with_call("KD9XYZ", date1));
    log.add_qso(make_qso_on_date_with_call("W3ABC", date1));
    log.add_qso(make_qso_on_date_with_call("N0CALL", date2));
    assert_eq!(log.qso_count_on_date(date1), 2);
    assert_eq!(log.qso_count_on_date(date2), 1);
}

#[test]
fn duplicate_qso_not_counted_for_activation() {
    let mut log = make_log();
    let date = Date { year: 2026, month: 6, day: 15 };
    log.add_qso(make_qso_on_date_with_call("KD9XYZ", date));
    log.add_qso(make_qso_on_date_with_call("KD9XYZ", date));
    assert_eq!(log.qso_count_on_date(date), 1);
}

#[test]
fn different_band_same_call_counts_separately() {
    let mut log = make_log();
    let date = Date { year: 2026, month: 6, day: 15 };
    log.add_qso(make_candidate("KD9XYZ", Band::M20, Mode::Ssb, date));
    log.add_qso(make_candidate("KD9XYZ", Band::M40, Mode::Ssb, date));
    assert_eq!(log.qso_count_on_date(date), 2);
}

#[test]
fn different_mode_same_call_counts_separately() {
    let mut log = make_log();
    let date = Date { year: 2026, month: 6, day: 15 };
    log.add_qso(make_candidate("KD9XYZ", Band::M20, Mode::Ssb, date));
    log.add_qso(make_candidate("KD9XYZ", Band::M20, Mode::Cw, date));
    assert_eq!(log.qso_count_on_date(date), 2);
}

#[test]
fn activation_thresholds_per_count() {
    // needs = max(0, 10 - n) and activated = (n >= 10), for a spread of n.
    for n in [0usize, 1, 5, 9, 10, 11, 20] {
        let mut log = make_log();
        let date = Date { year: 2026, month: 6, day: 15 };
        for i in 0..n {
            log.add_qso(make_qso_on_date_with_call(&format!("W{i}AW"), date));
        }
        assert_eq!(log.qso_count_on_date(date), n);
        assert_eq!(log.needs_for_activation_on(date), 10usize.saturating_sub(n));
        assert_eq!(log.is_activated_on(date), n >= 10);
    }
}

#[test]
fn general_log_is_never_activated() {
    let mut log = Log::General(
        GeneralLog::new("W1AW".to_string(), None, "FN31".to_string(), ts(2026, 2, 16, 12, 0, 0))
            .unwrap(),
    );
    let date = Date { year: 2026, month: 6, day: 15 };
    for i in 0..20 {
        log.add_qso(make_qso_on_date_with_call(&format!("W{i}AW"), date));
    }
    assert!(!log.is_activated_on(date));
    assert_eq!(log.needs_for_activation_on(date), 0);
}

#[test]
fn utc_midnight_boundary() {
    let mut log = make_log();
    let q1 = Qso::new(
        "W1AW".to_string(),
        "59".to_string(),
        "59".to_string(),
        Band::M20,
        Mode::Ssb,
        ts(2026, 3, 1, 23, 59, 59),
        String::new(),
        None,
        None,
        None,
    )
    .unwrap();
    let q2 = Qso::new(
        "W1AW".to_string(),
        "59".to_string(),
        "59".to_string(),
        Band::M20,
        Mode::Ssb,
        ts(2026, 3, 2, 0, 0, 0),
        String::new(),
        None,
        None,
        None,
    )
    .unwrap();
    log.add_qso(q1);
    log.add_qso(q2);
    assert_eq!(log.qso_count_on_date(Date { year: 2026, month: 3, day: 1 }), 1);
    assert_eq!(log.qso_count_on_date(Date { year: 2026, month: 3, day: 2 }), 1);
}

// --- End-to-end activation scenario ---

#[test]
fn end_to_end_activation_scenario() {
    let mut log = make_log();
    let date = Date { year: 2026, month: 2, day: 16 };
    for i in 0..10 {
        log.add_qso(make_qso_on_date_with_call(&format!("K{i}ABC"), date));
    }
    assert!(log.is_activated_on(date));
    assert_eq!(log.needs_for_activation_on(date), 0);
    // An eleventh contact that repeats a callsign/band/mode leaves the
    // unique count unchanged.
    log.add_qso(make_qso_on_date_with_call("K0ABC", date));
    assert_eq!(log.qso_count_on_date(date), 10);
}

// --- find_duplicates ---

#[test]
fn find_duplicates_on_exact_match_detected() {
    let mut log = make_log();
    let date = Date { year: 2026, month: 6, day: 15 };
    log.add_qso(make_candidate("KD9XYZ", Band::M20, Mode::Ssb, date));
    let candidate = make_candidate("KD9XYZ", Band::M20, Mode::Ssb, date);
    assert_eq!(log.find_duplicates_on(&candidate, Some(date)), vec![0]);
}

#[test]
fn find_duplicates_case_insensitive_callsign() {
    let mut log = make_log();
    let date = Date { year: 2026, month: 6, day: 15 };
    log.add_qso(make_candidate("KD9XYZ", Band::M20, Mode::Ssb, date));
    let candidate = make_candidate("kd9xyz", Band::M20, Mode::Ssb, date);
    assert_eq!(log.find_duplicates_on(&candidate, Some(date)).len(), 1);
}

#[test]
fn find_duplicates_different_band_not_flagged() {
    let mut log = make_log();
    let date = Date { year: 2026, month: 6, day: 15 };
    log.add_qso(make_candidate("KD9XYZ", Band::M20, Mode::Ssb, date));
    let candidate = make_candidate("KD9XYZ", Band::M40, Mode::Ssb, date);
    assert_eq!(log.find_duplicates_on(&candidate, Some(date)).len(), 0);
}

#[test]
fn find_duplicates_on_none_searches_all_dates() {
    let mut log = make_log();
    let d1 = Date { year: 2026, month: 6, day: 14 };
    let d2 = Date { year: 2026, month: 6, day: 15 };
    log.add_qso(make_candidate("KD9XYZ", Band::M20, Mode::Ssb, d1));
    log.add_qso(make_candidate("KD9XYZ", Band::M20, Mode::Ssb, d2));
    let candidate = make_candidate("KD9XYZ", Band::M20, Mode::Ssb, d2);
    assert_eq!(log.find_duplicates_on(&candidate, None).len(), 2);
    assert_eq!(log.find_duplicates_on(&candidate, Some(d2)).len(), 1);
}

#[test]
fn field_day_find_duplicates_spans_all_dates() {
    let mut log = Log::FieldDay(
        FieldDayLog::new(
            "W1AW".to_string(),
            None,
            1,
            FdClass::B,
            "EPA".to_string(),
            FdPowerCategory::Low,
            "FN31".to_string(),
            ts(2026, 6, 27, 18, 0, 0),
        )
        .unwrap(),
    );
    // A contact on an earlier date still counts as a duplicate for a
    // contest log, because its duplicate scope is the whole log.
    let yesterday = Date { year: 2026, month: 6, day: 27 };
    log.add_qso(make_candidate("KD9XYZ", Band::M20, Mode::Ssb, yesterday));
    let candidate = make_candidate(
        "KD9XYZ",
        Band::M20,
        Mode::Ssb,
        Date { year: 2026, month: 6, day: 28 },
    );
    assert_eq!(log.find_duplicates(&candidate).len(), 1);
}

// --- replace_qso ---

#[test]
fn replace_qso_at_valid_index_returns_old() {
    let mut log = make_log();
    let d1 = Date { year: 2026, month: 1, day: 15 };
    let d2 = Date { year: 2026, month: 2, day: 20 };
    let q1 = make_qso_on_date_with_call("KD9XYZ", d1);
    log.add_qso(q1.clone());
    let q2 = make_qso_on_date_with_call("KD9XYZ", d2);
    let old = log.replace_qso(0, q2.clone());
    assert_eq!(old, Some(q1));
    assert_eq!(log.header().qsos[0], q2);
}

#[test]
fn replace_qso_out_of_bounds_returns_none() {
    let mut log = make_log();
    let q = make_qso_on_date_with_call("KD9XYZ", Date { year: 2026, month: 1, day: 15 });
    assert_eq!(log.replace_qso(0, q), None);
}

#[test]
fn add_qso_increments_count() {
    let mut log = make_log();
    assert_eq!(log.header().qsos.len(), 0);
    log.add_qso(make_qso_on_date_with_call("KD9XYZ", Date { year: 2026, month: 1, day: 15 }));
    assert_eq!(log.header().qsos.len(), 1);
}
