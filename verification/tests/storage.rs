//! Storage tests: the record codec round trip, duplicate-session
//! detection, path safety, and export paths.

use duklog::adif::{format_adif, format_header, format_qso};
use duklog::model::band::Band;
use duklog::model::mode::Mode;
use duklog::model::log::{
    FdClass, FdPowerCategory, FieldDayLog, GeneralLog, Log, PotaLog, WfdClass, WfdLog,
};
use duklog::model::qso::Qso;
use duklog::storage::{
    LogManager, StorageError, default_export_filename, duplicate_check, encode_log_file,
    encode_qso_line, log_config_eq, operator_eq, park_ref_eq, parse_log_file, parse_qso_line,
    sort_logs_desc,
};
use duklog::time::Timestamp;

fn ts(year: u16, month: u8, day: u8, hour: u8, minute: u8, second: u8) -> Timestamp {
    Timestamp { year, month, day, hour, minute, second }
}

fn make_log() -> Log {
    Log::Pota(
        PotaLog::new(
            "W1AW".to_string(),
            Some("W1AW".to_string()),
            Some("K-0001".to_string()),
            "FN31".to_string(),
            ts(2026, 2, 16, 12, 0, 0),
        )
        .unwrap(),
    )
}

fn make_qso() -> Qso {
    Qso::new(
        "KD9XYZ".to_string(),
        "59".to_string(),
        "59".to_string(),
        Band::M20,
        Mode::Ssb,
        ts(2026, 2, 16, 14, 30, 0),
        String::new(),
        None,
        None,
        None,
    )
    .unwrap()
}

fn make_p2p_qso() -> Qso {
    Qso::new(
        "N0CALL".to_string(),
        "59".to_string(),
        "59".to_string(),
        Band::M40,
        Mode::Cw,
        ts(2026, 2, 16, 15, 0, 0),
        "P2P".to_string(),
        Some("K-1234".to_string()),
        None,
        None,
    )
    .unwrap()
}

// --- Round trip: encode then parse ---

#[test]
fn save_and_load_empty_log() {
    let log = make_log();
    let text = encode_log_file(&log);
    let loaded = parse_log_file(&text, "test").unwrap();
    assert_eq!(log, loaded);
}

#[test]
fn save_and_load_log_with_qsos() {
    let mut log = make_log();
    log.add_qso(make_qso());
    log.add_qso(make_p2p_qso());
    let text = encode_log_file(&log);
    let loaded = parse_log_file(&text, "test").unwrap();
    assert_eq!(log, loaded);
}

#[test]
fn round_trip_preserves_qso_count() {
    for n in 0..=20usize {
        let mut log = make_log();
        for _ in 0..n {
            log.add_qso(make_qso());
        }
        let text = encode_log_file(&log);
        let loaded = parse_log_file(&text, "test").unwrap();
        assert_eq!(loaded.header().qsos.len(), n);
        assert_eq!(loaded, log);
    }
}

#[test]
fn round_trip_every_log_type() {
    let now = ts(2026, 2, 16, 12, 0, 0);
    let logs = vec![
        Log::General(GeneralLog::new("W1AW".to_string(), None, "FN31".to_string(), now).unwrap()),
        Log::Pota(
            PotaLog::new("W1AW".to_string(), Some("KD9XYZ".to_string()), None, "FN31pr".to_string(), now)
                .unwrap(),
        ),
        Log::FieldDay(
            FieldDayLog::new(
                "W1AW".to_string(),
                None,
                3,
                FdClass::A,
                "EPA".to_string(),
                FdPowerCategory::Qrp,
                "FN31".to_string(),
                now,
            )
            .unwrap(),
        ),
        Log::WinterFieldDay(
            WfdLog::new(
                "W1AW".to_string(),
                None,
                2,
                WfdClass::O,
                "EPA".to_string(),
                "FN31".to_string(),
                now,
            )
            .unwrap(),
        ),
    ];
    for log in logs {
        let text = encode_log_file(&log);
        let loaded = parse_log_file(&text, "test").unwrap();
        assert_eq!(log, loaded);
    }
}

#[test]
fn round_trip_keeps_special_comment_text() {
    let mut log = make_log();
    let qso = Qso::new(
        "KD9XYZ".to_string(),
        "59".to_string(),
        "59".to_string(),
        Band::M20,
        Mode::Ssb,
        ts(2026, 2, 16, 14, 30, 0),
        "line\nbreak \"quoted\" back\\slash\ttab".to_string(),
        None,
        Some("3A".to_string()),
        Some("EPA".to_string()),
    )
    .unwrap();
    log.add_qso(qso);
    let text = encode_log_file(&log);
    let loaded = parse_log_file(&text, "test").unwrap();
    assert_eq!(log, loaded);
}

#[test]
fn qso_line_round_trip() {
    let qso = make_p2p_qso();
    let line = encode_qso_line(&qso);
    let parsed = parse_qso_line(&line).unwrap();
    assert_eq!(parsed, qso);
}

// --- Lenient reading of older records ---

#[test]
fn old_format_operator_string_deserializes_to_some() {
    let json = r#"{"station_callsign":"W1AW","operator":"W1AW","park_ref":null,"grid_square":"FN31","created_at":"2026-02-16T12:00:00Z","log_id":"compat"}"#;
    let text = format!("{json}\n");
    let loaded = parse_log_file(&text, "compat").unwrap();
    assert_eq!(loaded.header().operator, Some("W1AW".to_string()));
}

#[test]
fn old_format_without_log_type_deserializes_as_pota() {
    let json = r#"{"station_callsign":"W1AW","operator":"W1AW","park_ref":"K-0001","grid_square":"FN31","created_at":"2026-02-16T12:00:00Z","log_id":"compat-pota"}"#;
    let text = format!("{json}\n");
    let loaded = parse_log_file(&text, "compat-pota").unwrap();
    assert!(matches!(loaded, Log::Pota(_)));
    assert_eq!(loaded.park_ref(), Some(&"K-0001".to_string()));
}

#[test]
fn fractional_second_timestamps_accepted() {
    let json = r#"{"station_callsign":"W1AW","operator":null,"park_ref":null,"grid_square":"FN31","created_at":"2026-02-16T12:00:00.123456789Z","log_id":"frac"}"#;
    let text = format!("{json}\n");
    let loaded = parse_log_file(&text, "frac").unwrap();
    assert_eq!(loaded.header().created_at, ts(2026, 2, 16, 12, 0, 0));
}

#[test]
fn load_empty_file_returns_empty_log_error() {
    let result = parse_log_file("", "empty");
    assert!(matches!(result, Err(StorageError::EmptyLogFile(_))));
}

#[test]
fn load_corrupt_json_returns_error() {
    let result = parse_log_file("{not valid json}\n", "bad");
    assert!(matches!(result, Err(StorageError::Json(_))));
}

#[test]
fn load_corrupt_qso_line_returns_error() {
    let log = make_log();
    let mut text = encode_log_file(&log);
    text.push_str("{bad qso}\n");
    let result = parse_log_file(&text, "bad");
    assert!(matches!(result, Err(StorageError::Json(_))));
}

// --- Path safety ---

#[test]
fn log_path_replaces_slashes() {
    let manager = LogManager::new("/data/logs".to_string());
    assert_eq!(
        manager.log_path("W1AW/P-20260216-120000"),
        "/data/logs/W1AW_P-20260216-120000.jsonl"
    );
}

#[test]
fn log_id_with_slash_round_trips() {
    let log = Log::Pota(
        PotaLog::new(
            "W1AW/P".to_string(),
            None,
            None,
            "FN31".to_string(),
            ts(2026, 2, 16, 12, 0, 0),
        )
        .unwrap(),
    );
    assert_eq!(log.header().log_id, "W1AW/P-20260216-120000");
    let manager = LogManager::new("logs".to_string());
    // The on-disk name is sanitized, the logical id keeps the slash.
    assert_eq!(manager.log_path(&log.header().log_id), "logs/W1AW_P-20260216-120000.jsonl");
    let text = encode_log_file(&log);
    let loaded = parse_log_file(&text, "test").unwrap();
    assert_eq!(loaded.header().log_id, "W1AW/P-20260216-120000");
}

// --- operator_eq ---

#[test]
fn none_and_none_are_equal() {
    assert!(operator_eq(&None, &None));
}

#[test]
fn some_and_none_differ() {
    assert!(!operator_eq(&Some("W1AW".into()), &None));
}

#[test]
fn none_and_some_differ() {
    assert!(!operator_eq(&None, &Some("W1AW".into())));
}

#[test]
fn same_case_some_are_equal() {
    assert!(operator_eq(&Some("W1AW".into()), &Some("W1AW".into())));
}

#[test]
fn different_case_some_are_equal() {
    assert!(operator_eq(&Some("W1AW".into()), &Some("w1aw".into())));
}

#[test]
fn different_callsign_some_differ() {
    assert!(!operator_eq(&Some("W1AW".into()), &Some("KD9XYZ".into())));
}

// --- park_ref_eq ---

#[test]
fn manager_none_and_none_are_equal() {
    assert!(park_ref_eq(&None, &None));
}

#[test]
fn manager_some_and_none_differ() {
    assert!(!park_ref_eq(&Some("K-0001".into()), &None));
}

#[test]
fn manager_none_and_some_differ() {
    assert!(!park_ref_eq(&None, &Some("K-0001".into())));
}

#[test]
fn same_park_ref_equal() {
    assert!(park_ref_eq(&Some("K-0001".into()), &Some("K-0001".into())));
}

#[test]
fn different_case_park_ref_equal() {
    assert!(park_ref_eq(&Some("k-0001".into()), &Some("K-0001".into())));
}

#[test]
fn different_park_ref_differ() {
    assert!(!park_ref_eq(&Some("K-0001".into()), &Some("K-0002".into())));
}

// --- Duplicate-checked creation ---

fn pota(callsign: &str, operator: Option<&str>, park: Option<&str>, grid: &str, t: Timestamp) -> Log {
    Log::Pota(
        PotaLog::new(
            callsign.to_string(),
            operator.map(|s| s.to_string()),
            park.map(|s| s.to_string()),
            grid.to_string(),
            t,
        )
        .unwrap(),
    )
}

#[test]
fn create_log_rejects_exact_duplicate_same_day() {
    let t = ts(2026, 2, 16, 12, 0, 0);
    let existing = vec![pota("W1AW", Some("W1AW"), Some("K-0001"), "FN31", t)];
    let new_log = pota("W1AW", Some("W1AW"), Some("K-0001"), "FN31", ts(2026, 2, 16, 15, 0, 0));
    let result = duplicate_check(&existing, &new_log);
    assert!(matches!(result, Err(StorageError::DuplicateLog { .. })));
}

#[test]
fn create_log_allows_different_utc_day() {
    let existing = vec![pota("W1AW", Some("W1AW"), Some("K-0001"), "FN31", ts(2026, 2, 15, 12, 0, 0))];
    let new_log = pota("W1AW", Some("W1AW"), Some("K-0001"), "FN31", ts(2026, 2, 16, 12, 0, 0));
    assert_eq!(duplicate_check(&existing, &new_log), Ok(()));
}

#[test]
fn create_log_allows_different_callsign() {
    let t = ts(2026, 2, 16, 12, 0, 0);
    let existing = vec![pota("W1AW", Some("W1AW"), Some("K-0001"), "FN31", t)];
    let new_log = pota("KD9XYZ", Some("W1AW"), Some("K-0001"), "FN31", t);
    assert_eq!(duplicate_check(&existing, &new_log), Ok(()));
}

#[test]
fn create_log_allows_different_operator() {
    let t = ts(2026, 2, 16, 12, 0, 0);
    let existing = vec![pota("W1AW", Some("W1AW"), Some("K-0001"), "FN31", t)];
    let new_log = pota("W1AW", Some("KD9XYZ"), Some("K-0001"), "FN31", t);
    assert_eq!(duplicate_check(&existing, &new_log), Ok(()));
}

#[test]
fn create_log_allows_different_grid() {
    let t = ts(2026, 2, 16, 12, 0, 0);
    let existing = vec![pota("W1AW", Some("W1AW"), Some("K-0001"), "FN31", t)];
    let new_log = pota("W1AW", Some("W1AW"), Some("K-0001"), "EM10", t);
    assert_eq!(duplicate_check(&existing, &new_log), Ok(()));
}

#[test]
fn create_log_allows_different_park_ref() {
    let t = ts(2026, 2, 16, 12, 0, 0);
    let existing = vec![pota("W1AW", Some("W1AW"), Some("K-0001"), "FN31", t)];
    let new_log = pota("W1AW", Some("W1AW"), Some("K-0002"), "FN31", t);
    assert_eq!(duplicate_check(&existing, &new_log), Ok(()));
}

#[test]
fn create_log_allows_pota_no_park_vs_pota_with_park() {
    let t = ts(2026, 2, 16, 12, 0, 0);
    let existing = vec![pota("W1AW", Some("W1AW"), Some("K-0001"), "FN31", t)];
    let new_log = pota("W1AW", Some("W1AW"), None, "FN31", t);
    assert_eq!(duplicate_check(&existing, &new_log), Ok(()));
}

#[test]
fn create_log_rejects_duplicate_case_insensitive_callsign() {
    let t = ts(2026, 2, 16, 12, 0, 0);
    let existing = vec![pota("w1aw", Some("W1AW"), Some("K-0001"), "FN31", t)];
    let new_log = pota("W1AW", Some("W1AW"), Some("K-0001"), "FN31", t);
    assert!(matches!(duplicate_check(&existing, &new_log), Err(StorageError::DuplicateLog { .. })));
}

#[test]
fn create_log_allows_none_vs_some_operator() {
    let t = ts(2026, 2, 16, 12, 0, 0);
    let existing = vec![pota("W1AW", None, Some("K-0001"), "FN31", t)];
    let new_log = pota("W1AW", Some("W1AW"), Some("K-0001"), "FN31", t);
    assert_eq!(duplicate_check(&existing, &new_log), Ok(()));
}

#[test]
fn create_log_rejects_duplicate_general_logs() {
    let t = ts(2026, 2, 16, 12, 0, 0);
    let g1 = Log::General(GeneralLog::new("W1AW".to_string(), Some("W1AW".to_string()), "FN31".to_string(), t).unwrap());
    let g2 = Log::General(GeneralLog::new("W1AW".to_string(), Some("W1AW".to_string()), "FN31".to_string(), t).unwrap());
    let existing = vec![g1];
    assert!(matches!(duplicate_check(&existing, &g2), Err(StorageError::DuplicateLog { .. })));
}

#[test]
fn create_log_allows_pota_vs_general_same_callsign() {
    let t = ts(2026, 2, 16, 12, 0, 0);
    let existing = vec![pota("W1AW", Some("W1AW"), Some("K-0001"), "FN31", t)];
    let g = Log::General(GeneralLog::new("W1AW".to_string(), Some("W1AW".to_string()), "FN31".to_string(), t).unwrap());
    assert_eq!(duplicate_check(&existing, &g), Ok(()));
    assert!(!log_config_eq(&existing[0], &g));
}

#[test]
fn create_log_error_contains_callsign_and_date() {
    let t = ts(2026, 2, 16, 12, 0, 0);
    let existing = vec![pota("W1AW", Some("W1AW"), Some("K-0001"), "FN31", t)];
    let new_log = pota("W1AW", Some("W1AW"), Some("K-0001"), "FN31", t);
    let err = duplicate_check(&existing, &new_log).unwrap_err();
    let msg = err.message();
    assert!(msg.contains("W1AW"), "error should contain callsign");
    assert!(msg.contains("UTC"), "error should reference UTC");
    assert!(msg.contains("2026-02-16"), "error should contain the date");
}

#[test]
fn create_log_allows_contest_logs_with_different_exchanges() {
    let t = ts(2026, 6, 27, 18, 0, 0);
    let fd = |tx: u8, class: FdClass, section: &str| -> Log {
        Log::FieldDay(
            FieldDayLog::new(
                "W1AW".to_string(),
                None,
                tx,
                class,
                section.to_string(),
                FdPowerCategory::Low,
                "FN31".to_string(),
                t,
            )
            .unwrap(),
        )
    };
    let existing = vec![fd(3, FdClass::A, "EPA")];
    // A different class, section, or transmitter count is a different
    // type-specific configuration, not a duplicate.
    assert_eq!(duplicate_check(&existing, &fd(3, FdClass::B, "EPA")), Ok(()));
    assert_eq!(duplicate_check(&existing, &fd(3, FdClass::A, "WPA")), Ok(()));
    assert_eq!(duplicate_check(&existing, &fd(2, FdClass::A, "EPA")), Ok(()));
    // The same configuration on the same day is a duplicate, with the
    // section compared case-insensitively.
    assert!(matches!(
        duplicate_check(&existing, &fd(3, FdClass::A, "epa")),
        Err(StorageError::DuplicateLog { .. })
    ));
}

#[test]
fn old_format_contest_metadata_defaults_power_to_low() {
    let json = r#"{"station_callsign":"W1AW","operator":null,"park_ref":null,"grid_square":"FN31","created_at":"2026-06-27T18:00:00Z","log_id":"FD-W1AW-20260627-180000","log_type":"FieldDay","tx_count":3,"class":"A","section":"EPA"}"#;
    let text = format!("{json}\n");
    let loaded = parse_log_file(&text, "fd").unwrap();
    match loaded {
        Log::FieldDay(l) => {
            assert_eq!(l.tx_count, 3);
            assert_eq!(l.class, FdClass::A);
            assert_eq!(l.section, "EPA");
            assert_eq!(l.power, FdPowerCategory::Low);
        },
        other => panic!("expected a Field Day log, got {other:?}"),
    }
}

// --- Listing order ---

#[test]
fn list_logs_sorted_by_created_at_desc() {
    let older = pota("W1AW", None, Some("K-0001"), "FN31", ts(2025, 1, 1, 0, 0, 0));
    let newer = pota("W1AW", None, Some("K-0002"), "FN31", ts(2026, 1, 1, 0, 0, 0));
    let sorted = sort_logs_desc(vec![older, newer]);
    assert_eq!(sorted.len(), 2);
    assert_eq!(sorted[0].header().created_at.year, 2026);
    assert_eq!(sorted[1].header().created_at.year, 2025);
}

// --- ADIF formatting ---

#[test]
fn header_contains_adif_ver() {
    assert!(format_header(&make_log()).contains("<ADIF_VER:5>3.1.6"));
}

#[test]
fn header_contains_programid() {
    assert!(format_header(&make_log()).contains("<PROGRAMID:6>duklog"));
}

#[test]
fn header_contains_created_timestamp() {
    assert!(format_header(&make_log()).contains("<CREATED_TIMESTAMP:15>20260216 120000"));
}

#[test]
fn header_ends_with_eoh() {
    let header = format_header(&make_log());
    assert!(header.contains("<eoh>"));
    assert!(header.ends_with("<eoh>\n\n"));
}

#[test]
fn qso_contains_required_fields() {
    let record = format_qso(&make_log(), &make_qso());
    assert!(record.contains("<STATION_CALLSIGN:4>W1AW"));
    assert!(record.contains("<CALL:6>KD9XYZ"));
    assert!(record.contains("<QSO_DATE:8>20260216"));
    assert!(record.contains("<TIME_ON:6>143000"));
    assert!(record.contains("<BAND:3>20M"));
    assert!(record.contains("<MODE:3>SSB"));
    assert!(record.contains("<RST_SENT:2>59"));
    assert!(record.contains("<RST_RCVD:2>59"));
    assert!(record.contains("<MY_GRIDSQUARE:4>FN31"));
}

#[test]
fn qso_same_operator_excludes_operator_field() {
    let record = format_qso(&make_log(), &make_qso());
    assert!(!record.contains("OPERATOR"));
}

#[test]
fn qso_distinct_operator() {
    let log = Log::Pota(
        PotaLog::new(
            "W1AW".to_string(),
            Some("N0CALL".to_string()),
            Some("K-0001".to_string()),
            "FN31".to_string(),
            ts(2026, 2, 16, 12, 0, 0),
        )
        .unwrap(),
    );
    let record = format_qso(&log, &make_qso());
    assert!(record.contains("<STATION_CALLSIGN:4>W1AW"));
    assert!(record.contains("<OPERATOR:6>N0CALL"));
}

#[test]
fn qso_with_park_includes_my_sig() {
    let record = format_qso(&make_log(), &make_qso());
    assert!(record.contains("<MY_SIG:4>POTA"));
    assert!(record.contains("<MY_SIG_INFO:6>K-0001"));
}

#[test]
fn qso_without_park_excludes_my_sig() {
    let log = Log::Pota(
        PotaLog::new("W1AW".to_string(), None, None, "FN31".to_string(), ts(2026, 2, 16, 12, 0, 0))
            .unwrap(),
    );
    let record = format_qso(&log, &make_qso());
    assert!(!record.contains("MY_SIG"));
}

#[test]
fn qso_p2p_includes_sig() {
    let record = format_qso(&make_log(), &make_p2p_qso());
    assert!(record.contains("<SIG:4>POTA"));
    assert!(record.contains("<SIG_INFO:6>K-1234"));
    assert!(record.contains("<MY_SIG_INFO:6>K-0001"));
}

#[test]
fn qso_with_comment() {
    let mut qso = make_qso();
    qso.comments = "Good signal".to_string();
    let record = format_qso(&make_log(), &qso);
    assert!(record.contains("<COMMENT:11>Good signal"));
}

#[test]
fn qso_without_comment_excludes_comment_field() {
    let record = format_qso(&make_log(), &make_qso());
    assert!(!record.contains("COMMENT"));
}

#[test]
fn qso_ends_with_eor() {
    assert!(format_qso(&make_log(), &make_qso()).ends_with("<eor>\n"));
}

#[test]
fn contest_record_carries_class_and_section() {
    let log = Log::FieldDay(
        FieldDayLog::new(
            "W1AW".to_string(),
            None,
            3,
            FdClass::B,
            "EPA".to_string(),
            FdPowerCategory::Low,
            "FN31".to_string(),
            ts(2026, 6, 27, 18, 0, 0),
        )
        .unwrap(),
    );
    let record = format_qso(&log, &make_qso());
    assert!(record.contains("<CLASS:1>B"));
    assert!(record.contains("<ARRL_SECT:3>EPA"));
}

#[test]
fn call_field_byte_length_is_exact() {
    // The declared length of CALL is the callsign's byte count.
    for call in ["K", "KD9XYZ", "VE2/W1AW/P"] {
        let qso = Qso::new(
            call.to_string(),
            "59".to_string(),
            "59".to_string(),
            Band::M20,
            Mode::Ssb,
            ts(2026, 2, 16, 14, 30, 0),
            String::new(),
            None,
            None,
            None,
        )
        .unwrap();
        let record = format_qso(&make_log(), &qso);
        let expected = format!("<CALL:{}>{}", call.len(), call);
        assert!(record.contains(&expected));
    }
}

#[test]
fn comment_byte_length_counts_utf8_bytes() {
    let mut qso = make_qso();
    qso.comments = "déjà".to_string();
    assert_eq!(qso.comments.len(), 6);
    let record = format_qso(&make_log(), &qso);
    assert!(record.contains("<COMMENT:6>déjà"));
}

#[test]
fn adif_empty_log_header_only() {
    let output = format_adif(&make_log());
    assert!(output.contains("<eoh>"));
    assert!(!output.contains("<eor>"));
}

#[test]
fn adif_with_two_qsos() {
    let mut log = make_log();
    log.add_qso(make_qso());
    log.add_qso(make_p2p_qso());
    let output = format_adif(&log);
    assert_eq!(output.matches("<eor>").count(), 2);
    assert!(output.contains("<eoh>"));
}

#[test]
fn adif_header_precedes_records() {
    let mut log = make_log();
    log.add_qso(make_qso());
    let output = format_adif(&log);
    assert!(output.find("<eoh>").unwrap() < output.find("<eor>").unwrap());
}

// --- Export paths ---

#[test]
fn default_path_with_park_ref() {
    assert_eq!(default_export_filename(&make_log()), "duklog-K-0001-20260216.adif");
}

#[test]
fn default_path_without_park_ref() {
    let log = Log::Pota(
        PotaLog::new("W1AW".to_string(), None, None, "FN31".to_string(), ts(2026, 2, 16, 12, 0, 0))
            .unwrap(),
    );
    assert_eq!(default_export_filename(&log), "duklog-W1AW-20260216.adif");
}
