//! Screen state machine tests: the shared form widget, every screen's key
//! handling, and the application state machine with in-memory effects.

use duklog::model::band::Band;
use duklog::model::mode::Mode;
use duklog::model::log::{Log, PotaLog};
use duklog::storage::LogManager;
use duklog::time::Timestamp;
use duklog::tui::action::{Action, Screen};
use duklog::tui::app::{App, Effect};
use duklog::tui::export::{ExportState, ExportStatus};
use duklog::tui::form::{Form, FormField};
use duklog::tui::help::HelpState;
use duklog::tui::key::Key;
use duklog::tui::log_create::{FocusArea, LogCreateState, LogType};
use duklog::tui::qso_entry::{cycle_band, cycle_mode_value, QsoEntryState};
use duklog::tui::qso_list::QsoListState;
use duklog::tui::status_bar::StatusBarContext;

fn ts(year: u16, month: u8, day: u8, hour: u8, minute: u8, second: u8) -> Timestamp {
    Timestamp { year, month, day, hour, minute, second }
}

fn make_form() -> Form {
    Form::new(vec![
        FormField::new("Callsign", true),
        FormField::new("Operator", true),
        FormField::new("Park Ref", false),
    ])
}

// --- Form focus ---

#[test]
fn focus_starts_at_zero() {
    assert_eq!(make_form().focus(), 0);
}

#[test]
fn focus_next_advances() {
    let mut form = make_form();
    form.focus_next();
    assert_eq!(form.focus(), 1);
    form.focus_next();
    assert_eq!(form.focus(), 2);
}

#[test]
fn focus_next_wraps() {
    let mut form = make_form();
    form.focus_next();
    form.focus_next();
    form.focus_next();
    assert_eq!(form.focus(), 0);
}

#[test]
fn focus_prev_wraps() {
    let mut form = make_form();
    form.focus_prev();
    assert_eq!(form.focus(), 2);
}

#[test]
fn focus_prev_decrements() {
    let mut form = make_form();
    form.focus_next();
    form.focus_next();
    form.focus_prev();
    assert_eq!(form.focus(), 1);
}

#[test]
fn focus_next_empty_form_is_noop() {
    let mut form = Form::new(vec![]);
    form.focus_next();
    assert_eq!(form.focus(), 0);
}

#[test]
fn focus_prev_empty_form_is_noop() {
    let mut form = Form::new(vec![]);
    form.focus_prev();
    assert_eq!(form.focus(), 0);
}

// --- Form characters ---

#[test]
fn insert_char_appends_to_focused() {
    let mut form = make_form();
    form.insert_char('W');
    form.insert_char('1');
    assert_eq!(form.value(0), "W1");
    assert_eq!(form.value(1), "");
}

#[test]
fn insert_char_on_different_focus() {
    let mut form = make_form();
    form.focus_next();
    form.insert_char('A');
    assert_eq!(form.value(0), "");
    assert_eq!(form.value(1), "A");
}

#[test]
fn delete_char_removes_last() {
    let mut form = make_form();
    form.insert_char('A');
    form.insert_char('B');
    form.delete_char();
    assert_eq!(form.value(0), "A");
}

#[test]
fn delete_char_on_empty_is_noop() {
    let mut form = make_form();
    form.delete_char();
    assert_eq!(form.value(0), "");
}

// --- Form errors ---

#[test]
fn set_error_on_field() {
    let mut form = make_form();
    form.set_error(0, "bad callsign".into());
    assert!(form.has_errors());
    assert_eq!(form.fields()[0].error, Some("bad callsign".into()));
}

#[test]
fn clear_errors_removes_all() {
    let mut form = make_form();
    form.set_error(0, "err1".into());
    form.set_error(1, "err2".into());
    assert!(form.has_errors());
    form.clear_errors();
    assert!(!form.has_errors());
}

#[test]
fn has_errors_false_when_clean() {
    assert!(!make_form().has_errors());
}

#[test]
fn set_error_out_of_bounds_is_noop() {
    let mut form = make_form();
    form.set_error(99, "nope".into());
    assert!(!form.has_errors());
}

// --- Form values ---

#[test]
fn values_returns_all_field_values() {
    let mut form = make_form();
    form.insert_char('A');
    form.focus_next();
    form.insert_char('B');
    assert_eq!(form.values(), vec!["A", "B", ""]);
}

#[test]
fn value_out_of_bounds_returns_empty() {
    assert_eq!(make_form().value(99), "");
}

#[test]
fn reset_clears_values_errors_and_focus() {
    let mut form = make_form();
    form.insert_char('X');
    form.focus_next();
    form.set_error(0, "err".into());
    form.reset();
    assert_eq!(form.value(0), "");
    assert_eq!(form.focus(), 0);
    assert!(!form.has_errors());
}

#[test]
fn fields_returns_correct_labels() {
    let form = make_form();
    let labels: Vec<&str> = form.fields().iter().map(|f| f.label.as_str()).collect();
    assert_eq!(labels, vec!["Callsign", "Operator", "Park Ref"]);
}

#[test]
fn field_required_flags() {
    let form = make_form();
    assert!(form.fields()[0].required);
    assert!(form.fields()[1].required);
    assert!(!form.fields()[2].required);
}

// --- QSO list screen ---

#[test]
fn new_starts_at_zero() {
    assert_eq!(QsoListState::new().selected(), 0);
}

#[test]
fn qso_list_default_trait() {
    assert_eq!(QsoListState::default().selected(), 0);
}

#[test]
fn set_selected_updates_value() {
    let mut s = QsoListState::new();
    s.set_selected(5);
    assert_eq!(s.selected(), 5);
}

#[test]
fn reset_returns_to_zero() {
    let mut s = QsoListState::new();
    s.set_selected(5);
    s.reset();
    assert_eq!(s.selected(), 0);
}

#[test]
fn qso_list_navigation_saturates() {
    let mut s = QsoListState::new();
    assert_eq!(s.handle_key(Key::Up, 3), Action::Noop);
    assert_eq!(s.selected(), 0);
    s.handle_key(Key::Down, 3);
    s.handle_key(Key::Down, 3);
    s.handle_key(Key::Down, 3);
    assert_eq!(s.selected(), 2);
    s.handle_key(Key::End, 3);
    assert_eq!(s.selected(), 2);
    s.handle_key(Key::Home, 3);
    assert_eq!(s.selected(), 0);
}

#[test]
fn qso_list_enter_edits_selected() {
    let mut s = QsoListState::new();
    s.handle_key(Key::Down, 3);
    assert_eq!(s.handle_key(Key::Enter, 3), Action::EditQso(1));
    assert_eq!(s.handle_key(Key::Enter, 0), Action::Noop);
    assert_eq!(s.handle_key(Key::Esc, 3), Action::Navigate(Screen::QsoEntry));
}

// --- Export screen ---

#[test]
fn export_defaults() {
    let s = ExportState::new();
    assert_eq!(s.path(), "");
    assert_eq!(s.status(), &ExportStatus::Ready);
    assert_eq!(s.qso_count(), 0);
}

#[test]
fn export_default_trait() {
    let s = ExportState::default();
    assert_eq!(s.status(), &ExportStatus::Ready);
}

#[test]
fn set_success() {
    let mut s = ExportState::new();
    s.set_success();
    assert_eq!(s.status(), &ExportStatus::Success);
}

#[test]
fn set_error() {
    let mut s = ExportState::new();
    s.set_error("boom".to_string());
    assert_eq!(s.status(), &ExportStatus::Error("boom".to_string()));
}

#[test]
fn export_keys_ready_and_done() {
    let mut s = ExportState::new();
    assert_eq!(s.handle_key(Key::Enter), Action::ExportLog);
    assert_eq!(s.handle_key(Key::Esc), Action::Navigate(Screen::QsoEntry));
    assert_eq!(s.handle_key(Key::Char('x')), Action::Noop);
    s.set_success();
    assert_eq!(s.handle_key(Key::Char('x')), Action::Navigate(Screen::QsoEntry));
}

// --- Help screen ---

#[test]
fn new_initializes_scroll_to_zero() {
    assert_eq!(HelpState::new().scroll(), 0);
}

#[test]
fn new_initializes_origin_to_log_select() {
    assert_eq!(HelpState::new().origin(), Screen::LogSelect);
}

#[test]
fn default_works() {
    let s = HelpState::default();
    assert_eq!(s.scroll(), 0);
    assert_eq!(s.origin(), Screen::LogSelect);
}

#[test]
fn set_origin_stores_screen() {
    let mut s = HelpState::new();
    s.set_origin(Screen::Export);
    assert_eq!(s.origin(), Screen::Export);
}

#[test]
fn origin_accessor_returns_value() {
    let mut s = HelpState::new();
    s.set_origin(Screen::QsoList);
    assert_eq!(s.origin(), Screen::QsoList);
}

#[test]
fn all_variants_have_expected_names() {
    let expected = [
        (Screen::LogSelect, "Log Select"),
        (Screen::LogCreate, "Log Create"),
        (Screen::QsoEntry, "QSO Entry"),
        (Screen::QsoList, "QSO List"),
        (Screen::Export, "Export"),
        (Screen::Help, "Help"),
    ];
    for (screen, label) in expected {
        assert_eq!(duklog::tui::help::screen_name(screen), label);
    }
}

#[test]
fn help_scroll_saturates_at_zero() {
    let mut s = HelpState::new();
    assert_eq!(s.handle_key(Key::Up), Action::Noop);
    assert_eq!(s.scroll(), 0);
    s.handle_key(Key::Down);
    s.handle_key(Key::Down);
    assert_eq!(s.scroll(), 2);
    s.set_origin(Screen::Export);
    assert_eq!(s.handle_key(Key::Esc), Action::Navigate(Screen::Export));
}

// --- Screen labels ---

#[test]
fn screen_labels_match_expected() {
    let expected = [
        (Screen::LogSelect, "Log Select"),
        (Screen::LogCreate, "Log Create"),
        (Screen::QsoEntry, "QSO Entry"),
        (Screen::QsoList, "QSO List"),
        (Screen::Export, "Export"),
        (Screen::Help, "Help"),
    ];
    for (screen, label) in expected {
        assert_eq!(screen.label(), label, "{screen:?} label mismatch");
    }
}

// --- Band/mode cycling ---

#[test]
fn cycle_forward() {
    assert_eq!(cycle_band(Band::M20, true), Band::M17);
}

#[test]
fn cycle_backward() {
    assert_eq!(cycle_band(Band::M20, false), Band::M30);
}

#[test]
fn cycle_forward_wraps_at_end() {
    assert_eq!(cycle_band(Band::Cm70, true), Band::M160);
}

#[test]
fn cycle_backward_wraps_at_start() {
    assert_eq!(cycle_band(Band::M160, false), Band::Cm70);
}

#[test]
fn cycle_modes_forward() {
    assert_eq!(cycle_mode_value(Mode::Ssb, true), Mode::Cw);
}

#[test]
fn cycle_modes_backward_wraps() {
    assert_eq!(cycle_mode_value(Mode::Ssb, false), Mode::Digi);
}

// --- QSO entry screen ---

fn type_string(state: &mut QsoEntryState, s: &str) {
    for ch in s.chars() {
        state.handle_key(Key::Char(ch));
    }
}

#[test]
fn qso_entry_defaults() {
    let state = QsoEntryState::new();
    assert_eq!(state.band(), Band::M20);
    assert_eq!(state.mode(), Mode::Ssb);
    assert_eq!(state.form().value(1), "59");
    assert_eq!(state.form().value(2), "59");
    assert_eq!(state.form().value(0), "");
    assert!(state.recent_qsos().is_empty());
    assert_eq!(state.error(), &None);
    assert!(!state.is_editing());
}

#[test]
fn qso_entry_callsign_auto_uppercased() {
    let mut state = QsoEntryState::new();
    type_string(&mut state, "w1aw");
    assert_eq!(state.form().value(0), "W1AW");
}

#[test]
fn qso_entry_alt_b_cycles_band() {
    let mut state = QsoEntryState::new();
    state.handle_key(Key::AltChar('b'));
    assert_eq!(state.band(), Band::M17);
    state.handle_key(Key::ShiftAltChar('B'));
    assert_eq!(state.band(), Band::M20);
}

#[test]
fn mode_change_updates_rst_when_unedited() {
    let mut state = QsoEntryState::new();
    state.handle_key(Key::AltChar('m'));
    assert_eq!(state.mode(), Mode::Cw);
    assert_eq!(state.form().value(1), "599");
    assert_eq!(state.form().value(2), "599");
}

#[test]
fn mode_change_preserves_edited_rst() {
    let mut state = QsoEntryState::new();
    state.handle_key(Key::Tab);
    state.handle_key(Key::Backspace);
    state.handle_key(Key::Backspace);
    type_string(&mut state, "57");
    state.handle_key(Key::AltChar('m'));
    assert_eq!(state.form().value(1), "57");
    assert_eq!(state.form().value(2), "599");
}

#[test]
fn qso_entry_valid_submit_returns_add_qso() {
    let mut state = QsoEntryState::new();
    type_string(&mut state, "KD9XYZ");
    match state.handle_key(Key::Enter) {
        Action::AddQso(qso) => {
            assert_eq!(qso.their_call, "KD9XYZ");
            assert_eq!(qso.rst_sent, "59");
            assert_eq!(qso.rst_rcvd, "59");
            assert_eq!(qso.band, Band::M20);
            assert_eq!(qso.mode, Mode::Ssb);
            assert_eq!(qso.their_park, None);
            assert_eq!(qso.comments, "");
        },
        other => panic!("expected AddQso, got {other:?}"),
    }
}

#[test]
fn qso_entry_empty_callsign_shows_error() {
    let mut state = QsoEntryState::new();
    assert_eq!(state.handle_key(Key::Enter), Action::Noop);
    assert!(state.form().fields()[0].error.is_some());
}

#[test]
fn qso_entry_invalid_park_shows_error() {
    let mut state = QsoEntryState::new();
    type_string(&mut state, "KD9XYZ");
    state.handle_key(Key::Tab);
    state.handle_key(Key::Tab);
    state.handle_key(Key::Tab);
    type_string(&mut state, "BAD");
    assert_eq!(state.handle_key(Key::Enter), Action::Noop);
    assert!(state.form().fields()[3].error.is_some());
}

#[test]
fn qso_entry_clear_fast_fields() {
    let mut state = QsoEntryState::new();
    type_string(&mut state, "KD9XYZ");
    state.handle_key(Key::AltChar('m'));
    state.clear_fast_fields();
    assert_eq!(state.form().value(0), "");
    assert_eq!(state.form().value(1), "599");
    assert_eq!(state.form().value(2), "599");
    assert_eq!(state.mode(), Mode::Cw);
    assert_eq!(state.form().focus(), 0);
}

#[test]
fn qso_entry_edit_mode_submits_update() {
    let mut state = QsoEntryState::new();
    let qso = duklog::model::qso::Qso::new(
        "KD9XYZ".to_string(),
        "59".to_string(),
        "59".to_string(),
        Band::M40,
        Mode::Cw,
        ts(2026, 2, 16, 14, 30, 0),
        "hello".to_string(),
        Some("K-1234".to_string()),
        None,
        None,
    )
    .unwrap();
    state.start_editing(2, &qso);
    assert!(state.is_editing());
    assert_eq!(state.form().value(0), "KD9XYZ");
    assert_eq!(state.form().value(3), "K-1234");
    assert_eq!(state.band(), Band::M40);
    assert_eq!(state.mode(), Mode::Cw);
    match state.handle_key(Key::Enter) {
        Action::UpdateQso(2, q) => {
            assert_eq!(q.their_call, "KD9XYZ");
            assert_eq!(q.their_park, Some("K-1234".to_string()));
        },
        other => panic!("expected UpdateQso, got {other:?}"),
    }
    // Escape while editing cancels back to the list.
    assert_eq!(state.handle_key(Key::Esc), Action::Navigate(Screen::QsoList));
    assert!(!state.is_editing());
}

#[test]
fn qso_entry_esc_goes_to_log_select() {
    let mut state = QsoEntryState::new();
    assert_eq!(state.handle_key(Key::Esc), Action::Navigate(Screen::LogSelect));
}

#[test]
fn qso_entry_alt_e_and_x_navigate() {
    let mut state = QsoEntryState::new();
    assert_eq!(state.handle_key(Key::AltChar('e')), Action::Navigate(Screen::QsoList));
    assert_eq!(state.handle_key(Key::AltChar('x')), Action::Navigate(Screen::Export));
}

#[test]
fn add_recent_qso_caps_at_3() {
    let mut state = QsoEntryState::new();
    for call in ["A1A", "B2B", "C3C", "D4D"] {
        let q = duklog::model::qso::Qso::new(
            call.to_string(),
            "59".to_string(),
            "59".to_string(),
            Band::M20,
            Mode::Ssb,
            ts(2026, 2, 16, 14, 30, 0),
            String::new(),
            None,
            None,
            None,
        )
        .unwrap();
        state.add_recent_qso(q);
    }
    assert_eq!(state.recent_qsos().len(), 3);
    assert_eq!(state.recent_qsos()[0].their_call, "D4D");
    assert_eq!(state.recent_qsos()[2].their_call, "B2B");
}

// --- Log create screen ---

#[test]
fn initial_type_is_general() {
    let state = LogCreateState::new();
    assert_eq!(state.log_type, LogType::General);
}

#[test]
fn initial_focus_is_type_selector() {
    let state = LogCreateState::new();
    assert_eq!(state.focus_area, FocusArea::TypeSelector);
}

#[test]
fn clears_general_error() {
    let mut state = LogCreateState::new();
    state.set_error("some error".into());
    state.reset();
    assert_eq!(state.general_error(), &None);
}

#[test]
fn set_error_stores_message() {
    let mut state = LogCreateState::new();
    state.set_error("duplicate log".into());
    assert_eq!(state.general_error(), &Some("duplicate log".to_string()));
}

#[test]
fn right_cycles_general_through_all_types() {
    let mut state = LogCreateState::new();
    state.handle_key(Key::Right);
    assert_eq!(state.log_type, LogType::Pota);
    state.handle_key(Key::Right);
    assert_eq!(state.log_type, LogType::FieldDay);
    state.handle_key(Key::Right);
    assert_eq!(state.log_type, LogType::WinterFieldDay);
    state.handle_key(Key::Right);
    assert_eq!(state.log_type, LogType::General);
}

#[test]
fn left_wraps_to_winter_fd() {
    let mut state = LogCreateState::new();
    state.handle_key(Key::Left);
    assert_eq!(state.log_type, LogType::WinterFieldDay);
}

#[test]
fn type_switch_rebuilds_form_fields() {
    let mut state = LogCreateState::new();
    assert_eq!(state.form().fields().len(), 3);
    state.handle_key(Key::Right);
    assert_eq!(state.form().fields().len(), 4);
    state.handle_key(Key::Right);
    assert_eq!(state.form().fields().len(), 6);
}

#[test]
fn type_switch_preserves_callsign_and_operator() {
    let mut state = LogCreateState::new();
    state.handle_key(Key::Tab);
    for ch in "W1AW".chars() {
        state.handle_key(Key::Char(ch));
    }
    state.handle_key(Key::Tab);
    for ch in "KD9XYZ".chars() {
        state.handle_key(Key::Char(ch));
    }
    state.handle_key(Key::BackTab);
    state.handle_key(Key::BackTab);
    state.handle_key(Key::Right);
    assert_eq!(state.form().value(0), "W1AW");
    assert_eq!(state.form().value(1), "KD9XYZ");
}

#[test]
fn callsign_auto_uppercased() {
    let mut state = LogCreateState::new();
    state.handle_key(Key::Tab);
    for ch in "w3duk".chars() {
        state.handle_key(Key::Char(ch));
    }
    assert_eq!(state.form().value(0), "W3DUK");
}

#[test]
fn grid_square_not_auto_uppercased() {
    let mut state = LogCreateState::new();
    state.handle_key(Key::Tab);
    state.handle_key(Key::Tab);
    state.handle_key(Key::Tab);
    for ch in "fn31pr".chars() {
        state.handle_key(Key::Char(ch));
    }
    assert_eq!(state.form().value(2), "fn31pr");
}

fn fill_valid_general_form(state: &mut LogCreateState) {
    state.handle_key(Key::Tab);
    for ch in "W1AW".chars() {
        state.handle_key(Key::Char(ch));
    }
    state.handle_key(Key::Tab);
    state.handle_key(Key::Tab);
    for ch in "FN31".chars() {
        state.handle_key(Key::Char(ch));
    }
}

#[test]
fn general_log_created() {
    let mut state = LogCreateState::new();
    fill_valid_general_form(&mut state);
    match state.handle_key(Key::Enter) {
        Action::CreateLog(Log::General(log)) => {
            assert_eq!(log.header.station_callsign, "W1AW");
            assert_eq!(log.header.operator, None);
            assert_eq!(log.header.grid_square, "FN31");
        },
        other => panic!("expected CreateLog(General), got {other:?}"),
    }
}

#[test]
fn general_empty_submit_shows_errors() {
    let mut state = LogCreateState::new();
    assert_eq!(state.handle_key(Key::Enter), Action::Noop);
    assert!(state.form().has_errors());
    assert!(state.form().fields()[0].error.is_some());
    assert!(state.form().fields()[1].error.is_none());
    assert!(state.form().fields()[2].error.is_some());
}

#[test]
fn pota_grid_square_normalised_on_submit() {
    let mut state = LogCreateState::new();
    state.handle_key(Key::Right);
    state.handle_key(Key::Tab);
    for ch in "W1AW".chars() {
        state.handle_key(Key::Char(ch));
    }
    state.handle_key(Key::Tab);
    state.handle_key(Key::Tab);
    state.handle_key(Key::Tab);
    for ch in "FN31PR".chars() {
        state.handle_key(Key::Char(ch));
    }
    match state.handle_key(Key::Enter) {
        Action::CreateLog(log) => assert_eq!(log.header().grid_square, "FN31pr"),
        other => panic!("expected CreateLog, got {other:?}"),
    }
}

#[test]
fn field_day_log_created() {
    let mut state = LogCreateState::new();
    state.handle_key(Key::Right);
    state.handle_key(Key::Right);
    state.handle_key(Key::Tab);
    for ch in "W1AW".chars() {
        state.handle_key(Key::Char(ch));
    }
    state.handle_key(Key::Tab);
    state.handle_key(Key::Tab);
    for ch in "FN31".chars() {
        state.handle_key(Key::Char(ch));
    }
    state.handle_key(Key::Tab);
    state.handle_key(Key::Char('3'));
    state.handle_key(Key::Tab);
    state.handle_key(Key::Char('b'));
    state.handle_key(Key::Tab);
    for ch in "epa".chars() {
        state.handle_key(Key::Char(ch));
    }
    match state.handle_key(Key::Enter) {
        Action::CreateLog(Log::FieldDay(log)) => {
            assert_eq!(log.header.station_callsign, "W1AW");
            assert_eq!(log.tx_count, 3);
            assert_eq!(log.class, duklog::model::log::FdClass::B);
            assert_eq!(log.section, "EPA");
            assert_eq!(log.power, duklog::model::log::FdPowerCategory::Low);
        },
        other => panic!("expected CreateLog(FieldDay), got {other:?}"),
    }
}

#[test]
fn fd_invalid_tx_count_shows_error() {
    let mut state = LogCreateState::new();
    state.handle_key(Key::Right);
    state.handle_key(Key::Right);
    state.handle_key(Key::Tab);
    for ch in "W1AW".chars() {
        state.handle_key(Key::Char(ch));
    }
    state.handle_key(Key::Tab);
    state.handle_key(Key::Tab);
    for ch in "FN31".chars() {
        state.handle_key(Key::Char(ch));
    }
    state.handle_key(Key::Tab);
    state.handle_key(Key::Char('0'));
    state.handle_key(Key::Tab);
    state.handle_key(Key::Char('B'));
    state.handle_key(Key::Tab);
    for ch in "EPA".chars() {
        state.handle_key(Key::Char(ch));
    }
    assert_eq!(state.handle_key(Key::Enter), Action::Noop);
    assert!(state.form().fields()[3].error.is_some());
}

#[test]
fn esc_navigates_back_from_creation() {
    let mut state = LogCreateState::new();
    assert_eq!(state.handle_key(Key::Esc), Action::Navigate(Screen::LogSelect));
}

// --- Application flows with in-memory effects ---

fn make_app() -> App {
    App::new(LogManager::new("logs".to_string()), vec![])
}

fn make_app_with_log() -> App {
    let log = Log::Pota(
        PotaLog::new(
            "W1AW".to_string(),
            Some("W1AW".to_string()),
            Some("K-0001".to_string()),
            "FN31".to_string(),
            ts(2026, 2, 16, 12, 0, 0),
        )
        .unwrap(),
    );
    let mut app = App::new(LogManager::new("logs".to_string()), vec![log]);
    // Open the highlighted log.
    let eff = app.handle_key(Key::Enter);
    assert!(matches!(eff, Effect::Done));
    assert_eq!(app.screen(), Screen::QsoEntry);
    app
}

#[test]
fn starts_on_log_select() {
    let app = make_app();
    assert_eq!(app.screen(), Screen::LogSelect);
    assert!(!app.should_quit());
    assert!(app.current_log().is_none());
}

#[test]
fn q_on_log_select_quits() {
    let mut app = make_app();
    app.handle_key(Key::Char('q'));
    assert!(app.should_quit());
}

#[test]
fn esc_on_log_select_quits() {
    let mut app = make_app();
    app.handle_key(Key::Esc);
    assert!(app.should_quit());
}

#[test]
fn question_mark_navigates_to_help() {
    let mut app = make_app();
    app.handle_key(Key::Char('?'));
    assert_eq!(app.screen(), Screen::Help);
    assert!(!app.should_quit());
}

#[test]
fn q_on_help_returns_to_origin() {
    let mut app = make_app();
    app.handle_key(Key::Char('?'));
    assert_eq!(app.screen(), Screen::Help);
    let eff = app.handle_key(Key::Char('q'));
    // Returning to log select asks for a list reload.
    assert!(matches!(eff, Effect::LoadLogs));
    assert_eq!(app.screen(), Screen::LogSelect);
}

#[test]
fn question_mark_on_qso_entry_types_char() {
    let mut app = make_app_with_log();
    app.handle_key(Key::Char('?'));
    assert_eq!(app.screen(), Screen::QsoEntry);
}

#[test]
fn n_on_log_select_navigates_to_log_create() {
    let mut app = make_app();
    app.handle_key(Key::Char('n'));
    assert_eq!(app.screen(), Screen::LogCreate);
}

#[test]
fn select_log_navigates_to_qso_entry() {
    let app = make_app_with_log();
    assert_eq!(app.current_log().unwrap().header().station_callsign, "W1AW");
}

#[test]
fn submit_qso_flows_through_append_effect() {
    let mut app = make_app_with_log();
    for ch in "KD9XYZ".chars() {
        app.handle_key(Key::Char(ch));
    }
    let eff = app.handle_key(Key::Enter);
    match eff {
        Effect::AppendQso { path, line, qso } => {
            assert_eq!(path, "logs/K-0001-20260216-120000.jsonl");
            assert!(line.contains("KD9XYZ"));
            // The shell reports a successful append.
            app.finish_add_qso(qso, None);
        },
        other => panic!("expected AppendQso, got {other:?}"),
    }
    assert_eq!(app.current_log().unwrap().header().qsos.len(), 1);
    assert_eq!(app.qso_entry.recent_qsos().len(), 1);
    assert_eq!(app.qso_entry.form().value(0), "");
    assert_eq!(app.qso_entry.error(), &None);
}

#[test]
fn duplicate_qso_shows_warning_but_still_logged() {
    let mut app = make_app_with_log();
    for round in 0..2 {
        for ch in "KD9XYZ".chars() {
            app.handle_key(Key::Char(ch));
        }
        match app.handle_key(Key::Enter) {
            Effect::AppendQso { qso, .. } => app.finish_add_qso(qso, None),
            other => panic!("expected AppendQso, got {other:?}"),
        }
        if round == 0 {
            assert_eq!(app.qso_entry.error(), &None);
        }
    }
    assert_eq!(app.current_log().unwrap().header().qsos.len(), 2);
    let err = app.qso_entry.error().clone().expect("should warn about the duplicate");
    assert!(err.contains("Warning"));
    assert!(err.contains("duplicate"));
    assert!(err.contains("KD9XYZ"));
    assert!(err.contains("20M"));
    assert!(err.contains("SSB"));
    assert!(err.contains("today"));
}

#[test]
fn create_log_flows_through_save_effect() {
    let mut app = make_app();
    app.handle_key(Key::Char('n'));
    app.handle_key(Key::Tab);
    for ch in "W1AW".chars() {
        app.handle_key(Key::Char(ch));
    }
    app.handle_key(Key::Tab);
    app.handle_key(Key::Tab);
    for ch in "FN31".chars() {
        app.handle_key(Key::Char(ch));
    }
    match app.handle_key(Key::Enter) {
        Effect::SaveNewLog { path, content, log } => {
            assert!(path.starts_with("logs/W1AW-"));
            assert!(content.contains("\"station_callsign\":\"W1AW\""));
            app.finish_create_log(log, None);
        },
        other => panic!("expected SaveNewLog, got {other:?}"),
    }
    assert_eq!(app.screen(), Screen::QsoEntry);
    assert!(app.current_log().is_some());
}

#[test]
fn create_log_failure_returns_to_log_select() {
    let mut app = make_app();
    app.handle_key(Key::Char('n'));
    app.handle_key(Key::Tab);
    for ch in "W1AW".chars() {
        app.handle_key(Key::Char(ch));
    }
    app.handle_key(Key::Tab);
    app.handle_key(Key::Tab);
    for ch in "FN31".chars() {
        app.handle_key(Key::Char(ch));
    }
    match app.handle_key(Key::Enter) {
        Effect::SaveNewLog { log, .. } => {
            app.finish_create_log(log, Some("disk full".to_string()));
        },
        other => panic!("expected SaveNewLog, got {other:?}"),
    }
    assert_eq!(app.screen(), Screen::LogSelect);
    assert!(app.log_select.error().is_some());
    assert!(app.current_log().is_none());
}

#[test]
fn edit_save_returns_to_list() {
    let mut app = make_app_with_log();
    for ch in "KD9XYZ".chars() {
        app.handle_key(Key::Char(ch));
    }
    match app.handle_key(Key::Enter) {
        Effect::AppendQso { qso, .. } => app.finish_add_qso(qso, None),
        other => panic!("expected AppendQso, got {other:?}"),
    }
    // Open the list and edit the first contact.
    app.handle_key(Key::AltChar('e'));
    assert_eq!(app.screen(), Screen::QsoList);
    app.handle_key(Key::Enter);
    assert_eq!(app.screen(), Screen::QsoEntry);
    assert!(app.qso_entry.is_editing());
    assert_eq!(app.qso_entry.form().value(0), "KD9XYZ");
    // Submit the edit as-is.
    match app.handle_key(Key::Enter) {
        Effect::SaveActiveLog { content, .. } => {
            assert!(content.contains("KD9XYZ"));
            app.finish_update_qso(None);
        },
        other => panic!("expected SaveActiveLog, got {other:?}"),
    }
    assert_eq!(app.screen(), Screen::QsoList);
    assert!(!app.qso_entry.is_editing());
}

#[test]
fn edit_qso_out_of_bounds_shows_error() {
    let mut app = make_app_with_log();
    let eff = app.apply_action(Action::EditQso(99));
    assert!(matches!(eff, Effect::Done));
    assert_eq!(app.screen(), Screen::QsoEntry);
    let msg = app.qso_entry.error().clone().unwrap();
    assert!(msg.contains("out of bounds"));
    assert!(msg.contains("99"), "the message names the index");
}

#[test]
fn add_qso_without_active_log_shows_error() {
    let mut app = make_app();
    let q = duklog::model::qso::Qso::new(
        "KD9XYZ".to_string(),
        "59".to_string(),
        "59".to_string(),
        Band::M20,
        Mode::Ssb,
        ts(2026, 2, 16, 14, 30, 0),
        String::new(),
        None,
        None,
        None,
    )
    .unwrap();
    let eff = app.apply_action(Action::AddQso(q));
    assert!(matches!(eff, Effect::Done));
    assert!(app.qso_entry.error().as_ref().unwrap().contains("No active log"));
}

#[test]
fn export_flow_records_success_and_error() {
    let mut app = make_app_with_log();
    app.handle_key(Key::AltChar('x'));
    assert_eq!(app.screen(), Screen::Export);
    app.export.set_path("out.adif".to_string());
    match app.handle_key(Key::Enter) {
        Effect::WriteExport { path, content } => {
            assert_eq!(path, "out.adif");
            assert!(content.contains("<eoh>"));
            app.finish_export(None);
        },
        other => panic!("expected WriteExport, got {other:?}"),
    }
    assert_eq!(app.export.status(), &ExportStatus::Success);
    app.finish_export(Some("no such directory".to_string()));
    assert!(matches!(app.export.status(), ExportStatus::Error(_)));
}

#[test]
fn export_without_current_log_shows_error() {
    let mut app = make_app();
    let eff = app.apply_action(Action::ExportLog);
    assert!(matches!(eff, Effect::Done));
    assert!(matches!(app.export.status(), ExportStatus::Error(_)));
}

#[test]
fn delete_confirmation_flow() {
    let log = Log::Pota(
        PotaLog::new(
            "W1AW".to_string(),
            Some("W1AW".to_string()),
            Some("K-0001".to_string()),
            "FN31".to_string(),
            ts(2026, 2, 16, 12, 0, 0),
        )
        .unwrap(),
    );
    let mut app = App::new(LogManager::new("logs".to_string()), vec![log]);
    // `d` asks for confirmation; `n` cancels.
    app.handle_key(Key::Char('d'));
    assert!(app.log_select.pending_delete_label().is_some());
    app.handle_key(Key::Char('n'));
    assert!(app.log_select.pending_delete_label().is_none());
    assert_eq!(app.log_select.logs().len(), 1);
    // `d` then `y` deletes and reloads.
    app.handle_key(Key::Char('d'));
    let eff = app.handle_key(Key::Char('y'));
    match eff {
        Effect::DeleteLog { path, log_id } => {
            assert_eq!(path, "logs/K-0001-20260216-120000.jsonl");
            assert_eq!(log_id, "K-0001-20260216-120000");
            let next = app.finish_delete_log(&log_id, None);
            assert!(matches!(next, Effect::LoadLogs));
            app.finish_load_logs(Ok(vec![]));
        },
        other => panic!("expected DeleteLog, got {other:?}"),
    }
    assert!(app.log_select.logs().is_empty());
    assert_eq!(app.log_select.selected(), None);
}

#[test]
fn navigate_to_qso_list_resets_state() {
    let mut app = make_app_with_log();
    app.qso_list.set_selected(5);
    app.navigate(Screen::QsoList);
    assert_eq!(app.screen(), Screen::QsoList);
    assert_eq!(app.qso_list.selected(), 0);
}

#[test]
fn status_bar_line_forms() {
    let ctx = StatusBarContext {
        callsign: "W1AW".to_string(),
        park_ref: Some("K-0001".to_string()),
        qso_count: 7,
        is_activated: false,
    };
    assert_eq!(ctx.line(), "[K-0001] W1AW  7/10 QSOs");
    let ctx = StatusBarContext {
        callsign: "W1AW".to_string(),
        park_ref: Some("K-0001".to_string()),
        qso_count: 10,
        is_activated: true,
    };
    assert_eq!(ctx.line(), "[K-0001] W1AW  ACTIVATED");
    let ctx = StatusBarContext {
        callsign: "W1AW".to_string(),
        park_ref: None,
        qso_count: 5,
        is_activated: false,
    };
    assert_eq!(ctx.line(), "W1AW  5 QSOs");
    let ctx = StatusBarContext {
        callsign: String::new(),
        park_ref: None,
        qso_count: 0,
        is_activated: false,
    };
    assert_eq!(ctx.line(), "");
}
