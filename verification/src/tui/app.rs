//! The top-level application state machine.
//!
//! The state machine owns the active log and every screen's state. A key
//! press becomes an [`Action`], the action is applied, and where storage
//! work is needed the application hands the outer shell an [`Effect`]: the
//! exact path and text to write, read, or delete. The shell performs the
//! effect and reports the outcome back through the `finish_*` methods,
//! which make the decisions. No reading, drawing, or file handling happens
//! here.

use vstd::prelude::*;

use crate::model::log::{Log, clone_log, clone_qso};
use crate::model::qso::Qso;
use crate::storage::{
    LogManager, StorageError, encode_log_file, encode_qso_line, sort_logs_desc,
};
use crate::adif::format_adif;
use crate::tui::action::{Action, Screen};
use crate::tui::export::ExportState;
use crate::tui::help::HelpState;
use crate::tui::key::Key;
use crate::tui::log_create::LogCreateState;
use crate::tui::log_select::LogSelectState;
use crate::tui::qso_entry::QsoEntryState;
use crate::tui::qso_list::QsoListState;

verus! {

/// Storage work the outer shell must perform after a state transition,
/// with the outcome reported back to the matching `finish_*` method.
#[derive(Debug)]
pub enum Effect {
    /// Nothing left to do.
    Done,
    /// Write `content` to `path` (a new log file), then call
    /// [`App::finish_create_log`] with `log` and the outcome.
    SaveNewLog { path: String, content: String, log: Log },
    /// Append `line` and a newline to the existing file at `path`, then
    /// call [`App::finish_add_qso`] with `qso` and the outcome.
    AppendQso { path: String, line: String, qso: Qso },
    /// Write `content` to `path` (a full re-save of the active log), then
    /// call [`App::finish_update_qso`] with the outcome.
    SaveActiveLog { path: String, content: String },
    /// Remove the file at `path`, then call [`App::finish_delete_log`]
    /// with `log_id` and the outcome.
    DeleteLog { path: String, log_id: String },
    /// List the log directory, parse every `.jsonl` file, and call
    /// [`App::finish_load_logs`] with the logs or the first error.
    LoadLogs,
    /// Write `content` to `path` (an ADIF export), then call
    /// [`App::finish_export`] with the outcome.
    WriteExport { path: String, content: String },
}

/// The non-fatal duplicate warning shown after logging a contact that
/// matches an earlier one: it names the callsign, band, and mode, with the
/// "today" qualifier only for the day-scoped (non-contest) log types.
pub open spec fn spec_dup_warning(q: crate::model::qso::QsoView, is_contest: bool) -> Seq<char> {
    "Warning: duplicate contact — "@ + q.their_call + " "@ + q.band.spec_adif_str() + " "@
        + q.mode.spec_adif_str() + (if is_contest {
        " already logged"@
    } else {
        " already logged today"@
    })
}

/// Top-level application state.
#[derive(Debug)]
pub struct App {
    pub screen: Screen,
    pub manager: LogManager,
    pub current_log: Option<Log>,
    pub should_quit: bool,
    pub log_select: LogSelectState,
    pub log_create: LogCreateState,
    pub qso_entry: QsoEntryState,
    pub qso_list: QsoListState,
    pub export: ExportState,
    pub help: HelpState,
}

impl App {
    /// Every screen's structural invariant holds.
    pub open spec fn wf(self) -> bool {
        self.log_select.wf() && self.log_create.wf() && self.qso_entry.wf()
    }

    /// Creates the application on the log selection screen, with the given
    /// initial log list already loaded.
    pub fn new(manager: LogManager, initial_logs: Vec<Log>) -> (r: App)
        ensures
            r.wf(),
            r.screen == Screen::LogSelect,
            r.current_log is None,
            r.should_quit == false,
            r.log_select.logs@ == initial_logs@,
    {
        let mut log_select = LogSelectState::new();
        log_select.load(initial_logs);
        App {
            screen: Screen::LogSelect,
            manager,
            current_log: None,
            should_quit: false,
            log_select,
            log_create: LogCreateState::new(),
            qso_entry: QsoEntryState::new(),
            qso_list: QsoListState::new(),
            export: ExportState::new(),
            help: HelpState::new(),
        }
    }

    /// Returns the current screen.
    pub fn screen(&self) -> (r: Screen)
        ensures
            r == self.screen,
    {
        self.screen
    }

    /// Returns `true` if the application should quit.
    pub fn should_quit(&self) -> (r: bool)
        ensures
            r == self.should_quit,
    {
        self.should_quit
    }

    /// Returns a reference to the current log, if any.
    pub fn current_log(&self) -> (r: Option<&Log>)
        ensures
            match r {
                Some(l) => self.current_log matches Some(c) && *l == c,
                None => self.current_log is None,
            },
    {
        match &self.current_log {
            Some(l) => Some(l),
            None => None,
        }
    }

    /// Whether the current screen is a free-text form, where `?` must be
    /// typed into the field rather than opening help.
    pub open spec fn spec_is_form_screen(self) -> bool {
        self.screen == Screen::LogCreate || self.screen == Screen::QsoEntry
    }

    /// Handles one key press: `?` opens help from any non-form screen;
    /// otherwise the active screen's handler runs and its action is
    /// applied. The clauses below pin the dispatch for every
    /// behaviour-bearing key of every screen.
    pub fn handle_key(&mut self, key: Key) -> (r: Effect)
        requires
            old(self).wf(),
        ensures
            final(self).wf(),
            key == Key::Char('?') && !old(self).spec_is_form_screen() ==> final(self).screen
                == Screen::Help && (old(self).screen != Screen::Help ==> final(self).help.origin
                == old(self).screen),
            old(self).screen == Screen::LogSelect && old(self).log_select.pending_delete is None
                ==> {
                &&& ((key == Key::Char('q') || key == Key::Esc) ==> final(self).should_quit)
                &&& (key == Key::Char('n') ==> final(self).screen == Screen::LogCreate && (
                r is Done))
                &&& (key == Key::Enter ==> (match old(self).log_select.selected {
                    Some(i) => final(self).current_log matches Some(l) && l@ == old(self).log_select.logs@[i as int]@ && final(self).screen == Screen::QsoEntry,
                    None => final(self).screen == Screen::LogSelect,
                }))
            },
            old(self).screen == Screen::LogSelect ==> (old(self).log_select.pending_delete matches Some((id, label)) ==> (key == Key::Char('y') ==> (
            r matches Effect::DeleteLog { path, log_id 
            } && log_id@ == id@ && path@ == old(self).manager.base_path@ + "/"@
                + crate::storage::spec_safe_id(id@) + ".jsonl"@))),
            old(self).screen == Screen::LogCreate ==> {
                &&& (key == Key::Esc ==> final(self).screen == Screen::LogSelect && (
                r is LoadLogs))
                &&& (key == Key::Enter && old(self).log_create.log_type
                    == crate::tui::log_create::LogType::General && old(self).log_create.spec_general_ok() ==> (r matches Effect::SaveNewLog {
                    path,
                    content,
                    log,
                } && log matches Log::General(gl) && gl.header.station_callsign@ == old(self).log_create.val(0) && gl.header.grid_square@
                    == crate::model::validation::spec_normalize_grid(old(self).log_create.val(2))
                    && content@ == crate::storage::spec_encode_log(log@)))
                &&& (key == Key::Enter && old(self).log_create.log_type
                    == crate::tui::log_create::LogType::Pota && old(self).log_create.spec_pota_ok()
                    ==> (r matches Effect::SaveNewLog { path, content, log } && log matches
                Log::Pota(pl) && pl.header.station_callsign@ == old(self).log_create.val(0)
                    && pl.header.grid_square@ == crate::model::validation::spec_normalize_grid(
                    old(self).log_create.val(3),
                ) && content@ == crate::storage::spec_encode_log(log@)))
                &&& (key == Key::Enter && old(self).log_create.log_type
                    == crate::tui::log_create::LogType::FieldDay && old(self).log_create.spec_contest_ok(
                    crate::model::log::spec_parse_fd_class(old(self).log_create.val(4)) is Some,
                ) ==> (r matches Effect::SaveNewLog { path, content, log } && log matches
                Log::FieldDay(fl) && fl.header.station_callsign@ == old(self).log_create.val(0)
                    && Some(fl.class) == crate::model::log::spec_parse_fd_class(
                    old(self).log_create.val(4),
                ) && content@ == crate::storage::spec_encode_log(log@)))
                &&& (key == Key::Enter && old(self).log_create.log_type
                    == crate::tui::log_create::LogType::WinterFieldDay && old(self).log_create.spec_contest_ok(
                    crate::model::log::spec_parse_wfd_class(old(self).log_create.val(4)) is Some,
                ) ==> (r matches Effect::SaveNewLog { path, content, log } && log matches
                Log::WinterFieldDay(wl) && wl.header.station_callsign@ == old(self).log_create.val(0) && Some(wl.class) == crate::model::log::spec_parse_wfd_class(
                    old(self).log_create.val(4),
                ) && content@ == crate::storage::spec_encode_log(log@)))
            },
            old(self).screen == Screen::QsoEntry ==> {
                &&& (key == Key::AltChar('e') ==> final(self).screen == Screen::QsoList && final(self).qso_list.selected == 0)
                &&& (key == Key::AltChar('x') ==> final(self).screen == Screen::Export && final(self).export.status == crate::tui::export::ExportStatus::Ready)
                &&& (key == Key::Esc ==> final(self).screen == (if old(self).qso_entry.editing is Some {
                    Screen::QsoList
                } else {
                    Screen::LogSelect
                }))
                &&& (key == Key::Enter && old(self).qso_entry.spec_submit_ok() && old(self).qso_entry.editing is None ==> (match old(self).current_log {
                    Some(l) => r matches Effect::AppendQso { path, line, qso } && old(self).qso_entry.spec_qso_from(qso@) && line@ == crate::storage::spec_encode_qso_line(
                        qso@,
                    ) && path@ == old(self).manager.base_path@ + "/"@
                        + crate::storage::spec_safe_id(l.spec_header().log_id@) + ".jsonl"@,
                    None => final(self).qso_entry.error is Some && (r is Done),
                }))
                &&& (key == Key::Enter && old(self).qso_entry.spec_submit_ok() ==> (old(self).qso_entry.editing matches Some(i) ==> (match old(self).current_log {
                    Some(l) => if i < l.spec_header().qsos@.len() {
                        r matches Effect::SaveActiveLog { path, content } && (final(self).current_log matches Some(l2) && content@
                            == crate::storage::spec_encode_log(l2@) && exists|q: Qso|
                            old(self).qso_entry.spec_qso_from(#[trigger] q@) && l2.spec_header(
                            ).qsos@ == l.spec_header().qsos@.update(i as int, q))
                    } else {
                        final(self).qso_entry.error is Some && (r is Done)
                    },
                    None => final(self).qso_entry.error is Some && (r is Done),
                })))
            },
            old(self).screen == Screen::QsoList ==> {
                &&& ((key == Key::Esc || key == Key::Char('q')) ==> final(self).screen
                    == Screen::QsoEntry)
                &&& (key == Key::Enter ==> (match old(self).current_log {
                    Some(l) => if old(self).qso_list.selected < l.spec_header().qsos@.len() {
                        final(self).screen == Screen::QsoEntry && final(self).qso_entry.editing
                            == Some(old(self).qso_list.selected)
                    } else {
                        true
                    },
                    None => true,
                }))
            },
            old(self).screen == Screen::Export ==> {
                &&& (old(self).export.status == crate::tui::export::ExportStatus::Ready && key
                    == Key::Enter ==> (match old(self).current_log {
                    Some(l) => r matches Effect::WriteExport { path, content } && content@
                        == crate::adif::spec_format_adif(l@) && path@ == old(self).export.path@,
                    None => final(self).export.status is Error && (r is Done),
                }))
                &&& (old(self).export.status == crate::tui::export::ExportStatus::Ready && (key
                    == Key::Esc || key == Key::Char('q')) ==> final(self).screen
                    == Screen::QsoEntry)
                &&& (old(self).export.status != crate::tui::export::ExportStatus::Ready && key
                    != Key::Char('?') ==> final(self).screen == Screen::QsoEntry)
            },
            old(self).screen == Screen::Help && (key == Key::Esc || key == Key::Char('q')) ==> {
                &&& final(self).screen == old(self).help.origin
                &&& (old(self).help.origin == Screen::LogSelect ==> r is LoadLogs)
            },
    {
        if key == Key::Char('?') && !(self.screen == Screen::LogCreate || self.screen
            == Screen::QsoEntry) {
            if self.screen != Screen::Help {
                self.help.set_origin(self.screen);
                self.help.reset();
                self.screen = Screen::Help;
            }
            return Effect::Done;
        }
        let action = match self.screen {
            Screen::LogSelect => self.log_select.handle_key(key),
            Screen::LogCreate => self.log_create.handle_key(key),
            Screen::QsoEntry => self.qso_entry.handle_key(key),
            Screen::QsoList => {
                let count = match &self.current_log {
                    Some(l) => l.header().qsos.len(),
                    None => 0,
                };
                self.qso_list.handle_key(key, count)
            },
            Screen::Export => self.export.handle_key(key),
            Screen::Help => self.help.handle_key(key),
        };
        self.apply_action(action)
    }

    /// Applies an action a screen returned: pure state changes happen
    /// immediately, storage work is handed back as an [`Effect`].
    pub fn apply_action(&mut self, action: Action) -> (r: Effect)
        requires
            old(self).wf(),
        ensures
            final(self).wf(),
            action == Action::Quit ==> final(self).should_quit && (r is Done),
            action == Action::Noop ==> *final(self) == *old(self) && r is Done,
            action matches Action::Navigate(s) ==> {
                &&& final(self).screen == s
                &&& final(self).current_log == old(self).current_log
                &&& (s == Screen::LogSelect ==> r is LoadLogs)
                &&& (s != Screen::LogSelect ==> r is Done)
                &&& (s == Screen::QsoList ==> final(self).qso_list.selected == 0)
                &&& (s == Screen::LogCreate ==> final(self).log_create.general_error is None
                    && final(self).log_create.log_type
                    == crate::tui::log_create::LogType::General)
                &&& (s == Screen::QsoEntry ==> (old(self).current_log matches Some(l) ==> {
                    let qs = l.spec_header().qsos@;
                    let n = vstd::math::min(qs.len() as int, 3int);
                    &&& final(self).qso_entry.recent_qsos@.len() == n
                    &&& forall|k: int|
                        0 <= k < n ==> #[trigger] final(self).qso_entry.recent_qsos@[k] == qs[
                            qs.len() - 1 - k
                        ]
                }))
                &&& (s == Screen::Export ==> final(self).export.status
                    == crate::tui::export::ExportStatus::Ready && (old(self).current_log matches Some(l) ==> final(self).export.qso_count
                    == l.spec_header().qsos@.len()))
            },
            action matches Action::SelectLog(log) ==> (final(self).current_log matches Some(l)
                && l == log && final(self).screen == Screen::QsoEntry && r is Done),
            action matches Action::CreateLog(log) ==> (r matches Effect::SaveNewLog {
                path,
                content,
                log: carried,
            } && path@ == old(self).manager.base_path@ + "/"@ + crate::storage::spec_safe_id(
                log.spec_header().log_id@,
            ) + ".jsonl"@ && content@ == crate::storage::spec_encode_log(log@) && carried == log),
            action matches Action::AddQso(qso) ==> (match old(self).current_log {
                Some(l) => r matches Effect::AppendQso { path, line, qso: carried } && line@
                    == crate::storage::spec_encode_qso_line(qso@) && carried == qso && path@
                    == old(self).manager.base_path@ + "/"@ + crate::storage::spec_safe_id(
                    l.spec_header().log_id@,
                ) + ".jsonl"@,
                None => final(self).qso_entry.error is Some && r is Done,
            }),
            action matches Action::EditQso(i) ==> final(self).screen == Screen::QsoEntry && (
            match old(self).current_log {
                Some(l) => if i < l.spec_header().qsos@.len() {
                    final(self).qso_entry.editing == Some(i)
                } else {
                    final(self).qso_entry.error is Some
                },
                None => final(self).qso_entry.error is Some,
            }) && r is Done,
            action matches Action::UpdateQso(i, qso) ==> (match old(self).current_log {
                Some(l) => if i < l.spec_header().qsos@.len() {
                    r matches Effect::SaveActiveLog { path, content } && (final(self).current_log matches Some(l2) && Log::same_config(l, l2)
                        && Log::same_header_fields(l.spec_header(), l2.spec_header())
                        && l2.spec_header().qsos@ == l.spec_header().qsos@.update(i as int, qso)
                        && content@ == crate::storage::spec_encode_log(l2@))
                } else {
                    final(self).qso_entry.error is Some && final(self).qso_entry.editing is None
                        && r is Done
                },
                None => final(self).qso_entry.error is Some && r is Done,
            }),
            action == Action::ExportLog ==> (match old(self).current_log {
                Some(l) => r matches Effect::WriteExport { path, content } && content@
                    == crate::adif::spec_format_adif(l@) && path@ == old(self).export.path@,
                None => final(self).export.status is Error && r is Done,
            }),
            action matches Action::DeleteLog(id) ==> (r matches Effect::DeleteLog {
                path,
                log_id,
            } && log_id == id && path@ == old(self).manager.base_path@ + "/"@
                + crate::storage::spec_safe_id(id@) + ".jsonl"@),
    {
        match action {
            Action::Noop => Effect::Done,
            Action::Quit => {
                self.should_quit = true;
                Effect::Done
            },
            Action::Navigate(screen) => self.navigate(screen),
            Action::SelectLog(log) => {
                self.qso_entry.set_log_context(&log);
                self.current_log = Some(log);
                self.screen = Screen::QsoEntry;
                Effect::Done
            },
            Action::CreateLog(log) => {
                let path = self.manager.log_path(log.header().log_id.as_str());
                let content = encode_log_file(&log);
                Effect::SaveNewLog { path, content, log }
            },
            Action::AddQso(qso) => {
                match &self.current_log {
                    Some(log) => {
                        let path = self.manager.log_path(log.header().log_id.as_str());
                        let line = encode_qso_line(&qso);
                        Effect::AppendQso { path, line, qso }
                    },
                    None => {
                        self.qso_entry.set_error(String::from_str("No active log selected"));
                        Effect::Done
                    },
                }
            },
            Action::EditQso(index) => {
                match &self.current_log {
                    Some(log) => {
                        let header = log.header();
                        if index < header.qsos.len() {
                            let qso = clone_qso(&header.qsos[index]);
                            self.qso_entry.start_editing(index, &qso);
                        } else {
                            let mut msg = String::from_str("QSO index ");
                            let n = crate::text::u64_to_dec_string(index as u64);
                            msg.append(n.as_str());
                            msg.append(" out of bounds");
                            self.qso_entry.set_error(msg);
                        }
                        self.screen = Screen::QsoEntry;
                        Effect::Done
                    },
                    None => {
                        self.qso_entry.set_error(String::from_str("No active log selected"));
                        self.screen = Screen::QsoEntry;
                        Effect::Done
                    },
                }
            },
            Action::UpdateQso(index, qso) => {
                let has_log = self.current_log.is_some();
                if !has_log {
                    self.qso_entry.set_error(String::from_str("No active log selected"));
                    return Effect::Done;
                }
                let mut log = self.current_log.take().unwrap();
                let replaced = log.replace_qso(index, qso);
                let in_range = replaced.is_some();
                let path = self.manager.log_path(log.header().log_id.as_str());
                let content = encode_log_file(&log);
                self.current_log = Some(log);
                if !in_range {
                    let mut msg = String::from_str("QSO index ");
                    let n = crate::text::u64_to_dec_string(index as u64);
                    msg.append(n.as_str());
                    msg.append(" out of bounds");
                    self.qso_entry.set_error(msg);
                    self.qso_entry.clear_editing();
                    return Effect::Done;
                }
                Effect::SaveActiveLog { path, content }
            },
            Action::ExportLog => {
                match &self.current_log {
                    Some(log) => {
                        let content = format_adif(log);
                        let path = String::from_str(self.export.path());
                        Effect::WriteExport { path, content }
                    },
                    None => {
                        self.export.set_error(String::from_str("No active log selected"));
                        Effect::Done
                    },
                }
            },
            Action::DeleteLog(log_id) => {
                let path = self.manager.log_path(log_id.as_str());
                Effect::DeleteLog { path, log_id }
            },
        }
    }

    /// Navigates to a screen, running its entry side effects: entering log
    /// selection asks for a list reload; entering creation resets the
    /// form; entering entry re-seeds the recent contacts; entering the
    /// list resets its cursor; entering export recomputes the path and
    /// count.
    pub fn navigate(&mut self, screen: Screen) -> (r: Effect)
        requires
            old(self).wf(),
        ensures
            final(self).wf(),
            final(self).screen == screen,
            final(self).current_log == old(self).current_log,
            screen == Screen::LogSelect ==> r is LoadLogs,
            screen != Screen::LogSelect ==> r is Done,
            screen == Screen::LogCreate ==> {
                &&& final(self).log_create.log_type == crate::tui::log_create::LogType::General
                &&& final(self).log_create.focus_area
                    == crate::tui::log_create::FocusArea::TypeSelector
                &&& final(self).log_create.general_error is None
                &&& forall|k: int| 0 <= k < 3 ==> final(self).log_create.val(k) == Seq::<
                    char,
                >::empty()
            },
            screen == Screen::QsoEntry ==> (old(self).current_log matches Some(l) ==> {
                let qs = l.spec_header().qsos@;
                let n = vstd::math::min(qs.len() as int, 3int);
                &&& final(self).qso_entry.recent_qsos@.len() == n
                &&& forall|k: int|
                    0 <= k < n ==> #[trigger] final(self).qso_entry.recent_qsos@[k] == qs[qs.len()
                        - 1 - k]
            }),
            screen == Screen::QsoList ==> final(self).qso_list.selected == 0,
            screen == Screen::Export ==> {
                &&& final(self).export.status == crate::tui::export::ExportStatus::Ready
                &&& (old(self).current_log matches Some(l) ==> final(self).export.qso_count
                    == l.spec_header().qsos@.len())
                &&& (old(self).current_log is None ==> final(self).export.qso_count == 0 && final(self).export.path@ == Seq::<char>::empty())
            },
    {
        match screen {
            Screen::LogSelect => {
                self.screen = Screen::LogSelect;
                Effect::LoadLogs
            },
            Screen::LogCreate => {
                self.log_create.reset();
                self.screen = Screen::LogCreate;
                Effect::Done
            },
            Screen::QsoEntry => {
                let log = self.current_log.take();
                match log {
                    Some(l) => {
                        self.qso_entry.set_log_context(&l);
                        self.current_log = Some(l);
                    },
                    None => {
                        self.current_log = None;
                    },
                }
                self.screen = Screen::QsoEntry;
                Effect::Done
            },
            Screen::QsoList => {
                self.qso_list.reset();
                self.screen = Screen::QsoList;
                Effect::Done
            },
            Screen::Export => {
                let log = self.current_log.take();
                match &log {
                    Some(l) => self.export.prepare(Some(l)),
                    None => self.export.prepare(None),
                }
                self.current_log = log;
                self.screen = Screen::Export;
                Effect::Done
            },
            Screen::Help => {
                self.screen = Screen::Help;
                Effect::Done
            },
        }
    }

    /// Adopts a freshly listed and parsed set of logs (sorted newest
    /// first here), or shows the failure on the selection screen.
    pub fn finish_load_logs(&mut self, result: Result<Vec<Log>, StorageError>)
        requires
            old(self).wf(),
        ensures
            final(self).wf(),
            result is Ok ==> final(self).log_select.error is None,
            result matches Ok(logs) ==> {
                let shown = final(self).log_select.logs@;
                &&& shown.map_values(|l: Log| l@).to_multiset() == logs@.map_values(
                    |l: Log| l@,
                ).to_multiset()
                &&& forall|i: int, j: int|
                    0 <= i < j < shown.len() ==> (#[trigger] shown[j]).spec_header(
                    ).created_at.spec_le((#[trigger] shown[i]).spec_header().created_at)
                &&& final(self).log_select.selected == (if shown.len() == 0 {
                    None::<usize>
                } else {
                    Some(0usize)
                })
                &&& final(self).log_select.pending_delete is None
            },
            result is Err ==> final(self).log_select.error is Some && final(self).log_select.logs@ == old(self).log_select.logs@,
    {
        match result {
            Ok(logs) => {
                let sorted = sort_logs_desc(logs);
                self.log_select.load(sorted);
            },
            Err(e) => {
                let mut msg = String::from_str("Failed to load logs: ");
                let em = e.message();
                msg.append(em.as_str());
                self.log_select.set_error(msg);
            },
        }
    }

    /// Finishes a duplicate-unchecked save of a newly created log: on
    /// success the log becomes active and entry begins; on failure the
    /// selection screen shows the error.
    pub fn finish_create_log(&mut self, log: Log, io_error: Option<String>)
        requires
            old(self).wf(),
        ensures
            final(self).wf(),
            io_error is None ==> (final(self).current_log matches Some(l) && l@ == log@ && final(self).screen == Screen::QsoEntry),
            io_error is Some ==> final(self).screen == Screen::LogSelect && final(self).log_select.error is Some,
    {
        match io_error {
            Some(m) => {
                let mut msg = String::from_str("Failed to save log: ");
                msg.append(m.as_str());
                self.log_select.set_error(msg);
                self.screen = Screen::LogSelect;
            },
            None => {
                self.qso_entry.set_log_context(&log);
                self.current_log = Some(log);
                self.screen = Screen::QsoEntry;
            },
        }
    }

    /// Finishes appending a submitted contact: on success it joins the
    /// in-memory log and the recent list, the fast fields clear, and a
    /// non-fatal duplicate warning appears when the log's duplicate rule
    /// matched; on failure the entry screen shows the error and the log is
    /// unchanged.
    pub fn finish_add_qso(&mut self, qso: Qso, io_error: Option<String>)
        requires
            old(self).wf(),
        ensures
            final(self).wf(),
            io_error is Some ==> final(self).qso_entry.error is Some && final(self).current_log
                == old(self).current_log,
            io_error is None ==> (old(self).current_log matches Some(l) ==> (final(self).current_log matches Some(l2) && Log::same_config(l, l2) && Log::same_header_fields(
                l.spec_header(),
                l2.spec_header(),
            ) && l2.spec_header().qsos@ == l.spec_header().qsos@.push(qso))),
    {
        if let Some(m) = io_error {
            let mut msg = String::from_str("Failed to save QSO: ");
            msg.append(m.as_str());
            self.qso_entry.set_error(msg);
            return ;
        }
        let log = self.current_log.take();
        match log {
            Some(mut l) => {
                let dups = l.find_duplicates(&qso);
                let is_contest = match &l {
                    Log::FieldDay(_) | Log::WinterFieldDay(_) => true,
                    _ => false,
                };
                l.add_qso(clone_qso(&qso));
                self.qso_entry.add_recent_qso(clone_qso(&qso));
                self.qso_entry.clear_fast_fields();
                if dups.len() > 0 {
                    let mut msg = String::from_str("Warning: duplicate contact — ");
                    msg.append(qso.their_call.as_str());
                    msg.append(" ");
                    msg.append(qso.band.adif_str());
                    msg.append(" ");
                    msg.append(qso.mode.adif_str());
                    if is_contest {
                        msg.append(" already logged");
                    } else {
                        msg.append(" already logged today");
                    }
                    self.qso_entry.set_error(msg);
                }
                self.current_log = Some(l);
            },
            None => {
                self.current_log = None;
            },
        }
    }

    /// Finishes the re-save after an edit: on success the screen returns
    /// to the contact list; either way edit mode ends.
    pub fn finish_update_qso(&mut self, io_error: Option<String>)
        requires
            old(self).wf(),
        ensures
            final(self).wf(),
            final(self).qso_entry.editing is None,
            io_error is None ==> final(self).screen == Screen::QsoList,
            io_error is Some ==> final(self).qso_entry.error is Some,
    {
        match io_error {
            Some(m) => {
                let mut msg = String::from_str("Failed to save log: ");
                msg.append(m.as_str());
                self.qso_entry.set_error(msg);
                self.qso_entry.clear_editing();
            },
            None => {
                self.qso_entry.clear_editing();
                self.screen = Screen::QsoList;
            },
        }
    }

    /// Finishes a delete: on success the active log is cleared when it was
    /// the deleted one and the list is reloaded; a failure is reported
    /// without clearing anything.
    pub fn finish_delete_log(&mut self, log_id: &str, io_error: Option<String>) -> (r: Effect)
        requires
            old(self).wf(),
        ensures
            final(self).wf(),
            io_error is Some ==> final(self).log_select.error is Some && final(self).current_log
                == old(self).current_log && (r is Done),
            io_error is None ==> (r is LoadLogs) && (match old(self).current_log {
                Some(l) => if l.spec_header().log_id@ == log_id@ {
                    final(self).current_log is None
                } else {
                    final(self).current_log == old(self).current_log
                },
                None => final(self).current_log is None,
            }),
    {
        match io_error {
            Some(m) => {
                let mut msg = String::from_str("Failed to delete log: ");
                msg.append(m.as_str());
                self.log_select.set_error(msg);
                Effect::Done
            },
            None => {
                let log = self.current_log.take();
                match log {
                    Some(l) => {
                        let was_active = crate::text::str_eq(
                            l.header().log_id.as_str(),
                            log_id,
                        );
                        if !was_active {
                            self.current_log = Some(l);
                        }
                    },
                    None => {},
                }
                Effect::LoadLogs
            },
        }
    }

    /// Finishes an export: records success, or the failure's message.
    pub fn finish_export(&mut self, io_error: Option<String>)
        requires
            old(self).wf(),
        ensures
            final(self).wf(),
            io_error is None ==> final(self).export.status == crate::tui::export::ExportStatus::Success,
            io_error is Some ==> final(self).export.status is Error,
    {
        match io_error {
            Some(m) => {
                self.export.set_error(m);
            },
            None => {
                self.export.set_success();
            },
        }
    }
}

} // verus!
