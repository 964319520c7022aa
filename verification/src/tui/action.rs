//! Screens and the actions their key handlers return.

use vstd::prelude::*;

use crate::model::log::Log;
use crate::model::qso::Qso;

verus! {

/// All screens the application can navigate between.
#[derive(Debug, Clone, Copy, PartialEq, Eq, Structural)]
pub enum Screen {
    /// List and select existing logs.
    LogSelect,
    /// Create a new log session.
    LogCreate,
    /// Enter a new QSO into the active log.
    QsoEntry,
    /// View QSOs in the active log.
    QsoList,
    /// Export the active log to ADIF.
    Export,
    /// Show keybinding help.
    Help,
}

impl Screen {
    /// Human-readable label.
    pub open spec fn spec_label(self) -> Seq<char> {
        match self {
            Screen::LogSelect => "Log Select"@,
            Screen::LogCreate => "Log Create"@,
            Screen::QsoEntry => "QSO Entry"@,
            Screen::QsoList => "QSO List"@,
            Screen::Export => "Export"@,
            Screen::Help => "Help"@,
        }
    }

    /// Returns a human-readable label for the screen.
    pub fn label(&self) -> (r: &'static str)
        ensures
            r@ == self.spec_label(),
    {
        match self {
            Screen::LogSelect => "Log Select",
            Screen::LogCreate => "Log Create",
            Screen::QsoEntry => "QSO Entry",
            Screen::QsoList => "QSO List",
            Screen::Export => "Export",
            Screen::Help => "Help",
        }
    }
}

/// An action a screen handler returns for the application to apply. The
/// application is the only component that mutates the active log or asks
/// for storage work; screens only describe intent.
#[derive(Debug, PartialEq)]
pub enum Action {
    /// No state change needed.
    Noop,
    /// Navigate to the given screen.
    Navigate(Screen),
    /// Select an existing log as the active session.
    SelectLog(Log),
    /// Create and persist a new log, then make it active.
    CreateLog(Log),
    /// Add a QSO to the active log.
    AddQso(Qso),
    /// Open the QSO at the given index for editing.
    EditQso(usize),
    /// Replace the QSO at the given index with an edited version.
    UpdateQso(usize, Qso),
    /// Export the active log to ADIF.
    ExportLog,
    /// Delete the log with the given id from storage.
    DeleteLog(String),
    /// Quit the application.
    Quit,
}

} // verus!
