//! The export confirmation screen: review path and count, then write ADIF.

use vstd::prelude::*;

use crate::model::log::Log;
use crate::storage::{StorageError, default_export_path, spec_default_export_filename};
use crate::tui::action::{Action, Screen};
use crate::tui::key::Key;

verus! {

/// Current status of the export operation.
#[derive(Debug, Clone, PartialEq)]
pub enum ExportStatus {
    /// Awaiting user confirmation.
    Ready,
    /// Export completed successfully.
    Success,
    /// Export failed with the given error message.
    Error(String),
}

/// State for the export confirmation screen.
#[derive(Debug, PartialEq)]
pub struct ExportState {
    pub path: String,
    pub status: ExportStatus,
    pub qso_count: usize,
}

impl ExportState {
    /// Creates a new export state with empty defaults.
    pub fn new() -> (r: ExportState)
        ensures
            r.path@ == Seq::<char>::empty(),
            r.status == ExportStatus::Ready,
            r.qso_count == 0,
    {
        ExportState { path: String::new(), status: ExportStatus::Ready, qso_count: 0 }
    }

    /// Prepares the screen for the given log: resets the status, counts
    /// the contacts, and computes the default export path (or an error
    /// placeholder when the home directory cannot be resolved). With no
    /// active log both are cleared.
    pub fn prepare(&mut self, log: Option<&Log>)
        ensures
            final(self).status == ExportStatus::Ready,
            log is None ==> final(self).qso_count == 0 && final(self).path@
                == Seq::<char>::empty(),
            log matches Some(l) ==> final(self).qso_count == l.spec_header().qsos@.len() && ((
            exists|home: Seq<char>|
                final(self).path@ == #[trigger] (home + "/"@) + spec_default_export_filename(l@))
                || final(self).path@ == "<error: "@ + StorageError::NoHomeDir.spec_message()
                + ">"@),
    {
        self.status = ExportStatus::Ready;
        match log {
            Some(l) => {
                self.qso_count = l.header().qsos.len();
                match default_export_path(l) {
                    Ok(p) => {
                        self.path = p;
                    },
                    Err(e) => {
                        let mut msg = String::from_str("<error: ");
                        let em = e.message();
                        msg.append(em.as_str());
                        msg.append(">");
                        self.path = msg;
                    },
                }
            },
            None => {
                self.qso_count = 0;
                self.path = String::new();
            },
        }
    }

    /// Handles a key: while ready, Enter requests the export and Escape or
    /// `q` navigate back; once the export has succeeded or failed, any key
    /// returns to the entry screen.
    pub fn handle_key(&mut self, key: Key) -> (r: Action)
        ensures
            *final(self) == *old(self),
            old(self).status == ExportStatus::Ready ==> r == (if key == Key::Enter {
                Action::ExportLog
            } else if key == Key::Esc || key == Key::Char('q') {
                Action::Navigate(Screen::QsoEntry)
            } else {
                Action::Noop
            }),
            old(self).status != ExportStatus::Ready ==> r == Action::Navigate(Screen::QsoEntry),
    {
        match self.status {
            ExportStatus::Ready => match key {
                Key::Enter => Action::ExportLog,
                Key::Esc | Key::Char('q') => Action::Navigate(Screen::QsoEntry),
                _ => Action::Noop,
            },
            _ => Action::Navigate(Screen::QsoEntry),
        }
    }

    /// Marks the export as successful.
    pub fn set_success(&mut self)
        ensures
            final(self).status == ExportStatus::Success,
            final(self).path == old(self).path,
            final(self).qso_count == old(self).qso_count,
    {
        self.status = ExportStatus::Success;
    }

    /// Marks the export as failed with the given error message.
    pub fn set_error(&mut self, msg: String)
        ensures
            final(self).status == ExportStatus::Error(msg),
            final(self).path == old(self).path,
            final(self).qso_count == old(self).qso_count,
    {
        self.status = ExportStatus::Error(msg);
    }

    /// Returns the export file path.
    pub fn path(&self) -> (r: &str)
        ensures
            r@ == self.path@,
    {
        self.path.as_str()
    }

    /// Sets the export file path.
    pub fn set_path(&mut self, path: String)
        ensures
            final(self).path == path,
            final(self).status == old(self).status,
            final(self).qso_count == old(self).qso_count,
    {
        self.path = path;
    }

    /// Returns the current export status.
    pub fn status(&self) -> (r: &ExportStatus)
        ensures
            *r == self.status,
    {
        &self.status
    }

    /// Returns the number of QSOs that will be exported.
    pub fn qso_count(&self) -> (r: usize)
        ensures
            r == self.qso_count,
    {
        self.qso_count
    }
}

impl Default for ExportState {
    /// Empty path, ready status, zero contacts.
    fn default() -> (r: Self)
        ensures
            r.path@ == Seq::<char>::empty(),
            r.status == ExportStatus::Ready,
            r.qso_count == 0,
    {
        ExportState::new()
    }
}

} // verus!
