//! The contact list screen: browse the active log and jump into editing.

use vstd::prelude::*;

use crate::tui::action::{Action, Screen};
use crate::tui::key::Key;

verus! {

/// State for the QSO list screen: the highlighted row.
#[derive(Debug, Clone, PartialEq, Eq, Structural)]
pub struct QsoListState {
    /// Index of the currently highlighted row (0-based).
    pub selected: usize,
}

impl QsoListState {
    /// Creates a new state with the cursor on the first row.
    pub fn new() -> (r: QsoListState)
        ensures
            r.selected == 0,
    {
        QsoListState { selected: 0 }
    }

    /// Handles a key, given the active log's contact count: Up and Down
    /// move the selection by one, saturating at the ends; Home and End
    /// jump to the first and last row; Enter opens the highlighted contact
    /// for editing (a no-op on an empty list); `q` and Escape go back to
    /// the entry screen.
    pub fn handle_key(&mut self, key: Key, qso_count: usize) -> (r: Action)
        ensures
            key == Key::Up ==> r == Action::Noop && final(self).selected as int == if old(self).selected > 0 {
                old(self).selected - 1
            } else {
                0int
            },
            key == Key::Down ==> r == Action::Noop && final(self).selected as int == if qso_count
                > 0 {
                vstd::math::min((old(self).selected + 1) as int, (qso_count - 1) as int)
            } else {
                old(self).selected as int
            },
            key == Key::Home ==> r == Action::Noop && final(self).selected == 0,
            key == Key::End ==> r == Action::Noop && final(self).selected as int == if qso_count
                > 0 {
                qso_count - 1
            } else {
                0int
            },
            key == Key::Enter ==> *final(self) == *old(self) && r == if qso_count > 0 {
                Action::EditQso(old(self).selected)
            } else {
                Action::Noop
            },
            key == Key::Esc || key == Key::Char('q') ==> *final(self) == *old(self) && r
                == Action::Navigate(Screen::QsoEntry),
            !(key == Key::Up || key == Key::Down || key == Key::Home || key == Key::End || key
                == Key::Enter || key == Key::Esc || key == Key::Char('q')) ==> *final(self) == *old(self) && r == Action::Noop,
    {
        match key {
            Key::Up => {
                if self.selected > 0 {
                    self.selected = self.selected - 1;
                }
                Action::Noop
            },
            Key::Down => {
                if qso_count > 0 {
                    if self.selected < qso_count - 1 {
                        self.selected = self.selected + 1;
                    } else {
                        self.selected = qso_count - 1;
                    }
                }
                Action::Noop
            },
            Key::Home => {
                self.selected = 0;
                Action::Noop
            },
            Key::End => {
                if qso_count > 0 {
                    self.selected = qso_count - 1;
                } else {
                    self.selected = 0;
                }
                Action::Noop
            },
            Key::Enter => {
                if qso_count > 0 {
                    Action::EditQso(self.selected)
                } else {
                    Action::Noop
                }
            },
            Key::Esc | Key::Char('q') => Action::Navigate(Screen::QsoEntry),
            _ => Action::Noop,
        }
    }

    /// Returns the currently selected row index.
    pub fn selected(&self) -> (r: usize)
        ensures
            r == self.selected,
    {
        self.selected
    }

    /// Sets the selected row index.
    pub fn set_selected(&mut self, idx: usize)
        ensures
            final(self).selected == idx,
    {
        self.selected = idx;
    }

    /// Resets the cursor to the first row.
    pub fn reset(&mut self)
        ensures
            final(self).selected == 0,
    {
        self.selected = 0;
    }
}

impl Default for QsoListState {
    /// The cursor starts on the first row.
    fn default() -> (r: Self)
        ensures
            r.selected == 0,
    {
        QsoListState::new()
    }
}

} // verus!
