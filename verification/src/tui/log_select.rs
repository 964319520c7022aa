//! The log selection screen: list existing logs, open, create, or delete
//! one (with a confirmation step).

use vstd::prelude::*;

use crate::model::log::{Log, clone_log};
use crate::tui::action::{Action, Screen};
use crate::tui::key::Key;

verus! {

/// State for the log selection screen.
#[derive(Debug)]
pub struct LogSelectState {
    /// Cached list of logs, newest first.
    pub logs: Vec<Log>,
    /// The highlighted row, or `None` when the list is empty.
    pub selected: Option<usize>,
    /// Error message from the last failed operation.
    pub error: Option<String>,
    /// A delete awaiting confirmation: the log id and a display label.
    pub pending_delete: Option<(String, String)>,
}

impl LogSelectState {
    /// The highlight always rests on an existing row.
    pub open spec fn wf(self) -> bool {
        match self.selected {
            Some(i) => i < self.logs@.len(),
            None => self.logs@.len() == 0,
        }
    }

    /// Creates an empty state. Call [`load`](Self::load) to populate it.
    pub fn new() -> (r: LogSelectState)
        ensures
            r.logs@.len() == 0,
            r.selected is None,
            r.error is None,
            r.pending_delete is None,
            r.wf(),
    {
        LogSelectState { logs: Vec::new(), selected: None, error: None, pending_delete: None }
    }

    /// Adopts a freshly listed set of logs: the highlight returns to the
    /// first row (or to none if the list is empty), and any prior error or
    /// pending delete is cleared.
    pub fn load(&mut self, logs: Vec<Log>)
        ensures
            final(self).logs@ == logs@,
            final(self).selected == if logs@.len() == 0 {
                None::<usize>
            } else {
                Some(0usize)
            },
            final(self).error is None,
            final(self).pending_delete is None,
            final(self).wf(),
    {
        let empty = logs.len() == 0;
        self.logs = logs;
        self.selected = if empty {
            None
        } else {
            Some(0)
        };
        self.error = None;
        self.pending_delete = None;
    }

    /// Handles a key. With a delete pending, `y` confirms it and `n` or
    /// Escape cancel; every other key is ignored. Otherwise Up and Down
    /// move the highlight without wrapping, Enter opens the highlighted
    /// log, `n` goes to the creation screen, `d` begins a delete
    /// confirmation for the highlighted log, and `q` or Escape quit.
    pub fn handle_key(&mut self, key: Key) -> (r: Action)
        requires
            old(self).wf(),
        ensures
            final(self).wf(),
            final(self).logs@ == old(self).logs@,
            old(self).pending_delete matches Some((id, label)) ==> {
                &&& (key == Key::Char('y') ==> r == Action::DeleteLog(id) && final(self).pending_delete is None)
                &&& (key == Key::Char('n') || key == Key::Esc ==> r == Action::Noop && final(self).pending_delete is None)
                &&& (!(key == Key::Char('y') || key == Key::Char('n') || key == Key::Esc) ==> r
                    == Action::Noop && final(self).pending_delete == old(self).pending_delete)
                &&& final(self).selected == old(self).selected
            },
            old(self).pending_delete is None ==> {
                &&& (key == Key::Up ==> r == Action::Noop && final(self).selected == match old(self).selected {
                    Some(i) => if i > 0 {
                        Some((i - 1) as usize)
                    } else {
                        Some(0usize)
                    },
                    None => None::<usize>,
                })
                &&& (key == Key::Down ==> r == Action::Noop && final(self).selected == match old(self).selected {
                    Some(i) => if i + 1 < old(self).logs@.len() {
                        Some((i + 1) as usize)
                    } else {
                        Some(i)
                    },
                    None => None::<usize>,
                })
                &&& (key == Key::Enter ==> final(self).selected == old(self).selected && (match old(self).selected {
                    Some(i) => r matches Action::SelectLog(l) && l@ == old(self).logs@[i as int]@,
                    None => r == Action::Noop,
                }))
                &&& (key == Key::Char('n') ==> r == Action::Navigate(Screen::LogCreate))
                &&& (key == Key::Char('q') || key == Key::Esc ==> r == Action::Quit)
                &&& (key == Key::Char('d') ==> r == Action::Noop && (match old(self).selected {
                    Some(i) => final(self).pending_delete matches Some((id, label)) && id@ == old(self).logs@[i as int].spec_header().log_id@,
                    None => final(self).pending_delete is None,
                }))
            },
    {
        if self.pending_delete.is_some() {
            match key {
                Key::Char('y') => {
                    let pd = self.pending_delete.take().unwrap();
                    return Action::DeleteLog(pd.0);
                },
                Key::Char('n') | Key::Esc => {
                    self.pending_delete = None;
                    return Action::Noop;
                },
                _ => {
                    return Action::Noop;
                },
            }
        }
        match key {
            Key::Up => {
                match self.selected {
                    Some(i) => {
                        if i > 0 {
                            self.selected = Some(i - 1);
                        }
                    },
                    None => {},
                }
                Action::Noop
            },
            Key::Down => {
                match self.selected {
                    Some(i) => {
                        if i < self.logs.len() - 1 {
                            self.selected = Some(i + 1);
                        }
                    },
                    None => {},
                }
                Action::Noop
            },
            Key::Enter => {
                match self.selected {
                    Some(i) => Action::SelectLog(clone_log(&self.logs[i])),
                    None => Action::Noop,
                }
            },
            Key::Char('n') => Action::Navigate(Screen::LogCreate),
            Key::Char('q') | Key::Esc => Action::Quit,
            Key::Char('d') => {
                match self.selected {
                    Some(i) => {
                        let id = self.logs[i].header().log_id.clone();
                        let label = self.logs[i].display_label();
                        self.pending_delete = Some((id, label));
                    },
                    None => {},
                }
                Action::Noop
            },
            _ => Action::Noop,
        }
    }

    /// Returns the cached log list.
    pub fn logs(&self) -> (r: &Vec<Log>)
        ensures
            r@ == self.logs@,
    {
        &self.logs
    }

    /// Returns the highlighted row index.
    pub fn selected(&self) -> (r: Option<usize>)
        ensures
            r == self.selected,
    {
        self.selected
    }

    /// Returns the current error message, if any.
    pub fn error(&self) -> (r: &Option<String>)
        ensures
            *r == self.error,
    {
        &self.error
    }

    /// Sets an error message to display on this screen.
    pub fn set_error(&mut self, msg: String)
        ensures
            final(self).error == Some(msg),
            final(self).logs@ == old(self).logs@,
            final(self).selected == old(self).selected,
            final(self).pending_delete == old(self).pending_delete,
    {
        self.error = Some(msg);
    }

    /// Returns the display label of the delete awaiting confirmation.
    pub fn pending_delete_label(&self) -> (r: Option<&String>)
        ensures
            match r {
                Some(l) => self.pending_delete matches Some((_, label)) && *l == label,
                None => self.pending_delete is None,
            },
    {
        match &self.pending_delete {
            Some(p) => Some(&p.1),
            None => None,
        }
    }
}

impl Default for LogSelectState {
    /// An empty list with nothing highlighted.
    fn default() -> (r: Self)
        ensures
            r.logs@.len() == 0,
            r.selected is None,
            r.error is None,
            r.pending_delete is None,
    {
        LogSelectState::new()
    }
}

} // verus!
