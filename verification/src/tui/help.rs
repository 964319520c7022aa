//! The scrollable, context-sensitive keybinding reference.

use vstd::prelude::*;

use crate::tui::action::{Action, Screen};
use crate::tui::key::Key;

verus! {

/// State for the help screen: the scroll offset and the screen help was
/// opened from.
#[derive(Debug, Clone, Copy, PartialEq, Eq, Structural)]
pub struct HelpState {
    pub scroll: u16,
    pub origin: Screen,
}

impl HelpState {
    /// Creates a new state, scrolled to the top, with the log-select
    /// screen as the origin.
    pub fn new() -> (r: HelpState)
        ensures
            r.scroll == 0,
            r.origin == Screen::LogSelect,
    {
        HelpState { scroll: 0, origin: Screen::LogSelect }
    }

    /// Returns the current scroll offset.
    pub fn scroll(&self) -> (r: u16)
        ensures
            r == self.scroll,
    {
        self.scroll
    }

    /// Returns the screen help was opened from.
    pub fn origin(&self) -> (r: Screen)
        ensures
            r == self.origin,
    {
        self.origin
    }

    /// Records the screen to return to when help is dismissed.
    pub fn set_origin(&mut self, screen: Screen)
        ensures
            final(self).origin == screen,
            final(self).scroll == old(self).scroll,
    {
        self.origin = screen;
    }

    /// Resets the scroll position to the top.
    pub fn reset(&mut self)
        ensures
            final(self).scroll == 0,
            final(self).origin == old(self).origin,
    {
        self.scroll = 0;
    }

    /// Handles a key: Up and Down adjust the scroll offset by one,
    /// saturating at zero on the low end; `q` and Escape return to the
    /// origin screen.
    pub fn handle_key(&mut self, key: Key) -> (r: Action)
        ensures
            key == Key::Up ==> r == Action::Noop && final(self).origin == old(self).origin
                && final(self).scroll as int == if old(self).scroll > 0 {
                old(self).scroll - 1
            } else {
                0int
            },
            key == Key::Down ==> r == Action::Noop && final(self).origin == old(self).origin
                && final(self).scroll as int == if old(self).scroll < 0xffff {
                old(self).scroll + 1
            } else {
                0xffffint
            },
            key == Key::Esc || key == Key::Char('q') ==> *final(self) == *old(self) && r
                == Action::Navigate(old(self).origin),
            !(key == Key::Up || key == Key::Down || key == Key::Esc || key == Key::Char('q'))
                ==> *final(self) == *old(self) && r == Action::Noop,
    {
        match key {
            Key::Up => {
                if self.scroll > 0 {
                    self.scroll = self.scroll - 1;
                }
                Action::Noop
            },
            Key::Down => {
                if self.scroll < 0xffff {
                    self.scroll = self.scroll + 1;
                }
                Action::Noop
            },
            Key::Esc | Key::Char('q') => Action::Navigate(self.origin),
            _ => Action::Noop,
        }
    }
}

impl Default for HelpState {
    /// Scrolled to the top, originating from log select.
    fn default() -> (r: Self)
        ensures
            r.scroll == 0,
            r.origin == Screen::LogSelect,
    {
        HelpState::new()
    }
}

/// Returns the name of a screen for the help title.
pub fn screen_name(screen: Screen) -> (r: &'static str)
    ensures
        r@ == screen.spec_label(),
{
    screen.label()
}

/// The keybinding table shown for each origin screen.
pub open spec fn spec_help_entries(origin: Screen) -> Seq<(Seq<char>, Seq<char>)> {
    match origin {
        Screen::LogSelect => seq![
            ("Up/Down"@, "navigate"@),
            ("Enter"@, "open log"@),
            ("n"@, "new log"@),
            ("d"@, "delete log (y/n to confirm)"@),
            ("q / Esc"@, "quit"@),
            ("?"@, "help"@),
        ],
        Screen::LogCreate => seq![
            ("Tab / Shift-Tab"@, "next / prev field"@),
            ("Left/Right"@, "log type"@),
            ("Enter"@, "create log"@),
            ("Esc"@, "cancel"@),
        ],
        Screen::QsoEntry => seq![
            ("Tab / Shift-Tab"@, "next / prev field"@),
            ("Enter"@, "log QSO"@),
            ("Esc"@, "back to Log Select; in edit mode: cancel"@),
            ("Alt+b"@, "next band"@),
            ("Shift+Alt+B"@, "prev band"@),
            ("Alt+m"@, "next mode"@),
            ("Shift+Alt+M"@, "prev mode"@),
            ("Alt+e"@, "open QSO list"@),
            ("Alt+x"@, "export log"@),
        ],
        Screen::QsoList => seq![
            ("Up/Down"@, "navigate"@),
            ("Home / End"@, "first / last"@),
            ("Enter"@, "edit QSO"@),
            ("q / Esc"@, "back"@),
            ("?"@, "help"@),
        ],
        Screen::Export => seq![
            ("Enter"@, "export to ADIF"@),
            ("q / Esc"@, "back"@),
            ("?"@, "help"@),
        ],
        Screen::Help => seq![("Up/Down"@, "scroll"@), ("q / Esc"@, "back"@)],
    }
}

/// Returns the keybinding table shown for the given origin screen, as
/// key/description pairs.
pub fn help_content(origin: Screen) -> (r: Vec<(&'static str, &'static str)>)
    ensures
        r@.len() == spec_help_entries(origin).len(),
        forall|i: int|
            0 <= i < r@.len() ==> ((#[trigger] r@[i]).0@, r@[i].1@) == spec_help_entries(
                origin,
            )[i],
{
    match origin {
        Screen::LogSelect => {
            let v: Vec<(&'static str, &'static str)> = vec![
                ("Up/Down", "navigate"),
                ("Enter", "open log"),
                ("n", "new log"),
                ("d", "delete log (y/n to confirm)"),
                ("q / Esc", "quit"),
                ("?", "help"),
            ];
            proof {
                assert(v@.map_values(|p: (&'static str, &'static str)| (p.0@, p.1@))
                    =~= spec_help_entries(origin));
            }
            v
        },
        Screen::LogCreate => {
            let v: Vec<(&'static str, &'static str)> = vec![
                ("Tab / Shift-Tab", "next / prev field"),
                ("Left/Right", "log type"),
                ("Enter", "create log"),
                ("Esc", "cancel"),
            ];
            proof {
                assert(v@.map_values(|p: (&'static str, &'static str)| (p.0@, p.1@))
                    =~= spec_help_entries(origin));
            }
            v
        },
        Screen::QsoEntry => {
            let v: Vec<(&'static str, &'static str)> = vec![
                ("Tab / Shift-Tab", "next / prev field"),
                ("Enter", "log QSO"),
                ("Esc", "back to Log Select; in edit mode: cancel"),
                ("Alt+b", "next band"),
                ("Shift+Alt+B", "prev band"),
                ("Alt+m", "next mode"),
                ("Shift+Alt+M", "prev mode"),
                ("Alt+e", "open QSO list"),
                ("Alt+x", "export log"),
            ];
            proof {
                assert(v@.map_values(|p: (&'static str, &'static str)| (p.0@, p.1@))
                    =~= spec_help_entries(origin));
            }
            v
        },
        Screen::QsoList => {
            let v: Vec<(&'static str, &'static str)> = vec![
                ("Up/Down", "navigate"),
                ("Home / End", "first / last"),
                ("Enter", "edit QSO"),
                ("q / Esc", "back"),
                ("?", "help"),
            ];
            proof {
                assert(v@.map_values(|p: (&'static str, &'static str)| (p.0@, p.1@))
                    =~= spec_help_entries(origin));
            }
            v
        },
        Screen::Export => {
            let v: Vec<(&'static str, &'static str)> = vec![
                ("Enter", "export to ADIF"),
                ("q / Esc", "back"),
                ("?", "help"),
            ];
            proof {
                assert(v@.map_values(|p: (&'static str, &'static str)| (p.0@, p.1@))
                    =~= spec_help_entries(origin));
            }
            v
        },
        Screen::Help => {
            let v: Vec<(&'static str, &'static str)> = vec![
                ("Up/Down", "scroll"),
                ("q / Esc", "back"),
            ];
            proof {
                assert(v@.map_values(|p: (&'static str, &'static str)| (p.0@, p.1@))
                    =~= spec_help_entries(origin));
            }
            v
        },
    }
}

} // verus!
