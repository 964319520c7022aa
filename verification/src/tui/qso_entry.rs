//! The contact entry screen: a five-field fast-entry form with band and
//! mode cycling, a recent-contacts list, and an edit mode for existing
//! contacts.

use vstd::prelude::*;

use crate::model::band::Band;
use crate::model::mode::Mode;
use crate::model::log::{Log, clone_qso};
use crate::model::qso::{Qso, QsoView};
use crate::model::validation::{
    spec_valid_callsign, spec_valid_park_ref, validate_callsign, validate_park_ref,
};
use crate::text::{spec_upper_char, upper_char};
use crate::time::Timestamp;
use crate::tui::action::{Action, Screen};
use crate::tui::form::{Form, FormField};
use crate::tui::key::Key;

verus! {

/// Field index for the other station's callsign.
pub const THEIR_CALL: usize = 0;

/// Field index for RST sent.
pub const RST_SENT: usize = 1;

/// Field index for RST received.
pub const RST_RCVD: usize = 2;

/// Field index for the other station's POTA park reference.
pub const THEIR_PARK: usize = 3;

/// Field index for free-text comments.
pub const COMMENTS: usize = 4;

/// The position of a band in the cycling order.
pub open spec fn spec_band_pos(b: Band) -> int {
    match b {
        Band::M160 => 0,
        Band::M80 => 1,
        Band::M60 => 2,
        Band::M40 => 3,
        Band::M30 => 4,
        Band::M20 => 5,
        Band::M17 => 6,
        Band::M15 => 7,
        Band::M12 => 8,
        Band::M10 => 9,
        Band::M6 => 10,
        Band::M2 => 11,
        Band::Cm70 => 12,
    }
}

/// The position of a mode in the cycling order.
pub open spec fn spec_mode_pos(m: Mode) -> int {
    match m {
        Mode::Ssb => 0,
        Mode::Cw => 1,
        Mode::Ft8 => 2,
        Mode::Ft4 => 3,
        Mode::Js8 => 4,
        Mode::Psk31 => 5,
        Mode::Rtty => 6,
        Mode::Fm => 7,
        Mode::Am => 8,
        Mode::Digi => 9,
    }
}

/// The next position in a wrapping cycle of the given length.
pub open spec fn spec_cycle_pos(len: int, pos: int, forward: bool) -> int {
    if forward {
        if pos == len - 1 {
            0
        } else {
            pos + 1
        }
    } else {
        if pos == 0 {
            len - 1
        } else {
            pos - 1
        }
    }
}

/// Cycles the band forward or backward through the wavelength order,
/// wrapping at both ends.
pub fn cycle_band(current: Band, forward: bool) -> (r: Band)
    ensures
        r == Band::spec_all()[spec_cycle_pos(13, spec_band_pos(current), forward)],
{
    let all = Band::all();
    let pos: usize = match current {
        Band::M160 => 0,
        Band::M80 => 1,
        Band::M60 => 2,
        Band::M40 => 3,
        Band::M30 => 4,
        Band::M20 => 5,
        Band::M17 => 6,
        Band::M15 => 7,
        Band::M12 => 8,
        Band::M10 => 9,
        Band::M6 => 10,
        Band::M2 => 11,
        Band::Cm70 => 12,
    };
    let next: usize = if forward {
        if pos == 12 {
            0
        } else {
            pos + 1
        }
    } else {
        if pos == 0 {
            12
        } else {
            pos - 1
        }
    };
    all[next]
}

/// Cycles the mode forward or backward through the mode order, wrapping at
/// both ends.
pub fn cycle_mode_value(current: Mode, forward: bool) -> (r: Mode)
    ensures
        r == Mode::spec_all()[spec_cycle_pos(10, spec_mode_pos(current), forward)],
{
    let all = Mode::all();
    let pos: usize = match current {
        Mode::Ssb => 0,
        Mode::Cw => 1,
        Mode::Ft8 => 2,
        Mode::Ft4 => 3,
        Mode::Js8 => 4,
        Mode::Psk31 => 5,
        Mode::Rtty => 6,
        Mode::Fm => 7,
        Mode::Am => 8,
        Mode::Digi => 9,
    };
    let next: usize = if forward {
        if pos == 9 {
            0
        } else {
            pos + 1
        }
    } else {
        if pos == 0 {
            9
        } else {
            pos - 1
        }
    };
    all[next]
}

/// After a mode change, each signal report is refreshed to the new mode's
/// default exactly when it still held the previous mode's default; an
/// edited report survives the change.
pub open spec fn spec_rst_refreshed(pre: QsoEntryState, post: QsoEntryState) -> bool {
    &&& post.val(1) == (if pre.val(1) == pre.mode.spec_default_rst() {
        post.mode.spec_default_rst()
    } else {
        pre.val(1)
    })
    &&& post.val(2) == (if pre.val(2) == pre.mode.spec_default_rst() {
        post.mode.spec_default_rst()
    } else {
        pre.val(2)
    })
}

/// State for the QSO entry screen.
#[derive(Debug)]
pub struct QsoEntryState {
    pub form: Form,
    pub band: Band,
    pub mode: Mode,
    /// The latest contacts, newest first, at most three.
    pub recent_qsos: Vec<Qso>,
    pub error: Option<String>,
    /// When set, the screen edits the contact at this index instead of
    /// adding a new one.
    pub editing: Option<usize>,
}

impl QsoEntryState {
    /// The form always holds the five entry fields.
    pub open spec fn wf(self) -> bool {
        self.form.wf() && self.form.spec_fields().len() == 5
    }

    /// The form value at `i`.
    pub open spec fn val(self, i: int) -> Seq<char> {
        self.form.spec_value(i)
    }

    /// Whether the current form passes submission validation: a valid
    /// callsign, both signal reports non-empty, and a valid park reference
    /// when one is given.
    pub open spec fn spec_submit_ok(self) -> bool {
        &&& spec_valid_callsign(self.val(0))
        &&& self.val(1).len() > 0
        &&& self.val(2).len() > 0
        &&& (self.val(3).len() > 0 ==> spec_valid_park_ref(self.val(3)))
    }

    /// Whether `q` is the contact the current form describes.
    pub open spec fn spec_qso_from(self, q: QsoView) -> bool {
        &&& q.their_call == self.val(0)
        &&& q.rst_sent == self.val(1)
        &&& q.rst_rcvd == self.val(2)
        &&& q.band == self.band
        &&& q.mode == self.mode
        &&& q.comments == self.val(4)
        &&& q.their_park == if self.val(3).len() == 0 {
            None::<Seq<char>>
        } else {
            Some(self.val(3))
        }
        &&& q.their_class is None
        &&& q.their_section is None
        &&& q.timestamp.wf()
    }

    /// Creates a new entry state: default band and mode, both signal
    /// reports pre-filled with the mode's default, everything else empty.
    pub fn new() -> (r: QsoEntryState)
        ensures
            r.wf(),
            r.band == Band::M20,
            r.mode == Mode::Ssb,
            r.val(0) == Seq::<char>::empty(),
            r.val(1) == Mode::Ssb.spec_default_rst(),
            r.val(2) == Mode::Ssb.spec_default_rst(),
            r.val(3) == Seq::<char>::empty(),
            r.val(4) == Seq::<char>::empty(),
            r.recent_qsos@.len() == 0,
            r.error is None,
            r.editing is None,
            r.form.spec_focus() == 0,
    {
        let mode = Mode::Ssb;
        let rst = mode.default_rst();
        let fields: Vec<FormField> = vec![
            FormField::new("Their Callsign", true),
            FormField::new("RST Sent", true),
            FormField::new("RST Rcvd", true),
            FormField::new("Their Park", false),
            FormField::new("Comments", false),
        ];
        let mut form = Form::new(fields);
        form.set_value(RST_SENT, rst);
        form.set_value(RST_RCVD, rst);
        QsoEntryState {
            form,
            band: Band::M20,
            mode,
            recent_qsos: Vec::new(),
            error: None,
            editing: None,
        }
    }

    /// Returns a reference to the form for rendering.
    pub fn form(&self) -> (r: &Form)
        ensures
            *r == self.form,
    {
        &self.form
    }

    /// Returns the current band.
    pub fn band(&self) -> (r: Band)
        ensures
            r == self.band,
    {
        self.band
    }

    /// Returns the current mode.
    pub fn mode(&self) -> (r: Mode)
        ensures
            r == self.mode,
    {
        self.mode
    }

    /// Returns the recent contacts, newest first.
    pub fn recent_qsos(&self) -> (r: &Vec<Qso>)
        ensures
            r@ == self.recent_qsos@,
    {
        &self.recent_qsos
    }

    /// Returns the current error or warning message, if any.
    pub fn error(&self) -> (r: &Option<String>)
        ensures
            *r == self.error,
    {
        &self.error
    }

    /// Sets an error message to display.
    pub fn set_error(&mut self, msg: String)
        ensures
            final(self).error == Some(msg),
            final(self).form == old(self).form,
            final(self).band == old(self).band,
            final(self).mode == old(self).mode,
            final(self).recent_qsos@ == old(self).recent_qsos@,
            final(self).editing == old(self).editing,
    {
        self.error = Some(msg);
    }

    /// Whether the screen is editing an existing contact.
    pub fn is_editing(&self) -> (r: bool)
        ensures
            r == (self.editing is Some),
    {
        self.editing.is_some()
    }

    /// Leaves edit mode.
    pub fn clear_editing(&mut self)
        ensures
            final(self).editing is None,
            final(self).form == old(self).form,
            final(self).band == old(self).band,
            final(self).mode == old(self).mode,
            final(self).recent_qsos@ == old(self).recent_qsos@,
            final(self).error == old(self).error,
    {
        self.editing = None;
    }

    /// Pre-loads the form with an existing contact's values and enters
    /// edit mode for its index.
    pub fn start_editing(&mut self, index: usize, qso: &Qso)
        requires
            old(self).wf(),
        ensures
            final(self).wf(),
            final(self).editing == Some(index),
            final(self).val(0) == qso.their_call@,
            final(self).val(1) == qso.rst_sent@,
            final(self).val(2) == qso.rst_rcvd@,
            final(self).val(3) == match qso@.their_park {
                Some(p) => p,
                None => Seq::<char>::empty(),
            },
            final(self).val(4) == qso.comments@,
            final(self).band == qso.band,
            final(self).mode == qso.mode,
            final(self).error is None,
            final(self).recent_qsos@ == old(self).recent_qsos@,
    {
        self.form.clear_errors();
        self.form.set_value(THEIR_CALL, qso.their_call.as_str());
        self.form.set_value(RST_SENT, qso.rst_sent.as_str());
        self.form.set_value(RST_RCVD, qso.rst_rcvd.as_str());
        match &qso.their_park {
            Some(p) => self.form.set_value(THEIR_PARK, p.as_str()),
            None => self.form.clear_value(THEIR_PARK),
        }
        self.form.set_value(COMMENTS, qso.comments.as_str());
        self.form.set_focus(THEIR_CALL);
        self.band = qso.band;
        self.mode = qso.mode;
        self.error = None;
        self.editing = Some(index);
    }

    /// Re-seeds the recent-contacts list from a log: its last three
    /// contacts, newest first.
    pub fn set_log_context(&mut self, log: &Log)
        ensures
            ({
                let qs = log.spec_header().qsos@;
                let n = vstd::math::min(qs.len() as int, 3int);
                &&& final(self).recent_qsos@.len() == n
                &&& forall|k: int|
                    0 <= k < n ==> #[trigger] final(self).recent_qsos@[k] == qs[qs.len() - 1 - k]
            }),
            final(self).form == old(self).form,
            final(self).band == old(self).band,
            final(self).mode == old(self).mode,
            final(self).error == old(self).error,
            final(self).editing == old(self).editing,
    {
        let header = log.header();
        let total = header.qsos.len();
        let mut recent: Vec<Qso> = Vec::new();
        let take = if total < 3 {
            total
        } else {
            3
        };
        let mut k: usize = 0;
        while k < take
            invariant
                k <= take,
                take <= total,
                total == log.spec_header().qsos@.len(),
                header == &log.spec_header(),
                recent@.len() == k,
                forall|t: int|
                    0 <= t < k ==> #[trigger] recent@[t] == log.spec_header().qsos@[total - 1 - t],
            decreases take - k,
        {
            recent.push(clone_qso(&header.qsos[total - 1 - k]));
            k = k + 1;
        }
        self.recent_qsos = recent;
    }

    /// Adds a contact to the recent list, newest first, keeping at most
    /// three.
    pub fn add_recent_qso(&mut self, qso: Qso)
        ensures
            final(self).recent_qsos@.len() as int == vstd::math::min(
                old(self).recent_qsos@.len() as int + 1,
                3int,
            ),
            final(self).recent_qsos@[0] == qso,
            forall|k: int|
                1 <= k < final(self).recent_qsos@.len() ==> #[trigger] final(self).recent_qsos@[k] == old(self).recent_qsos@[k - 1],
            final(self).form == old(self).form,
            final(self).band == old(self).band,
            final(self).mode == old(self).mode,
            final(self).error == old(self).error,
            final(self).editing == old(self).editing,
    {
        let mut out: Vec<Qso> = Vec::new();
        out.push(qso);
        let keep = if self.recent_qsos.len() < 2 {
            self.recent_qsos.len()
        } else {
            2
        };
        let mut k: usize = 0;
        while k < keep
            invariant
                k <= keep,
                keep <= old(self).recent_qsos@.len(),
                self.recent_qsos@ == old(self).recent_qsos@,
                out@.len() == k + 1,
                out@[0] == qso,
                forall|t: int| 1 <= t < out@.len() ==> #[trigger] out@[t] == old(self).recent_qsos@[t - 1],
            decreases keep - k,
        {
            out.push(clone_qso(&self.recent_qsos[k]));
            k = k + 1;
        }
        self.recent_qsos = out;
    }

    /// Clears the fast-entry fields after a successful submission: the
    /// callsign, park, and comments empty; both signal reports reset to
    /// the current mode's default; all errors cleared; focus back on the
    /// callsign. Band and mode persist.
    pub fn clear_fast_fields(&mut self)
        requires
            old(self).wf(),
        ensures
            final(self).wf(),
            final(self).val(0) == Seq::<char>::empty(),
            final(self).val(1) == old(self).mode.spec_default_rst(),
            final(self).val(2) == old(self).mode.spec_default_rst(),
            final(self).val(3) == Seq::<char>::empty(),
            final(self).val(4) == Seq::<char>::empty(),
            forall|k: int|
                0 <= k < 5 ==> (#[trigger] final(self).form.spec_fields()[k]).error is None,
            final(self).error is None,
            final(self).form.spec_focus() == 0,
            final(self).band == old(self).band,
            final(self).mode == old(self).mode,
            final(self).recent_qsos@ == old(self).recent_qsos@,
            final(self).editing == old(self).editing,
    {
        self.form.clear_value(THEIR_CALL);
        let rst = self.mode.default_rst();
        self.form.set_value(RST_SENT, rst);
        self.form.set_value(RST_RCVD, rst);
        self.form.clear_value(THEIR_PARK);
        self.form.clear_value(COMMENTS);
        self.form.clear_errors();
        self.error = None;
        self.form.set_focus(THEIR_CALL);
    }

    /// Resets all state back to the initial defaults.
    pub fn reset(&mut self)
        ensures
            final(self).wf(),
            final(self).band == Band::M20,
            final(self).mode == Mode::Ssb,
            final(self).val(0) == Seq::<char>::empty(),
            final(self).val(1) == Mode::Ssb.spec_default_rst(),
            final(self).val(2) == Mode::Ssb.spec_default_rst(),
            final(self).recent_qsos@.len() == 0,
            final(self).error is None,
            final(self).editing is None,
    {
        *self = QsoEntryState::new();
    }

    /// Cycles the band.
    fn cycle_band_state(&mut self, forward: bool)
        ensures
            final(self).band == Band::spec_all()[
                spec_cycle_pos(13, spec_band_pos(old(self).band), forward)
            ],
            final(self).form == old(self).form,
            final(self).mode == old(self).mode,
            final(self).recent_qsos@ == old(self).recent_qsos@,
            final(self).error == old(self).error,
            final(self).editing == old(self).editing,
    {
        self.band = cycle_band(self.band, forward);
    }

    /// Cycles the mode. A signal report that still holds the previous
    /// mode's default is refreshed to the new mode's default; an edited
    /// report is kept.
    fn cycle_mode_state(&mut self, forward: bool)
        requires
            old(self).wf(),
        ensures
            final(self).wf(),
            final(self).mode == Mode::spec_all()[
                spec_cycle_pos(10, spec_mode_pos(old(self).mode), forward)
            ],
            final(self).val(1) == if old(self).val(1) == old(self).mode.spec_default_rst() {
                final(self).mode.spec_default_rst()
            } else {
                old(self).val(1)
            },
            final(self).val(2) == if old(self).val(2) == old(self).mode.spec_default_rst() {
                final(self).mode.spec_default_rst()
            } else {
                old(self).val(2)
            },
            final(self).val(0) == old(self).val(0),
            final(self).val(3) == old(self).val(3),
            final(self).val(4) == old(self).val(4),
            final(self).band == old(self).band,
            final(self).recent_qsos@ == old(self).recent_qsos@,
            final(self).error == old(self).error,
            final(self).editing == old(self).editing,
    {
        let old_rst = self.mode.default_rst();
        self.mode = cycle_mode_value(self.mode, forward);
        let new_rst = self.mode.default_rst();
        let sent = String::from_str(self.form.value(RST_SENT));
        if sent.eq(&String::from_str(old_rst)) {
            self.form.set_value(RST_SENT, new_rst);
        }
        let rcvd = String::from_str(self.form.value(RST_RCVD));
        if rcvd.eq(&String::from_str(old_rst)) {
            self.form.set_value(RST_RCVD, new_rst);
        }
    }

    /// Inserts a printable character into the focused field; the callsign
    /// and park fields are upper-cased as typed.
    fn handle_char(&mut self, ch: char)
        requires
            old(self).wf(),
        ensures
            final(self).wf(),
            ({
                let i = old(self).form.spec_focus();
                let c = if i == 0 || i == 3 {
                    spec_upper_char(ch)
                } else {
                    ch
                };
                final(self).form.spec_fields()[i].value@ == old(self).form.spec_fields()[
                    i
                ].value@.push(c)
            }),
            Form::same_but(old(self).form, final(self).form, old(self).form.spec_focus()),
            final(self).band == old(self).band,
            final(self).mode == old(self).mode,
            final(self).recent_qsos@ == old(self).recent_qsos@,
            final(self).error == old(self).error,
            final(self).editing == old(self).editing,
    {
        let focus = self.form.focus();
        let c = if focus == THEIR_CALL || focus == THEIR_PARK {
            upper_char(ch)
        } else {
            ch
        };
        self.form.insert_char(c);
    }

    /// Validates the form and builds the submitted contact: a new one,
    /// or a replacement for the contact being edited.
    fn submit(&mut self) -> (r: Action)
        requires
            old(self).wf(),
        ensures
            final(self).wf(),
            final(self).band == old(self).band,
            final(self).mode == old(self).mode,
            final(self).recent_qsos@ == old(self).recent_qsos@,
            final(self).editing == old(self).editing,
            old(self).spec_submit_ok() ==> {
                &&& (old(self).editing is None ==> (r matches Action::AddQso(q) && old(
                    self,
                ).spec_qso_from(q@)))
                &&& (old(self).editing matches Some(i) ==> (r matches Action::UpdateQso(j, q) && j
                    == i && old(self).spec_qso_from(q@)))
            },
            !old(self).spec_submit_ok() ==> r == Action::Noop && exists|k: int|
                0 <= k < 5 && (#[trigger] final(self).form.spec_fields()[k]).error is Some,
    {
        self.form.clear_errors();
        self.error = None;

        let their_call = String::from_str(self.form.value(THEIR_CALL));
        let rst_sent = String::from_str(self.form.value(RST_SENT));
        let rst_rcvd = String::from_str(self.form.value(RST_RCVD));
        let their_park_str = String::from_str(self.form.value(THEIR_PARK));
        let comments = String::from_str(self.form.value(COMMENTS));

        if let Err(e) = validate_callsign(their_call.as_str()) {
            self.form.set_error(THEIR_CALL, e.message());
        }
        if rst_sent.as_str().is_empty() {
            self.form.set_error(RST_SENT, String::from_str("RST sent is required"));
        }
        if rst_rcvd.as_str().is_empty() {
            self.form.set_error(RST_RCVD, String::from_str("RST received is required"));
        }
        if !their_park_str.as_str().is_empty() {
            if let Err(e) = validate_park_ref(their_park_str.as_str()) {
                self.form.set_error(THEIR_PARK, e.message());
            }
        }

        if self.form.has_errors() {
            return Action::Noop;
        }

        let their_park = if their_park_str.as_str().is_empty() {
            None
        } else {
            Some(their_park_str)
        };
        let now = Timestamp::now();
        match Qso::new(
            their_call,
            rst_sent,
            rst_rcvd,
            self.band,
            self.mode,
            now,
            comments,
            their_park,
            None,
            None,
        ) {
            Ok(qso) => match self.editing {
                Some(i) => Action::UpdateQso(i, qso),
                None => Action::AddQso(qso),
            },
            Err(e) => {
                self.form.set_error(THEIR_CALL, e.message());
                Action::Noop
            },
        }
    }

    /// Handles a key: Alt+b and Alt+m cycle the band and mode forward,
    /// their shifted forms backward; Alt+e opens the contact list, Alt+x
    /// the export screen; Tab and Shift-Tab move the focus; Backspace
    /// deletes; Enter submits; Escape cancels an edit back to the list, or
    /// navigates back to log selection; printable characters go into the
    /// focused field.
    pub fn handle_key(&mut self, key: Key) -> (r: Action)
        requires
            old(self).wf(),
        ensures
            final(self).wf(),
            key == Key::AltChar('e') ==> r == Action::Navigate(Screen::QsoList),
            key == Key::AltChar('x') ==> r == Action::Navigate(Screen::Export),
            key == Key::AltChar('b') ==> r == Action::Noop && final(self).band == Band::spec_all()[
                spec_cycle_pos(13, spec_band_pos(old(self).band), true)
            ],
            key == Key::ShiftAltChar('B') ==> r == Action::Noop && final(self).band
                == Band::spec_all()[spec_cycle_pos(13, spec_band_pos(old(self).band), false)],
            key == Key::AltChar('m') ==> r == Action::Noop && final(self).mode == Mode::spec_all()[
                spec_cycle_pos(10, spec_mode_pos(old(self).mode), true)
            ] && spec_rst_refreshed(*old(self), *final(self)),
            key == Key::ShiftAltChar('M') ==> r == Action::Noop && final(self).mode
                == Mode::spec_all()[spec_cycle_pos(10, spec_mode_pos(old(self).mode), false)]
                && spec_rst_refreshed(*old(self), *final(self)),
            key == Key::Esc ==> r == (if old(self).editing is Some {
                Action::Navigate(Screen::QsoList)
            } else {
                Action::Navigate(Screen::LogSelect)
            }) && final(self).editing is None,
            key == Key::Enter && old(self).spec_submit_ok() ==> {
                &&& (old(self).editing is None ==> (r matches Action::AddQso(q) && old(
                    self,
                ).spec_qso_from(q@)))
                &&& (old(self).editing matches Some(i) ==> (r matches Action::UpdateQso(j, q) && j
                    == i && old(self).spec_qso_from(q@)))
            },
            key == Key::Enter && !old(self).spec_submit_ok() ==> r == Action::Noop && exists|k: int|
                0 <= k < 5 && (#[trigger] final(self).form.spec_fields()[k]).error is Some,
            key == Key::Tab ==> r == Action::Noop && final(self).form.spec_focus() == (old(self).form.spec_focus() + 1) % 5,
            key == Key::BackTab ==> r == Action::Noop && final(self).form.spec_focus() == (old(self).form.spec_focus() + 4) % 5,
            key matches Key::Char(c) ==> r == Action::Noop && ({
                let i = old(self).form.spec_focus();
                let cc = if i == 0 || i == 3 {
                    spec_upper_char(c)
                } else {
                    c
                };
                final(self).form.spec_fields()[i].value@ == old(self).form.spec_fields()[
                    i
                ].value@.push(cc)
            }),
    {
        match key {
            Key::AltChar(c) => {
                if c == 'b' {
                    self.cycle_band_state(true);
                    Action::Noop
                } else if c == 'm' {
                    self.cycle_mode_state(true);
                    Action::Noop
                } else if c == 'e' {
                    Action::Navigate(Screen::QsoList)
                } else if c == 'x' {
                    Action::Navigate(Screen::Export)
                } else {
                    Action::Noop
                }
            },
            Key::ShiftAltChar(c) => {
                if c == 'B' {
                    self.cycle_band_state(false);
                    Action::Noop
                } else if c == 'M' {
                    self.cycle_mode_state(false);
                    Action::Noop
                } else {
                    Action::Noop
                }
            },
            Key::Tab => {
                self.form.focus_next();
                Action::Noop
            },
            Key::BackTab => {
                self.form.focus_prev();
                Action::Noop
            },
            Key::Backspace => {
                self.form.delete_char();
                Action::Noop
            },
            Key::Esc => {
                if self.editing.is_some() {
                    self.editing = None;
                    Action::Navigate(Screen::QsoList)
                } else {
                    Action::Navigate(Screen::LogSelect)
                }
            },
            Key::Enter => self.submit(),
            Key::Char(c) => {
                self.handle_char(c);
                Action::Noop
            },
            _ => Action::Noop,
        }
    }
}

impl Default for QsoEntryState {
    /// The initial entry state.
    fn default() -> (r: Self)
        ensures
            r.wf(),
            r.band == Band::M20,
            r.mode == Mode::Ssb,
    {
        QsoEntryState::new()
    }
}

} // verus!
