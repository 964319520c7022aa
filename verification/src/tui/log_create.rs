//! The log creation screen: a multi-type form whose field set follows the
//! selected log type, with value buffers that survive type switches.

use vstd::prelude::*;

use crate::model::log::{
    FdPowerCategory, FieldDayLog, GeneralLog, Log, PotaLog, WfdLog, parse_fd_class,
    parse_wfd_class, spec_parse_fd_class, spec_parse_wfd_class,
};
use crate::model::validation::{
    spec_normalize_grid, spec_valid_callsign, spec_valid_grid, spec_valid_park_ref,
    normalize_grid_square, validate_callsign, validate_grid_square, validate_park_ref,
    validate_section,
};
use crate::text::{spec_upper_char, upper_char};
use crate::time::Timestamp;
use crate::tui::action::{Action, Screen};
use crate::tui::form::{Form, FormField};
use crate::tui::key::Key;

verus! {

/// Field index for the station callsign (all types).
pub const CALLSIGN: usize = 0;

/// Field index for the operator callsign (all types).
pub const OPERATOR: usize = 1;

/// Field index for the grid square in the general form.
pub const GENERAL_GRID: usize = 2;

/// Field index for the POTA park reference.
pub const POTA_PARK_REF: usize = 2;

/// Field index for the grid square in the POTA form.
pub const POTA_GRID: usize = 3;

/// Field index for the grid square in the contest forms.
pub const CONTEST_GRID: usize = 2;

/// Field index for the transmitter count in the contest forms.
pub const CONTEST_TX_COUNT: usize = 3;

/// Field index for the operating class in the contest forms.
pub const CONTEST_CLASS: usize = 4;

/// Field index for the section in the contest forms.
pub const CONTEST_SECTION: usize = 5;

/// Which log type the type-selector row has chosen.
#[derive(Debug, Clone, Copy, PartialEq, Eq, Structural)]
pub enum LogType {
    General,
    Pota,
    FieldDay,
    WinterFieldDay,
}

impl LogType {
    /// The next type in the cycling order (wrapping).
    pub open spec fn spec_next(self) -> LogType {
        match self {
            LogType::General => LogType::Pota,
            LogType::Pota => LogType::FieldDay,
            LogType::FieldDay => LogType::WinterFieldDay,
            LogType::WinterFieldDay => LogType::General,
        }
    }

    /// The previous type in the cycling order (wrapping).
    pub open spec fn spec_prev(self) -> LogType {
        match self {
            LogType::General => LogType::WinterFieldDay,
            LogType::Pota => LogType::General,
            LogType::FieldDay => LogType::Pota,
            LogType::WinterFieldDay => LogType::FieldDay,
        }
    }

    /// Cycles to the next type.
    pub fn next(self) -> (r: LogType)
        ensures
            r == self.spec_next(),
    {
        match self {
            LogType::General => LogType::Pota,
            LogType::Pota => LogType::FieldDay,
            LogType::FieldDay => LogType::WinterFieldDay,
            LogType::WinterFieldDay => LogType::General,
        }
    }

    /// Cycles to the previous type.
    pub fn prev(self) -> (r: LogType)
        ensures
            r == self.spec_prev(),
    {
        match self {
            LogType::General => LogType::WinterFieldDay,
            LogType::Pota => LogType::General,
            LogType::FieldDay => LogType::Pota,
            LogType::WinterFieldDay => LogType::FieldDay,
        }
    }

    /// The label shown in the type selector.
    pub open spec fn spec_display_name(self) -> Seq<char> {
        match self {
            LogType::General => "General"@,
            LogType::Pota => "POTA"@,
            LogType::FieldDay => "Field Day"@,
            LogType::WinterFieldDay => "Winter FD"@,
        }
    }

    /// Returns the label shown in the type selector.
    pub fn display_name(self) -> (r: &'static str)
        ensures
            r@ == self.spec_display_name(),
    {
        match self {
            LogType::General => "General",
            LogType::Pota => "POTA",
            LogType::FieldDay => "Field Day",
            LogType::WinterFieldDay => "Winter FD",
        }
    }

    /// How many fields this type's form holds.
    pub open spec fn spec_field_count(self) -> int {
        match self {
            LogType::General => 3,
            LogType::Pota => 4,
            LogType::FieldDay => 6,
            LogType::WinterFieldDay => 6,
        }
    }
}

/// Which UI area holds keyboard focus.
#[derive(Debug, Clone, Copy, PartialEq, Eq, Structural)]
pub enum FocusArea {
    TypeSelector,
    Fields,
}

/// Parses a transmitter count: decimal digits only, value at most 255.
pub open spec fn spec_parse_u8(s: Seq<char>) -> Option<u8> {
    if s.len() == 0 {
        None
    } else if !(forall|i: int| 0 <= i < s.len() ==> '0' <= #[trigger] s[i] <= '9') {
        None
    } else if crate::json::spec_digits_val(s) > 255 {
        None
    } else {
        Some(crate::json::spec_digits_val(s) as u8)
    }
}

/// Parses a transmitter count from the form text.
fn parse_u8(s: &str) -> (r: Option<u8>)
    ensures
        r == spec_parse_u8(s@),
{
    let v = crate::text::str_to_chars(s);
    if v.len() == 0 {
        return None;
    }
    let mut val: u16 = 0;
    let mut i: usize = 0;
    while i < v.len()
        invariant
            i <= v@.len(),
            v@ == s@,
            forall|t: int| 0 <= t < i ==> '0' <= #[trigger] s@[t] <= '9',
            val <= 255,
            val == crate::json::spec_digits_val(s@.subrange(0, i as int)),
        decreases v@.len() - i,
    {
        let c = v[i];
        if !('0' <= c && c <= '9') {
            return None;
        }
        let d: u16 = ((c as u8) - 48) as u16;
        proof {
            let pre = s@.subrange(0, i as int + 1);
            assert(pre.drop_last() =~= s@.subrange(0, i as int));
            assert(pre.last() == s@[i as int]);
        }
        let next = val * 10 + d;
        if next > 255 {
            proof {
                lemma_digits_prefix_le(s@, i as int + 1);
            }
            return None;
        }
        val = next;
        i = i + 1;
    }
    proof {
        assert(s@.subrange(0, s@.len() as int) =~= s@);
    }
    Some(val as u8)
}

/// A digit-string prefix never evaluates above the whole string.
proof fn lemma_digits_prefix_le(d: Seq<char>, k: int)
    requires
        0 <= k <= d.len(),
    ensures
        crate::json::spec_digits_val(d.subrange(0, k)) <= crate::json::spec_digits_val(d),
    decreases d.len(),
{
    if d.len() == 0 || k == d.len() {
        assert(d.subrange(0, k) =~= d);
    } else {
        assert(d.drop_last().subrange(0, k) =~= d.subrange(0, k));
        lemma_digits_prefix_le(d.drop_last(), k);
    }
}

/// State for the log creation screen.
#[derive(Debug)]
pub struct LogCreateState {
    pub log_type: LogType,
    pub focus_area: FocusArea,
    pub form: Form,
    /// A cross-cutting failure (such as a storage-level duplicate
    /// rejection) not tied to one field.
    pub general_error: Option<String>,
    // Value buffers, persisted across type switches so that retyping is
    // never required when the operator changes log type mid-entry.
    pub callsign_buf: String,
    pub operator_buf: String,
    pub grid_square_buf: String,
    pub park_ref_buf: String,
    pub tx_count_buf: String,
    pub class_buf: String,
    pub section_buf: String,
}

impl LogCreateState {
    /// The form always matches the selected type's field set.
    pub open spec fn wf(self) -> bool {
        self.form.wf() && self.form.spec_fields().len() == self.log_type.spec_field_count()
    }

    /// The form value at `i`.
    pub open spec fn val(self, i: int) -> Seq<char> {
        self.form.spec_value(i)
    }

    /// The optional operator the form describes: an empty field means the
    /// operator is the station callsign.
    pub open spec fn spec_operator(self) -> Option<Seq<char>> {
        if self.val(1).len() == 0 {
            None
        } else {
            Some(self.val(1))
        }
    }

    /// Whether a general-log submission passes validation.
    pub open spec fn spec_general_ok(self) -> bool {
        &&& spec_valid_callsign(self.val(0))
        &&& (self.val(1).len() > 0 ==> spec_valid_callsign(self.val(1)))
        &&& spec_valid_grid(spec_normalize_grid(self.val(2)))
    }

    /// Whether a POTA submission passes validation.
    pub open spec fn spec_pota_ok(self) -> bool {
        &&& spec_valid_callsign(self.val(0))
        &&& (self.val(1).len() > 0 ==> spec_valid_callsign(self.val(1)))
        &&& (self.val(2).len() > 0 ==> spec_valid_park_ref(self.val(2)))
        &&& spec_valid_grid(spec_normalize_grid(self.val(3)))
    }

    /// Whether a contest submission passes validation, given the class
    /// parser's verdict.
    pub open spec fn spec_contest_ok(self, class_ok: bool) -> bool {
        &&& spec_valid_callsign(self.val(0))
        &&& (self.val(1).len() > 0 ==> spec_valid_callsign(self.val(1)))
        &&& spec_valid_grid(spec_normalize_grid(self.val(2)))
        &&& (spec_parse_u8(self.val(3)) matches Some(n) && n >= 1)
        &&& class_ok
        &&& self.val(5).len() > 0
    }

    /// Creates the screen in its initial state: the general type selected,
    /// the type selector focused, an empty form, and empty buffers.
    pub fn new() -> (r: LogCreateState)
        ensures
            r.wf(),
            r.log_type == LogType::General,
            r.focus_area == FocusArea::TypeSelector,
            r.general_error is None,
            forall|k: int| 0 <= k < 3 ==> r.val(k) == Seq::<char>::empty(),
            r.form.spec_focus() == 0,
            r.form.spec_fields()[0].required == true,
            r.form.spec_fields()[1].required == false,
            r.form.spec_fields()[2].required == true,
            r.callsign_buf@ == Seq::<char>::empty(),
            r.operator_buf@ == Seq::<char>::empty(),
            r.grid_square_buf@ == Seq::<char>::empty(),
            r.park_ref_buf@ == Seq::<char>::empty(),
            r.tx_count_buf@ == Seq::<char>::empty(),
            r.class_buf@ == Seq::<char>::empty(),
            r.section_buf@ == Seq::<char>::empty(),
    {
        let fields: Vec<FormField> = vec![
            FormField::new("Station Callsign", true),
            FormField::new("Operator", false),
            FormField::new("Grid Square (e.g. FN31)", true),
        ];
        LogCreateState {
            log_type: LogType::General,
            focus_area: FocusArea::TypeSelector,
            form: Form::new(fields),
            general_error: None,
            callsign_buf: String::new(),
            operator_buf: String::new(),
            grid_square_buf: String::new(),
            park_ref_buf: String::new(),
            tx_count_buf: String::new(),
            class_buf: String::new(),
            section_buf: String::new(),
        }
    }

    /// Returns a reference to the form for rendering.
    pub fn form(&self) -> (r: &Form)
        ensures
            *r == self.form,
    {
        &self.form
    }

    /// Sets a general error message not tied to any field, such as a
    /// duplicate-log rejection reported back by the application.
    pub fn set_error(&mut self, msg: String)
        ensures
            final(self).general_error == Some(msg),
            final(self).form == old(self).form,
            final(self).log_type == old(self).log_type,
            final(self).focus_area == old(self).focus_area,
    {
        self.general_error = Some(msg);
    }

    /// Returns the general error message, if any.
    pub fn general_error(&self) -> (r: &Option<String>)
        ensures
            *r == self.general_error,
    {
        &self.general_error
    }

    /// Resets the screen to its initial empty state.
    pub fn reset(&mut self)
        ensures
            final(self).wf(),
            final(self).log_type == LogType::General,
            final(self).focus_area == FocusArea::TypeSelector,
            final(self).general_error is None,
            forall|k: int| 0 <= k < 3 ==> final(self).val(k) == Seq::<char>::empty(),
            final(self).form.spec_fields()[0].required == true,
            final(self).form.spec_fields()[1].required == false,
            final(self).form.spec_fields()[2].required == true,
            final(self).callsign_buf@ == Seq::<char>::empty(),
            final(self).operator_buf@ == Seq::<char>::empty(),
            final(self).grid_square_buf@ == Seq::<char>::empty(),
            final(self).park_ref_buf@ == Seq::<char>::empty(),
            final(self).tx_count_buf@ == Seq::<char>::empty(),
            final(self).class_buf@ == Seq::<char>::empty(),
            final(self).section_buf@ == Seq::<char>::empty(),
    {
        *self = LogCreateState::new();
    }

    /// Copies the current form values into the buffers for the active
    /// type, so that a type switch preserves what was typed.
    pub fn sync_buffers_from_form(&mut self)
        requires
            old(self).wf(),
        ensures
            final(self).wf(),
            final(self).form == old(self).form,
            final(self).log_type == old(self).log_type,
            final(self).focus_area == old(self).focus_area,
            final(self).general_error == old(self).general_error,
            final(self).callsign_buf@ == old(self).val(0),
            final(self).operator_buf@ == old(self).val(1),
            old(self).log_type == LogType::General ==> final(self).grid_square_buf@ == old(self).val(2),
            old(self).log_type == LogType::Pota ==> final(self).park_ref_buf@ == old(self).val(2)
                && final(self).grid_square_buf@ == old(self).val(3),
            (old(self).log_type == LogType::FieldDay || old(self).log_type
                == LogType::WinterFieldDay) ==> final(self).grid_square_buf@ == old(self).val(2)
                && final(self).tx_count_buf@ == old(self).val(3) && final(self).class_buf@ == old(self).val(4) && final(self).section_buf@ == old(self).val(5),
    {
        self.callsign_buf = String::from_str(self.form.value(CALLSIGN));
        self.operator_buf = String::from_str(self.form.value(OPERATOR));
        match self.log_type {
            LogType::General => {
                self.grid_square_buf = String::from_str(self.form.value(GENERAL_GRID));
            },
            LogType::Pota => {
                self.park_ref_buf = String::from_str(self.form.value(POTA_PARK_REF));
                self.grid_square_buf = String::from_str(self.form.value(POTA_GRID));
            },
            LogType::FieldDay | LogType::WinterFieldDay => {
                self.grid_square_buf = String::from_str(self.form.value(CONTEST_GRID));
                self.tx_count_buf = String::from_str(self.form.value(CONTEST_TX_COUNT));
                self.class_buf = String::from_str(self.form.value(CONTEST_CLASS));
                self.section_buf = String::from_str(self.form.value(CONTEST_SECTION));
            },
        }
    }

    /// Builds a fresh form for the current type, pre-populated from the
    /// buffers.
    pub fn build_form_for_type(&self) -> (r: Form)
        ensures
            r.wf(),
            r.spec_focus() == 0,
            r.spec_fields().len() == self.log_type.spec_field_count(),
            r.spec_value(0) == self.callsign_buf@,
            r.spec_value(1) == self.operator_buf@,
            self.log_type == LogType::General ==> r.spec_value(2) == self.grid_square_buf@,
            self.log_type == LogType::Pota ==> r.spec_value(2) == self.park_ref_buf@
                && r.spec_value(3) == self.grid_square_buf@,
            (self.log_type == LogType::FieldDay || self.log_type == LogType::WinterFieldDay)
                ==> r.spec_value(2) == self.grid_square_buf@ && r.spec_value(3)
                == self.tx_count_buf@ && r.spec_value(4) == self.class_buf@ && r.spec_value(5)
                == self.section_buf@,
    {
        let fields: Vec<FormField> = match self.log_type {
            LogType::General => vec![
                FormField::new("Station Callsign", true),
                FormField::new("Operator", false),
                FormField::new("Grid Square (e.g. FN31)", true),
            ],
            LogType::Pota => vec![
                FormField::new("Station Callsign", true),
                FormField::new("Operator", false),
                FormField::new("Park Ref (e.g. K-0001)", false),
                FormField::new("Grid Square (e.g. FN31)", true),
            ],
            LogType::FieldDay => vec![
                FormField::new("Station Callsign", true),
                FormField::new("Operator", false),
                FormField::new("Grid Square (e.g. FN31)", true),
                FormField::new("Tx Count", true),
                FormField::new("FD Class (A-F)", true),
                FormField::new("Section", true),
            ],
            LogType::WinterFieldDay => vec![
                FormField::new("Station Callsign", true),
                FormField::new("Operator", false),
                FormField::new("Grid Square (e.g. FN31)", true),
                FormField::new("Tx Count", true),
                FormField::new("WFD Class (H/I/O/M)", true),
                FormField::new("Section", true),
            ],
        };
        let mut form = Form::new(fields);
        form.set_value(CALLSIGN, self.callsign_buf.as_str());
        form.set_value(OPERATOR, self.operator_buf.as_str());
        match self.log_type {
            LogType::General => {
                form.set_value(GENERAL_GRID, self.grid_square_buf.as_str());
            },
            LogType::Pota => {
                form.set_value(POTA_PARK_REF, self.park_ref_buf.as_str());
                form.set_value(POTA_GRID, self.grid_square_buf.as_str());
            },
            LogType::FieldDay | LogType::WinterFieldDay => {
                form.set_value(CONTEST_GRID, self.grid_square_buf.as_str());
                form.set_value(CONTEST_TX_COUNT, self.tx_count_buf.as_str());
                form.set_value(CONTEST_CLASS, self.class_buf.as_str());
                form.set_value(CONTEST_SECTION, self.section_buf.as_str());
            },
        }
        form
    }

    /// Validates the general-log form and builds the log.
    fn submit_general(&mut self) -> (r: Action)
        requires
            old(self).wf(),
            forall|k: int|
                0 <= k < old(self).form.spec_fields().len() ==> (#[trigger] old(
                    self,
                ).form.spec_fields()[k]).error is None,
            old(self).log_type == LogType::General,
        ensures
            final(self).wf(),
            final(self).log_type == old(self).log_type,
            old(self).spec_general_ok() ==> (r matches Action::CreateLog(lg) && lg matches
                Log::General(l) && {
                &&& l.header.station_callsign@ == old(self).val(0)
                &&& l.header@.operator == old(self).spec_operator()
                &&& l.header.grid_square@ == spec_normalize_grid(old(self).val(2))
                &&& l.header.qsos@.len() == 0
                &&& l.header.wf()
            }),
            !old(self).spec_general_ok() ==> r == Action::Noop,
    {
        let callsign = String::from_str(self.form.value(CALLSIGN));
        let operator_str = String::from_str(self.form.value(OPERATOR));
        let operator: Option<String> = if operator_str.as_str().is_empty() {
            None
        } else {
            Some(operator_str)
        };
        let grid_square = normalize_grid_square(self.form.value(GENERAL_GRID));

        if let Err(e) = validate_callsign(callsign.as_str()) {
            self.form.set_error(CALLSIGN, e.message());
        }
        if let Some(op) = &operator {
            if let Err(e) = validate_callsign(op.as_str()) {
                self.form.set_error(OPERATOR, e.message());
            }
        }
        if let Err(e) = validate_grid_square(grid_square.as_str()) {
            self.form.set_error(GENERAL_GRID, e.message());
        }
        if self.form.has_errors() {
            return Action::Noop;
        }
        let now = Timestamp::now();
        match GeneralLog::new(callsign, operator, grid_square, now) {
            Ok(log) => Action::CreateLog(Log::General(log)),
            Err(e) => {
                self.form.set_error(CALLSIGN, e.message());
                Action::Noop
            },
        }
    }

    /// Validates the POTA form and builds the log.
    fn submit_pota(&mut self) -> (r: Action)
        requires
            old(self).wf(),
            forall|k: int|
                0 <= k < old(self).form.spec_fields().len() ==> (#[trigger] old(
                    self,
                ).form.spec_fields()[k]).error is None,
            old(self).log_type == LogType::Pota,
        ensures
            final(self).wf(),
            final(self).log_type == old(self).log_type,
            old(self).spec_pota_ok() ==> (r matches Action::CreateLog(lg) && lg matches Log::Pota(
                l,
            ) && {
                &&& l.header.station_callsign@ == old(self).val(0)
                &&& l.header@.operator == old(self).spec_operator()
                &&& l.park_ref.deep_view() == (if old(self).val(2).len() == 0 {
                    None::<Seq<char>>
                } else {
                    Some(old(self).val(2))
                })
                &&& l.header.grid_square@ == spec_normalize_grid(old(self).val(3))
                &&& l.header.qsos@.len() == 0
                &&& l.header.wf()
                &&& l.wf()
            }),
            !old(self).spec_pota_ok() ==> r == Action::Noop,
    {
        let callsign = String::from_str(self.form.value(CALLSIGN));
        let operator_str = String::from_str(self.form.value(OPERATOR));
        let operator: Option<String> = if operator_str.as_str().is_empty() {
            None
        } else {
            Some(operator_str)
        };
        let park_ref_str = String::from_str(self.form.value(POTA_PARK_REF));
        let grid_square = normalize_grid_square(self.form.value(POTA_GRID));

        if let Err(e) = validate_callsign(callsign.as_str()) {
            self.form.set_error(CALLSIGN, e.message());
        }
        if let Some(op) = &operator {
            if let Err(e) = validate_callsign(op.as_str()) {
                self.form.set_error(OPERATOR, e.message());
            }
        }
        if !park_ref_str.as_str().is_empty() {
            if let Err(e) = validate_park_ref(park_ref_str.as_str()) {
                self.form.set_error(POTA_PARK_REF, e.message());
            }
        }
        if let Err(e) = validate_grid_square(grid_square.as_str()) {
            self.form.set_error(POTA_GRID, e.message());
        }
        if self.form.has_errors() {
            return Action::Noop;
        }
        let park_ref: Option<String> = if park_ref_str.as_str().is_empty() {
            None
        } else {
            Some(park_ref_str)
        };
        let now = Timestamp::now();
        match PotaLog::new(callsign, operator, park_ref, grid_square, now) {
            Ok(log) => Action::CreateLog(Log::Pota(log)),
            Err(e) => {
                self.form.set_error(CALLSIGN, e.message());
                Action::Noop
            },
        }
    }

    /// Validates the Field Day form and builds the log. The power category
    /// defaults to low power, pending a dedicated selector.
    fn submit_field_day(&mut self) -> (r: Action)
        requires
            old(self).wf(),
            forall|k: int|
                0 <= k < old(self).form.spec_fields().len() ==> (#[trigger] old(
                    self,
                ).form.spec_fields()[k]).error is None,
            old(self).log_type == LogType::FieldDay,
        ensures
            final(self).wf(),
            final(self).log_type == old(self).log_type,
            old(self).spec_contest_ok(spec_parse_fd_class(old(self).val(4)) is Some) ==> (r
                matches Action::CreateLog(lg) && lg matches Log::FieldDay(l) && {
                &&& l.header.station_callsign@ == old(self).val(0)
                &&& l.header@.operator == old(self).spec_operator()
                &&& l.header.grid_square@ == spec_normalize_grid(old(self).val(2))
                &&& Some(l.tx_count) == spec_parse_u8(old(self).val(3))
                &&& Some(l.class) == spec_parse_fd_class(old(self).val(4))
                &&& l.section@ == old(self).val(5)
                &&& l.power == FdPowerCategory::Low
                &&& l.header.qsos@.len() == 0
                &&& l.header.wf()
                &&& l.wf()
            }),
            !old(self).spec_contest_ok(spec_parse_fd_class(old(self).val(4)) is Some) ==> r
                == Action::Noop,
    {
        let callsign = String::from_str(self.form.value(CALLSIGN));
        let operator_str = String::from_str(self.form.value(OPERATOR));
        let operator: Option<String> = if operator_str.as_str().is_empty() {
            None
        } else {
            Some(operator_str)
        };
        let grid_square = normalize_grid_square(self.form.value(CONTEST_GRID));
        let section = String::from_str(self.form.value(CONTEST_SECTION));

        if let Err(e) = validate_callsign(callsign.as_str()) {
            self.form.set_error(CALLSIGN, e.message());
        }
        if let Some(op) = &operator {
            if let Err(e) = validate_callsign(op.as_str()) {
                self.form.set_error(OPERATOR, e.message());
            }
        }
        if let Err(e) = validate_grid_square(grid_square.as_str()) {
            self.form.set_error(CONTEST_GRID, e.message());
        }
        let tx_count: u8 = match parse_u8(self.form.value(CONTEST_TX_COUNT)) {
            Some(n) => {
                if n < 1 {
                    self.form.set_error(
                        CONTEST_TX_COUNT,
                        String::from_str("transmitter count must be at least 1"),
                    );
                    0
                } else {
                    n
                }
            },
            None => {
                self.form.set_error(
                    CONTEST_TX_COUNT,
                    String::from_str("must be a number 1-255"),
                );
                0
            },
        };
        let class_result = parse_fd_class(self.form.value(CONTEST_CLASS));
        if class_result.is_err() {
            self.form.set_error(CONTEST_CLASS, String::from_str("class must be A-F"));
        }
        if let Err(e) = validate_section(section.as_str()) {
            self.form.set_error(CONTEST_SECTION, e.message());
        }
        if self.form.has_errors() {
            return Action::Noop;
        }
        let class = match class_result {
            Ok(c) => c,
            Err(_) => {
                return Action::Noop;
            },
        };
        let now = Timestamp::now();
        match FieldDayLog::new(
            callsign,
            operator,
            tx_count,
            class,
            section,
            FdPowerCategory::Low,
            grid_square,
            now,
        ) {
            Ok(log) => Action::CreateLog(Log::FieldDay(log)),
            Err(e) => {
                self.form.set_error(CALLSIGN, e.message());
                Action::Noop
            },
        }
    }

    /// Validates the Winter Field Day form and builds the log.
    fn submit_wfd(&mut self) -> (r: Action)
        requires
            old(self).wf(),
            forall|k: int|
                0 <= k < old(self).form.spec_fields().len() ==> (#[trigger] old(
                    self,
                ).form.spec_fields()[k]).error is None,
            old(self).log_type == LogType::WinterFieldDay,
        ensures
            final(self).wf(),
            final(self).log_type == old(self).log_type,
            old(self).spec_contest_ok(spec_parse_wfd_class(old(self).val(4)) is Some) ==> (r
                matches Action::CreateLog(lg) && lg matches Log::WinterFieldDay(l) && {
                &&& l.header.station_callsign@ == old(self).val(0)
                &&& l.header@.operator == old(self).spec_operator()
                &&& l.header.grid_square@ == spec_normalize_grid(old(self).val(2))
                &&& Some(l.tx_count) == spec_parse_u8(old(self).val(3))
                &&& Some(l.class) == spec_parse_wfd_class(old(self).val(4))
                &&& l.section@ == old(self).val(5)
                &&& l.header.qsos@.len() == 0
                &&& l.header.wf()
                &&& l.wf()
            }),
            !old(self).spec_contest_ok(spec_parse_wfd_class(old(self).val(4)) is Some) ==> r
                == Action::Noop,
    {
        let callsign = String::from_str(self.form.value(CALLSIGN));
        let operator_str = String::from_str(self.form.value(OPERATOR));
        let operator: Option<String> = if operator_str.as_str().is_empty() {
            None
        } else {
            Some(operator_str)
        };
        let grid_square = normalize_grid_square(self.form.value(CONTEST_GRID));
        let section = String::from_str(self.form.value(CONTEST_SECTION));

        if let Err(e) = validate_callsign(callsign.as_str()) {
            self.form.set_error(CALLSIGN, e.message());
        }
        if let Some(op) = &operator {
            if let Err(e) = validate_callsign(op.as_str()) {
                self.form.set_error(OPERATOR, e.message());
            }
        }
        if let Err(e) = validate_grid_square(grid_square.as_str()) {
            self.form.set_error(CONTEST_GRID, e.message());
        }
        let tx_count: u8 = match parse_u8(self.form.value(CONTEST_TX_COUNT)) {
            Some(n) => {
                if n < 1 {
                    self.form.set_error(
                        CONTEST_TX_COUNT,
                        String::from_str("transmitter count must be at least 1"),
                    );
                    0
                } else {
                    n
                }
            },
            None => {
                self.form.set_error(
                    CONTEST_TX_COUNT,
                    String::from_str("must be a number 1-255"),
                );
                0
            },
        };
        let class_result = parse_wfd_class(self.form.value(CONTEST_CLASS));
        if class_result.is_err() {
            self.form.set_error(CONTEST_CLASS, String::from_str("class must be H, I, O, or M"));
        }
        if let Err(e) = validate_section(section.as_str()) {
            self.form.set_error(CONTEST_SECTION, e.message());
        }
        if self.form.has_errors() {
            return Action::Noop;
        }
        let class = match class_result {
            Ok(c) => c,
            Err(_) => {
                return Action::Noop;
            },
        };
        let now = Timestamp::now();
        match WfdLog::new(callsign, operator, tx_count, class, section, grid_square, now) {
            Ok(log) => Action::CreateLog(Log::WinterFieldDay(log)),
            Err(e) => {
                self.form.set_error(CALLSIGN, e.message());
                Action::Noop
            },
        }
    }

    /// Clears all prior errors and runs the type-specific submission.
    fn submit(&mut self) -> (r: Action)
        requires
            old(self).wf(),
        ensures
            final(self).wf(),
            final(self).log_type == old(self).log_type,
            old(self).log_type == LogType::General && old(self).spec_general_ok() ==> (r matches
                Action::CreateLog(lg) && lg matches Log::General(l) && {
                &&& l.header.station_callsign@ == old(self).val(0)
                &&& l.header@.operator == old(self).spec_operator()
                &&& l.header.grid_square@ == spec_normalize_grid(old(self).val(2))
                &&& l.header.qsos@.len() == 0
                &&& l.header.wf()
            }),
            old(self).log_type == LogType::Pota && old(self).spec_pota_ok() ==> (r matches
                Action::CreateLog(lg) && lg matches Log::Pota(l) && {
                &&& l.header.station_callsign@ == old(self).val(0)
                &&& l.header@.operator == old(self).spec_operator()
                &&& l.park_ref.deep_view() == (if old(self).val(2).len() == 0 {
                    None::<Seq<char>>
                } else {
                    Some(old(self).val(2))
                })
                &&& l.header.grid_square@ == spec_normalize_grid(old(self).val(3))
                &&& l.header.qsos@.len() == 0
                &&& l.header.wf()
                &&& l.wf()
            }),
            old(self).log_type == LogType::FieldDay && old(self).spec_contest_ok(
                spec_parse_fd_class(old(self).val(4)) is Some,
            ) ==> (r matches Action::CreateLog(lg) && lg matches Log::FieldDay(l) && {
                &&& l.header.station_callsign@ == old(self).val(0)
                &&& l.header@.operator == old(self).spec_operator()
                &&& l.header.grid_square@ == spec_normalize_grid(old(self).val(2))
                &&& Some(l.tx_count) == spec_parse_u8(old(self).val(3))
                &&& Some(l.class) == spec_parse_fd_class(old(self).val(4))
                &&& l.section@ == old(self).val(5)
                &&& l.power == FdPowerCategory::Low
                &&& l.header.qsos@.len() == 0
                &&& l.header.wf()
                &&& l.wf()
            }),
            old(self).log_type == LogType::WinterFieldDay && old(self).spec_contest_ok(
                spec_parse_wfd_class(old(self).val(4)) is Some,
            ) ==> (r matches Action::CreateLog(lg) && lg matches Log::WinterFieldDay(l) && {
                &&& l.header.station_callsign@ == old(self).val(0)
                &&& l.header@.operator == old(self).spec_operator()
                &&& l.header.grid_square@ == spec_normalize_grid(old(self).val(2))
                &&& Some(l.tx_count) == spec_parse_u8(old(self).val(3))
                &&& Some(l.class) == spec_parse_wfd_class(old(self).val(4))
                &&& l.section@ == old(self).val(5)
                &&& l.header.qsos@.len() == 0
                &&& l.header.wf()
                &&& l.wf()
            }),
    {
        self.form.clear_errors();
        self.general_error = None;
        match self.log_type {
            LogType::General => self.submit_general(),
            LogType::Pota => self.submit_pota(),
            LogType::FieldDay => self.submit_field_day(),
            LogType::WinterFieldDay => self.submit_wfd(),
        }
    }

    /// Handles a key. Tab and Shift-Tab cycle between the type selector
    /// and the field list, moving back to the selector past either end of
    /// the fields; Left and Right change the log type only while the
    /// selector has focus; printable characters go into the focused field
    /// (upper-cased for callsign, operator, park, class, and section);
    /// Escape cancels back to log selection; Enter submits.
    pub fn handle_key(&mut self, key: Key) -> (r: Action)
        requires
            old(self).wf(),
        ensures
            final(self).wf(),
            key == Key::Esc ==> r == Action::Navigate(Screen::LogSelect),
            key == Key::Left && old(self).focus_area == FocusArea::TypeSelector ==> r
                == Action::Noop && final(self).log_type == old(self).log_type.spec_prev()
                && final(self).focus_area == FocusArea::TypeSelector,
            key == Key::Right && old(self).focus_area == FocusArea::TypeSelector ==> r
                == Action::Noop && final(self).log_type == old(self).log_type.spec_next()
                && final(self).focus_area == FocusArea::TypeSelector,
            (key == Key::Left || key == Key::Right) && old(self).focus_area == FocusArea::Fields
                ==> r == Action::Noop && final(self).log_type == old(self).log_type,
            key == Key::Tab ==> r == Action::Noop && (match old(self).focus_area {
                FocusArea::TypeSelector => final(self).focus_area == FocusArea::Fields && final(self).form.spec_focus() == 0,
                FocusArea::Fields => if old(self).form.spec_focus() == old(self).form.spec_fields().len() - 1 {
                    final(self).focus_area == FocusArea::TypeSelector
                } else {
                    final(self).focus_area == FocusArea::Fields && final(self).form.spec_focus()
                        == old(self).form.spec_focus() + 1
                },
            }),
            key == Key::BackTab ==> r == Action::Noop && (match old(self).focus_area {
                FocusArea::TypeSelector => final(self).focus_area == FocusArea::Fields && final(self).form.spec_focus() == old(self).form.spec_fields().len() - 1,
                FocusArea::Fields => if old(self).form.spec_focus() == 0 {
                    final(self).focus_area == FocusArea::TypeSelector
                } else {
                    final(self).focus_area == FocusArea::Fields && final(self).form.spec_focus()
                        == old(self).form.spec_focus() - 1
                },
            }),
            key matches Key::Char(c) ==> r == Action::Noop && (old(self).focus_area
                == FocusArea::Fields ==> ({
                let i = old(self).form.spec_focus();
                let upper = i == 0 || i == 1 || (old(self).log_type == LogType::Pota && i == 2) || (
                (old(self).log_type == LogType::FieldDay || old(self).log_type
                    == LogType::WinterFieldDay) && (i == 4 || i == 5));
                let cc = if upper {
                    spec_upper_char(c)
                } else {
                    c
                };
                final(self).form.spec_fields()[i].value@ == old(self).form.spec_fields()[
                    i
                ].value@.push(cc)
            })) && (old(self).focus_area == FocusArea::TypeSelector ==> final(self).form == old(
                self,
            ).form),
            key == Key::Enter && old(self).log_type == LogType::General && old(self).spec_general_ok() ==> (r matches Action::CreateLog(lg) && lg matches Log::General(
                l,
            ) && {
                &&& l.header.station_callsign@ == old(self).val(0)
                &&& l.header@.operator == old(self).spec_operator()
                &&& l.header.grid_square@ == spec_normalize_grid(old(self).val(2))
                &&& l.header.wf()
            }),
            key == Key::Enter && old(self).log_type == LogType::Pota && old(self).spec_pota_ok()
                ==> (r matches Action::CreateLog(lg) && lg matches Log::Pota(l) && {
                &&& l.header.station_callsign@ == old(self).val(0)
                &&& l.header@.operator == old(self).spec_operator()
                &&& l.park_ref.deep_view() == (if old(self).val(2).len() == 0 {
                    None::<Seq<char>>
                } else {
                    Some(old(self).val(2))
                })
                &&& l.header.grid_square@ == spec_normalize_grid(old(self).val(3))
                &&& l.header.wf()
                &&& l.wf()
            }),
            key == Key::Enter && old(self).log_type == LogType::FieldDay && old(self).spec_contest_ok(spec_parse_fd_class(old(self).val(4)) is Some) ==> (r matches
                Action::CreateLog(lg) && lg matches Log::FieldDay(l) && {
                &&& l.header.station_callsign@ == old(self).val(0)
                &&& Some(l.tx_count) == spec_parse_u8(old(self).val(3))
                &&& Some(l.class) == spec_parse_fd_class(old(self).val(4))
                &&& l.section@ == old(self).val(5)
                &&& l.power == FdPowerCategory::Low
                &&& l.header.wf()
                &&& l.wf()
            }),
            key == Key::Enter && old(self).log_type == LogType::WinterFieldDay && old(self).spec_contest_ok(spec_parse_wfd_class(old(self).val(4)) is Some) ==> (r matches
                Action::CreateLog(lg) && lg matches Log::WinterFieldDay(l) && {
                &&& l.header.station_callsign@ == old(self).val(0)
                &&& Some(l.tx_count) == spec_parse_u8(old(self).val(3))
                &&& Some(l.class) == spec_parse_wfd_class(old(self).val(4))
                &&& l.section@ == old(self).val(5)
                &&& l.header.wf()
                &&& l.wf()
            }),
    {
        match key {
            Key::Tab => {
                match self.focus_area {
                    FocusArea::TypeSelector => {
                        self.focus_area = FocusArea::Fields;
                        self.form.set_focus(0);
                    },
                    FocusArea::Fields => {
                        if self.form.focus() == self.form.fields().len() - 1 {
                            self.focus_area = FocusArea::TypeSelector;
                        } else {
                            self.form.focus_next();
                            proof {
                                vstd::arithmetic::div_mod::lemma_small_mod(
                                    (old(self).form.spec_focus() + 1) as nat,
                                    old(self).form.spec_fields().len() as nat,
                                );
                            }
                        }
                    },
                }
                Action::Noop
            },
            Key::BackTab => {
                match self.focus_area {
                    FocusArea::TypeSelector => {
                        self.focus_area = FocusArea::Fields;
                        let last = self.form.fields().len() - 1;
                        self.form.set_focus(last);
                    },
                    FocusArea::Fields => {
                        if self.form.focus() == 0 {
                            self.focus_area = FocusArea::TypeSelector;
                        } else {
                            self.form.focus_prev();
                            proof {
                                vstd::arithmetic::div_mod::lemma_small_mod(
                                    (old(self).form.spec_focus() - 1) as nat,
                                    old(self).form.spec_fields().len() as nat,
                                );
                                vstd::arithmetic::div_mod::lemma_mod_add_multiples_vanish(
                                    old(self).form.spec_focus() - 1,
                                    old(self).form.spec_fields().len() as int,
                                );
                            }
                        }
                    },
                }
                Action::Noop
            },
            Key::Left => {
                if self.focus_area == FocusArea::TypeSelector {
                    self.sync_buffers_from_form();
                    self.log_type = self.log_type.prev();
                    let form = self.build_form_for_type();
                    self.form = form;
                }
                Action::Noop
            },
            Key::Right => {
                if self.focus_area == FocusArea::TypeSelector {
                    self.sync_buffers_from_form();
                    self.log_type = self.log_type.next();
                    let form = self.build_form_for_type();
                    self.form = form;
                }
                Action::Noop
            },
            Key::Char(ch) => {
                if self.focus_area == FocusArea::Fields {
                    let focus = self.form.focus();
                    let is_contest = self.log_type == LogType::FieldDay || self.log_type
                        == LogType::WinterFieldDay;
                    let should_upper = focus == CALLSIGN || focus == OPERATOR || (self.log_type
                        == LogType::Pota && focus == POTA_PARK_REF) || (is_contest && (focus
                        == CONTEST_CLASS || focus == CONTEST_SECTION));
                    let c = if should_upper {
                        upper_char(ch)
                    } else {
                        ch
                    };
                    self.form.insert_char(c);
                }
                Action::Noop
            },
            Key::Backspace => {
                if self.focus_area == FocusArea::Fields {
                    self.form.delete_char();
                }
                Action::Noop
            },
            Key::Esc => Action::Navigate(Screen::LogSelect),
            Key::Enter => self.submit(),
            _ => Action::Noop,
        }
    }
}

impl Default for LogCreateState {
    /// The initial creation screen.
    fn default() -> (r: Self)
        ensures
            r.wf(),
            r.log_type == LogType::General,
            r.focus_area == FocusArea::TypeSelector,
    {
        LogCreateState::new()
    }
}

} // verus!
