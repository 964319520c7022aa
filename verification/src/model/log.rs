//! Log sessions: the shared header, the four session variants, duplicate
//! detection, and the POTA activation arithmetic.

use vstd::prelude::*;

use crate::model::qso::{Qso, QsoView};
use crate::model::validation::{
    ValidationError, spec_valid_callsign, spec_valid_grid, spec_valid_park_ref, validate_callsign,
    validate_grid_square, validate_park_ref, validate_section, validate_tx_count,
};
use crate::text::{spec_dec, spec_lower, lower_string, u64_to_dec_string};
use crate::time::{Date, Timestamp};

verus! {

/// Minimum unique QSOs required for a valid POTA activation (per UTC day).
pub const POTA_ACTIVATION_THRESHOLD: usize = 10;

// --- Contest classes ---

/// ARRL Field Day operating class (sent as part of every QSO exchange).
#[derive(Debug, Clone, Copy, PartialEq, Eq, Hash, Structural)]
pub enum FdClass {
    /// Club or non-club group, 3+ persons, portable.
    A,
    /// 1–2 person portable.
    B,
    /// Mobile (vehicle, maritime, aeronautical).
    C,
    /// Home station on commercial power.
    D,
    /// Home station on emergency/alternative power only.
    E,
    /// Emergency Operations Center.
    F,
}

/// Field Day power category, which determines the QSO point multiplier.
#[derive(Debug, Clone, Copy, PartialEq, Eq, Hash, Structural)]
pub enum FdPowerCategory {
    /// ≤5 W non-commercial power (×5 multiplier).
    Qrp,
    /// ≤100 W any source (×2 multiplier).
    Low,
    /// >100 W (×1 multiplier).
    High,
}

/// Winter Field Day operating class.
#[derive(Debug, Clone, Copy, PartialEq, Eq, Hash, Structural)]
pub enum WfdClass {
    /// Home — inside a permanent livable residence.
    H,
    /// Indoor — weather-protected building on permanent foundation.
    I,
    /// Outdoor — partly or fully exposed shelter.
    O,
    /// Mobile — RV, car, van, boat, or similar.
    M,
}

impl FdClass {
    /// The class letter.
    pub open spec fn spec_letter(self) -> Seq<char> {
        match self {
            FdClass::A => "A"@,
            FdClass::B => "B"@,
            FdClass::C => "C"@,
            FdClass::D => "D"@,
            FdClass::E => "E"@,
            FdClass::F => "F"@,
        }
    }

    /// Returns the class letter.
    pub fn letter(&self) -> (r: &'static str)
        ensures
            r@ == self.spec_letter(),
    {
        match self {
            FdClass::A => "A",
            FdClass::B => "B",
            FdClass::C => "C",
            FdClass::D => "D",
            FdClass::E => "E",
            FdClass::F => "F",
        }
    }
}

impl WfdClass {
    /// The class letter.
    pub open spec fn spec_letter(self) -> Seq<char> {
        match self {
            WfdClass::H => "H"@,
            WfdClass::I => "I"@,
            WfdClass::O => "O"@,
            WfdClass::M => "M"@,
        }
    }

    /// Returns the class letter.
    pub fn letter(&self) -> (r: &'static str)
        ensures
            r@ == self.spec_letter(),
    {
        match self {
            WfdClass::H => "H",
            WfdClass::I => "I",
            WfdClass::O => "O",
            WfdClass::M => "M",
        }
    }
}

/// The Field Day class a single letter denotes, case-insensitively.
pub open spec fn spec_parse_fd_class(s: Seq<char>) -> Option<FdClass> {
    if s.len() == 1 {
        match crate::text::spec_upper_char(s[0]) {
            'A' => Some(FdClass::A),
            'B' => Some(FdClass::B),
            'C' => Some(FdClass::C),
            'D' => Some(FdClass::D),
            'E' => Some(FdClass::E),
            'F' => Some(FdClass::F),
            _ => None,
        }
    } else {
        None
    }
}

/// Parses a Field Day class from a string.
///
/// Accepts `"A"`–`"F"` (case-insensitive). Returns an error carrying the
/// original text for any other value.
pub fn parse_fd_class(s: &str) -> (r: Result<FdClass, ValidationError>)
    ensures
        r is Ok <==> spec_parse_fd_class(s@) is Some,
        r matches Ok(c) ==> spec_parse_fd_class(s@) == Some(c),
        r is Err ==> (r matches Err(e) && e matches ValidationError::InvalidFdClass(t) && t@
            == s@),
{
    let v = crate::text::str_to_chars(s);
    if v.len() == 1 {
        let c = crate::text::upper_char(v[0]);
        match c {
            'A' => Ok(FdClass::A),
            'B' => Ok(FdClass::B),
            'C' => Ok(FdClass::C),
            'D' => Ok(FdClass::D),
            'E' => Ok(FdClass::E),
            'F' => Ok(FdClass::F),
            _ => Err(ValidationError::InvalidFdClass(crate::text::chars_to_string(&v))),
        }
    } else {
        Err(ValidationError::InvalidFdClass(crate::text::chars_to_string(&v)))
    }
}

/// The Winter Field Day class a single letter denotes, case-insensitively.
pub open spec fn spec_parse_wfd_class(s: Seq<char>) -> Option<WfdClass> {
    if s.len() == 1 {
        match crate::text::spec_upper_char(s[0]) {
            'H' => Some(WfdClass::H),
            'I' => Some(WfdClass::I),
            'O' => Some(WfdClass::O),
            'M' => Some(WfdClass::M),
            _ => None,
        }
    } else {
        None
    }
}

/// Parses a Winter Field Day class from a string.
///
/// Accepts `"H"`, `"I"`, `"O"`, `"M"` (case-insensitive). Returns an error
/// carrying the original text for any other value.
pub fn parse_wfd_class(s: &str) -> (r: Result<WfdClass, ValidationError>)
    ensures
        r is Ok <==> spec_parse_wfd_class(s@) is Some,
        r matches Ok(c) ==> spec_parse_wfd_class(s@) == Some(c),
        r is Err ==> (r matches Err(e) && e matches ValidationError::InvalidWfdClass(t) && t@
            == s@),
{
    let v = crate::text::str_to_chars(s);
    if v.len() == 1 {
        let c = crate::text::upper_char(v[0]);
        match c {
            'H' => Ok(WfdClass::H),
            'I' => Ok(WfdClass::I),
            'O' => Ok(WfdClass::O),
            'M' => Ok(WfdClass::M),
            _ => Err(ValidationError::InvalidWfdClass(crate::text::chars_to_string(&v))),
        }
    } else {
        Err(ValidationError::InvalidWfdClass(crate::text::chars_to_string(&v)))
    }
}

// --- Duplicate keys and unique counting ---

/// Two contacts are duplicates when the lower-cased callsign, the band, and
/// the mode all agree.
pub open spec fn spec_key_eq(a: QsoView, b: QsoView) -> bool {
    spec_lower(a.their_call) == spec_lower(b.their_call) && a.band == b.band && a.mode == b.mode
}

/// Whether `a` matches `b`'s duplicate key, within the optional date scope.
pub open spec fn spec_dup_match(a: QsoView, b: QsoView, on: Option<Date>) -> bool {
    spec_key_eq(a, b) && (on matches Some(d) ==> a.timestamp.spec_date() == d)
}

/// The number of distinct duplicate keys among the contacts logged on the
/// given UTC date: a contact counts only if no earlier contact on that date
/// shares its key.
pub open spec fn spec_unique_count(qsos: Seq<QsoView>, date: Date) -> nat
    decreases qsos.len(),
{
    if qsos.len() == 0 {
        0
    } else {
        let rest = qsos.drop_last();
        let q = qsos.last();
        spec_unique_count(rest, date) + if q.timestamp.spec_date() == date && !(exists|i: int|
            0 <= i < rest.len() && (#[trigger] rest[i]).timestamp.spec_date() == date && spec_key_eq(
                rest[i],
                q,
            )) {
            1nat
        } else {
            0nat
        }
    }
}

/// Compares the duplicate keys of two contacts.
fn key_eq(a: &Qso, b: &Qso) -> (r: bool)
    ensures
        r == spec_key_eq(a@, b@),
{
    let la = lower_string(a.their_call.as_str());
    let lb = lower_string(b.their_call.as_str());
    la.eq(&lb) && a.band == b.band && a.mode == b.mode
}

// --- The shared header ---

/// Fields shared by every log type.
#[derive(Debug, PartialEq)]
pub struct LogHeader {
    pub station_callsign: String,
    pub operator: Option<String>,
    pub grid_square: String,
    pub qsos: Vec<Qso>,
    pub created_at: Timestamp,
    pub log_id: String,
}

/// The character-level contents of a log header.
#[verifier::ext_equal]
pub struct LogHeaderView {
    pub station_callsign: Seq<char>,
    pub operator: Option<Seq<char>>,
    pub grid_square: Seq<char>,
    pub qsos: Seq<QsoView>,
    pub created_at: Timestamp,
    pub log_id: Seq<char>,
}

impl View for LogHeader {
    type V = LogHeaderView;

    open spec fn view(&self) -> LogHeaderView {
        LogHeaderView {
            station_callsign: self.station_callsign@,
            operator: match self.operator {
                Some(ref o) => Some(o@),
                None => None,
            },
            grid_square: self.grid_square@,
            qsos: Seq::new(self.qsos@.len(), |i: int| self.qsos@[i]@),
            created_at: self.created_at,
            log_id: self.log_id@,
        }
    }
}

impl LogHeader {
    /// The header invariant: validated callsigns and grid, a well-formed
    /// creation instant, and well-formed contacts.
    pub open spec fn wf(self) -> bool {
        &&& spec_valid_callsign(self.station_callsign@)
        &&& (self.operator matches Some(o) ==> spec_valid_callsign(o@))
        &&& spec_valid_grid(self.grid_square@)
        &&& self.created_at.wf()
        &&& forall|i: int| 0 <= i < self.qsos@.len() ==> (#[trigger] self.qsos@[i]).wf()
    }

    /// Counts unique contacts on the given date (UTC).
    ///
    /// Uniqueness is determined by (lower-cased callsign, band, mode):
    /// duplicate contacts with the same station on the same band and mode do
    /// not count separately.
    pub fn qso_count_on_date(&self, date: Date) -> (r: usize)
        ensures
            r == spec_unique_count(self@.qsos, date),
    {
        let ghost qv = self@.qsos;
        let mut count: usize = 0;
        let mut i: usize = 0;
        proof {
            assert(qv.subrange(0, 0) =~= Seq::<QsoView>::empty());
        }
        while i < self.qsos.len()
            invariant
                i <= self.qsos@.len(),
                qv == self@.qsos,
                qv.len() == self.qsos@.len(),
                forall|k: int| 0 <= k < qv.len() ==> qv[k] == #[trigger] self.qsos@[k]@,
                count == spec_unique_count(qv.subrange(0, i as int), date),
                count <= i,
            decreases self.qsos@.len() - i,
        {
            let q = &self.qsos[i];
            let mut fresh = q.timestamp.date() == date;
            if fresh {
                let mut j: usize = 0;
                while j < i
                    invariant
                        j <= i,
                        i < self.qsos@.len(),
                        qv == self@.qsos,
                        qv.len() == self.qsos@.len(),
                        forall|k: int| 0 <= k < qv.len() ==> qv[k] == #[trigger] self.qsos@[k]@,
                        q@ == qv[i as int],
                        fresh == !(exists|k: int|
                            0 <= k < j && (#[trigger] qv[k]).timestamp.spec_date() == date
                                && spec_key_eq(qv[k], qv[i as int])),
                    decreases i - j,
                {
                    let prev = &self.qsos[j];
                    if prev.timestamp.date() == date && key_eq(prev, q) {
                        fresh = false;
                    }
                    j = j + 1;
                }
            }
            proof {
                let pre = qv.subrange(0, i as int);
                let cur = qv.subrange(0, i as int + 1);
                assert(cur.drop_last() =~= pre);
                assert(cur.last() == qv[i as int]);
                assert forall|k: int| 0 <= k < pre.len() implies pre[k] == qv[k] by {}
            }
            if fresh {
                count = count + 1;
            }
            i = i + 1;
        }
        proof {
            assert(qv.subrange(0, qv.len() as int) =~= qv);
        }
        count
    }

    /// Counts unique contacts today (UTC).
    pub fn qso_count_today(&self) -> (r: usize)
        ensures
            exists|d: Date| d.wf() && r == spec_unique_count(self@.qsos, d),
    {
        let now = Timestamp::now();
        let r = self.qso_count_on_date(now.date());
        proof {
            assert(now.spec_date().wf() && r == spec_unique_count(self@.qsos, now.spec_date()));
        }
        r
    }

    /// Returns the indices of the contacts that match the given contact's
    /// duplicate key, optionally scoped to one date, in log order.
    ///
    /// When `on` is `Some(date)`, only contacts logged on that exact date are
    /// considered. When `on` is `None`, the whole log is searched.
    pub fn find_duplicates_on(&self, qso: &Qso, on: Option<Date>) -> (r: Vec<usize>)
        ensures
            forall|j: int| #![trigger r@[j]]
                0 <= j < r@.len() ==> 0 <= r@[j] < self@.qsos.len() && spec_dup_match(
                    self@.qsos[r@[j] as int],
                    qso@,
                    on,
                ),
            forall|i: int|
                0 <= i < self@.qsos.len() && spec_dup_match(#[trigger] self@.qsos[i], qso@, on)
                    ==> r@.contains(i as usize),
            forall|j1: int, j2: int| 0 <= j1 < j2 < r@.len() ==> r@[j1] < r@[j2],
    {
        let ghost qv = self@.qsos;
        let mut r: Vec<usize> = Vec::new();
        let mut i: usize = 0;
        while i < self.qsos.len()
            invariant
                i <= self.qsos@.len(),
                qv == self@.qsos,
                qv.len() == self.qsos@.len(),
                forall|k: int| 0 <= k < qv.len() ==> qv[k] == #[trigger] self.qsos@[k]@,
                forall|j: int| #![trigger r@[j]]
                    0 <= j < r@.len() ==> 0 <= r@[j] < i && spec_dup_match(
                        qv[r@[j] as int],
                        qso@,
                        on,
                    ),
                forall|k: int|
                    0 <= k < i && spec_dup_match(#[trigger] qv[k], qso@, on) ==> r@.contains(
                        k as usize,
                    ),
                forall|j1: int, j2: int| 0 <= j1 < j2 < r@.len() ==> r@[j1] < r@[j2],
            decreases self.qsos@.len() - i,
        {
            let q = &self.qsos[i];
            let in_scope = match on {
                Some(d) => q.timestamp.date() == d,
                None => true,
            };
            let ghost r_pre = r@;
            let hit = in_scope && key_eq(q, qso);
            if hit {
                r.push(i);
            }
            proof {
                assert forall|k: int|
                    0 <= k < i + 1 && spec_dup_match(#[trigger] qv[k], qso@, on) implies r@.contains(
                    k as usize,
                ) by {
                    if k < i {
                        let j = choose|j: int| 0 <= j < r_pre.len() && r_pre[j] == k as usize;
                        assert(r@[j] == k as usize);
                    } else {
                        assert(hit);
                        assert(r@[r@.len() - 1] == i);
                    }
                }
            }
            i = i + 1;
        }
        r
    }

    /// Replaces the contact at `index`, returning the old one.
    ///
    /// Returns `None`, leaving the log unchanged, if `index` is out of bounds.
    pub fn replace_qso(&mut self, index: usize, qso: Qso) -> (r: Option<Qso>)
        ensures
            index < old(self)@.qsos.len() ==> {
                &&& r matches Some(q) && q == old(self).qsos@[index as int]
                &&& final(self).qsos@ == old(self).qsos@.update(index as int, qso)
            },
            index >= old(self)@.qsos.len() ==> r is None && *final(self) == *old(self),
            final(self).station_callsign == old(self).station_callsign,
            final(self).operator == old(self).operator,
            final(self).grid_square == old(self).grid_square,
            final(self).created_at == old(self).created_at,
            final(self).log_id == old(self).log_id,
    {
        if index < self.qsos.len() {
            let old_qso = self.qsos.remove(index);
            self.qsos.insert(index, qso);
            proof {
                assert(self.qsos@ =~= old(self).qsos@.update(index as int, qso));
            }
            Some(old_qso)
        } else {
            None
        }
    }

    /// Appends a contact to this log.
    pub fn add_qso(&mut self, qso: Qso)
        ensures
            final(self).qsos@ == old(self).qsos@.push(qso),
            final(self).station_callsign == old(self).station_callsign,
            final(self).operator == old(self).operator,
            final(self).grid_square == old(self).grid_square,
            final(self).created_at == old(self).created_at,
            final(self).log_id == old(self).log_id,
    {
        self.qsos.push(qso);
    }
}



/// Duplicate collapsing: logging the same lower-cased callsign, band, and
/// mode twice on one UTC date yields a unique count of 1 for that date;
/// two contacts on that date whose keys differ (a different callsign, band,
/// or mode) count separately.
pub proof fn lemma_duplicate_collapsing(a: QsoView, b: QsoView, d: Date)
    requires
        a.timestamp.spec_date() == d,
        b.timestamp.spec_date() == d,
    ensures
        spec_key_eq(a, b) ==> spec_unique_count(seq![a, b], d) == 1,
        !spec_key_eq(a, b) ==> spec_unique_count(seq![a, b], d) == 2,
{
    let s = seq![a, b];
    let one = seq![a];
    assert(s.drop_last() =~= one);
    assert(one.drop_last() =~= Seq::<QsoView>::empty());
    assert(one.last() == a);
    assert(spec_unique_count(Seq::<QsoView>::empty(), d) == 0);
    assert(spec_unique_count(one, d) == 1);
    assert(s.last() == b);
    if spec_key_eq(a, b) {
        assert(one[0].timestamp.spec_date() == d && spec_key_eq(one[0], b));
    } else {
        assert forall|i: int| 0 <= i < one.len() implies !((#[trigger] one[i]).timestamp.spec_date()
            == d && spec_key_eq(one[i], b)) by {
            assert(one[i] == a);
        }
    }
}

/// Copies a contact.
pub(crate) fn clone_qso(q: &Qso) -> (r: Qso)
    ensures
        r == *q,
{
    Qso {
        their_call: q.their_call.clone(),
        rst_sent: q.rst_sent.clone(),
        rst_rcvd: q.rst_rcvd.clone(),
        band: q.band,
        mode: q.mode,
        timestamp: q.timestamp,
        comments: q.comments.clone(),
        their_park: match &q.their_park {
            Some(p) => Some(p.clone()),
            None => None,
        },
        their_class: match &q.their_class {
            Some(c) => Some(c.clone()),
            None => None,
        },
        their_section: match &q.their_section {
            Some(x) => Some(x.clone()),
            None => None,
        },
    }
}

/// Copies a list of contacts.
pub(crate) fn clone_qsos(qsos: &Vec<Qso>) -> (r: Vec<Qso>)
    ensures
        r@ == qsos@,
{
    let mut r: Vec<Qso> = Vec::new();
    let mut i: usize = 0;
    while i < qsos.len()
        invariant
            i <= qsos@.len(),
            r@ =~= qsos@.subrange(0, i as int),
        decreases qsos@.len() - i,
    {
        r.push(clone_qso(&qsos[i]));
        i = i + 1;
        proof {
            assert(r@ =~= qsos@.subrange(0, i as int));
        }
    }
    proof {
        assert(r@ =~= qsos@);
    }
    r
}

/// Copies a log header.
pub(crate) fn clone_header(h: &LogHeader) -> (r: LogHeader)
    ensures
        r@ == h@,
        r.station_callsign == h.station_callsign,
        r.operator == h.operator,
        r.grid_square == h.grid_square,
        r.qsos@ == h.qsos@,
        r.created_at == h.created_at,
        r.log_id == h.log_id,
{
    let r = LogHeader {
        station_callsign: h.station_callsign.clone(),
        operator: match &h.operator {
            Some(o) => Some(o.clone()),
            None => None,
        },
        grid_square: h.grid_square.clone(),
        qsos: clone_qsos(&h.qsos),
        created_at: h.created_at,
        log_id: h.log_id.clone(),
    };
    proof {
        assert(r@.qsos =~= h@.qsos);
    }
    r
}

/// Copies a log.
pub(crate) fn clone_log(l: &Log) -> (r: Log)
    ensures
        r@ == l@,
        Log::same_config(*l, r),
        Log::same_header_fields(l.spec_header(), r.spec_header()),
        r.spec_header().qsos@ == l.spec_header().qsos@,
{
    match l {
        Log::General(g) => Log::General(GeneralLog { header: clone_header(&g.header) }),
        Log::Pota(p) => Log::Pota(
            PotaLog {
                header: clone_header(&p.header),
                park_ref: match &p.park_ref {
                    Some(x) => Some(x.clone()),
                    None => None,
                },
            },
        ),
        Log::FieldDay(f) => Log::FieldDay(
            FieldDayLog {
                header: clone_header(&f.header),
                tx_count: f.tx_count,
                class: f.class,
                section: f.section.clone(),
                power: f.power,
            },
        ),
        Log::WinterFieldDay(w) => Log::WinterFieldDay(
            WfdLog {
                header: clone_header(&w.header),
                tx_count: w.tx_count,
                class: w.class,
                section: w.section.clone(),
            },
        ),
    }
}

// --- The four session variants ---

/// General-purpose log — no type-specific setup fields.
#[derive(Debug, PartialEq)]
pub struct GeneralLog {
    pub header: LogHeader,
}

/// POTA (Parks on the Air) activation log.
#[derive(Debug, PartialEq)]
pub struct PotaLog {
    pub header: LogHeader,
    /// The activated park, absent for a session not yet tied to a park.
    pub park_ref: Option<String>,
}

/// ARRL Field Day log.
#[derive(Debug, PartialEq)]
pub struct FieldDayLog {
    pub header: LogHeader,
    pub tx_count: u8,
    pub class: FdClass,
    pub section: String,
    pub power: FdPowerCategory,
}

/// Winter Field Day log.
#[derive(Debug, PartialEq)]
pub struct WfdLog {
    pub header: LogHeader,
    pub tx_count: u8,
    pub class: WfdClass,
    pub section: String,
}

/// Any log session. The variant determines type-specific behavior and ADIF
/// output.
#[derive(Debug, PartialEq)]
pub enum Log {
    /// General-purpose log — no type-specific fields.
    General(GeneralLog),
    /// POTA (Parks on the Air) activation log.
    Pota(PotaLog),
    /// ARRL Field Day contest log.
    FieldDay(FieldDayLog),
    /// Winter Field Day contest log.
    WinterFieldDay(WfdLog),
}

/// The character-level contents of a log.
#[verifier::ext_equal]
pub enum LogView {
    General(LogHeaderView),
    Pota(LogHeaderView, Option<Seq<char>>),
    FieldDay(LogHeaderView, u8, FdClass, Seq<char>, FdPowerCategory),
    WinterFieldDay(LogHeaderView, u8, WfdClass, Seq<char>),
}

impl View for Log {
    type V = LogView;

    open spec fn view(&self) -> LogView {
        match self {
            Log::General(l) => LogView::General(l.header@),
            Log::Pota(l) => LogView::Pota(
                l.header@,
                match l.park_ref {
                    Some(ref p) => Some(p@),
                    None => None,
                },
            ),
            Log::FieldDay(l) => LogView::FieldDay(
                l.header@,
                l.tx_count,
                l.class,
                l.section@,
                l.power,
            ),
            Log::WinterFieldDay(l) => LogView::WinterFieldDay(
                l.header@,
                l.tx_count,
                l.class,
                l.section@,
            ),
        }
    }
}

/// Validates the header fields shared by every constructor: the station
/// callsign, the optional operator, and (last, matching each constructor's
/// own order) nothing else.
fn validate_callsigns(station_callsign: &String, operator: &Option<String>) -> (r: Result<
    (),
    ValidationError,
>)
    ensures
        r is Ok <==> spec_valid_callsign(station_callsign@) && (operator matches Some(o)
            ==> spec_valid_callsign(o@)),
        !spec_valid_callsign(station_callsign@) ==> (r matches Err(e)
            && crate::model::validation::spec_callsign_err(e, station_callsign@)),
        spec_valid_callsign(station_callsign@) ==> (operator matches Some(o) ==> (
        !spec_valid_callsign(o@) ==> (r matches Err(e)
            && crate::model::validation::spec_callsign_err(e, o@)))),
{
    if let Err(e) = validate_callsign(station_callsign.as_str()) {
        return Err(e);
    }
    if let Some(op) = operator {
        if let Err(e) = validate_callsign(op.as_str()) {
            return Err(e);
        }
    }
    Ok(())
}

impl GeneralLog {
    /// The id generated for a general log: `{callsign}-{YYYYMMDD-HHMMSS}`.
    pub open spec fn spec_log_id(callsign: Seq<char>, now: Timestamp) -> Seq<char> {
        callsign + "-"@ + now.spec_id_stamp()
    }

    /// Creates a new general log, validating all fields.
    ///
    /// When `operator` is `Some`, it is validated as a callsign. `None` means
    /// the operator is the same as the station callsign (the common solo
    /// case). `created_at` is stamped with `now`.
    pub fn new(
        station_callsign: String,
        operator: Option<String>,
        grid_square: String,
        now: Timestamp,
    ) -> (r: Result<GeneralLog, ValidationError>)
        requires
            now.wf(),
        ensures
            r is Ok <==> spec_valid_callsign(station_callsign@) && (operator matches Some(o)
                ==> spec_valid_callsign(o@)) && spec_valid_grid(grid_square@),
            r matches Ok(l) ==> {
                &&& l.header.wf()
                &&& l.header.station_callsign@ == station_callsign@
                &&& l.header@.operator == operator.deep_view()
                &&& l.header.grid_square@ == grid_square@
                &&& l.header.qsos@.len() == 0
                &&& l.header.created_at == now
                &&& l.header.log_id@ == GeneralLog::spec_log_id(station_callsign@, now)
            },
            !spec_valid_callsign(station_callsign@) ==> (r matches Err(e)
                && crate::model::validation::spec_callsign_err(e, station_callsign@)),
            spec_valid_callsign(station_callsign@) ==> (operator matches Some(o) ==> (
            !spec_valid_callsign(o@) ==> (r matches Err(e)
                && crate::model::validation::spec_callsign_err(e, o@)))),
            spec_valid_callsign(station_callsign@) && (operator matches Some(o)
                ==> spec_valid_callsign(o@)) && !spec_valid_grid(grid_square@) ==> (r matches Err(
                e,
            ) && e matches ValidationError::InvalidGridSquare(t) && t@ == grid_square@),
    {
        validate_callsigns(&station_callsign, &operator)?;
        if let Err(e) = validate_grid_square(grid_square.as_str()) {
            return Err(e);
        }
        let mut log_id = station_callsign.clone();
        log_id.append("-");
        let stamp = now.id_stamp();
        log_id.append(stamp.as_str());
        Ok(
            GeneralLog {
                header: LogHeader {
                    station_callsign,
                    operator,
                    grid_square,
                    qsos: Vec::new(),
                    created_at: now,
                    log_id,
                },
            },
        )
    }
}

impl PotaLog {
    /// The id generated for a POTA log: the park reference when present,
    /// otherwise the callsign, then `-{YYYYMMDD-HHMMSS}`.
    pub open spec fn spec_log_id(
        callsign: Seq<char>,
        park_ref: Option<Seq<char>>,
        now: Timestamp,
    ) -> Seq<char> {
        (match park_ref {
            Some(p) => p,
            None => callsign,
        }) + "-"@ + now.spec_id_stamp()
    }

    /// Creates a new POTA log, validating all fields.
    ///
    /// When `operator` is `Some`, it is validated as a callsign; when
    /// `park_ref` is `Some`, it is validated as a park reference. Absent
    /// park reference means the session is not yet tied to a park.
    pub fn new(
        station_callsign: String,
        operator: Option<String>,
        park_ref: Option<String>,
        grid_square: String,
        now: Timestamp,
    ) -> (r: Result<PotaLog, ValidationError>)
        requires
            now.wf(),
        ensures
            r is Ok <==> spec_valid_callsign(station_callsign@) && (operator matches Some(o)
                ==> spec_valid_callsign(o@)) && (park_ref matches Some(p)
                ==> spec_valid_park_ref(p@)) && spec_valid_grid(grid_square@),
            r matches Ok(l) ==> {
                &&& l.header.wf()
                &&& l.wf()
                &&& l.header.station_callsign@ == station_callsign@
                &&& l.header@.operator == operator.deep_view()
                &&& l.park_ref.deep_view() == park_ref.deep_view()
                &&& l.header.grid_square@ == grid_square@
                &&& l.header.qsos@.len() == 0
                &&& l.header.created_at == now
                &&& l.header.log_id@ == PotaLog::spec_log_id(
                    station_callsign@,
                    park_ref.deep_view(),
                    now,
                )
            },
            !spec_valid_callsign(station_callsign@) ==> (r matches Err(e)
                && crate::model::validation::spec_callsign_err(e, station_callsign@)),
            spec_valid_callsign(station_callsign@) ==> (operator matches Some(o) ==> (
            !spec_valid_callsign(o@) ==> (r matches Err(e)
                && crate::model::validation::spec_callsign_err(e, o@)))),
            spec_valid_callsign(station_callsign@) && (operator matches Some(o)
                ==> spec_valid_callsign(o@)) ==> (park_ref matches Some(p) ==> (
            !spec_valid_park_ref(p@) ==> (r matches Err(e) && e matches
                ValidationError::InvalidParkRef(t) && t@ == p@))),
            spec_valid_callsign(station_callsign@) && (operator matches Some(o)
                ==> spec_valid_callsign(o@)) && (park_ref matches Some(p)
                ==> spec_valid_park_ref(p@)) && !spec_valid_grid(grid_square@) ==> (r matches Err(
                e,
            ) && e matches ValidationError::InvalidGridSquare(t) && t@ == grid_square@),
    {
        validate_callsigns(&station_callsign, &operator)?;
        if let Some(park) = &park_ref {
            if let Err(e) = validate_park_ref(park.as_str()) {
                return Err(e);
            }
        }
        if let Err(e) = validate_grid_square(grid_square.as_str()) {
            return Err(e);
        }
        let mut log_id = match &park_ref {
            Some(p) => p.clone(),
            None => station_callsign.clone(),
        };
        log_id.append("-");
        let stamp = now.id_stamp();
        log_id.append(stamp.as_str());
        Ok(
            PotaLog {
                header: LogHeader {
                    station_callsign,
                    operator,
                    grid_square,
                    qsos: Vec::new(),
                    created_at: now,
                    log_id,
                },
                park_ref,
            },
        )
    }

    /// The POTA invariant: a present park reference is valid.
    pub open spec fn wf(self) -> bool {
        self.park_ref matches Some(p) ==> spec_valid_park_ref(p@)
    }
}

impl FieldDayLog {
    /// The id generated for a Field Day log: `FD-{callsign}-{YYYYMMDD-HHMMSS}`.
    pub open spec fn spec_log_id(callsign: Seq<char>, now: Timestamp) -> Seq<char> {
        "FD-"@ + callsign + "-"@ + now.spec_id_stamp()
    }

    /// Creates a new Field Day log, validating all fields.
    ///
    /// `section` is stored as-is (callers normalize to uppercase).
    /// `tx_count` must be at least 1, `section` non-empty.
    pub fn new(
        station_callsign: String,
        operator: Option<String>,
        tx_count: u8,
        class: FdClass,
        section: String,
        power: FdPowerCategory,
        grid_square: String,
        now: Timestamp,
    ) -> (r: Result<FieldDayLog, ValidationError>)
        requires
            now.wf(),
        ensures
            r is Ok <==> spec_valid_callsign(station_callsign@) && (operator matches Some(o)
                ==> spec_valid_callsign(o@)) && tx_count >= 1 && section@.len() > 0
                && spec_valid_grid(grid_square@),
            r matches Ok(l) ==> {
                &&& l.header.wf()
                &&& l.wf()
                &&& l.header.station_callsign@ == station_callsign@
                &&& l.header@.operator == operator.deep_view()
                &&& l.tx_count == tx_count
                &&& l.class == class
                &&& l.section@ == section@
                &&& l.power == power
                &&& l.header.grid_square@ == grid_square@
                &&& l.header.qsos@.len() == 0
                &&& l.header.created_at == now
                &&& l.header.log_id@ == FieldDayLog::spec_log_id(station_callsign@, now)
            },
            !spec_valid_callsign(station_callsign@) ==> (r matches Err(e)
                && crate::model::validation::spec_callsign_err(e, station_callsign@)),
            spec_valid_callsign(station_callsign@) ==> (operator matches Some(o) ==> (
            !spec_valid_callsign(o@) ==> (r matches Err(e)
                && crate::model::validation::spec_callsign_err(e, o@)))),
            spec_valid_callsign(station_callsign@) && (operator matches Some(o)
                ==> spec_valid_callsign(o@)) && tx_count == 0 ==> r == Err::<
                FieldDayLog,
                ValidationError,
            >(ValidationError::InvalidTxCount),
            spec_valid_callsign(station_callsign@) && (operator matches Some(o)
                ==> spec_valid_callsign(o@)) && tx_count >= 1 && section@.len() == 0 ==> r == Err::<
                FieldDayLog,
                ValidationError,
            >(ValidationError::EmptySection),
            spec_valid_callsign(station_callsign@) && (operator matches Some(o)
                ==> spec_valid_callsign(o@)) && tx_count >= 1 && section@.len() > 0
                && !spec_valid_grid(grid_square@) ==> (r matches Err(e) && e matches
                ValidationError::InvalidGridSquare(t) && t@ == grid_square@),
    {
        validate_callsigns(&station_callsign, &operator)?;
        if let Err(e) = validate_tx_count(tx_count) {
            return Err(e);
        }
        if let Err(e) = validate_section(section.as_str()) {
            return Err(e);
        }
        if let Err(e) = validate_grid_square(grid_square.as_str()) {
            return Err(e);
        }
        let mut log_id = String::from_str("FD-");
        log_id.append(station_callsign.as_str());
        log_id.append("-");
        let stamp = now.id_stamp();
        log_id.append(stamp.as_str());
        Ok(
            FieldDayLog {
                header: LogHeader {
                    station_callsign,
                    operator,
                    grid_square,
                    qsos: Vec::new(),
                    created_at: now,
                    log_id,
                },
                tx_count,
                class,
                section,
                power,
            },
        )
    }

    /// The contest invariant: at least one transmitter and a non-empty
    /// section.
    pub open spec fn wf(self) -> bool {
        self.tx_count >= 1 && self.section@.len() > 0
    }

    /// The sent exchange, e.g. `1B EPA`.
    pub open spec fn spec_sent_exchange(self) -> Seq<char> {
        spec_dec(self.tx_count as nat) + self.class.spec_letter() + " "@ + self.section@
    }

    /// Returns the sent exchange string, e.g. `"1B EPA"`.
    pub fn sent_exchange(&self) -> (r: String)
        ensures
            r@ == self.spec_sent_exchange(),
    {
        let mut r = u64_to_dec_string(self.tx_count as u64);
        r.append(self.class.letter());
        r.append(" ");
        r.append(self.section.as_str());
        r
    }
}

impl WfdLog {
    /// The id generated for a Winter Field Day log:
    /// `WFD-{callsign}-{YYYYMMDD-HHMMSS}`.
    pub open spec fn spec_log_id(callsign: Seq<char>, now: Timestamp) -> Seq<char> {
        "WFD-"@ + callsign + "-"@ + now.spec_id_stamp()
    }

    /// Creates a new Winter Field Day log, validating all fields.
    ///
    /// `section` is stored as-is (callers normalize to uppercase).
    /// `tx_count` must be at least 1, `section` non-empty.
    pub fn new(
        station_callsign: String,
        operator: Option<String>,
        tx_count: u8,
        class: WfdClass,
        section: String,
        grid_square: String,
        now: Timestamp,
    ) -> (r: Result<WfdLog, ValidationError>)
        requires
            now.wf(),
        ensures
            r is Ok <==> spec_valid_callsign(station_callsign@) && (operator matches Some(o)
                ==> spec_valid_callsign(o@)) && tx_count >= 1 && section@.len() > 0
                && spec_valid_grid(grid_square@),
            r matches Ok(l) ==> {
                &&& l.header.wf()
                &&& l.wf()
                &&& l.header.station_callsign@ == station_callsign@
                &&& l.header@.operator == operator.deep_view()
                &&& l.tx_count == tx_count
                &&& l.class == class
                &&& l.section@ == section@
                &&& l.header.grid_square@ == grid_square@
                &&& l.header.qsos@.len() == 0
                &&& l.header.created_at == now
                &&& l.header.log_id@ == WfdLog::spec_log_id(station_callsign@, now)
            },
            !spec_valid_callsign(station_callsign@) ==> (r matches Err(e)
                && crate::model::validation::spec_callsign_err(e, station_callsign@)),
            spec_valid_callsign(station_callsign@) ==> (operator matches Some(o) ==> (
            !spec_valid_callsign(o@) ==> (r matches Err(e)
                && crate::model::validation::spec_callsign_err(e, o@)))),
            spec_valid_callsign(station_callsign@) && (operator matches Some(o)
                ==> spec_valid_callsign(o@)) && tx_count == 0 ==> r == Err::<
                WfdLog,
                ValidationError,
            >(ValidationError::InvalidTxCount),
            spec_valid_callsign(station_callsign@) && (operator matches Some(o)
                ==> spec_valid_callsign(o@)) && tx_count >= 1 && section@.len() == 0 ==> r == Err::<
                WfdLog,
                ValidationError,
            >(ValidationError::EmptySection),
            spec_valid_callsign(station_callsign@) && (operator matches Some(o)
                ==> spec_valid_callsign(o@)) && tx_count >= 1 && section@.len() > 0
                && !spec_valid_grid(grid_square@) ==> (r matches Err(e) && e matches
                ValidationError::InvalidGridSquare(t) && t@ == grid_square@),
    {
        validate_callsigns(&station_callsign, &operator)?;
        if let Err(e) = validate_tx_count(tx_count) {
            return Err(e);
        }
        if let Err(e) = validate_section(section.as_str()) {
            return Err(e);
        }
        if let Err(e) = validate_grid_square(grid_square.as_str()) {
            return Err(e);
        }
        let mut log_id = String::from_str("WFD-");
        log_id.append(station_callsign.as_str());
        log_id.append("-");
        let stamp = now.id_stamp();
        log_id.append(stamp.as_str());
        Ok(
            WfdLog {
                header: LogHeader {
                    station_callsign,
                    operator,
                    grid_square,
                    qsos: Vec::new(),
                    created_at: now,
                    log_id,
                },
                tx_count,
                class,
                section,
            },
        )
    }

    /// The contest invariant: at least one transmitter and a non-empty
    /// section.
    pub open spec fn wf(self) -> bool {
        self.tx_count >= 1 && self.section@.len() > 0
    }

    /// The sent exchange, e.g. `1H EPA`.
    pub open spec fn spec_sent_exchange(self) -> Seq<char> {
        spec_dec(self.tx_count as nat) + self.class.spec_letter() + " "@ + self.section@
    }

    /// Returns the sent exchange string, e.g. `"1H EPA"`.
    pub fn sent_exchange(&self) -> (r: String)
        ensures
            r@ == self.spec_sent_exchange(),
    {
        let mut r = u64_to_dec_string(self.tx_count as u64);
        r.append(self.class.letter());
        r.append(" ");
        r.append(self.section.as_str());
        r
    }
}

impl Log {
    /// The shared header of any variant.
    pub open spec fn spec_header(self) -> LogHeader {
        match self {
            Log::General(l) => l.header,
            Log::Pota(l) => l.header,
            Log::FieldDay(l) => l.header,
            Log::WinterFieldDay(l) => l.header,
        }
    }

    /// The whole-log invariant.
    pub open spec fn wf(self) -> bool {
        &&& self.spec_header().wf()
        &&& (self matches Log::Pota(l) ==> l.wf())
        &&& (self matches Log::FieldDay(l) ==> l.wf())
        &&& (self matches Log::WinterFieldDay(l) ==> l.wf())
    }

    /// Variant and type-specific configuration, header aside, agree.
    pub open spec fn same_config(a: Log, b: Log) -> bool {
        match (a, b) {
            (Log::General(_), Log::General(_)) => true,
            (Log::Pota(x), Log::Pota(y)) => x.park_ref == y.park_ref,
            (Log::FieldDay(x), Log::FieldDay(y)) => x.tx_count == y.tx_count && x.class == y.class
                && x.section == y.section && x.power == y.power,
            (Log::WinterFieldDay(x), Log::WinterFieldDay(y)) => x.tx_count == y.tx_count && x.class
                == y.class && x.section == y.section,
            _ => false,
        }
    }

    /// Header fields other than the contact list agree.
    pub open spec fn same_header_fields(a: LogHeader, b: LogHeader) -> bool {
        a.station_callsign == b.station_callsign && a.operator == b.operator && a.grid_square
            == b.grid_square && a.created_at == b.created_at && a.log_id == b.log_id
    }

    /// Returns a reference to the shared log header.
    pub fn header(&self) -> (r: &LogHeader)
        ensures
            *r == self.spec_header(),
    {
        match self {
            Log::General(l) => &l.header,
            Log::Pota(l) => &l.header,
            Log::FieldDay(l) => &l.header,
            Log::WinterFieldDay(l) => &l.header,
        }
    }

    /// Returns the POTA park reference, or `None` for other log types.
    pub fn park_ref(&self) -> (r: Option<&String>)
        ensures
            match r {
                Some(p) => self matches Log::Pota(l) && l.park_ref == Some(*p),
                None => !(self matches Log::Pota(l) && l.park_ref is Some),
            },
    {
        match self {
            Log::Pota(p) => match &p.park_ref {
                Some(s) => Some(s),
                None => None,
            },
            _ => None,
        }
    }

    /// Adds a contact to this log.
    pub fn add_qso(&mut self, qso: Qso)
        ensures
            Log::same_config(*old(self), *final(self)),
            Log::same_header_fields(old(self).spec_header(), final(self).spec_header()),
            final(self).spec_header().qsos@ == old(self).spec_header().qsos@.push(qso),
    {
        match self {
            Log::General(l) => l.header.add_qso(qso),
            Log::Pota(l) => l.header.add_qso(qso),
            Log::FieldDay(l) => l.header.add_qso(qso),
            Log::WinterFieldDay(l) => l.header.add_qso(qso),
        }
    }

    /// Replaces the contact at `index`, returning the old one.
    ///
    /// Returns `None`, leaving the log unchanged, if `index` is out of
    /// bounds.
    pub fn replace_qso(&mut self, index: usize, qso: Qso) -> (r: Option<Qso>)
        ensures
            Log::same_config(*old(self), *final(self)),
            Log::same_header_fields(old(self).spec_header(), final(self).spec_header()),
            index < old(self).spec_header().qsos@.len() ==> {
                &&& r matches Some(q) && q == old(self).spec_header().qsos@[index as int]
                &&& final(self).spec_header().qsos@ == old(self).spec_header().qsos@.update(
                    index as int,
                    qso,
                )
            },
            index >= old(self).spec_header().qsos@.len() ==> r is None && *final(self) == *old(
                self,
            ),
    {
        match self {
            Log::General(l) => l.header.replace_qso(index, qso),
            Log::Pota(l) => l.header.replace_qso(index, qso),
            Log::FieldDay(l) => l.header.replace_qso(index, qso),
            Log::WinterFieldDay(l) => l.header.replace_qso(index, qso),
        }
    }

    /// Counts unique contacts on the given date (UTC).
    pub fn qso_count_on_date(&self, date: Date) -> (r: usize)
        ensures
            r == spec_unique_count(self.spec_header()@.qsos, date),
    {
        self.header().qso_count_on_date(date)
    }

    /// Counts unique contacts today (UTC).
    pub fn qso_count_today(&self) -> (r: usize)
        ensures
            exists|d: Date| d.wf() && r == spec_unique_count(self.spec_header()@.qsos, d),
    {
        let now = Timestamp::now();
        let r = self.header().qso_count_on_date(now.date());
        proof {
            assert(now.spec_date().wf() && r == spec_unique_count(
                self.spec_header()@.qsos,
                now.spec_date(),
            ));
        }
        r
    }

    /// Returns how many more unique contacts a POTA activation needs on the
    /// given date: `max(0, 10 - n)` for POTA logs, `0` for every other type.
    pub fn needs_for_activation_on(&self, date: Date) -> (r: usize)
        ensures
            self matches Log::Pota(_) ==> r as int == if spec_unique_count(
                self.spec_header()@.qsos,
                date,
            ) >= (POTA_ACTIVATION_THRESHOLD as int) {
                0int
            } else {
                POTA_ACTIVATION_THRESHOLD - spec_unique_count(self.spec_header()@.qsos, date)
            },
            !(self matches Log::Pota(_)) ==> r == 0,
    {
        match self {
            Log::Pota(_) => {
                let n = self.qso_count_on_date(date);
                if n >= POTA_ACTIVATION_THRESHOLD {
                    0
                } else {
                    POTA_ACTIVATION_THRESHOLD - n
                }
            },
            _ => 0,
        }
    }

    /// Returns the number of additional unique contacts needed for a valid
    /// POTA activation today. Always `0` for non-POTA logs.
    pub fn needs_for_activation(&self) -> (r: usize)
        ensures
            self matches Log::Pota(_) ==> exists|d: Date|
                d.wf() && r as int == if spec_unique_count(self.spec_header()@.qsos, d) >= (
                POTA_ACTIVATION_THRESHOLD as int) {
                    0int
                } else {
                    POTA_ACTIVATION_THRESHOLD - spec_unique_count(self.spec_header()@.qsos, d)
                },
            !(self matches Log::Pota(_)) ==> r == 0,
    {
        let now = Timestamp::now();
        let ghost d = now.spec_date();
        let r = self.needs_for_activation_on(now.date());
        proof {
            assert(d.wf());
        }
        r
    }

    /// Whether the log meets its activation threshold on the given date:
    /// at least 10 unique contacts for POTA logs, never for other types.
    pub fn is_activated_on(&self, date: Date) -> (r: bool)
        ensures
            self matches Log::Pota(_) ==> r == (spec_unique_count(self.spec_header()@.qsos, date)
                >= POTA_ACTIVATION_THRESHOLD),
            !(self matches Log::Pota(_)) ==> r == false,
    {
        match self {
            Log::Pota(_) => self.qso_count_on_date(date) >= POTA_ACTIVATION_THRESHOLD,
            _ => false,
        }
    }

    /// Returns `true` if this log has met its activation threshold today:
    /// at least 10 unique contacts (UTC) for POTA logs, `false` otherwise.
    pub fn is_activated(&self) -> (r: bool)
        ensures
            self matches Log::Pota(_) ==> exists|d: Date|
                d.wf() && r == (spec_unique_count(self.spec_header()@.qsos, d)
                    >= POTA_ACTIVATION_THRESHOLD),
            !(self matches Log::Pota(_)) ==> r == false,
    {
        let now = Timestamp::now();
        let ghost d = now.spec_date();
        let r = self.is_activated_on(now.date());
        proof {
            assert(d.wf());
        }
        r
    }

    /// Returns the indices of contacts matching the given contact's
    /// duplicate key, optionally scoped to one date.
    pub fn find_duplicates_on(&self, qso: &Qso, on: Option<Date>) -> (r: Vec<usize>)
        ensures
            forall|j: int| #![trigger r@[j]]
                0 <= j < r@.len() ==> 0 <= r@[j] < self.spec_header()@.qsos.len() && spec_dup_match(
                    self.spec_header()@.qsos[r@[j] as int],
                    qso@,
                    on,
                ),
            forall|i: int|
                0 <= i < self.spec_header()@.qsos.len() && spec_dup_match(
                    #[trigger] self.spec_header()@.qsos[i],
                    qso@,
                    on,
                ) ==> r@.contains(i as usize),
            forall|j1: int, j2: int| 0 <= j1 < j2 < r@.len() ==> r@[j1] < r@[j2],
    {
        self.header().find_duplicates_on(qso, on)
    }

    /// Returns the indices of contacts matching the given contact's
    /// duplicate key within the scope the log type prescribes.
    ///
    /// - POTA and General logs look at today (UTC) only: a match is a
    ///   potential duplicate within the current UTC day.
    /// - Field Day and Winter Field Day logs look at the whole log — those
    ///   events span multiple UTC calendar days.
    pub fn find_duplicates(&self, qso: &Qso) -> (r: Vec<usize>)
        ensures
            (self matches Log::FieldDay(_) || self matches Log::WinterFieldDay(_)) ==> {
                &&& forall|j: int| #![trigger r@[j]]
                    0 <= j < r@.len() ==> 0 <= r@[j] < self.spec_header()@.qsos.len()
                        && spec_dup_match(
                        self.spec_header()@.qsos[r@[j] as int],
                        qso@,
                        None::<Date>,
                    )
                &&& forall|i: int|
                    0 <= i < self.spec_header()@.qsos.len() && spec_dup_match(
                        #[trigger] self.spec_header()@.qsos[i],
                        qso@,
                        None::<Date>,
                    ) ==> r@.contains(i as usize)
            },
            (self matches Log::General(_) || self matches Log::Pota(_)) ==> exists|d: Date|
                {
                    &&& #[trigger] d.wf()
                    &&& forall|j: int| #![trigger r@[j]]
                        0 <= j < r@.len() ==> 0 <= r@[j] < self.spec_header()@.qsos.len()
                            && spec_dup_match(
                            self.spec_header()@.qsos[r@[j] as int],
                            qso@,
                            Some(d),
                        )
                    &&& forall|i: int|
                        0 <= i < self.spec_header()@.qsos.len() && spec_dup_match(
                            #[trigger] self.spec_header()@.qsos[i],
                            qso@,
                            Some(d),
                        ) ==> r@.contains(i as usize)
                },
    {
        match self {
            Log::FieldDay(_) | Log::WinterFieldDay(_) => self.find_duplicates_on(qso, None),
            _ => {
                let now = Timestamp::now();
                let ghost d = now.spec_date();
                let r = self.find_duplicates_on(qso, Some(now.date()));
                proof {
                    assert(d.wf());
                }
                r
            },
        }
    }

    /// The short display label: the park reference of a POTA log when
    /// present, the sent exchange of a contest log, else the station
    /// callsign.
    pub open spec fn spec_display_label(self) -> Seq<char> {
        match self {
            Log::Pota(l) => match l.park_ref {
                Some(p) => p@,
                None => l.header.station_callsign@,
            },
            Log::General(l) => l.header.station_callsign@,
            Log::FieldDay(l) => l.spec_sent_exchange(),
            Log::WinterFieldDay(l) => l.spec_sent_exchange(),
        }
    }

    /// Returns a short display label for this log.
    pub fn display_label(&self) -> (r: String)
        ensures
            r@ == self.spec_display_label(),
    {
        match self {
            Log::Pota(l) => match &l.park_ref {
                Some(p) => p.clone(),
                None => l.header.station_callsign.clone(),
            },
            Log::General(l) => l.header.station_callsign.clone(),
            Log::FieldDay(l) => l.sent_exchange(),
            Log::WinterFieldDay(l) => l.sent_exchange(),
        }
    }
}

} // verus!
