//! Log persistence: the JSONL record codec, duplicate-session detection,
//! and export-path computation.
//!
//! Each log is stored as one text file: line 1 is the metadata record,
//! lines 2+ one contact record each, in append order. This module owns the
//! text format — encoding and parsing are verified, and parsing the
//! encoding of a log gives the log back. Reading and writing the actual
//! files is the thin outer shell's job.

use vstd::prelude::*;

use crate::json::{
    Json, JsonView, spec_encode_obj, spec_get, fields_view, encode_json_line, parse_json_line,
    get_field, lemma_object_roundtrip,
};
use crate::model::band::Band;
use crate::model::mode::Mode;
use crate::model::log::{
    FdClass, FdPowerCategory, GeneralLog, Log, LogHeader, LogView, PotaLog, WfdClass, WfdLog,
    spec_parse_fd_class, spec_parse_wfd_class, parse_fd_class, parse_wfd_class,
};
use crate::model::qso::{Qso, QsoView};
use crate::time::{Date, parse_timestamp};

verus! {

/// Errors the storage layer reports. I/O failure text is carried as a
/// plain message by the shell that touches the filesystem.
#[derive(Debug, Clone, PartialEq)]
pub enum StorageError {
    /// An I/O error occurred while reading or writing a file.
    Io(String),
    /// A line was not valid JSON for the record shape.
    Json(String),
    /// The platform does not provide a data directory.
    NoDataDir,
    /// The platform does not provide a home directory.
    NoHomeDir,
    /// A log file exists but contains no metadata line.
    EmptyLogFile(String),
    /// A log already exists for the same station, operator, type-specific
    /// configuration, and grid square on the same UTC day.
    DuplicateLog { callsign: String, date: Date },
    /// A log file contains valid JSON but is missing required fields for
    /// its declared log type.
    CorruptMetadata(String),
}

// --- Closed-vocabulary names ---

/// The stored name of each band.
pub open spec fn spec_band_name(b: Band) -> Seq<char> {
    match b {
        Band::M160 => "M160"@,
        Band::M80 => "M80"@,
        Band::M60 => "M60"@,
        Band::M40 => "M40"@,
        Band::M30 => "M30"@,
        Band::M20 => "M20"@,
        Band::M17 => "M17"@,
        Band::M15 => "M15"@,
        Band::M12 => "M12"@,
        Band::M10 => "M10"@,
        Band::M6 => "M6"@,
        Band::M2 => "M2"@,
        Band::Cm70 => "Cm70"@,
    }
}

/// The band a stored name denotes.
pub open spec fn spec_band_of_name(s: Seq<char>) -> Option<Band> {
    if s == "M160"@ {
        Some(Band::M160)
    } else if s == "M80"@ {
        Some(Band::M80)
    } else if s == "M60"@ {
        Some(Band::M60)
    } else if s == "M40"@ {
        Some(Band::M40)
    } else if s == "M30"@ {
        Some(Band::M30)
    } else if s == "M20"@ {
        Some(Band::M20)
    } else if s == "M17"@ {
        Some(Band::M17)
    } else if s == "M15"@ {
        Some(Band::M15)
    } else if s == "M12"@ {
        Some(Band::M12)
    } else if s == "M10"@ {
        Some(Band::M10)
    } else if s == "M6"@ {
        Some(Band::M6)
    } else if s == "M2"@ {
        Some(Band::M2)
    } else if s == "Cm70"@ {
        Some(Band::Cm70)
    } else {
        None
    }
}

/// Reading a band's stored name back gives the band.
pub proof fn lemma_band_name_roundtrip(b: Band)
    ensures
        spec_band_of_name(spec_band_name(b)) == Some(b),
{
    reveal_strlit("M160");
    reveal_strlit("M80");
    reveal_strlit("M60");
    reveal_strlit("M40");
    reveal_strlit("M30");
    reveal_strlit("M20");
    reveal_strlit("M17");
    reveal_strlit("M15");
    reveal_strlit("M12");
    reveal_strlit("M10");
    reveal_strlit("M6");
    reveal_strlit("M2");
    reveal_strlit("Cm70");
    assert("M160"@ =~= seq!['M', '1', '6', '0']);
    assert("M80"@ =~= seq!['M', '8', '0']);
    assert("M60"@ =~= seq!['M', '6', '0']);
    assert("M40"@ =~= seq!['M', '4', '0']);
    assert("M30"@ =~= seq!['M', '3', '0']);
    assert("M20"@ =~= seq!['M', '2', '0']);
    assert("M17"@ =~= seq!['M', '1', '7']);
    assert("M15"@ =~= seq!['M', '1', '5']);
    assert("M12"@ =~= seq!['M', '1', '2']);
    assert("M10"@ =~= seq!['M', '1', '0']);
    assert("M6"@ =~= seq!['M', '6']);
    assert("M2"@ =~= seq!['M', '2']);
    assert("Cm70"@ =~= seq!['C', 'm', '7', '0']);
}

/// Writes a band's stored name.
pub fn band_name(b: &Band) -> (r: &'static str)
    ensures
        r@ == spec_band_name(*b),
{
    match b {
        Band::M160 => "M160",
        Band::M80 => "M80",
        Band::M60 => "M60",
        Band::M40 => "M40",
        Band::M30 => "M30",
        Band::M20 => "M20",
        Band::M17 => "M17",
        Band::M15 => "M15",
        Band::M12 => "M12",
        Band::M10 => "M10",
        Band::M6 => "M6",
        Band::M2 => "M2",
        Band::Cm70 => "Cm70",
    }
}

/// Reads a band's stored name.
pub fn band_of_name(s: &str) -> (r: Option<Band>)
    ensures
        r == spec_band_of_name(s@),
{
    if crate::text::str_eq(s, "M160") {
        Some(Band::M160)
    } else if crate::text::str_eq(s, "M80") {
        Some(Band::M80)
    } else if crate::text::str_eq(s, "M60") {
        Some(Band::M60)
    } else if crate::text::str_eq(s, "M40") {
        Some(Band::M40)
    } else if crate::text::str_eq(s, "M30") {
        Some(Band::M30)
    } else if crate::text::str_eq(s, "M20") {
        Some(Band::M20)
    } else if crate::text::str_eq(s, "M17") {
        Some(Band::M17)
    } else if crate::text::str_eq(s, "M15") {
        Some(Band::M15)
    } else if crate::text::str_eq(s, "M12") {
        Some(Band::M12)
    } else if crate::text::str_eq(s, "M10") {
        Some(Band::M10)
    } else if crate::text::str_eq(s, "M6") {
        Some(Band::M6)
    } else if crate::text::str_eq(s, "M2") {
        Some(Band::M2)
    } else if crate::text::str_eq(s, "Cm70") {
        Some(Band::Cm70)
    } else {
        None
    }
}

/// The stored name of each mode.
pub open spec fn spec_mode_name(m: Mode) -> Seq<char> {
    match m {
        Mode::Ssb => "Ssb"@,
        Mode::Cw => "Cw"@,
        Mode::Ft8 => "Ft8"@,
        Mode::Ft4 => "Ft4"@,
        Mode::Js8 => "Js8"@,
        Mode::Psk31 => "Psk31"@,
        Mode::Rtty => "Rtty"@,
        Mode::Fm => "Fm"@,
        Mode::Am => "Am"@,
        Mode::Digi => "Digi"@,
    }
}

/// The mode a stored name denotes.
pub open spec fn spec_mode_of_name(s: Seq<char>) -> Option<Mode> {
    if s == "Ssb"@ {
        Some(Mode::Ssb)
    } else if s == "Cw"@ {
        Some(Mode::Cw)
    } else if s == "Ft8"@ {
        Some(Mode::Ft8)
    } else if s == "Ft4"@ {
        Some(Mode::Ft4)
    } else if s == "Js8"@ {
        Some(Mode::Js8)
    } else if s == "Psk31"@ {
        Some(Mode::Psk31)
    } else if s == "Rtty"@ {
        Some(Mode::Rtty)
    } else if s == "Fm"@ {
        Some(Mode::Fm)
    } else if s == "Am"@ {
        Some(Mode::Am)
    } else if s == "Digi"@ {
        Some(Mode::Digi)
    } else {
        None
    }
}

/// Reading a mode's stored name back gives the mode.
pub proof fn lemma_mode_name_roundtrip(m: Mode)
    ensures
        spec_mode_of_name(spec_mode_name(m)) == Some(m),
{
    reveal_strlit("Ssb");
    reveal_strlit("Cw");
    reveal_strlit("Ft8");
    reveal_strlit("Ft4");
    reveal_strlit("Js8");
    reveal_strlit("Psk31");
    reveal_strlit("Rtty");
    reveal_strlit("Fm");
    reveal_strlit("Am");
    reveal_strlit("Digi");
    assert("Ssb"@ =~= seq!['S', 's', 'b']);
    assert("Cw"@ =~= seq!['C', 'w']);
    assert("Ft8"@ =~= seq!['F', 't', '8']);
    assert("Ft4"@ =~= seq!['F', 't', '4']);
    assert("Js8"@ =~= seq!['J', 's', '8']);
    assert("Psk31"@ =~= seq!['P', 's', 'k', '3', '1']);
    assert("Rtty"@ =~= seq!['R', 't', 't', 'y']);
    assert("Fm"@ =~= seq!['F', 'm']);
    assert("Am"@ =~= seq!['A', 'm']);
    assert("Digi"@ =~= seq!['D', 'i', 'g', 'i']);
}

/// Writes a mode's stored name.
pub fn mode_name(m: &Mode) -> (r: &'static str)
    ensures
        r@ == spec_mode_name(*m),
{
    match m {
        Mode::Ssb => "Ssb",
        Mode::Cw => "Cw",
        Mode::Ft8 => "Ft8",
        Mode::Ft4 => "Ft4",
        Mode::Js8 => "Js8",
        Mode::Psk31 => "Psk31",
        Mode::Rtty => "Rtty",
        Mode::Fm => "Fm",
        Mode::Am => "Am",
        Mode::Digi => "Digi",
    }
}

/// Reads a mode's stored name.
pub fn mode_of_name(s: &str) -> (r: Option<Mode>)
    ensures
        r == spec_mode_of_name(s@),
{
    if crate::text::str_eq(s, "Ssb") {
        Some(Mode::Ssb)
    } else if crate::text::str_eq(s, "Cw") {
        Some(Mode::Cw)
    } else if crate::text::str_eq(s, "Ft8") {
        Some(Mode::Ft8)
    } else if crate::text::str_eq(s, "Ft4") {
        Some(Mode::Ft4)
    } else if crate::text::str_eq(s, "Js8") {
        Some(Mode::Js8)
    } else if crate::text::str_eq(s, "Psk31") {
        Some(Mode::Psk31)
    } else if crate::text::str_eq(s, "Rtty") {
        Some(Mode::Rtty)
    } else if crate::text::str_eq(s, "Fm") {
        Some(Mode::Fm)
    } else if crate::text::str_eq(s, "Am") {
        Some(Mode::Am)
    } else if crate::text::str_eq(s, "Digi") {
        Some(Mode::Digi)
    } else {
        None
    }
}

// --- The contact record ---

/// The stored JSON value of an optional text field.
pub open spec fn spec_opt_json(o: Option<Seq<char>>) -> JsonView {
    match o {
        Some(s) => JsonView::Str(s),
        None => JsonView::Null,
    }
}

/// The field list of a stored contact record.
pub open spec fn spec_qso_fields(q: QsoView) -> Seq<(Seq<char>, JsonView)> {
    seq![
        ("their_call"@, JsonView::Str(q.their_call)),
        ("rst_sent"@, JsonView::Str(q.rst_sent)),
        ("rst_rcvd"@, JsonView::Str(q.rst_rcvd)),
        ("band"@, JsonView::Str(spec_band_name(q.band))),
        ("mode"@, JsonView::Str(spec_mode_name(q.mode))),
        ("timestamp"@, JsonView::Str(q.timestamp.spec_iso())),
        ("comments"@, JsonView::Str(q.comments)),
        ("their_park"@, spec_opt_json(q.their_park)),
        ("their_class"@, spec_opt_json(q.their_class)),
        ("their_section"@, spec_opt_json(q.their_section)),
    ]
}

/// One stored contact line (without the line terminator).
pub open spec fn spec_encode_qso_line(q: QsoView) -> Seq<char> {
    spec_encode_obj(spec_qso_fields(q))
}

/// Builds the stored JSON value of an optional text field.
fn opt_json(o: &Option<String>) -> (r: Json)
    ensures
        r@ == spec_opt_json(o.deep_view()),
{
    match o {
        Some(s) => Json::Str(s.clone()),
        None => Json::Null,
    }
}

/// Encodes one contact as its stored line.
pub fn encode_qso_line(q: &Qso) -> (r: String)
    ensures
        r@ == spec_encode_qso_line(q@),
{
    let mut fields: Vec<(String, Json)> = Vec::new();
    fields.push((String::from_str("their_call"), Json::Str(q.their_call.clone())));
    fields.push((String::from_str("rst_sent"), Json::Str(q.rst_sent.clone())));
    fields.push((String::from_str("rst_rcvd"), Json::Str(q.rst_rcvd.clone())));
    fields.push((String::from_str("band"), Json::Str(String::from_str(band_name(&q.band)))));
    fields.push((String::from_str("mode"), Json::Str(String::from_str(mode_name(&q.mode)))));
    let iso = q.timestamp.iso_chars();
    fields.push((String::from_str("timestamp"), Json::Str(crate::text::chars_to_string(&iso))));
    fields.push((String::from_str("comments"), Json::Str(q.comments.clone())));
    fields.push((String::from_str("their_park"), opt_json(&q.their_park)));
    fields.push((String::from_str("their_class"), opt_json(&q.their_class)));
    fields.push((String::from_str("their_section"), opt_json(&q.their_section)));
    proof {
        assert(fields_view(fields@) =~= spec_qso_fields(q@));
    }
    encode_json_line(&fields)
}

/// Looking a key up in a field list where it first occurs at position `k`
/// finds that occurrence.
pub proof fn lemma_spec_get_at(fs: Seq<(Seq<char>, JsonView)>, k: int, key: Seq<char>)
    requires
        0 <= k < fs.len(),
        fs[k].0 == key,
        forall|j: int| 0 <= j < k ==> (#[trigger] fs[j]).0 != key,
    ensures
        spec_get(fs, key) == Some(fs[k].1),
    decreases k,
{
    if k == 0 {
    } else {
        assert(fs[0].0 != key);
        assert(fs.drop_first()[k - 1] == fs[k]);
        assert forall|j: int| 0 <= j < k - 1 implies (#[trigger] fs.drop_first()[j]).0 != key by {
            assert(fs.drop_first()[j] == fs[j + 1]);
        }
        lemma_spec_get_at(fs.drop_first(), k - 1, key);
    }
}

/// The lookups the contact parser performs on an encoded contact record.
pub proof fn lemma_qso_fields_get(q: QsoView)
    ensures
        spec_get(spec_qso_fields(q), "their_call"@) == Some(JsonView::Str(q.their_call)),
        spec_get(spec_qso_fields(q), "rst_sent"@) == Some(JsonView::Str(q.rst_sent)),
        spec_get(spec_qso_fields(q), "rst_rcvd"@) == Some(JsonView::Str(q.rst_rcvd)),
        spec_get(spec_qso_fields(q), "band"@) == Some(JsonView::Str(spec_band_name(q.band))),
        spec_get(spec_qso_fields(q), "mode"@) == Some(JsonView::Str(spec_mode_name(q.mode))),
        spec_get(spec_qso_fields(q), "timestamp"@) == Some(
            JsonView::Str(q.timestamp.spec_iso()),
        ),
        spec_get(spec_qso_fields(q), "comments"@) == Some(JsonView::Str(q.comments)),
        spec_get(spec_qso_fields(q), "their_park"@) == Some(spec_opt_json(q.their_park)),
        spec_get(spec_qso_fields(q), "their_class"@) == Some(spec_opt_json(q.their_class)),
        spec_get(spec_qso_fields(q), "their_section"@) == Some(spec_opt_json(q.their_section)),
{
    reveal_strlit("their_call");
    reveal_strlit("rst_sent");
    reveal_strlit("rst_rcvd");
    reveal_strlit("band");
    reveal_strlit("mode");
    reveal_strlit("timestamp");
    reveal_strlit("comments");
    reveal_strlit("their_park");
    reveal_strlit("their_class");
    reveal_strlit("their_section");
    assert("their_call"@ =~= seq!['t', 'h', 'e', 'i', 'r', '_', 'c', 'a', 'l', 'l']);
    assert("rst_sent"@ =~= seq!['r', 's', 't', '_', 's', 'e', 'n', 't']);
    assert("rst_rcvd"@ =~= seq!['r', 's', 't', '_', 'r', 'c', 'v', 'd']);
    assert("band"@ =~= seq!['b', 'a', 'n', 'd']);
    assert("mode"@ =~= seq!['m', 'o', 'd', 'e']);
    assert("timestamp"@ =~= seq!['t', 'i', 'm', 'e', 's', 't', 'a', 'm', 'p']);
    assert("comments"@ =~= seq!['c', 'o', 'm', 'm', 'e', 'n', 't', 's']);
    assert("their_park"@ =~= seq!['t', 'h', 'e', 'i', 'r', '_', 'p', 'a', 'r', 'k']);
    assert("their_class"@ =~= seq!['t', 'h', 'e', 'i', 'r', '_', 'c', 'l', 'a', 's', 's']);
    assert("their_section"@ =~= seq!['t', 'h', 'e', 'i', 'r', '_', 's', 'e', 'c', 't', 'i', 'o', 'n']);
    let fs = spec_qso_fields(q);
    lemma_spec_get_at(fs, 0, "their_call"@);
    lemma_spec_get_at(fs, 1, "rst_sent"@);
    lemma_spec_get_at(fs, 2, "rst_rcvd"@);
    lemma_spec_get_at(fs, 3, "band"@);
    lemma_spec_get_at(fs, 4, "mode"@);
    lemma_spec_get_at(fs, 5, "timestamp"@);
    lemma_spec_get_at(fs, 6, "comments"@);
    lemma_spec_get_at(fs, 7, "their_park"@);
    lemma_spec_get_at(fs, 8, "their_class"@);
    lemma_spec_get_at(fs, 9, "their_section"@);
}

/// Looks a required string field up.
fn req_string(fields: &Vec<(String, Json)>, name: &str) -> (r: Result<String, StorageError>)
    ensures
        match spec_get(fields_view(fields@), name@) {
            Some(jv) => match jv {
                JsonView::Str(sv) => r matches Ok(out) && out@ == sv,
                _ => r matches Err(e) && e matches StorageError::Json(_),
            },
            None => r matches Err(e) && e matches StorageError::Json(_),
        },
{
    match get_field(fields, name) {
        Some(j) => match j {
            Json::Str(s) => Ok(s.clone()),
            _ => Err(
                StorageError::Json(
                    String::from_str("expected a string value: ").concat(name),
                ),
            ),
        },
        None => Err(
            StorageError::Json(String::from_str("missing field: ").concat(name)),
        ),
    }
}

/// Looks an optional string field up: absent and `null` both mean "not
/// present".
fn opt_string(fields: &Vec<(String, Json)>, name: &str) -> (r: Result<
    Option<String>,
    StorageError,
>)
    ensures
        match spec_get(fields_view(fields@), name@) {
            Some(jv) => match jv {
                JsonView::Str(sv) => r matches Ok(out) && out matches Some(o) && o@ == sv,
                JsonView::Null => r == Ok::<Option<String>, StorageError>(None),
                _ => r matches Err(e) && e matches StorageError::Json(_),
            },
            None => r == Ok::<Option<String>, StorageError>(None),
        },
{
    match get_field(fields, name) {
        Some(j) => match j {
            Json::Str(s) => Ok(Some(s.clone())),
            Json::Null => Ok(None),
            _ => Err(
                StorageError::Json(
                    String::from_str("expected a string or null: ").concat(name),
                ),
            ),
        },
        None => Ok(None),
    }
}

/// Parses one stored contact line.
///
/// Contents are taken as stored, without re-validation — the reader is
/// lenient toward older records. Parsing the encoding of any contact with
/// a well-formed timestamp yields that contact back.
pub fn parse_qso_line(line: &str) -> (r: Result<Qso, StorageError>)
    ensures
        forall|q: QsoView|
            q.timestamp.wf() && line@ == spec_encode_qso_line(q) ==> (r matches Ok(out) && out@
                == q),
        (r matches Err(e) && e matches StorageError::Json(_)) || r is Ok,
{
    let fields = match parse_json_line(line) {
        Some(f) => f,
        None => {
            proof {
                assert forall|q: QsoView|
                    q.timestamp.wf() && line@ == spec_encode_qso_line(q) implies false by {
                    lemma_object_roundtrip(spec_qso_fields(q), Seq::<char>::empty());
                    assert(spec_encode_obj(spec_qso_fields(q)) + Seq::<char>::empty()
                        =~= line@);
                }
            }
            return Err(StorageError::Json(String::from_str("line is not a JSON object")));
        },
    };
    proof {
        assert forall|q: QsoView|
            q.timestamp.wf() && line@ == spec_encode_qso_line(q) implies fields_view(fields@)
            == spec_qso_fields(q) by {
            lemma_object_roundtrip(spec_qso_fields(q), Seq::<char>::empty());
            assert(spec_encode_obj(spec_qso_fields(q)) + Seq::<char>::empty() =~= line@);
        }
    }
    let their_call = match req_string(&fields, "their_call") {
        Ok(s) => s,
        Err(e) => {
            proof {
                assert forall|q: QsoView|
                    q.timestamp.wf() && line@ == spec_encode_qso_line(q) implies false by {
                    lemma_qso_fields_get(q);
                }
            }
            return Err(e);
        },
    };
    let rst_sent = match req_string(&fields, "rst_sent") {
        Ok(s) => s,
        Err(e) => {
            proof {
                assert forall|q: QsoView|
                    q.timestamp.wf() && line@ == spec_encode_qso_line(q) implies false by {
                    lemma_qso_fields_get(q);
                }
            }
            return Err(e);
        },
    };
    let rst_rcvd = match req_string(&fields, "rst_rcvd") {
        Ok(s) => s,
        Err(e) => {
            proof {
                assert forall|q: QsoView|
                    q.timestamp.wf() && line@ == spec_encode_qso_line(q) implies false by {
                    lemma_qso_fields_get(q);
                }
            }
            return Err(e);
        },
    };
    let band_s = match req_string(&fields, "band") {
        Ok(s) => s,
        Err(e) => {
            proof {
                assert forall|q: QsoView|
                    q.timestamp.wf() && line@ == spec_encode_qso_line(q) implies false by {
                    lemma_qso_fields_get(q);
                }
            }
            return Err(e);
        },
    };
    let band = match band_of_name(band_s.as_str()) {
        Some(b) => b,
        None => {
            proof {
                assert forall|q: QsoView|
                    q.timestamp.wf() && line@ == spec_encode_qso_line(q) implies false by {
                    lemma_qso_fields_get(q);
                    lemma_band_name_roundtrip(q.band);
                }
            }
            return Err(StorageError::Json(String::from_str("unknown band")));
        },
    };
    let mode_s = match req_string(&fields, "mode") {
        Ok(s) => s,
        Err(e) => {
            proof {
                assert forall|q: QsoView|
                    q.timestamp.wf() && line@ == spec_encode_qso_line(q) implies false by {
                    lemma_qso_fields_get(q);
                }
            }
            return Err(e);
        },
    };
    let mode = match mode_of_name(mode_s.as_str()) {
        Some(m) => m,
        None => {
            proof {
                assert forall|q: QsoView|
                    q.timestamp.wf() && line@ == spec_encode_qso_line(q) implies false by {
                    lemma_qso_fields_get(q);
                    lemma_mode_name_roundtrip(q.mode);
                }
            }
            return Err(StorageError::Json(String::from_str("unknown mode")));
        },
    };
    let ts_s = match req_string(&fields, "timestamp") {
        Ok(s) => s,
        Err(e) => {
            proof {
                assert forall|q: QsoView|
                    q.timestamp.wf() && line@ == spec_encode_qso_line(q) implies false by {
                    lemma_qso_fields_get(q);
                }
            }
            return Err(e);
        },
    };
    let timestamp = match parse_timestamp(ts_s.as_str()) {
        Some(t) => t,
        None => {
            proof {
                assert forall|q: QsoView|
                    q.timestamp.wf() && line@ == spec_encode_qso_line(q) implies false by {
                    lemma_qso_fields_get(q);
                }
            }
            return Err(StorageError::Json(String::from_str("malformed timestamp")));
        },
    };
    let comments = match req_string(&fields, "comments") {
        Ok(s) => s,
        Err(e) => {
            proof {
                assert forall|q: QsoView|
                    q.timestamp.wf() && line@ == spec_encode_qso_line(q) implies false by {
                    lemma_qso_fields_get(q);
                }
            }
            return Err(e);
        },
    };
    let their_park = match opt_string(&fields, "their_park") {
        Ok(o) => o,
        Err(e) => {
            proof {
                assert forall|q: QsoView|
                    q.timestamp.wf() && line@ == spec_encode_qso_line(q) implies false by {
                    lemma_qso_fields_get(q);
                }
            }
            return Err(e);
        },
    };
    let their_class = match opt_string(&fields, "their_class") {
        Ok(o) => o,
        Err(e) => {
            proof {
                assert forall|q: QsoView|
                    q.timestamp.wf() && line@ == spec_encode_qso_line(q) implies false by {
                    lemma_qso_fields_get(q);
                }
            }
            return Err(e);
        },
    };
    let their_section = match opt_string(&fields, "their_section") {
        Ok(o) => o,
        Err(e) => {
            proof {
                assert forall|q: QsoView|
                    q.timestamp.wf() && line@ == spec_encode_qso_line(q) implies false by {
                    lemma_qso_fields_get(q);
                }
            }
            return Err(e);
        },
    };
    let out = Qso {
        their_call,
        rst_sent,
        rst_rcvd,
        band,
        mode,
        timestamp,
        comments,
        their_park,
        their_class,
        their_section,
    };
    proof {
        assert forall|q: QsoView|
            q.timestamp.wf() && line@ == spec_encode_qso_line(q) implies out@ == q by {
            lemma_qso_fields_get(q);
            lemma_band_name_roundtrip(q.band);
            lemma_mode_name_roundtrip(q.mode);
        }
    }
    Ok(out)
}



// --- The metadata record ---

/// The stored name of each log type.
pub open spec fn spec_log_type_name(l: LogView) -> Seq<char> {
    match l {
        LogView::General(_) => "General"@,
        LogView::Pota(_, _) => "Pota"@,
        LogView::FieldDay(_, _, _, _, _) => "FieldDay"@,
        LogView::WinterFieldDay(_, _, _, _) => "WinterFieldDay"@,
    }
}

/// The stored name of each power category.
pub open spec fn spec_power_name(p: FdPowerCategory) -> Seq<char> {
    match p {
        FdPowerCategory::Qrp => "Qrp"@,
        FdPowerCategory::Low => "Low"@,
        FdPowerCategory::High => "High"@,
    }
}

/// The field list of a stored metadata record: the shared header fields,
/// the type discriminant, and the contest fields for the two contest
/// types. The contact list is not part of the metadata line.
pub open spec fn spec_meta_fields(l: LogView) -> Seq<(Seq<char>, JsonView)> {
    let h = l.header();
    let base = seq![
        ("station_callsign"@, JsonView::Str(h.station_callsign)),
        ("operator"@, spec_opt_json(h.operator)),
        (
            "park_ref"@,
            spec_opt_json(
                match l {
                    LogView::Pota(_, p) => p,
                    _ => None,
                },
            ),
        ),
        ("grid_square"@, JsonView::Str(h.grid_square)),
        ("created_at"@, JsonView::Str(h.created_at.spec_iso())),
        ("log_id"@, JsonView::Str(h.log_id)),
        ("log_type"@, JsonView::Str(spec_log_type_name(l))),
    ];
    match l {
        LogView::FieldDay(_, tx, class, section, power) => base + seq![
            ("tx_count"@, JsonView::UInt(tx as u64)),
            ("class"@, JsonView::Str(class.spec_letter())),
            ("section"@, JsonView::Str(section)),
            ("power"@, JsonView::Str(spec_power_name(power))),
        ],
        LogView::WinterFieldDay(_, tx, class, section) => base + seq![
            ("tx_count"@, JsonView::UInt(tx as u64)),
            ("class"@, JsonView::Str(class.spec_letter())),
            ("section"@, JsonView::Str(section)),
        ],
        _ => base,
    }
}

/// One stored metadata line (without the line terminator).
pub open spec fn spec_encode_meta_line(l: LogView) -> Seq<char> {
    spec_encode_obj(spec_meta_fields(l))
}

/// Encodes a log's metadata as its stored line.
pub fn encode_meta_line(log: &Log) -> (r: String)
    ensures
        r@ == spec_encode_meta_line(log@),
{
    let header = log.header();
    let mut fields: Vec<(String, Json)> = Vec::new();
    fields.push(
        (String::from_str("station_callsign"), Json::Str(header.station_callsign.clone())),
    );
    fields.push((String::from_str("operator"), opt_json(&header.operator)));
    let park: Json = match log {
        Log::Pota(p) => opt_json(&p.park_ref),
        _ => Json::Null,
    };
    fields.push((String::from_str("park_ref"), park));
    fields.push((String::from_str("grid_square"), Json::Str(header.grid_square.clone())));
    let iso = header.created_at.iso_chars();
    fields.push((String::from_str("created_at"), Json::Str(crate::text::chars_to_string(&iso))));
    fields.push((String::from_str("log_id"), Json::Str(header.log_id.clone())));
    let kind_name: &'static str = match log {
        Log::General(_) => "General",
        Log::Pota(_) => "Pota",
        Log::FieldDay(_) => "FieldDay",
        Log::WinterFieldDay(_) => "WinterFieldDay",
    };
    fields.push((String::from_str("log_type"), Json::Str(String::from_str(kind_name))));
    match log {
        Log::FieldDay(l) => {
            fields.push((String::from_str("tx_count"), Json::UInt(l.tx_count as u64)));
            fields.push(
                (String::from_str("class"), Json::Str(String::from_str(l.class.letter()))),
            );
            fields.push((String::from_str("section"), Json::Str(l.section.clone())));
            let pname: &'static str = match l.power {
                FdPowerCategory::Qrp => "Qrp",
                FdPowerCategory::Low => "Low",
                FdPowerCategory::High => "High",
            };
            fields.push((String::from_str("power"), Json::Str(String::from_str(pname))));
        },
        Log::WinterFieldDay(l) => {
            fields.push((String::from_str("tx_count"), Json::UInt(l.tx_count as u64)));
            fields.push(
                (String::from_str("class"), Json::Str(String::from_str(l.class.letter()))),
            );
            fields.push((String::from_str("section"), Json::Str(l.section.clone())));
        },
        _ => {},
    }
    proof {
        assert(crate::json::fields_view(fields@) =~= spec_meta_fields(log@));
    }
    encode_json_line(&fields)
}

/// The lookups the metadata parser performs on an encoded metadata record.
pub proof fn lemma_meta_fields_get(l: LogView)
    ensures
        spec_get(spec_meta_fields(l), "station_callsign"@) == Some(
            JsonView::Str(l.header().station_callsign),
        ),
        spec_get(spec_meta_fields(l), "operator"@) == Some(spec_opt_json(l.header().operator)),
        spec_get(spec_meta_fields(l), "park_ref"@) == Some(
            spec_opt_json(
                match l {
                    LogView::Pota(_, p) => p,
                    _ => None,
                },
            ),
        ),
        spec_get(spec_meta_fields(l), "grid_square"@) == Some(
            JsonView::Str(l.header().grid_square),
        ),
        spec_get(spec_meta_fields(l), "created_at"@) == Some(
            JsonView::Str(l.header().created_at.spec_iso()),
        ),
        spec_get(spec_meta_fields(l), "log_id"@) == Some(JsonView::Str(l.header().log_id)),
        spec_get(spec_meta_fields(l), "log_type"@) == Some(
            JsonView::Str(spec_log_type_name(l)),
        ),
        l matches LogView::FieldDay(_, tx, class, section, power) ==> {
            &&& spec_get(spec_meta_fields(l), "tx_count"@) == Some(JsonView::UInt(tx as u64))
            &&& spec_get(spec_meta_fields(l), "class"@) == Some(
                JsonView::Str(class.spec_letter()),
            )
            &&& spec_get(spec_meta_fields(l), "section"@) == Some(JsonView::Str(section))
            &&& spec_get(spec_meta_fields(l), "power"@) == Some(
                JsonView::Str(spec_power_name(power)),
            )
        },
        l matches LogView::WinterFieldDay(_, tx, class, section) ==> {
            &&& spec_get(spec_meta_fields(l), "tx_count"@) == Some(JsonView::UInt(tx as u64))
            &&& spec_get(spec_meta_fields(l), "class"@) == Some(
                JsonView::Str(class.spec_letter()),
            )
            &&& spec_get(spec_meta_fields(l), "section"@) == Some(JsonView::Str(section))
        },
{
    reveal_strlit("station_callsign");
    reveal_strlit("operator");
    reveal_strlit("park_ref");
    reveal_strlit("grid_square");
    reveal_strlit("created_at");
    reveal_strlit("log_id");
    reveal_strlit("log_type");
    reveal_strlit("tx_count");
    reveal_strlit("class");
    reveal_strlit("section");
    reveal_strlit("power");
    assert("station_callsign"@ =~= seq!['s', 't', 'a', 't', 'i', 'o', 'n', '_', 'c', 'a', 'l', 'l', 's', 'i', 'g', 'n']);
    assert("operator"@ =~= seq!['o', 'p', 'e', 'r', 'a', 't', 'o', 'r']);
    assert("park_ref"@ =~= seq!['p', 'a', 'r', 'k', '_', 'r', 'e', 'f']);
    assert("grid_square"@ =~= seq!['g', 'r', 'i', 'd', '_', 's', 'q', 'u', 'a', 'r', 'e']);
    assert("created_at"@ =~= seq!['c', 'r', 'e', 'a', 't', 'e', 'd', '_', 'a', 't']);
    assert("log_id"@ =~= seq!['l', 'o', 'g', '_', 'i', 'd']);
    assert("log_type"@ =~= seq!['l', 'o', 'g', '_', 't', 'y', 'p', 'e']);
    assert("tx_count"@ =~= seq!['t', 'x', '_', 'c', 'o', 'u', 'n', 't']);
    assert("class"@ =~= seq!['c', 'l', 'a', 's', 's']);
    assert("section"@ =~= seq!['s', 'e', 'c', 't', 'i', 'o', 'n']);
    assert("power"@ =~= seq!['p', 'o', 'w', 'e', 'r']);
    let fs = spec_meta_fields(l);
    lemma_spec_get_at(fs, 0, "station_callsign"@);
    lemma_spec_get_at(fs, 1, "operator"@);
    lemma_spec_get_at(fs, 2, "park_ref"@);
    lemma_spec_get_at(fs, 3, "grid_square"@);
    lemma_spec_get_at(fs, 4, "created_at"@);
    lemma_spec_get_at(fs, 5, "log_id"@);
    lemma_spec_get_at(fs, 6, "log_type"@);
    match l {
        LogView::FieldDay(_, _, _, _, _) => {
            lemma_spec_get_at(fs, 7, "tx_count"@);
            lemma_spec_get_at(fs, 8, "class"@);
            lemma_spec_get_at(fs, 9, "section"@);
            lemma_spec_get_at(fs, 10, "power"@);
        },
        LogView::WinterFieldDay(_, _, _, _) => {
            lemma_spec_get_at(fs, 7, "tx_count"@);
            lemma_spec_get_at(fs, 8, "class"@);
            lemma_spec_get_at(fs, 9, "section"@);
        },
        _ => {},
    }
}

/// The four stored type names and three power names, spelled out.
pub proof fn lemma_name_contents()
    ensures
        "General"@ =~= seq!['G', 'e', 'n', 'e', 'r', 'a', 'l'],
        "Pota"@ =~= seq!['P', 'o', 't', 'a'],
        "FieldDay"@ =~= seq!['F', 'i', 'e', 'l', 'd', 'D', 'a', 'y'],
        "WinterFieldDay"@ =~= seq![
            'W',
            'i',
            'n',
            't',
            'e',
            'r',
            'F',
            'i',
            'e',
            'l',
            'd',
            'D',
            'a',
            'y',
        ],
        "Qrp"@ =~= seq!['Q', 'r', 'p'],
        "Low"@ =~= seq!['L', 'o', 'w'],
        "High"@ =~= seq!['H', 'i', 'g', 'h'],
{
    reveal_strlit("General");
    reveal_strlit("Pota");
    reveal_strlit("FieldDay");
    reveal_strlit("WinterFieldDay");
    reveal_strlit("Qrp");
    reveal_strlit("Low");
    reveal_strlit("High");
}

impl LogView {
    /// This log with its contact list replaced.
    pub open spec fn with_qsos(self, qs: Seq<QsoView>) -> LogView {
        match self {
            LogView::General(h) => LogView::General(crate::model::log::LogHeaderView { qsos: qs, ..h }),
            LogView::Pota(h, p) => LogView::Pota(
                crate::model::log::LogHeaderView { qsos: qs, ..h },
                p,
            ),
            LogView::FieldDay(h, tx, c, sec, pw) => LogView::FieldDay(
                crate::model::log::LogHeaderView { qsos: qs, ..h },
                tx,
                c,
                sec,
                pw,
            ),
            LogView::WinterFieldDay(h, tx, c, sec) => LogView::WinterFieldDay(
                crate::model::log::LogHeaderView { qsos: qs, ..h },
                tx,
                c,
                sec,
            ),
        }
    }
}

/// The hypothesis of the canonical round-trip clauses: `line` is the
/// encoded metadata of the log view `l`, whose creation instant is in
/// range.
pub open spec fn spec_meta_hyp(l: LogView, line: Seq<char>) -> bool {
    l.header().created_at.wf() && line == spec_encode_meta_line(l)
}

/// The field list of a line that is one complete JSON object.
pub open spec fn spec_line_obj(line: Seq<char>) -> Option<Seq<(Seq<char>, JsonView)>> {
    match crate::json::sp_object(line) {
        Some((fs, rem)) => if rem.len() == 0 {
            Some(fs)
        } else {
            None
        },
        None => None,
    }
}

/// The text of a string field, or empty when absent or not a string.
pub open spec fn spec_str_of(fs: Seq<(Seq<char>, JsonView)>, key: Seq<char>) -> Seq<char> {
    match spec_get(fs, key) {
        Some(JsonView::Str(s)) => s,
        _ => Seq::<char>::empty(),
    }
}

/// The text of an optional field: absent and `null` both mean none.
pub open spec fn spec_opt_of(fs: Seq<(Seq<char>, JsonView)>, key: Seq<char>) -> Option<
    Seq<char>,
> {
    match spec_get(fs, key) {
        Some(JsonView::Str(s)) => Some(s),
        _ => None,
    }
}

/// A metadata object from before the type discriminant existed: no
/// `log_type` field, the required header fields as strings, the optional
/// fields absent, `null`, or strings, and a creation instant in the
/// stored form.
pub open spec fn spec_old_pota_line(line: Seq<char>, fs: Seq<(Seq<char>, JsonView)>) -> bool {
    &&& spec_line_obj(line) == Some(fs)
    &&& spec_get(fs, "log_type"@) is None
    &&& spec_get(fs, "station_callsign"@) matches Some(JsonView::Str(_))
    &&& match spec_get(fs, "operator"@) {
        None => true,
        Some(v) => v is Str || v is Null,
    }
    &&& match spec_get(fs, "park_ref"@) {
        None => true,
        Some(v) => v is Str || v is Null,
    }
    &&& spec_get(fs, "grid_square"@) matches Some(JsonView::Str(_))
    &&& spec_get(fs, "log_id"@) matches Some(JsonView::Str(_))
    &&& (spec_get(fs, "created_at"@) matches Some(JsonView::Str(ca)) && exists|
        t: crate::time::Timestamp,
    | t.wf() && ca == #[trigger] t.spec_iso())
}

/// The shared header fields a metadata object carries, as the reader
/// reconstructs them.
pub open spec fn spec_header_from_fields(
    h: crate::model::log::LogHeaderView,
    fs: Seq<(Seq<char>, JsonView)>,
) -> bool {
    &&& h.station_callsign == spec_str_of(fs, "station_callsign"@)
    &&& h.operator == spec_opt_of(fs, "operator"@)
    &&& h.grid_square == spec_str_of(fs, "grid_square"@)
    &&& h.log_id == spec_str_of(fs, "log_id"@)
    &&& h.created_at.wf()
    &&& h.created_at.spec_iso() == spec_str_of(fs, "created_at"@)
    &&& h.qsos.len() == 0
}

/// What the reader reconstructs from an old-format POTA metadata object.
pub open spec fn spec_old_pota_result(l: LogView, fs: Seq<(Seq<char>, JsonView)>) -> bool {
    l matches LogView::Pota(h, p) && spec_header_from_fields(h, fs) && p == spec_opt_of(
        fs,
        "park_ref"@,
    )
}

/// Extracts the shared header fields, the park reference, and the type
/// discriminant from a parsed metadata object.
#[verifier::rlimit(100)]
fn parse_meta_base(fields: &Vec<(String, Json)>, Ghost(line): Ghost<Seq<char>>) -> (r: Result<
    (LogHeader, Option<String>, Option<String>),
    StorageError,
>)
    requires
        forall|l: LogView| #[trigger] spec_meta_hyp(l, line) ==> fields_view(fields@)
            == spec_meta_fields(l),
        forall|fs: Seq<(Seq<char>, JsonView)>| #[trigger] spec_old_pota_line(line, fs)
            ==> fields_view(fields@) == fs,
    ensures
        forall|l: LogView| #[trigger] spec_meta_hyp(l, line) ==> (r matches Ok(t) && {
            &&& t.0@ == l.with_qsos(Seq::<QsoView>::empty()).header()
            &&& t.1.deep_view() == (match l {
                LogView::Pota(_, p) => p,
                _ => None::<Seq<char>>,
            })
            &&& t.2 matches Some(k) && k@ == spec_log_type_name(l)
        }),
        forall|fs: Seq<(Seq<char>, JsonView)>| #[trigger] spec_old_pota_line(line, fs) ==> (r
            matches Ok(t) && {
            &&& spec_header_from_fields(t.0@, fs)
            &&& t.1.deep_view() == spec_opt_of(fs, "park_ref"@)
            &&& t.2 is None
        }),
{
    let station_callsign = match req_string(fields, "station_callsign") {
        Ok(s) => s,
        Err(e) => {
            proof {
                assert forall|l: LogView| spec_meta_hyp(l, line) implies false by {
                    lemma_meta_fields_get(l);
                }
            }
            return Err(e);
        },
    };
    let operator = match opt_string(fields, "operator") {
        Ok(o) => o,
        Err(e) => {
            proof {
                assert forall|l: LogView| spec_meta_hyp(l, line) implies false by {
                    lemma_meta_fields_get(l);
                }
            }
            return Err(e);
        },
    };
    let park_ref = match opt_string(fields, "park_ref") {
        Ok(o) => o,
        Err(e) => {
            proof {
                assert forall|l: LogView| spec_meta_hyp(l, line) implies false by {
                    lemma_meta_fields_get(l);
                }
            }
            return Err(e);
        },
    };
    let grid_square = match req_string(fields, "grid_square") {
        Ok(s) => s,
        Err(e) => {
            proof {
                assert forall|l: LogView| spec_meta_hyp(l, line) implies false by {
                    lemma_meta_fields_get(l);
                }
            }
            return Err(e);
        },
    };
    let created_s = match req_string(fields, "created_at") {
        Ok(s) => s,
        Err(e) => {
            proof {
                assert forall|l: LogView| spec_meta_hyp(l, line) implies false by {
                    lemma_meta_fields_get(l);
                }
            }
            return Err(e);
        },
    };
    let created_at = match parse_timestamp(created_s.as_str()) {
        Some(t) => t,
        None => {
            proof {
                assert forall|l: LogView| spec_meta_hyp(l, line) implies false by {
                    lemma_meta_fields_get(l);
                }
            }
            return Err(StorageError::Json(String::from_str("malformed created_at")));
        },
    };
    let log_id = match req_string(fields, "log_id") {
        Ok(s) => s,
        Err(e) => {
            proof {
                assert forall|l: LogView| spec_meta_hyp(l, line) implies false by {
                    lemma_meta_fields_get(l);
                }
            }
            return Err(e);
        },
    };
    let kind = match opt_string(fields, "log_type") {
        Ok(o) => o,
        Err(e) => {
            proof {
                assert forall|l: LogView| spec_meta_hyp(l, line) implies false by {
                    lemma_meta_fields_get(l);
                }
            }
            return Err(e);
        },
    };
    let header = LogHeader {
        station_callsign,
        operator,
        grid_square,
        qsos: Vec::new(),
        created_at,
        log_id,
    };
    let out = (header, park_ref, kind);
    proof {
        assert forall|l: LogView| spec_meta_hyp(l, line) implies out.0@ == l.with_qsos(
            Seq::<QsoView>::empty(),
        ).header() && out.1.deep_view() == (match l {
            LogView::Pota(_, p) => p,
            _ => None::<Seq<char>>,
        }) && (out.2 matches Some(k) && k@ == spec_log_type_name(l)) by {
            lemma_meta_fields_get(l);
            assert(out.0@ =~~= l.with_qsos(Seq::<QsoView>::empty()).header());
        }
    }
    Ok(out)
}

/// Builds a contest log from the already-extracted shared header and the
/// contest fields of the metadata object.
#[verifier::rlimit(100)]
fn parse_meta_contest(
    fields: &Vec<(String, Json)>,
    header: LogHeader,
    is_fd: bool,
    Ghost(line): Ghost<Seq<char>>,
) -> (r: Result<Log, StorageError>)
    requires
        forall|l: LogView| #[trigger] spec_meta_hyp(l, line) ==> fields_view(fields@)
            == spec_meta_fields(l),
        forall|l: LogView| #[trigger] spec_meta_hyp(l, line) ==> (l matches LogView::FieldDay(
            _,
            _,
            _,
            _,
            _,
        ) || l matches LogView::WinterFieldDay(_, _, _, _)),
        forall|l: LogView| #[trigger] spec_meta_hyp(l, line) ==> (is_fd <==> l matches
            LogView::FieldDay(_, _, _, _, _)),
        forall|l: LogView| #[trigger] spec_meta_hyp(l, line) ==> header@ == l.with_qsos(
            Seq::<QsoView>::empty(),
        ).header(),
    ensures
        forall|l: LogView| #[trigger] spec_meta_hyp(l, line) ==> (r matches Ok(out) && out@
            == l.with_qsos(Seq::<QsoView>::empty())),
{
    let tx64: u64 = match get_field(fields, "tx_count") {
        Some(Json::UInt(n)) => *n,
        _ => {
            proof {
                assert forall|l: LogView| spec_meta_hyp(l, line) implies false by {
                    lemma_meta_fields_get(l);
                }
            }
            return Err(
                StorageError::CorruptMetadata(String::from_str("missing transmitter count")),
            );
        },
    };
    if tx64 > 255 {
        proof {
            assert forall|l: LogView| spec_meta_hyp(l, line) implies false by {
                lemma_meta_fields_get(l);
            }
        }
        return Err(
            StorageError::CorruptMetadata(String::from_str("transmitter count out of range")),
        );
    }
    let tx_count: u8 = tx64 as u8;
    let class_s = match req_string(fields, "class") {
        Ok(s) => s,
        Err(_) => {
            proof {
                assert forall|l: LogView| spec_meta_hyp(l, line) implies false by {
                    lemma_meta_fields_get(l);
                }
            }
            return Err(StorageError::CorruptMetadata(String::from_str("missing class")));
        },
    };
    let section = match req_string(fields, "section") {
        Ok(s) => s,
        Err(_) => {
            proof {
                assert forall|l: LogView| spec_meta_hyp(l, line) implies false by {
                    lemma_meta_fields_get(l);
                }
            }
            return Err(StorageError::CorruptMetadata(String::from_str("missing section")));
        },
    };
    if is_fd {
        let class = match parse_fd_class(class_s.as_str()) {
            Ok(c) => c,
            Err(_) => {
                proof {
                    assert forall|l: LogView| spec_meta_hyp(l, line) implies false by {
                        lemma_meta_fields_get(l);
                        match l {
                            LogView::FieldDay(_, _, c, _, _) => {
                                lemma_fd_letter_roundtrip(c);
                            },
                            _ => {},
                        }
                    }
                }
                return Err(
                    StorageError::CorruptMetadata(String::from_str("unknown class letter")),
                );
            },
        };
        let power = match opt_string(fields, "power") {
            Ok(Some(p)) => {
                if crate::text::str_eq(p.as_str(), "Qrp") {
                    FdPowerCategory::Qrp
                } else if crate::text::str_eq(p.as_str(), "Low") {
                    FdPowerCategory::Low
                } else if crate::text::str_eq(p.as_str(), "High") {
                    FdPowerCategory::High
                } else {
                    proof {
                        assert forall|l: LogView| spec_meta_hyp(l, line) implies false by {
                            lemma_meta_fields_get(l);
                            lemma_name_contents();
                        }
                    }
                    return Err(
                        StorageError::CorruptMetadata(String::from_str("unknown power category")),
                    );
                }
            },
            // Older contest records may predate the power field.
            Ok(None) => FdPowerCategory::Low,
            Err(_) => {
                proof {
                    assert forall|l: LogView| spec_meta_hyp(l, line) implies false by {
                        lemma_meta_fields_get(l);
                    }
                }
                return Err(
                    StorageError::CorruptMetadata(String::from_str("malformed power category")),
                );
            },
        };
        let out = Log::FieldDay(
            crate::model::log::FieldDayLog { header, tx_count, class, section, power },
        );
        proof {
            assert forall|l: LogView| spec_meta_hyp(l, line) implies out@ == l.with_qsos(
                Seq::<QsoView>::empty(),
            ) by {
                lemma_meta_fields_get(l);
                lemma_name_contents();
                match l {
                    LogView::FieldDay(_, _, c, _, _) => {
                        lemma_fd_letter_roundtrip(c);
                    },
                    _ => {},
                }
                assert(out@ =~~= l.with_qsos(Seq::<QsoView>::empty()));
            }
        }
        Ok(out)
    } else {
        let class = match parse_wfd_class(class_s.as_str()) {
            Ok(c) => c,
            Err(_) => {
                proof {
                    assert forall|l: LogView| spec_meta_hyp(l, line) implies false by {
                        lemma_meta_fields_get(l);
                        match l {
                            LogView::WinterFieldDay(_, _, c, _) => {
                                lemma_wfd_letter_roundtrip(c);
                            },
                            _ => {},
                        }
                    }
                }
                return Err(
                    StorageError::CorruptMetadata(String::from_str("unknown class letter")),
                );
            },
        };
        let out = Log::WinterFieldDay(WfdLog { header, tx_count, class, section });
        proof {
            assert forall|l: LogView| spec_meta_hyp(l, line) implies out@ == l.with_qsos(
                Seq::<QsoView>::empty(),
            ) by {
                lemma_meta_fields_get(l);
                match l {
                    LogView::WinterFieldDay(_, _, c, _) => {
                        lemma_wfd_letter_roundtrip(c);
                    },
                    _ => {},
                }
                assert(out@ =~~= l.with_qsos(Seq::<QsoView>::empty()));
            }
        }
        Ok(out)
    }
}

/// Parses one stored metadata line into a log with an empty contact list.
///
/// Parsing the metadata line of any log whose creation instant is well
/// formed yields that log with its contacts removed. A record without a
/// `log_type` field is read as a POTA log, for files written before the
/// discriminant existed: any such object with the shared header fields in
/// place yields a POTA log carrying them.
#[verifier::rlimit(100)]
pub fn parse_meta_line(line: &str) -> (r: Result<Log, StorageError>)
    ensures
        forall|l: LogView|
            spec_meta_hyp(l, line@) ==> (r matches Ok(out) && out@ == l.with_qsos(
                Seq::<QsoView>::empty(),
            )),
        forall|fs: Seq<(Seq<char>, JsonView)>|
            spec_old_pota_line(line@, fs) ==> (r matches Ok(out) && spec_old_pota_result(
                out@,
                fs,
            )),
{
    let fields = match parse_json_line(line) {
        Some(f) => f,
        None => {
            proof {
                assert forall|l: LogView| spec_meta_hyp(l, line@) implies false by {
                    lemma_object_roundtrip(spec_meta_fields(l), Seq::<char>::empty());
                    assert(spec_encode_obj(spec_meta_fields(l)) + Seq::<char>::empty() =~= line@);
                }
            }
            return Err(StorageError::Json(String::from_str("line is not a JSON object")));
        },
    };
    proof {
        assert forall|l: LogView| #[trigger] spec_meta_hyp(l, line@) implies fields_view(fields@)
            == spec_meta_fields(l) by {
            lemma_object_roundtrip(spec_meta_fields(l), Seq::<char>::empty());
            assert(spec_encode_obj(spec_meta_fields(l)) + Seq::<char>::empty() =~= line@);
        }
        assert forall|fs: Seq<(Seq<char>, JsonView)>|
            #[trigger] spec_old_pota_line(line@, fs) implies fields_view(fields@) == fs by {}
    }
    let base = match parse_meta_base(&fields, Ghost(line@)) {
        Ok(t) => t,
        Err(e) => {
            return Err(e);
        },
    };
    let (header, park_ref, kind) = base;
    // Absent discriminant: the oldest files are POTA logs.
    let is_pota = match &kind {
        None => true,
        Some(k) => crate::text::str_eq(k.as_str(), "Pota"),
    };
    if is_pota {
        let out = Log::Pota(PotaLog { header, park_ref });
        proof {
            assert forall|l: LogView| spec_meta_hyp(l, line@) implies out@ == l.with_qsos(
                Seq::<QsoView>::empty(),
            ) by {
                lemma_name_contents();
                assert(out@ =~~= l.with_qsos(Seq::<QsoView>::empty()));
            }
            assert forall|fs: Seq<(Seq<char>, JsonView)>|
                spec_old_pota_line(line@, fs) implies spec_old_pota_result(out@, fs) by {}
        }
        return Ok(out);
    }
    proof {
        // An old-format object has no discriminant, so the POTA branch
        // above already returned.
        assert forall|fs: Seq<(Seq<char>, JsonView)>|
            spec_old_pota_line(line@, fs) implies false by {}
    }
    let k = kind.unwrap();
    if crate::text::str_eq(k.as_str(), "General") {
        let out = Log::General(GeneralLog { header });
        proof {
            assert forall|l: LogView| spec_meta_hyp(l, line@) implies out@ == l.with_qsos(
                Seq::<QsoView>::empty(),
            ) by {
                lemma_name_contents();
                assert(out@ =~~= l.with_qsos(Seq::<QsoView>::empty()));
            }
        }
        Ok(out)
    } else if crate::text::str_eq(k.as_str(), "FieldDay") || crate::text::str_eq(
        k.as_str(),
        "WinterFieldDay",
    ) {
        let is_fd = crate::text::str_eq(k.as_str(), "FieldDay");
        proof {
            assert forall|l: LogView| #[trigger] spec_meta_hyp(l, line@) implies (l matches
                LogView::FieldDay(_, _, _, _, _) || l matches LogView::WinterFieldDay(
                _,
                _,
                _,
                _,
            )) && (is_fd <==> l matches LogView::FieldDay(_, _, _, _, _)) && header@
                == l.with_qsos(Seq::<QsoView>::empty()).header() by {
                lemma_name_contents();
            }
        }
        parse_meta_contest(&fields, header, is_fd, Ghost(line@))
    } else {
        proof {
            assert forall|l: LogView| spec_meta_hyp(l, line@) implies false by {
                lemma_name_contents();
            }
        }
        Err(StorageError::CorruptMetadata(String::from_str("unknown log type")))
    }
}

/// Reading a Field Day class letter back gives the class.
pub proof fn lemma_fd_letter_roundtrip(c: FdClass)
    ensures
        spec_parse_fd_class(c.spec_letter()) == Some(c),
{
    reveal_strlit("A");
    reveal_strlit("B");
    reveal_strlit("C");
    reveal_strlit("D");
    reveal_strlit("E");
    reveal_strlit("F");
    assert("A"@ =~= seq!['A']);
    assert("B"@ =~= seq!['B']);
    assert("C"@ =~= seq!['C']);
    assert("D"@ =~= seq!['D']);
    assert("E"@ =~= seq!['E']);
    assert("F"@ =~= seq!['F']);
}

/// Reading a Winter Field Day class letter back gives the class.
pub proof fn lemma_wfd_letter_roundtrip(c: WfdClass)
    ensures
        spec_parse_wfd_class(c.spec_letter()) == Some(c),
{
    reveal_strlit("H");
    reveal_strlit("I");
    reveal_strlit("O");
    reveal_strlit("M");
    assert("H"@ =~= seq!['H']);
    assert("I"@ =~= seq!['I']);
    assert("O"@ =~= seq!['O']);
    assert("M"@ =~= seq!['M']);
}

// --- The whole file ---

/// The index of the first newline in `s`, or `s.len()` if there is none.
pub open spec fn spec_first_nl(s: Seq<char>) -> nat
    decreases s.len(),
{
    if s.len() == 0 {
        0
    } else if s[0] == '\n' {
        0
    } else {
        1 + spec_first_nl(s.drop_first())
    }
}

/// The first-newline index never passes the end.
pub proof fn lemma_first_nl_le(s: Seq<char>)
    ensures
        spec_first_nl(s) <= s.len(),
    decreases s.len(),
{
    if s.len() > 0 && s[0] != '\n' {
        lemma_first_nl_le(s.drop_first());
    }
}

/// If no newline appears before `k` and `k` is a newline or the end, the
/// first newline is at `k`.
pub proof fn lemma_first_nl_at(s: Seq<char>, k: int)
    requires
        0 <= k <= s.len(),
        forall|t: int| 0 <= t < k ==> #[trigger] s[t] != '\n',
        k < s.len() ==> s[k] == '\n',
    ensures
        spec_first_nl(s) == k,
    decreases s.len(),
{
    if k == 0 {
    } else {
        assert(s[0] != '\n');
        assert forall|t: int| 0 <= t < k - 1 implies #[trigger] s.drop_first()[t] != '\n' by {
            assert(s.drop_first()[t] == s[t + 1]);
        }
        if k - 1 < s.drop_first().len() {
            assert(s.drop_first()[k - 1] == s[k]);
        }
        lemma_first_nl_at(s.drop_first(), k - 1);
    }
}

/// The lines of a text: maximal newline-free runs. A trailing newline does
/// not add an empty final line.
pub open spec fn spec_split_lines(s: Seq<char>) -> Seq<Seq<char>>
    decreases s.len(),
    via spec_split_lines_decreases
{
    if s.len() == 0 {
        Seq::<Seq<char>>::empty()
    } else {
        let i = spec_first_nl(s);
        if i == s.len() {
            seq![s]
        } else {
            seq![s.subrange(0, i as int)] + spec_split_lines(s.skip(i as int + 1))
        }
    }
}

#[via_fn]
proof fn spec_split_lines_decreases(s: Seq<char>) {
    lemma_first_nl_le(s);
}

/// Splitting text that begins with a newline-free line, a newline, and a
/// remainder yields that line and the remainder's lines.
pub proof fn lemma_split_first(a: Seq<char>, b: Seq<char>)
    requires
        forall|t: int| 0 <= t < a.len() ==> #[trigger] a[t] != '\n',
    ensures
        spec_split_lines(a + seq!['\n'] + b) == seq![a] + spec_split_lines(b),
{
    let s = a + seq!['\n'] + b;
    assert forall|t: int| 0 <= t < a.len() implies #[trigger] s[t] != '\n' by {
        assert(s[t] == a[t]);
    }
    assert(s[a.len() as int] == '\n');
    lemma_first_nl_at(s, a.len() as int);
    assert(s.subrange(0, a.len() as int) =~= a);
    assert(s.skip(a.len() as int + 1) =~= b);
    assert(seq![s.subrange(0, a.len() as int)] + spec_split_lines(s.skip(a.len() as int + 1))
        =~= seq![a] + spec_split_lines(b));
}

/// No character of the sequence is a newline.
pub open spec fn spec_no_nl(s: Seq<char>) -> bool {
    forall|t: int| 0 <= t < s.len() ==> #[trigger] s[t] != '\n'
}

/// Escaped string contents never hold a raw newline.
pub proof fn lemma_escape_no_nl(s: Seq<char>)
    ensures
        spec_no_nl(crate::json::spec_escape(s)),
    decreases s.len(),
{
    if s.len() > 0 {
        lemma_escape_no_nl(s.drop_first());
        let e = crate::json::spec_escape_char(s[0]);
        assert forall|t: int|
            0 <= t < crate::json::spec_escape(s).len() implies #[trigger] crate::json::spec_escape(
            s,
        )[t] != '\n' by {
            if t < e.len() {
                assert(crate::json::spec_escape(s)[t] == e[t]);
                crate::text::lemma_spec_dec_digits(0);
            } else {
                assert(crate::json::spec_escape(s)[t] == crate::json::spec_escape(
                    s.drop_first(),
                )[t - e.len()]);
            }
        }
    }
}

/// An encoded value never holds a raw newline.
pub proof fn lemma_value_no_nl(v: JsonView)
    ensures
        spec_no_nl(crate::json::spec_encode_value(v)),
{
    match v {
        JsonView::Null => {
            reveal_strlit("null");
            assert("null"@ =~= seq!['n', 'u', 'l', 'l']);
        },
        JsonView::Str(s) => {
            lemma_escape_no_nl(s);
        },
        JsonView::UInt(n) => {
            crate::text::lemma_spec_dec_digits(n as nat);
        },
    }
}

/// An encoded member list never holds a raw newline.
pub proof fn lemma_fields_no_nl(fs: Seq<(Seq<char>, JsonView)>)
    ensures
        spec_no_nl(crate::json::spec_encode_fields(fs)),
    decreases fs.len(),
{
    if fs.len() == 0 {
    } else {
        lemma_escape_no_nl(fs[0].0);
        lemma_value_no_nl(fs[0].1);
        if fs.len() > 1 {
            lemma_fields_no_nl(fs.drop_first());
        }
    }
}

/// An encoded object never holds a raw newline.
pub proof fn lemma_obj_no_nl(fs: Seq<(Seq<char>, JsonView)>)
    ensures
        spec_no_nl(spec_encode_obj(fs)),
{
    lemma_fields_no_nl(fs);
}

/// The stored text of a log's contacts: one encoded line and a newline per
/// contact, in order.
pub open spec fn spec_qso_lines(qsos: Seq<QsoView>) -> Seq<char>
    decreases qsos.len(),
{
    if qsos.len() == 0 {
        Seq::<char>::empty()
    } else {
        spec_encode_qso_line(qsos[0]) + seq!['\n'] + spec_qso_lines(qsos.drop_first())
    }
}

/// The stored text of a whole log: the metadata line, then one line per
/// contact, each newline-terminated.
pub open spec fn spec_encode_log(l: LogView) -> Seq<char> {
    spec_encode_meta_line(l) + seq!['\n'] + spec_qso_lines(l.header().qsos)
}

/// The line list of a stored log: the metadata line, then the contact
/// lines.
pub proof fn lemma_log_lines(l: LogView)
    ensures
        spec_split_lines(spec_encode_log(l)) == seq![spec_encode_meta_line(l)] + Seq::new(
            l.header().qsos.len(),
            |i: int| spec_encode_qso_line(l.header().qsos[i]),
        ),
{
    lemma_obj_no_nl(spec_meta_fields(l));
    lemma_split_first(spec_encode_meta_line(l), spec_qso_lines(l.header().qsos));
    assert(spec_encode_log(l) =~= spec_encode_meta_line(l) + seq!['\n'] + spec_qso_lines(
        l.header().qsos,
    ));
    lemma_qso_lines_split(l.header().qsos);
}

/// The line list of a contact text block.
pub proof fn lemma_qso_lines_split(qsos: Seq<QsoView>)
    ensures
        spec_split_lines(spec_qso_lines(qsos)) == Seq::new(
            qsos.len(),
            |i: int| spec_encode_qso_line(qsos[i]),
        ),
    decreases qsos.len(),
{
    if qsos.len() == 0 {
        assert(spec_split_lines(spec_qso_lines(qsos)) =~= Seq::new(
            qsos.len(),
            |i: int| spec_encode_qso_line(qsos[i]),
        ));
    } else {
        lemma_qso_lines_split(qsos.drop_first());
        lemma_obj_no_nl(spec_qso_fields(qsos[0]));
        lemma_split_first(spec_encode_qso_line(qsos[0]), spec_qso_lines(qsos.drop_first()));
        assert(seq![spec_encode_qso_line(qsos[0])] + Seq::new(
            qsos.drop_first().len(),
            |i: int| spec_encode_qso_line(qsos.drop_first()[i]),
        ) =~= Seq::new(qsos.len(), |i: int| spec_encode_qso_line(qsos[i])));
    }
}

/// Encodes a whole log as its stored text.
pub fn encode_log_file(log: &Log) -> (r: String)
    ensures
        r@ == spec_encode_log(log@),
{
    let ghost qv = log@.header().qsos;
    let mut r = encode_meta_line(log);
    crate::text::push_char(&mut r, '\n');
    let header = log.header();
    let n = header.qsos.len();
    let mut i: usize = 0;
    proof {
        assert(qv.skip(0) =~= qv);
        assert(r@ =~= spec_encode_meta_line(log@) + seq!['\n']);
    }
    while i < n
        invariant
            i <= n,
            n == log.spec_header().qsos@.len(),
            qv == log@.header().qsos,
            qv.len() == n,
            header == &log.spec_header(),
            forall|k: int| 0 <= k < n ==> qv[k] == #[trigger] log.spec_header().qsos@[k]@,
            r@ + spec_qso_lines(qv.skip(i as int)) == spec_encode_log(log@),
        decreases n - i,
    {
        let line = encode_qso_line(&header.qsos[i]);
        r.append(line.as_str());
        crate::text::push_char(&mut r, '\n');
        proof {
            let rest = qv.skip(i as int);
            assert(rest[0] == qv[i as int]);
            assert(rest.drop_first() =~= qv.skip(i as int + 1));
            assert(r@ + spec_qso_lines(qv.skip(i as int + 1)) =~= spec_encode_log(log@));
        }
        i = i + 1;
    }
    proof {
        assert(qv.skip(n as int) =~= Seq::<QsoView>::empty());
        assert(r@ =~= spec_encode_log(log@));
    }
    r
}

/// Splits text into lines at newlines; a trailing newline does not add an
/// empty final line.
pub fn split_lines(text: &str) -> (r: Vec<String>)
    ensures
        r@.map_values(|x: String| x@) == spec_split_lines(text@),
{
    let v = crate::text::str_to_chars(text);
    let mut out: Vec<String> = Vec::new();
    split_lines_from(&v, 0, &mut out);
    proof {
        assert(v@.skip(0) =~= text@);
        assert(out@.map_values(|x: String| x@) =~= Seq::<Seq<char>>::empty() + out@.map_values(
            |x: String| x@,
        ));
    }
    out
}

/// Appends the lines of `v[i..]` to `out`.
fn split_lines_from(v: &Vec<char>, i: usize, out: &mut Vec<String>)
    requires
        i <= v@.len(),
    ensures
        final(out)@.map_values(|x: String| x@) == old(out)@.map_values(|x: String| x@)
            + spec_split_lines(v@.skip(i as int)),
    decreases v@.len() - i,
{
    let ghost s = v@.skip(i as int);
    if i == v.len() {
        proof {
            assert(out@.map_values(|x: String| x@) =~= old(out)@.map_values(|x: String| x@)
                + spec_split_lines(s));
        }
        return ;
    }
    let mut j: usize = i;
    while j < v.len() && v[j] != '\n'
        invariant
            i <= j <= v@.len(),
            forall|t: int| i <= t < j ==> #[trigger] v@[t] != '\n',
        decreases v@.len() - j,
    {
        j = j + 1;
    }
    proof {
        assert forall|t: int| 0 <= t < j - i implies #[trigger] s[t] != '\n' by {
            assert(s[t] == v@[i + t]);
        }
        if j < v@.len() {
            assert(s[j - i] == v@[j as int]);
        }
        lemma_first_nl_at(s, j - i);
    }
    let mut line: Vec<char> = Vec::new();
    let mut t: usize = i;
    while t < j
        invariant
            i <= t <= j <= v@.len(),
            line@ =~= v@.subrange(i as int, t as int),
        decreases j - t,
    {
        line.push(v[t]);
        t = t + 1;
        proof {
            assert(line@ =~= v@.subrange(i as int, t as int));
        }
    }
    let line_s = crate::text::chars_to_string(&line);
    out.push(line_s);
    let ghost mid = out@;
    if j == v.len() {
        proof {
            assert(s.subrange(0, (j - i) as int) =~= s);
            assert(line@ =~= s);
            assert(spec_split_lines(s) =~= seq![s]);
            assert(out@.map_values(|x: String| x@) =~= old(out)@.map_values(|x: String| x@)
                + spec_split_lines(s));
        }
    } else {
        proof {
            assert(v@.skip(j as int + 1) =~= s.skip((j - i) as int + 1));
            assert(line@ =~= s.subrange(0, (j - i) as int));
        }
        split_lines_from(v, j + 1, out);
        proof {
            assert(mid.map_values(|x: String| x@) =~= old(out)@.map_values(|x: String| x@) + seq![
                s.subrange(0, (j - i) as int),
            ]);
            assert(out@.map_values(|x: String| x@) =~= old(out)@.map_values(|x: String| x@)
                + spec_split_lines(s));
        }
    }
}

/// Whether every instant a log carries is in calendar range.
pub open spec fn spec_log_times_wf(l: LogView) -> bool {
    l.header().created_at.wf() && forall|i: int|
        0 <= i < l.header().qsos.len() ==> (#[trigger] l.header().qsos[i]).timestamp.wf()
}

/// Parses a whole stored log file.
///
/// Line 1 is the metadata record; every further line is one contact,
/// parsed independently, failing on the first malformed line. The storage
/// round trip holds: parsing the encoding of any log whose timestamps are
/// in range yields a log with identical contents.
#[verifier::rlimit(60)]
pub fn parse_log_file(text: &str, path: &str) -> (r: Result<Log, StorageError>)
    ensures
        forall|l: LogView|
            spec_log_times_wf(l) && text@ == spec_encode_log(l) ==> (r matches Ok(out) && out@
                == l),
        text@.len() == 0 ==> (r matches Err(e) && e matches StorageError::EmptyLogFile(p) && p@
            == path@),
{
    let lines = split_lines(text);
    proof {
        assert forall|l: LogView|
            spec_log_times_wf(l) && text@ == spec_encode_log(l) implies lines@.map_values(
            |x: String| x@,
        ) == seq![spec_encode_meta_line(l)] + Seq::new(
            l.header().qsos.len(),
            |i: int| spec_encode_qso_line(l.header().qsos[i]),
        ) by {
            lemma_log_lines(l);
        }
    }
    proof {
        assert(lines@.map_values(|x: String| x@).len() == lines@.len());
        if text@.len() == 0 {
            assert(spec_split_lines(text@) =~= Seq::<Seq<char>>::empty());
            assert(lines@.len() == 0);
        }
        if lines@.len() == 0 {
            assert(spec_split_lines(text@).len() == 0);
            if text@.len() > 0 {
                lemma_first_nl_le(text@);
                assert(spec_split_lines(text@).len() > 0);
            }
        }
    }
    if lines.len() == 0 {
        proof {
            assert forall|l: LogView|
                spec_log_times_wf(l) && text@ == spec_encode_log(l) implies false by {
                lemma_log_lines(l);
            }
        }
        return Err(StorageError::EmptyLogFile(String::from_str(path)));
    }
    proof {
        // A zero-length text has zero lines and returned above.
        assert(text@.len() > 0);
    }
    let mut log = match parse_meta_line(lines[0].as_str()) {
        Ok(lg) => lg,
        Err(e) => {
            proof {
                assert forall|l: LogView|
                    spec_log_times_wf(l) && text@ == spec_encode_log(l) implies false by {
                    assert(lines@.map_values(|x: String| x@)[0] == lines@[0]@);
                    assert(spec_meta_hyp(l, lines@[0]@));
                }
            }
            return Err(e);
        },
    };
    proof {
        assert forall|l: LogView|
            spec_log_times_wf(l) && text@ == spec_encode_log(l) implies log@ == l.with_qsos(
            l.header().qsos.subrange(0, 0),
        ) && lines@.len() == 1 + l.header().qsos.len() by {
            assert(lines@.map_values(|x: String| x@)[0] == lines@[0]@);
            assert(spec_meta_hyp(l, lines@[0]@));
            assert(l.header().qsos.subrange(0, 0) =~= Seq::<QsoView>::empty());
            assert(lines@.map_values(|x: String| x@).len() == lines@.len());
        }
    }
    let mut i: usize = 1;
    while i < lines.len()
        invariant
            text@.len() > 0,
            1 <= i <= lines@.len(),
            forall|l: LogView|
                spec_log_times_wf(l) && text@ == spec_encode_log(l) ==> {
                    &&& #[trigger] spec_log_times_wf(l)
                    &&& lines@.map_values(|x: String| x@) == seq![spec_encode_meta_line(l)]
                        + Seq::new(
                        l.header().qsos.len(),
                        |k: int| spec_encode_qso_line(l.header().qsos[k]),
                    )
                    &&& lines@.len() == 1 + l.header().qsos.len()
                    &&& log@ == l.with_qsos(l.header().qsos.subrange(0, i - 1))
                },
        decreases lines@.len() - i,
    {
        let q = match parse_qso_line(lines[i].as_str()) {
            Ok(q) => q,
            Err(e) => {
                proof {
                    assert forall|l: LogView|
                        spec_log_times_wf(l) && text@ == spec_encode_log(l) implies false by {
                        assert(lines@.map_values(|x: String| x@)[i as int] == lines@[i as int]@);
                        assert(lines@[i as int]@ == spec_encode_qso_line(
                            l.header().qsos[i - 1],
                        ));
                    }
                }
                return Err(e);
            },
        };
        log.add_qso(q);
        proof {
            assert forall|l: LogView|
                spec_log_times_wf(l) && text@ == spec_encode_log(l) implies log@ == l.with_qsos(
                l.header().qsos.subrange(0, i as int),
            ) by {
                assert(lines@.map_values(|x: String| x@)[i as int] == lines@[i as int]@);
                assert(lines@[i as int]@ == spec_encode_qso_line(l.header().qsos[i - 1]));
                assert(l.header().qsos.subrange(0, i as int) =~= l.header().qsos.subrange(
                    0,
                    i - 1,
                ).push(l.header().qsos[i - 1]));
                assert(log@ =~~= l.with_qsos(l.header().qsos.subrange(0, i as int)));
            }
        }
        i = i + 1;
    }
    proof {
        assert forall|l: LogView|
            spec_log_times_wf(l) && text@ == spec_encode_log(l) implies log@ == l by {
            assert(l.header().qsos.subrange(0, lines@.len() - 1) =~= l.header().qsos);
            assert(l.with_qsos(l.header().qsos) =~~= l);
        }
    }
    Ok(log)
}

// --- The manager ---

/// The on-disk form of a log id: every `/` becomes `_`, so a callsign such
/// as `W1AW/P` cannot escape the logs directory.
pub open spec fn spec_safe_id(s: Seq<char>) -> Seq<char> {
    s.map_values(
        |c: char|
            if c == '/' {
                '_'
            } else {
                c
            },
    )
}

/// Manages one directory of stored logs. The manager computes paths,
/// encodes and parses records, and decides duplicates; the thin outer
/// shell performs the reads and writes.
#[derive(Debug)]
pub struct LogManager {
    pub base_path: String,
}

impl LogManager {
    /// Creates a manager rooted at the given directory path.
    pub fn new(base_path: String) -> (r: LogManager)
        ensures
            r.base_path@ == base_path@,
    {
        LogManager { base_path }
    }

    /// Returns the file path for a given log id: the base directory, the
    /// id with every `/` replaced by `_`, and the `.jsonl` extension.
    pub fn log_path(&self, log_id: &str) -> (r: String)
        ensures
            r@ == self.base_path@ + "/"@ + spec_safe_id(log_id@) + ".jsonl"@,
    {
        let mut r = self.base_path.clone();
        r.append("/");
        let v = crate::text::str_to_chars(log_id);
        let mut safe: Vec<char> = Vec::new();
        let mut i: usize = 0;
        while i < v.len()
            invariant
                i <= v.len(),
                v@ == log_id@,
                safe@ =~= spec_safe_id(log_id@).subrange(0, i as int),
            decreases v.len() - i,
        {
            if v[i] == '/' {
                safe.push('_');
            } else {
                safe.push(v[i]);
            }
            i = i + 1;
            proof {
                assert(safe@ =~= spec_safe_id(log_id@).subrange(0, i as int));
            }
        }
        proof {
            assert(safe@ =~= spec_safe_id(log_id@));
        }
        crate::text::push_chars(&mut r, &safe);
        r.append(".jsonl");
        r
    }
}

/// Case-insensitive equality of two optional callsign-like fields: absent
/// matches only absent; two present values compare case-insensitively.
pub open spec fn spec_opt_eq_ci(a: Option<Seq<char>>, b: Option<Seq<char>>) -> bool {
    match (a, b) {
        (None, None) => true,
        (Some(x), Some(y)) => crate::text::spec_lower(x) == crate::text::spec_lower(y),
        _ => false,
    }
}

/// Returns `true` if two operator fields represent the same operator.
///
/// `None` matches `None`; two `Some` values are compared case-insensitively.
pub fn operator_eq(a: &Option<String>, b: &Option<String>) -> (r: bool)
    ensures
        r == spec_opt_eq_ci(a.deep_view(), b.deep_view()),
{
    match (a, b) {
        (None, None) => true,
        (Some(x), Some(y)) => {
            let lx = crate::text::lower_string(x.as_str());
            let ly = crate::text::lower_string(y.as_str());
            lx.eq(&ly)
        },
        _ => false,
    }
}

/// Returns `true` if two park reference fields represent the same park.
///
/// `None` matches `None`; two `Some` values are compared case-insensitively.
/// Logs with different park references are always distinct, so multiple
/// park activations can be logged from one location on one day.
pub fn park_ref_eq(a: &Option<String>, b: &Option<String>) -> (r: bool)
    ensures
        r == spec_opt_eq_ci(a.deep_view(), b.deep_view()),
{
    match (a, b) {
        (None, None) => true,
        (Some(x), Some(y)) => {
            let lx = crate::text::lower_string(x.as_str());
            let ly = crate::text::lower_string(y.as_str());
            lx.eq(&ly)
        },
        _ => false,
    }
}

/// Same log-type variant with equivalent type-specific configuration.
/// Logs of different types are never duplicates; two POTA logs match only
/// on equivalent park references (absent matches only absent, so different
/// parks are never duplicates); two contest logs match only on the same
/// transmitter count, class, power category, and section (sections compare
/// case-insensitively); any two general logs match.
pub open spec fn spec_config_eq(a: LogView, b: LogView) -> bool {
    match (a, b) {
        (LogView::Pota(_, pa), LogView::Pota(_, pb)) => spec_opt_eq_ci(pa, pb),
        (LogView::General(_), LogView::General(_)) => true,
        (
            LogView::FieldDay(_, txa, ca, sa, pa),
            LogView::FieldDay(_, txb, cb, sb, pb),
        ) => txa == txb && ca == cb && crate::text::spec_lower(sa) == crate::text::spec_lower(sb)
            && pa == pb,
        (
            LogView::WinterFieldDay(_, txa, ca, sa),
            LogView::WinterFieldDay(_, txb, cb, sb),
        ) => txa == txb && ca == cb && crate::text::spec_lower(sa) == crate::text::spec_lower(sb),
        _ => false,
    }
}

/// Returns `true` if two logs have the same type-specific configuration.
pub fn log_config_eq(a: &Log, b: &Log) -> (r: bool)
    ensures
        r == spec_config_eq(a@, b@),
{
    match (a, b) {
        (Log::Pota(pa), Log::Pota(pb)) => park_ref_eq(&pa.park_ref, &pb.park_ref),
        (Log::General(_), Log::General(_)) => true,
        (Log::FieldDay(x), Log::FieldDay(y)) => {
            let sx = crate::text::lower_string(x.section.as_str());
            let sy = crate::text::lower_string(y.section.as_str());
            x.tx_count == y.tx_count && x.class == y.class && sx.eq(&sy) && x.power == y.power
        },
        (Log::WinterFieldDay(x), Log::WinterFieldDay(y)) => {
            let sx = crate::text::lower_string(x.section.as_str());
            let sy = crate::text::lower_string(y.section.as_str());
            x.tx_count == y.tx_count && x.class == y.class && sx.eq(&sy)
        },
        _ => false,
    }
}

/// Whether an existing log makes a new one a duplicate session: same UTC
/// creation day, same station callsign (case-insensitively), equivalent
/// operator, same grid square (case-insensitively), and the same
/// type-specific configuration.
pub open spec fn spec_is_duplicate(existing: LogView, new_log: LogView) -> bool {
    &&& existing.header().created_at.spec_date() == new_log.header().created_at.spec_date()
    &&& crate::text::spec_lower(existing.header().station_callsign) == crate::text::spec_lower(
        new_log.header().station_callsign,
    )
    &&& spec_opt_eq_ci(existing.header().operator, new_log.header().operator)
    &&& crate::text::spec_lower(existing.header().grid_square) == crate::text::spec_lower(
        new_log.header().grid_square,
    )
    &&& spec_config_eq(existing, new_log)
}

/// Returns `true` if `existing` makes `new_log` a duplicate session.
pub fn is_duplicate_log(existing: &Log, new_log: &Log) -> (r: bool)
    ensures
        r == spec_is_duplicate(existing@, new_log@),
{
    let eh = existing.header();
    let nh = new_log.header();
    let date_eq = eh.created_at.date() == nh.created_at.date();
    let cs_eq = crate::text::lower_string(eh.station_callsign.as_str()).eq(
        &crate::text::lower_string(nh.station_callsign.as_str()),
    );
    date_eq && cs_eq && operator_eq(&eh.operator, &nh.operator) && crate::text::lower_string(
        eh.grid_square.as_str(),
    ).eq(&crate::text::lower_string(nh.grid_square.as_str())) && log_config_eq(existing, new_log)
}

/// Duplicate-checked creation: rejects the new log if and only if some
/// existing log matches it on creation day, station callsign, operator,
/// grid square, and type-specific configuration (all per
/// [`spec_is_duplicate`]); the error carries the new log's callsign and
/// UTC creation date.
pub fn duplicate_check(existing: &Vec<Log>, new_log: &Log) -> (r: Result<(), StorageError>)
    ensures
        r is Err <==> exists|i: int|
            0 <= i < existing@.len() && spec_is_duplicate(#[trigger] existing@[i]@, new_log@),
        r matches Err(e) ==> (e matches StorageError::DuplicateLog { callsign, date }
            && callsign@ == new_log.spec_header().station_callsign@ && date
            == new_log.spec_header().created_at.spec_date()),
{
    let mut i: usize = 0;
    while i < existing.len()
        invariant
            i <= existing@.len(),
            forall|k: int|
                0 <= k < i ==> !spec_is_duplicate(#[trigger] existing@[k]@, new_log@),
        decreases existing@.len() - i,
    {
        if is_duplicate_log(&existing[i], new_log) {
            return Err(
                StorageError::DuplicateLog {
                    callsign: new_log.header().station_callsign.clone(),
                    date: new_log.header().created_at.date(),
                },
            );
        }
        i = i + 1;
    }
    Ok(())
}

/// The default export file name:
/// `duklog-{parkRefOrCallsign}-{createdDateYYYYMMDD}.adif`.
pub open spec fn spec_default_export_filename(l: LogView) -> Seq<char> {
    "duklog-"@ + (match l {
        LogView::Pota(_, Some(p)) => p,
        _ => l.header().station_callsign,
    }) + "-"@ + l.header().created_at.spec_yyyymmdd() + ".adif"@
}

/// Computes the default export file name for a log: `duklog-`, the park
/// reference (or the station callsign when there is none), a hyphen, the
/// creation date as `YYYYMMDD`, and the `.adif` extension.
pub fn default_export_filename(log: &Log) -> (r: String)
    ensures
        r@ == spec_default_export_filename(log@),
{
    let mut r = String::from_str("duklog-");
    match log {
        Log::Pota(p) => match &p.park_ref {
            Some(park) => r.append(park.as_str()),
            None => r.append(p.header.station_callsign.as_str()),
        },
        _ => r.append(log.header().station_callsign.as_str()),
    }
    r.append("-");
    let date = log.header().created_at.yyyymmdd_chars();
    crate::text::push_chars(&mut r, &date);
    r.append(".adif");
    r
}

/// Relies on `dirs::home_dir`: the platform's home directory, if it has
/// one, as text.
#[verifier::external_body]
fn home_dir_string() -> (r: Option<String>) {
    dirs::home_dir().map(|p| p.to_string_lossy().into_owned())
}

/// Returns the default export path for a log: the default export file name
/// under the home directory. Fails with [`StorageError::NoHomeDir`] if the
/// platform cannot resolve one.
pub fn default_export_path(log: &Log) -> (r: Result<String, StorageError>)
    ensures
        r matches Ok(p) ==> exists|home: Seq<char>|
            p@ == #[trigger] (home + "/"@) + spec_default_export_filename(log@),
        r is Err ==> r == Err::<String, StorageError>(StorageError::NoHomeDir),
{
    match home_dir_string() {
        Some(home) => {
            let mut p = home;
            p.append("/");
            let f = default_export_filename(log);
            p.append(f.as_str());
            Ok(p)
        },
        None => Err(StorageError::NoHomeDir),
    }
}

/// Sorts logs by creation instant, newest first, keeping exactly the given
/// logs (as a multiset of contents).
pub fn sort_logs_desc(logs: Vec<Log>) -> (r: Vec<Log>)
    ensures
        r@.map_values(|l: Log| l@).to_multiset() == logs@.map_values(
            |l: Log| l@,
        ).to_multiset(),
        forall|i: int, j: int|
            0 <= i < j < r@.len() ==> (#[trigger] r@[j]).spec_header().created_at.spec_le(
                (#[trigger] r@[i]).spec_header().created_at,
            ),
{
    broadcast use vstd::seq_lib::group_seq_properties;

    let ghost orig = logs@.map_values(|l: Log| l@);
    let mut rest = logs;
    let mut r: Vec<Log> = Vec::new();
    while rest.len() > 0
        invariant
            r@.map_values(|l: Log| l@).to_multiset().add(
                rest@.map_values(|l: Log| l@).to_multiset(),
            ) == orig.to_multiset(),
            forall|i: int, j: int|
                0 <= i < j < r@.len() ==> (#[trigger] r@[j]).spec_header().created_at.spec_le(
                    (#[trigger] r@[i]).spec_header().created_at,
                ),
            forall|i: int, j: int|
                0 <= i < r@.len() && 0 <= j < rest@.len() ==> (
                #[trigger] rest@[j]).spec_header().created_at.spec_le(
                    (#[trigger] r@[i]).spec_header().created_at,
                ),
        decreases rest@.len(),
    {
        // Select the newest remaining log.
        let mut best: usize = 0;
        let mut k: usize = 1;
        while k < rest.len()
            invariant
                best < k <= rest@.len(),
                rest@.len() > 0,
                forall|t: int|
                    0 <= t < k ==> (#[trigger] rest@[t]).spec_header().created_at.spec_le(
                        rest@[best as int].spec_header().created_at,
                    ),
            decreases rest@.len() - k,
        {
            if rest[best].header().created_at.le(&rest[k].header().created_at) {
                best = k;
            }
            k = k + 1;
        }
        let ghost pre_rest = rest@;
        let ghost pre_r = r@;
        let chosen = rest.remove(best);
        r.push(chosen);
        proof {
            broadcast use vstd::seq_lib::group_to_multiset_ensures;

            let f = |l: Log| l@;
            assert(rest@.map_values(f) =~= pre_rest.map_values(f).remove(best as int));
            assert(pre_rest.map_values(f)[best as int] == chosen@);
            assert(pre_rest.map_values(f).to_multiset().count(chosen@) > 0) by {
                assert(pre_rest.map_values(f).contains(chosen@));
            }
            assert(rest@.map_values(f).to_multiset() =~= pre_rest.map_values(f).to_multiset()
                .remove(chosen@));
            assert(r@.map_values(f) =~= pre_r.map_values(f).push(chosen@));
            assert(r@.map_values(f).to_multiset() =~= pre_r.map_values(f).to_multiset().insert(
                chosen@,
            ));
            assert(r@.map_values(f).to_multiset().add(rest@.map_values(f).to_multiset())
                =~= orig.to_multiset());
        }
    }
    proof {
        broadcast use vstd::seq_lib::group_to_multiset_ensures;

        assert(rest@.map_values(|l: Log| l@) =~= Seq::<LogView>::empty());
        assert(rest@.map_values(|l: Log| l@).to_multiset().len() == 0);
        assert(r@.map_values(|l: Log| l@).to_multiset().add(
            rest@.map_values(|l: Log| l@).to_multiset(),
        ) =~= r@.map_values(|l: Log| l@).to_multiset());
    }
    r
}


impl StorageError {
    /// The human-readable description of the failure.
    pub open spec fn spec_message(self) -> Seq<char> {
        match self {
            StorageError::Io(m) => "I/O error: "@ + m@,
            StorageError::Json(m) => "JSON error: "@ + m@,
            StorageError::NoDataDir => "could not determine the platform data directory"@,
            StorageError::NoHomeDir => "could not determine home directory"@,
            StorageError::EmptyLogFile(p) => "log file is empty: "@ + p@,
            StorageError::DuplicateLog { callsign, date } => "a log already exists for "@
                + callsign@ + " on "@ + date.spec_dashed() + " UTC"@,
            StorageError::CorruptMetadata(m) => "corrupt log metadata: "@ + m@,
        }
    }

    /// A human-readable description of the failure.
    pub fn message(&self) -> (r: String)
        ensures
            r@ == self.spec_message(),
    {
        match self {
            StorageError::Io(m) => String::from_str("I/O error: ").concat(m.as_str()),
            StorageError::Json(m) => String::from_str("JSON error: ").concat(m.as_str()),
            StorageError::NoDataDir => {
                String::from_str("could not determine the platform data directory")
            },
            StorageError::NoHomeDir => String::from_str("could not determine home directory"),
            StorageError::EmptyLogFile(p) => String::from_str("log file is empty: ").concat(
                p.as_str(),
            ),
            StorageError::DuplicateLog { callsign, date } => {
                let mut m = String::from_str("a log already exists for ");
                m.append(callsign.as_str());
                m.append(" on ");
                let d = date.dashed();
                m.append(d.as_str());
                m.append(" UTC");
                m
            },
            StorageError::CorruptMetadata(m) => String::from_str(
                "corrupt log metadata: ",
            ).concat(m.as_str()),
        }
    }
}

} // verus!
