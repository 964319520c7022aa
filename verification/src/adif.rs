//! ADIF v3.1.6 text formatting.
//!
//! Pure text rendering of a [`Log`](crate::model::Log) and its contacts.
//! Every field is written as `<NAME:length>value`, where `length` is the
//! value's UTF-8 byte count, not its character count. No I/O happens here:
//! the storage layer writes the result to disk.

use vstd::prelude::*;

use crate::model::log::{Log, LogHeaderView, LogView};
use crate::model::qso::{Qso, QsoView};
use crate::text::{spec_dec, u64_to_dec_string};
use crate::time::Timestamp;
use vstd::utf8::encode_utf8;

verus! {

/// The ADIF version the formatter writes.
pub open spec fn spec_adif_version() -> Seq<char> {
    "3.1.6"@
}

/// The program id the formatter writes.
pub open spec fn spec_program_id() -> Seq<char> {
    "duklog"@
}

/// The program version the formatter writes.
pub open spec fn spec_program_version() -> Seq<char> {
    "0.1.0"@
}

/// One ADIF field: `<NAME:length>value`, with `length` the decimal UTF-8
/// byte count of the value.
pub open spec fn spec_adif_field(name: Seq<char>, value: Seq<char>) -> Seq<char> {
    seq!['<'] + name + seq![':'] + spec_dec(encode_utf8(value).len()) + seq!['>'] + value
}

/// Renders one ADIF field.
pub fn adif_field(name: &str, value: &str) -> (r: String)
    ensures
        r@ == spec_adif_field(name@, value@),
{
    let mut r = String::from_str("<");
    r.append(name);
    r.append(":");
    let len = u64_to_dec_string(crate::text::byte_len(value) as u64);
    r.append(len.as_str());
    r.append(">");
    r.append(value);
    proof {
        assert("<"@ =~= seq!['<']) by {
            reveal_strlit("<");
        }
        assert(":"@ =~= seq![':']) by {
            reveal_strlit(":");
        }
        assert(">"@ =~= seq!['>']) by {
            reveal_strlit(">");
        }
        assert(r@ =~= spec_adif_field(name@, value@));
    }
    r
}

/// The ADIF file header for a log created at `created`: `ADIF_VER`,
/// `PROGRAMID`, `PROGRAMVERSION`, and `CREATED_TIMESTAMP` tags, one per
/// line, closed by `<eoh>` and a blank line.
pub open spec fn spec_format_header(created: Timestamp) -> Seq<char> {
    spec_adif_field("ADIF_VER"@, spec_adif_version()) + "\n"@ + spec_adif_field(
        "PROGRAMID"@,
        spec_program_id(),
    ) + "\n"@ + spec_adif_field("PROGRAMVERSION"@, spec_program_version()) + "\n"@
        + spec_adif_field("CREATED_TIMESTAMP"@, created.spec_created_stamp()) + "\n"@
        + "<eoh>\n\n"@
}

/// Formats the ADIF file header for a log.
pub fn format_header(log: &Log) -> (r: String)
    ensures
        r@ == spec_format_header(log.spec_header().created_at),
{
    let created = log.header().created_at;
    let mut r = adif_field("ADIF_VER", "3.1.6");
    r.append("\n");
    let p = adif_field("PROGRAMID", "duklog");
    r.append(p.as_str());
    r.append("\n");
    let v = adif_field("PROGRAMVERSION", "0.1.0");
    r.append(v.as_str());
    r.append("\n");
    let stamp = created.created_stamp();
    let c = adif_field("CREATED_TIMESTAMP", stamp.as_str());
    r.append(c.as_str());
    r.append("\n");
    r.append("<eoh>\n\n");
    proof {
        assert(r@ =~= spec_format_header(log.spec_header().created_at));
    }
    r
}

impl LogView {
    /// The shared header of any variant, at the view level.
    pub open spec fn header(self) -> LogHeaderView {
        match self {
            LogView::General(h) => h,
            LogView::Pota(h, _) => h,
            LogView::FieldDay(h, _, _, _, _) => h,
            LogView::WinterFieldDay(h, _, _, _) => h,
        }
    }
}

/// The `OPERATOR` tag, present only when an operator is set and differs
/// from the station callsign.
pub open spec fn spec_operator_field(
    station: Seq<char>,
    operator: Option<Seq<char>>,
) -> Seq<char> {
    match operator {
        Some(o) => if o != station {
            spec_adif_field("OPERATOR"@, o)
        } else {
            Seq::<char>::empty()
        },
        None => Seq::<char>::empty(),
    }
}

/// The log-type- and contact-specific tags of one record, in order: the
/// station's own park (`MY_SIG`/`MY_SIG_INFO`) for POTA logs with a park,
/// the contest exchange (`CLASS`/`ARRL_SECT`) for Field Day and Winter
/// Field Day logs, and the other station's park (`SIG`/`SIG_INFO`) when the
/// contact carries one.
pub open spec fn spec_type_fields(log: LogView, q: QsoView) -> Seq<char> {
    (match log {
        LogView::Pota(_, Some(p)) => spec_adif_field("MY_SIG"@, "POTA"@) + spec_adif_field(
            "MY_SIG_INFO"@,
            p,
        ),
        LogView::FieldDay(_, _, class, section, _) => spec_adif_field(
            "CLASS"@,
            class.spec_letter(),
        ) + spec_adif_field("ARRL_SECT"@, section),
        LogView::WinterFieldDay(_, _, class, section) => spec_adif_field(
            "CLASS"@,
            class.spec_letter(),
        ) + spec_adif_field("ARRL_SECT"@, section),
        _ => Seq::<char>::empty(),
    }) + (match q.their_park {
        Some(tp) => spec_adif_field("SIG"@, "POTA"@) + spec_adif_field("SIG_INFO"@, tp),
        None => Seq::<char>::empty(),
    })
}

/// One ADIF record for a contact, ending with `<eor>` and a newline.
pub open spec fn spec_format_qso(log: LogView, q: QsoView) -> Seq<char> {
    spec_adif_field("STATION_CALLSIGN"@, log.header().station_callsign) + spec_operator_field(
        log.header().station_callsign,
        log.header().operator,
    ) + spec_adif_field("CALL"@, q.their_call) + spec_adif_field(
        "QSO_DATE"@,
        q.timestamp.spec_yyyymmdd(),
    ) + spec_adif_field("TIME_ON"@, q.timestamp.spec_hhmmss()) + spec_adif_field(
        "BAND"@,
        q.band.spec_adif_str(),
    ) + spec_adif_field("MODE"@, q.mode.spec_adif_str()) + spec_adif_field("RST_SENT"@, q.rst_sent)
        + spec_adif_field("RST_RCVD"@, q.rst_rcvd) + spec_adif_field(
        "MY_GRIDSQUARE"@,
        log.header().grid_square,
    ) + spec_type_fields(log, q) + (if q.comments.len() > 0 {
        spec_adif_field("COMMENT"@, q.comments)
    } else {
        Seq::<char>::empty()
    }) + "<eor>\n"@
}

/// Renders the `OPERATOR` tag part of a record.
fn operator_field(header: &crate::model::log::LogHeader) -> (r: String)
    ensures
        r@ == spec_operator_field(header.station_callsign@, header@.operator),
{
    match &header.operator {
        Some(op) => {
            if !op.eq(&header.station_callsign) {
                adif_field("OPERATOR", op.as_str())
            } else {
                String::new()
            }
        },
        None => String::new(),
    }
}

/// Renders the log-type- and contact-specific tag part of a record.
fn type_fields(log: &Log, qso: &Qso) -> (r: String)
    ensures
        r@ == spec_type_fields(log@, qso@),
{
    let mut t: String = match log {
        Log::Pota(p) => match &p.park_ref {
            Some(park) => {
                let mut t = adif_field("MY_SIG", "POTA");
                let f = adif_field("MY_SIG_INFO", park.as_str());
                t.append(f.as_str());
                t
            },
            None => String::new(),
        },
        Log::FieldDay(l) => {
            let mut t = adif_field("CLASS", l.class.letter());
            let f = adif_field("ARRL_SECT", l.section.as_str());
            t.append(f.as_str());
            t
        },
        Log::WinterFieldDay(l) => {
            let mut t = adif_field("CLASS", l.class.letter());
            let f = adif_field("ARRL_SECT", l.section.as_str());
            t.append(f.as_str());
            t
        },
        Log::General(_) => String::new(),
    };
    match &qso.their_park {
        Some(tp) => {
            let f = adif_field("SIG", "POTA");
            t.append(f.as_str());
            let f = adif_field("SIG_INFO", tp.as_str());
            t.append(f.as_str());
        },
        None => {},
    }
    t
}

/// Renders the `COMMENT` tag part of a record: empty for empty comments.
fn comment_field(qso: &Qso) -> (r: String)
    ensures
        r@ == if qso.comments@.len() > 0 {
            spec_adif_field("COMMENT"@, qso.comments@)
        } else {
            Seq::<char>::empty()
        },
{
    if !qso.comments.as_str().is_empty() {
        adif_field("COMMENT", qso.comments.as_str())
    } else {
        String::new()
    }
}

/// Formats a single contact record ending with `<eor>`.
///
/// `OPERATOR` is emitted only when set and different from the station
/// callsign; park and contest tags only where the log type or the contact
/// carries them; `COMMENT` only when non-empty.
pub fn format_qso(log: &Log, qso: &Qso) -> (r: String)
    ensures
        r@ == spec_format_qso(log@, qso@),
{
    let header = log.header();
    let mut r = adif_field("STATION_CALLSIGN", header.station_callsign.as_str());
    let part = operator_field(header);
    r.append(part.as_str());
    let part = adif_field("CALL", qso.their_call.as_str());
    r.append(part.as_str());
    let date = qso.timestamp.yyyymmdd_chars();
    let date_s = crate::text::chars_to_string(&date);
    let part = adif_field("QSO_DATE", date_s.as_str());
    r.append(part.as_str());
    let time = qso.timestamp.hhmmss_chars();
    let time_s = crate::text::chars_to_string(&time);
    let part = adif_field("TIME_ON", time_s.as_str());
    r.append(part.as_str());
    let part = adif_field("BAND", qso.band.adif_str());
    r.append(part.as_str());
    let part = adif_field("MODE", qso.mode.adif_str());
    r.append(part.as_str());
    let part = adif_field("RST_SENT", qso.rst_sent.as_str());
    r.append(part.as_str());
    let part = adif_field("RST_RCVD", qso.rst_rcvd.as_str());
    r.append(part.as_str());
    let part = adif_field("MY_GRIDSQUARE", header.grid_square.as_str());
    r.append(part.as_str());
    let part = type_fields(log, qso);
    r.append(part.as_str());
    let part = comment_field(qso);
    r.append(part.as_str());
    r.append("<eor>\n");
    r
}

/// The records of a log's contacts, concatenated in log order.
pub open spec fn spec_records(log: LogView, qsos: Seq<QsoView>) -> Seq<char>
    decreases qsos.len(),
{
    if qsos.len() == 0 {
        Seq::<char>::empty()
    } else {
        spec_records(log, qsos.drop_last()) + spec_format_qso(log, qsos.last())
    }
}

/// A complete ADIF file: the header followed by one record per contact.
pub open spec fn spec_format_adif(log: LogView) -> Seq<char> {
    spec_format_header(log.header().created_at) + spec_records(log, log.header().qsos)
}

/// Formats a complete ADIF file (header plus all contact records).
#[verifier::rlimit(60)]
pub fn format_adif(log: &Log) -> (r: String)
    ensures
        r@ == spec_format_adif(log@),
{
    let ghost qv = log@.header().qsos;
    let mut r = format_header(log);
    let header = log.header();
    let n = header.qsos.len();
    let mut i: usize = 0;
    proof {
        assert(log.spec_header().created_at == log@.header().created_at);
        assert(spec_records(log@, qv.subrange(0, 0)) =~= Seq::<char>::empty());
        assert(r@ =~= spec_format_header(log@.header().created_at) + spec_records(
            log@,
            qv.subrange(0, 0),
        ));
    }
    while i < n
        invariant
            i <= n,
            n == log.spec_header().qsos@.len(),
            qv == log@.header().qsos,
            qv.len() == n,
            header == &log.spec_header(),
            forall|k: int| 0 <= k < n ==> qv[k] == #[trigger] log.spec_header().qsos@[k]@,
            r@ == spec_format_header(log@.header().created_at) + spec_records(
                log@,
                qv.subrange(0, i as int),
            ),
        decreases n - i,
    {
        let rec = format_qso(log, &header.qsos[i]);
        r.append(rec.as_str());
        proof {
            let pre = qv.subrange(0, i as int);
            let cur = qv.subrange(0, i as int + 1);
            assert(cur.drop_last() =~= pre);
            assert(cur.last() == qv[i as int]);
        }
        i = i + 1;
    }
    proof {
        assert(qv.subrange(0, qv.len() as int) =~= qv);
    }
    r
}

/// Every formatted record carries the contacted station's callsign as a
/// `CALL` field whose declared length is the callsign's UTF-8 byte count:
/// `<CALL:{byte count}>{callsign}` appears verbatim in the record.
pub proof fn lemma_record_has_exact_call_field(log: LogView, q: QsoView)
    ensures
        exists|i: int|
            #![trigger spec_format_qso(log, q).subrange(i, i + spec_adif_field("CALL"@, q.their_call).len())]
            {
                &&& 0 <= i
                &&& i + spec_adif_field("CALL"@, q.their_call).len() <= spec_format_qso(
                    log,
                    q,
                ).len()
                &&& spec_format_qso(log, q).subrange(
                    i,
                    i + spec_adif_field("CALL"@, q.their_call).len(),
                ) == spec_adif_field("CALL"@, q.their_call)
            },
{
    let f = spec_adif_field("CALL"@, q.their_call);
    let h = log.header();
    let t0 = spec_adif_field("STATION_CALLSIGN"@, h.station_callsign) + spec_operator_field(
        h.station_callsign,
        h.operator,
    ) + f;
    let i = t0.len() - f.len();
    let t1 = t0 + spec_adif_field("QSO_DATE"@, q.timestamp.spec_yyyymmdd());
    let t2 = t1 + spec_adif_field("TIME_ON"@, q.timestamp.spec_hhmmss());
    let t3 = t2 + spec_adif_field("BAND"@, q.band.spec_adif_str());
    let t4 = t3 + spec_adif_field("MODE"@, q.mode.spec_adif_str());
    let t5 = t4 + spec_adif_field("RST_SENT"@, q.rst_sent);
    let t6 = t5 + spec_adif_field("RST_RCVD"@, q.rst_rcvd);
    let t7 = t6 + spec_adif_field("MY_GRIDSQUARE"@, h.grid_square);
    let t8 = t7 + spec_type_fields(log, q);
    let t9 = t8 + (if q.comments.len() > 0 {
        spec_adif_field("COMMENT"@, q.comments)
    } else {
        Seq::<char>::empty()
    });
    let t10 = t9 + "<eor>\n"@;
    assert(spec_format_qso(log, q) == t10);
    assert(t0.subrange(i, i + f.len()) =~= f);
    assert(t1.subrange(i, i + f.len()) =~= t0.subrange(i, i + f.len()));
    assert(t2.subrange(i, i + f.len()) =~= t1.subrange(i, i + f.len()));
    assert(t3.subrange(i, i + f.len()) =~= t2.subrange(i, i + f.len()));
    assert(t4.subrange(i, i + f.len()) =~= t3.subrange(i, i + f.len()));
    assert(t5.subrange(i, i + f.len()) =~= t4.subrange(i, i + f.len()));
    assert(t6.subrange(i, i + f.len()) =~= t5.subrange(i, i + f.len()));
    assert(t7.subrange(i, i + f.len()) =~= t6.subrange(i, i + f.len()));
    assert(t8.subrange(i, i + f.len()) =~= t7.subrange(i, i + f.len()));
    assert(t9.subrange(i, i + f.len()) =~= t8.subrange(i, i + f.len()));
    assert(t10.subrange(i, i + f.len()) =~= t9.subrange(i, i + f.len()));
}

} // verus!
