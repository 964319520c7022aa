//! UTC timestamps as plain calendar fields.
//!
//! Logs and contacts carry their instants as year/month/day and
//! hour/minute/second numbers, which the formatter and the storage codec
//! render and parse directly. Only reading the wall clock goes through an
//! outside call.

use vstd::prelude::*;

use chrono::{Datelike, Timelike};

use crate::text::{spec_dec, spec_dec_pad, u64_to_dec_pad, chars_to_string};

verus! {

/// An instant in UTC, second granularity.
#[derive(Debug, Clone, Copy, PartialEq, Eq, Hash, Structural)]
pub struct Timestamp {
    pub year: u16,
    pub month: u8,
    pub day: u8,
    pub hour: u8,
    pub minute: u8,
    pub second: u8,
}

/// A UTC calendar date.
#[derive(Debug, Clone, Copy, PartialEq, Eq, Hash, Structural)]
pub struct Date {
    pub year: u16,
    pub month: u8,
    pub day: u8,
}

impl Timestamp {
    /// Field ranges every stored timestamp satisfies.
    pub open spec fn wf(self) -> bool {
        self.year <= 9999 && 1 <= self.month <= 12 && 1 <= self.day <= 31 && self.hour <= 23
            && self.minute <= 59 && self.second <= 59
    }

    /// The calendar date of this instant.
    pub open spec fn spec_date(self) -> Date {
        Date { year: self.year, month: self.month, day: self.day }
    }

    /// Returns the UTC calendar date of this instant.
    pub fn date(&self) -> (r: Date)
        ensures
            r == self.spec_date(),
    {
        Date { year: self.year, month: self.month, day: self.day }
    }

    /// Total ordering on instants, by calendar fields.
    pub open spec fn spec_le(self, other: Timestamp) -> bool {
        let a = (self.year, self.month, self.day, self.hour, self.minute, self.second);
        let b = (other.year, other.month, other.day, other.hour, other.minute, other.second);
        a.0 < b.0 || (a.0 == b.0 && (a.1 < b.1 || (a.1 == b.1 && (a.2 < b.2 || (a.2 == b.2 && (a.3
            < b.3 || (a.3 == b.3 && (a.4 < b.4 || (a.4 == b.4 && a.5 <= b.5)))))))))
    }

    /// Compares two instants chronologically.
    pub fn le(&self, other: &Timestamp) -> (r: bool)
        ensures
            r == self.spec_le(*other),
    {
        if self.year != other.year {
            self.year < other.year
        } else if self.month != other.month {
            self.month < other.month
        } else if self.day != other.day {
            self.day < other.day
        } else if self.hour != other.hour {
            self.hour < other.hour
        } else if self.minute != other.minute {
            self.minute < other.minute
        } else {
            self.second <= other.second
        }
    }

    /// `YYYYMMDD` rendering of the date part.
    pub open spec fn spec_yyyymmdd(self) -> Seq<char> {
        spec_dec_pad(self.year as nat, 4) + spec_dec_pad(self.month as nat, 2) + spec_dec_pad(
            self.day as nat,
            2,
        )
    }

    /// `HHMMSS` rendering of the time part.
    pub open spec fn spec_hhmmss(self) -> Seq<char> {
        spec_dec_pad(self.hour as nat, 2) + spec_dec_pad(self.minute as nat, 2) + spec_dec_pad(
            self.second as nat,
            2,
        )
    }

    /// `YYYYMMDD-HHMMSS`, the stamp used in generated log ids.
    pub open spec fn spec_id_stamp(self) -> Seq<char> {
        self.spec_yyyymmdd() + seq!['-'] + self.spec_hhmmss()
    }

    /// `YYYYMMDD HHMMSS`, the stamp used in the ADIF header.
    pub open spec fn spec_created_stamp(self) -> Seq<char> {
        self.spec_yyyymmdd() + seq![' '] + self.spec_hhmmss()
    }

    /// `YYYY-MM-DDTHH:MM:SSZ`, the stored form.
    pub open spec fn spec_iso(self) -> Seq<char> {
        spec_dec_pad(self.year as nat, 4) + seq!['-'] + spec_dec_pad(self.month as nat, 2)
            + seq!['-'] + spec_dec_pad(self.day as nat, 2) + seq!['T'] + spec_dec_pad(
            self.hour as nat,
            2,
        ) + seq![':'] + spec_dec_pad(self.minute as nat, 2) + seq![':'] + spec_dec_pad(
            self.second as nat,
            2,
        ) + seq!['Z']
    }

    /// Renders the date part as `YYYYMMDD`.
    pub fn yyyymmdd_chars(&self) -> (r: Vec<char>)
        ensures
            r@ == self.spec_yyyymmdd(),
    {
        let mut r = u64_to_dec_pad(self.year as u64, 4);
        let mut m = u64_to_dec_pad(self.month as u64, 2);
        let mut d = u64_to_dec_pad(self.day as u64, 2);
        r.append(&mut m);
        r.append(&mut d);
        r
    }

    /// Renders the time part as `HHMMSS`.
    pub fn hhmmss_chars(&self) -> (r: Vec<char>)
        ensures
            r@ == self.spec_hhmmss(),
    {
        let mut r = u64_to_dec_pad(self.hour as u64, 2);
        let mut m = u64_to_dec_pad(self.minute as u64, 2);
        let mut s = u64_to_dec_pad(self.second as u64, 2);
        r.append(&mut m);
        r.append(&mut s);
        r
    }

    /// Renders `YYYYMMDD-HHMMSS` for log-id generation.
    pub fn id_stamp(&self) -> (r: String)
        ensures
            r@ == self.spec_id_stamp(),
    {
        let mut v = self.yyyymmdd_chars();
        v.push('-');
        let mut t = self.hhmmss_chars();
        v.append(&mut t);
        proof {
            assert(v@ =~= self.spec_id_stamp());
        }
        chars_to_string(&v)
    }

    /// Renders `YYYYMMDD HHMMSS` for the ADIF header.
    pub fn created_stamp(&self) -> (r: String)
        ensures
            r@ == self.spec_created_stamp(),
    {
        let mut v = self.yyyymmdd_chars();
        v.push(' ');
        let mut t = self.hhmmss_chars();
        v.append(&mut t);
        proof {
            assert(v@ =~= self.spec_created_stamp());
        }
        chars_to_string(&v)
    }

    /// Renders the stored form `YYYY-MM-DDTHH:MM:SSZ`.
    pub fn iso_chars(&self) -> (r: Vec<char>)
        ensures
            r@ == self.spec_iso(),
    {
        let mut v = u64_to_dec_pad(self.year as u64, 4);
        v.push('-');
        let mut m = u64_to_dec_pad(self.month as u64, 2);
        v.append(&mut m);
        v.push('-');
        let mut d = u64_to_dec_pad(self.day as u64, 2);
        v.append(&mut d);
        v.push('T');
        let mut h = u64_to_dec_pad(self.hour as u64, 2);
        v.append(&mut h);
        v.push(':');
        let mut mi = u64_to_dec_pad(self.minute as u64, 2);
        v.append(&mut mi);
        v.push(':');
        let mut s = u64_to_dec_pad(self.second as u64, 2);
        v.append(&mut s);
        v.push('Z');
        proof {
            assert(v@ =~= self.spec_iso());
        }
        v
    }

    /// Reads the wall clock.
    pub fn now() -> (r: Timestamp)
        ensures
            r.wf(),
    {
        let (year, month, day, hour, minute, second) = clock_now_fields();
        let y: u16 = if 0 <= year && year <= 9999 {
            year as u16
        } else {
            2000
        };
        Timestamp { year: y, month, day, hour, minute, second }
    }
}

impl Date {
    /// Field ranges every stored date satisfies.
    pub open spec fn wf(self) -> bool {
        self.year <= 9999 && 1 <= self.month <= 12 && 1 <= self.day <= 31
    }

    /// `YYYY-MM-DD` rendering.
    pub open spec fn spec_dashed(self) -> Seq<char> {
        spec_dec_pad(self.year as nat, 4) + seq!['-'] + spec_dec_pad(self.month as nat, 2)
            + seq!['-'] + spec_dec_pad(self.day as nat, 2)
    }

    /// Renders the date as `YYYY-MM-DD`.
    pub fn dashed(&self) -> (r: String)
        ensures
            r@ == self.spec_dashed(),
    {
        let mut v = u64_to_dec_pad(self.year as u64, 4);
        v.push('-');
        let mut m = u64_to_dec_pad(self.month as u64, 2);
        v.append(&mut m);
        v.push('-');
        let mut d = u64_to_dec_pad(self.day as u64, 2);
        v.append(&mut d);
        proof {
            assert(v@ =~= self.spec_dashed());
        }
        chars_to_string(&v)
    }
}

/// Relies on `chrono::Utc::now` with the `Datelike` / `Timelike` accessors,
/// whose documentation bounds them: `month` is 1–12, `day` is 1–31, `hour`
/// is below 24, `minute` and `second` below 60. Nothing is assumed about
/// the year: the caller checks it.
#[verifier::external_body]
fn clock_now_fields() -> (r: (i32, u8, u8, u8, u8, u8))
    ensures
        1 <= r.1 <= 12,
        1 <= r.2 <= 31,
        r.3 <= 23,
        r.4 <= 59,
        r.5 <= 59,
{
    let t = chrono::Utc::now();
    (
        t.year(),
        t.month() as u8,
        t.day() as u8,
        t.hour() as u8,
        t.minute() as u8,
        t.second() as u8,
    )
}



/// For `n` up to 99, the two-digit padding is exactly tens digit then ones
/// digit.
pub proof fn lemma_pad2(n: nat)
    requires
        n <= 99,
    ensures
        spec_dec_pad(n, 2) =~= seq![
            crate::text::spec_digit_char((n / 10) as int),
            crate::text::spec_digit_char((n % 10) as int),
        ],
{
    if n < 10 {
        assert(spec_dec(n) =~= seq![crate::text::spec_digit_char(n as int)]);
    } else {
        assert(spec_dec(n / 10) =~= seq![crate::text::spec_digit_char((n / 10) as int)]);
        assert(spec_dec(n) =~= spec_dec(n / 10) + seq![
            crate::text::spec_digit_char((n % 10) as int),
        ]);
    }
}

/// For `n` up to 9999, the four-digit padding is exactly the thousands,
/// hundreds, tens, and ones digits.
pub proof fn lemma_pad4(n: nat)
    requires
        n <= 9999,
    ensures
        spec_dec_pad(n, 4) =~= seq![
            crate::text::spec_digit_char((n / 1000) as int),
            crate::text::spec_digit_char((n / 100 % 10) as int),
            crate::text::spec_digit_char((n / 10 % 10) as int),
            crate::text::spec_digit_char((n % 10) as int),
        ],
{
    if n < 10 {
        assert(spec_dec(n) =~= seq![crate::text::spec_digit_char(n as int)]);
    } else if n < 100 {
        assert(spec_dec(n / 10) =~= seq![crate::text::spec_digit_char((n / 10) as int)]);
        assert(spec_dec(n) =~= spec_dec(n / 10) + seq![
            crate::text::spec_digit_char((n % 10) as int),
        ]);
    } else if n < 1000 {
        assert(spec_dec(n / 100) =~= seq![crate::text::spec_digit_char((n / 100) as int)]);
        assert(spec_dec(n / 10) =~= spec_dec(n / 100) + seq![
            crate::text::spec_digit_char((n / 10 % 10) as int),
        ]);
        assert(spec_dec(n) =~= spec_dec(n / 10) + seq![
            crate::text::spec_digit_char((n % 10) as int),
        ]);
        assert(n / 100 % 10 == n / 100);
    } else {
        assert(spec_dec(n / 1000) =~= seq![crate::text::spec_digit_char((n / 1000) as int)]);
        assert(spec_dec(n / 100) =~= spec_dec(n / 1000) + seq![
            crate::text::spec_digit_char((n / 100 % 10) as int),
        ]);
        assert(spec_dec(n / 10) =~= spec_dec(n / 100) + seq![
            crate::text::spec_digit_char((n / 10 % 10) as int),
        ]);
        assert(spec_dec(n) =~= spec_dec(n / 10) + seq![
            crate::text::spec_digit_char((n % 10) as int),
        ]);
    }
}


/// The value of a digit character.
pub proof fn lemma_digit_char_val(d: int)
    requires
        0 <= d <= 9,
    ensures
        (crate::text::spec_digit_char(d) as u32) == 48 + d,
        '0' <= crate::text::spec_digit_char(d) <= '9',
{
}

/// The stored form of a well-formed timestamp, character by character.
#[verifier::rlimit(100)]
pub proof fn lemma_iso_facts(t: Timestamp)
    requires
        t.wf(),
    ensures
        ({
            let s = t.spec_iso();
            let y = t.year as int;
            let mo = t.month as int;
            let d = t.day as int;
            let h = t.hour as int;
            let mi = t.minute as int;
            let sec = t.second as int;
            &&& s.len() == 20
            &&& (s[0] as u32) == 48 + y / 1000
            &&& (s[1] as u32) == 48 + y / 100 % 10
            &&& (s[2] as u32) == 48 + y / 10 % 10
            &&& (s[3] as u32) == 48 + y % 10
            &&& s[4] == '-'
            &&& (s[5] as u32) == 48 + mo / 10
            &&& (s[6] as u32) == 48 + mo % 10
            &&& s[7] == '-'
            &&& (s[8] as u32) == 48 + d / 10
            &&& (s[9] as u32) == 48 + d % 10
            &&& s[10] == 'T'
            &&& (s[11] as u32) == 48 + h / 10
            &&& (s[12] as u32) == 48 + h % 10
            &&& s[13] == ':'
            &&& (s[14] as u32) == 48 + mi / 10
            &&& (s[15] as u32) == 48 + mi % 10
            &&& s[16] == ':'
            &&& (s[17] as u32) == 48 + sec / 10
            &&& (s[18] as u32) == 48 + sec % 10
            &&& s[19] == 'Z'
            &&& (forall|i: int| 0 <= i <= 3 ==> '0' <= #[trigger] s[i] <= '9')
            &&& '0' <= s[5] <= '9' && '0' <= s[6] <= '9' && '0' <= s[8] <= '9' && '0' <= s[9]
                <= '9'
            &&& '0' <= s[11] <= '9' && '0' <= s[12] <= '9' && '0' <= s[14] <= '9' && '0' <= s[15]
                <= '9'
            &&& '0' <= s[17] <= '9' && '0' <= s[18] <= '9'
            &&& y == (y / 1000) * 1000 + (y / 100 % 10) * 100 + (y / 10 % 10) * 10 + y % 10
            &&& mo == (mo / 10) * 10 + mo % 10
            &&& d == (d / 10) * 10 + d % 10
            &&& h == (h / 10) * 10 + h % 10
            &&& mi == (mi / 10) * 10 + mi % 10
            &&& sec == (sec / 10) * 10 + sec % 10
        }),
{
    let y = t.year as nat;
    let mo = t.month as nat;
    let d = t.day as nat;
    let h = t.hour as nat;
    let mi = t.minute as nat;
    let sec = t.second as nat;
    lemma_pad4(y);
    lemma_pad2(mo);
    lemma_pad2(d);
    lemma_pad2(h);
    lemma_pad2(mi);
    lemma_pad2(sec);
    let lit = seq![
        crate::text::spec_digit_char((y / 1000) as int),
        crate::text::spec_digit_char((y / 100 % 10) as int),
        crate::text::spec_digit_char((y / 10 % 10) as int),
        crate::text::spec_digit_char((y % 10) as int),
        '-',
        crate::text::spec_digit_char((mo / 10) as int),
        crate::text::spec_digit_char((mo % 10) as int),
        '-',
        crate::text::spec_digit_char((d / 10) as int),
        crate::text::spec_digit_char((d % 10) as int),
        'T',
        crate::text::spec_digit_char((h / 10) as int),
        crate::text::spec_digit_char((h % 10) as int),
        ':',
        crate::text::spec_digit_char((mi / 10) as int),
        crate::text::spec_digit_char((mi % 10) as int),
        ':',
        crate::text::spec_digit_char((sec / 10) as int),
        crate::text::spec_digit_char((sec % 10) as int),
        'Z',
    ];
    assert(t.spec_iso() =~= lit);
    lemma_digit_char_val((y / 1000) as int);
    lemma_digit_char_val((y / 100 % 10) as int);
    lemma_digit_char_val((y / 10 % 10) as int);
    lemma_digit_char_val((y % 10) as int);
    lemma_digit_char_val((mo / 10) as int);
    lemma_digit_char_val((mo % 10) as int);
    lemma_digit_char_val((d / 10) as int);
    lemma_digit_char_val((d % 10) as int);
    lemma_digit_char_val((h / 10) as int);
    lemma_digit_char_val((h % 10) as int);
    lemma_digit_char_val((mi / 10) as int);
    lemma_digit_char_val((mi % 10) as int);
    lemma_digit_char_val((sec / 10) as int);
    lemma_digit_char_val((sec % 10) as int);
    assert(t.year as int == ((t.year as int) / 1000) * 1000 + ((t.year as int) / 100 % 10) * 100 + (
    (t.year as int) / 10 % 10) * 10 + (t.year as int) % 10) by (nonlinear_arith)
        requires
            0 <= t.year as int <= 9999,
    ;
}

/// Reads the decimal digit a character denotes.
fn digit_of(c: char) -> (r: Option<u16>)
    ensures
        '0' <= c <= '9' ==> r == Some((((c as u32) - 48) as u16)),
        !('0' <= c <= '9') ==> r is None,
{
    if '0' <= c && c <= '9' {
        Some(((c as u8) - 48) as u16)
    } else {
        None
    }
}

/// Parses the stored form `YYYY-MM-DDTHH:MM:SSZ`, leniently accepting and
/// discarding a fractional-second part before the `Z`. Rejects field
/// values outside their calendar ranges.
/// Parses the stored form `YYYY-MM-DDTHH:MM:SSZ`, leniently accepting and
/// discarding a fractional-second part before the `Z`. Rejects field
/// values outside their calendar ranges.
#[verifier::rlimit(100)]
pub fn parse_timestamp(s: &str) -> (r: Option<Timestamp>)
    ensures
        r matches Some(t) ==> t.wf(),
        forall|t: Timestamp| t.wf() && s@ == t.spec_iso() ==> r == Some(t),
{
    let v = crate::text::str_to_chars(s);
    if v.len() < 20 {
        proof {
            assert forall|t: Timestamp| t.wf() && s@ == t.spec_iso() implies false by {
                lemma_iso_facts(t);
            }
        }
        return None;
    }
    let sep_ok = v[4] == '-' && v[7] == '-' && v[10] == 'T' && v[13] == ':' && v[16] == ':';
    let d0 = digit_of(v[0]);
    let d1 = digit_of(v[1]);
    let d2 = digit_of(v[2]);
    let d3 = digit_of(v[3]);
    let mo0 = digit_of(v[5]);
    let mo1 = digit_of(v[6]);
    let da0 = digit_of(v[8]);
    let da1 = digit_of(v[9]);
    let h0 = digit_of(v[11]);
    let h1 = digit_of(v[12]);
    let mi0 = digit_of(v[14]);
    let mi1 = digit_of(v[15]);
    let s0 = digit_of(v[17]);
    let s1 = digit_of(v[18]);
    let all_digits = d0.is_some() && d1.is_some() && d2.is_some() && d3.is_some() && mo0.is_some()
        && mo1.is_some() && da0.is_some() && da1.is_some() && h0.is_some() && h1.is_some()
        && mi0.is_some() && mi1.is_some() && s0.is_some() && s1.is_some();
    // The tail is `Z` alone, or a dot, at least one digit, and `Z`.
    let mut tail_ok = false;
    if v[19] == 'Z' && v.len() == 20 {
        tail_ok = true;
    } else if v[19] == '.' && v.len() >= 22 {
        let mut k: usize = 20;
        while k < v.len() && '0' <= v[k] && v[k] <= '9'
            invariant
                20 <= k <= v.len(),
            decreases v.len() - k,
        {
            k = k + 1;
        }
        if k > 20 && k == v.len() - 1 && v[k] == 'Z' {
            tail_ok = true;
        }
    }
    let year: u16 = d0.unwrap_or(0) * 1000 + d1.unwrap_or(0) * 100 + d2.unwrap_or(0) * 10
        + d3.unwrap_or(0);
    let month8: u16 = mo0.unwrap_or(0) * 10 + mo1.unwrap_or(0);
    let day8: u16 = da0.unwrap_or(0) * 10 + da1.unwrap_or(0);
    let hour8: u16 = h0.unwrap_or(0) * 10 + h1.unwrap_or(0);
    let minute8: u16 = mi0.unwrap_or(0) * 10 + mi1.unwrap_or(0);
    let second8: u16 = s0.unwrap_or(0) * 10 + s1.unwrap_or(0);
    let ranges_ok = 1 <= month8 && month8 <= 12 && 1 <= day8 && day8 <= 31 && hour8 <= 23
        && minute8 <= 59 && second8 <= 59;
    let valid = sep_ok && all_digits && tail_ok && ranges_ok;
    let out = Timestamp {
        year,
        month: month8 as u8,
        day: day8 as u8,
        hour: hour8 as u8,
        minute: minute8 as u8,
        second: second8 as u8,
    };
    proof {
        assert forall|t: Timestamp| t.wf() && s@ == t.spec_iso() implies valid && out == t by {
            lemma_iso_facts(t);
        }
    }
    if valid {
        Some(out)
    } else {
        None
    }
}

} // verus!
