//! A small JSON codec for the storage layer's record lines.
//!
//! The values a log file holds are objects of strings, integers, and
//! nulls. The encoder writes them compactly (no whitespace); the parser
//! reads that form back, and the round trip is proved: parsing the
//! encoding of any field list yields that field list.

use vstd::prelude::*;

use crate::text::{spec_dec, u64_to_dec, chars_to_string, str_to_chars};

verus! {

/// A JSON value as the storage records use them.
#[derive(Debug, Clone, PartialEq)]
pub enum Json {
    Null,
    Str(String),
    UInt(u64),
}

/// The contents of a [`Json`] value.
pub enum JsonView {
    Null,
    Str(Seq<char>),
    UInt(u64),
}

impl View for Json {
    type V = JsonView;

    open spec fn view(&self) -> JsonView {
        match self {
            Json::Null => JsonView::Null,
            Json::Str(s) => JsonView::Str(s@),
            Json::UInt(n) => JsonView::UInt(*n),
        }
    }
}

// --- String escaping ---

/// The lowercase hex digit for a value below 16.
pub open spec fn spec_hex_char(d: int) -> char {
    if d < 10 {
        ((d + 48) as u8) as char
    } else {
        ((d + 87) as u8) as char
    }
}

/// How one character appears inside a JSON string: quotes and backslashes
/// get a two-character escape, the common control characters their short
/// escapes, the remaining control characters a `\u00XX` escape, and
/// everything else stands as itself.
pub open spec fn spec_escape_char(c: char) -> Seq<char> {
    if c == '"' {
        seq!['\\', '"']
    } else if c == '\\' {
        seq!['\\', '\\']
    } else if c == '\n' {
        seq!['\\', 'n']
    } else if c == '\r' {
        seq!['\\', 'r']
    } else if c == '\t' {
        seq!['\\', 't']
    } else if (c as u32) < 32 {
        seq![
            '\\',
            'u',
            '0',
            '0',
            spec_hex_char(((c as u32) / 16) as int),
            spec_hex_char(((c as u32) % 16) as int),
        ]
    } else {
        seq![c]
    }
}

/// The escaped form of a string's contents.
pub open spec fn spec_escape(s: Seq<char>) -> Seq<char>
    decreases s.len(),
{
    if s.len() == 0 {
        Seq::<char>::empty()
    } else {
        spec_escape_char(s[0]) + spec_escape(s.drop_first())
    }
}

/// Escaping distributes over concatenation.
pub proof fn lemma_escape_concat(a: Seq<char>, b: Seq<char>)
    ensures
        spec_escape(a + b) == spec_escape(a) + spec_escape(b),
    decreases a.len(),
{
    if a.len() == 0 {
        assert(a + b =~= b);
        assert(spec_escape(a) + spec_escape(b) =~= spec_escape(b));
    } else {
        lemma_escape_concat(a.drop_first(), b);
        assert((a + b).drop_first() =~= a.drop_first() + b);
        assert((a + b)[0] == a[0]);
        assert(spec_escape_char(a[0]) + (spec_escape(a.drop_first()) + spec_escape(b))
            =~= spec_escape_char(a[0]) + spec_escape(a.drop_first()) + spec_escape(b));
    }
}

/// A complete JSON string: quote, escaped contents, quote.
pub open spec fn spec_json_string(s: Seq<char>) -> Seq<char> {
    seq!['"'] + spec_escape(s) + seq!['"']
}

/// Renders the escaped form of one character into `out`.
fn escape_char_into(c: char, out: &mut Vec<char>)
    ensures
        final(out)@ == old(out)@ + spec_escape_char(c),
{
    let ghost pre = out@;
    if c == '"' {
        out.push('\\');
        out.push('"');
    } else if c == '\\' {
        out.push('\\');
        out.push('\\');
    } else if c == '\n' {
        out.push('\\');
        out.push('n');
    } else if c == '\r' {
        out.push('\\');
        out.push('r');
    } else if c == '\t' {
        out.push('\\');
        out.push('t');
    } else if (c as u32) < 32 {
        out.push('\\');
        out.push('u');
        out.push('0');
        out.push('0');
        let hi = (c as u32) / 16;
        let lo = (c as u32) % 16;
        let hic: char = if hi < 10 {
            ((hi as u8) + 48) as char
        } else {
            ((hi as u8) + 87) as char
        };
        let loc: char = if lo < 10 {
            ((lo as u8) + 48) as char
        } else {
            ((lo as u8) + 87) as char
        };
        out.push(hic);
        out.push(loc);
    } else {
        out.push(c);
    }
    proof {
        assert(out@ =~= pre + spec_escape_char(c));
    }
}

/// Renders a JSON string (quotes and escapes included) into `out`.
fn json_string_into(s: &str, out: &mut Vec<char>)
    ensures
        final(out)@ == old(out)@ + spec_json_string(s@),
{
    let ghost pre = out@;
    out.push('"');
    let v = str_to_chars(s);
    let mut i: usize = 0;
    while i < v.len()
        invariant
            i <= v.len(),
            v@ == s@,
            out@ == pre + seq!['"'] + spec_escape(s@.subrange(0, i as int)),
        decreases v.len() - i,
    {
        escape_char_into(v[i], out);
        i = i + 1;
        proof {
            let a = s@.subrange(0, i as int - 1);
            let b = s@.subrange(i as int - 1, i as int);
            assert(s@.subrange(0, i as int) =~= a + b);
            lemma_escape_concat(a, b);
            assert(spec_escape(b) =~= spec_escape_char(s@[i as int - 1]) + spec_escape(
                b.drop_first(),
            ));
            assert(b.drop_first() =~= Seq::<char>::empty());
            assert(spec_escape(b) =~= spec_escape_char(s@[i as int - 1]));
            assert(out@ =~= pre + seq!['"'] + spec_escape(s@.subrange(0, i as int)));
        }
    }
    out.push('"');
    proof {
        assert(s@.subrange(0, s@.len() as int) =~= s@);
        assert(out@ =~= pre + spec_json_string(s@));
    }
}

// --- String parsing ---

/// The numeric value of a hex digit, or 16 for a non-hex character.
pub open spec fn spec_hex_val(c: char) -> int {
    if '0' <= c <= '9' {
        (c as u32) as int - 48
    } else if 'a' <= c <= 'f' {
        (c as u32) as int - 87
    } else if 'A' <= c <= 'F' {
        (c as u32) as int - 55
    } else {
        16
    }
}

/// Parses the body of a JSON string (after the opening quote) from the
/// front of `s`: the decoded contents and the remainder after the closing
/// quote, or `None` for an unterminated or malformed body.
///
/// `\uXXXX` escapes are accepted only in the `\u00XX` form the encoder and
/// the stored files use.
pub open spec fn sp_str_body(s: Seq<char>) -> Option<(Seq<char>, Seq<char>)>
    decreases s.len(),
{
    if s.len() == 0 {
        None
    } else if s[0] == '"' {
        Some((Seq::<char>::empty(), s.drop_first()))
    } else if s[0] == '\\' {
        if s.len() < 2 {
            None
        } else {
            let e = s[1];
            if e == 'u' {
                if s.len() < 6 || s[2] != '0' || s[3] != '0' || spec_hex_val(s[4]) >= 16
                    || spec_hex_val(s[5]) >= 16 {
                    None
                } else {
                    let code = spec_hex_val(s[4]) * 16 + spec_hex_val(s[5]);
                    match sp_str_body(s.skip(6)) {
                        Some((t, r)) => Some((seq![(code as u8) as char] + t, r)),
                        None => None,
                    }
                }
            } else {
                let d: Option<char> = if e == '"' {
                    Some('"')
                } else if e == '\\' {
                    Some('\\')
                } else if e == '/' {
                    Some('/')
                } else if e == 'n' {
                    Some('\n')
                } else if e == 'r' {
                    Some('\r')
                } else if e == 't' {
                    Some('\t')
                } else if e == 'b' {
                    Some((8u8) as char)
                } else if e == 'f' {
                    Some((12u8) as char)
                } else {
                    None
                };
                match d {
                    Some(c) => match sp_str_body(s.skip(2)) {
                        Some((t, r)) => Some((seq![c] + t, r)),
                        None => None,
                    },
                    None => None,
                }
            }
        }
    } else if (s[0] as u32) < 32 {
        None
    } else {
        match sp_str_body(s.drop_first()) {
            Some((t, r)) => Some((seq![s[0]] + t, r)),
            None => None,
        }
    }
}

/// Parses a complete JSON string (with quotes) from the front of `s`.
pub open spec fn sp_string(s: Seq<char>) -> Option<(Seq<char>, Seq<char>)> {
    if s.len() > 0 && s[0] == '"' {
        sp_str_body(s.drop_first())
    } else {
        None
    }
}

/// A parsed string body leaves a strictly shorter remainder.
pub proof fn lemma_sp_str_body_len(s: Seq<char>)
    ensures
        sp_str_body(s) matches Some((c, r)) ==> r.len() < s.len(),
    decreases s.len(),
{
    if s.len() == 0 {
    } else if s[0] == '"' {
    } else if s[0] == '\\' {
        if s.len() >= 2 {
            if s[1] == 'u' {
                if s.len() >= 6 {
                    lemma_sp_str_body_len(s.skip(6));
                }
            } else {
                lemma_sp_str_body_len(s.skip(2));
            }
        }
    } else {
        lemma_sp_str_body_len(s.drop_first());
    }
}

/// Parsing the escaped form of `c`, a closing quote, and `rest` yields
/// exactly `c` and `rest`: the string codec round-trips.
pub proof fn lemma_str_body_roundtrip(c: Seq<char>, rest: Seq<char>)
    ensures
        sp_str_body(spec_escape(c) + seq!['"'] + rest) == Some((c, rest)),
    decreases c.len(),
{
    let s = spec_escape(c) + seq!['"'] + rest;
    if c.len() == 0 {
        assert(spec_escape(c) =~= Seq::<char>::empty());
        assert(s[0] == '"');
        assert(s.drop_first() =~= rest);
    } else {
        let c0 = c[0];
        let e = spec_escape_char(c0);
        let tail = c.drop_first();
        lemma_str_body_roundtrip(tail, rest);
        let s2 = spec_escape(tail) + seq!['"'] + rest;
        assert(spec_escape(c) =~= e + spec_escape(tail));
        assert(s =~= e + s2);
        assert(s.len() == e.len() + s2.len());
        assert(forall|i: int| 0 <= i < e.len() ==> s[i] == e[i]);
        if c0 == '"' || c0 == '\\' {
            assert(s[0] == '\\');
            assert(s.skip(2) =~= s2);
            assert(seq![c0] + tail =~= c);
        } else if c0 == '\n' || c0 == '\r' || c0 == '\t' {
            assert(s[0] == '\\');
            assert(s.skip(2) =~= s2);
            assert(seq![c0] + tail =~= c);
        } else if (c0 as u32) < 32 {
            broadcast use vstd::utf8::char_u32_cast;

            assert(s[0] == '\\' && s[1] == 'u' && s[2] == '0' && s[3] == '0');
            let cu = (c0 as u32) as int;
            let hi = ((c0 as u32) / 16) as int;
            let lo = ((c0 as u32) % 16) as int;
            assert(s[4] == spec_hex_char(hi) && s[5] == spec_hex_char(lo));
            assert(0 <= hi < 2 && 0 <= lo < 16);
            assert(spec_hex_val(spec_hex_char(hi)) == hi);
            assert(spec_hex_val(spec_hex_char(lo)) == lo);
            assert(hi * 16 + lo == cu);
            let ch = (cu as u8) as char;
            let u: u32 = ch as u32;
            assert(u == c0 as u32);
            assert((u as char) == ch);
            vstd::utf8::char_u32_cast(c0, u);
            assert(ch == c0);
            assert(s.skip(6) =~= s2);
            assert(seq![c0] + tail =~= c);
        } else {
            assert(s[0] == c0);
            assert(s[0] != '"' && s[0] != '\\' && !((s[0] as u32) < 32));
            assert(s.drop_first() =~= s2);
            assert(seq![c0] + tail =~= c);
        }
    }
}



// --- Numbers ---

/// Splits the longest digit prefix off the front of `s`.
pub open spec fn sp_digits(s: Seq<char>) -> (Seq<char>, Seq<char>)
    decreases s.len(),
{
    if s.len() > 0 && '0' <= s[0] <= '9' {
        let (d, r) = sp_digits(s.drop_first());
        (seq![s[0]] + d, r)
    } else {
        (Seq::<char>::empty(), s)
    }
}

/// The numeric value of a digit sequence, most significant first.
pub open spec fn spec_digits_val(d: Seq<char>) -> nat
    decreases d.len(),
{
    if d.len() == 0 {
        0
    } else {
        spec_digits_val(d.drop_last()) * 10 + (if '0' <= d.last() <= '9' {
            ((d.last() as u32) - 48) as nat
        } else {
            0
        })
    }
}

/// Parses an unsigned decimal number from the front of `s`.
pub open spec fn sp_number(s: Seq<char>) -> Option<(u64, Seq<char>)> {
    let (d, r) = sp_digits(s);
    if d.len() == 0 {
        None
    } else if spec_digits_val(d) > u64::MAX {
        None
    } else {
        Some(((spec_digits_val(d) as u64), r))
    }
}

/// The digit split returns a true split of the input.
pub proof fn lemma_sp_digits_split(s: Seq<char>)
    ensures
        ({
            let (d, r) = sp_digits(s);
            &&& d + r =~= s
            &&& d.len() + r.len() == s.len()
            &&& (forall|i: int| 0 <= i < d.len() ==> '0' <= #[trigger] d[i] <= '9')
            &&& (r.len() > 0 ==> !('0' <= r[0] <= '9'))
        }),
    decreases s.len(),
{
    if s.len() > 0 && '0' <= s[0] <= '9' {
        lemma_sp_digits_split(s.drop_first());
        let (d2, r2) = sp_digits(s.drop_first());
        assert(d2 + r2 =~= s.drop_first());
        assert(seq![s[0]] + s.drop_first() =~= s);
        assert(seq![s[0]] + d2 + r2 =~= seq![s[0]] + (d2 + r2));
        assert(seq![s[0]] + d2 + r2 =~= s);
        let d = seq![s[0]] + d2;
        assert forall|i: int| 0 <= i < d.len() implies '0' <= #[trigger] d[i] <= '9' by {
            if i > 0 {
                assert(d[i] == d2[i - 1]);
            }
        }
    } else {
        let (d, r) = sp_digits(s);
        assert(d + r =~= s);
    }
}

/// Splitting a digit sequence followed by a non-digit remainder recovers
/// both parts.
pub proof fn lemma_sp_digits_of(d: Seq<char>, rest: Seq<char>)
    requires
        forall|i: int| 0 <= i < d.len() ==> '0' <= #[trigger] d[i] <= '9',
        rest.len() > 0 ==> !('0' <= rest[0] <= '9'),
    ensures
        sp_digits(d + rest) == (d, rest),
    decreases d.len(),
{
    let s = d + rest;
    if d.len() == 0 {
        assert(s =~= rest);
        if rest.len() > 0 {
            assert(!('0' <= s[0] <= '9'));
        }
        assert(sp_digits(s) == (Seq::<char>::empty(), s));
        assert(sp_digits(d + rest).0 =~= d);
    } else {
        assert(s[0] == d[0]);
        lemma_sp_digits_of(d.drop_first(), rest);
        assert(s.drop_first() =~= d.drop_first() + rest);
        assert(seq![d[0]] + d.drop_first() =~= d);
    }
}

/// The decimal rendering of `n` evaluates back to `n`.
pub proof fn lemma_digits_val_of_dec(n: nat)
    ensures
        spec_digits_val(spec_dec(n)) == n,
    decreases n,
{
    if n < 10 {
        let d = spec_dec(n);
        assert(d =~= seq![crate::text::spec_digit_char(n as int)]);
        assert(d.drop_last() =~= Seq::<char>::empty());
        assert(spec_digits_val(Seq::<char>::empty()) == 0);
        assert(d.last() == (((n + 48) as u8) as char));
        assert((d.last() as u32) == n + 48);
    } else {
        lemma_digits_val_of_dec(n / 10);
        let d = spec_dec(n);
        assert(d.drop_last() =~= spec_dec(n / 10));
        assert(d.last() == crate::text::spec_digit_char((n % 10) as int));
        assert(d.last() == (((n % 10 + 48) as u8) as char));
        assert((d.last() as u32) == n % 10 + 48);
    }
}

/// Parsing the decimal rendering of `n` followed by a non-digit remainder
/// yields exactly `n`: the number codec round-trips.
pub proof fn lemma_number_roundtrip(n: u64, rest: Seq<char>)
    requires
        rest.len() > 0 ==> !('0' <= rest[0] <= '9'),
    ensures
        sp_number(spec_dec(n as nat) + rest) == Some((n, rest)),
{
    crate::text::lemma_spec_dec_digits(n as nat);
    lemma_sp_digits_of(spec_dec(n as nat), rest);
    lemma_digits_val_of_dec(n as nat);
}

// --- Values ---

/// Parses one JSON value (string, number, or `null`) from the front of `s`.
pub open spec fn sp_value(s: Seq<char>) -> Option<(JsonView, Seq<char>)> {
    if s.len() == 0 {
        None
    } else if s[0] == '"' {
        match sp_string(s) {
            Some((c, r)) => Some((JsonView::Str(c), r)),
            None => None,
        }
    } else if '0' <= s[0] <= '9' {
        match sp_number(s) {
            Some((n, r)) => Some((JsonView::UInt(n), r)),
            None => None,
        }
    } else if s.len() >= 4 && s[0] == 'n' && s[1] == 'u' && s[2] == 'l' && s[3] == 'l' {
        Some((JsonView::Null, s.skip(4)))
    } else {
        None
    }
}

/// The encoded form of one value.
pub open spec fn spec_encode_value(v: JsonView) -> Seq<char> {
    match v {
        JsonView::Null => "null"@,
        JsonView::Str(s) => spec_json_string(s),
        JsonView::UInt(n) => spec_dec(n as nat),
    }
}

/// A parsed string leaves a strictly shorter remainder.
pub proof fn lemma_sp_string_len(s: Seq<char>)
    ensures
        sp_string(s) matches Some((c, r)) ==> r.len() < s.len(),
{
    if s.len() > 0 && s[0] == '"' {
        lemma_sp_str_body_len(s.drop_first());
    }
}

/// A parsed value leaves a strictly shorter remainder.
pub proof fn lemma_sp_value_len(s: Seq<char>)
    ensures
        sp_value(s) matches Some((v, r)) ==> r.len() < s.len(),
{
    if s.len() == 0 {
    } else if s[0] == '"' {
        lemma_sp_string_len(s);
    } else if '0' <= s[0] <= '9' {
        lemma_sp_digits_split(s);
    }
}

/// Parsing the encoding of a value followed by a remainder that does not
/// begin with a digit yields exactly that value: the value codec
/// round-trips.
pub proof fn lemma_value_roundtrip(v: JsonView, rest: Seq<char>)
    requires
        rest.len() > 0 ==> !('0' <= rest[0] <= '9'),
    ensures
        sp_value(spec_encode_value(v) + rest) == Some((v, rest)),
{
    let s = spec_encode_value(v) + rest;
    match v {
        JsonView::Null => {
            reveal_strlit("null");
            assert(s[0] == 'n' && s[1] == 'u' && s[2] == 'l' && s[3] == 'l');
            assert(s.skip(4) =~= rest);
        },
        JsonView::Str(c) => {
            assert(s[0] == '"');
            lemma_str_body_roundtrip(c, rest);
            assert(s.drop_first() =~= spec_escape(c) + seq!['"'] + rest);
        },
        JsonView::UInt(n) => {
            crate::text::lemma_spec_dec_digits(n as nat);
            assert('0' <= s[0] <= '9');
            assert(s[0] != '"' && s[0] != 'n');
            lemma_number_roundtrip(n, rest);
        },
    }
}

// --- Objects ---

/// One encoded member: the key as a JSON string, a colon, and the value.
pub open spec fn spec_encode_member(k: Seq<char>, v: JsonView) -> Seq<char> {
    spec_json_string(k) + seq![':'] + spec_encode_value(v)
}

/// The encoded members of a field list, comma-separated.
pub open spec fn spec_encode_fields(fs: Seq<(Seq<char>, JsonView)>) -> Seq<char>
    decreases fs.len(),
{
    if fs.len() == 0 {
        Seq::<char>::empty()
    } else if fs.len() == 1 {
        spec_encode_member(fs[0].0, fs[0].1)
    } else {
        spec_encode_member(fs[0].0, fs[0].1) + seq![','] + spec_encode_fields(fs.drop_first())
    }
}

/// A complete encoded object.
pub open spec fn spec_encode_obj(fs: Seq<(Seq<char>, JsonView)>) -> Seq<char> {
    seq!['{'] + spec_encode_fields(fs) + seq!['}']
}

/// Parses a non-empty member list and the closing brace from the front of
/// `s`, returning the fields and the remainder after the brace.
pub open spec fn sp_members(s: Seq<char>) -> Option<(Seq<(Seq<char>, JsonView)>, Seq<char>)>
    decreases s.len(),
    via sp_members_decreases
{
    match sp_string(s) {
        None => None,
        Some((k, r1)) => if r1.len() == 0 || r1[0] != ':' {
            None
        } else {
            match sp_value(r1.drop_first()) {
                None => None,
                Some((v, r2)) => if r2.len() == 0 {
                    None
                } else if r2[0] == ',' {
                    match sp_members(r2.drop_first()) {
                        None => None,
                        Some((fs, r3)) => Some((seq![(k, v)] + fs, r3)),
                    }
                } else if r2[0] == '}' {
                    Some((seq![(k, v)], r2.drop_first()))
                } else {
                    None
                },
            }
        },
    }
}

#[via_fn]
proof fn sp_members_decreases(s: Seq<char>) {
    lemma_sp_string_len(s);
    match sp_string(s) {
        None => {},
        Some((k, r1)) => {
            if r1.len() > 0 && r1[0] == ':' {
                lemma_sp_value_len(r1.drop_first());
            }
        },
    }
}

/// Parses a complete JSON object from the front of `s`.
pub open spec fn sp_object(s: Seq<char>) -> Option<(Seq<(Seq<char>, JsonView)>, Seq<char>)> {
    if s.len() >= 2 && s[0] == '{' && s[1] == '}' {
        Some((Seq::<(Seq<char>, JsonView)>::empty(), s.skip(2)))
    } else if s.len() > 0 && s[0] == '{' {
        sp_members(s.drop_first())
    } else {
        None
    }
}

/// Parsing the encoded members of a non-empty field list, the closing
/// brace, and a remainder yields exactly those fields.
#[verifier::rlimit(100)]
pub proof fn lemma_members_roundtrip(fs: Seq<(Seq<char>, JsonView)>, rest: Seq<char>)
    requires
        fs.len() >= 1,
    ensures
        sp_members(spec_encode_fields(fs) + seq!['}'] + rest) == Some((fs, rest)),
    decreases fs.len(),
{
    let s = spec_encode_fields(fs) + seq!['}'] + rest;
    let k = fs[0].0;
    let v = fs[0].1;
    assert((k, v) == fs[0]);
    if fs.len() == 1 {
        let vrest = seq!['}'] + rest;
        let r1 = seq![':'] + spec_encode_value(v) + vrest;
        assert(s[0] == '"');
        lemma_str_body_roundtrip(k, r1);
        assert(s.drop_first() =~= spec_escape(k) + seq!['"'] + r1);
        assert(sp_string(s) == Some((k, r1)));
        assert(r1[0] == ':');
        assert(r1.drop_first() =~= spec_encode_value(v) + vrest);
        assert(vrest[0] == '}');
        lemma_value_roundtrip(v, vrest);
        assert(sp_value(r1.drop_first()) == Some((v, vrest)));
        assert(vrest.drop_first() =~= rest);
        assert(seq![(k, v)] =~= fs);
    } else {
        let tailfs = fs.drop_first();
        lemma_members_roundtrip(tailfs, rest);
        let vrest = seq![','] + spec_encode_fields(tailfs) + seq!['}'] + rest;
        let r1 = seq![':'] + spec_encode_value(v) + vrest;
        assert(s[0] == '"');
        lemma_str_body_roundtrip(k, r1);
        assert(s.drop_first() =~= spec_escape(k) + seq!['"'] + r1);
        assert(sp_string(s) == Some((k, r1)));
        assert(r1[0] == ':');
        assert(r1.drop_first() =~= spec_encode_value(v) + vrest);
        assert(vrest[0] == ',');
        lemma_value_roundtrip(v, vrest);
        assert(sp_value(r1.drop_first()) == Some((v, vrest)));
        assert(vrest.drop_first() =~= spec_encode_fields(tailfs) + seq!['}'] + rest);
        assert(sp_members(vrest.drop_first()) == Some((tailfs, rest)));
        assert(seq![(k, v)] + tailfs =~= fs);
    }
}

/// Parsing the encoding of any field list followed by a remainder yields
/// exactly that field list: the object codec round-trips.
pub proof fn lemma_object_roundtrip(fs: Seq<(Seq<char>, JsonView)>, rest: Seq<char>)
    ensures
        sp_object(spec_encode_obj(fs) + rest) == Some((fs, rest)),
{
    let s = spec_encode_obj(fs) + rest;
    assert(s[0] == '{');
    if fs.len() == 0 {
        assert(spec_encode_fields(fs) =~= Seq::<char>::empty());
        assert(s[1] == '}');
        assert(s.skip(2) =~= rest);
        assert(fs =~= Seq::<(Seq<char>, JsonView)>::empty());
    } else {
        lemma_members_roundtrip(fs, rest);
        assert(s.drop_first() =~= spec_encode_fields(fs) + seq!['}'] + rest);
        // A member list begins with the key's opening quote, so the
        // empty-object branch does not apply.
        assert(spec_encode_fields(fs)[0] == '"');
        assert(s[1] == '"');
    }
}



// --- The executable encoder ---

/// The contents of a field list.
pub open spec fn fields_view(fs: Seq<(String, Json)>) -> Seq<(Seq<char>, JsonView)> {
    fs.map_values(|p: (String, Json)| (p.0@, p.1@))
}

/// Encoding distributes over splitting a field list in two non-empty
/// halves, with the separating comma.
pub proof fn lemma_encode_fields_concat(a: Seq<(Seq<char>, JsonView)>, b: Seq<(Seq<char>, JsonView)>)
    requires
        a.len() >= 1,
        b.len() >= 1,
    ensures
        spec_encode_fields(a + b) == spec_encode_fields(a) + seq![','] + spec_encode_fields(b),
    decreases a.len(),
{
    let s = a + b;
    assert(s[0] == a[0]);
    if a.len() == 1 {
        assert(s.drop_first() =~= b);
        assert(s.len() > 1);
    } else {
        lemma_encode_fields_concat(a.drop_first(), b);
        assert(s.drop_first() =~= a.drop_first() + b);
        assert(spec_encode_member(a[0].0, a[0].1) + seq![','] + (spec_encode_fields(a.drop_first())
            + seq![','] + spec_encode_fields(b)) =~= spec_encode_member(a[0].0, a[0].1) + seq![',']
            + spec_encode_fields(a.drop_first()) + seq![','] + spec_encode_fields(b));
    }
}

/// Renders one value into `out`.
fn encode_value_into(v: &Json, out: &mut Vec<char>)
    ensures
        final(out)@ == old(out)@ + spec_encode_value(v@),
{
    let ghost pre = out@;
    match v {
        Json::Null => {
            out.push('n');
            out.push('u');
            out.push('l');
            out.push('l');
            proof {
                reveal_strlit("null");
                assert(out@ =~= pre + spec_encode_value(v@));
            }
        },
        Json::Str(s) => {
            json_string_into(s.as_str(), out);
        },
        Json::UInt(n) => {
            let mut d = crate::text::u64_to_dec(*n);
            out.append(&mut d);
        },
    }
}

/// Encodes a field list as one compact JSON object.
pub fn encode_json_line(fields: &Vec<(String, Json)>) -> (r: String)
    ensures
        r@ == spec_encode_obj(fields_view(fields@)),
{
    let ghost fv = fields_view(fields@);
    let mut out: Vec<char> = Vec::new();
    out.push('{');
    let mut i: usize = 0;
    while i < fields.len()
        invariant
            i <= fields@.len(),
            fv == fields_view(fields@),
            fv.len() == fields@.len(),
            i == 0 ==> out@ =~= seq!['{'],
            i > 0 ==> out@ =~= seq!['{'] + spec_encode_fields(fv.subrange(0, i as int)),
        decreases fields@.len() - i,
    {
        if i > 0 {
            out.push(',');
        }
        let ghost mid = out@;
        json_string_into(fields[i].0.as_str(), &mut out);
        out.push(':');
        encode_value_into(&fields[i].1, &mut out);
        proof {
            assert(fv[i as int] == (fields@[i as int].0@, fields@[i as int].1@));
            assert(out@ =~= mid + spec_encode_member(fv[i as int].0, fv[i as int].1));
            let pre = fv.subrange(0, i as int);
            let cur = fv.subrange(0, i as int + 1);
            let single = seq![fv[i as int]];
            assert(spec_encode_fields(single) == spec_encode_member(
                fv[i as int].0,
                fv[i as int].1,
            ));
            if i == 0 {
                assert(cur =~= single);
                assert(out@ =~= seq!['{'] + spec_encode_fields(cur));
            } else {
                assert(cur =~= pre + single);
                lemma_encode_fields_concat(pre, single);
                assert(out@ =~= seq!['{'] + spec_encode_fields(cur));
            }
        }
        i = i + 1;
    }
    out.push('}');
    proof {
        if fields@.len() == 0 {
            assert(fv =~= Seq::<(Seq<char>, JsonView)>::empty());
            assert(spec_encode_fields(fv) =~= Seq::<char>::empty());
            assert(out@ =~= spec_encode_obj(fv));
        } else {
            assert(fv.subrange(0, fv.len() as int) =~= fv);
            assert(out@ =~= spec_encode_obj(fv));
        }
    }
    chars_to_string(&out)
}

// --- The executable parser ---

/// Parses a string body starting at `i` (just past the opening quote),
/// appending the decoded characters to `out` and returning the index just
/// past the closing quote.
fn parse_str_body(v: &Vec<char>, i: usize, out: &mut Vec<char>) -> (r: Option<usize>)
    requires
        i <= v@.len(),
    ensures
        match sp_str_body(v@.skip(i as int)) {
            Some((c, rem)) => r matches Some(j) && i <= j <= v@.len() && v@.skip(j as int) == rem
                && final(out)@ == old(out)@ + c,
            None => r is None,
        },
    decreases v@.len() - i,
{
    let ghost s = v@.skip(i as int);
    if i == v.len() {
        return None;
    }
    let c = v[i];
    proof {
        assert(s[0] == v@[i as int]);
    }
    if c == '"' {
        proof {
            assert(v@.skip(i as int + 1) =~= s.drop_first());
            assert(out@ =~= out@ + Seq::<char>::empty());
        }
        Some(i + 1)
    } else if c == '\\' {
        if v.len() - i < 2 {
            return None;
        }
        let e = v[i + 1];
        proof {
            assert(s[1] == v@[i as int + 1]);
        }
        if e == 'u' {
            if v.len() - i < 6 || v[i + 2] != '0' || v[i + 3] != '0' {
                proof {
                    if s.len() >= 6 {
                        assert(s[2] == v@[i as int + 2] && s[3] == v@[i as int + 3]);
                    }
                }
                return None;
            }
            let h1 = v[i + 4];
            let h2 = v[i + 5];
            proof {
                assert(s[4] == v@[i as int + 4] && s[5] == v@[i as int + 5]);
            }
            let hv1 = hex_val(h1);
            let hv2 = hex_val(h2);
            if hv1 >= 16 || hv2 >= 16 {
                return None;
            }
            let code: u8 = hv1 * 16 + hv2;
            out.push((code) as char);
            let ghost mid = out@;
            let r = parse_str_body(v, i + 6, out);
            proof {
                assert(v@.skip(i as int + 6) =~= s.skip(6));
                match sp_str_body(s.skip(6)) {
                    Some((t, rem)) => {
                        assert(out@ =~= old(out)@ + (seq![(
                            (spec_hex_val(s[4]) * 16 + spec_hex_val(s[5])) as u8) as char] + t));
                    },
                    None => {},
                }
            }
            r
        } else {
            let d: Option<char> = if e == '"' {
                Some('"')
            } else if e == '\\' {
                Some('\\')
            } else if e == '/' {
                Some('/')
            } else if e == 'n' {
                Some('\n')
            } else if e == 'r' {
                Some('\r')
            } else if e == 't' {
                Some('\t')
            } else if e == 'b' {
                Some((8u8) as char)
            } else if e == 'f' {
                Some((12u8) as char)
            } else {
                None
            };
            match d {
                Some(dc) => {
                    out.push(dc);
                    let r = parse_str_body(v, i + 2, out);
                    proof {
                        assert(v@.skip(i as int + 2) =~= s.skip(2));
                        match sp_str_body(s.skip(2)) {
                            Some((t, rem)) => {
                                assert(out@ =~= old(out)@ + (seq![dc] + t));
                            },
                            None => {},
                        }
                    }
                    r
                },
                None => None,
            }
        }
    } else if (c as u32) < 32 {
        None
    } else {
        out.push(c);
        let r = parse_str_body(v, i + 1, out);
        proof {
            assert(v@.skip(i as int + 1) =~= s.drop_first());
            match sp_str_body(s.drop_first()) {
                Some((t, rem)) => {
                    assert(out@ =~= old(out)@ + (seq![s[0]] + t));
                },
                None => {},
            }
        }
        r
    }
}

/// The numeric value of a hex digit character, or 16 for anything else.
fn hex_val(c: char) -> (r: u8)
    ensures
        r as int == spec_hex_val(c),
{
    if '0' <= c && c <= '9' {
        (c as u8) - 48
    } else if 'a' <= c && c <= 'f' {
        (c as u8) - 87
    } else if 'A' <= c && c <= 'F' {
        (c as u8) - 55
    } else {
        16
    }
}

/// Parses a complete JSON string starting at `i`.
fn parse_string(v: &Vec<char>, i: usize) -> (r: Option<(String, usize)>)
    requires
        i <= v@.len(),
    ensures
        match sp_string(v@.skip(i as int)) {
            Some((c, rem)) => r matches Some((s2, j)) && s2@ == c && i < j <= v@.len() && v@.skip(
                j as int,
            ) == rem,
            None => r is None,
        },
{
    let ghost s = v@.skip(i as int);
    if i < v.len() && v[i] == '"' {
        proof {
            assert(s[0] == v@[i as int]);
            assert(v@.skip(i as int + 1) =~= s.drop_first());
        }
        let mut out: Vec<char> = Vec::new();
        match parse_str_body(v, i + 1, &mut out) {
            Some(j) => {
                proof {
                    match sp_str_body(s.drop_first()) {
                        Some((c, rem)) => {
                            assert(out@ =~= c);
                        },
                        None => {},
                    }
                }
                Some((chars_to_string(&out), j))
            },
            None => None,
        }
    } else {
        None
    }
}

/// A digit-sequence prefix never evaluates above the whole sequence.
proof fn lemma_digits_val_prefix(d: Seq<char>, k: int)
    requires
        0 <= k <= d.len(),
    ensures
        spec_digits_val(d.subrange(0, k)) <= spec_digits_val(d),
    decreases d.len(),
{
    if d.len() == 0 || k == d.len() {
        assert(d.subrange(0, k) =~= d);
    } else {
        assert(d.drop_last().subrange(0, k) =~= d.subrange(0, k));
        lemma_digits_val_prefix(d.drop_last(), k);
    }
}

/// Parses an unsigned decimal number starting at `i`.
fn parse_number(v: &Vec<char>, i: usize) -> (r: Option<(u64, usize)>)
    requires
        i <= v@.len(),
    ensures
        match sp_number(v@.skip(i as int)) {
            Some((n, rem)) => r matches Some((n2, j)) && n2 == n && i < j <= v@.len() && v@.skip(
                j as int,
            ) == rem,
            None => r is None,
        },
{
    let ghost s = v@.skip(i as int);
    proof {
        lemma_sp_digits_split(s);
    }
    let ghost dd = sp_digits(s).0;
    let ghost rr = sp_digits(s).1;
    let mut j: usize = i;
    let mut val: u64 = 0;
    while j < v.len() && '0' <= v[j] && v[j] <= '9'
        invariant
            i <= j <= v@.len(),
            s == v@.skip(i as int),
            sp_digits(s) == (dd, rr),
            dd + rr =~= s,
            forall|t: int| 0 <= t < dd.len() ==> '0' <= #[trigger] dd[t] <= '9',
            rr.len() > 0 ==> !('0' <= rr[0] <= '9'),
            j - i <= dd.len(),
            forall|t: int| i <= t < j ==> v@[t] == dd[t - i],
            val == spec_digits_val(dd.subrange(0, j - i)),
        decreases v@.len() - j,
    {
        let dc = v[j];
        let d: u64 = ((dc as u8) - 48) as u64;
        proof {
            // The scanned character is the next one in the digit prefix.
            assert(s[j - i] == v@[j as int]);
            if j - i == dd.len() {
                assert(rr[0] == s[j - i]);
                assert(false);
            }
            assert(dd[j - i] == v@[j as int]);
        }
        if val > (u64::MAX - d) / 10 {
            proof {
                let pre2 = dd.subrange(0, j - i + 1);
                assert(pre2.drop_last() =~= dd.subrange(0, j - i));
                assert(pre2.last() == dd[j - i]);
                assert((dd[j - i] as u32) == 48 + d);
                assert(spec_digits_val(pre2) == val * 10 + d);
                assert(spec_digits_val(pre2) > u64::MAX);
                lemma_digits_val_prefix(dd, j - i + 1);
                assert(spec_digits_val(dd) > u64::MAX);
            }
            return None;
        }
        proof {
            let pre2 = dd.subrange(0, j - i + 1);
            assert(pre2.drop_last() =~= dd.subrange(0, j - i));
            assert(pre2.last() == dd[j - i]);
            assert((dd[j - i] as u32) == 48 + d);
            assert(spec_digits_val(pre2) == val * 10 + d);
        }
        val = val * 10 + d;
        j = j + 1;
    }
    proof {
        // The loop left exactly at the end of the digit prefix.
        if j - i < dd.len() {
            assert(s[j - i] == dd[j - i]);
            if j < v@.len() {
                assert(v@[j as int] == s[j - i]);
            }
            assert(j == v@.len() || !('0' <= v@[j as int] <= '9'));
            assert(dd.len() + rr.len() == s.len());
            assert(j < v@.len());
            assert(false);
        }
        assert(j - i == dd.len());
        assert(dd.subrange(0, j - i) =~= dd);
        assert forall|t: int| 0 <= t < rr.len() implies v@.skip(j as int)[t] == rr[t] by {
            assert(s[j - i + t] == v@[j + t]);
            assert((dd + rr)[dd.len() + t] == rr[t]);
        }
        assert(v@.skip(j as int) =~= rr);
    }
    if j == i {
        proof {
            assert(dd.len() == 0);
        }
        None
    } else {
        Some((val, j))
    }
}

/// Parses one JSON value starting at `i`.
fn parse_value(v: &Vec<char>, i: usize) -> (r: Option<(Json, usize)>)
    requires
        i <= v@.len(),
    ensures
        match sp_value(v@.skip(i as int)) {
            Some((jv, rem)) => r matches Some((out, j)) && out@ == jv && i < j <= v@.len()
                && v@.skip(j as int) == rem,
            None => r is None,
        },
{
    let ghost s = v@.skip(i as int);
    if i == v.len() {
        return None;
    }
    let c = v[i];
    proof {
        assert(s[0] == v@[i as int]);
    }
    if c == '"' {
        match parse_string(v, i) {
            Some((st, j)) => Some((Json::Str(st), j)),
            None => None,
        }
    } else if '0' <= c && c <= '9' {
        match parse_number(v, i) {
            Some((n, j)) => Some((Json::UInt(n), j)),
            None => None,
        }
    } else if v.len() - i >= 4 && c == 'n' && v[i + 1] == 'u' && v[i + 2] == 'l' && v[i + 3]
        == 'l' {
        proof {
            assert(s.len() >= 4);
            assert(s[1] == v@[i as int + 1] && s[2] == v@[i as int + 2]);
            assert(s[3] == v@[i as int + 3]);
            assert(v@.skip(i as int + 4) =~= s.skip(4));
        }
        Some((Json::Null, i + 4))
    } else {
        proof {
            if s.len() >= 4 {
                assert(s[1] == v@[i as int + 1] && s[2] == v@[i as int + 2]);
                assert(s[3] == v@[i as int + 3]);
            }
        }
        None
    }
}

/// Parses a non-empty member list and the closing brace starting at `i`,
/// appending the members to `fields`.
fn parse_members(v: &Vec<char>, i: usize, fields: &mut Vec<(String, Json)>) -> (r: Option<usize>)
    requires
        i <= v@.len(),
    ensures
        match sp_members(v@.skip(i as int)) {
            Some((fs, rem)) => r matches Some(j) && i < j <= v@.len() && v@.skip(j as int) == rem
                && fields_view(final(fields)@) == fields_view(old(fields)@) + fs,
            None => r is None,
        },
    decreases v@.len() - i,
{
    let ghost s = v@.skip(i as int);
    let key = match parse_string(v, i) {
        Some(kj) => kj,
        None => {
            return None;
        },
    };
    let (k, j1) = key;
    proof {
        lemma_sp_string_len(s);
    }
    if j1 == v.len() || v[j1] != ':' {
        proof {
            match sp_string(s) {
                Some((c, r1)) => {
                    assert(r1.len() == v@.len() - j1);
                    if r1.len() > 0 {
                        assert(r1[0] == v@[j1 as int]);
                    }
                },
                None => {},
            }
        }
        return None;
    }
    proof {
        match sp_string(s) {
            Some((c, r1)) => {
                assert(r1[0] == v@[j1 as int]);
                assert(v@.skip(j1 as int + 1) =~= r1.drop_first());
            },
            None => {},
        }
    }
    let value = match parse_value(v, j1 + 1) {
        Some(vj) => vj,
        None => {
            return None;
        },
    };
    let (val, j2) = value;
    proof {
        match sp_string(s) {
            Some((c, r1)) => {
                lemma_sp_value_len(r1.drop_first());
            },
            None => {},
        }
    }
    if j2 == v.len() {
        return None;
    }
    let sep = v[j2];
    proof {
        match sp_string(s) {
            Some((c, r1)) => {
                match sp_value(r1.drop_first()) {
                    Some((vv, r2)) => {
                        assert(r2[0] == v@[j2 as int]);
                    },
                    None => {},
                }
            },
            None => {},
        }
    }
    if sep == ',' {
        fields.push((k, val));
        let ghost mid = fields@;
        proof {
            assert(v@.skip(j2 as int + 1) =~= v@.skip(j2 as int).drop_first());
        }
        let r = parse_members(v, j2 + 1, fields);
        proof {
            match sp_string(s) {
                Some((c, r1)) => {
                    match sp_value(r1.drop_first()) {
                        Some((vv, r2)) => {
                            match sp_members(r2.drop_first()) {
                                Some((fs2, r3)) => {
                                    assert(fields_view(mid) =~= fields_view(old(fields)@) + seq![
                                        (c, vv),
                                    ]);
                                    assert(fields_view(fields@) =~= fields_view(old(fields)@) + (
                                    seq![(c, vv)] + fs2));
                                },
                                None => {},
                            }
                        },
                        None => {},
                    }
                },
                None => {},
            }
        }
        r
    } else if sep == '}' {
        fields.push((k, val));
        proof {
            match sp_string(s) {
                Some((c, r1)) => {
                    match sp_value(r1.drop_first()) {
                        Some((vv, r2)) => {
                            assert(fields_view(fields@) =~= fields_view(old(fields)@) + seq![
                                (c, vv),
                            ]);
                            assert(v@.skip(j2 as int + 1) =~= r2.drop_first());
                        },
                        None => {},
                    }
                },
                None => {},
            }
        }
        Some(j2 + 1)
    } else {
        None
    }
}

/// Parses one line as a complete, compact JSON object. The whole line must
/// be consumed.
pub fn parse_json_line(line: &str) -> (r: Option<Vec<(String, Json)>>)
    ensures
        match sp_object(line@) {
            Some((fs, rem)) => if rem.len() == 0 {
                r matches Some(out) && fields_view(out@) == fs
            } else {
                r is None
            },
            None => r is None,
        },
{
    let v = str_to_chars(line);
    if v.len() == 0 || v[0] != '{' {
        return None;
    }
    if v.len() == 2 && v[1] == '}' {
        proof {
            assert(fields_view(Seq::<(String, Json)>::empty())
                =~= Seq::<(Seq<char>, JsonView)>::empty());
        }
        return Some(Vec::new());
    }
    if v.len() >= 2 && v[1] == '}' {
        // `{}` followed by trailing characters.
        return None;
    }
    let mut fields: Vec<(String, Json)> = Vec::new();
    proof {
        assert(v@.skip(1) =~= line@.drop_first());
    }
    let r = parse_members(&v, 1, &mut fields);
    match r {
        Some(j) => {
            if j == v.len() {
                proof {
                    match sp_members(line@.drop_first()) {
                        Some((fs, rem)) => {
                            assert(fields_view(fields@) =~= fields_view(
                                Seq::<(String, Json)>::empty(),
                            ) + fs);
                            assert(fields_view(fields@) =~= fs);
                        },
                        None => {},
                    }
                }
                Some(fields)
            } else {
                None
            }
        },
        None => None,
    }
}

/// The value of the first field with the given key.
pub open spec fn spec_get(fs: Seq<(Seq<char>, JsonView)>, key: Seq<char>) -> Option<JsonView>
    decreases fs.len(),
{
    if fs.len() == 0 {
        None
    } else if fs[0].0 == key {
        Some(fs[0].1)
    } else {
        spec_get(fs.drop_first(), key)
    }
}

/// Returns the first field with the given key, if any.
pub fn get_field<'a>(fields: &'a Vec<(String, Json)>, name: &str) -> (r: Option<&'a Json>)
    ensures
        match spec_get(fields_view(fields@), name@) {
            Some(jv) => r matches Some(j) && j@ == jv,
            None => r is None,
        },
{
    let needle = String::from_str(name);
    let ghost fv = fields_view(fields@);
    proof {
        assert(fv.skip(0) =~= fv);
    }
    let mut i: usize = 0;
    while i < fields.len()
        invariant
            i <= fields@.len(),
            needle@ == name@,
            fv == fields_view(fields@),
            fv.len() == fields@.len(),
            spec_get(fv, name@) == spec_get(fv.skip(i as int), name@),
        decreases fields@.len() - i,
    {
        proof {
            assert(fv.skip(i as int)[0] == fv[i as int]);
            assert(fv[i as int] == (fields@[i as int].0@, fields@[i as int].1@));
        }
        if fields[i].0.eq(&needle) {
            return Some(&fields[i].1);
        }
        proof {
            assert(fv.skip(i as int).drop_first() =~= fv.skip(i as int + 1));
        }
        i = i + 1;
    }
    proof {
        assert(fv.skip(fv.len() as int) =~= Seq::<(Seq<char>, JsonView)>::empty());
    }
    None
}

} // verus!
