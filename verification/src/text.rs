//! Character and string helpers shared by the formatter and the storage
//! codec: decimal rendering, ASCII case mapping, and `String` building.

use vstd::prelude::*;

verus! {

/// Relies on `String::push`: appends one character to the end of the string.
#[verifier::external_body]
pub fn push_char(s: &mut String, c: char)
    ensures
        final(s)@ == old(s)@.push(c),
{
    s.push(c)
}

/// Builds a `String` holding exactly the given characters.
pub fn chars_to_string(v: &Vec<char>) -> (r: String)
    ensures
        r@ == v@,
{
    let mut r = String::new();
    let mut i: usize = 0;
    while i < v.len()
        invariant
            i <= v.len(),
            r@ == v@.subrange(0, i as int),
        decreases v.len() - i,
    {
        push_char(&mut r, v[i]);
        i = i + 1;
        proof {
            assert(r@ =~= v@.subrange(0, i as int));
        }
    }
    proof {
        assert(r@ =~= v@);
    }
    r
}

/// Collects the characters of a string slice into a vector.
pub fn str_to_chars(s: &str) -> (r: Vec<char>)
    ensures
        r@ == s@,
{
    let n = s.unicode_len();
    let mut r: Vec<char> = Vec::new();
    let mut i: usize = 0;
    while i < n
        invariant
            i <= n,
            n == s@.len(),
            r@ == s@.subrange(0, i as int),
        decreases n - i,
    {
        r.push(s.get_char(i));
        i = i + 1;
        proof {
            assert(r@ =~= s@.subrange(0, i as int));
        }
    }
    proof {
        assert(r@ =~= s@);
    }
    r
}

/// Compares two string slices by contents.
pub fn str_eq(a: &str, b: &str) -> (r: bool)
    ensures
        r == (a@ == b@),
{
    let sa = String::from_str(a);
    let sb = String::from_str(b);
    sa.eq(&sb)
}

/// Relies on `str::len`: the slice's UTF-8 byte length, which for any real
/// slice fits in `usize`.
#[verifier::external_body]
pub fn byte_len(s: &str) -> (n: usize)
    ensures
        n as nat == vstd::utf8::encode_utf8(s@).len(),
{
    s.len()
}

/// The character for a single decimal digit.
pub open spec fn spec_digit_char(d: int) -> char {
    ((d + 48) as u8) as char
}

/// Decimal representation of a natural number, most significant digit first,
/// with no leading zeros (`0` is rendered as `"0"`).
pub open spec fn spec_dec(n: nat) -> Seq<char>
    decreases n,
{
    if n < 10 {
        seq![spec_digit_char(n as int)]
    } else {
        spec_dec(n / 10) + seq![spec_digit_char((n % 10) as int)]
    }
}

/// Every character of a decimal rendering is an ASCII digit.
pub proof fn lemma_spec_dec_digits(n: nat)
    ensures
        forall|i: int| 0 <= i < spec_dec(n).len() ==> '0' <= #[trigger] spec_dec(n)[i] <= '9',
        spec_dec(n).len() >= 1,
    decreases n,
{
    if n < 10 {
        assert(spec_dec(n) =~= seq![spec_digit_char(n as int)]);
    } else {
        lemma_spec_dec_digits(n / 10);
    }
}

/// Renders `n` in decimal.
pub fn u64_to_dec(n: u64) -> (r: Vec<char>)
    ensures
        r@ == spec_dec(n as nat),
    decreases n,
{
    if n < 10 {
        let d: char = ((n as u8) + 48) as char;
        let r: Vec<char> = vec![d];
        proof {
            assert(r@ =~= spec_dec(n as nat));
        }
        r
    } else {
        let mut r = u64_to_dec(n / 10);
        let d: char = (((n % 10) as u8) + 48) as char;
        r.push(d);
        proof {
            assert(r@ =~= spec_dec(n as nat));
        }
        r
    }
}

/// Renders `n` in decimal as a `String`.
pub fn u64_to_dec_string(n: u64) -> (r: String)
    ensures
        r@ == spec_dec(n as nat),
{
    let v = u64_to_dec(n);
    chars_to_string(&v)
}

/// Decimal representation padded with leading zeros to at least `w` characters.
pub open spec fn spec_dec_pad(n: nat, w: nat) -> Seq<char> {
    let d = spec_dec(n);
    if d.len() >= w {
        d
    } else {
        Seq::new((w - d.len()) as nat, |i: int| '0') + d
    }
}

/// Renders `n` in decimal, zero-padded to at least `w` characters.
pub fn u64_to_dec_pad(n: u64, w: usize) -> (r: Vec<char>)
    ensures
        r@ == spec_dec_pad(n as nat, w as nat),
{
    let d = u64_to_dec(n);
    if d.len() >= w {
        d
    } else {
        let pad = w - d.len();
        let mut r: Vec<char> = Vec::new();
        let mut i: usize = 0;
        while i < pad
            invariant
                i <= pad,
                r@ =~= Seq::new(i as nat, |k: int| '0'),
            decreases pad - i,
        {
            r.push('0');
            i = i + 1;
            proof {
                assert(r@ =~= Seq::new(i as nat, |k: int| '0'));
            }
        }
        let mut j: usize = 0;
        while j < d.len()
            invariant
                j <= d@.len(),
                d@ == spec_dec(n as nat),
                r@ =~= Seq::new(pad as nat, |k: int| '0') + d@.subrange(0, j as int),
            decreases d@.len() - j,
        {
            r.push(d[j]);
            j = j + 1;
            proof {
                assert(r@ =~= Seq::new(pad as nat, |k: int| '0') + d@.subrange(0, j as int));
            }
        }
        proof {
            assert(d@.subrange(0, d@.len() as int) =~= d@);
            assert(r@ =~= spec_dec_pad(n as nat, w as nat));
        }
        r
    }
}

/// ASCII lower-casing of one character: `A`–`Z` map to `a`–`z`, everything
/// else is unchanged.
pub open spec fn spec_lower_char(c: char) -> char {
    if 'A' <= c <= 'Z' {
        (((c as u8) + 32) as u8) as char
    } else {
        c
    }
}

/// ASCII upper-casing of one character: `a`–`z` map to `A`–`Z`, everything
/// else is unchanged.
pub open spec fn spec_upper_char(c: char) -> char {
    if 'a' <= c <= 'z' {
        (((c as u8) - 32) as u8) as char
    } else {
        c
    }
}

/// ASCII lower-casing of a character sequence.
pub open spec fn spec_lower(s: Seq<char>) -> Seq<char> {
    s.map_values(|c: char| spec_lower_char(c))
}

/// ASCII upper-casing of a character sequence.
pub open spec fn spec_upper(s: Seq<char>) -> Seq<char> {
    s.map_values(|c: char| spec_upper_char(c))
}

/// Lower-cases the ASCII letters of one character.
pub fn lower_char(c: char) -> (r: char)
    ensures
        r == spec_lower_char(c),
{
    if 'A' <= c && c <= 'Z' {
        (((c as u8) + 32) as u8) as char
    } else {
        c
    }
}

/// Upper-cases the ASCII letters of one character.
pub fn upper_char(c: char) -> (r: char)
    ensures
        r == spec_upper_char(c),
{
    if 'a' <= c && c <= 'z' {
        (((c as u8) - 32) as u8) as char
    } else {
        c
    }
}

/// Lower-cases the ASCII letters of a string.
pub fn lower_string(s: &str) -> (r: String)
    ensures
        r@ == spec_lower(s@),
{
    let v = str_to_chars(s);
    let mut out: Vec<char> = Vec::new();
    let mut i: usize = 0;
    while i < v.len()
        invariant
            i <= v.len(),
            v@ == s@,
            out@ =~= spec_lower(s@).subrange(0, i as int),
        decreases v.len() - i,
    {
        out.push(lower_char(v[i]));
        i = i + 1;
        proof {
            assert(out@ =~= spec_lower(s@).subrange(0, i as int));
        }
    }
    proof {
        assert(out@ =~= spec_lower(s@));
    }
    chars_to_string(&out)
}

/// Upper-cases the ASCII letters of a string.
pub fn upper_string(s: &str) -> (r: String)
    ensures
        r@ == spec_upper(s@),
{
    let v = str_to_chars(s);
    let mut out: Vec<char> = Vec::new();
    let mut i: usize = 0;
    while i < v.len()
        invariant
            i <= v.len(),
            v@ == s@,
            out@ =~= spec_upper(s@).subrange(0, i as int),
        decreases v.len() - i,
    {
        out.push(upper_char(v[i]));
        i = i + 1;
        proof {
            assert(out@ =~= spec_upper(s@).subrange(0, i as int));
        }
    }
    proof {
        assert(out@ =~= spec_upper(s@));
    }
    chars_to_string(&out)
}

/// Appends every character of `v` to the string.
pub fn push_chars(s: &mut String, v: &Vec<char>)
    ensures
        final(s)@ == old(s)@ + v@,
{
    let mut i: usize = 0;
    while i < v.len()
        invariant
            i <= v.len(),
            s@ =~= old(s)@ + v@.subrange(0, i as int),
        decreases v.len() - i,
    {
        push_char(s, v[i]);
        i = i + 1;
        proof {
            assert(s@ =~= old(s)@ + v@.subrange(0, i as int));
        }
    }
    proof {
        assert(s@ =~= old(s)@ + v@);
    }
}

} // verus!
