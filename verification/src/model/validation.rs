//! Field-level validation and normalization rules for the domain model.

use vstd::prelude::*;

use crate::text::{
    spec_lower_char, spec_upper, lower_char, upper_char, upper_string, str_to_chars,
    chars_to_string,
};

verus! {

/// Validation errors for domain model fields. The payload, where present,
/// is the offending input text.
#[derive(Debug, Clone, PartialEq, Eq)]
pub enum ValidationError {
    EmptyCallsign,
    InvalidCallsign(String),
    InvalidParkRef(String),
    InvalidGridSquare(String),
    InvalidTxCount,
    EmptySection,
    InvalidFdClass(String),
    InvalidWfdClass(String),
}

/// Characters a callsign may hold: ASCII letters, digits, and `/`.
pub open spec fn spec_callsign_char(c: char) -> bool {
    ('A' <= c <= 'Z') || ('a' <= c <= 'z') || ('0' <= c <= '9') || c == '/'
}

/// A valid callsign is non-empty and holds only callsign characters.
pub open spec fn spec_valid_callsign(s: Seq<char>) -> bool {
    s.len() > 0 && forall|i: int| 0 <= i < s.len() ==> spec_callsign_char(#[trigger] s[i])
}

/// A valid park reference is 1–3 uppercase letters, a hyphen, and 4–5 digits.
pub open spec fn spec_valid_park_ref(s: Seq<char>) -> bool {
    exists|k: int|
        {
            &&& 1 <= k <= 3
            &&& k < s.len()
            &&& #[trigger] s[k] == '-'
            &&& (s.len() - k == 5 || s.len() - k == 6)
            &&& (forall|i: int| 0 <= i < k ==> 'A' <= #[trigger] s[i] <= 'Z')
            &&& (forall|i: int| k < i < s.len() ==> '0' <= #[trigger] s[i] <= '9')
        }
}

/// A valid Maidenhead grid square: two field letters `A`–`R`, two digits,
/// and an optional subsquare of two lowercase letters `a`–`x`.
pub open spec fn spec_valid_grid(s: Seq<char>) -> bool {
    &&& (s.len() == 4 || s.len() == 6)
    &&& 'A' <= s[0] <= 'R'
    &&& 'A' <= s[1] <= 'R'
    &&& '0' <= s[2] <= '9'
    &&& '0' <= s[3] <= '9'
    &&& (s.len() == 6 ==> 'a' <= s[4] <= 'x' && 'a' <= s[5] <= 'x')
}

/// Grid normalization: the four mandatory characters are upper-cased, the
/// rest lower-cased (the canonical form of a six-character grid square is
/// mixed-case, e.g. `FN31pr`).
pub open spec fn spec_normalize_grid(s: Seq<char>) -> Seq<char> {
    Seq::new(
        s.len(),
        |i: int|
            if i < 4 {
                crate::text::spec_upper_char(s[i])
            } else {
                spec_lower_char(s[i])
            },
    )
}

/// The error `validate_callsign` reports for the invalid text `s`: the
/// empty-callsign error for empty input, otherwise the invalid-callsign
/// error carrying the text.
pub open spec fn spec_callsign_err(e: ValidationError, s: Seq<char>) -> bool {
    if s.len() == 0 {
        e == ValidationError::EmptyCallsign
    } else {
        e matches ValidationError::InvalidCallsign(t) && t@ == s
    }
}

/// Validates a callsign: non-empty, only ASCII letters, digits, or `/`.
pub fn validate_callsign(callsign: &str) -> (r: Result<(), ValidationError>)
    ensures
        r is Ok <==> spec_valid_callsign(callsign@),
        !spec_valid_callsign(callsign@) ==> (r matches Err(e) && spec_callsign_err(e, callsign@)),
{
    let v = str_to_chars(callsign);
    if v.len() == 0 {
        return Err(ValidationError::EmptyCallsign);
    }
    let mut i: usize = 0;
    while i < v.len()
        invariant
            i <= v.len(),
            v@ == callsign@,
            forall|j: int| 0 <= j < i ==> spec_callsign_char(#[trigger] v@[j]),
        decreases v.len() - i,
    {
        let c = v[i];
        let ok = ('A' <= c && c <= 'Z') || ('a' <= c && c <= 'z') || ('0' <= c && c <= '9') || c
            == '/';
        if !ok {
            return Err(ValidationError::InvalidCallsign(chars_to_string(&v)));
        }
        i = i + 1;
    }
    Ok(())
}

/// Validates a POTA park reference (e.g. `K-0001`, `VE-01234`).
pub fn validate_park_ref(park_ref: &str) -> (r: Result<(), ValidationError>)
    ensures
        r is Ok <==> spec_valid_park_ref(park_ref@),
        r is Err ==> (r matches Err(e) && e matches ValidationError::InvalidParkRef(t) && t@
            == park_ref@),
{
    let v = str_to_chars(park_ref);
    let ghost s = park_ref@;

    // The letter prefix is at most three characters and cannot contain the
    // hyphen, so the split position of a valid reference is forced.
    let mut k: usize = 0;
    while k < v.len() && k < 3 && 'A' <= v[k] && v[k] <= 'Z'
        invariant
            v@ == s,
            0 <= k <= 3,
            k <= v.len(),
            forall|i: int| 0 <= i < k ==> 'A' <= #[trigger] s[i] <= 'Z',
        decreases v.len() - k,
    {
        k = k + 1;
    }
    let dash_ok = k >= 1 && k < v.len() && v[k] == '-';
    let len_ok = dash_ok && (v.len() - k == 5 || v.len() - k == 6);
    let mut digits_ok = true;
    if len_ok {
        let mut i: usize = k + 1;
        while i < v.len()
            invariant
                v@ == s,
                k + 1 <= i <= v.len(),
                k < v.len(),
                digits_ok == (forall|j: int| k < j < i ==> '0' <= #[trigger] s[j] <= '9'),
            decreases v.len() - i,
        {
            if !('0' <= v[i] && v[i] <= '9') {
                digits_ok = false;
            }
            i = i + 1;
        }
    }
    let ok = len_ok && digits_ok;
    proof {
        if ok {
            assert(spec_valid_park_ref(s)) by {
                assert(1 <= k <= 3 && (k as int) < s.len() && s[k as int] == '-' && (s.len() - k
                    == 5 || s.len() - k == 6) && (forall|j: int|
                    0 <= j < k ==> 'A' <= #[trigger] s[j] <= 'Z') && (forall|j: int|
                    k < j < s.len() ==> '0' <= #[trigger] s[j] <= '9'));
            }
        } else {
            assert(!spec_valid_park_ref(s)) by {
                assert forall|k2: int|
                    !(1 <= k2 <= 3 && k2 < s.len() && #[trigger] s[k2] == '-' && (s.len() - k2 == 5
                        || s.len() - k2 == 6) && (forall|j: int|
                        0 <= j < k2 ==> 'A' <= #[trigger] s[j] <= 'Z') && (forall|j: int|
                        k2 < j < s.len() ==> '0' <= #[trigger] s[j] <= '9')) by {
                    if 1 <= k2 <= 3 && k2 < s.len() && s[k2] == '-' && (forall|j: int|
                        0 <= j < k2 ==> 'A' <= #[trigger] s[j] <= 'Z') && (forall|j: int|
                        k2 < j < s.len() ==> '0' <= #[trigger] s[j] <= '9') && (s.len() - k2 == 5
                        || s.len() - k2 == 6) {
                        // The scan stops exactly at the hyphen of a valid split.
                        if k2 < k {
                            assert('A' <= s[k2] <= 'Z');
                            assert(false);
                        } else if k2 > k {
                            // s[k] is then a prefix letter, so the scan can
                            // only have stopped because k reached 3.
                            assert('A' <= s[k as int] <= 'Z');
                            assert(k == v.len() || k == 3 || !('A' <= s[k as int] <= 'Z'));
                            assert(false);
                        } else {
                            assert(len_ok);
                            assert(digits_ok);
                            assert(false);
                        }
                    }
                }
            }
        }
    }
    if ok {
        Ok(())
    } else {
        Err(ValidationError::InvalidParkRef(chars_to_string(&v)))
    }
}

/// Validates a Maidenhead grid square (e.g. `FN31` or `FN31pr`).
pub fn validate_grid_square(grid: &str) -> (r: Result<(), ValidationError>)
    ensures
        r is Ok <==> spec_valid_grid(grid@),
        r is Err ==> (r matches Err(e) && e matches ValidationError::InvalidGridSquare(t) && t@
            == grid@),
{
    let v = str_to_chars(grid);
    let ok = (v.len() == 4 || v.len() == 6) && 'A' <= v[0] && v[0] <= 'R' && 'A' <= v[1] && v[1]
        <= 'R' && '0' <= v[2] && v[2] <= '9' && '0' <= v[3] && v[3] <= '9' && (v.len() == 4 || ('a'
        <= v[4] && v[4] <= 'x' && 'a' <= v[5] && v[5] <= 'x'));
    if ok {
        Ok(())
    } else {
        Err(ValidationError::InvalidGridSquare(chars_to_string(&v)))
    }
}

/// Validates a contest section: it must be non-empty.
pub fn validate_section(section: &str) -> (r: Result<(), ValidationError>)
    ensures
        r is Ok <==> section@.len() > 0,
        r is Err ==> r == Err::<(), ValidationError>(ValidationError::EmptySection),
{
    if section.unicode_len() == 0 {
        Err(ValidationError::EmptySection)
    } else {
        Ok(())
    }
}

/// Validates a transmitter count: it must be at least 1.
pub fn validate_tx_count(tx_count: u8) -> (r: Result<(), ValidationError>)
    ensures
        r is Ok <==> tx_count >= 1,
        r is Err ==> r == Err::<(), ValidationError>(ValidationError::InvalidTxCount),
{
    if tx_count >= 1 {
        Ok(())
    } else {
        Err(ValidationError::InvalidTxCount)
    }
}

/// Canonicalizes user-typed grid input: the four mandatory characters are
/// upper-cased, the optional subsquare characters lower-cased, so that
/// `fn31pr`, `FN31PR`, and `fn31` all normalize to `FN31pr` / `FN31`.
pub fn normalize_grid_square(grid: &str) -> (r: String)
    ensures
        r@ == spec_normalize_grid(grid@),
{
    let v = str_to_chars(grid);
    let mut out: Vec<char> = Vec::new();
    let mut i: usize = 0;
    while i < v.len()
        invariant
            i <= v.len(),
            v@ == grid@,
            out@ =~= spec_normalize_grid(grid@).subrange(0, i as int),
        decreases v.len() - i,
    {
        if i < 4 {
            out.push(upper_char(v[i]));
        } else {
            out.push(lower_char(v[i]));
        }
        i = i + 1;
        proof {
            assert(out@ =~= spec_normalize_grid(grid@).subrange(0, i as int));
        }
    }
    proof {
        assert(out@ =~= spec_normalize_grid(grid@));
    }
    chars_to_string(&out)
}

/// Upper-cases a park reference.
pub fn normalize_park_ref(park_ref: &str) -> (r: String)
    ensures
        r@ == spec_upper(park_ref@),
{
    upper_string(park_ref)
}

impl ValidationError {
    /// The human-readable description of the failure.
    pub open spec fn spec_message(self) -> Seq<char> {
        match self {
            ValidationError::EmptyCallsign => "callsign cannot be empty"@,
            ValidationError::InvalidCallsign(t) => "invalid callsign: "@ + t@,
            ValidationError::InvalidParkRef(t) => "invalid park reference: "@ + t@,
            ValidationError::InvalidGridSquare(t) => "invalid grid square: "@ + t@,
            ValidationError::InvalidTxCount => "transmitter count must be at least 1"@,
            ValidationError::EmptySection => "section cannot be empty"@,
            ValidationError::InvalidFdClass(t) => "unrecognized Field Day class: "@ + t@,
            ValidationError::InvalidWfdClass(t) => "unrecognized Winter Field Day class: "@ + t@,
        }
    }

    /// A human-readable description of the failure.
    pub fn message(&self) -> (r: String)
        ensures
            r@ == self.spec_message(),
    {
        match self {
            ValidationError::EmptyCallsign => {
                String::from_str("callsign cannot be empty")
            },
            ValidationError::InvalidCallsign(t) => {
                String::from_str("invalid callsign: ").concat(t.as_str())
            },
            ValidationError::InvalidParkRef(t) => {
                String::from_str("invalid park reference: ").concat(t.as_str())
            },
            ValidationError::InvalidGridSquare(t) => {
                String::from_str("invalid grid square: ").concat(t.as_str())
            },
            ValidationError::InvalidTxCount => {
                String::from_str("transmitter count must be at least 1")
            },
            ValidationError::EmptySection => {
                String::from_str("section cannot be empty")
            },
            ValidationError::InvalidFdClass(t) => {
                String::from_str("unrecognized Field Day class: ").concat(t.as_str())
            },
            ValidationError::InvalidWfdClass(t) => {
                String::from_str("unrecognized Winter Field Day class: ").concat(t.as_str())
            },
        }
    }
}

} // verus!
