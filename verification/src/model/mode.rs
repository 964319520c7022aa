//! The closed set of operating modes and their default signal reports.

use vstd::prelude::*;

verus! {

/// Amateur radio operating mode.
#[derive(Debug, Clone, Copy, PartialEq, Eq, Hash, Structural)]
pub enum Mode {
    Ssb,
    Cw,
    Ft8,
    Ft4,
    Js8,
    Psk31,
    Rtty,
    Fm,
    Am,
    Digi,
}

impl Mode {
    /// The ADIF text for each mode, as a specification-level sequence.
    pub open spec fn spec_adif_str(self) -> Seq<char> {
        match self {
            Mode::Ssb => "SSB"@,
            Mode::Cw => "CW"@,
            Mode::Ft8 => "FT8"@,
            Mode::Ft4 => "FT4"@,
            Mode::Js8 => "JS8"@,
            Mode::Psk31 => "PSK31"@,
            Mode::Rtty => "RTTY"@,
            Mode::Fm => "FM"@,
            Mode::Am => "AM"@,
            Mode::Digi => "DIGI"@,
        }
    }

    /// Returns the ADIF string representation of this mode.
    pub fn adif_str(&self) -> (r: &'static str)
        ensures
            r@ == self.spec_adif_str(),
    {
        match self {
            Mode::Ssb => "SSB",
            Mode::Cw => "CW",
            Mode::Ft8 => "FT8",
            Mode::Ft4 => "FT4",
            Mode::Js8 => "JS8",
            Mode::Psk31 => "PSK31",
            Mode::Rtty => "RTTY",
            Mode::Fm => "FM",
            Mode::Am => "AM",
            Mode::Digi => "DIGI",
        }
    }

    /// All modes, in the UI cycling order.
    pub open spec fn spec_all() -> Seq<Mode> {
        seq![
            Mode::Ssb,
            Mode::Cw,
            Mode::Ft8,
            Mode::Ft4,
            Mode::Js8,
            Mode::Psk31,
            Mode::Rtty,
            Mode::Fm,
            Mode::Am,
            Mode::Digi,
        ]
    }

    /// Returns all modes.
    pub fn all() -> (r: Vec<Mode>)
        ensures
            r@ == Mode::spec_all(),
    {
        let v: Vec<Mode> = vec![
            Mode::Ssb,
            Mode::Cw,
            Mode::Ft8,
            Mode::Ft4,
            Mode::Js8,
            Mode::Psk31,
            Mode::Rtty,
            Mode::Fm,
            Mode::Am,
            Mode::Digi,
        ];
        proof {
            assert(v@ =~= Mode::spec_all());
        }
        v
    }

    /// The default signal report for each mode: `59` for the phone modes,
    /// `599` for the keyed modes, and `-10` for the weak-signal digital
    /// modes (`Digi` follows the weak-signal convention on purpose).
    pub open spec fn spec_default_rst(self) -> Seq<char> {
        match self {
            Mode::Ssb | Mode::Fm | Mode::Am => "59"@,
            Mode::Cw | Mode::Psk31 | Mode::Rtty => "599"@,
            Mode::Ft8 | Mode::Ft4 | Mode::Js8 | Mode::Digi => "-10"@,
        }
    }

    /// Returns the default RST (signal report) for this mode.
    pub fn default_rst(&self) -> (r: &'static str)
        ensures
            r@ == self.spec_default_rst(),
    {
        match self {
            Mode::Ssb | Mode::Fm | Mode::Am => "59",
            Mode::Cw | Mode::Psk31 | Mode::Rtty => "599",
            Mode::Ft8 | Mode::Ft4 | Mode::Js8 | Mode::Digi => "-10",
        }
    }
}

impl Default for Mode {
    /// The default mode is SSB.
    fn default() -> (r: Self)
        ensures
            r == Mode::Ssb,
    {
        Mode::Ssb
    }
}

} // verus!
