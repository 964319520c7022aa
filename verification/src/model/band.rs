//! The closed set of amateur-radio frequency bands.

use vstd::prelude::*;

verus! {

/// Amateur radio frequency band.
#[derive(Debug, Clone, Copy, PartialEq, Eq, Hash, Structural)]
pub enum Band {
    M160,
    M80,
    M60,
    M40,
    M30,
    M20,
    M17,
    M15,
    M12,
    M10,
    M6,
    M2,
    Cm70,
}

impl Band {
    /// The ADIF text for each band, as a specification-level sequence.
    pub open spec fn spec_adif_str(self) -> Seq<char> {
        match self {
            Band::M160 => "160M"@,
            Band::M80 => "80M"@,
            Band::M60 => "60M"@,
            Band::M40 => "40M"@,
            Band::M30 => "30M"@,
            Band::M20 => "20M"@,
            Band::M17 => "17M"@,
            Band::M15 => "15M"@,
            Band::M12 => "12M"@,
            Band::M10 => "10M"@,
            Band::M6 => "6M"@,
            Band::M2 => "2M"@,
            Band::Cm70 => "70CM"@,
        }
    }

    /// Returns the ADIF string representation of this band.
    pub fn adif_str(&self) -> (r: &'static str)
        ensures
            r@ == self.spec_adif_str(),
    {
        match self {
            Band::M160 => "160M",
            Band::M80 => "80M",
            Band::M60 => "60M",
            Band::M40 => "40M",
            Band::M30 => "30M",
            Band::M20 => "20M",
            Band::M17 => "17M",
            Band::M15 => "15M",
            Band::M12 => "12M",
            Band::M10 => "10M",
            Band::M6 => "6M",
            Band::M2 => "2M",
            Band::Cm70 => "70CM",
        }
    }

    /// All bands in wavelength order, longest to shortest.
    pub open spec fn spec_all() -> Seq<Band> {
        seq![
            Band::M160,
            Band::M80,
            Band::M60,
            Band::M40,
            Band::M30,
            Band::M20,
            Band::M17,
            Band::M15,
            Band::M12,
            Band::M10,
            Band::M6,
            Band::M2,
            Band::Cm70,
        ]
    }

    /// Returns all bands in wavelength order (longest to shortest).
    pub fn all() -> (r: Vec<Band>)
        ensures
            r@ == Band::spec_all(),
    {
        let v: Vec<Band> = vec![
            Band::M160,
            Band::M80,
            Band::M60,
            Band::M40,
            Band::M30,
            Band::M20,
            Band::M17,
            Band::M15,
            Band::M12,
            Band::M10,
            Band::M6,
            Band::M2,
            Band::Cm70,
        ];
        proof {
            assert(v@ =~= Band::spec_all());
        }
        v
    }
}

impl Default for Band {
    /// The default band is 20 m.
    fn default() -> (r: Self)
        ensures
            r == Band::M20,
    {
        Band::M20
    }
}

} // verus!
