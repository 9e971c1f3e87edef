//! The filter family selector and the classified filter shape.

use vstd::prelude::*;

verus! {

/// The four filter families the designer can synthesize.
#[derive(Clone, Copy, PartialEq, Eq, Structural, Debug)]
pub enum FilterKind {
    Butterworth,
    Chebyshev1,
    Chebyshev2,
    Elliptic,
}

/// The number of filter families.
pub const FILTER_KIND_COUNT: u8 = 4;

/// The family selected by a knob index; indices past the last family
/// saturate to the last family, so the selector is total.
pub open spec fn spec_kind_from_index(i: u8) -> FilterKind {
    if i == 0 {
        FilterKind::Butterworth
    } else if i == 1 {
        FilterKind::Chebyshev1
    } else if i == 2 {
        FilterKind::Chebyshev2
    } else {
        FilterKind::Elliptic
    }
}

/// The knob index of a family.
pub open spec fn spec_kind_index(k: FilterKind) -> u8 {
    match k {
        FilterKind::Butterworth => 0,
        FilterKind::Chebyshev1 => 1,
        FilterKind::Chebyshev2 => 2,
        FilterKind::Elliptic => 3,
    }
}

impl FilterKind {
    pub fn from_index(i: u8) -> (k: FilterKind)
        ensures
            k == spec_kind_from_index(i),
    {
        if i == 0 {
            FilterKind::Butterworth
        } else if i == 1 {
            FilterKind::Chebyshev1
        } else if i == 2 {
            FilterKind::Chebyshev2
        } else {
            FilterKind::Elliptic
        }
    }

    pub fn index(self) -> (i: u8)
        ensures
            i == spec_kind_index(self),
            i < FILTER_KIND_COUNT,
    {
        match self {
            FilterKind::Butterworth => 0,
            FilterKind::Chebyshev1 => 1,
            FilterKind::Chebyshev2 => 2,
            FilterKind::Elliptic => 3,
        }
    }

    /// The display name of the family.
    pub fn name(self) -> (r: String)
        ensures
            self == FilterKind::Butterworth ==> r@ == "Butterworth"@,
            self == FilterKind::Chebyshev1 ==> r@ == "Chebyshev 1"@,
            self == FilterKind::Chebyshev2 ==> r@ == "Chebyshev 2"@,
            self == FilterKind::Elliptic ==> r@ == "Elliptic"@,
    {
        match self {
            FilterKind::Butterworth => "Butterworth".to_string(),
            FilterKind::Chebyshev1 => "Chebyshev 1".to_string(),
            FilterKind::Chebyshev2 => "Chebyshev 2".to_string(),
            FilterKind::Elliptic => "Elliptic".to_string(),
        }
    }
}

/// The knob index round-trips through the family it selects.
pub proof fn lemma_kind_index_roundtrip(k: FilterKind, i: u8)
    ensures
        spec_kind_from_index(spec_kind_index(k)) == k,
        i < FILTER_KIND_COUNT ==> spec_kind_index(spec_kind_from_index(i)) == i,
{
}

/// The six logical filter shapes that the band mapper can classify a
/// control setting into.
#[derive(Clone, Copy, PartialEq, Eq, Structural, Debug)]
pub enum FilterType {
    LowPass,
    HighPass,
    BandPass,
    BandStop,
    NoPass,
    AllPass,
}

/// The classification table: saturation flags and orientation determine
/// the filter type, totally.  `stop` is true when the two raw corner
/// frequencies arrived in descending order (a stop/notch orientation);
/// `nolb` / `noub` say that the low / high band edge has collapsed onto
/// the domain boundary.
pub open spec fn spec_classify(stop: bool, nolb: bool, noub: bool) -> FilterType {
    if nolb && noub {
        if stop {
            FilterType::NoPass
        } else {
            FilterType::AllPass
        }
    } else if nolb {
        if stop {
            FilterType::HighPass
        } else {
            FilterType::LowPass
        }
    } else if noub {
        if stop {
            FilterType::LowPass
        } else {
            FilterType::HighPass
        }
    } else {
        if stop {
            FilterType::BandStop
        } else {
            FilterType::BandPass
        }
    }
}

/// Classify a band specification from its orientation and saturation flags.
pub fn classify(stop: bool, nolb: bool, noub: bool) -> (t: FilterType)
    ensures
        t == spec_classify(stop, nolb, noub),
{
    if nolb && noub {
        if stop {
            FilterType::NoPass
        } else {
            FilterType::AllPass
        }
    } else if nolb {
        if stop {
            FilterType::HighPass
        } else {
            FilterType::LowPass
        }
    } else if noub {
        if stop {
            FilterType::LowPass
        } else {
            FilterType::HighPass
        }
    } else {
        if stop {
            FilterType::BandStop
        } else {
            FilterType::BandPass
        }
    }
}

impl FilterType {
    /// The display name of the shape.
    pub fn name(self) -> (r: String)
        ensures
            self == FilterType::LowPass ==> r@ == "Low-pass"@,
            self == FilterType::HighPass ==> r@ == "High-pass"@,
            self == FilterType::BandPass ==> r@ == "Band-pass"@,
            self == FilterType::BandStop ==> r@ == "Band-stop"@,
            self == FilterType::NoPass ==> r@ == "No-pass"@,
            self == FilterType::AllPass ==> r@ == "All-pass"@,
    {
        match self {
            FilterType::LowPass => "Low-pass".to_string(),
            FilterType::HighPass => "High-pass".to_string(),
            FilterType::BandPass => "Band-pass".to_string(),
            FilterType::BandStop => "Band-stop".to_string(),
            FilterType::NoPass => "No-pass".to_string(),
            FilterType::AllPass => "All-pass".to_string(),
        }
    }
}

/// Classification is total: every flag triple yields exactly one of the
/// six shapes, and each saturated triple yields the degenerate shape the
/// orientation calls for.
pub proof fn lemma_classify_total(stop: bool, nolb: bool, noub: bool)
    ensures
        (nolb && noub) ==> (spec_classify(stop, nolb, noub) == if stop {
            FilterType::NoPass
        } else {
            FilterType::AllPass
        }),
        (nolb && !noub) ==> (spec_classify(stop, nolb, noub) == if stop {
            FilterType::HighPass
        } else {
            FilterType::LowPass
        }),
        (!nolb && noub) ==> (spec_classify(stop, nolb, noub) == if stop {
            FilterType::LowPass
        } else {
            FilterType::HighPass
        }),
        (!nolb && !noub) ==> (spec_classify(stop, nolb, noub) == if stop {
            FilterType::BandStop
        } else {
            FilterType::BandPass
        }),
{
}

/// Saturating exactly one flag moves the classification one table row:
/// from a band shape to the corresponding single-corner shape, never
/// directly to a degenerate shape.
pub proof fn lemma_classify_one_step(stop: bool)
    ensures
        spec_classify(stop, false, false) != spec_classify(stop, true, false),
        spec_classify(stop, false, false) != spec_classify(stop, false, true),
        spec_classify(stop, true, false) != FilterType::NoPass,
        spec_classify(stop, true, false) != FilterType::AllPass,
        spec_classify(stop, false, true) != FilterType::NoPass,
        spec_classify(stop, false, true) != FilterType::AllPass,
{
}

} // verus!
