//! EQ band shapes.

use vstd::prelude::*;

use super::biquad::FilterType;

verus! {

/// Band filter shape, as the band editor shows it.
#[derive(Debug, Clone, Copy, PartialEq, Eq, Structural)]
pub enum EqBandType {
    HighPass,
    LowPass,
    Bell,
    LowShelf,
    HighShelf,
}

/// The filter section a band shape is built from.
pub open spec fn band_filter(t: EqBandType) -> FilterType {
    match t {
        EqBandType::HighPass => FilterType::HighPass,
        EqBandType::LowPass => FilterType::LowPass,
        EqBandType::Bell => FilterType::Peaking,
        EqBandType::LowShelf => FilterType::LowShelf,
        EqBandType::HighShelf => FilterType::HighShelf,
    }
}

impl EqBandType {
    /// The filter section this band shape is built from.
    pub fn to_filter(self) -> (f: FilterType)
        ensures
            f == band_filter(self),
    {
        match self {
            EqBandType::HighPass => FilterType::HighPass,
            EqBandType::LowPass => FilterType::LowPass,
            EqBandType::Bell => FilterType::Peaking,
            EqBandType::LowShelf => FilterType::LowShelf,
            EqBandType::HighShelf => FilterType::HighShelf,
        }
    }
}

} // verus!
