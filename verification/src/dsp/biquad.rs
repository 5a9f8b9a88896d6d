//! The kinds of second-order filter section the EQ and de-esser build on.

use vstd::prelude::*;

verus! {

/// The kinds of second-order section needed.
#[derive(Debug, Clone, Copy, PartialEq, Eq, Structural)]
pub enum FilterType {
    LowPass,
    HighPass,
    Peaking,
    LowShelf,
    HighShelf,
    BandPass,
}

} // verus!
