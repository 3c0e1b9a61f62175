//! The two measurement conventions a provider can answer in.

use vstd::prelude::*;

verus! {

/// A measurement convention. Metric is the one a request gets unless it asks
/// for the other.
#[derive(Debug, Clone, Copy, PartialEq, Eq, Structural)]
pub enum Units {
    Metric,
    Imperial,
}

impl Units {
    /// The word that stands for the convention in a request.
    pub open spec fn word(self) -> Seq<char> {
        match self {
            Units::Metric => "metric"@,
            Units::Imperial => "imperial"@,
        }
    }

    /// The value of the `units` parameter of a request.
    pub fn as_str(&self) -> (r: &'static str)
        ensures
            r@ == self.word(),
    {
        match self {
            Units::Metric => "metric",
            Units::Imperial => "imperial",
        }
    }

    /// The convention that the imperial switch selects: imperial where it is
    /// set, metric where it is not.
    pub fn from_imperial(imperial: bool) -> (r: Units)
        ensures
            r == (if imperial { Units::Imperial } else { Units::Metric }),
    {
        if imperial {
            Units::Imperial
        } else {
            Units::Metric
        }
    }
}

impl Default for Units {
    fn default() -> (r: Units)
        ensures
            r == Units::Metric,
    {
        Units::Metric
    }
}

} // verus!
