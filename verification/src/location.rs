//! The place that a request asks about.

use vstd::prelude::*;

verus! {

/// A place: a city, the state it lies in where that is given, and a country
/// code. An empty `state` means that none is given.
#[derive(Debug)]
pub struct Location {
    pub city: String,
    pub state: String,
    pub country: String,
}

/// What a [`Location`] holds, as sequences of characters.
pub struct LocationView {
    pub city: Seq<char>,
    pub state: Seq<char>,
    pub country: Seq<char>,
}

impl LocationView {
    /// The place as a provider reads it: the parts with commas between them,
    /// the state left out where it is empty.
    pub open spec fn text(self) -> Seq<char> {
        if self.state.len() == 0 {
            self.city + seq![','] + self.country
        } else {
            self.city + seq![','] + self.state + seq![','] + self.country
        }
    }
}

impl View for Location {
    type V = LocationView;

    open spec fn view(&self) -> LocationView {
        LocationView { city: self.city@, state: self.state@, country: self.country@ }
    }
}

impl Location {
    /// The place with the given parts.
    pub fn new(city: &str, state: &str, country: &str) -> (r: Self)
        ensures
            r@ == (LocationView { city: city@, state: state@, country: country@ }),
    {
        Self { city: city.to_owned(), state: state.to_owned(), country: country.to_owned() }
    }

    /// The place as `city,state,country`, or as `city,country` where the state
    /// is empty.
    pub fn to_string(&self) -> (r: String)
        ensures
            r@ == self@.text(),
    {
        let mut out = self.city.clone();
        out.push(',');
        if !self.state.as_str().is_empty() {
            out.append(self.state.as_str());
            out.push(',');
        }
        out.append(self.country.as_str());
        assert(out@ =~= self@.text());
        out
    }
}

} // verus!
