//! From the provider's answer to the line that is shown.

use vstd::prelude::*;
use crate::error::{Error, Refusal};
use crate::text::{join_spaced, spaced, texts};
use crate::weather::{CurrentWeather, CurrentWeatherView};

verus! {

/// The code with which a provider marks an answer that holds a report.
pub const COD_OK: u64 = 200;

/// What an answer comes to. `report` is the answer read as a weather report,
/// or the reason why it is none; `refusal` is the answer read as a refusal,
/// if it can be read as one. A report stands. Without one, a refusal whose
/// code is not that of a good answer is the provider turning the request
/// down; anything else is an answer of the wrong shape.
pub open spec fn interpreted(
    report: Result<CurrentWeather, String>,
    refusal: Option<Refusal>,
) -> Result<CurrentWeather, Error> {
    match report {
        Ok(weather) => Ok(weather),
        Err(why) => match refusal {
            Some(refusal) if refusal.cod != COD_OK => Err(Error::Rejected(refusal)),
            _ => Err(Error::Response(why)),
        },
    }
}

/// The report that an answer holds, or the failure that it amounts to.
pub fn interpret(report: Result<CurrentWeather, String>, refusal: Option<Refusal>) -> (r: Result<
    CurrentWeather,
    Error,
>)
    ensures
        r == interpreted(report, refusal),
{
    match report {
        Ok(weather) => Ok(weather),
        Err(why) => match refusal {
            Some(refusal) => {
                if refusal.cod != COD_OK {
                    Err(Error::Rejected(refusal))
                } else {
                    Err(Error::Response(why))
                }
            },
            None => Err(Error::Response(why)),
        },
    }
}

impl CurrentWeatherView {
    /// Whether the report can show all that the names ask for.
    pub open spec fn shows_all(self, names: Seq<Seq<char>>) -> bool {
        forall|i: int| 0 <= i < names.len() ==> self.shows(#[trigger] names[i])
    }

    /// The line for the names: what is shown for each, in their order, with
    /// single spaces between.
    pub open spec fn line(self, names: Seq<Seq<char>>) -> Seq<char> {
        spaced(names.map_values(|name: Seq<char>| self.text(name)))
    }
}

impl CurrentWeather {
    /// Whether the report can show all that the names ask for.
    pub fn can_show_all(&self, names: &Vec<String>) -> (r: bool)
        ensures
            r == self@.shows_all(texts(names@)),
    {
        let mut i: usize = 0;
        while i < names.len()
            invariant
                i <= names.len(),
                forall|j: int| 0 <= j < i ==> self@.shows(#[trigger] texts(names@)[j]),
            decreases names.len() - i,
        {
            if !self.can_show(names[i].as_str()) {
                assert(!self@.shows(texts(names@)[i as int]));
                return false;
            }
            i += 1;
        }
        true
    }

    /// The line of weather for the names: the text of each, in their order,
    /// joined by single spaces.
    pub fn line(&self, names: &Vec<String>) -> (r: String)
        requires
            self@.shows_all(texts(names@)),
        ensures
            r@ == self@.line(texts(names@)),
    {
        let ghost wanted = texts(names@).map_values(|name: Seq<char>| self@.text(name));
        let mut parts: Vec<String> = Vec::new();
        let mut i: usize = 0;
        while i < names.len()
            invariant
                i <= names.len(),
                self@.shows_all(texts(names@)),
                wanted == texts(names@).map_values(|name: Seq<char>| self@.text(name)),
                texts(parts@) =~= wanted.take(i as int),
            decreases names.len() - i,
        {
            assert(self@.shows(texts(names@)[i as int]));
            let part = self.get(names[i].as_str());
            let ghost before = parts@;
            parts.push(part);
            proof {
                assert(texts(parts@) =~= texts(before).push(part@));
                assert(wanted[i as int] == self@.text(texts(names@)[i as int]));
                assert(wanted.take(i + 1) =~= wanted.take(i as int).push(wanted[i as int]));
            }
            i += 1;
        }
        assert(wanted.take(names.len() as int) =~= wanted);
        join_spaced(&parts)
    }
}

} // verus!
