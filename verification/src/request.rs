//! The address that asks a provider for the current weather at a place.
//!
//! The address is the provider's endpoint with three parameters in its query:
//! `q`, the place; `units`, the measurement convention; `appid`, the caller's
//! key. The url crate parses the endpoint and writes the query.

use vstd::prelude::*;
use url::Url;
use crate::location::{Location, LocationView};
use crate::units::Units;

verus! {

/// Where the provider answers requests for the current weather.
pub const ENDPOINT: &'static str = "https://api.openweathermap.org/data/2.5/weather";

/// The longest place and the longest key that a request takes, in characters.
pub const PART_LIMIT: usize = 16_777_216;

/// The url crate's reason for not taking a text for an address. Nothing is
/// read from it here.
#[verifier::external_type_specification]
#[verifier::external_body]
pub struct ExParseError(url::ParseError);

/// What the url crate makes of the address `base` with the pairs of a name
/// and a value added to its query in their order: the text of the resulting
/// address, or nothing where it does not take `base` for an address.
pub uninterp spec fn url_with_params(base: Seq<char>, pairs: Seq<(Seq<char>, Seq<char>)>) -> Option<
    Seq<char>,
>;

/// The pairs of a list as sequences of characters.
pub open spec fn pair_views(pairs: Seq<(&str, &str)>) -> Seq<(Seq<char>, Seq<char>)> {
    pairs.map_values(|p: (&str, &str)| (p.0@, p.1@))
}

/// `Url::parse_with_params` of the url crate, and the text of the address it
/// returns.
///
/// The contract names the result and claims nothing more of it: the call
/// succeeds or fails, and gives the text it gives, by `base` and `pairs`
/// alone. The bounds keep the address far below the four gibibytes at which
/// the crate's 32-bit offsets into it would give out.
#[verifier::external_body]
fn parse_with_params(base: &str, pairs: &Vec<(&str, &str)>) -> (r: Result<String, url::ParseError>)
    requires
        base@.len() <= 4096,
        pairs@.len() <= 8,
        forall|i: int|
            0 <= i < pairs@.len() ==> (#[trigger] pairs@[i]).0@.len() <= PART_LIMIT
                && pairs@[i].1@.len() <= PART_LIMIT,
    ensures
        r is Ok <==> url_with_params(base@, pair_views(pairs@)) is Some,
        r matches Ok(text) ==> url_with_params(base@, pair_views(pairs@)) == Some(text@),
{
    Url::parse_with_params(base, pairs).map(String::from)
}

/// Why no address could be made for a request.
#[derive(Debug, Clone, Copy, PartialEq, Eq, Structural)]
pub enum RequestError {
    /// The place or the key is longer than [`PART_LIMIT`].
    TooLong,
    /// The url crate did not make an address of the parts.
    Malformed,
}

/// The parameters of a request, in the order in which they are sent.
pub open spec fn request_pairs(place: Seq<char>, units: Units, key: Seq<char>) -> Seq<
    (Seq<char>, Seq<char>),
> {
    seq![("q"@, place), ("units"@, units.word()), ("appid"@, key)]
}

/// The address of a request, or the reason why there is none.
pub open spec fn request_text(location: LocationView, units: Units, key: Seq<char>) -> Result<
    Seq<char>,
    RequestError,
> {
    if location.text().len() > PART_LIMIT || key.len() > PART_LIMIT {
        Err(RequestError::TooLong)
    } else {
        match url_with_params(ENDPOINT@, request_pairs(location.text(), units, key)) {
            Some(text) => Ok(text),
            None => Err(RequestError::Malformed),
        }
    }
}

/// The parameters of the request for the current weather at `place`, in
/// `units`, with the caller's `key`, in the order in which they are sent.
pub fn request_params<'a>(place: &'a str, units: Units, key: &'a str) -> (r: Vec<(&'a str, &'a str)>)
    ensures
        pair_views(r@) == request_pairs(place@, units, key@),
{
    let pairs: Vec<(&str, &str)> = vec![("q", place), ("units", units.as_str()), ("appid", key)];
    assert(pair_views(pairs@) =~= request_pairs(place@, units, key@));
    pairs
}

/// The address of the request for the current weather at `location`, in
/// `units`, with the caller's `key`.
pub fn request_url(location: &Location, units: Units, key: &str) -> (r: Result<String, RequestError>)
    ensures
        match request_text(location@, units, key@) {
            Ok(text) => r matches Ok(address) && address@ == text,
            Err(error) => r matches Err(e) && e == error,
        },
{
    let place = location.to_string();
    if place.as_str().unicode_len() > PART_LIMIT || key.unicode_len() > PART_LIMIT {
        return Err(RequestError::TooLong);
    }
    let pairs = request_params(place.as_str(), units, key);
    proof {
        reveal_strlit("https://api.openweathermap.org/data/2.5/weather");
        reveal_strlit("q");
        reveal_strlit("units");
        reveal_strlit("appid");
        reveal_strlit("metric");
        reveal_strlit("imperial");
        let given = request_pairs(place@, units, key@);
        assert(pairs@.len() == given.len());
        assert forall|i: int| 0 <= i < pairs@.len() implies (#[trigger] pairs@[i]).0@.len() <= PART_LIMIT
            && pairs@[i].1@.len() <= PART_LIMIT by {
            assert(pair_views(pairs@)[i] == given[i]);
        }
    }
    match parse_with_params(ENDPOINT, &pairs) {
        Ok(text) => Ok(text),
        Err(_) => Err(RequestError::Malformed),
    }
}

} // verus!
