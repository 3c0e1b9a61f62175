//! From a provider's icon code to the symbol shown for it.
//!
//! A code names a kind of sky and says whether it is day or night: two digits
//! for the kind, then `d` or `n`. The symbol depends on the kind alone. A code
//! that names no kind is shown as a question mark.

use vstd::prelude::*;
use crate::text::same;

verus! {

/// The kinds of sky that a provider tells apart.
#[derive(Debug, Clone, Copy, PartialEq, Eq, Structural)]
pub enum Sky {
    Clear,
    FewClouds,
    ScatteredClouds,
    BrokenClouds,
    ShowerRain,
    Rain,
    Thunderstorm,
    Snow,
    Mist,
}

impl Sky {
    /// The code of this sky by day.
    pub open spec fn day_code(self) -> Seq<char> {
        match self {
            Sky::Clear => "01d"@,
            Sky::FewClouds => "02d"@,
            Sky::ScatteredClouds => "03d"@,
            Sky::BrokenClouds => "04d"@,
            Sky::ShowerRain => "09d"@,
            Sky::Rain => "10d"@,
            Sky::Thunderstorm => "11d"@,
            Sky::Snow => "13d"@,
            Sky::Mist => "50d"@,
        }
    }

    /// The code of this sky by night.
    pub open spec fn night_code(self) -> Seq<char> {
        match self {
            Sky::Clear => "01n"@,
            Sky::FewClouds => "02n"@,
            Sky::ScatteredClouds => "03n"@,
            Sky::BrokenClouds => "04n"@,
            Sky::ShowerRain => "09n"@,
            Sky::Rain => "10n"@,
            Sky::Thunderstorm => "11n"@,
            Sky::Snow => "13n"@,
            Sky::Mist => "50n"@,
        }
    }

    /// The symbol shown for this sky: one character of an icon font.
    pub open spec fn glyph(self) -> Seq<char> {
        match self {
            Sky::Clear => "\u{e30d}"@,
            Sky::FewClouds => "\u{e302}"@,
            Sky::ScatteredClouds => "\u{fa8f}"@,
            Sky::BrokenClouds => "\u{e312}"@,
            Sky::ShowerRain => "\u{e34a}"@,
            Sky::Rain => "\u{e371}"@,
            Sky::Thunderstorm => "\u{e315}"@,
            Sky::Snow => "\u{f2dc}"@,
            Sky::Mist => "\u{e31e}"@,
        }
    }

    /// Whether `code` is one of the two codes of this sky.
    pub open spec fn has_code(self, code: Seq<char>) -> bool {
        code == self.day_code() || code == self.night_code()
    }

    /// The symbol shown for this sky.
    pub fn symbol(&self) -> (r: &'static str)
        ensures
            r@ == self.glyph(),
    {
        match self {
            Sky::Clear => "\u{e30d}",
            Sky::FewClouds => "\u{e302}",
            Sky::ScatteredClouds => "\u{fa8f}",
            Sky::BrokenClouds => "\u{e312}",
            Sky::ShowerRain => "\u{e34a}",
            Sky::Rain => "\u{e371}",
            Sky::Thunderstorm => "\u{e315}",
            Sky::Snow => "\u{f2dc}",
            Sky::Mist => "\u{e31e}",
        }
    }

    /// The sky that a code names, if it names one.
    pub fn from_code(code: &str) -> (r: Option<Sky>)
        ensures
            r == sky_of(code@),
    {
        if same(code, "01d") || same(code, "01n") {
            Some(Sky::Clear)
        } else if same(code, "02d") || same(code, "02n") {
            Some(Sky::FewClouds)
        } else if same(code, "03d") || same(code, "03n") {
            Some(Sky::ScatteredClouds)
        } else if same(code, "04d") || same(code, "04n") {
            Some(Sky::BrokenClouds)
        } else if same(code, "09d") || same(code, "09n") {
            Some(Sky::ShowerRain)
        } else if same(code, "10d") || same(code, "10n") {
            Some(Sky::Rain)
        } else if same(code, "11d") || same(code, "11n") {
            Some(Sky::Thunderstorm)
        } else if same(code, "13d") || same(code, "13n") {
            Some(Sky::Snow)
        } else if same(code, "50d") || same(code, "50n") {
            Some(Sky::Mist)
        } else {
            None
        }
    }
}

/// The sky that a code names: the first in the order of [`Sky`] that has the
/// code, or none where no sky has it.
pub open spec fn sky_of(code: Seq<char>) -> Option<Sky> {
    if Sky::Clear.has_code(code) {
        Some(Sky::Clear)
    } else if Sky::FewClouds.has_code(code) {
        Some(Sky::FewClouds)
    } else if Sky::ScatteredClouds.has_code(code) {
        Some(Sky::ScatteredClouds)
    } else if Sky::BrokenClouds.has_code(code) {
        Some(Sky::BrokenClouds)
    } else if Sky::ShowerRain.has_code(code) {
        Some(Sky::ShowerRain)
    } else if Sky::Rain.has_code(code) {
        Some(Sky::Rain)
    } else if Sky::Thunderstorm.has_code(code) {
        Some(Sky::Thunderstorm)
    } else if Sky::Snow.has_code(code) {
        Some(Sky::Snow)
    } else if Sky::Mist.has_code(code) {
        Some(Sky::Mist)
    } else {
        None
    }
}

/// The symbol shown for a code: that of the sky it names, or a question mark.
pub open spec fn icon_text(code: Seq<char>) -> Seq<char> {
    match sky_of(code) {
        Some(sky) => sky.glyph(),
        None => "?"@,
    }
}

/// The symbol shown for a provider's icon code.
pub fn match_icon(code: &str) -> (r: String)
    ensures
        r@ == icon_text(code@),
{
    match Sky::from_code(code) {
        Some(sky) => sky.symbol().to_owned(),
        None => "?".to_owned(),
    }
}

/// The codes of two different skies differ: every code names one sky at most.
pub proof fn lemma_codes_differ(a: Sky, b: Sky, code: Seq<char>)
    requires
        a.has_code(code),
        b.has_code(code),
    ensures
        a == b,
{
    reveal_strlit("01d");
    reveal_strlit("01n");
    reveal_strlit("02d");
    reveal_strlit("02n");
    reveal_strlit("03d");
    reveal_strlit("03n");
    reveal_strlit("04d");
    reveal_strlit("04n");
    reveal_strlit("09d");
    reveal_strlit("09n");
    reveal_strlit("10d");
    reveal_strlit("10n");
    reveal_strlit("11d");
    reveal_strlit("11n");
    reveal_strlit("13d");
    reveal_strlit("13n");
    reveal_strlit("50d");
    reveal_strlit("50n");
    if a != b {
        assert(code.len() == 3);
        assert(a.day_code()[0] != b.day_code()[0] || a.day_code()[1] != b.day_code()[1]);
        assert(a.night_code()[0] == a.day_code()[0] && a.night_code()[1] == a.day_code()[1]);
        assert(b.night_code()[0] == b.day_code()[0] && b.night_code()[1] == b.day_code()[1]);
    }
}

/// Every code has a symbol, and the table decides which: a code of a sky, by
/// day or by night, is shown as the symbol of that sky, and a code of no sky
/// is shown as a question mark.
pub proof fn lemma_icon_table(code: Seq<char>)
    ensures
        forall|sky: Sky| #[trigger] sky.has_code(code) ==> icon_text(code) == sky.glyph(),
        (forall|sky: Sky| !#[trigger] sky.has_code(code)) ==> icon_text(code) == "?"@,
{
    assert forall|sky: Sky| #[trigger] sky.has_code(code) implies icon_text(code) == sky.glyph() by {
        let found = sky_of(code);
        assert(found is Some);
        lemma_codes_differ(found.unwrap(), sky, code);
    }
}

/// Day and night are shown alike: the two codes of a sky have one symbol.
pub proof fn lemma_day_and_night_alike(sky: Sky)
    ensures
        icon_text(sky.day_code()) == sky.glyph(),
        icon_text(sky.night_code()) == sky.glyph(),
{
    lemma_icon_table(sky.day_code());
    lemma_icon_table(sky.night_code());
    assert(sky.has_code(sky.day_code()));
    assert(sky.has_code(sky.night_code()));
}

} // verus!
