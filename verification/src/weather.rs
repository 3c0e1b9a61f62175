//! The report of current weather that a provider answers with, and the text
//! of each part of it that can be shown.

use vstd::prelude::*;
use crate::clock::{shifted_clock, wall_clock};
use crate::field::{field_of, reads_condition, Field};
use crate::icon::{icon_text, match_icon};
use crate::reading::{Measure, Reading};
use crate::text::{decimal, decimal_string};

verus! {

/// Where a city lies.
#[derive(Debug, Clone, Copy)]
pub struct Coord {
    /// Longitude, in degrees.
    pub lon: Measure,
    /// Latitude, in degrees.
    pub lat: Measure,
}

/// One condition of the weather.
#[derive(Debug)]
pub struct Weather {
    /// The provider's number for the condition.
    pub id: u64,
    /// The group the condition belongs to (rain, snow and so on).
    pub main: String,
    /// The condition in words.
    pub description: String,
    /// The code of the icon for the condition.
    pub icon: String,
}

/// The main measurements.
#[derive(Debug, Clone, Copy)]
pub struct Main {
    /// Temperature, in the unit that was asked for.
    pub temp: Reading,
    /// Temperature as a person feels it.
    pub feels_like: Reading,
    /// Atmospheric pressure, in hectopascal.
    pub pressure: u64,
    /// Humidity, in percent.
    pub humidity: u64,
    /// Lowest temperature at the moment.
    pub temp_min: Measure,
    /// Highest temperature at the moment.
    pub temp_max: Measure,
}

/// The wind.
#[derive(Debug, Clone, Copy)]
pub struct Wind {
    /// Speed, in the unit that was asked for.
    pub speed: Measure,
    /// Direction, in degrees.
    pub deg: u16,
    /// Speed of gusts, where the provider gives it.
    pub gust: Option<Measure>,
}

/// The clouds.
#[derive(Debug, Clone, Copy)]
pub struct Clouds {
    /// Share of the sky that is covered, in percent.
    pub all: u64,
}

/// What the provider adds about the country and the sun.
#[derive(Debug)]
pub struct Sys {
    /// A number of the provider's own.
    pub type_: i64,
    /// A number of the provider's own.
    pub id: i64,
    /// A remark of the provider's own.
    pub message: Option<String>,
    /// Country code.
    pub country: String,
    /// Sunrise, in seconds from the start of 1970.
    pub sunrise: u64,
    /// Sunset, in seconds from the start of 1970.
    pub sunset: u64,
}

/// A report of the current weather at one place.
#[derive(Debug)]
pub struct CurrentWeather {
    pub coord: Option<Coord>,
    /// The conditions, the most important first.
    pub weather: Vec<Weather>,
    pub base: String,
    pub main: Main,
    /// Visibility, in metres.
    pub visibility: u64,
    pub wind: Wind,
    pub clouds: Clouds,
    /// When the report was made, in seconds from the start of 1970.
    pub dt: i64,
    pub sys: Sys,
    /// What the local clock is ahead of universal time, in seconds.
    pub timezone: i64,
    /// The provider's number for the city.
    pub id: u64,
    /// The name of the city.
    pub name: String,
    /// The provider's code for the answer.
    pub cod: u64,
}

/// What can be shown of a [`Weather`].
pub struct WeatherView {
    pub description: Seq<char>,
    pub icon: Seq<char>,
}

impl View for Weather {
    type V = WeatherView;

    open spec fn view(&self) -> WeatherView {
        WeatherView { description: self.description@, icon: self.icon@ }
    }
}

/// What can be shown of a [`CurrentWeather`].
pub struct CurrentWeatherView {
    pub weather: Seq<WeatherView>,
    pub temp: Reading,
    pub feels_like: Reading,
    pub humidity: nat,
    pub dt: int,
    pub timezone: int,
}

impl View for CurrentWeather {
    type V = CurrentWeatherView;

    open spec fn view(&self) -> CurrentWeatherView {
        CurrentWeatherView {
            weather: self.weather@.map_values(|w: Weather| w@),
            temp: self.main.temp,
            feels_like: self.main.feels_like,
            humidity: self.main.humidity as nat,
            dt: self.dt as int,
            timezone: self.timezone as int,
        }
    }
}

/// What stands in place of a part that `name`, the name of no part, asks for.
pub open spec fn placeholder(name: Seq<char>) -> Seq<char> {
    seq!['(', '\''] + name + seq!['?', '\'', ')']
}

impl CurrentWeatherView {
    /// Whether the report can show what `name` asks for: it has a first
    /// condition where that is read.
    pub open spec fn shows(self, name: Seq<char>) -> bool {
        reads_condition(name) ==> self.weather.len() > 0
    }

    /// The text of one part of the report.
    pub open spec fn part(self, field: Field) -> Seq<char>
        recommends
            field.reads_condition() ==> self.weather.len() > 0,
    {
        match field {
            Field::Icon => icon_text(self.weather[0].icon),
            Field::Temp => self.temp.rounded_text().push('°'),
            Field::FeelsLike => self.feels_like.rounded_text().push('°'),
            Field::Humidity => decimal(self.humidity).push('%'),
            Field::Description => self.weather[0].description,
            Field::Time => wall_clock(self.dt + self.timezone),
        }
    }

    /// The text shown for a name: that of the part it asks for, or a
    /// placeholder that holds the name.
    pub open spec fn text(self, name: Seq<char>) -> Seq<char>
        recommends
            self.shows(name),
    {
        match field_of(name) {
            Some(field) => self.part(field),
            None => placeholder(name),
        }
    }
}

/// A name that asks for no part is no failure: it is shown as a placeholder,
/// whatever the report holds, and the placeholder holds the name, between an
/// opening bracket with a quote and a question mark with a quote and the
/// closing bracket.
pub proof fn lemma_unknown_name_is_shown(report: CurrentWeatherView, name: Seq<char>)
    requires
        field_of(name) is None,
    ensures
        report.shows(name),
        report.text(name) == placeholder(name),
        report.text(name).len() == name.len() + 5,
        report.text(name).subrange(2, 2 + name.len() as int) == name,
{
    assert(placeholder(name).subrange(2, 2 + name.len() as int) =~= name);
}

impl CurrentWeather {
    /// Whether the report can show what `name` asks for.
    pub fn can_show(&self, name: &str) -> (r: bool)
        ensures
            r == self@.shows(name@),
    {
        match Field::parse(name) {
            Some(field) => !field.needs_condition() || self.weather.len() > 0,
            None => true,
        }
    }

    /// The text of one part of the report.
    pub fn show(&self, field: Field) -> (r: String)
        requires
            field.reads_condition() ==> self.weather@.len() > 0,
        ensures
            r@ == self@.part(field),
    {
        match field {
            Field::Icon => match_icon(self.weather[0].icon.as_str()),
            Field::Temp => {
                let mut out = self.main.temp.rounded_string();
                out.push('°');
                out
            },
            Field::FeelsLike => {
                let mut out = self.main.feels_like.rounded_string();
                out.push('°');
                out
            },
            Field::Humidity => {
                let mut out = decimal_string(self.main.humidity);
                out.push('%');
                out
            },
            Field::Description => self.weather[0].description.clone(),
            Field::Time => shifted_clock(self.dt, self.timezone),
        }
    }

    /// The text shown for `item`: the icon, the temperature, the temperature
    /// as felt, the humidity, the description or the local time of the
    /// report, or a placeholder where `item` names none of them.
    pub fn get(&self, item: &str) -> (r: String)
        requires
            self@.shows(item@),
        ensures
            r@ == self@.text(item@),
    {
        match Field::parse(item) {
            Some(field) => self.show(field),
            None => {
                let mut out = "('".to_owned();
                out.append(item);
                out.append("?')");
                proof {
                    reveal_strlit("('");
                    reveal_strlit("?')");
                    assert(out@ =~= placeholder(item@));
                }
                out
            },
        }
    }
}

} // verus!
