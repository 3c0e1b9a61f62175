//! From what a caller gave, on a command line or in a file, to the settings
//! of one request.
//!
//! A command line either names a file to take the settings from or gives the
//! settings itself, never both. Either way city, country and key must be
//! given, and a part to show must be named. A command line names parts by
//! the names that it takes; a file may name any part.

use vstd::prelude::*;
use crate::field::{on_command_line, Field};
use crate::location::{Location, LocationView};
use crate::text::{text_of, texts};
use crate::units::Units;

verus! {

/// Settings as a caller gave them, each present or not.
#[derive(Debug)]
pub struct Settings {
    pub city: Option<String>,
    pub state: Option<String>,
    pub country: Option<String>,
    /// The names of the parts to show, in the order in which to show them.
    pub data: Vec<String>,
    pub imperial: bool,
    pub api_key: Option<String>,
}

/// What a command line gave: settings, and the path of a file of settings.
#[derive(Debug)]
pub struct Flags {
    pub settings: Settings,
    pub file: Option<String>,
}

/// The settings of one request.
#[derive(Debug)]
pub struct Config {
    pub city: String,
    pub state: String,
    pub country: String,
    pub api_key: String,
    pub imperial: bool,
    /// The names of the parts to show, in the order in which to show them.
    pub data: Vec<String>,
}

/// Where the settings of a request are to be had.
#[derive(Debug)]
pub enum Source {
    /// In the file at this path, which is still to be read.
    File(String),
    /// Here: the command line gave them.
    Settled(Config),
}

/// Why there are no settings for a request.
#[derive(Debug, PartialEq, Eq)]
pub enum ConfigError {
    /// A command line named a file and gave settings of its own.
    Conflict,
    MissingCity,
    MissingCountry,
    /// A command line named no part to show.
    MissingData,
    MissingApiKey,
    /// A command line named a part by a name that it does not take.
    UnknownField(String),
    /// The file could not be read; the text says why.
    Unreadable(String),
    /// The file does not hold settings; the text says why.
    Malformed(String),
}

/// What a [`Settings`] holds.
pub struct SettingsView {
    pub city: Option<Seq<char>>,
    pub state: Option<Seq<char>>,
    pub country: Option<Seq<char>>,
    pub data: Seq<Seq<char>>,
    pub imperial: bool,
    pub api_key: Option<Seq<char>>,
}

/// What a [`Flags`] holds.
pub struct FlagsView {
    pub settings: SettingsView,
    pub file: Option<Seq<char>>,
}

/// What a [`Config`] holds.
pub struct ConfigView {
    pub city: Seq<char>,
    pub state: Seq<char>,
    pub country: Seq<char>,
    pub api_key: Seq<char>,
    pub imperial: bool,
    pub data: Seq<Seq<char>>,
}

/// What a [`Source`] holds.
pub enum SourceView {
    File(Seq<char>),
    Settled(ConfigView),
}

/// What a [`ConfigError`] holds.
pub enum ConfigErrorView {
    Conflict,
    MissingCity,
    MissingCountry,
    MissingData,
    MissingApiKey,
    UnknownField(Seq<char>),
    Unreadable(Seq<char>),
    Malformed(Seq<char>),
}

impl View for Settings {
    type V = SettingsView;

    open spec fn view(&self) -> SettingsView {
        SettingsView {
            city: text_of(self.city),
            state: text_of(self.state),
            country: text_of(self.country),
            data: texts(self.data@),
            imperial: self.imperial,
            api_key: text_of(self.api_key),
        }
    }
}

impl View for Flags {
    type V = FlagsView;

    open spec fn view(&self) -> FlagsView {
        FlagsView { settings: self.settings@, file: text_of(self.file) }
    }
}

impl View for Config {
    type V = ConfigView;

    open spec fn view(&self) -> ConfigView {
        ConfigView {
            city: self.city@,
            state: self.state@,
            country: self.country@,
            api_key: self.api_key@,
            imperial: self.imperial,
            data: texts(self.data@),
        }
    }
}

impl View for Source {
    type V = SourceView;

    open spec fn view(&self) -> SourceView {
        match self {
            Source::File(path) => SourceView::File(path@),
            Source::Settled(config) => SourceView::Settled(config@),
        }
    }
}

impl View for ConfigError {
    type V = ConfigErrorView;

    open spec fn view(&self) -> ConfigErrorView {
        match self {
            ConfigError::Conflict => ConfigErrorView::Conflict,
            ConfigError::MissingCity => ConfigErrorView::MissingCity,
            ConfigError::MissingCountry => ConfigErrorView::MissingCountry,
            ConfigError::MissingData => ConfigErrorView::MissingData,
            ConfigError::MissingApiKey => ConfigErrorView::MissingApiKey,
            ConfigError::UnknownField(name) => ConfigErrorView::UnknownField(name@),
            ConfigError::Unreadable(why) => ConfigErrorView::Unreadable(why@),
            ConfigError::Malformed(why) => ConfigErrorView::Malformed(why@),
        }
    }
}

/// The first name from position `from` on that a command line does not take.
pub open spec fn first_unknown(data: Seq<Seq<char>>, from: int) -> Option<Seq<char>>
    decreases data.len() - from,
{
    if from < 0 || from >= data.len() {
        None
    } else if !on_command_line(data[from]) {
        Some(data[from])
    } else {
        first_unknown(data, from + 1)
    }
}

impl SettingsView {
    /// Whether nothing was given.
    pub open spec fn is_empty(self) -> bool {
        &&& self.city is None
        &&& self.state is None
        &&& self.country is None
        &&& self.data.len() == 0
        &&& !self.imperial
        &&& self.api_key is None
    }

    /// The first of city, country and key that was not given.
    pub open spec fn missing(self) -> Option<ConfigErrorView> {
        if self.city is None {
            Some(ConfigErrorView::MissingCity)
        } else if self.country is None {
            Some(ConfigErrorView::MissingCountry)
        } else if self.api_key is None {
            Some(ConfigErrorView::MissingApiKey)
        } else {
            None
        }
    }

    /// The settings of a request, with an empty state where none was given.
    pub open spec fn filled(self) -> ConfigView
        recommends
            self.missing() is None,
    {
        ConfigView {
            city: self.city.unwrap(),
            state: match self.state {
                Some(state) => state,
                None => Seq::empty(),
            },
            country: self.country.unwrap(),
            api_key: self.api_key.unwrap(),
            imperial: self.imperial,
            data: self.data,
        }
    }

    /// What the keys of a file come to: city, country and key must be there.
    /// Whether a part to show is named is asked of the settings afterwards
    /// ([`ConfigView::with_data`]).
    pub open spec fn from_file(self) -> Result<ConfigView, ConfigErrorView> {
        match self.missing() {
            Some(error) => Err(error),
            None => Ok(self.filled()),
        }
    }

    /// What settings given on a command line come to: city, country, a part
    /// to show and the key must be there, looked for in this order, and every
    /// part must have a name that a command line takes.
    pub open spec fn from_command_line(self) -> Result<ConfigView, ConfigErrorView> {
        if self.city is None {
            Err(ConfigErrorView::MissingCity)
        } else if self.country is None {
            Err(ConfigErrorView::MissingCountry)
        } else if self.data.len() == 0 {
            Err(ConfigErrorView::MissingData)
        } else if self.api_key is None {
            Err(ConfigErrorView::MissingApiKey)
        } else {
            match first_unknown(self.data, 0) {
                Some(name) => Err(ConfigErrorView::UnknownField(name)),
                None => Ok(self.filled()),
            }
        }
    }
}

impl FlagsView {
    /// Where a command line says the settings are: in a file, if it names one
    /// and gives nothing else; in what it gives, if it names none.
    pub open spec fn resolved(self) -> Result<SourceView, ConfigErrorView> {
        match self.file {
            Some(path) => if self.settings.is_empty() {
                Ok(SourceView::File(path))
            } else {
                Err(ConfigErrorView::Conflict)
            },
            None => match self.settings.from_command_line() {
                Ok(config) => Ok(SourceView::Settled(config)),
                Err(error) => Err(error),
            },
        }
    }
}

/// Whether an outcome is the one that its model gives.
pub open spec fn agrees<T: View, E: View>(r: Result<T, E>, model: Result<T::V, E::V>) -> bool {
    match model {
        Ok(value) => r matches Ok(x) && x@ == value,
        Err(error) => r matches Err(x) && x@ == error,
    }
}

impl Settings {
    /// Whether nothing was given.
    pub fn is_empty(&self) -> (r: bool)
        ensures
            r == self@.is_empty(),
    {
        self.city.is_none() && self.state.is_none() && self.country.is_none() && self.data.len()
            == 0 && !self.imperial && self.api_key.is_none()
    }

    /// The first name in `data` that a command line does not take.
    pub fn unknown_field(&self) -> (r: Option<String>)
        ensures
            text_of(r) == first_unknown(self@.data, 0),
    {
        let mut i: usize = 0;
        while i < self.data.len()
            invariant
                i <= self.data.len(),
                first_unknown(self@.data, 0) == first_unknown(self@.data, i as int),
            decreases self.data.len() - i,
        {
            let known = match Field::parse(self.data[i].as_str()) {
                Some(field) => !matches!(field, Field::Time),
                None => false,
            };
            if !known {
                return Some(self.data[i].clone());
            }
            i += 1;
        }
        None
    }

    /// The settings that the keys of a file come to. They are the settings of
    /// a request once [`Config::require_data`] has passed them.
    pub fn from_file(self) -> (r: Result<Config, ConfigError>)
        ensures
            agrees(r, self@.from_file()),
    {
        let Settings { city, state, country, data, imperial, api_key } = self;
        let city = match city {
            Some(city) => city,
            None => {
                return Err(ConfigError::MissingCity);
            },
        };
        let country = match country {
            Some(country) => country,
            None => {
                return Err(ConfigError::MissingCountry);
            },
        };
        let api_key = match api_key {
            Some(api_key) => api_key,
            None => {
                return Err(ConfigError::MissingApiKey);
            },
        };
        let state = match state {
            Some(state) => state,
            None => String::new(),
        };
        Ok(Config { city, state, country, api_key, imperial, data })
    }

    /// The settings of a request from what a command line gave.
    pub fn from_command_line(self) -> (r: Result<Config, ConfigError>)
        ensures
            agrees(r, self@.from_command_line()),
    {
        if self.city.is_none() {
            return Err(ConfigError::MissingCity);
        }
        if self.country.is_none() {
            return Err(ConfigError::MissingCountry);
        }
        if self.data.len() == 0 {
            return Err(ConfigError::MissingData);
        }
        if self.api_key.is_none() {
            return Err(ConfigError::MissingApiKey);
        }
        match self.unknown_field() {
            Some(name) => Err(ConfigError::UnknownField(name)),
            None => self.from_file(),
        }
    }
}

impl Flags {
    /// Where the settings of the request are to be had, or why there are
    /// none. A command line that names a file and gives settings too is
    /// refused.
    pub fn resolve(self) -> (r: Result<Source, ConfigError>)
        ensures
            agrees(r, self@.resolved()),
    {
        let Flags { settings, file } = self;
        match file {
            Some(path) => {
                if settings.is_empty() {
                    Ok(Source::File(path))
                } else {
                    Err(ConfigError::Conflict)
                }
            },
            None => match settings.from_command_line() {
                Ok(config) => Ok(Source::Settled(config)),
                Err(error) => Err(error),
            },
        }
    }
}

impl ConfigView {
    /// Settings as the settings of a request: they must name a part to show.
    pub open spec fn with_data(self) -> Result<ConfigView, ConfigErrorView> {
        if self.data.len() == 0 {
            Err(ConfigErrorView::MissingData)
        } else {
            Ok(self)
        }
    }

    /// The place that the request asks about.
    pub open spec fn location(self) -> LocationView {
        LocationView { city: self.city, state: self.state, country: self.country }
    }

    /// The convention in which the request asks for measurements.
    pub open spec fn units(self) -> Units {
        if self.imperial {
            Units::Imperial
        } else {
            Units::Metric
        }
    }
}

impl Config {
    /// The settings unchanged where they name a part to show, and the error
    /// that says so where they name none. Settings read from a file pass
    /// here before a request is made of them.
    pub fn require_data(self) -> (r: Result<Config, ConfigError>)
        ensures
            self.data@.len() > 0 ==> r == Ok::<_, ConfigError>(self),
            self.data@.len() == 0 ==> r == Err::<Config, _>(ConfigError::MissingData),
            agrees(r, self@.with_data()),
    {
        if self.data.len() == 0 {
            Err(ConfigError::MissingData)
        } else {
            Ok(self)
        }
    }

    /// The place that the request asks about.
    pub fn location(&self) -> (r: Location)
        ensures
            r@ == self@.location(),
    {
        Location::new(self.city.as_str(), self.state.as_str(), self.country.as_str())
    }

    /// The convention in which the request asks for measurements.
    pub fn units(&self) -> (r: Units)
        ensures
            r == self@.units(),
    {
        Units::from_imperial(self.imperial)
    }
}

/// What [`first_unknown`] finds: nothing exactly when a command line takes
/// every name from `from` on; otherwise a name of the list that a command
/// line does not take, with none such before it.
pub proof fn lemma_first_unknown(data: Seq<Seq<char>>, from: int)
    requires
        0 <= from <= data.len(),
    ensures
        first_unknown(data, from) is None <==> forall|i: int|
            from <= i < data.len() ==> on_command_line(#[trigger] data[i]),
        first_unknown(data, from) matches Some(name) ==> exists|i: int|
            {
                &&& from <= i < data.len()
                &&& #[trigger] data[i] == name
                &&& !on_command_line(name)
                &&& forall|j: int| from <= j < i ==> on_command_line(#[trigger] data[j])
            },
    decreases data.len() - from,
{
    if from < data.len() {
        if on_command_line(data[from]) {
            lemma_first_unknown(data, from + 1);
            if let Some(name) = first_unknown(data, from) {
                let i = choose|i: int|
                    {
                        &&& from + 1 <= i < data.len()
                        &&& #[trigger] data[i] == name
                        &&& !on_command_line(name)
                        &&& forall|j: int| from + 1 <= j < i ==> on_command_line(#[trigger] data[j])
                    };
                assert(forall|j: int| from <= j < i ==> on_command_line(#[trigger] data[j]));
            }
        } else {
            assert(data[from] == data[from]);
        }
    }
}

/// Settings that a command line gave are the settings of a request only if
/// they name a part to show and every name is one that a command line takes.
pub proof fn lemma_command_line_is_checked(settings: SettingsView)
    requires
        settings.from_command_line() is Ok,
    ensures
        settings.data.len() > 0,
        forall|i: int| 0 <= i < settings.data.len() ==> on_command_line(#[trigger] settings.data[i]),
        settings.from_command_line() == Ok::<_, ConfigErrorView>(settings.filled()),
{
    lemma_first_unknown(settings.data, 0);
}

/// Settings without a part to show are the settings of no request, whether
/// a command line gave them or a file.
pub proof fn lemma_data_is_required(settings: SettingsView)
    requires
        settings.data.len() == 0,
    ensures
        settings.from_command_line() is Err,
        settings.from_file() matches Ok(config) ==> config.with_data() == Err::<ConfigView, _>(
            ConfigErrorView::MissingData,
        ),
{
}

/// A file of settings and settings on the command line exclude each other:
/// a command line that names a file and gives any setting besides has no
/// source of settings, so no request comes of it.
pub proof fn lemma_file_excludes_settings(flags: FlagsView)
    requires
        flags.file is Some,
        !flags.settings.is_empty(),
    ensures
        flags.resolved() == Err::<SourceView, _>(ConfigErrorView::Conflict),
{
}

} // verus!
