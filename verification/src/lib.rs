//! Current weather for a named place.
//!
//! The crate holds what lies between a command line and a line of weather,
//! except for the reading and sending itself: the settings of a request and
//! where they come from ([`config`]), the address that asks a provider for
//! the weather ([`request`]), the report that the provider answers with
//! ([`weather`]), and the text of each part of it ([`icon`], [`reading`],
//! [`clock`], [`report`]).

pub mod clock;
pub mod config;
pub mod error;
pub mod field;
pub mod icon;
pub mod location;
pub mod reading;
pub mod report;
pub mod request;
pub mod text;
pub mod units;
pub mod weather;

pub use config::{Config, ConfigError, Flags, Settings, Source};
pub use error::{Error, ErrorKind, Refusal};
pub use field::Field;
pub use location::Location;
pub use reading::{Measure, Reading};
pub use report::interpret;
pub use request::{request_url, RequestError};
pub use units::Units;
pub use weather::{Clouds, Coord, CurrentWeather, Main, Sys, Weather, Wind};
