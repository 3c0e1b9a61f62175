//! What can go wrong between a command line and a line of weather, and the
//! words in which each failure is told.

use vstd::prelude::*;
use crate::config::{ConfigError, ConfigErrorView};
use crate::request::RequestError;
use crate::text::{decimal, push_decimal};

verus! {

/// What a provider says when it turns a request down.
#[derive(Debug, PartialEq, Eq)]
pub struct Refusal {
    /// The provider's code for the answer.
    pub cod: u64,
    /// The provider's reason.
    pub message: String,
}

/// Why there is no line of weather.
#[derive(Debug, PartialEq, Eq)]
pub enum Error {
    /// There are no settings for a request.
    Config(ConfigError),
    /// No address could be made for the request.
    Request(RequestError),
    /// The request could not be sent, or its answer could not be read; the
    /// text says why.
    Network(String),
    /// The provider turned the request down.
    Rejected(Refusal),
    /// The answer is not a weather report; the text says why.
    Response(String),
}

/// The kinds of failure.
#[derive(Debug, Clone, Copy, PartialEq, Eq, Structural)]
pub enum ErrorKind {
    Configuration,
    Network,
    Rejected,
    Response,
}

/// What a [`Refusal`] holds.
pub struct RefusalView {
    pub cod: nat,
    pub message: Seq<char>,
}

/// What an [`Error`] holds.
pub enum ErrorView {
    Config(ConfigErrorView),
    Request(RequestError),
    Network(Seq<char>),
    Rejected(RefusalView),
    Response(Seq<char>),
}

impl View for Refusal {
    type V = RefusalView;

    open spec fn view(&self) -> RefusalView {
        RefusalView { cod: self.cod as nat, message: self.message@ }
    }
}

impl View for Error {
    type V = ErrorView;

    open spec fn view(&self) -> ErrorView {
        match self {
            Error::Config(error) => ErrorView::Config(error@),
            Error::Request(error) => ErrorView::Request(*error),
            Error::Network(why) => ErrorView::Network(why@),
            Error::Rejected(refusal) => ErrorView::Rejected(refusal@),
            Error::Response(why) => ErrorView::Response(why@),
        }
    }
}

impl ConfigErrorView {
    /// The failure in words.
    pub open spec fn text(self) -> Seq<char> {
        match self {
            ConfigErrorView::Conflict => "a file of settings cannot be combined with other arguments"@,
            ConfigErrorView::MissingCity => "no city was given"@,
            ConfigErrorView::MissingCountry => "no country was given"@,
            ConfigErrorView::MissingData => "no weather data was asked for"@,
            ConfigErrorView::MissingApiKey => "no API key was given"@,
            ConfigErrorView::UnknownField(name) => "unknown weather data: "@ + name,
            ConfigErrorView::Unreadable(why) => "the file of settings could not be read: "@ + why,
            ConfigErrorView::Malformed(why) => "the file of settings is malformed: "@ + why,
        }
    }
}

impl RequestError {
    /// The failure in words.
    pub open spec fn text(self) -> Seq<char> {
        match self {
            RequestError::TooLong => "the place or the API key is too long"@,
            RequestError::Malformed => "the address of the request could not be built"@,
        }
    }

    /// The failure in words.
    pub fn message(&self) -> (r: String)
        ensures
            r@ == self.text(),
    {
        match self {
            RequestError::TooLong => "the place or the API key is too long".to_owned(),
            RequestError::Malformed => "the address of the request could not be built".to_owned(),
        }
    }
}

impl ErrorView {
    /// The kind of the failure.
    pub open spec fn kind(self) -> ErrorKind {
        match self {
            ErrorView::Config(_) => ErrorKind::Configuration,
            ErrorView::Request(_) => ErrorKind::Network,
            ErrorView::Network(_) => ErrorKind::Network,
            ErrorView::Rejected(_) => ErrorKind::Rejected,
            ErrorView::Response(_) => ErrorKind::Response,
        }
    }

    /// The failure in words.
    pub open spec fn text(self) -> Seq<char> {
        match self {
            ErrorView::Config(error) => error.text(),
            ErrorView::Request(error) => error.text(),
            ErrorView::Network(why) => "the request failed: "@ + why,
            ErrorView::Rejected(refusal) => "the provider rejected the request ("@ + decimal(
                refusal.cod,
            ) + "): "@ + refusal.message,
            ErrorView::Response(why) => "the answer is not a weather report: "@ + why,
        }
    }
}

/// `head` followed by `tail`.
fn prefixed(head: &str, tail: &str) -> (r: String)
    ensures
        r@ == head@ + tail@,
{
    let mut out = head.to_owned();
    out.append(tail);
    out
}

impl ConfigError {
    /// The failure in words.
    pub fn message(&self) -> (r: String)
        ensures
            r@ == self@.text(),
    {
        match self {
            ConfigError::Conflict => "a file of settings cannot be combined with other arguments".to_owned(),
            ConfigError::MissingCity => "no city was given".to_owned(),
            ConfigError::MissingCountry => "no country was given".to_owned(),
            ConfigError::MissingData => "no weather data was asked for".to_owned(),
            ConfigError::MissingApiKey => "no API key was given".to_owned(),
            ConfigError::UnknownField(name) => prefixed("unknown weather data: ", name.as_str()),
            ConfigError::Unreadable(why) => prefixed(
                "the file of settings could not be read: ",
                why.as_str(),
            ),
            ConfigError::Malformed(why) => prefixed("the file of settings is malformed: ", why.as_str()),
        }
    }
}

impl Error {
    /// The kind of the failure.
    pub fn kind(&self) -> (r: ErrorKind)
        ensures
            r == self@.kind(),
    {
        match self {
            Error::Config(_) => ErrorKind::Configuration,
            Error::Request(_) => ErrorKind::Network,
            Error::Network(_) => ErrorKind::Network,
            Error::Rejected(_) => ErrorKind::Rejected,
            Error::Response(_) => ErrorKind::Response,
        }
    }

    /// The failure in words, as it is told to the caller.
    pub fn message(&self) -> (r: String)
        ensures
            r@ == self@.text(),
    {
        match self {
            Error::Config(error) => error.message(),
            Error::Request(error) => error.message(),
            Error::Network(why) => prefixed("the request failed: ", why.as_str()),
            Error::Rejected(refusal) => {
                let mut out = "the provider rejected the request (".to_owned();
                push_decimal(&mut out, refusal.cod);
                out.append("): ");
                out.append(refusal.message.as_str());
                out
            },
            Error::Response(why) => prefixed("the answer is not a weather report: ", why.as_str()),
        }
    }
}

} // verus!
