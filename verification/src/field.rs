//! The names by which a caller asks for parts of a weather report.

use vstd::prelude::*;
use crate::text::same;

verus! {

/// A part of a weather report that can be shown.
#[derive(Debug, Clone, Copy, PartialEq, Eq, Structural)]
pub enum Field {
    Icon,
    Temp,
    FeelsLike,
    Humidity,
    Description,
    Time,
}

impl Field {
    /// The name that asks for this part.
    pub open spec fn name(self) -> Seq<char> {
        match self {
            Field::Icon => "icon"@,
            Field::Temp => "temp"@,
            Field::FeelsLike => "feels_like"@,
            Field::Humidity => "humidity"@,
            Field::Description => "description"@,
            Field::Time => "time"@,
        }
    }

    /// Whether showing this part reads the first entry of a report's list of
    /// conditions.
    pub open spec fn reads_condition(self) -> bool {
        self == Field::Icon || self == Field::Description
    }

    /// Whether this part can be asked for on a command line. The time cannot.
    pub open spec fn on_command_line(self) -> bool {
        self != Field::Time
    }

    /// The name that asks for this part.
    pub fn as_str(&self) -> (r: &'static str)
        ensures
            r@ == self.name(),
    {
        match self {
            Field::Icon => "icon",
            Field::Temp => "temp",
            Field::FeelsLike => "feels_like",
            Field::Humidity => "humidity",
            Field::Description => "description",
            Field::Time => "time",
        }
    }

    /// The part that `name` asks for, if it is the name of one.
    pub fn parse(name: &str) -> (r: Option<Field>)
        ensures
            r == field_of(name@),
    {
        if same(name, "icon") {
            Some(Field::Icon)
        } else if same(name, "temp") {
            Some(Field::Temp)
        } else if same(name, "feels_like") {
            Some(Field::FeelsLike)
        } else if same(name, "humidity") {
            Some(Field::Humidity)
        } else if same(name, "description") {
            Some(Field::Description)
        } else if same(name, "time") {
            Some(Field::Time)
        } else {
            None
        }
    }

    /// Whether showing this part reads the first entry of a report's list of
    /// conditions.
    pub fn needs_condition(&self) -> (r: bool)
        ensures
            r == self.reads_condition(),
    {
        match self {
            Field::Icon => true,
            Field::Description => true,
            _ => false,
        }
    }
}

/// The part that a name asks for: the first in the order of [`Field`] that has
/// the name, or none where the name is no part's.
pub open spec fn field_of(name: Seq<char>) -> Option<Field> {
    if name == Field::Icon.name() {
        Some(Field::Icon)
    } else if name == Field::Temp.name() {
        Some(Field::Temp)
    } else if name == Field::FeelsLike.name() {
        Some(Field::FeelsLike)
    } else if name == Field::Humidity.name() {
        Some(Field::Humidity)
    } else if name == Field::Description.name() {
        Some(Field::Description)
    } else if name == Field::Time.name() {
        Some(Field::Time)
    } else {
        None
    }
}

/// Whether showing what `name` asks for reads the first entry of a report's
/// list of conditions.
pub open spec fn reads_condition(name: Seq<char>) -> bool {
    match field_of(name) {
        Some(field) => field.reads_condition(),
        None => false,
    }
}

/// Whether `name` can be given on a command line: it is the name of a part,
/// and not of the time.
pub open spec fn on_command_line(name: Seq<char>) -> bool {
    match field_of(name) {
        Some(field) => field.on_command_line(),
        None => false,
    }
}

/// Every part is found again by its name.
pub proof fn lemma_names_differ(field: Field)
    ensures
        field_of(field.name()) == Some(field),
{
    reveal_strlit("icon");
    reveal_strlit("temp");
    reveal_strlit("feels_like");
    reveal_strlit("humidity");
    reveal_strlit("description");
    reveal_strlit("time");
    let name = field.name();
    match field {
        Field::Icon => {},
        Field::Temp => {
            assert(name[0] == 't' && name[1] == 'e');
        },
        Field::FeelsLike => {
            assert(name[0] == 'f');
        },
        Field::Humidity => {
            assert(name[0] == 'h');
        },
        Field::Description => {
            assert(name[0] == 'd');
        },
        Field::Time => {
            assert(name[0] == 't' && name[1] == 'i');
        },
    }
}

} // verus!
