//! What can go wrong, and the text that tells the user so.

use vstd::prelude::*;

verus! {

/// Which of the two coordinates is meant.
#[derive(Debug, Clone, Copy, PartialEq, Eq, Structural)]
pub enum Axis {
    Latitude,
    Longitude,
}

/// A failure of one run. None is recovered from: the caller prints
/// `message()` and ends with a failure status.
#[derive(Debug, Clone, PartialEq, Eq)]
pub enum Failure {
    /// The locations file could not be read or created.
    ConfigUnreadable { detail: String },
    /// The locations file is not a TOML document.
    ConfigMalformed { detail: String },
    /// The entry `name` of the locations file has no number for `axis`.
    ConfigCoordinate { name: String, axis: Axis },
    /// No entry of the locations file is called `name`.
    UnknownLocation { name: String },
    /// A coordinate given on the command line is not a number.
    InvalidCoordinate { axis: Axis, detail: String },
    /// The weather service could not be reached.
    FetchTransport { detail: String },
    /// The weather service answered with a status other than success.
    FetchStatus { code: u16 },
    /// The answer is not a forecast.
    Schema { detail: String },
    /// A sample's time is not written as `YYYY-MM-DDTHH:MM:SSZ`.
    TimeParse { time: String },
}

impl Axis {
    /// The axis in lower case, as it stands in the locations file.
    pub open spec fn key_text(self) -> Seq<char> {
        match self {
            Axis::Latitude => "latitude"@,
            Axis::Longitude => "longitude"@,
        }
    }

    /// The key under which the locations file holds this coordinate.
    pub fn key(self) -> (key: &'static str)
        ensures
            key@ == self.key_text(),
    {
        match self {
            Axis::Latitude => "latitude",
            Axis::Longitude => "longitude",
        }
    }
}

/// The decimal digit `digit`, for `digit < 10`.
pub open spec fn digit_char(digit: nat) -> char {
    if digit == 0 {
        '0'
    } else if digit == 1 {
        '1'
    } else if digit == 2 {
        '2'
    } else if digit == 3 {
        '3'
    } else if digit == 4 {
        '4'
    } else if digit == 5 {
        '5'
    } else if digit == 6 {
        '6'
    } else if digit == 7 {
        '7'
    } else if digit == 8 {
        '8'
    } else {
        '9'
    }
}

/// `number` in decimal notation, without leading zeros.
pub open spec fn decimal_text(number: nat) -> Seq<char>
    decreases number,
{
    if number < 10 {
        seq![digit_char(number)]
    } else {
        decimal_text(number / 10).push(digit_char(number % 10))
    }
}

fn digit_str(digit: u16) -> (text: &'static str)
    requires
        digit < 10,
    ensures
        text@ == seq![digit_char(digit as nat)],
{
    proof {
        reveal_strlit("0");
        reveal_strlit("1");
        reveal_strlit("2");
        reveal_strlit("3");
        reveal_strlit("4");
        reveal_strlit("5");
        reveal_strlit("6");
        reveal_strlit("7");
        reveal_strlit("8");
        reveal_strlit("9");
    }
    let text = if digit == 0 {
        "0"
    } else if digit == 1 {
        "1"
    } else if digit == 2 {
        "2"
    } else if digit == 3 {
        "3"
    } else if digit == 4 {
        "4"
    } else if digit == 5 {
        "5"
    } else if digit == 6 {
        "6"
    } else if digit == 7 {
        "7"
    } else if digit == 8 {
        "8"
    } else {
        "9"
    };
    assert(text@ =~= seq![digit_char(digit as nat)]);
    text
}

/// Writes `number` in decimal notation at the end of `out`.
pub fn push_decimal(out: &mut String, number: u16)
    ensures
        final(out)@ == old(out)@ + decimal_text(number as nat),
    decreases number,
{
    if number >= 10 {
        push_decimal(out, number / 10);
    }
    out.append(digit_str(number % 10));
    assert(final(out)@ =~= old(out)@ + decimal_text(number as nat));
}

impl Failure {
    /// The text that `message` returns.
    pub open spec fn message_text(self) -> Seq<char> {
        match self {
            Failure::ConfigUnreadable { detail } => "Cannot read the locations file: "@ + detail@,
            Failure::ConfigMalformed { detail } => "The locations file is malformed: "@ + detail@,
            Failure::ConfigCoordinate { name, axis } => "Location "@ + name@ + " has no numeric "@
                + axis.key_text(),
            Failure::UnknownLocation { name } => "Unknown location: "@ + name@,
            Failure::InvalidCoordinate { axis, detail } => match axis {
                Axis::Latitude => "Invalid latitude: "@ + detail@,
                Axis::Longitude => "Invalid longitude: "@ + detail@,
            },
            Failure::FetchTransport { detail } => "Cannot fetch the forecast: "@ + detail@,
            Failure::FetchStatus { code } => "Cannot fetch the forecast: HTTP status "@
                + decimal_text(code as nat),
            Failure::Schema { detail } => "The answer is not a forecast: "@ + detail@,
            Failure::TimeParse { time } => "Invalid time in the forecast: "@ + time@,
        }
    }

    /// What to tell the user: the kind of failure, then what it is about.
    pub fn message(&self) -> (line: String)
        ensures
            line@ == self.message_text(),
    {
        match self {
            Failure::ConfigUnreadable { detail } => String::from_str(
                "Cannot read the locations file: ",
            ).concat(detail.as_str()),
            Failure::ConfigMalformed { detail } => String::from_str(
                "The locations file is malformed: ",
            ).concat(detail.as_str()),
            Failure::ConfigCoordinate { name, axis } => String::from_str("Location ").concat(
                name.as_str(),
            ).concat(" has no numeric ").concat(axis.key()),
            Failure::UnknownLocation { name } => String::from_str("Unknown location: ").concat(
                name.as_str(),
            ),
            Failure::InvalidCoordinate { axis, detail } => match axis {
                Axis::Latitude => String::from_str("Invalid latitude: ").concat(detail.as_str()),
                Axis::Longitude => String::from_str("Invalid longitude: ").concat(detail.as_str()),
            },
            Failure::FetchTransport { detail } => String::from_str(
                "Cannot fetch the forecast: ",
            ).concat(detail.as_str()),
            Failure::FetchStatus { code } => {
                let mut line = String::from_str("Cannot fetch the forecast: HTTP status ");
                push_decimal(&mut line, *code);
                line
            },
            Failure::Schema { detail } => String::from_str("The answer is not a forecast: ").concat(
                detail.as_str(),
            ),
            Failure::TimeParse { time } => String::from_str("Invalid time in the forecast: ").concat(
                time.as_str(),
            ),
        }
    }
}

} // verus!
