//! The request to the weather service: where it goes, what it says of the
//! sender, and which answers count as a forecast.

use vstd::prelude::*;
use crate::error::{Axis, Failure};
use crate::structs::WeatherData;

verus! {

/// The point to ask the forecast for: both coordinates in decimal notation,
/// and the name of the stored place where the point was looked up by name.
#[derive(Debug, Clone, PartialEq, Eq)]
pub struct Target {
    pub label: Option<String>,
    pub latitude: String,
    pub longitude: String,
}

/// The start of every request, up to the latitude.
pub open spec fn endpoint_text() -> Seq<char> {
    "https://api.met.no/weatherapi/locationforecast/2.0/complete?lat="@
}

/// The address to ask for the forecast at `latitude` and `longitude`. The two
/// texts stand in it as they are.
pub open spec fn request_url_text(latitude: Seq<char>, longitude: Seq<char>) -> Seq<char> {
    endpoint_text() + latitude + "&lon="@ + longitude
}

/// The line that says which forecast is being fetched.
pub open spec fn announcement_text(
    label: Option<Seq<char>>,
    latitude: Seq<char>,
    longitude: Seq<char>,
) -> Seq<char> {
    match label {
        Some(name) => "Fetching weather data for "@ + name + " (latitude: "@ + latitude
            + ", longitude: "@ + longitude + ")"@,
        None => "Fetching weather data for "@ + latitude + ", "@ + longitude,
    }
}

/// Whether an HTTP status is one of success: 200 to 299.
pub open spec fn is_success(code: u16) -> bool {
    200 <= code <= 299
}

impl Target {
    /// The label's text, if there is a label.
    pub open spec fn label_text(self) -> Option<Seq<char>> {
        match self.label {
            Some(name) => Some(name@),
            None => None,
        }
    }

    /// Makes the target from the outcome of reading each coordinate as a
    /// decimal number: `Ok` with the number in decimal notation, or `Err` with
    /// the reason why the text is no number. A latitude that is no number is
    /// reported before a longitude that is none, and there is a target only if
    /// both are numbers.
    pub fn new(
        label: Option<String>,
        latitude: Result<String, String>,
        longitude: Result<String, String>,
    ) -> (made: Result<Target, Failure>)
        ensures
            match (latitude, longitude) {
                (Ok(north), Ok(east)) => made == Ok::<Target, Failure>(
                    Target { label, latitude: north, longitude: east },
                ),
                (Ok(_), Err(detail)) => made == Err::<Target, Failure>(
                    Failure::InvalidCoordinate { axis: Axis::Longitude, detail },
                ),
                (Err(detail), _) => made == Err::<Target, Failure>(
                    Failure::InvalidCoordinate { axis: Axis::Latitude, detail },
                ),
            },
    {
        match latitude {
            Ok(north) => match longitude {
                Ok(east) => Ok(Target { label, latitude: north, longitude: east }),
                Err(detail) => Err(Failure::InvalidCoordinate { axis: Axis::Longitude, detail }),
            },
            Err(detail) => Err(Failure::InvalidCoordinate { axis: Axis::Latitude, detail }),
        }
    }

    /// The line that says which forecast is being fetched.
    pub fn announcement(&self) -> (line: String)
        ensures
            line@ == announcement_text(self.label_text(), self.latitude@, self.longitude@),
    {
        let mut line = String::from_str("Fetching weather data for ");
        match &self.label {
            Some(name) => {
                line.append(name.as_str());
                line.append(" (latitude: ");
                line.append(self.latitude.as_str());
                line.append(", longitude: ");
                line.append(self.longitude.as_str());
                line.append(")");
            },
            None => {
                line.append(self.latitude.as_str());
                line.append(", ");
                line.append(self.longitude.as_str());
            },
        }
        line
    }

    /// The address of the one request that a run makes.
    pub fn request_url(&self) -> (url: String)
        ensures
            url@ == request_url_text(self.latitude@, self.longitude@),
    {
        let mut url = String::from_str(
            "https://api.met.no/weatherapi/locationforecast/2.0/complete?lat=",
        );
        url.append(self.latitude.as_str());
        url.append("&lon=");
        url.append(self.longitude.as_str());
        url
    }
}

/// The value of the `User-Agent` header of every request.
pub fn user_agent() -> (agent: &'static str)
    ensures
        agent@ == "Gurka 1.0"@,
{
    "Gurka 1.0"
}

/// Judges the status of the service's answer: a status of success lets the
/// run go on, any other ends it with `FetchStatus` and that status.
pub fn check_status(code: u16) -> (checked: Result<(), Failure>)
    ensures
        is_success(code) ==> checked is Ok,
        !is_success(code) ==> checked == Err::<(), Failure>(Failure::FetchStatus { code }),
{
    if 200 <= code && code <= 299 {
        Ok(())
    } else {
        Err(Failure::FetchStatus { code })
    }
}

/// What a run makes of the service's answer, given its status and its body
/// as read: `Ok` with the forecast, or `Err` with the reason why the body is
/// no forecast. The status is judged first: without success the body does not
/// count. With success, a body that is no forecast is a `Schema` failure, and
/// a forecast is handed on as it is.
pub fn accept_answer(code: u16, body: Result<WeatherData, String>) -> (accepted: Result<
    WeatherData,
    Failure,
>)
    ensures
        !is_success(code) ==> accepted == Err::<WeatherData, Failure>(
            Failure::FetchStatus { code },
        ),
        is_success(code) ==> match body {
            Ok(weather) => accepted == Ok::<WeatherData, Failure>(weather),
            Err(detail) => accepted == Err::<WeatherData, Failure>(Failure::Schema { detail }),
        },
{
    match check_status(code) {
        Ok(_) => match body {
            Ok(weather) => Ok(weather),
            Err(detail) => Err(Failure::Schema { detail }),
        },
        Err(failure) => Err(failure),
    }
}

} // verus!
