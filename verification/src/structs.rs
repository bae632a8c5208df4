//! The forecast as the weather service sends it, and a named place.
//!
//! Every number is decimal text (see the crate's front page). A reading that
//! the service left out is `None`, never a number.

use vstd::prelude::*;

verus! {

/// A named place with its coordinates in decimal notation.
#[derive(Debug, Clone, PartialEq, Eq)]
pub struct Location {
    pub name: String,
    pub latitude: String,
    pub longitude: String,
}

/// What a `Location` stands for: its three texts.
pub struct Place {
    pub name: Seq<char>,
    pub latitude: Seq<char>,
    pub longitude: Seq<char>,
}

impl View for Location {
    type V = Place;

    open spec fn view(&self) -> Place {
        Place { name: self.name@, latitude: self.latitude@, longitude: self.longitude@ }
    }
}

/// The root of a forecast.
#[derive(Debug, Clone, PartialEq, Eq)]
pub struct WeatherData {
    /// The document's type tag.
    pub kind: String,
    pub geometry: Geometry,
    pub properties: Properties,
}

/// The point that the forecast is for.
#[derive(Debug, Clone, PartialEq, Eq)]
pub struct Geometry {
    /// The geometry's type tag.
    pub kind: String,
    pub coordinates: Vec<String>,
}

#[derive(Debug, Clone, PartialEq, Eq)]
pub struct Properties {
    pub meta: Meta,
    /// The samples in the order in which the service sent them.
    pub timeseries: Vec<Timeseries>,
}

#[derive(Debug, Clone, PartialEq, Eq)]
pub struct Meta {
    pub updated_at: String,
    pub units: Units,
}

/// The unit in which each kind of reading is given.
#[derive(Debug, Clone, PartialEq, Eq)]
pub struct Units {
    pub air_pressure_at_sea_level: String,
    pub air_temperature: String,
    pub cloud_area_fraction: String,
    pub precipitation_amount: String,
    pub relative_humidity: String,
    pub wind_from_direction: String,
    pub wind_speed: String,
}

/// One sample of the forecast, at the UTC instant `time`.
#[derive(Debug, Clone, PartialEq, Eq)]
pub struct Timeseries {
    pub time: String,
    pub data: Data,
}

#[derive(Debug, Clone, PartialEq, Eq)]
pub struct Data {
    pub instant: Instant,
    pub next_1_hours: Option<Next1Hours>,
    pub next_6_hours: Option<Next6Hours>,
    pub next_12_hours: Option<Next12Hours>,
}

/// The readings that hold at the sample's own instant.
#[derive(Debug, Clone, PartialEq, Eq)]
pub struct Instant {
    pub details: Details,
}

/// Weather readings. `None` is a reading that the service did not give.
#[derive(Debug, Clone, PartialEq, Eq)]
pub struct Details {
    pub air_pressure_at_sea_level: Option<String>,
    pub air_temperature: Option<String>,
    pub cloud_area_fraction: Option<String>,
    pub relative_humidity: Option<String>,
    pub wind_from_direction: Option<String>,
    pub wind_speed: Option<String>,
    pub wind_speed_of_gust: Option<String>,
    pub ultraviolet_index_clear_sky: Option<String>,
}

#[derive(Debug, Clone, PartialEq, Eq)]
pub struct Next1Hours {
    pub summary: Summary,
    pub details: Option<Details>,
}

#[derive(Debug, Clone, PartialEq, Eq)]
pub struct Next6Hours {
    pub summary: Summary,
    pub details: Option<Details>,
}

#[derive(Debug, Clone, PartialEq, Eq)]
pub struct Next12Hours {
    pub summary: Summary,
    pub details: Option<Details>,
}

#[derive(Debug, Clone, PartialEq, Eq)]
pub struct Summary {
    pub symbol_code: String,
}

} // verus!
