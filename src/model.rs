//! The records exchanged with the weather service and the dialogue state.
//!
//! Decimal quantities (coordinates, temperatures, speeds, the UV index) are
//! held as the decimal text that is shown to the user and sent back in
//! queries: the logic never computes with them.
use vstd::prelude::*;

verus! {

/// A resolved place, as the weather service describes it.
#[derive(Debug, PartialEq)]
pub struct WeatherJSONLocation {
    pub name: String,
    pub region: String,
    pub country: String,
    /// Latitude in decimal degrees, as decimal text.
    pub lat: String,
    /// Longitude in decimal degrees, as decimal text.
    pub lon: String,
    pub tz_id: String,
    pub localtime_epoch: i64,
    pub localtime: String,
}

impl WeatherJSONLocation {
    /// A field-for-field copy.
    pub fn duplicate(&self) -> (r: Self)
        ensures
            r == *self,
    {
        WeatherJSONLocation {
            name: self.name.clone(),
            region: self.region.clone(),
            country: self.country.clone(),
            lat: self.lat.clone(),
            lon: self.lon.clone(),
            tz_id: self.tz_id.clone(),
            localtime_epoch: self.localtime_epoch,
            localtime: self.localtime.clone(),
        }
    }
}

/// The description of the current conditions.
#[derive(Debug, PartialEq)]
pub struct WeatherJSONCurrentCondition {
    pub text: String,
    pub icon: String,
    pub code: i32,
}

/// The current conditions that the replies show.
#[derive(Debug, PartialEq)]
pub struct WeatherJSONCurrent {
    /// Temperature in degrees Celsius, as decimal text.
    pub temp_c: String,
    /// Felt temperature in degrees Celsius, as decimal text.
    pub feelslike_c: String,
    pub condition: WeatherJSONCurrentCondition,
    /// Wind speed in km/h, as decimal text.
    pub wind_kph: String,
    pub wind_dir: String,
    /// UV index, as decimal text.
    pub uv: String,
}

/// The answer to a current-conditions request.
#[derive(Debug, PartialEq)]
pub struct WeatherJSON {
    pub location: WeatherJSONLocation,
    pub current: WeatherJSONCurrent,
}

/// The answer to a location lookup.
#[derive(Debug, PartialEq)]
pub struct LocationJson {
    pub location: WeatherJSONLocation,
}

/// Why a request to the weather service gave no usable answer.
#[derive(Debug, PartialEq, Eq, Clone, Copy)]
pub enum ProviderError {
    /// The request could not be sent or its answer not received.
    Network,
    /// The service answered with a status other than success.
    Status(u16),
    /// The answer did not have the expected shape.
    Malformed,
}

/// The dialogue state of one conversation.
#[derive(Debug, PartialEq)]
pub enum State {
    /// Nothing has been said yet.
    Start,
    /// Waiting for the user to send a location.
    ReceiveLocation,
    /// A location is known; commands are accepted.
    GetWeather(WeatherJSONLocation),
}

impl State {
    /// A copy of the state, location included.
    pub fn duplicate(&self) -> (r: Self)
        ensures
            r == *self,
    {
        match self {
            State::Start => State::Start,
            State::ReceiveLocation => State::ReceiveLocation,
            State::GetWeather(l) => State::GetWeather(l.duplicate()),
        }
    }
}

impl Default for State {
    fn default() -> (r: Self)
        ensures
            r == State::Start,
    {
        State::Start
    }
}

} // verus!
