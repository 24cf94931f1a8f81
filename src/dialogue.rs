//! The dialogue: what each incoming message leads to in each state, and what
//! the weather service's answers lead to.
//!
//! A handler either replies at once (`Decision::Respond`), with the text to
//! send and the state to store, or asks the caller to query the weather
//! service (`Decision::Fetch`). The caller then hands the service's answer to
//! `location_received` or `weather_received`, which give the reply.
//! A reply whose `next` is `None` leaves the stored state as it was.
use vstd::prelude::*;
use crate::model::{State, WeatherJSONLocation, WeatherJSON, LocationJson, ProviderError};
use crate::command::{Command, parse_command, help_text};
use crate::text::{found_text, place_text, weather_text, found_message, place_message, weather_message};

verus! {

/// The base address of the weather service.
pub const URL: &'static str = "http://api.weatherapi.com/v1/";

/// A coordinate pair sent by the user, as decimal text.
#[derive(Debug, PartialEq)]
pub struct Coordinates {
    pub latitude: String,
    pub longitude: String,
}

/// An incoming message: its text and the location it carries, if any.
#[derive(Debug, PartialEq)]
pub struct Incoming {
    pub text: Option<String>,
    pub coordinates: Option<Coordinates>,
}

/// A query to the weather service; `query` is the `q` parameter.
#[derive(Debug, PartialEq)]
pub enum Request {
    /// Resolve a coordinate pair to a place and its time zone.
    Timezone { query: String },
    /// The current conditions at a coordinate pair.
    Current { query: String },
}

/// A message to send and the state to store after it (`None`: unchanged).
#[derive(Debug, PartialEq)]
pub struct Reply {
    pub text: String,
    /// Whether the text is HTML.
    pub html: bool,
    pub next: Option<State>,
}

/// What a handler asks of its caller.
#[derive(Debug, PartialEq)]
pub enum Decision {
    Respond(Reply),
    Fetch(Request),
}

/// The meaning of a `Decision`.
pub enum Outcome {
    Say { text: Seq<char>, html: bool, next: Option<State> },
    Lookup { query: Seq<char> },
    Forecast { query: Seq<char> },
}

impl Reply {
    pub open spec fn outcome(&self) -> Outcome {
        Outcome::Say { text: self.text@, html: self.html, next: self.next }
    }
}

impl Decision {
    pub open spec fn outcome(&self) -> Outcome {
        match self {
            Decision::Respond(r) => r.outcome(),
            Decision::Fetch(Request::Timezone { query }) => Outcome::Lookup { query: query@ },
            Decision::Fetch(Request::Current { query }) => Outcome::Forecast { query: query@ },
        }
    }
}

/// The state that an outcome stores (`None`: unchanged).
pub open spec fn next_of(o: Outcome) -> Option<State> {
    match o {
        Outcome::Say { next, .. } => next,
        _ => None,
    }
}

pub open spec fn start_prompt() -> Seq<char> {
    "Let's start! Send me your location"@
}

pub open spec fn retry_prompt() -> Seq<char> {
    "Oops, I need a location. Send me your location"@
}

pub open spec fn reset_prompt() -> Seq<char> {
    "Send me your new location please"@
}

pub open spec fn failure_notice() -> Seq<char> {
    "Sorry, the weather service gave no answer. Please try again later"@
}

/// The `q` parameter for a coordinate pair.
pub open spec fn coordinate_query(lat: Seq<char>, lon: Seq<char>) -> Seq<char> {
    lat + ","@ + lon
}

/// What command `c` leads to while location `l` is held.
pub open spec fn command_outcome(l: WeatherJSONLocation, c: Command) -> Outcome {
    match c {
        Command::GetWeather => Outcome::Forecast { query: coordinate_query(l.lat@, l.lon@) },
        Command::ShowLocation => Outcome::Say { text: place_text(l), html: true, next: None },
        Command::ResetLocation => Outcome::Say {
            text: reset_prompt(),
            html: false,
            next: Some(State::ReceiveLocation),
        },
        Command::Help => Outcome::Say { text: help_text(), html: false, next: None },
    }
}

/// The command that message `msg` gives to the bot named `bot`, if any.
pub open spec fn command_of(msg: Incoming, bot: Seq<char>) -> Option<Command> {
    match msg.text {
        Some(t) => parse_command(t@, bot),
        None => None,
    }
}

/// What message `msg` leads to in state `state`, for the bot named `bot`.
pub open spec fn decide(state: State, msg: Incoming, bot: Seq<char>) -> Outcome {
    match state {
        State::Start => Outcome::Say { text: start_prompt(), html: false, next: Some(State::ReceiveLocation) },
        State::ReceiveLocation => match msg.coordinates {
            Some(c) => Outcome::Lookup { query: coordinate_query(c.latitude@, c.longitude@) },
            None => Outcome::Say { text: retry_prompt(), html: false, next: None },
        },
        State::GetWeather(l) => match command_of(msg, bot) {
            Some(c) => command_outcome(l, c),
            None => Outcome::Say { text: help_text(), html: false, next: None },
        },
    }
}

/// What the answer to a location lookup leads to.
pub open spec fn location_outcome(answer: Result<LocationJson, ProviderError>) -> Outcome {
    match answer {
        Ok(j) => Outcome::Say {
            text: found_text(j.location),
            html: true,
            next: Some(State::GetWeather(j.location)),
        },
        Err(_) => Outcome::Say { text: failure_notice(), html: false, next: None },
    }
}

/// What the answer to a weather request for place `l` leads to.
pub open spec fn weather_outcome(l: WeatherJSONLocation, answer: Result<WeatherJSON, ProviderError>) -> Outcome {
    match answer {
        Ok(w) => Outcome::Say { text: weather_text(l, w.current), html: true, next: None },
        Err(_) => Outcome::Say { text: failure_notice(), html: false, next: None },
    }
}

impl Request {
    /// The address the query goes to.
    pub fn url(&self) -> (r: String)
        ensures
            r@ == URL@ + match self {
                Request::Timezone { .. } => "timezone.json"@,
                Request::Current { .. } => "current.json"@,
            },
    {
        let mut u = String::from_str(URL);
        match self {
            Request::Timezone { .. } => u.append("timezone.json"),
            Request::Current { .. } => u.append("current.json"),
        }
        u
    }

    /// The `q` parameter of the query.
    pub fn query(&self) -> (r: &str)
        ensures
            r@ == match self {
                Request::Timezone { query } => query@,
                Request::Current { query } => query@,
            },
    {
        match self {
            Request::Timezone { query } => query.as_str(),
            Request::Current { query } => query.as_str(),
        }
    }
}

fn query_for(lat: &str, lon: &str) -> (r: String)
    ensures
        r@ == coordinate_query(lat@, lon@),
{
    let mut q = String::from_str(lat);
    q.append(",");
    q.append(lon);
    q
}

/// The first message of a conversation: ask for a location.
pub fn start() -> (r: Reply)
    ensures
        r.outcome() == (Outcome::Say { text: start_prompt(), html: false, next: Some(State::ReceiveLocation) }),
{
    Reply { text: String::from_str("Let's start! Send me your location"), html: false, next: Some(State::ReceiveLocation) }
}

/// A message while waiting for a location: look the coordinates up, or ask
/// again when the message carries none.
pub fn receive_location(msg: &Incoming) -> (r: Decision)
    ensures
        r.outcome() == decide(State::ReceiveLocation, *msg, Seq::empty()),
{
    match &msg.coordinates {
        Some(c) => Decision::Fetch(Request::Timezone { query: query_for(c.latitude.as_str(), c.longitude.as_str()) }),
        None => Decision::Respond(
            Reply { text: String::from_str("Oops, I need a location. Send me your location"), html: false, next: None },
        ),
    }
}

/// Command `cmd` while location `location` is held.
pub fn get_weather(location: &WeatherJSONLocation, cmd: Command) -> (r: Decision)
    ensures
        r.outcome() == command_outcome(*location, cmd),
{
    match cmd {
        Command::GetWeather => Decision::Fetch(
            Request::Current { query: query_for(location.lat.as_str(), location.lon.as_str()) },
        ),
        Command::ShowLocation => Decision::Respond(
            Reply { text: place_message(location), html: true, next: None },
        ),
        Command::ResetLocation => Decision::Respond(
            Reply { text: String::from_str("Send me your new location please"), html: false, next: Some(State::ReceiveLocation) },
        ),
        Command::Help => Decision::Respond(Reply { text: Command::descriptions(), html: false, next: None }),
    }
}

/// A message that gives no command while a location is held: list the
/// commands.
pub fn invalid_command() -> (r: Reply)
    ensures
        r.outcome() == (Outcome::Say { text: help_text(), html: false, next: None }),
{
    Reply { text: Command::descriptions(), html: false, next: None }
}

/// What message `msg` leads to in state `state`, for the bot named
/// `bot_name`.
pub fn on_message(state: &State, msg: &Incoming, bot_name: &str) -> (r: Decision)
    ensures
        r.outcome() == decide(*state, *msg, bot_name@),
{
    match state {
        State::Start => Decision::Respond(start()),
        State::ReceiveLocation => receive_location(msg),
        State::GetWeather(location) => {
            let cmd = match &msg.text {
                Some(t) => Command::parse(t.as_str(), bot_name),
                None => None,
            };
            match cmd {
                Some(c) => get_weather(location, c),
                None => Decision::Respond(invalid_command()),
            }
        },
    }
}

/// The answer to a location lookup: on success show the place and hold it;
/// on failure say so and keep the state.
pub fn location_received(answer: Result<LocationJson, ProviderError>) -> (r: Reply)
    ensures
        r.outcome() == location_outcome(answer),
{
    match answer {
        Ok(j) => {
            let text = found_message(&j.location);
            Reply { text, html: true, next: Some(State::GetWeather(j.location)) }
        },
        Err(_) => failure_reply(),
    }
}

/// The answer to a weather request for place `location`: on success report
/// the conditions; on failure say so. The state is kept either way.
pub fn weather_received(location: &WeatherJSONLocation, answer: Result<WeatherJSON, ProviderError>) -> (r: Reply)
    ensures
        r.outcome() == weather_outcome(*location, answer),
{
    match answer {
        Ok(w) => Reply { text: weather_message(location, &w.current), html: true, next: None },
        Err(_) => failure_reply(),
    }
}

fn failure_reply() -> (r: Reply)
    ensures
        r.outcome() == (Outcome::Say { text: failure_notice(), html: false, next: None }),
{
    Reply {
        text: String::from_str("Sorry, the weather service gave no answer. Please try again later"),
        html: false,
        next: None,
    }
}

} // verus!
