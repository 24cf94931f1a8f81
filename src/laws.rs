//! Properties of the dialogue as a whole, proved from the handlers' contracts.
use vstd::prelude::*;
use crate::model::{State, WeatherJSONLocation, WeatherJSONCurrent, WeatherJSON, LocationJson, ProviderError};
use crate::command::{Command, parse_command};
use crate::dialogue::{
    Incoming, Outcome, decide, next_of, location_outcome, weather_outcome, coordinate_query,
    retry_prompt, failure_notice,
};
use crate::store::{stored_state, committed};
use crate::text::{found_text, place_text, weather_text};

verus! {

/// Whether message `msg` in state `state` can move the dialogue on: any
/// message from the start, a location while one is awaited, and a reset
/// command while one is held.
pub open spec fn advancing(state: State, msg: Incoming, bot: Seq<char>) -> bool {
    match state {
        State::Start => true,
        State::ReceiveLocation => msg.coordinates is Some,
        State::GetWeather(_) => msg.text is Some && parse_command(msg.text->0@, bot) == Some(
            Command::ResetLocation,
        ),
    }
}

/// A message that cannot move the dialogue on leaves every stored state as
/// it was: its reply stores nothing, and the weather request that it may
/// lead to stores nothing whatever the service answers.
pub proof fn lemma_non_advancing_input_keeps_state(
    m: Map<i64, State>,
    id: i64,
    state: State,
    msg: Incoming,
    bot: Seq<char>,
    answer: Result<WeatherJSON, ProviderError>,
)
    requires
        stored_state(m, id) == state,
        !advancing(state, msg, bot),
    ensures
        decide(state, msg, bot) !is Lookup,
        committed(m, id, next_of(decide(state, msg, bot))) == m,
        decide(state, msg, bot) is Forecast ==> state is GetWeather && committed(
            m,
            id,
            next_of(weather_outcome(state->GetWeather_0, answer)),
        ) == m,
{
}

/// While a location is awaited, a message with coordinates asks the service
/// to resolve exactly them; a successful answer then stores the place it
/// names, field for field, and the store hands that place back.
pub proof fn lemma_resolved_location_is_stored(
    m: Map<i64, State>,
    id: i64,
    msg: Incoming,
    bot: Seq<char>,
    answer: LocationJson,
)
    requires
        msg.coordinates is Some,
    ensures
        decide(State::ReceiveLocation, msg, bot) == (Outcome::Lookup {
            query: coordinate_query(msg.coordinates->0.latitude@, msg.coordinates->0.longitude@),
        }),
        next_of(location_outcome(Ok(answer))) == Some(State::GetWeather(answer.location)),
        stored_state(committed(m, id, next_of(location_outcome(Ok(answer)))), id) == State::GetWeather(
            answer.location,
        ),
{
}

/// A reset while place `l` is held goes back to waiting for a location, and
/// from there a later message without coordinates, a command included, gets
/// the request for a location: nothing of `l` is shown or kept.
pub proof fn lemma_reset_discards_location(
    l: WeatherJSONLocation,
    msg: Incoming,
    later: Incoming,
    bot: Seq<char>,
)
    requires
        msg.text is Some,
        parse_command(msg.text->0@, bot) == Some(Command::ResetLocation),
        later.coordinates is None,
    ensures
        next_of(decide(State::GetWeather(l), msg, bot)) == Some(State::ReceiveLocation),
        decide(State::ReceiveLocation, later, bot) == (Outcome::Say {
            text: retry_prompt(),
            html: false,
            next: None,
        }),
{
}

/// The replies depend on the shown values alone: places and conditions that
/// show the same text render to the same reply.
pub proof fn lemma_rendering_is_deterministic(
    a: WeatherJSONLocation,
    b: WeatherJSONLocation,
    c: WeatherJSONCurrent,
    d: WeatherJSONCurrent,
)
    requires
        a.name@ == b.name@,
        a.region@ == b.region@,
        a.country@ == b.country@,
        a.lat@ == b.lat@,
        a.lon@ == b.lon@,
        a.tz_id@ == b.tz_id@,
        c.temp_c@ == d.temp_c@,
        c.feelslike_c@ == d.feelslike_c@,
        c.condition.text@ == d.condition.text@,
        c.wind_kph@ == d.wind_kph@,
        c.wind_dir@ == d.wind_dir@,
        c.uv@ == d.uv@,
    ensures
        found_text(a) == found_text(b),
        place_text(a) == place_text(b),
        weather_text(a, c) == weather_text(b, d),
{
}

/// A failed weather request keeps the state held and tells the user so with
/// a message that is not empty.
pub proof fn lemma_weather_failure_is_reported(
    m: Map<i64, State>,
    id: i64,
    l: WeatherJSONLocation,
    e: ProviderError,
)
    ensures
        weather_outcome(l, Err(e)) == (Outcome::Say { text: failure_notice(), html: false, next: None }),
        committed(m, id, next_of(weather_outcome(l, Err(e)))) == m,
        failure_notice().len() > 0,
{
    reveal_strlit("Sorry, the weather service gave no answer. Please try again later");
}

} // verus!
