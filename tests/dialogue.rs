use weather_bot::command::Command;
use weather_bot::dialogue::{
    get_weather, location_received, on_message, receive_location, start, weather_received, Coordinates,
    Decision, Incoming, Reply, Request,
};
use weather_bot::model::{
    LocationJson, ProviderError, State, WeatherJSON, WeatherJSONCurrent, WeatherJSONCurrentCondition,
    WeatherJSONLocation,
};
use weather_bot::store::SessionStore;
use weather_bot::text::{join, place_message, weather_message};

fn new_york() -> WeatherJSONLocation {
    WeatherJSONLocation {
        name: "New York".to_string(),
        region: "New York".to_string(),
        country: "USA".to_string(),
        lat: "40.71".to_string(),
        lon: "-74".to_string(),
        tz_id: "America/New_York".to_string(),
        localtime_epoch: 1700000000,
        localtime: "2023-11-14 17:13".to_string(),
    }
}

fn current() -> WeatherJSONCurrent {
    WeatherJSONCurrent {
        temp_c: "12.5".to_string(),
        feelslike_c: "10".to_string(),
        condition: WeatherJSONCurrentCondition {
            text: "Partly cloudy".to_string(),
            icon: "//cdn.weatherapi.com/116.png".to_string(),
            code: 1003,
        },
        wind_kph: "0".to_string(),
        wind_dir: "NW".to_string(),
        uv: "0".to_string(),
    }
}

fn text_message(t: &str) -> Incoming {
    Incoming { text: Some(t.to_string()), coordinates: None }
}

fn location_message(lat: &str, lon: &str) -> Incoming {
    Incoming {
        text: None,
        coordinates: Some(Coordinates { latitude: lat.to_string(), longitude: lon.to_string() }),
    }
}

fn reply(d: Decision) -> Reply {
    match d {
        Decision::Respond(r) => r,
        Decision::Fetch(_) => panic!("expected a reply"),
    }
}

const HELP: &str = "These commands are supported:\n\n/showlocation — show the location I hold for you\n/resetlocation — forget your location and ask for a new one\n/getweather — report the current weather at your location\n/help — list these commands";

#[test]
fn start_asks_for_location() {
    let mut store = SessionStore::new();
    let state = store.get(7);
    assert_eq!(state, State::Start);
    let r = reply(on_message(&state, &text_message("hello"), "bot"));
    assert!(r.text.contains("Send me your location"));
    store.commit(7, r.next);
    assert_eq!(store.get(7), State::ReceiveLocation);
    assert_eq!(start().text, "Let's start! Send me your location");
}

#[test]
fn coordinates_resolve_to_new_york() {
    let mut store = SessionStore::new();
    store.set(1, State::ReceiveLocation);
    let d = on_message(&store.get(1), &location_message("40.7128", "-74.006"), "bot");
    match &d {
        Decision::Fetch(req) => {
            assert_eq!(req, &Request::Timezone { query: "40.7128,-74.006".to_string() });
            assert_eq!(req.url(), "http://api.weatherapi.com/v1/timezone.json");
            assert_eq!(req.query(), "40.7128,-74.006");
        }
        Decision::Respond(_) => panic!("expected a lookup"),
    }
    let r = location_received(Ok(LocationJson { location: new_york() }));
    assert!(r.html);
    assert!(r.text.contains("New York"));
    assert!(r.text.contains("USA"));
    assert!(r.text.contains("America/New_York"));
    assert_eq!(
        r.text,
        "<b> Hey Hey Hey! </b>\n<b> We detected your location! </b>\n<b> Here you are! </b>\n<i> City: New York </i>\n<i> Region: New York </i>\n<i> Country: USA </i>\n<i> Latitude: 40.71, Longitude: -74 </i>\n<i> Your timezone: America/New_York </i>"
    );
    store.commit(1, r.next);
    assert_eq!(store.get(1), State::GetWeather(new_york()));
}

#[test]
fn help_lists_commands_and_keeps_state() {
    let state = State::GetWeather(new_york());
    let r = reply(on_message(&state, &text_message("/help"), "bot"));
    assert_eq!(r.text, HELP);
    assert_eq!(r.next, None);
    assert_eq!(Command::descriptions(), HELP);
}

#[test]
fn weather_failure_keeps_state_and_notifies() {
    let mut store = SessionStore::new();
    store.set(3, State::GetWeather(new_york()));
    let d = on_message(&store.get(3), &text_message("/getweather"), "bot");
    assert_eq!(d, Decision::Fetch(Request::Current { query: "40.71,-74".to_string() }));
    let r = weather_received(&new_york(), Err(ProviderError::Network));
    assert!(!r.text.is_empty());
    assert!(r.text.contains("Sorry"));
    assert_eq!(r.next, None);
    store.commit(3, r.next);
    assert_eq!(store.get(3), State::GetWeather(new_york()));
    let r2 = weather_received(&new_york(), Err(ProviderError::Status(500)));
    assert_eq!(r2.text, r.text);
}

#[test]
fn location_failure_keeps_waiting() {
    let r = location_received(Err(ProviderError::Malformed));
    assert_eq!(r.next, None);
    assert_eq!(r.text, "Sorry, the weather service gave no answer. Please try again later");
}

#[test]
fn message_without_location_is_asked_again() {
    let r = reply(receive_location(&text_message("where am I")));
    assert_eq!(r.text, "Oops, I need a location. Send me your location");
    assert_eq!(r.next, None);
}

#[test]
fn non_advancing_inputs_keep_state() {
    let held = State::GetWeather(new_york());
    for t in ["/help", "/showlocation", "nonsense", "/help@otherbot"] {
        let r = reply(on_message(&held, &text_message(t), "bot"));
        assert_eq!(r.next, None);
    }
    let r = reply(on_message(&State::ReceiveLocation, &text_message("/showlocation"), "bot"));
    assert_eq!(r.next, None);
}

#[test]
fn reset_discards_location() {
    let mut store = SessionStore::new();
    store.set(5, State::GetWeather(new_york()));
    let r = reply(on_message(&store.get(5), &text_message("/resetlocation"), "bot"));
    assert_eq!(r.text, "Send me your new location please");
    store.commit(5, r.next);
    assert_eq!(store.get(5), State::ReceiveLocation);
    let later = reply(on_message(&store.get(5), &text_message("/showlocation"), "bot"));
    assert!(!later.text.contains("New York"));
    assert_eq!(later.text, "Oops, I need a location. Send me your location");
}

#[test]
fn show_location_renders_held_place() {
    let r = reply(get_weather(&new_york(), Command::ShowLocation));
    assert!(r.html);
    assert_eq!(r.next, None);
    assert_eq!(
        r.text,
        "<b> Here you are! </b>\n<i> City: New York </i>\n<i> Region: New York </i>\n<i> Country: USA </i>\n<i> Latitude: 40.71, Longitude: -74 </i>\n<i> Your timezone: America/New_York </i>"
    );
}

#[test]
fn weather_report_is_rendered() {
    let r = weather_received(&new_york(), Ok(WeatherJSON { location: new_york(), current: current() }));
    assert!(r.html);
    assert_eq!(r.next, None);
    let expected = [
        "<b> Hi friend fom New York, New York, USA!!! </b>",
        "<i> Current temperature: 12.5° Feels like 10° </i>",
        "<i> Seems to be Partly cloudy </i>",
        "<i> Wind in NW direction 0km/h </i>",
        "<i> UV index 0, be careful</i>",
        "<b> UV index description! </b>",
        "<i> 0 to 2 - You can safely enjoy being outside!</i>",
        "<i> 3 to 7 - Seek shade during midday hours! Slip on a shirt, slop on sunscreen and slap on hat! </i>",
        "<i> 8 and above - Avoid being outside during midday hours! Make sure you seek shade! Shirt, sunscreen and hat are a must! </i>",
    ]
    .join("\n");
    assert_eq!(r.text, expected);
}

#[test]
fn rendering_is_deterministic() {
    assert_eq!(weather_message(&new_york(), &current()), weather_message(&new_york(), &current()));
    assert_eq!(place_message(&new_york()), place_message(&new_york()));
}

#[test]
fn join_of_lines() {
    assert_eq!(join(&vec![]), "");
    assert_eq!(join(&vec!["a".to_string()]), "a");
    assert_eq!(join(&vec!["a".to_string(), "".to_string(), "b".to_string()]), "a\n\nb");
}

#[test]
fn start_ignores_message_content() {
    let r = reply(on_message(&State::Start, &location_message("1", "2"), "bot"));
    assert_eq!(r.next, Some(State::ReceiveLocation));
}
