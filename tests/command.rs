use weather_bot::command::Command;

#[test]
fn parses_each_command() {
    assert_eq!(Command::parse("/showlocation", "bot"), Some(Command::ShowLocation));
    assert_eq!(Command::parse("/resetlocation", "bot"), Some(Command::ResetLocation));
    assert_eq!(Command::parse("/getweather", "bot"), Some(Command::GetWeather));
    assert_eq!(Command::parse("/help", "bot"), Some(Command::Help));
}

#[test]
fn ignores_arguments() {
    assert_eq!(Command::parse("/help me please", "bot"), Some(Command::Help));
}

#[test]
fn bot_name_is_checked_up_to_case() {
    assert_eq!(Command::parse("/getweather@WeatherBot", "weatherbot"), Some(Command::GetWeather));
    assert_eq!(Command::parse("/getweather@otherbot", "weatherbot"), None);
    assert_eq!(Command::parse("/help@", "weatherbot"), None);
}

#[test]
fn rejects_unknown_text() {
    assert_eq!(Command::parse("hello", "bot"), None);
    assert_eq!(Command::parse("", "bot"), None);
    assert_eq!(Command::parse("/HELP", "bot"), None);
    assert_eq!(Command::parse("help", "bot"), None);
    assert_eq!(Command::parse(" /help", "bot"), None);
}

#[test]
fn names_and_listing_order() {
    let all = Command::all();
    assert_eq!(all, vec![Command::ShowLocation, Command::ResetLocation, Command::GetWeather, Command::Help]);
    let names: Vec<&str> = all.iter().map(|c| c.name()).collect();
    assert_eq!(names, vec!["/showlocation", "/resetlocation", "/getweather", "/help"]);
    assert_eq!(Command::Help.description(), "list these commands");
}
