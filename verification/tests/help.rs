use weather::help::Help;
use weather::provider::accuweather::AccuWeather;
use weather::provider::aerisweather::AerisWeather;
use weather::provider::openweather::OpenWeather;
use weather::provider::weatherapi::WeatherAPI;
use weather::work::{Provider, Work};

#[test]
fn the_message_for_arguments_that_were_not_understood() {
    assert_eq!(
        Help::unrecognized("unknown command"),
        "weather: unknown command: unrecognized command\nFor help information, type: \"weather help\""
    );
    assert_eq!(
        Help::unrecognized(""),
        "weather: : unrecognized command\nFor help information, type: \"weather help\""
    );
}

fn stored<P: Provider>(provider: &P) -> (String, String) {
    (provider.name().to_owned(), provider.serialize())
}

#[test]
fn every_provider_starts_without_a_credential() {
    assert_eq!(
        stored(&OpenWeather::default()),
        ("OpenWeather".to_owned(), "OpenWeather:".to_owned())
    );
    assert_eq!(
        stored(&WeatherAPI::default()),
        ("WeatherAPI".to_owned(), "WeatherAPI:".to_owned())
    );
    assert_eq!(
        stored(&AccuWeather::default()),
        ("AccuWeather".to_owned(), "AccuWeather:".to_owned())
    );
    assert_eq!(
        stored(&AerisWeather::default()),
        ("AerisWeather".to_owned(), "AerisWeather::".to_owned())
    );
    assert_eq!(Work::default().save(), Work::new().save());
}

fn take<P: Provider>(provider: &mut P, line: &str) -> Option<String> {
    if provider.deserialize(line) {
        Some(provider.serialize())
    } else {
        None
    }
}

#[test]
fn an_accepted_line_is_the_line_that_is_stored() {
    for line in ["OpenWeather:", "OpenWeather:k", "OpenWeather: spaced key "] {
        assert_eq!(take(&mut OpenWeather::new(), line), Some(line.to_owned()));
        assert_eq!(take(&mut WeatherAPI::new(), line), None);
        assert_eq!(take(&mut AccuWeather::new(), line), None);
        assert_eq!(take(&mut AerisWeather::new(), line), None);
    }
    for line in ["AerisWeather::", "AerisWeather:i:s"] {
        assert_eq!(take(&mut AerisWeather::new(), line), Some(line.to_owned()));
        assert_eq!(take(&mut OpenWeather::new(), line), None);
    }
}
