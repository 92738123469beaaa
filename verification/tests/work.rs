use weather::work::{Selection, Work};

fn configured() -> Work {
    let mut work = Work::new();
    work.configure_key(0, "open key");
    work.configure_key(2, "accu key");
    let id = work.configure_id("client").unwrap();
    work.configure_secret(id, "secret");
    work
}

#[test]
fn a_new_registry_is_empty() {
    let work = Work::new();
    assert_eq!(work.default_index(), 0);
    assert_eq!(work.open_weather().api_key(), None);
    assert_eq!(work.weather_api().api_key(), None);
    assert_eq!(work.accu_weather().api_key(), None);
    assert_eq!(work.aeris_weather().client(), None);
    assert_eq!(work.save(), "OpenWeather\nOpenWeather:\nWeatherAPI:\nAccuWeather:\nAerisWeather::");
}

#[test]
fn the_providers_stand_in_a_fixed_order() {
    assert_eq!(Work::name_at(0), "OpenWeather");
    assert_eq!(Work::name_at(1), "WeatherAPI");
    assert_eq!(Work::name_at(2), "AccuWeather");
    assert_eq!(Work::name_at(3), "AerisWeather");
    assert_eq!(Work::position("OpenWeather"), Some(0));
    assert_eq!(Work::position("WeatherAPI"), Some(1));
    assert_eq!(Work::position("AccuWeather"), Some(2));
    assert_eq!(Work::position("AerisWeather"), Some(3));
    assert_eq!(Work::position("accuweather"), None);
    assert_eq!(Work::position(""), None);
}

#[test]
fn what_is_saved_is_loaded_again() {
    for default in ["1", "2", "3", "4"] {
        let mut saved = configured();
        assert_eq!(saved.list(default), Selection::Changed);
        let text = saved.save();
        let mut read = Work::new();
        read.configure_key(1, "to be removed");
        read.load(&text);
        assert_eq!(read.default_index(), saved.default_index());
        assert_eq!(read.open_weather().api_key(), Some("open key"));
        assert_eq!(read.weather_api().api_key(), None);
        assert_eq!(read.accu_weather().api_key(), Some("accu key"));
        assert_eq!(read.aeris_weather().client(), Some(("client", "secret")));
        assert_eq!(read.save(), text);
    }
}

#[test]
fn the_stored_text_has_one_line_for_each_provider() {
    let mut work = configured();
    work.list("3");
    assert_eq!(
        work.save(),
        "AccuWeather\nOpenWeather:open key\nWeatherAPI:\nAccuWeather:accu key\nAerisWeather:client:secret"
    );
}

#[test]
fn a_damaged_line_touches_no_other_provider() {
    let mut work = Work::new();
    work.load("AerisWeather\nOpenWeather:a:b\nWeatherAPI:w\nAccuWeather\nAerisWeather:id:secret\n");
    assert_eq!(work.open_weather().api_key(), None);
    assert_eq!(work.weather_api().api_key(), Some("w"));
    assert_eq!(work.accu_weather().api_key(), None);
    assert_eq!(work.aeris_weather().client(), Some(("id", "secret")));
    assert_eq!(work.default_index(), 3);
}

#[test]
fn the_default_needs_a_line_that_its_provider_accepts() {
    let mut work = Work::new();
    work.load("AccuWeather\nOpenWeather:o\nAccuWeather:a:b");
    assert_eq!(work.default_index(), 0);
    assert_eq!(work.open_weather().api_key(), Some("o"));
    let mut work = Work::new();
    work.load("AccuWeather\nAccuWeather:");
    assert_eq!(work.default_index(), 2);
    let mut work = Work::new();
    work.load("Nobody\nWeatherAPI:w");
    assert_eq!(work.default_index(), 0);
    assert_eq!(work.weather_api().api_key(), Some("w"));
}

#[test]
fn lines_may_come_in_any_order_and_more_than_once() {
    let mut work = Work::new();
    work.load("WeatherAPI\r\nAerisWeather:i:s\r\nWeatherAPI:first\r\nWeatherAPI:second\r\n");
    assert_eq!(work.default_index(), 1);
    assert_eq!(work.weather_api().api_key(), Some("second"));
    assert_eq!(work.aeris_weather().client(), Some(("i", "s")));
}

#[test]
fn an_empty_text_loads_nothing() {
    let mut work = configured();
    work.list("2");
    work.load("");
    assert_eq!(work.default_index(), 1);
    assert_eq!(work.open_weather().api_key(), Some("open key"));
    work.load("AerisWeather");
    assert_eq!(work.default_index(), 1);
    assert_eq!(work.open_weather().api_key(), Some("open key"));
}

#[test]
fn the_default_is_chosen_by_its_number() {
    let mut work = Work::new();
    assert_eq!(work.list("\n"), Selection::Kept);
    assert_eq!(work.default_index(), 0);
    assert_eq!(work.list(" 3 \n"), Selection::Changed);
    assert_eq!(work.default_index(), 2);
    assert_eq!(work.list("   "), Selection::Kept);
    assert_eq!(work.default_index(), 2);
    for answer in ["0", "5", "-1", "two", "1.0", "99999999999999999999999", "1 2"] {
        assert_eq!(work.list(answer), Selection::Rejected);
        assert_eq!(work.default_index(), 2);
    }
    assert_eq!(work.list("+1"), Selection::Changed);
    assert_eq!(work.default_index(), 0);
    assert_eq!(work.list("04"), Selection::Changed);
    assert_eq!(work.default_index(), 3);
}

#[test]
fn a_command_finds_its_provider() {
    let mut work = Work::new();
    work.list("4");
    assert_eq!(work.get(None), Some(3));
    assert_eq!(work.get(Some("WeatherAPI")), Some(1));
    assert_eq!(work.get(Some("weatherapi")), None);
    assert_eq!(work.get(Some("")), None);
    assert_eq!(work.configure("AccuWeather"), Some(2));
    assert_eq!(work.configure("Nobody"), None);
}

#[test]
fn keys_are_configured_by_position() {
    let mut work = Work::new();
    assert!(work.configure_key(0, "a\n"));
    assert!(work.configure_key(1, "b\n"));
    assert!(work.configure_key(2, "c\n"));
    assert_eq!(work.open_weather().api_key(), Some("a"));
    assert_eq!(work.weather_api().api_key(), Some("b"));
    assert_eq!(work.accu_weather().api_key(), Some("c"));
    assert!(!work.configure_key(1, "\n"));
    assert_eq!(work.weather_api().api_key(), None);
    assert_eq!(work.open_weather().api_key(), Some("a"));
}
