use weather::credential::{read_key_line, read_pair_line, write_key_line, write_pair_line};
use weather::provider::accuweather::AccuWeather;
use weather::provider::aerisweather::AerisWeather;
use weather::provider::openweather::OpenWeather;
use weather::provider::weatherapi::WeatherAPI;
use weather::work::Provider;

#[test]
fn a_single_key_is_stored_after_the_name() {
    let mut open = OpenWeather::new();
    assert_eq!(open.name(), "OpenWeather");
    assert_eq!(open.serialize(), "OpenWeather:");
    assert!(open.configure(" abc123 \n"));
    assert_eq!(open.api_key(), Some("abc123"));
    assert_eq!(open.serialize(), "OpenWeather:abc123");

    let mut api = WeatherAPI::new();
    assert_eq!(api.name(), "WeatherAPI");
    assert_eq!(api.serialize(), "WeatherAPI:");
    assert!(api.configure("k"));
    assert_eq!(api.serialize(), "WeatherAPI:k");

    let mut accu = AccuWeather::new();
    assert_eq!(accu.name(), "AccuWeather");
    assert_eq!(accu.serialize(), "AccuWeather:");
    assert!(accu.configure("hHWn"));
    assert_eq!(accu.serialize(), "AccuWeather:hHWn");
}

#[test]
fn an_identifier_and_a_secret_are_stored_after_the_name() {
    let mut aeris = AerisWeather::new();
    assert_eq!(aeris.name(), "AerisWeather");
    assert_eq!(aeris.serialize(), "AerisWeather::");
    let id = aeris.configure_id(" MoWp \n").unwrap();
    assert_eq!(id, "MoWp");
    assert_eq!(aeris.client(), None);
    assert!(aeris.configure_secret(id, "n1KU\n"));
    assert_eq!(aeris.client(), Some(("MoWp", "n1KU")));
    assert_eq!(aeris.serialize(), "AerisWeather:MoWp:n1KU");
}

#[test]
fn credentials_survive_storing_and_reading() {
    for key in ["", "k", "abc123", "ключ", "a b"] {
        let mut saved = OpenWeather::new();
        saved.configure(key);
        let mut read = OpenWeather::new();
        read.configure("something else");
        assert!(read.deserialize(&saved.serialize()));
        assert_eq!(read.api_key(), saved.api_key());

        let mut saved = WeatherAPI::new();
        saved.configure(key);
        let mut read = WeatherAPI::new();
        read.configure("something else");
        assert!(read.deserialize(&saved.serialize()));
        assert_eq!(read.api_key(), saved.api_key());

        let mut saved = AccuWeather::new();
        saved.configure(key);
        let mut read = AccuWeather::new();
        read.configure("something else");
        assert!(read.deserialize(&saved.serialize()));
        assert_eq!(read.api_key(), saved.api_key());
    }
    for (id, secret) in [("", ""), ("id", "secret"), ("i d", "с")] {
        let mut saved = AerisWeather::new();
        if let Some(id) = saved.configure_id(id) {
            saved.configure_secret(id, secret);
        }
        let mut read = AerisWeather::new();
        let other = read.configure_id("other").unwrap();
        read.configure_secret(other, "pair");
        assert!(read.deserialize(&saved.serialize()));
        assert_eq!(read.client(), saved.client());
    }
}

#[test]
fn a_key_with_a_separator_does_not_survive() {
    let mut saved = OpenWeather::new();
    saved.configure("a:b");
    assert_eq!(saved.serialize(), "OpenWeather:a:b");
    let mut read = OpenWeather::new();
    assert!(!read.deserialize(&saved.serialize()));
    assert_eq!(read.api_key(), None);
}

#[test]
fn a_line_of_another_provider_changes_nothing() {
    let mut open = OpenWeather::new();
    open.configure("mine");
    assert!(!open.deserialize("WeatherAPI:theirs"));
    assert!(!open.deserialize("openweather:theirs"));
    assert!(!open.deserialize("OpenWeather"));
    assert!(!open.deserialize(""));
    assert!(!open.deserialize(":OpenWeather:x"));
    assert!(!open.deserialize("OpenWeather:a:b"));
    assert!(!open.deserialize("OpenWeather::"));
    assert_eq!(open.api_key(), Some("mine"));
    assert!(open.deserialize("OpenWeather:"));
    assert_eq!(open.api_key(), None);
    assert!(open.deserialize("OpenWeather:new"));
    assert_eq!(open.api_key(), Some("new"));
}

#[test]
fn a_pair_must_be_whole() {
    let mut aeris = AerisWeather::new();
    let id = aeris.configure_id("id").unwrap();
    aeris.configure_secret(id, "secret");
    assert!(!aeris.deserialize("AerisWeather"));
    assert!(!aeris.deserialize("AerisWeather:"));
    assert!(!aeris.deserialize("AerisWeather:a"));
    assert!(!aeris.deserialize("AerisWeather:a:"));
    assert!(!aeris.deserialize("AerisWeather::b"));
    assert!(!aeris.deserialize("AerisWeather:a:b:c"));
    assert!(!aeris.deserialize("AerisWeather:::"));
    assert!(!aeris.deserialize("OpenWeather:a:b"));
    assert_eq!(aeris.client(), Some(("id", "secret")));
    assert!(aeris.deserialize("AerisWeather:a:b"));
    assert_eq!(aeris.client(), Some(("a", "b")));
    assert!(aeris.deserialize("AerisWeather::"));
    assert_eq!(aeris.client(), None);
}

#[test]
fn an_empty_answer_removes_a_single_key() {
    let mut open = OpenWeather::new();
    assert!(open.configure("key"));
    assert!(!open.configure("  \n"));
    assert_eq!(open.api_key(), None);
}

#[test]
fn the_two_prompts_of_a_pair() {
    let mut aeris = AerisWeather::new();
    let id = aeris.configure_id("id").unwrap();
    assert!(aeris.configure_secret(id, "secret"));
    let again = aeris.configure_id("new id").unwrap();
    assert_eq!(aeris.client(), Some(("id", "secret")));
    assert!(!aeris.configure_secret(again, " \n"));
    assert_eq!(aeris.client(), Some(("id", "secret")));
    assert_eq!(aeris.configure_id("\n"), None);
    assert_eq!(aeris.client(), None);
}

#[test]
fn lines_are_written_and_read_for_any_name() {
    assert_eq!(write_key_line("N", &None), "N:");
    assert_eq!(write_key_line("N", &Some("k".to_owned())), "N:k");
    assert_eq!(write_pair_line("N", &None), "N::");
    assert_eq!(
        write_pair_line("N", &Some(("a".to_owned(), "b".to_owned()))),
        "N:a:b"
    );
    assert_eq!(read_key_line("N", "N:"), Some(None));
    assert_eq!(read_key_line("N", "N:k"), Some(Some("k".to_owned())));
    assert_eq!(read_key_line("N", "M:k"), None);
    assert_eq!(read_key_line("N", "N:k:"), None);
    assert_eq!(read_pair_line("N", "N::"), Some(None));
    assert_eq!(
        read_pair_line("N", "N:a:b"),
        Some(Some(("a".to_owned(), "b".to_owned())))
    );
    assert_eq!(read_pair_line("N", "N:a:"), None);
    assert_eq!(read_pair_line("N", "N:a"), None);
}
