use weather::geo::Geo;

fn answer(lat: &str, lon: &str, name: &str) -> String {
    format!(
        "[{{\"place_id\":1,\"lat\":\"{}\",\"lon\":\"{}\",\"display_name\":\"{}\",\"importance\":0.5}}]",
        lat, lon, name
    )
}

#[test]
fn test_geo() {
    assert_eq!(
        Geo::search_url("Kyiv, Ukraine"),
        "https://nominatim.openstreetmap.org/search?q=Kyiv%2C%20Ukraine&format=json&limit=1"
    );
    assert_eq!(
        Geo::parse(&answer("50.4500336", "30.5241361", "Київ, Україна")),
        Some(vec![Geo {
            lat: "50.4500336".to_owned(),
            lon: "30.5241361".to_owned(),
            address: "Київ, Україна".to_owned()
        }])
    );
    assert_eq!(
        Geo::search_url("Дніпро, Україна"),
        "https://nominatim.openstreetmap.org/search?q=%D0%94%D0%BD%D1%96%D0%BF%D1%80%D0%BE%2C%20%D0%A3%D0%BA%D1%80%D0%B0%D1%97%D0%BD%D0%B0&format=json&limit=1"
    );
    assert_eq!(Geo::parse(&answer("48.4680221", "35.0417711", "Дніпро, Дніпровська міська громада, Дніпровський район, Дніпропетровська область, 49000, Україна")), Some(vec![ Geo { lat: "48.4680221".to_owned(), lon: "35.0417711".to_owned(), address: "Дніпро, Дніпровська міська громада, Дніпровський район, Дніпропетровська область, 49000, Україна".to_owned() }]));
    assert_eq!(
        Geo::search_url("unknown galaxy"),
        "https://nominatim.openstreetmap.org/search?q=unknown%20galaxy&format=json&limit=1"
    );
    assert_eq!(Geo::parse("[]"), Some(vec![]));
}

#[test]
fn geo_answer_must_be_a_list_of_places() {
    assert_eq!(Geo::parse("null"), None);
    assert_eq!(Geo::parse("{}"), None);
    assert_eq!(Geo::parse("not json"), None);
    assert_eq!(Geo::parse("[{\"lat\":\"1\",\"lon\":\"2\"}]"), None);
    assert_eq!(Geo::parse("[{\"lat\":1,\"lon\":\"2\",\"display_name\":\"x\"}]"), None);
    assert_eq!(
        Geo::parse("[{\"lat\":\"1\",\"lon\":\"2\",\"display_name\":\"x\"},7]"),
        None
    );
}

#[test]
fn geo_query_keeps_unreserved_bytes_and_escapes_the_rest() {
    assert_eq!(
        Geo::search_url("AZaz09-._~"),
        "https://nominatim.openstreetmap.org/search?q=AZaz09-._~&format=json&limit=1"
    );
    assert_eq!(
        Geo::search_url("a/b?c=d&e+f%"),
        "https://nominatim.openstreetmap.org/search?q=a%2Fb%3Fc%3Dd%26e%2Bf%25&format=json&limit=1"
    );
    assert_eq!(
        Geo::search_url(""),
        "https://nominatim.openstreetmap.org/search?q=&format=json&limit=1"
    );
}

#[test]
fn geo_best_match_is_the_last_place() {
    let first = Geo { lat: "1".to_owned(), lon: "2".to_owned(), address: "a".to_owned() };
    let second = Geo { lat: "3".to_owned(), lon: "4".to_owned(), address: "b".to_owned() };
    assert_eq!(Geo::best(vec![]), None);
    assert_eq!(
        Geo::best(vec![first, second]),
        Some(Geo { lat: "3".to_owned(), lon: "4".to_owned(), address: "b".to_owned() })
    );
}
