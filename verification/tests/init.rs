use chrono::{Datelike, Local, NaiveDateTime, TimeZone, Timelike};
use weather::init::{Command, Date, Init};
use weather::time::{CalendarTime, LocalTime};

fn setup_args(args: &str) -> Command {
    let args: Vec<String> = args
        .split(' ')
        .filter(|s| !s.is_empty())
        .map(|s| s.to_string())
        .collect();
    Init::parse_args(&args)
}

fn local(text: &str) -> LocalTime {
    let naive = NaiveDateTime::parse_from_str(text, "%Y-%m-%dT%H:%M:%S").unwrap();
    let moment = Local.from_local_datetime(&naive).single().unwrap();
    LocalTime {
        calendar: CalendarTime {
            year: naive.year(),
            month: naive.month(),
            day: naive.day(),
            hour: naive.hour(),
            minute: naive.minute(),
            second: naive.second(),
        },
        secs: moment.timestamp(),
    }
}

#[test]
fn test_parse_args_help() {
    assert_eq!(setup_args(""), Command::Help { error: false });
    assert_eq!(setup_args("help"), Command::Help { error: false });
    assert_eq!(
        setup_args("help and  something else"),
        Command::Help { error: false }
    );
    assert_eq!(setup_args("unknown command"), Command::Help { error: true });
}

#[test]
fn test_parse_args_configure() {
    assert_eq!(setup_args("configure"), Command::List);
    assert_eq!(
        setup_args("configure AccuWeather"),
        Command::Configure {
            provider: "AccuWeather".to_owned()
        }
    );
}

#[test]
fn test_parse_args_get() {
    assert_eq!(setup_args("get"), Command::Help { error: true });
    assert_eq!(
        setup_args("get address"),
        Command::Get {
            provider: None,
            address: "address".to_owned(),
            date: Date::Now
        }
    );
    assert_eq!(
        setup_args("get some    address else"),
        Command::Get {
            provider: None,
            address: "some address else".to_owned(),
            date: Date::Now
        }
    );
    assert_eq!(
        setup_args("get provider= some address"),
        Command::Get {
            provider: None,
            address: "some address".to_owned(),
            date: Date::Now
        }
    );
    assert_eq!(
        setup_args("get provider= some address date="),
        Command::Get {
            provider: None,
            address: "some address".to_owned(),
            date: Date::Now
        }
    );
    assert_eq!(
        setup_args("get provider=AccuWeather some address"),
        Command::Get {
            provider: Some("AccuWeather".to_owned()),
            address: "some address".to_owned(),
            date: Date::Now
        }
    );
    assert_eq!(
        setup_args("get provider=AccuWeather some   address date="),
        Command::Get {
            provider: Some("AccuWeather".to_owned()),
            address: "some address".to_owned(),
            date: Date::Now
        }
    );
    assert_eq!(
        setup_args("get provider=AccuWeather some address date=now"),
        Command::Get {
            provider: Some("AccuWeather".to_owned()),
            address: "some address".to_owned(),
            date: Date::Now
        }
    );
    assert_eq!(
        setup_args("get provider=AccuWeather some   address date=2023-05-01T10:12:50"),
        Command::Get {
            provider: Some("AccuWeather".to_owned()),
            address: "some address".to_owned(),
            date: Date::Given(local("2023-05-01T10:12:50"))
        }
    );
    assert_eq!(
        setup_args("get some address date="),
        Command::Get {
            provider: None,
            address: "some address".to_owned(),
            date: Date::Now
        }
    );
    assert_eq!(
        setup_args("get some address date=now"),
        Command::Get {
            provider: None,
            address: "some address".to_owned(),
            date: Date::Now
        }
    );
}

#[test]
fn configure_ignores_what_follows_the_name() {
    assert_eq!(
        setup_args("configure OpenWeather and more"),
        Command::Configure {
            provider: "OpenWeather".to_owned()
        }
    );
}

#[test]
fn commands_are_case_sensitive() {
    assert_eq!(setup_args("Help"), Command::Help { error: true });
    assert_eq!(setup_args("GET address"), Command::Help { error: true });
    assert_eq!(setup_args("Configure"), Command::Help { error: true });
}

#[test]
fn get_with_a_single_marker_has_no_address() {
    assert_eq!(setup_args("get provider=AccuWeather"), Command::Help { error: true });
    assert_eq!(setup_args("get provider="), Command::Help { error: true });
    assert_eq!(setup_args("get date=now"), Command::Help { error: true });
    assert_eq!(setup_args("get date="), Command::Help { error: true });
}

#[test]
fn get_with_two_markers_and_nothing_between_has_no_address() {
    assert_eq!(
        setup_args("get provider=AccuWeather date=now"),
        Command::Help { error: true }
    );
    assert_eq!(
        setup_args("get provider=AccuWeather date=nonsense"),
        Command::Help { error: true }
    );
}

#[test]
fn get_with_two_arguments() {
    assert_eq!(
        setup_args("get provider=AccuWeather Kyiv"),
        Command::Get {
            provider: Some("AccuWeather".to_owned()),
            address: "Kyiv".to_owned(),
            date: Date::Now
        }
    );
    assert_eq!(
        setup_args("get Kyiv date=2023-05-01T10:12:50"),
        Command::Get {
            provider: None,
            address: "Kyiv".to_owned(),
            date: Date::Given(local("2023-05-01T10:12:50"))
        }
    );
    assert_eq!(
        setup_args("get Kyiv, Ukraine"),
        Command::Get {
            provider: None,
            address: "Kyiv, Ukraine".to_owned(),
            date: Date::Now
        }
    );
}

#[test]
fn markers_count_only_at_the_ends() {
    assert_eq!(
        setup_args("get some provider=X date=now address"),
        Command::Get {
            provider: None,
            address: "some provider=X date=now address".to_owned(),
            date: Date::Now
        }
    );
    assert_eq!(
        setup_args("get date=now some address provider=X"),
        Command::Get {
            provider: None,
            address: "date=now some address provider=X".to_owned(),
            date: Date::Now
        }
    );
}

#[test]
fn get_with_a_date_that_is_not_understood_is_an_error() {
    assert_eq!(
        setup_args("get some address date=yesterday"),
        Command::Help { error: true }
    );
    assert_eq!(
        setup_args("get some address date=2023-13-01T10:12:50"),
        Command::Help { error: true }
    );
    assert_eq!(
        setup_args("get provider=AccuWeather some address date=2023-05-01T25:00:00"),
        Command::Help { error: true }
    );
    assert_eq!(
        setup_args("get some address date=2023-02-30"),
        Command::Help { error: true }
    );
}

#[test]
fn now_is_spelled_in_any_case() {
    for spelling in ["now", "NOW", "Now", "nOw", "noW", "NoW"] {
        assert_eq!(Init::set_date(&format!("date={}", spelling)), Date::Now);
    }
    assert_eq!(Init::set_date("date="), Date::Now);
    assert_eq!(Init::set_date("date=no"), Date::Error);
    assert_eq!(Init::set_date("date=nowt"), Date::Error);
    assert_eq!(Init::set_date("date= now"), Date::Error);
    assert!(Init::asks_for_now(""));
    assert!(Init::asks_for_now("nOW"));
    assert!(!Init::asks_for_now("n0w"));
    assert!(!Init::asks_for_now("ｎｏｗ"));
}

#[test]
fn only_the_letters_of_now_fold_to_them() {
    for code in 0..=0x10ffffu32 {
        if let Some(c) = char::from_u32(code) {
            let folded: String = c.to_lowercase().collect();
            if folded == "n" || folded == "o" || folded == "w" {
                assert!("nowNOW".contains(c));
            }
        }
    }
}

#[test]
fn a_bare_day_is_completed_by_the_time_of_day() {
    match Init::set_date("date=2023-05-01") {
        Date::Given(moment) => {
            assert_eq!(moment.calendar.year, 2023);
            assert_eq!(moment.calendar.month, 5);
            assert_eq!(moment.calendar.day, 1);
            let back = Local.timestamp_opt(moment.secs, 0).single().unwrap();
            assert_eq!(back.year(), 2023);
            assert_eq!(back.month(), 5);
            assert_eq!(back.day(), 1);
            assert_eq!(back.hour(), moment.calendar.hour);
            assert_eq!(back.minute(), moment.calendar.minute);
            assert_eq!(back.second(), moment.calendar.second);
        }
        other => panic!("a bare day gave {:?}", other),
    }
}

#[test]
fn a_bare_day_takes_the_clock_that_is_handed_in() {
    assert_eq!(
        Init::resolve_date("date=2023-05-01", "T10:12:50"),
        Date::Given(local("2023-05-01T10:12:50"))
    );
    assert_eq!(
        Init::resolve_date("date=2023-05-01T07:08:09", "T10:12:50"),
        Date::Given(local("2023-05-01T07:08:09"))
    );
    assert_eq!(Init::resolve_date("date=2023-05-01", "nonsense"), Date::Error);
    assert_eq!(Init::resolve_date("date=2023-05-0", "T10:12:50"), Date::Error);
    assert_eq!(Init::resolve_date("date=Now", "T10:12:50"), Date::Now);
}

#[test]
fn a_date_needs_a_reading_and_an_instant() {
    let calendar = CalendarTime { year: 2023, month: 5, day: 1, hour: 10, minute: 12, second: 50 };
    assert_eq!(
        Init::date_from(Some(calendar), Some(7)),
        Date::Given(LocalTime { calendar, secs: 7 })
    );
    assert_eq!(Init::date_from(Some(calendar), None), Date::Error);
    assert_eq!(Init::date_from(None, Some(7)), Date::Error);
    assert_eq!(Init::date_from(None, None), Date::Error);
}

#[test]
fn the_provider_marker_may_be_empty() {
    assert_eq!(Init::set_provider("provider="), None);
    assert_eq!(Init::set_provider("provider=X"), Some("X".to_owned()));
    assert_eq!(
        Init::set_provider("provider=provider="),
        Some("provider=".to_owned())
    );
}

#[test]
fn the_command_follows_from_the_resolved_date() {
    let args: Vec<String> = ["get", "Kyiv", "date=whatever"].iter().map(|s| s.to_string()).collect();
    let moment = local("2023-05-01T10:12:50");
    assert_eq!(
        Init::command_for(&args, Date::Given(moment)),
        Command::Get { provider: None, address: "Kyiv".to_owned(), date: Date::Given(moment) }
    );
    assert_eq!(Init::command_for(&args, Date::Error), Command::Help { error: true });
    let plain: Vec<String> = ["get", "Kyiv"].iter().map(|s| s.to_string()).collect();
    assert_eq!(
        Init::command_for(&plain, Date::Error),
        Command::Get { provider: None, address: "Kyiv".to_owned(), date: Date::Now }
    );
    assert_eq!(Init::date_argument(&args[1..]), Some("date=whatever"));
    assert_eq!(Init::date_argument(&plain[1..]), None);
    assert_eq!(Init::date_argument(&args[2..]), None);
}

#[test]
fn init_keeps_the_arguments_as_given() {
    let args: Vec<String> = ["get", "Kyiv,", "Ukraine"].iter().map(|s| s.to_string()).collect();
    let init = Init::new(args);
    assert_eq!(init.args, "get Kyiv, Ukraine");
    assert_eq!(
        init.command,
        Command::Get { provider: None, address: "Kyiv, Ukraine".to_owned(), date: Date::Now }
    );
    let none = Init::new(Vec::new());
    assert_eq!(none.args, "");
    assert_eq!(none.command, Command::Help { error: false });
}
