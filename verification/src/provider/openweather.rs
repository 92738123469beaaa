//! The weather provider OpenWeather: its credential and how it is stored, the
//! requests it is asked with, and the reports that its payloads hold.

use vstd::prelude::*;
use vstd::string::*;
use crate::credential::{
    key_line, key_reading, lemma_key_line_of_reading, lemma_key_round_trip, read_key_line,
    storable, write_key_line, FIELD_SEPARATOR,
};
use crate::geo::{Geo, GeoView};
use crate::json::{
    child, decimal_of, entry, list_of, low16_of, low32_of, read_decimal, read_list, read_low16,
    read_low32, read_signed, read_text, signed_of, step, step_at, text_of, Json, Real,
};
use crate::select::{is_choice, lemma_choice_from_nearest, nearest};
use crate::text::{chars_of, trim, trimmed};
use crate::time::{instant_from, instant_opt};
use crate::wind::{wind_direction, WindDeg};
use crate::work::Provider;

verus! {

/// The name that OpenWeather is chosen and stored by.
pub const OPEN_WEATHER: &'static str = "OpenWeather";

/// The provider OpenWeather with its API key, if one is set.
#[derive(Debug)]
pub struct OpenWeather {
    key: Option<String>,
}

impl OpenWeather {
    /// The API key, if one is set.
    pub closed spec fn key(&self) -> Option<Seq<char>> {
        chars_of(self.key)
    }

    /// A key that is set is not empty.
    pub open spec fn wf(&self) -> bool {
        self.key() is Some ==> self.key()->0.len() > 0
    }

    /// Create new empty provider.
    pub fn new() -> (provider: OpenWeather)
        ensures
            provider.wf(),
            provider.key() is None,
    {
        OpenWeather { key: None }
    }

    /// The API key, if one is set.
    pub fn api_key(&self) -> (key: Option<&str>)
        ensures
            key is Some == self.key() is Some,
            key is Some ==> key->0@ == self.key()->0,
    {
        match &self.key {
            Some(k) => Some(k.as_str()),
            None => None,
        }
    }

    /// Takes the answer to the prompt for the API key: an answer that is
    /// empty once trimmed removes the key, any other becomes the key.
    /// Tells whether a key is set afterwards.
    pub fn configure(&mut self, input: &str) -> (set: bool)
        ensures
            final(self).wf(),
            set == (trimmed(input@).len() > 0),
            set ==> final(self).key() == Some(trimmed(input@)),
            !set ==> final(self).key() is None,
    {
        let key: String = trim(input);
        if key.as_str().unicode_len() == 0 {
            self.key = None;
            false
        } else {
            self.key = Some(key);
            true
        }
    }
}

impl Default for OpenWeather {
    fn default() -> (provider: OpenWeather)
        ensures
            provider.wf(),
            provider.key() is None,
    {
        OpenWeather::new()
    }
}

impl Provider for OpenWeather {
    open spec fn title(&self) -> Seq<char> {
        OPEN_WEATHER@
    }

    open spec fn valid(&self) -> bool {
        self.wf()
    }

    open spec fn stored(&self) -> Seq<char> {
        key_line(OPEN_WEATHER@, self.key())
    }

    open spec fn accepts(&self, line: Seq<char>) -> bool {
        key_reading(OPEN_WEATHER@, line) is Some
    }

    fn name(&self) -> (name: &'static str) {
        OPEN_WEATHER
    }

    fn serialize(&self) -> (line: String) {
        write_key_line(OPEN_WEATHER, &self.key)
    }

    fn deserialize(&mut self, data: &str) -> (accepted: bool)
        ensures
            accepted ==> Some(final(self).key()) == key_reading(OPEN_WEATHER@, data@),
            !accepted ==> final(self).key() == old(self).key(),
    {
        proof {
            if key_reading(OPEN_WEATHER@, data@) is Some {
                lemma_key_line_of_reading(OPEN_WEATHER@, data@);
            }
        }
        match read_key_line(OPEN_WEATHER, data) {
            Some(key) => {
                self.key = key;
                true
            },
            None => false,
        }
    }
}

/// Where the current weather is asked for.
pub const NOW_ENDPOINT: &'static str = "https://api.openweathermap.org/data/2.5/weather";

/// Where the forecast is asked for.
pub const DATE_ENDPOINT: &'static str = "https://api.openweathermap.org/data/2.5/forecast";

/// One weather report of OpenWeather, for now or for a time to come.
#[derive(Debug)]
pub struct OpenWeatherItem {
    /// Time that the report is for, in seconds since the Unix epoch.
    pub date: i64,
    /// The address that was asked for.
    pub address: String,
    /// The place that the address was resolved to.
    pub geo: Geo,
    /// Group of weather parameters (rain, snow, extreme and so on).
    pub group: Option<String>,
    /// Temperature, in degrees Celsius.
    pub temp: Option<Real>,
    /// Temperature as a person perceives it, in degrees Celsius.
    pub feels_like: Option<Real>,
    /// Atmospheric pressure, in hPa.
    pub pressure: Option<u32>,
    /// Humidity, in percent.
    pub humidity: Option<u32>,
    /// Visibility, in metres.
    pub visibility: Option<u32>,
    /// Wind speed, in metres per second.
    pub speed: Option<Real>,
    /// Wind direction, in degrees.
    pub deg: Option<u16>,
    /// Wind direction, as a compass point.
    pub dir: WindDeg,
    /// Wind gust, in metres per second.
    pub gust: Option<Real>,
    /// Rain volume of the last hour, in millimetres.
    pub rain1: Option<Real>,
    /// Rain volume of the last three hours, in millimetres.
    pub rain3: Option<Real>,
    /// Snow volume of the last hour, in millimetres.
    pub snow1: Option<Real>,
    /// Snow volume of the last three hours, in millimetres.
    pub snow3: Option<Real>,
    /// Sunrise, in seconds since the Unix epoch.
    pub sunrise: Option<i64>,
    /// Sunset, in seconds since the Unix epoch.
    pub sunset: Option<i64>,
}

/// The time of the report that `items` holds; `None` where it holds none,
/// which is where `dt` is missing, is no integer or has no calendar date.
pub open spec fn record_date(items: Json) -> Option<i64> {
    instant_from(signed_of(child(Some(items), "dt"@)))
}

/// One of the sun's times: the one given by the caller, or else the one
/// that `items` holds under `sys`.
pub open spec fn sun_time(given: Option<i64>, items: Json, key: Seq<char>) -> Option<i64> {
    if given is Some {
        given
    } else {
        instant_from(signed_of(child(child(Some(items), "sys"@), key)))
    }
}

/// The request for the address at `geo`, sent to `endpoint` with `key`.
pub open spec fn request(endpoint: Seq<char>, geo: GeoView, key: Seq<char>) -> Seq<char> {
    endpoint + "?lat="@ + geo.lat + "&lon="@ + geo.lon + "&appid="@ + key + "&units=metric"@
}

/// The entries of a forecast: the elements of the list `list`, and none
/// where the payload has no such list.
pub open spec fn forecast_entries(payload: Json) -> Seq<Json> {
    list_of(child(Some(payload), "list"@))
}

/// The times of the reports that the entries hold.
pub open spec fn record_dates(entries: Seq<Json>) -> Seq<Option<i64>> {
    Seq::new(entries.len(), |i: int| record_date(entries[i]))
}

/// One of the sun's times for a whole forecast, held under `city`.
pub open spec fn city_sun_time(payload: Json, key: Seq<char>) -> Option<i64> {
    instant_from(signed_of(child(child(Some(payload), "city"@), key)))
}

impl OpenWeatherItem {
    /// Whether the report holds what `items` says, field by field. Each
    /// field but the time may be absent, and is absent exactly where
    /// `items` lacks it or holds a value of another kind.
    pub open spec fn describes(
        self,
        items: Json,
        geo: GeoView,
        address: Seq<char>,
        sunrise: Option<i64>,
        sunset: Option<i64>,
    ) -> bool {
        let root = Some(items);
        &&& Some(self.date) == record_date(items)
        &&& self.address@ == address
        &&& self.geo@ == geo
        &&& chars_of(self.group) == text_of(child(entry(child(root, "weather"@), 0), "main"@))
        &&& self.temp == decimal_of(child(child(root, "main"@), "temp"@))
        &&& self.feels_like == decimal_of(child(child(root, "main"@), "feels_like"@))
        &&& self.pressure == low32_of(child(child(root, "main"@), "pressure"@))
        &&& self.humidity == low32_of(child(child(root, "main"@), "humidity"@))
        &&& self.visibility == low32_of(child(root, "visibility"@))
        &&& self.speed == decimal_of(child(child(root, "wind"@), "speed"@))
        &&& self.deg == low16_of(child(child(root, "wind"@), "deg"@))
        &&& self.dir == wind_direction(self.deg)
        &&& self.gust == decimal_of(child(child(root, "wind"@), "gust"@))
        &&& self.rain1 == decimal_of(child(child(root, "rain"@), "1h"@))
        &&& self.rain3 == decimal_of(child(child(root, "rain"@), "3h"@))
        &&& self.snow1 == decimal_of(child(child(root, "snow"@), "1h"@))
        &&& self.snow3 == decimal_of(child(child(root, "snow"@), "3h"@))
        &&& self.sunrise == sun_time(sunrise, items, "sunrise"@)
        &&& self.sunset == sun_time(sunset, items, "sunset"@)
    }
}

impl OpenWeather {
    /// The request for the weather at `geo`; `None` while no key is set.
    pub fn request_url(&self, endpoint: &str, geo: &Geo) -> (url: Option<String>)
        ensures
            url is Some == self.key() is Some,
            url is Some ==> url->0@ == request(endpoint@, geo@, self.key()->0),
    {
        match &self.key {
            Some(key) => {
                let mut url: String = String::from_str(endpoint);
                url.append("?lat=");
                url.append(geo.lat.as_str());
                url.append("&lon=");
                url.append(geo.lon.as_str());
                url.append("&appid=");
                url.append(key.as_str());
                url.append("&units=metric");
                Some(url)
            },
            None => None,
        }
    }

    /// Parse json answer from server.
    pub fn detect(
        &self,
        items: &Json,
        geo: Geo,
        address: String,
        sunrise: Option<i64>,
        sunset: Option<i64>,
    ) -> (found: Option<OpenWeatherItem>)
        ensures
            match found {
                Some(item) => item.describes(*items, geo@, address@, sunrise, sunset),
                None => record_date(*items) is None,
            },
    {
        let group: Option<String> = read_text(step(step_at(items.get("weather"), 0), "main"));
        let temp: Option<Real> = read_decimal(step(items.get("main"), "temp"));
        let feels_like: Option<Real> = read_decimal(step(items.get("main"), "feels_like"));
        let pressure: Option<u32> = read_low32(step(items.get("main"), "pressure"));
        let humidity: Option<u32> = read_low32(step(items.get("main"), "humidity"));
        let visibility: Option<u32> = read_low32(items.get("visibility"));
        let speed: Option<Real> = read_decimal(step(items.get("wind"), "speed"));
        let deg: Option<u16> = read_low16(step(items.get("wind"), "deg"));
        let dir: WindDeg = WindDeg::get(deg);
        let gust: Option<Real> = read_decimal(step(items.get("wind"), "gust"));
        let rain1: Option<Real> = read_decimal(step(items.get("rain"), "1h"));
        let rain3: Option<Real> = read_decimal(step(items.get("rain"), "3h"));
        let snow1: Option<Real> = read_decimal(step(items.get("snow"), "1h"));
        let snow3: Option<Real> = read_decimal(step(items.get("snow"), "3h"));
        let date: i64 = match instant_opt(read_signed(items.get("dt"))) {
            Some(date) => date,
            None => return None,
        };
        let sunrise: Option<i64> = match sunrise {
            Some(given) => Some(given),
            None => instant_opt(read_signed(step(items.get("sys"), "sunrise"))),
        };
        let sunset: Option<i64> = match sunset {
            Some(given) => Some(given),
            None => instant_opt(read_signed(step(items.get("sys"), "sunset"))),
        };
        Some(
            OpenWeatherItem {
                date,
                address,
                geo,
                group,
                temp,
                feels_like,
                pressure,
                humidity,
                visibility,
                speed,
                deg,
                dir,
                gust,
                rain1,
                rain3,
                snow1,
                snow3,
                sunrise,
                sunset,
            },
        )
    }

    /// Getting weather forecast for now: the report that the payload holds.
    pub fn get_now(&self, payload: &Json, geo: Geo, address: String) -> (found: Option<
        OpenWeatherItem,
    >)
        ensures
            match found {
                Some(item) => item.describes(*payload, geo@, address@, None, None),
                None => record_date(*payload) is None,
            },
    {
        self.detect(payload, geo, address, None, None)
    }

    /// Getting weather forecast for `date`: of the reports that the
    /// entries of the payload hold, the one nearest to `date`, and of
    /// several equally near ones the first. The sun's times are those of
    /// the city, where the payload gives them.
    pub fn get_date(&self, payload: &Json, geo: &Geo, address: &str, date: i64) -> (found: Option<
        OpenWeatherItem,
    >)
        ensures
            match found {
                Some(item) => exists|k: int|
                    is_choice(record_dates(forecast_entries(*payload)), date, k) && item.describes(
                        forecast_entries(*payload)[k],
                        geo@,
                        address@,
                        city_sun_time(*payload, "sunrise"@),
                        city_sun_time(*payload, "sunset"@),
                    ),
                None => forall|k: int|
                    0 <= k < forecast_entries(*payload).len() ==> record_date(
                        #[trigger] forecast_entries(*payload)[k],
                    ) is None,
            },
    {
        let sunrise: Option<i64> = instant_opt(read_signed(step(payload.get("city"), "sunrise")));
        let sunset: Option<i64> = instant_opt(read_signed(step(payload.get("city"), "sunset")));
        let entries: &Vec<Json> = match read_list(payload.get("list")) {
            Some(entries) => entries,
            None => return None,
        };
        let n: usize = entries.len();
        let mut records: Vec<OpenWeatherItem> = Vec::new();
        let mut stamps: Vec<i64> = Vec::new();
        let ghost mut origin: Seq<int> = Seq::empty();
        let mut i: usize = 0;
        while i < n
            invariant
                i <= n,
                n == entries@.len(),
                entries@ == forecast_entries(*payload),
                records@.len() == stamps@.len(),
                origin.len() == stamps@.len(),
                forall|m: int|
                    0 <= m < origin.len() ==> 0 <= #[trigger] origin[m] < i && record_date(
                        entries@[origin[m]],
                    ) == Some(stamps@[m]) && records@[m].describes(
                        entries@[origin[m]],
                        geo@,
                        address@,
                        sunrise,
                        sunset,
                    ),
                forall|m1: int, m2: int|
                    0 <= m1 < m2 < origin.len() ==> #[trigger] origin[m1] < #[trigger] origin[m2],
                forall|j: int|
                    0 <= j < i && (#[trigger] record_date(entries@[j])) is Some
                        ==> origin.contains(j),
            decreases n - i,
        {
            let place: Geo = geo.duplicate();
            let asked: String = String::from_str(address);
            match self.detect(&entries[i], place, asked, sunrise, sunset) {
                Some(item) => {
                    stamps.push(item.date);
                    records.push(item);
                    proof {
                        let before = origin;
                        origin = origin.push(i as int);
                        assert(origin[origin.len() - 1] == i);
                        assert forall|j: int|
                            0 <= j < i + 1 && (#[trigger] record_date(entries@[j])) is Some
                            implies origin.contains(j) by {
                            if j < i {
                                let m = choose|m: int| 0 <= m < before.len() && before[m] == j;
                                assert(origin[m] == j);
                            }
                        }
                    }
                },
                None => {},
            }
            i = i + 1;
        }
        match nearest(&stamps, date) {
            Some(k) => {
                proof {
                    let dates = record_dates(entries@);
                    lemma_choice_from_nearest(dates, stamps@, origin, date, k as int);
                }
                Some(records.swap_remove(k))
            },
            None => None,
        }
    }
}

/// The name of OpenWeather holds no field separator.
pub proof fn lemma_name_is_plain()
    ensures
        !OPEN_WEATHER@.contains(FIELD_SEPARATOR),
{
    reveal_strlit("OpenWeather");
}

/// Deserializing what was serialized gives the same credential back, set
/// or not, for every key that can be stored.
pub proof fn lemma_round_trip(key: Option<Seq<char>>)
    requires
        key is Some ==> storable(key->0),
    ensures
        key_reading(OPEN_WEATHER@, key_line(OPEN_WEATHER@, key)) == Some(key),
{
    lemma_name_is_plain();
    lemma_key_round_trip(OPEN_WEATHER@, key);
}

} // verus!
