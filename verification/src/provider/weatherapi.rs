//! The weather provider WeatherAPI: its credential and how it is stored, the
//! requests it is asked with, and the reports that its payloads hold.

use vstd::prelude::*;
use vstd::string::*;
use crate::credential::{
    key_line, key_reading, lemma_key_line_of_reading, lemma_key_round_trip, read_key_line,
    storable, write_key_line, FIELD_SEPARATOR,
};
use crate::geo::{Geo, GeoView};
use crate::json::{
    child, decimal_of, entry, flag_of, is_object, list_of, low16_of, low8_of, read_decimal,
    read_flag, read_list, read_low16, read_low8, read_object, read_signed, read_text, signed_of,
    step, step_at, text_of, Json, Real,
};
use crate::select::{is_choice, lemma_choice_from_nearest, nearest};
use crate::text::{chars_of, trim, trimmed};
use crate::time::{day_text, format_day, instant_from, instant_opt, LocalTime};
use crate::wind::{wind_direction, WindDeg};
use crate::work::Provider;

verus! {

/// The name that WeatherAPI is chosen and stored by.
pub const WEATHER_API: &'static str = "WeatherAPI";

/// The day of a local time as it is written in a request.
pub open spec fn day_of(date: LocalTime) -> Option<Seq<char>> {
    day_text(date.calendar.year, date.calendar.month, date.calendar.day)
}

/// The provider WeatherAPI with its API key, if one is set.
#[derive(Debug)]
pub struct WeatherAPI {
    key: Option<String>,
}

impl WeatherAPI {
    /// The API key, if one is set.
    pub closed spec fn key(&self) -> Option<Seq<char>> {
        chars_of(self.key)
    }

    /// A key that is set is not empty.
    pub open spec fn wf(&self) -> bool {
        self.key() is Some ==> self.key()->0.len() > 0
    }

    /// Create new empty provider.
    pub fn new() -> (provider: WeatherAPI)
        ensures
            provider.wf(),
            provider.key() is None,
    {
        WeatherAPI { key: None }
    }

    /// The API key, if one is set.
    pub fn api_key(&self) -> (key: Option<&str>)
        ensures
            key is Some == self.key() is Some,
            key is Some ==> key->0@ == self.key()->0,
    {
        match &self.key {
            Some(k) => Some(k.as_str()),
            None => None,
        }
    }

    /// Takes the answer to the prompt for the API key: an answer that is
    /// empty once trimmed removes the key, any other becomes the key.
    /// Tells whether a key is set afterwards.
    pub fn configure(&mut self, input: &str) -> (set: bool)
        ensures
            final(self).wf(),
            set == (trimmed(input@).len() > 0),
            set ==> final(self).key() == Some(trimmed(input@)),
            !set ==> final(self).key() is None,
    {
        let key: String = trim(input);
        if key.as_str().unicode_len() == 0 {
            self.key = None;
            false
        } else {
            self.key = Some(key);
            true
        }
    }
}

impl Default for WeatherAPI {
    fn default() -> (provider: WeatherAPI)
        ensures
            provider.wf(),
            provider.key() is None,
    {
        WeatherAPI::new()
    }
}

impl Provider for WeatherAPI {
    open spec fn title(&self) -> Seq<char> {
        WEATHER_API@
    }

    open spec fn valid(&self) -> bool {
        self.wf()
    }

    open spec fn stored(&self) -> Seq<char> {
        key_line(WEATHER_API@, self.key())
    }

    open spec fn accepts(&self, line: Seq<char>) -> bool {
        key_reading(WEATHER_API@, line) is Some
    }

    fn name(&self) -> (name: &'static str) {
        WEATHER_API
    }

    fn serialize(&self) -> (line: String) {
        write_key_line(WEATHER_API, &self.key)
    }

    fn deserialize(&mut self, data: &str) -> (accepted: bool)
        ensures
            accepted ==> Some(final(self).key()) == key_reading(WEATHER_API@, data@),
            !accepted ==> final(self).key() == old(self).key(),
    {
        proof {
            if key_reading(WEATHER_API@, data@) is Some {
                lemma_key_line_of_reading(WEATHER_API@, data@);
            }
        }
        match read_key_line(WEATHER_API, data) {
            Some(key) => {
                self.key = key;
                true
            },
            None => false,
        }
    }
}

/// Where the current weather is asked for.
pub const NOW_ENDPOINT: &'static str = "https://api.weatherapi.com/v1/current.json";

/// Where the forecast is asked for.
pub const DATE_ENDPOINT: &'static str = "https://api.weatherapi.com/v1/forecast.json";

/// One weather report of WeatherAPI, for now or for an hour to come.
#[derive(Debug)]
pub struct WeatherAPIItem {
    /// Time that the report is for, in seconds since the Unix epoch.
    pub date: i64,
    /// The address that was asked for.
    pub address: String,
    /// The place that the address was resolved to.
    pub geo: Geo,
    /// Weather condition, in words.
    pub condition: Option<String>,
    /// Temperature, in degrees Celsius.
    pub temp: Option<Real>,
    /// Temperature as it feels, in degrees Celsius.
    pub feelslike: Option<Real>,
    /// Wind chill temperature, in degrees Celsius.
    pub windchill: Option<Real>,
    /// Heat index, in degrees Celsius.
    pub heatindex: Option<Real>,
    /// Dew point, in degrees Celsius.
    pub dewpoint: Option<Real>,
    /// Wind speed, in kilometres per hour.
    pub wind: Option<Real>,
    /// Wind direction, in degrees.
    pub degree: Option<u16>,
    /// Wind direction, as a compass point.
    pub dir: WindDeg,
    /// Wind gust, in kilometres per hour.
    pub gust: Option<Real>,
    /// Pressure, in millibars.
    pub pressure: Option<Real>,
    /// Precipitation amount, in millimetres.
    pub precip: Option<Real>,
    /// Humidity, in percent.
    pub humidity: Option<u8>,
    /// Cloud cover, in percent.
    pub cloud: Option<u8>,
    /// Chance of rain, in percent.
    pub chance_of_rain: Option<u8>,
    /// Whether it will rain.
    pub will_it_rain: Option<bool>,
    /// Chance of snow, in percent.
    pub chance_of_snow: Option<u8>,
    /// Whether it will snow.
    pub will_it_snow: Option<bool>,
    /// Visibility, in kilometres.
    pub vis: Option<Real>,
    /// UV index.
    pub uv: Option<Real>,
}

/// The time of the report that `items` holds: that of `time_epoch`, or
/// else that of `last_updated_epoch`. It is `None` where `items` holds no
/// report, which is where neither is an integer with a calendar date.
pub open spec fn record_date(items: Json) -> Option<i64> {
    let stated = instant_from(signed_of(child(Some(items), "time_epoch"@)));
    if stated is Some {
        stated
    } else {
        instant_from(signed_of(child(Some(items), "last_updated_epoch"@)))
    }
}

/// The request for the weather at `geo`, sent to `endpoint` with `key`.
pub open spec fn request(endpoint: Seq<char>, geo: GeoView, key: Seq<char>) -> Seq<char> {
    endpoint + "?key="@ + key + "&q="@ + geo.lat + ","@ + geo.lon
}

/// The request for the forecast of the day written as `day`.
pub open spec fn day_request(endpoint: Seq<char>, geo: GeoView, key: Seq<char>, day: Seq<char>)
    -> Seq<char> {
    request(endpoint, geo, key) + "&dt="@ + day
}

/// The entries of a forecast: the hours of its first day, and none where
/// the payload has no such list.
pub open spec fn forecast_entries(payload: Json) -> Seq<Json> {
    list_of(child(entry(child(child(Some(payload), "forecast"@), "forecastday"@), 0), "hour"@))
}

/// The times of the reports that the entries hold.
pub open spec fn record_dates(entries: Seq<Json>) -> Seq<Option<i64>> {
    Seq::new(entries.len(), |i: int| record_date(entries[i]))
}

/// The part of a payload that reports the current weather: its member
/// `current`, if that is an object.
pub open spec fn current_part(payload: Json) -> Option<Json> {
    if is_object(child(Some(payload), "current"@)) {
        child(Some(payload), "current"@)
    } else {
        None
    }
}

impl WeatherAPIItem {
    /// Whether the report holds what `items` says, field by field. Each
    /// field but the time may be absent, and is absent exactly where
    /// `items` lacks it or holds a value of another kind.
    pub open spec fn describes(self, items: Json, geo: GeoView, address: Seq<char>) -> bool {
        let root = Some(items);
        &&& Some(self.date) == record_date(items)
        &&& self.address@ == address
        &&& self.geo@ == geo
        &&& chars_of(self.condition) == text_of(child(child(root, "condition"@), "text"@))
        &&& self.temp == decimal_of(child(root, "temp_c"@))
        &&& self.feelslike == decimal_of(child(root, "feelslike_c"@))
        &&& self.windchill == decimal_of(child(root, "windchill_c"@))
        &&& self.heatindex == decimal_of(child(root, "heatindex_c"@))
        &&& self.dewpoint == decimal_of(child(root, "dewpoint_c"@))
        &&& self.wind == decimal_of(child(root, "wind_kph"@))
        &&& self.degree == low16_of(child(root, "wind_degree"@))
        &&& self.dir == wind_direction(self.degree)
        &&& self.gust == decimal_of(child(root, "gust_kph"@))
        &&& self.pressure == decimal_of(child(root, "pressure_mb"@))
        &&& self.precip == decimal_of(child(root, "precip_mm"@))
        &&& self.humidity == low8_of(child(root, "humidity"@))
        &&& self.cloud == low8_of(child(root, "cloud"@))
        &&& self.chance_of_rain == low8_of(child(root, "chance_of_rain"@))
        &&& self.will_it_rain == flag_of(child(root, "will_it_rain"@))
        &&& self.chance_of_snow == low8_of(child(root, "chance_of_snow"@))
        &&& self.will_it_snow == flag_of(child(root, "will_it_snow"@))
        &&& self.vis == decimal_of(child(root, "vis_km"@))
        &&& self.uv == decimal_of(child(root, "uv"@))
    }
}

impl WeatherAPI {
    /// The request for the current weather at `geo`; `None` while no key
    /// is set.
    pub fn now_url(&self, geo: &Geo) -> (url: Option<String>)
        ensures
            url is Some == self.key() is Some,
            url is Some ==> url->0@ == request(NOW_ENDPOINT@, geo@, self.key()->0),
    {
        match &self.key {
            Some(key) => {
                let mut url: String = String::from_str(NOW_ENDPOINT);
                url.append("?key=");
                url.append(key.as_str());
                url.append("&q=");
                url.append(geo.lat.as_str());
                url.append(",");
                url.append(geo.lon.as_str());
                Some(url)
            },
            None => None,
        }
    }

    /// The request for the forecast at `geo` on the day of `date`; `None`
    /// while no key is set, and for a day that the calendar does not have.
    pub fn date_url(&self, geo: &Geo, date: &LocalTime) -> (url: Option<String>)
        ensures
            url is Some == (self.key() is Some && day_of(*date) is Some),
            url is Some ==> url->0@ == day_request(
                DATE_ENDPOINT@,
                geo@,
                self.key()->0,
                day_of(*date)->0,
            ),
    {
        let key: &String = match &self.key {
            Some(key) => key,
            None => return None,
        };
        let day: String = match format_day(
            date.calendar.year,
            date.calendar.month,
            date.calendar.day,
        ) {
            Some(day) => day,
            None => return None,
        };
        let mut url: String = String::from_str(DATE_ENDPOINT);
        url.append("?key=");
        url.append(key.as_str());
        url.append("&q=");
        url.append(geo.lat.as_str());
        url.append(",");
        url.append(geo.lon.as_str());
        url.append("&dt=");
        url.append(day.as_str());
        Some(url)
    }

    /// Parse json answer from server.
    pub fn detect(&self, items: &Json, geo: Geo, address: String) -> (found: Option<WeatherAPIItem>)
        ensures
            match found {
                Some(item) => item.describes(*items, geo@, address@),
                None => record_date(*items) is None,
            },
    {
        let condition: Option<String> = read_text(step(items.get("condition"), "text"));
        let temp: Option<Real> = read_decimal(items.get("temp_c"));
        let feelslike: Option<Real> = read_decimal(items.get("feelslike_c"));
        let windchill: Option<Real> = read_decimal(items.get("windchill_c"));
        let heatindex: Option<Real> = read_decimal(items.get("heatindex_c"));
        let dewpoint: Option<Real> = read_decimal(items.get("dewpoint_c"));
        let wind: Option<Real> = read_decimal(items.get("wind_kph"));
        let degree: Option<u16> = read_low16(items.get("wind_degree"));
        let dir: WindDeg = WindDeg::get(degree);
        let gust: Option<Real> = read_decimal(items.get("gust_kph"));
        let pressure: Option<Real> = read_decimal(items.get("pressure_mb"));
        let precip: Option<Real> = read_decimal(items.get("precip_mm"));
        let humidity: Option<u8> = read_low8(items.get("humidity"));
        let cloud: Option<u8> = read_low8(items.get("cloud"));
        let chance_of_rain: Option<u8> = read_low8(items.get("chance_of_rain"));
        let will_it_rain: Option<bool> = read_flag(items.get("will_it_rain"));
        let chance_of_snow: Option<u8> = read_low8(items.get("chance_of_snow"));
        let will_it_snow: Option<bool> = read_flag(items.get("will_it_snow"));
        let vis: Option<Real> = read_decimal(items.get("vis_km"));
        let uv: Option<Real> = read_decimal(items.get("uv"));
        let date: i64 = match instant_opt(read_signed(items.get("time_epoch"))) {
            Some(date) => date,
            None => match instant_opt(read_signed(items.get("last_updated_epoch"))) {
                Some(date) => date,
                None => return None,
            },
        };
        Some(
            WeatherAPIItem {
                date,
                address,
                geo,
                condition,
                temp,
                feelslike,
                windchill,
                heatindex,
                dewpoint,
                wind,
                degree,
                dir,
                gust,
                pressure,
                precip,
                humidity,
                cloud,
                chance_of_rain,
                will_it_rain,
                chance_of_snow,
                will_it_snow,
                vis,
                uv,
            },
        )
    }

    /// Getting weather forecast for now: the report that the payload holds
    /// under `current`.
    pub fn get_now(&self, payload: &Json, geo: Geo, address: String) -> (found: Option<
        WeatherAPIItem,
    >)
        ensures
            match found {
                Some(item) => current_part(*payload) is Some && item.describes(
                    current_part(*payload)->0,
                    geo@,
                    address@,
                ),
                None => current_part(*payload) is None || record_date(current_part(*payload)->0)
                    is None,
            },
    {
        match read_object(payload.get("current")) {
            Some(current) => self.detect(current, geo, address),
            None => None,
        }
    }

    /// Getting weather forecast for `date`: of the reports that the
    /// entries of the payload hold, the one nearest to `date`, and of
    /// several equally near ones the first.
    pub fn get_date(&self, payload: &Json, geo: &Geo, address: &str, date: i64) -> (found: Option<
        WeatherAPIItem,
    >)
        ensures
            match found {
                Some(item) => exists|k: int|
                    is_choice(record_dates(forecast_entries(*payload)), date, k) && item.describes(
                        forecast_entries(*payload)[k],
                        geo@,
                        address@,
                    ),
                None => forall|k: int|
                    0 <= k < forecast_entries(*payload).len() ==> record_date(
                        #[trigger] forecast_entries(*payload)[k],
                    ) is None,
            },
    {
        let days: Option<&Json> = step(payload.get("forecast"), "forecastday");
        let entries: &Vec<Json> = match read_list(step(step_at(days, 0), "hour")) {
            Some(entries) => entries,
            None => return None,
        };
        let n: usize = entries.len();
        let mut records: Vec<WeatherAPIItem> = Vec::new();
        let mut stamps: Vec<i64> = Vec::new();
        let ghost mut origin: Seq<int> = Seq::empty();
        let mut i: usize = 0;
        while i < n
            invariant
                i <= n,
                n == entries@.len(),
                entries@ == forecast_entries(*payload),
                records@.len() == stamps@.len(),
                origin.len() == stamps@.len(),
                forall|m: int|
                    0 <= m < origin.len() ==> 0 <= #[trigger] origin[m] < i && record_date(
                        entries@[origin[m]],
                    ) == Some(stamps@[m]) && records@[m].describes(
                        entries@[origin[m]],
                        geo@,
                        address@,
                    ),
                forall|m1: int, m2: int|
                    0 <= m1 < m2 < origin.len() ==> #[trigger] origin[m1] < #[trigger] origin[m2],
                forall|j: int|
                    0 <= j < i && (#[trigger] record_date(entries@[j])) is Some
                        ==> origin.contains(j),
            decreases n - i,
        {
            let place: Geo = geo.duplicate();
            let asked: String = String::from_str(address);
            match self.detect(&entries[i], place, asked) {
                Some(item) => {
                    stamps.push(item.date);
                    records.push(item);
                    proof {
                        let before = origin;
                        origin = origin.push(i as int);
                        assert(origin[origin.len() - 1] == i);
                        assert forall|j: int|
                            0 <= j < i + 1 && (#[trigger] record_date(entries@[j])) is Some
                            implies origin.contains(j) by {
                            if j < i {
                                let m = choose|m: int| 0 <= m < before.len() && before[m] == j;
                                assert(origin[m] == j);
                            }
                        }
                    }
                },
                None => {},
            }
            i = i + 1;
        }
        match nearest(&stamps, date) {
            Some(k) => {
                proof {
                    let dates = record_dates(entries@);
                    lemma_choice_from_nearest(dates, stamps@, origin, date, k as int);
                }
                Some(records.swap_remove(k))
            },
            None => None,
        }
    }
}

/// The name of WeatherAPI holds no field separator.
pub proof fn lemma_name_is_plain()
    ensures
        !WEATHER_API@.contains(FIELD_SEPARATOR),
{
    reveal_strlit("WeatherAPI");
}

/// Deserializing what was serialized gives the same credential back, set
/// or not, for every key that can be stored.
pub proof fn lemma_round_trip(key: Option<Seq<char>>)
    requires
        key is Some ==> storable(key->0),
    ensures
        key_reading(WEATHER_API@, key_line(WEATHER_API@, key)) == Some(key),
{
    lemma_name_is_plain();
    lemma_key_round_trip(WEATHER_API@, key);
}

} // verus!
