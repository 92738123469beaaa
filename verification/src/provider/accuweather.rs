//! The weather provider AccuWeather: its credential and how it is stored, the
//! requests it is asked with, and the reports that its payloads hold.

use vstd::prelude::*;
use vstd::string::*;
use crate::credential::{
    key_line, key_reading, lemma_key_line_of_reading, lemma_key_round_trip, read_key_line,
    storable, write_key_line, FIELD_SEPARATOR,
};
use crate::geo::{Geo, GeoView};
use crate::json::{
    child, decimal_of, entry, is_object, list_of, low16_of, low32_of, low8_of, read_decimal,
    read_list, read_low16, read_low32, read_low8, read_object, read_signed, read_text, read_truth,
    signed_of, step, text_of, truth_of, Json, Real,
};
use crate::number::{decimal_digits, parse_unsigned, unsigned_reading, write_decimal};
use crate::select::{is_choice, lemma_choice_from_nearest, nearest};
use crate::text::{chars_of, trim, trimmed};
use crate::time::{instant_from, instant_opt};
use crate::wind::{wind_direction, WindDeg};
use crate::work::Provider;

verus! {

/// The name that AccuWeather is chosen and stored by.
pub const ACCU_WEATHER: &'static str = "AccuWeather";

/// The provider AccuWeather with its API key, if one is set.
#[derive(Debug)]
pub struct AccuWeather {
    key: Option<String>,
}

impl AccuWeather {
    /// The API key, if one is set.
    pub closed spec fn key(&self) -> Option<Seq<char>> {
        chars_of(self.key)
    }

    /// A key that is set is not empty.
    pub open spec fn wf(&self) -> bool {
        self.key() is Some ==> self.key()->0.len() > 0
    }

    /// Create new empty provider.
    pub fn new() -> (provider: AccuWeather)
        ensures
            provider.wf(),
            provider.key() is None,
    {
        AccuWeather { key: None }
    }

    /// The API key, if one is set.
    pub fn api_key(&self) -> (key: Option<&str>)
        ensures
            key is Some == self.key() is Some,
            key is Some ==> key->0@ == self.key()->0,
    {
        match &self.key {
            Some(k) => Some(k.as_str()),
            None => None,
        }
    }

    /// Takes the answer to the prompt for the API key: an answer that is
    /// empty once trimmed removes the key, any other becomes the key.
    /// Tells whether a key is set afterwards.
    pub fn configure(&mut self, input: &str) -> (set: bool)
        ensures
            final(self).wf(),
            set == (trimmed(input@).len() > 0),
            set ==> final(self).key() == Some(trimmed(input@)),
            !set ==> final(self).key() is None,
    {
        let key: String = trim(input);
        if key.as_str().unicode_len() == 0 {
            self.key = None;
            false
        } else {
            self.key = Some(key);
            true
        }
    }
}

impl Default for AccuWeather {
    fn default() -> (provider: AccuWeather)
        ensures
            provider.wf(),
            provider.key() is None,
    {
        AccuWeather::new()
    }
}

impl Provider for AccuWeather {
    open spec fn title(&self) -> Seq<char> {
        ACCU_WEATHER@
    }

    open spec fn valid(&self) -> bool {
        self.wf()
    }

    open spec fn stored(&self) -> Seq<char> {
        key_line(ACCU_WEATHER@, self.key())
    }

    open spec fn accepts(&self, line: Seq<char>) -> bool {
        key_reading(ACCU_WEATHER@, line) is Some
    }

    fn name(&self) -> (name: &'static str) {
        ACCU_WEATHER
    }

    fn serialize(&self) -> (line: String) {
        write_key_line(ACCU_WEATHER, &self.key)
    }

    fn deserialize(&mut self, data: &str) -> (accepted: bool)
        ensures
            accepted ==> Some(final(self).key()) == key_reading(ACCU_WEATHER@, data@),
            !accepted ==> final(self).key() == old(self).key(),
    {
        proof {
            if key_reading(ACCU_WEATHER@, data@) is Some {
                lemma_key_line_of_reading(ACCU_WEATHER@, data@);
            }
        }
        match read_key_line(ACCU_WEATHER, data) {
            Some(key) => {
                self.key = key;
                true
            },
            None => false,
        }
    }
}

/// Where the key of the location at given coordinates is asked for.
pub const LOCATION_ENDPOINT: &'static str =
    "https://dataservice.accuweather.com/locations/v1/cities/geoposition/search";

/// Where the current weather of a location is asked for.
pub const NOW_ENDPOINT: &'static str = "https://dataservice.accuweather.com/currentconditions/v1/";

/// Where the forecast of a location is asked for.
pub const DATE_ENDPOINT: &'static str =
    "https://dataservice.accuweather.com/forecasts/v1/daily/5day/";

/// The current weather as AccuWeather reports it.
#[derive(Debug)]
pub struct AccuWeatherItemCurrent {
    /// Time that the report is for, in seconds since the Unix epoch.
    pub date: i64,
    /// The address that was asked for.
    pub address: String,
    /// The place that the address was resolved to.
    pub geo: Geo,
    /// Current weather, in words.
    pub weathertext: Option<String>,
    /// Whether there is precipitation.
    pub hasprecipitation: Option<bool>,
    /// The kind of precipitation.
    pub precipitationtype: Option<String>,
    /// Temperature, in degrees Celsius.
    pub temperature: Option<Real>,
    /// Temperature as it feels, in degrees Celsius.
    pub realfeeltemperature: Option<Real>,
    /// Relative humidity, in percent.
    pub relativehumidity: Option<u32>,
    /// Dew point, in degrees Celsius.
    pub dewpoint: Option<Real>,
    /// Wind direction, in degrees.
    pub degrees: Option<u16>,
    /// Wind direction, as a compass point.
    pub dir: WindDeg,
    /// Wind speed, in kilometres per hour.
    pub speed: Option<Real>,
    /// Wind gust, in kilometres per hour.
    pub gust: Option<Real>,
    /// Strength of the ultraviolet radiation of the sun.
    pub uvindex: Option<Real>,
    /// Visibility, in kilometres.
    pub visibility: Option<Real>,
    /// Share of the sky that clouds cover, in percent.
    pub cloudcover: Option<u8>,
    /// Atmospheric pressure, in millibars.
    pub pressure: Option<Real>,
}

/// The weather of one half of a day, the light or the dark one.
#[derive(Debug)]
pub struct HalfDay {
    /// Whether there is precipitation.
    pub hasprecipitation: Option<bool>,
    /// The kind of precipitation.
    pub precipitationtype: Option<String>,
    /// The weather, in words.
    pub longphrase: Option<String>,
    /// Probability of rain, in percent.
    pub rainprobability: Option<u32>,
    /// Probability of snow, in percent.
    pub snowprobability: Option<u32>,
    /// Wind speed, in kilometres per hour.
    pub speed: Option<Real>,
    /// Wind direction, in degrees.
    pub deg: Option<u16>,
    /// Wind direction, as a compass point.
    pub dir: WindDeg,
    /// Wind gust, in kilometres per hour.
    pub gust: Option<Real>,
    /// Rain volume, in millimetres.
    pub rain: Option<Real>,
    /// Snow volume, in centimetres.
    pub snow: Option<Real>,
    /// Share of the sky that clouds cover, in percent.
    pub cloudcover: Option<u32>,
}

/// The weather of one day as AccuWeather forecasts it.
#[derive(Debug)]
pub struct AccuWeatherItemForecast {
    /// Time that the report is for, in seconds since the Unix epoch.
    pub date: i64,
    /// The address that was asked for.
    pub address: String,
    /// The place that the address was resolved to.
    pub geo: Geo,
    /// Sunrise, in seconds since the Unix epoch.
    pub sunrise: Option<i64>,
    /// Sunset, in seconds since the Unix epoch.
    pub sunset: Option<i64>,
    /// Lowest temperature, in degrees Celsius.
    pub temp_min: Option<Real>,
    /// Highest temperature, in degrees Celsius.
    pub temp_max: Option<Real>,
    /// Lowest temperature as it feels, in degrees Celsius.
    pub realfeel_min: Option<Real>,
    /// Highest temperature as it feels, in degrees Celsius.
    pub realfeel_max: Option<Real>,
    /// The weather by day.
    pub day: HalfDay,
    /// The weather by night.
    pub night: HalfDay,
}

/// The time of the current weather that `items` holds; `None` where it
/// holds none, which is where `EpochTime` is missing, is no integer or has
/// no calendar date.
pub open spec fn current_date(items: Json) -> Option<i64> {
    instant_from(signed_of(child(Some(items), "EpochTime"@)))
}

/// The time of the forecast that `items` holds; `None` where it holds
/// none, which is where `EpochDate` is missing, is no integer or has no
/// calendar date, and where `Day` or `Night` is no object.
pub open spec fn record_date(items: Json) -> Option<i64> {
    if is_object(child(Some(items), "Day"@)) && is_object(child(Some(items), "Night"@)) {
        instant_from(signed_of(child(Some(items), "EpochDate"@)))
    } else {
        None
    }
}

/// The key of the location that an answer names: its text `Key`, read as
/// a whole number of 32 bits.
pub open spec fn location_key(answer: Json) -> Option<nat> {
    match text_of(child(Some(answer), "Key"@)) {
        Some(key) => unsigned_reading(key, u32::MAX as nat),
        None => None,
    }
}

/// The request for the location at `geo`.
pub open spec fn location_request(geo: GeoView, key: Seq<char>) -> Seq<char> {
    LOCATION_ENDPOINT@ + "?apikey="@ + key + "&q="@ + geo.lat + ","@ + geo.lon
}

/// The request for the current weather of the location `id`.
pub open spec fn now_request(id: nat, key: Seq<char>) -> Seq<char> {
    NOW_ENDPOINT@ + decimal_digits(id) + "?details=true&apikey="@ + key
}

/// The request for the forecast of the location `id`.
pub open spec fn date_request(id: nat, key: Seq<char>) -> Seq<char> {
    DATE_ENDPOINT@ + decimal_digits(id) + "?details=true&metric=true&apikey="@ + key
}

/// The entries of a forecast: the elements of the list `DailyForecasts`,
/// and none where the payload has no such list.
pub open spec fn forecast_entries(payload: Json) -> Seq<Json> {
    list_of(child(Some(payload), "DailyForecasts"@))
}

/// The times of the forecasts that the entries hold.
pub open spec fn record_dates(entries: Seq<Json>) -> Seq<Option<i64>> {
    Seq::new(entries.len(), |i: int| record_date(entries[i]))
}

/// The part of a payload that reports the current weather: its first
/// element, if that is an object.
pub open spec fn current_part(payload: Json) -> Option<Json> {
    if is_object(entry(Some(payload), 0)) {
        entry(Some(payload), 0)
    } else {
        None
    }
}

impl AccuWeatherItemCurrent {
    /// Whether the report holds what `items` says, field by field. Each
    /// field but the time may be absent, and is absent exactly where
    /// `items` lacks it or holds a value of another kind.
    pub open spec fn describes(self, items: Json, geo: GeoView, address: Seq<char>) -> bool {
        let root = Some(items);
        &&& Some(self.date) == current_date(items)
        &&& self.address@ == address
        &&& self.geo@ == geo
        &&& chars_of(self.weathertext) == text_of(child(root, "WeatherText"@))
        &&& self.hasprecipitation == truth_of(child(root, "hasprecipitation"@))
        &&& chars_of(self.precipitationtype) == text_of(child(root, "precipitationtype"@))
        &&& self.temperature == decimal_of(
            child(child(child(root, "Temperature"@), "Metric"@), "Value"@),
        )
        &&& self.realfeeltemperature == decimal_of(
            child(child(child(root, "RealFeelTemperature"@), "Metric"@), "Value"@),
        )
        &&& self.relativehumidity == low32_of(child(root, "RelativeHumidity"@))
        &&& self.dewpoint == decimal_of(child(child(child(root, "DewPoint"@), "Metric"@), "Value"@))
        &&& self.degrees == low16_of(child(child(child(root, "Wind"@), "Direction"@), "Degrees"@))
        &&& self.dir == wind_direction(self.degrees)
        &&& self.speed == decimal_of(
            child(child(child(child(root, "Wind"@), "Speed"@), "Metric"@), "Value"@),
        )
        &&& self.gust == decimal_of(
            child(child(child(child(root, "WindGust"@), "Speed"@), "Metric"@), "Value"@),
        )
        &&& self.uvindex == decimal_of(child(root, "UVIndex"@))
        &&& self.visibility == decimal_of(
            child(child(child(root, "Visibility"@), "Metric"@), "Value"@),
        )
        &&& self.cloudcover == low8_of(child(root, "CloudCover"@))
        &&& self.pressure == decimal_of(child(child(child(root, "Pressure"@), "Metric"@), "Value"@))
    }
}

impl HalfDay {
    /// Whether the half of a day holds what `part` says, field by field.
    /// Each field may be absent, and is absent exactly where `part` lacks
    /// it or holds a value of another kind.
    pub open spec fn describes(self, part: Json) -> bool {
        let root = Some(part);
        &&& self.hasprecipitation == truth_of(child(root, "HasPrecipitation"@))
        &&& chars_of(self.precipitationtype) == text_of(child(root, "PrecipitationType"@))
        &&& chars_of(self.longphrase) == text_of(child(root, "LongPhrase"@))
        &&& self.rainprobability == low32_of(child(root, "RainProbability"@))
        &&& self.snowprobability == low32_of(child(root, "SnowProbability"@))
        &&& self.speed == decimal_of(child(child(child(root, "Wind"@), "Speed"@), "Value"@))
        &&& self.deg == low16_of(child(child(child(root, "Wind"@), "Direction"@), "Degrees"@))
        &&& self.dir == wind_direction(self.deg)
        &&& self.gust == decimal_of(child(child(child(root, "WindGust"@), "Speed"@), "Value"@))
        &&& self.rain == decimal_of(child(child(root, "Rain"@), "Value"@))
        &&& self.snow == decimal_of(child(child(root, "Snow"@), "Value"@))
        &&& self.cloudcover == low32_of(child(root, "CloudCover"@))
    }
}

impl AccuWeatherItemForecast {
    /// Whether the forecast holds what `items` says, field by field. Each
    /// field but the time may be absent, and is absent exactly where
    /// `items` lacks it or holds a value of another kind.
    pub open spec fn describes(self, items: Json, geo: GeoView, address: Seq<char>) -> bool {
        let root = Some(items);
        &&& Some(self.date) == record_date(items)
        &&& self.address@ == address
        &&& self.geo@ == geo
        &&& self.sunrise == instant_from(signed_of(child(child(root, "Sun"@), "EpochRise"@)))
        &&& self.sunset == instant_from(signed_of(child(child(root, "Sun"@), "EpochSet"@)))
        &&& self.temp_min == decimal_of(
            child(child(child(root, "Temperature"@), "Minimum"@), "Value"@),
        )
        &&& self.temp_max == decimal_of(
            child(child(child(root, "Temperature"@), "Maximum"@), "Value"@),
        )
        &&& self.realfeel_min == decimal_of(
            child(child(child(root, "RealFeelTemperature"@), "Minimum"@), "Value"@),
        )
        &&& self.realfeel_max == decimal_of(
            child(child(child(root, "RealFeelTemperature"@), "Maximum"@), "Value"@),
        )
        &&& child(root, "Day"@) is Some && self.day.describes(child(root, "Day"@)->0)
        &&& child(root, "Night"@) is Some && self.night.describes(child(root, "Night"@)->0)
    }
}

impl AccuWeather {
    /// The request for the location at `geo`; `None` while no key is set.
    pub fn location_url(&self, geo: &Geo) -> (url: Option<String>)
        ensures
            url is Some == self.key() is Some,
            url is Some ==> url->0@ == location_request(geo@, self.key()->0),
    {
        match &self.key {
            Some(key) => {
                let mut url: String = String::from_str(LOCATION_ENDPOINT);
                url.append("?apikey=");
                url.append(key.as_str());
                url.append("&q=");
                url.append(geo.lat.as_str());
                url.append(",");
                url.append(geo.lon.as_str());
                Some(url)
            },
            None => None,
        }
    }

    /// Get city ID: the key of the location that the answer names.
    pub fn get_id(&self, answer: &Json) -> (id: Option<u32>)
        ensures
            match id {
                Some(n) => location_key(*answer) == Some(n as nat),
                None => location_key(*answer) is None,
            },
    {
        match read_text(answer.get("Key")) {
            Some(key) => match parse_unsigned(key.as_str(), 0xffff_ffff) {
                Some(n) => Some(n as u32),
                None => None,
            },
            None => None,
        }
    }

    /// The request for the current weather of the location `id`; `None`
    /// while no key is set.
    pub fn now_url(&self, id: u32) -> (url: Option<String>)
        ensures
            url is Some == self.key() is Some,
            url is Some ==> url->0@ == now_request(id as nat, self.key()->0),
    {
        match &self.key {
            Some(key) => {
                let mut url: String = String::from_str(NOW_ENDPOINT);
                write_decimal(id, &mut url);
                url.append("?details=true&apikey=");
                url.append(key.as_str());
                Some(url)
            },
            None => None,
        }
    }

    /// The request for the forecast of the location `id`; `None` while no
    /// key is set.
    pub fn date_url(&self, id: u32) -> (url: Option<String>)
        ensures
            url is Some == self.key() is Some,
            url is Some ==> url->0@ == date_request(id as nat, self.key()->0),
    {
        match &self.key {
            Some(key) => {
                let mut url: String = String::from_str(DATE_ENDPOINT);
                write_decimal(id, &mut url);
                url.append("?details=true&metric=true&apikey=");
                url.append(key.as_str());
                Some(url)
            },
            None => None,
        }
    }

    /// Parse json answer from server: the current weather.
    pub fn detect_now(&self, items: &Json, geo: Geo, address: String) -> (found: Option<
        AccuWeatherItemCurrent,
    >)
        ensures
            match found {
                Some(item) => item.describes(*items, geo@, address@),
                None => current_date(*items) is None,
            },
    {
        let date: i64 = match instant_opt(read_signed(items.get("EpochTime"))) {
            Some(date) => date,
            None => return None,
        };
        let weathertext: Option<String> = read_text(items.get("WeatherText"));
        let hasprecipitation: Option<bool> = read_truth(items.get("hasprecipitation"));
        let precipitationtype: Option<String> = read_text(items.get("precipitationtype"));
        let temperature: Option<Real> = read_decimal(
            step(step(items.get("Temperature"), "Metric"), "Value"),
        );
        let realfeeltemperature: Option<Real> = read_decimal(
            step(step(items.get("RealFeelTemperature"), "Metric"), "Value"),
        );
        let relativehumidity: Option<u32> = read_low32(items.get("RelativeHumidity"));
        let dewpoint: Option<Real> = read_decimal(
            step(step(items.get("DewPoint"), "Metric"), "Value"),
        );
        let degrees: Option<u16> = read_low16(
            step(step(items.get("Wind"), "Direction"), "Degrees"),
        );
        let dir: WindDeg = WindDeg::get(degrees);
        let speed: Option<Real> = read_decimal(
            step(step(step(items.get("Wind"), "Speed"), "Metric"), "Value"),
        );
        let gust: Option<Real> = read_decimal(
            step(step(step(items.get("WindGust"), "Speed"), "Metric"), "Value"),
        );
        let uvindex: Option<Real> = read_decimal(items.get("UVIndex"));
        let visibility: Option<Real> = read_decimal(
            step(step(items.get("Visibility"), "Metric"), "Value"),
        );
        let cloudcover: Option<u8> = read_low8(items.get("CloudCover"));
        let pressure: Option<Real> = read_decimal(
            step(step(items.get("Pressure"), "Metric"), "Value"),
        );
        Some(
            AccuWeatherItemCurrent {
                date,
                address,
                geo,
                weathertext,
                hasprecipitation,
                precipitationtype,
                temperature,
                realfeeltemperature,
                relativehumidity,
                dewpoint,
                degrees,
                dir,
                speed,
                gust,
                uvindex,
                visibility,
                cloudcover,
                pressure,
            },
        )
    }

    /// Parse json answer from server: one half of a day.
    pub fn detect_half(&self, part: &Json) -> (half: HalfDay)
        ensures
            half.describes(*part),
    {
        let hasprecipitation: Option<bool> = read_truth(part.get("HasPrecipitation"));
        let precipitationtype: Option<String> = read_text(part.get("PrecipitationType"));
        let longphrase: Option<String> = read_text(part.get("LongPhrase"));
        let rainprobability: Option<u32> = read_low32(part.get("RainProbability"));
        let snowprobability: Option<u32> = read_low32(part.get("SnowProbability"));
        let speed: Option<Real> = read_decimal(step(step(part.get("Wind"), "Speed"), "Value"));
        let deg: Option<u16> = read_low16(step(step(part.get("Wind"), "Direction"), "Degrees"));
        let dir: WindDeg = WindDeg::get(deg);
        let gust: Option<Real> = read_decimal(step(step(part.get("WindGust"), "Speed"), "Value"));
        let rain: Option<Real> = read_decimal(step(part.get("Rain"), "Value"));
        let snow: Option<Real> = read_decimal(step(part.get("Snow"), "Value"));
        let cloudcover: Option<u32> = read_low32(part.get("CloudCover"));
        HalfDay {
            hasprecipitation,
            precipitationtype,
            longphrase,
            rainprobability,
            snowprobability,
            speed,
            deg,
            dir,
            gust,
            rain,
            snow,
            cloudcover,
        }
    }

    /// Parse json answer from server: the forecast of one day.
    pub fn detect_date(&self, items: &Json, geo: Geo, address: String) -> (found: Option<
        AccuWeatherItemForecast,
    >)
        ensures
            match found {
                Some(item) => item.describes(*items, geo@, address@),
                None => record_date(*items) is None,
            },
    {
        let date: i64 = match instant_opt(read_signed(items.get("EpochDate"))) {
            Some(date) => date,
            None => return None,
        };
        let sunrise: Option<i64> = instant_opt(read_signed(step(items.get("Sun"), "EpochRise")));
        let sunset: Option<i64> = instant_opt(read_signed(step(items.get("Sun"), "EpochSet")));
        let temp_min: Option<Real> = read_decimal(
            step(step(items.get("Temperature"), "Minimum"), "Value"),
        );
        let temp_max: Option<Real> = read_decimal(
            step(step(items.get("Temperature"), "Maximum"), "Value"),
        );
        let realfeel_min: Option<Real> = read_decimal(
            step(step(items.get("RealFeelTemperature"), "Minimum"), "Value"),
        );
        let realfeel_max: Option<Real> = read_decimal(
            step(step(items.get("RealFeelTemperature"), "Maximum"), "Value"),
        );
        let day: HalfDay = match read_object(items.get("Day")) {
            Some(part) => self.detect_half(part),
            None => return None,
        };
        let night: HalfDay = match read_object(items.get("Night")) {
            Some(part) => self.detect_half(part),
            None => return None,
        };
        Some(
            AccuWeatherItemForecast {
                date,
                address,
                geo,
                sunrise,
                sunset,
                temp_min,
                temp_max,
                realfeel_min,
                realfeel_max,
                day,
                night,
            },
        )
    }

    /// Getting weather forecast for now: the report that the first element
    /// of the payload holds.
    pub fn get_now(&self, payload: &Json, geo: Geo, address: String) -> (found: Option<
        AccuWeatherItemCurrent,
    >)
        ensures
            match found {
                Some(item) => current_part(*payload) is Some && item.describes(
                    current_part(*payload)->0,
                    geo@,
                    address@,
                ),
                None => current_part(*payload) is None || current_date(current_part(*payload)->0)
                    is None,
            },
    {
        match read_object(payload.at(0)) {
            Some(current) => self.detect_now(current, geo, address),
            None => None,
        }
    }

    /// Getting weather forecast for `date`: of the forecasts that the
    /// entries of the payload hold, the one nearest to `date`, and of
    /// several equally near ones the first.
    pub fn get_date(&self, payload: &Json, geo: &Geo, address: &str, date: i64) -> (found: Option<
        AccuWeatherItemForecast,
    >)
        ensures
            match found {
                Some(item) => exists|k: int|
                    is_choice(record_dates(forecast_entries(*payload)), date, k) && item.describes(
                        forecast_entries(*payload)[k],
                        geo@,
                        address@,
                    ),
                None => forall|k: int|
                    0 <= k < forecast_entries(*payload).len() ==> record_date(
                        #[trigger] forecast_entries(*payload)[k],
                    ) is None,
            },
    {
        let entries: &Vec<Json> = match read_list(payload.get("DailyForecasts")) {
            Some(entries) => entries,
            None => return None,
        };
        let n: usize = entries.len();
        let mut records: Vec<AccuWeatherItemForecast> = Vec::new();
        let mut stamps: Vec<i64> = Vec::new();
        let ghost mut origin: Seq<int> = Seq::empty();
        let mut i: usize = 0;
        while i < n
            invariant
                i <= n,
                n == entries@.len(),
                entries@ == forecast_entries(*payload),
                records@.len() == stamps@.len(),
                origin.len() == stamps@.len(),
                forall|m: int|
                    0 <= m < origin.len() ==> 0 <= #[trigger] origin[m] < i && record_date(
                        entries@[origin[m]],
                    ) == Some(stamps@[m]) && records@[m].describes(
                        entries@[origin[m]],
                        geo@,
                        address@,
                    ),
                forall|m1: int, m2: int|
                    0 <= m1 < m2 < origin.len() ==> #[trigger] origin[m1] < #[trigger] origin[m2],
                forall|j: int|
                    0 <= j < i && (#[trigger] record_date(entries@[j])) is Some
                        ==> origin.contains(j),
            decreases n - i,
        {
            let place: Geo = geo.duplicate();
            let asked: String = String::from_str(address);
            match self.detect_date(&entries[i], place, asked) {
                Some(item) => {
                    stamps.push(item.date);
                    records.push(item);
                    proof {
                        let before = origin;
                        origin = origin.push(i as int);
                        assert(origin[origin.len() - 1] == i);
                        assert forall|j: int|
                            0 <= j < i + 1 && (#[trigger] record_date(entries@[j])) is Some
                            implies origin.contains(j) by {
                            if j < i {
                                let m = choose|m: int| 0 <= m < before.len() && before[m] == j;
                                assert(origin[m] == j);
                            }
                        }
                    }
                },
                None => {},
            }
            i = i + 1;
        }
        match nearest(&stamps, date) {
            Some(k) => {
                proof {
                    let dates = record_dates(entries@);
                    lemma_choice_from_nearest(dates, stamps@, origin, date, k as int);
                }
                Some(records.swap_remove(k))
            },
            None => None,
        }
    }
}

/// The name of AccuWeather holds no field separator.
pub proof fn lemma_name_is_plain()
    ensures
        !ACCU_WEATHER@.contains(FIELD_SEPARATOR),
{
    reveal_strlit("AccuWeather");
}

/// Deserializing what was serialized gives the same credential back, set
/// or not, for every key that can be stored.
pub proof fn lemma_round_trip(key: Option<Seq<char>>)
    requires
        key is Some ==> storable(key->0),
    ensures
        key_reading(ACCU_WEATHER@, key_line(ACCU_WEATHER@, key)) == Some(key),
{
    lemma_name_is_plain();
    lemma_key_round_trip(ACCU_WEATHER@, key);
}

} // verus!
