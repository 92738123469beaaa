//! The weather provider AerisWeather: its credential and how it is stored, the
//! requests it is asked with, and the reports that its payloads hold.

use vstd::prelude::*;
use vstd::string::*;
use crate::credential::{
    lemma_pair_line_of_reading, lemma_pair_round_trip, pair_chars, pair_line, pair_reading,
    read_pair_line, storable, write_pair_line, FIELD_SEPARATOR,
};
use crate::geo::{Geo, GeoView};
use crate::json::{
    child, decimal_of, entry, is_object, list_of, low16_of, low32_of, read_decimal, read_list,
    read_low16, read_low32, read_object, read_signed, read_text, signed_of, step, step_at, text_of,
    Json, Real,
};
use crate::select::{is_choice, lemma_choice_from_nearest, nearest};
use crate::text::{chars_of, trim, trimmed};
use crate::time::{instant_from, instant_opt};
use crate::wind::{wind_direction, WindDeg};
use crate::work::Provider;

verus! {

/// The name that AerisWeather is chosen and stored by.
pub const AERIS_WEATHER: &'static str = "AerisWeather";

/// The provider AerisWeather with its client identifier and client secret,
/// if they are set.
#[derive(Debug)]
pub struct AerisWeather {
    key: Option<(String, String)>,
}

impl AerisWeather {
    /// The client identifier and the client secret, if they are set.
    pub closed spec fn key(&self) -> Option<(Seq<char>, Seq<char>)> {
        pair_chars(self.key)
    }

    /// Where the pair is set, neither part is empty.
    pub open spec fn wf(&self) -> bool {
        match self.key() {
            Some((id, secret)) => id.len() > 0 && secret.len() > 0,
            None => true,
        }
    }

    /// Create new empty provider.
    pub fn new() -> (provider: AerisWeather)
        ensures
            provider.wf(),
            provider.key() is None,
    {
        AerisWeather { key: None }
    }

    /// The client identifier and the client secret, if they are set.
    pub fn client(&self) -> (pair: Option<(&str, &str)>)
        ensures
            match pair {
                Some((id, secret)) => self.key() == Some((id@, secret@)),
                None => self.key() is None,
            },
    {
        match &self.key {
            Some((id, secret)) => Some((id.as_str(), secret.as_str())),
            None => None,
        }
    }

    /// Takes the answer to the prompt for the client identifier. An answer
    /// that is empty once trimmed removes identifier and secret, and
    /// `None` is returned. Any other answer is returned trimmed, to be
    /// handed on with the answer to the second prompt, and nothing
    /// changes yet.
    pub fn configure_id(&mut self, input: &str) -> (id: Option<String>)
        requires
            old(self).wf(),
        ensures
            final(self).wf(),
            id is Some == (trimmed(input@).len() > 0),
            id is Some ==> id->0@ == trimmed(input@) && final(self).key() == old(self).key(),
            id is None ==> final(self).key() is None,
    {
        let client_id: String = trim(input);
        if client_id.as_str().unicode_len() == 0 {
            self.key = None;
            None
        } else {
            Some(client_id)
        }
    }

    /// Takes the answer to the prompt for the client secret, together with
    /// the identifier that the first prompt gave. An answer that is empty
    /// once trimmed changes nothing; any other sets identifier and secret.
    /// Tells whether they were set.
    pub fn configure_secret(&mut self, client_id: String, input: &str) -> (set: bool)
        requires
            old(self).wf(),
            client_id@.len() > 0,
        ensures
            final(self).wf(),
            set == (trimmed(input@).len() > 0),
            set ==> final(self).key() == Some((client_id@, trimmed(input@))),
            !set ==> final(self).key() == old(self).key(),
    {
        let client_secret: String = trim(input);
        if client_secret.as_str().unicode_len() == 0 {
            false
        } else {
            self.key = Some((client_id, client_secret));
            true
        }
    }
}

impl Default for AerisWeather {
    fn default() -> (provider: AerisWeather)
        ensures
            provider.wf(),
            provider.key() is None,
    {
        AerisWeather::new()
    }
}

impl Provider for AerisWeather {
    open spec fn title(&self) -> Seq<char> {
        AERIS_WEATHER@
    }

    open spec fn valid(&self) -> bool {
        self.wf()
    }

    open spec fn stored(&self) -> Seq<char> {
        pair_line(AERIS_WEATHER@, self.key())
    }

    open spec fn accepts(&self, line: Seq<char>) -> bool {
        pair_reading(AERIS_WEATHER@, line) is Some
    }

    fn name(&self) -> (name: &'static str) {
        AERIS_WEATHER
    }

    fn serialize(&self) -> (line: String) {
        write_pair_line(AERIS_WEATHER, &self.key)
    }

    fn deserialize(&mut self, data: &str) -> (accepted: bool)
        ensures
            accepted ==> Some(final(self).key()) == pair_reading(AERIS_WEATHER@, data@),
            !accepted ==> final(self).key() == old(self).key(),
    {
        proof {
            if pair_reading(AERIS_WEATHER@, data@) is Some {
                lemma_pair_line_of_reading(AERIS_WEATHER@, data@);
            }
        }
        match read_pair_line(AERIS_WEATHER, data) {
            Some(key) => {
                self.key = key;
                true
            },
            None => false,
        }
    }
}

/// Where the current weather is asked for.
pub const NOW_ENDPOINT: &'static str = "https://api.aerisapi.com/observations";

/// Where the forecast is asked for.
pub const DATE_ENDPOINT: &'static str = "https://api.aerisapi.com/forecasts";

/// How a report gives the temperature, in degrees Celsius.
#[derive(Debug, Clone, Copy, PartialEq, Eq, Structural)]
pub enum TempView {
    /// Not at all.
    Absent,
    /// As one value.
    Single(Real),
    /// As the lowest and the highest value.
    MinMax(Real, Real),
}

/// One weather report of AerisWeather, for now or for a time to come.
#[derive(Debug)]
pub struct AerisWeatherItem {
    /// Time that the report is for, in seconds since the Unix epoch.
    pub date: i64,
    /// The address that was asked for.
    pub address: String,
    /// The place that the address was resolved to.
    pub geo: Geo,
    /// Weather, in words.
    pub weather: Option<String>,
    /// Temperature.
    pub temp_c: TempView,
    /// Dew point, in degrees Celsius.
    pub dewpoint_c: Option<Real>,
    /// Humidity, in percent.
    pub humidity: Option<u16>,
    /// Barometric pressure, in millibars.
    pub pressure_mb: Option<u32>,
    /// Wind speed, in kilometres per hour.
    pub wind_speed_kph: Option<Real>,
    /// Wind direction, in degrees.
    pub wind_dir_deg: Option<u16>,
    /// Wind direction, as a compass point.
    pub dir: WindDeg,
    /// Wind gust, in kilometres per hour.
    pub wind_gust_kph: Option<Real>,
    /// Visibility, in kilometres.
    pub visibility_km: Option<Real>,
    /// Temperature as it feels, in degrees Celsius.
    pub feelslike_c: Option<Real>,
    /// Snow depth, in centimetres.
    pub snow_depth_cm: Option<u16>,
    /// Precipitation, in millimetres.
    pub precip_mm: Option<u16>,
    /// UV index.
    pub uvi: Option<u16>,
    /// Share of the sky that clouds cover, in percent.
    pub sky: Option<u16>,
    /// Sunrise, in seconds since the Unix epoch.
    pub sunrise: Option<i64>,
    /// Sunset, in seconds since the Unix epoch.
    pub sunset: Option<i64>,
}

/// The temperature of a report: the single value where there is one, else
/// the lowest and the highest where both are there, else none.
pub open spec fn temperature(single: Option<Real>, min: Option<Real>, max: Option<Real>)
    -> TempView {
    match (single, min, max) {
        (Some(t), _, _) => TempView::Single(t),
        (None, Some(low), Some(high)) => TempView::MinMax(low, high),
        _ => TempView::Absent,
    }
}

/// The time of the report that `items` holds; `None` where it holds none,
/// which is where `timestamp` is missing, is no integer or has no calendar
/// date.
pub open spec fn record_date(items: Json) -> Option<i64> {
    instant_from(signed_of(child(Some(items), "timestamp"@)))
}

/// The request for the weather at `geo`, sent to `endpoint` with the
/// client's identifier and secret.
pub open spec fn request(endpoint: Seq<char>, geo: GeoView, id: Seq<char>, secret: Seq<char>)
    -> Seq<char> {
    endpoint + "/"@ + geo.lat + ","@ + geo.lon + "?&format=json&client_id="@ + id
        + "&client_secret="@ + secret
}

/// The entries of a forecast: the periods of the first response, and none
/// where the payload has no such list.
pub open spec fn forecast_entries(payload: Json) -> Seq<Json> {
    list_of(child(entry(child(Some(payload), "response"@), 0), "periods"@))
}

/// The times of the reports that the entries hold.
pub open spec fn record_dates(entries: Seq<Json>) -> Seq<Option<i64>> {
    Seq::new(entries.len(), |i: int| record_date(entries[i]))
}

/// The part of a payload that reports the current weather: the member
/// `ob` of its response, if that is an object.
pub open spec fn current_part(payload: Json) -> Option<Json> {
    if is_object(child(child(Some(payload), "response"@), "ob"@)) {
        child(child(Some(payload), "response"@), "ob"@)
    } else {
        None
    }
}

impl AerisWeatherItem {
    /// Whether the report holds what `items` says, field by field. Each
    /// field but the time may be absent, and is absent exactly where
    /// `items` lacks it or holds a value of another kind.
    pub open spec fn describes(self, items: Json, geo: GeoView, address: Seq<char>) -> bool {
        let root = Some(items);
        &&& Some(self.date) == record_date(items)
        &&& self.address@ == address
        &&& self.geo@ == geo
        &&& chars_of(self.weather) == text_of(child(root, "weather"@))
        &&& self.temp_c == temperature(
            decimal_of(child(root, "tempC"@)),
            decimal_of(child(root, "minTempC"@)),
            decimal_of(child(root, "maxTempC"@)),
        )
        &&& self.dewpoint_c == decimal_of(child(root, "dewpointC"@))
        &&& self.humidity == low16_of(child(root, "humidity"@))
        &&& self.pressure_mb == low32_of(child(root, "pressureMB"@))
        &&& self.wind_speed_kph == decimal_of(child(root, "windSpeedKPH"@))
        &&& self.wind_dir_deg == low16_of(child(root, "windDirDEG"@))
        &&& self.dir == wind_direction(self.wind_dir_deg)
        &&& self.wind_gust_kph == decimal_of(child(root, "windGustKPH"@))
        &&& self.visibility_km == decimal_of(child(root, "visibilityKM"@))
        &&& self.feelslike_c == decimal_of(child(root, "feelslikeC"@))
        &&& self.snow_depth_cm == low16_of(child(root, "snowDepthCM"@))
        &&& self.precip_mm == low16_of(child(root, "precipMM"@))
        &&& self.uvi == low16_of(child(root, "uvi"@))
        &&& self.sky == low16_of(child(root, "sky"@))
        &&& self.sunrise == instant_from(signed_of(child(root, "sunrise"@)))
        &&& self.sunset == instant_from(signed_of(child(root, "sunset"@)))
    }
}

impl AerisWeather {
    /// The request for the weather at `geo`; `None` while the client's
    /// identifier and secret are not set.
    pub fn request_url(&self, endpoint: &str, geo: &Geo) -> (url: Option<String>)
        ensures
            match url {
                Some(u) => match self.key() {
                    Some((id, secret)) => u@ == request(endpoint@, geo@, id, secret),
                    None => false,
                },
                None => self.key() is None,
            },
    {
        match &self.key {
            Some((id, secret)) => {
                let mut url: String = String::from_str(endpoint);
                url.append("/");
                url.append(geo.lat.as_str());
                url.append(",");
                url.append(geo.lon.as_str());
                url.append("?&format=json&client_id=");
                url.append(id.as_str());
                url.append("&client_secret=");
                url.append(secret.as_str());
                Some(url)
            },
            None => None,
        }
    }

    /// Parse json answer from server.
    pub fn detect(&self, items: &Json, geo: Geo, address: String) -> (found: Option<
        AerisWeatherItem,
    >)
        ensures
            match found {
                Some(item) => item.describes(*items, geo@, address@),
                None => record_date(*items) is None,
            },
    {
        let date: i64 = match instant_opt(read_signed(items.get("timestamp"))) {
            Some(date) => date,
            None => return None,
        };
        let weather: Option<String> = read_text(items.get("weather"));
        let temp: Option<Real> = read_decimal(items.get("tempC"));
        let min: Option<Real> = read_decimal(items.get("minTempC"));
        let max: Option<Real> = read_decimal(items.get("maxTempC"));
        let temp_c: TempView = match (temp, min, max) {
            (Some(temp), _, _) => TempView::Single(temp),
            (None, Some(min), Some(max)) => TempView::MinMax(min, max),
            _ => TempView::Absent,
        };
        let dewpoint_c: Option<Real> = read_decimal(items.get("dewpointC"));
        let humidity: Option<u16> = read_low16(items.get("humidity"));
        let pressure_mb: Option<u32> = read_low32(items.get("pressureMB"));
        let wind_speed_kph: Option<Real> = read_decimal(items.get("windSpeedKPH"));
        let wind_dir_deg: Option<u16> = read_low16(items.get("windDirDEG"));
        let dir: WindDeg = WindDeg::get(wind_dir_deg);
        let wind_gust_kph: Option<Real> = read_decimal(items.get("windGustKPH"));
        let visibility_km: Option<Real> = read_decimal(items.get("visibilityKM"));
        let feelslike_c: Option<Real> = read_decimal(items.get("feelslikeC"));
        let snow_depth_cm: Option<u16> = read_low16(items.get("snowDepthCM"));
        let precip_mm: Option<u16> = read_low16(items.get("precipMM"));
        let uvi: Option<u16> = read_low16(items.get("uvi"));
        let sky: Option<u16> = read_low16(items.get("sky"));
        let sunrise: Option<i64> = instant_opt(read_signed(items.get("sunrise")));
        let sunset: Option<i64> = instant_opt(read_signed(items.get("sunset")));
        Some(
            AerisWeatherItem {
                date,
                address,
                geo,
                weather,
                temp_c,
                dewpoint_c,
                humidity,
                pressure_mb,
                wind_speed_kph,
                wind_dir_deg,
                dir,
                wind_gust_kph,
                visibility_km,
                feelslike_c,
                snow_depth_cm,
                precip_mm,
                uvi,
                sky,
                sunrise,
                sunset,
            },
        )
    }

    /// Getting weather forecast for now: the report that the payload holds
    /// as the observation of its response.
    pub fn get_now(&self, payload: &Json, geo: Geo, address: String) -> (found: Option<
        AerisWeatherItem,
    >)
        ensures
            match found {
                Some(item) => current_part(*payload) is Some && item.describes(
                    current_part(*payload)->0,
                    geo@,
                    address@,
                ),
                None => current_part(*payload) is None || record_date(current_part(*payload)->0)
                    is None,
            },
    {
        match read_object(step(payload.get("response"), "ob")) {
            Some(current) => self.detect(current, geo, address),
            None => None,
        }
    }

    /// Getting weather forecast for `date`: of the reports that the
    /// entries of the payload hold, the one nearest to `date`, and of
    /// several equally near ones the first.
    pub fn get_date(&self, payload: &Json, geo: &Geo, address: &str, date: i64) -> (found: Option<
        AerisWeatherItem,
    >)
        ensures
            match found {
                Some(item) => exists|k: int|
                    is_choice(record_dates(forecast_entries(*payload)), date, k) && item.describes(
                        forecast_entries(*payload)[k],
                        geo@,
                        address@,
                    ),
                None => forall|k: int|
                    0 <= k < forecast_entries(*payload).len() ==> record_date(
                        #[trigger] forecast_entries(*payload)[k],
                    ) is None,
            },
    {
        let first: Option<&Json> = step_at(payload.get("response"), 0);
        let entries: &Vec<Json> = match read_list(step(first, "periods")) {
            Some(entries) => entries,
            None => return None,
        };
        let n: usize = entries.len();
        let mut records: Vec<AerisWeatherItem> = Vec::new();
        let mut stamps: Vec<i64> = Vec::new();
        let ghost mut origin: Seq<int> = Seq::empty();
        let mut i: usize = 0;
        while i < n
            invariant
                i <= n,
                n == entries@.len(),
                entries@ == forecast_entries(*payload),
                records@.len() == stamps@.len(),
                origin.len() == stamps@.len(),
                forall|m: int|
                    0 <= m < origin.len() ==> 0 <= #[trigger] origin[m] < i && record_date(
                        entries@[origin[m]],
                    ) == Some(stamps@[m]) && records@[m].describes(
                        entries@[origin[m]],
                        geo@,
                        address@,
                    ),
                forall|m1: int, m2: int|
                    0 <= m1 < m2 < origin.len() ==> #[trigger] origin[m1] < #[trigger] origin[m2],
                forall|j: int|
                    0 <= j < i && (#[trigger] record_date(entries@[j])) is Some
                        ==> origin.contains(j),
            decreases n - i,
        {
            let place: Geo = geo.duplicate();
            let asked: String = String::from_str(address);
            match self.detect(&entries[i], place, asked) {
                Some(item) => {
                    stamps.push(item.date);
                    records.push(item);
                    proof {
                        let before = origin;
                        origin = origin.push(i as int);
                        assert(origin[origin.len() - 1] == i);
                        assert forall|j: int|
                            0 <= j < i + 1 && (#[trigger] record_date(entries@[j])) is Some
                            implies origin.contains(j) by {
                            if j < i {
                                let m = choose|m: int| 0 <= m < before.len() && before[m] == j;
                                assert(origin[m] == j);
                            }
                        }
                    }
                },
                None => {},
            }
            i = i + 1;
        }
        match nearest(&stamps, date) {
            Some(k) => {
                proof {
                    let dates = record_dates(entries@);
                    lemma_choice_from_nearest(dates, stamps@, origin, date, k as int);
                }
                Some(records.swap_remove(k))
            },
            None => None,
        }
    }
}

/// The name of AerisWeather holds no field separator.
pub proof fn lemma_name_is_plain()
    ensures
        !AERIS_WEATHER@.contains(FIELD_SEPARATOR),
{
    reveal_strlit("AerisWeather");
}

/// Deserializing what was serialized gives the same credential back, set
/// or not, for every pair that can be stored.
pub proof fn lemma_round_trip(key: Option<(Seq<char>, Seq<char>)>)
    requires
        match key {
            Some((id, secret)) => storable(id) && storable(secret),
            None => true,
        },
    ensures
        pair_reading(AERIS_WEATHER@, pair_line(AERIS_WEATHER@, key)) == Some(key),
{
    lemma_name_is_plain();
    lemma_pair_round_trip(AERIS_WEATHER@, key);
}

} // verus!
