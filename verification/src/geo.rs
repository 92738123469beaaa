//! Geographic coordinates of an address, as the geocoding service of
//! [Nominatim](https://nominatim.openstreetmap.org) reports them.

use vstd::prelude::*;
use vstd::string::*;
use crate::json::{child, parse, read_text, text_of, Json};

verus! {

/// Where the search request for an address begins.
pub const SEARCH_PREFIX: &'static str = "https://nominatim.openstreetmap.org/search?q=";

/// Where the search request for an address ends: at most one match is
/// asked for.
pub const SEARCH_SUFFIX: &'static str = "&format=json&limit=1";

/// Geographic coordinates of a place that matches an address.
#[derive(Debug, PartialEq, Eq)]
pub struct Geo {
    /// Latitude.
    pub lat: String,
    /// Longitude.
    pub lon: String,
    /// Full address.
    pub address: String,
}

/// The coordinates of a place as plain texts.
pub struct GeoView {
    pub lat: Seq<char>,
    pub lon: Seq<char>,
    pub address: Seq<char>,
}

impl View for Geo {
    type V = GeoView;

    open spec fn view(&self) -> GeoView {
        GeoView { lat: self.lat@, lon: self.lon@, address: self.address@ }
    }
}

/// Whether a byte stands for itself in a query: digits, ASCII letters,
/// hyphen, full stop, underscore and tilde do.
pub open spec fn unreserved(b: u8) -> bool {
    ||| 0x30 <= b <= 0x39
    ||| 0x41 <= b <= 0x5a
    ||| 0x61 <= b <= 0x7a
    ||| b == 0x2d
    ||| b == 0x2e
    ||| b == 0x5f
    ||| b == 0x7e
}

/// The upper-case hexadecimal digit for a value below 16.
pub open spec fn hex_digit(digit: u8) -> char {
    if digit < 10 {
        ((0x30 + digit) as u8) as char
    } else {
        ((0x37 + digit) as u8) as char
    }
}

/// One byte as it is written in a query: itself, or a percent sign and
/// its two hexadecimal digits.
pub open spec fn escaped_byte(b: u8) -> Seq<char> {
    if unreserved(b) {
        seq![b as char]
    } else {
        seq!['%', hex_digit(b / 16), hex_digit(b % 16)]
    }
}

/// A run of bytes as it is written in a query.
pub open spec fn escaped(bytes: Seq<u8>) -> Seq<char>
    decreases bytes.len(),
{
    if bytes.len() == 0 {
        Seq::empty()
    } else {
        escaped_byte(bytes[0]) + escaped(bytes.drop_first())
    }
}

/// The request that asks the geocoding service for `address`.
pub open spec fn search_request(address: &str) -> Seq<char> {
    SEARCH_PREFIX@ + escaped(address.spec_bytes()) + SEARCH_SUFFIX@
}

/// The place that one entry of the service's answer describes: an object
/// with the texts `lat`, `lon` and `display_name`.
pub open spec fn place(entry: Json) -> Option<GeoView> {
    let lat = text_of(child(Some(entry), "lat"@));
    let lon = text_of(child(Some(entry), "lon"@));
    let address = text_of(child(Some(entry), "display_name"@));
    if lat is Some && lon is Some && address is Some {
        Some(GeoView { lat: lat->0, lon: lon->0, address: address->0 })
    } else {
        None
    }
}

/// The places of an answer: it must be a list, and each of its entries
/// must describe a place.
pub open spec fn places(answer: Json) -> Option<Seq<GeoView>> {
    match answer {
        Json::List(entries) => if forall|i: int|
            0 <= i < entries@.len() ==> (#[trigger] place(entries@[i])) is Some {
            Some(Seq::new(entries@.len(), |i: int| place(entries@[i])->0))
        } else {
            None
        },
        _ => None,
    }
}

/// The places of an answer that may be missing.
pub open spec fn places_of(answer: Option<Json>) -> Option<Seq<GeoView>> {
    match answer {
        Some(doc) => places(doc),
        None => None,
    }
}

/// The views of a list of places.
pub open spec fn geo_views(list: Seq<Geo>) -> Seq<GeoView> {
    Seq::new(list.len(), |i: int| list[i]@)
}

/// The views of a list of places that may be missing.
pub open spec fn geo_views_of(list: Option<Vec<Geo>>) -> Option<Seq<GeoView>> {
    match list {
        Some(v) => Some(geo_views(v@)),
        None => None,
    }
}

/// Calls `urlencoding::encode`, which writes every byte of the text that
/// is not unreserved as a percent sign and two upper-case hexadecimal
/// digits, and leaves the others as they are.
#[verifier::external_body]
pub(crate) fn percent_encode(text: &str) -> (out: String)
    ensures
        out@ == escaped(text.spec_bytes()),
{
    urlencoding::encode(text).into_owned()
}

impl Geo {
    /// A copy of the place.
    pub fn duplicate(&self) -> (copy: Geo)
        ensures
            copy@ == self@,
    {
        Geo { lat: self.lat.clone(), lon: self.lon.clone(), address: self.address.clone() }
    }

    /// The request that asks the geocoding service for `address`.
    pub fn search_url(address: &str) -> (url: String)
        ensures
            url@ == search_request(address),
    {
        let mut url: String = String::from_str(SEARCH_PREFIX);
        let query: String = percent_encode(address);
        url.append(query.as_str());
        url.append(SEARCH_SUFFIX);
        url
    }

    /// Reads one entry of the service's answer.
    pub fn from_entry(entry: &Json) -> (geo: Option<Geo>)
        ensures
            match geo {
                Some(g) => place(*entry) == Some(g@),
                None => place(*entry) is None,
            },
    {
        let lat: Option<String> = read_text(entry.get("lat"));
        let lon: Option<String> = read_text(entry.get("lon"));
        let address: Option<String> = read_text(entry.get("display_name"));
        match (lat, lon, address) {
            (Some(lat), Some(lon), Some(address)) => Some(Geo { lat, lon, address }),
            _ => None,
        }
    }

    /// Reads the service's answer: a list of places.
    pub fn from_json(answer: &Json) -> (list: Option<Vec<Geo>>)
        ensures
            geo_views_of(list) == places(*answer),
    {
        match answer {
            Json::List(entries) => {
                let n: usize = entries.len();
                let mut list: Vec<Geo> = Vec::new();
                let mut i: usize = 0;
                while i < n
                    invariant
                        i <= n,
                        n == entries@.len(),
                        *answer == Json::List(*entries),
                        list@.len() == i,
                        forall|j: int|
                            0 <= j < i ==> (#[trigger] place(entries@[j])) == Some(list@[j]@),
                    decreases n - i,
                {
                    match Geo::from_entry(&entries[i]) {
                        Some(geo) => {
                            list.push(geo);
                        },
                        None => {
                            return None;
                        },
                    }
                    i = i + 1;
                }
                assert(geo_views(list@) =~= Seq::new(
                    entries@.len(),
                    |i: int| place(entries@[i])->0,
                ));
                Some(list)
            },
            _ => None,
        }
    }

    /// Reads the text of the service's answer.
    pub fn parse(text: &str) -> (list: Option<Vec<Geo>>)
        ensures
            geo_views_of(list) == places_of(crate::json::json_document(text@)),
    {
        match parse(text) {
            Some(answer) => Geo::from_json(&answer),
            None => None,
        }
    }

    /// The match that a lookup settles on: the last of the places found.
    pub fn best(found: Vec<Geo>) -> (geo: Option<Geo>)
        ensures
            match geo {
                Some(g) => found@.len() > 0 && g == found@.last(),
                None => found@.len() == 0,
            },
    {
        let mut found = found;
        found.pop()
    }
}

} // verus!
