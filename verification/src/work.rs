//! The registry of providers: their fixed order, the default among them, how
//! a command finds its provider, and the text that credentials and default
//! are stored as.

use vstd::prelude::*;
use vstd::string::*;
use crate::credential::{
    key_line, key_reading, lemma_key_round_trip, lemma_other_name_rejected,
    lemma_pair_round_trip, pair_line, pair_reading, FIELD_SEPARATOR,
};
use crate::number::{parse_unsigned, unsigned_reading};
use crate::provider::accuweather::{AccuWeather, ACCU_WEATHER};
use crate::provider::aerisweather::{AerisWeather, AERIS_WEATHER};
use crate::provider::openweather::{OpenWeather, OPEN_WEATHER};
use crate::provider::weatherapi::{WeatherAPI, WEATHER_API};
use crate::text::{
    fields, join, joined, lemma_lines_of_joined, lines_of, same_text, text_lines, texts, trim,
    trimmed,
};

verus! {

/// The number of providers.
pub const PROVIDER_COUNT: usize = 4;

/// What stands between the lines of the stored text.
pub const LINE_BREAK: &'static str = "\n";

/// What every weather provider can do with its credential: tell its name,
/// write the credential as a line, and take it back from a line.
pub trait Provider {
    /// The name of the provider.
    spec fn title(&self) -> Seq<char>;

    /// The credential is well formed.
    spec fn valid(&self) -> bool;

    /// The line that the credential is stored as.
    spec fn stored(&self) -> Seq<char>;

    /// Whether a line is one that the provider accepts: it begins with
    /// the provider's name and has the provider's number of fields.
    spec fn accepts(&self, line: Seq<char>) -> bool;

    /// Get provider name.
    fn name(&self) -> (name: &'static str)
        ensures
            name@ == self.title(),
    ;

    /// Serialize provider credentials.
    fn serialize(&self) -> (line: String)
        ensures
            line@ == self.stored(),
    ;

    /// Deserialize provider credentials. An accepted line becomes the
    /// credential, so that it is the line that would be stored again; any
    /// other line changes nothing.
    fn deserialize(&mut self, data: &str) -> (accepted: bool)
        requires
            old(self).valid(),
        ensures
            final(self).valid(),
            final(self).title() == old(self).title(),
            accepted == old(self).accepts(data@),
            accepted ==> final(self).stored() == data@,
            !accepted ==> final(self).stored() == old(self).stored(),
    ;
}

/// Work struct with the providers, in their fixed order, and the default
/// provider.
#[derive(Debug)]
pub struct Work {
    open_weather: OpenWeather,
    weather_api: WeatherAPI,
    accu_weather: AccuWeather,
    aeris_weather: AerisWeather,
    default: usize,
}

/// What the registry holds: the credential of each provider and the
/// position of the default provider.
pub struct Registry {
    pub open_weather: Option<Seq<char>>,
    pub weather_api: Option<Seq<char>>,
    pub accu_weather: Option<Seq<char>>,
    pub aeris_weather: Option<(Seq<char>, Seq<char>)>,
    pub default: int,
}

/// What the answer to the list of providers did.
#[derive(Debug, Clone, Copy, PartialEq, Eq, Structural)]
pub enum Selection {
    /// The answer was empty: the default stays as it was.
    Kept,
    /// The answer named a provider: it is the default now.
    Changed,
    /// The answer was no number from one to the number of providers:
    /// nothing changed.
    Rejected,
}

/// The name of the provider at `index` in the fixed order.
pub open spec fn provider_name(index: int) -> Seq<char> {
    if index == 0 {
        OPEN_WEATHER@
    } else if index == 1 {
        WEATHER_API@
    } else if index == 2 {
        ACCU_WEATHER@
    } else {
        AERIS_WEATHER@
    }
}

/// The position of the first provider called `name`.
pub open spec fn position_of(name: Seq<char>) -> Option<int> {
    if name == OPEN_WEATHER@ {
        Some(0)
    } else if name == WEATHER_API@ {
        Some(1)
    } else if name == ACCU_WEATHER@ {
        Some(2)
    } else if name == AERIS_WEATHER@ {
        Some(3)
    } else {
        None
    }
}

/// The provider that `get` goes to: the one called `provider` where a
/// name is given, none where no provider has that name, and the default
/// one where no name is given.
pub open spec fn dispatch(provider: Option<Seq<char>>, default: int) -> Option<int> {
    match provider {
        Some(name) => position_of(name),
        None => Some(default),
    }
}

/// The default that the answer to the list of providers asks for: the
/// answer, trimmed, must be a number from one to the number of providers,
/// and names the provider at that place.
pub open spec fn chosen_default(input: Seq<char>) -> Option<int> {
    match unsigned_reading(trimmed(input), PROVIDER_COUNT as nat) {
        Some(number) => if number >= 1 {
            Some(number - 1)
        } else {
            None
        },
        None => None,
    }
}

/// The registry with the key of the provider at `index`, one of the three
/// that have a single key, replaced by `key`.
pub open spec fn with_key(state: Registry, index: int, key: Option<Seq<char>>) -> Registry {
    if index == 0 {
        Registry { open_weather: key, ..state }
    } else if index == 1 {
        Registry { weather_api: key, ..state }
    } else {
        Registry { accu_weather: key, ..state }
    }
}

/// The lines that the registry is stored as: the name of the default
/// provider, then the line of each provider in the fixed order.
pub open spec fn stored_lines(state: Registry) -> Seq<Seq<char>> {
    seq![
        provider_name(state.default),
        key_line(OPEN_WEATHER@, state.open_weather),
        key_line(WEATHER_API@, state.weather_api),
        key_line(ACCU_WEATHER@, state.accu_weather),
        pair_line(AERIS_WEATHER@, state.aeris_weather),
    ]
}

/// The text that the registry is stored as.
pub open spec fn stored_text(state: Registry) -> Seq<char> {
    joined(stored_lines(state), LINE_BREAK@)
}

/// The registry after one stored line was offered to every provider. A
/// provider that accepts the line takes the credential it reads, and
/// becomes the default if it is the one that `default_name` names; a
/// provider that rejects the line keeps what it has.
pub open spec fn offered(state: Registry, default_name: Seq<char>, line: Seq<char>) -> Registry {
    let open_weather = key_reading(OPEN_WEATHER@, line);
    let weather_api = key_reading(WEATHER_API@, line);
    let accu_weather = key_reading(ACCU_WEATHER@, line);
    let aeris_weather = pair_reading(AERIS_WEATHER@, line);
    Registry {
        open_weather: if open_weather is Some {
            open_weather->0
        } else {
            state.open_weather
        },
        weather_api: if weather_api is Some {
            weather_api->0
        } else {
            state.weather_api
        },
        accu_weather: if accu_weather is Some {
            accu_weather->0
        } else {
            state.accu_weather
        },
        aeris_weather: if aeris_weather is Some {
            aeris_weather->0
        } else {
            state.aeris_weather
        },
        default: if open_weather is Some && default_name == OPEN_WEATHER@ {
            0
        } else if weather_api is Some && default_name == WEATHER_API@ {
            1
        } else if accu_weather is Some && default_name == ACCU_WEATHER@ {
            2
        } else if aeris_weather is Some && default_name == AERIS_WEATHER@ {
            3
        } else {
            state.default
        },
    }
}

/// The registry after the lines were offered one after the other.
pub open spec fn offered_all(state: Registry, default_name: Seq<char>, lines: Seq<Seq<char>>)
    -> Registry
    decreases lines.len(),
{
    if lines.len() == 0 {
        state
    } else {
        offered_all(offered(state, default_name, lines[0]), default_name, lines.drop_first())
    }
}

/// The registry after a stored text was loaded: its first line names the
/// default provider, and every further line is offered to the providers.
/// A text without lines changes nothing.
pub open spec fn loaded(state: Registry, lines: Seq<Seq<char>>) -> Registry {
    if lines.len() == 0 {
        state
    } else {
        offered_all(state, lines[0], lines.drop_first())
    }
}

impl View for Work {
    type V = Registry;

    closed spec fn view(&self) -> Registry {
        Registry {
            open_weather: self.open_weather.key(),
            weather_api: self.weather_api.key(),
            accu_weather: self.accu_weather.key(),
            aeris_weather: self.aeris_weather.key(),
            default: self.default as int,
        }
    }
}

impl Work {
    /// Every provider is well formed, and the default is one of them.
    pub closed spec fn wf(&self) -> bool {
        &&& self.open_weather.wf()
        &&& self.weather_api.wf()
        &&& self.accu_weather.wf()
        &&& self.aeris_weather.wf()
        &&& self.default < PROVIDER_COUNT
    }

    /// Create empty work structure: no credential is set, and the first
    /// provider is the default.
    pub fn new() -> (work: Work)
        ensures
            work.wf(),
            work@ == (Registry {
                open_weather: None,
                weather_api: None,
                accu_weather: None,
                aeris_weather: None,
                default: 0,
            }),
    {
        Work {
            open_weather: OpenWeather::new(),
            weather_api: WeatherAPI::new(),
            accu_weather: AccuWeather::new(),
            aeris_weather: AerisWeather::new(),
            default: 0,
        }
    }

    /// The position of the default provider.
    pub fn default_index(&self) -> (index: usize)
        requires
            self.wf(),
        ensures
            index == self@.default,
            index < PROVIDER_COUNT,
    {
        self.default
    }

    /// The name of the provider at `index`.
    pub fn name_at(index: usize) -> (name: &'static str)
        requires
            index < PROVIDER_COUNT,
        ensures
            name@ == provider_name(index as int),
    {
        if index == 0 {
            OPEN_WEATHER
        } else if index == 1 {
            WEATHER_API
        } else if index == 2 {
            ACCU_WEATHER
        } else {
            AERIS_WEATHER
        }
    }

    /// The position of the first provider called `name`.
    pub fn position(name: &str) -> (index: Option<usize>)
        ensures
            match index {
                Some(i) => position_of(name@) == Some(i as int) && i < PROVIDER_COUNT,
                None => position_of(name@) is None,
            },
    {
        if same_text(name, OPEN_WEATHER) {
            Some(0)
        } else if same_text(name, WEATHER_API) {
            Some(1)
        } else if same_text(name, ACCU_WEATHER) {
            Some(2)
        } else if same_text(name, AERIS_WEATHER) {
            Some(3)
        } else {
            None
        }
    }

    /// The provider OpenWeather.
    pub fn open_weather(&self) -> (provider: &OpenWeather)
        requires
            self.wf(),
        ensures
            provider.wf(),
            provider.key() == self@.open_weather,
    {
        &self.open_weather
    }

    /// The provider WeatherAPI.
    pub fn weather_api(&self) -> (provider: &WeatherAPI)
        requires
            self.wf(),
        ensures
            provider.wf(),
            provider.key() == self@.weather_api,
    {
        &self.weather_api
    }

    /// The provider AccuWeather.
    pub fn accu_weather(&self) -> (provider: &AccuWeather)
        requires
            self.wf(),
        ensures
            provider.wf(),
            provider.key() == self@.accu_weather,
    {
        &self.accu_weather
    }

    /// The provider AerisWeather.
    pub fn aeris_weather(&self) -> (provider: &AerisWeather)
        requires
            self.wf(),
        ensures
            provider.wf(),
            provider.key() == self@.aeris_weather,
    {
        &self.aeris_weather
    }

    /// Takes the answer to the prompt for the API key of the provider at
    /// `index`, one of the three that have a single key: an answer that is
    /// empty once trimmed removes the key, any other becomes the key.
    /// Tells whether a key is set afterwards.
    pub fn configure_key(&mut self, index: usize, input: &str) -> (set: bool)
        requires
            old(self).wf(),
            index < 3,
        ensures
            final(self).wf(),
            set == (trimmed(input@).len() > 0),
            final(self)@ == with_key(
                old(self)@,
                index as int,
                if set {
                    Some(trimmed(input@))
                } else {
                    None
                },
            ),
    {
        if index == 0 {
            self.open_weather.configure(input)
        } else if index == 1 {
            self.weather_api.configure(input)
        } else {
            self.accu_weather.configure(input)
        }
    }

    /// Takes the answer to the prompt for the client identifier of
    /// AerisWeather. An answer that is empty once trimmed removes
    /// identifier and secret, and `None` is returned. Any other answer is
    /// returned trimmed, to be handed on with the answer to the second
    /// prompt, and nothing changes yet.
    pub fn configure_id(&mut self, input: &str) -> (id: Option<String>)
        requires
            old(self).wf(),
        ensures
            final(self).wf(),
            id is Some == (trimmed(input@).len() > 0),
            id is Some ==> id->0@ == trimmed(input@) && final(self)@ == old(self)@,
            id is None ==> final(self)@ == (Registry { aeris_weather: None, ..old(self)@ }),
    {
        self.aeris_weather.configure_id(input)
    }

    /// Takes the answer to the prompt for the client secret of
    /// AerisWeather, together with the identifier that the first prompt
    /// gave. An answer that is empty once trimmed changes nothing; any
    /// other sets identifier and secret. Tells whether they were set.
    pub fn configure_secret(&mut self, client_id: String, input: &str) -> (set: bool)
        requires
            old(self).wf(),
            client_id@.len() > 0,
        ensures
            final(self).wf(),
            set == (trimmed(input@).len() > 0),
            set ==> final(self)@ == (Registry {
                aeris_weather: Some((client_id@, trimmed(input@))),
                ..old(self)@
            }),
            !set ==> final(self)@ == old(self)@,
    {
        self.aeris_weather.configure_secret(client_id, input)
    }

    /// Takes the answer to the list of providers, which asks for the new
    /// default by its number, counted from one. An answer that is empty
    /// once trimmed keeps the default; a number from one to the number of
    /// providers changes it; any other answer is rejected and changes
    /// nothing.
    pub fn list(&mut self, input: &str) -> (selection: Selection)
        requires
            old(self).wf(),
        ensures
            final(self).wf(),
            final(self)@.open_weather == old(self)@.open_weather,
            final(self)@.weather_api == old(self)@.weather_api,
            final(self)@.accu_weather == old(self)@.accu_weather,
            final(self)@.aeris_weather == old(self)@.aeris_weather,
            selection == if trimmed(input@).len() == 0 {
                Selection::Kept
            } else if chosen_default(input@) is Some {
                Selection::Changed
            } else {
                Selection::Rejected
            },
            final(self)@.default == if trimmed(input@).len() > 0 && chosen_default(input@)
                is Some {
                chosen_default(input@)->0
            } else {
                old(self)@.default
            },
    {
        let answer: String = trim(input);
        if answer.as_str().unicode_len() == 0 {
            return Selection::Kept;
        }
        match parse_unsigned(answer.as_str(), PROVIDER_COUNT as u64) {
            Some(number) => {
                if number == 0 {
                    Selection::Rejected
                } else {
                    self.default = (number - 1) as usize;
                    Selection::Changed
                }
            },
            None => Selection::Rejected,
        }
    }

    /// Configures credentials for the selected provider: the position of
    /// the provider called `provider`, and none where no provider has
    /// that name.
    pub fn configure(&self, provider: &str) -> (index: Option<usize>)
        ensures
            match index {
                Some(i) => position_of(provider@) == Some(i as int) && i < PROVIDER_COUNT,
                None => position_of(provider@) is None,
            },
    {
        Work::position(provider)
    }

    /// Displays weather for the provided address: the position of the
    /// provider to ask. That is the provider called `provider` where a
    /// name is given, and the default one where none is; no provider is
    /// found where none has the given name.
    pub fn get(&self, provider: Option<&str>) -> (index: Option<usize>)
        requires
            self.wf(),
        ensures
            match index {
                Some(i) => dispatch(view_of(provider), self@.default) == Some(i as int) && i
                    < PROVIDER_COUNT,
                None => dispatch(view_of(provider), self@.default) is None,
            },
    {
        match provider {
            Some(name) => Work::position(name),
            None => Some(self.default),
        }
    }

    /// Save credentials to text: the name of the default provider on the
    /// first line, then the line of each provider in the fixed order.
    pub fn save(&self) -> (text: String)
        requires
            self.wf(),
        ensures
            text@ == stored_text(self@),
    {
        let mut lines: Vec<String> = Vec::new();
        lines.push(String::from_str(Work::name_at(self.default)));
        lines.push(self.open_weather.serialize());
        lines.push(self.weather_api.serialize());
        lines.push(self.accu_weather.serialize());
        lines.push(self.aeris_weather.serialize());
        assert(texts(lines@) =~= stored_lines(self@));
        join(lines.as_slice(), LINE_BREAK)
    }

    /// Offers one stored line to every provider.
    pub fn offer(&mut self, default_name: &str, line: &str)
        requires
            old(self).wf(),
        ensures
            final(self).wf(),
            final(self)@ == offered(old(self)@, default_name@, line@),
    {
        let open_weather: bool = self.open_weather.deserialize(line);
        let weather_api: bool = self.weather_api.deserialize(line);
        let accu_weather: bool = self.accu_weather.deserialize(line);
        let aeris_weather: bool = self.aeris_weather.deserialize(line);
        if open_weather && same_text(default_name, OPEN_WEATHER) {
            self.default = 0;
        } else if weather_api && same_text(default_name, WEATHER_API) {
            self.default = 1;
        } else if accu_weather && same_text(default_name, ACCU_WEATHER) {
            self.default = 2;
        } else if aeris_weather && same_text(default_name, AERIS_WEATHER) {
            self.default = 3;
        }
    }

    /// Load credentials from text: the first line names the default
    /// provider, and every further line is offered to every provider. A
    /// text without lines changes nothing.
    pub fn load(&mut self, text: &str)
        requires
            old(self).wf(),
        ensures
            final(self).wf(),
            final(self)@ == loaded(old(self)@, lines_of(text@)),
    {
        let lines: Vec<String> = text_lines(text);
        let n: usize = lines.len();
        if n == 0 {
            return ;
        }
        let ghost all = texts(lines@);
        let ghost start = self@;
        let mut i: usize = 1;
        while i < n
            invariant
                1 <= i <= n,
                n == lines@.len(),
                all == texts(lines@),
                self.wf(),
                offered_all(self@, all[0], all.subrange(i as int, n as int)) == offered_all(
                    start,
                    all[0],
                    all.subrange(1, n as int),
                ),
            decreases n - i,
        {
            let ghost rest = all.subrange(i as int, n as int);
            assert(rest.drop_first() =~= all.subrange(i + 1, n as int));
            self.offer(lines[0].as_str(), lines[i].as_str());
            i = i + 1;
        }
    }
}

impl Default for Work {
    fn default() -> (work: Work)
        ensures
            work.wf(),
            work@ == (Registry {
                open_weather: None,
                weather_api: None,
                accu_weather: None,
                aeris_weather: None,
                default: 0,
            }),
    {
        Work::new()
    }
}

/// The text of a name that may be missing.
pub open spec fn view_of(name: Option<&str>) -> Option<Seq<char>> {
    match name {
        Some(n) => Some(n@),
        None => None,
    }
}

/// A secret that the stored text can hold: it is not empty and holds no
/// field separator, line feed or carriage return.
pub open spec fn plain(secret: Seq<char>) -> bool {
    &&& secret.len() > 0
    &&& !secret.contains(FIELD_SEPARATOR)
    &&& !secret.contains('\n')
    &&& !secret.contains('\r')
}

/// A registry that the stored text can hold: the default is one of the
/// providers, and every secret that is set is plain.
pub open spec fn storable_registry(state: Registry) -> bool {
    &&& 0 <= state.default < PROVIDER_COUNT
    &&& state.open_weather is Some ==> plain(state.open_weather->0)
    &&& state.weather_api is Some ==> plain(state.weather_api->0)
    &&& state.accu_weather is Some ==> plain(state.accu_weather->0)
    &&& match state.aeris_weather {
        Some((id, secret)) => plain(id) && plain(secret),
        None => true,
    }
}

/// The providers have four different names, and none of them holds a
/// field separator, a line feed or a carriage return.
pub proof fn lemma_names()
    ensures
        forall|i: int, j: int|
            0 <= i < PROVIDER_COUNT && 0 <= j < PROVIDER_COUNT && provider_name(i)
                == provider_name(j) ==> i == j,
        forall|i: int|
            0 <= i < PROVIDER_COUNT ==> !provider_name(i).contains(FIELD_SEPARATOR)
                && !provider_name(i).contains('\n') && !provider_name(i).contains('\r')
                && provider_name(i).len() > 0,
{
    reveal_strlit("OpenWeather");
    reveal_strlit("WeatherAPI");
    reveal_strlit("AccuWeather");
    reveal_strlit("AerisWeather");
    assert(OPEN_WEATHER@.len() == 11 && OPEN_WEATHER@[0] == 'O');
    assert(WEATHER_API@.len() == 10);
    assert(ACCU_WEATHER@.len() == 11 && ACCU_WEATHER@[0] == 'A');
}

/// A character that is in neither of two texts is not in the one after
/// the other.
pub proof fn lemma_absent_from_both(a: Seq<char>, b: Seq<char>, c: char)
    requires
        !a.contains(c),
        !b.contains(c),
    ensures
        !(a + b).contains(c),
{
}

/// The line of a single key holds no line break, where name and key hold
/// none.
proof fn lemma_key_line_is_one_line(name: Seq<char>, key: Option<Seq<char>>, c: char)
    requires
        c != FIELD_SEPARATOR,
        !name.contains(c),
        key is Some ==> !key->0.contains(c),
    ensures
        !key_line(name, key).contains(c),
        key_line(name, key).len() > 0,
{
    let colon = seq![FIELD_SEPARATOR];
    lemma_absent_from_both(name, colon, c);
    if key is Some {
        lemma_absent_from_both(name + colon, key->0, c);
    }
}

/// The line of an identifier and a secret holds no line break, where the
/// name and the two hold none.
proof fn lemma_pair_line_is_one_line(
    name: Seq<char>,
    pair: Option<(Seq<char>, Seq<char>)>,
    c: char,
)
    requires
        c != FIELD_SEPARATOR,
        !name.contains(c),
        match pair {
            Some((id, secret)) => !id.contains(c) && !secret.contains(c),
            None => true,
        },
    ensures
        !pair_line(name, pair).contains(c),
        pair_line(name, pair).len() > 0,
{
    let colon = seq![FIELD_SEPARATOR];
    lemma_absent_from_both(name, colon, c);
    match pair {
        Some((id, secret)) => {
            lemma_absent_from_both(name + colon, id, c);
            lemma_absent_from_both(name + colon + id, colon, c);
            lemma_absent_from_both(name + colon + id + colon, secret, c);
        },
        None => {
            lemma_absent_from_both(name + colon, colon, c);
        },
    }
}

/// The lines of the stored text are the stored lines.
pub proof fn lemma_stored_lines(state: Registry)
    requires
        storable_registry(state),
    ensures
        lines_of(stored_text(state)) == stored_lines(state),
{
    lemma_names();
    reveal_strlit("\n");
    assert(LINE_BREAK@ =~= seq!['\n']);
    let lines = stored_lines(state);
    assert(provider_name(0) == OPEN_WEATHER@ && provider_name(1) == WEATHER_API@ && provider_name(
        2,
    ) == ACCU_WEATHER@ && provider_name(3) == AERIS_WEATHER@);
    lemma_key_line_is_one_line(OPEN_WEATHER@, state.open_weather, '\n');
    lemma_key_line_is_one_line(OPEN_WEATHER@, state.open_weather, '\r');
    lemma_key_line_is_one_line(WEATHER_API@, state.weather_api, '\n');
    lemma_key_line_is_one_line(WEATHER_API@, state.weather_api, '\r');
    lemma_key_line_is_one_line(ACCU_WEATHER@, state.accu_weather, '\n');
    lemma_key_line_is_one_line(ACCU_WEATHER@, state.accu_weather, '\r');
    lemma_pair_line_is_one_line(AERIS_WEATHER@, state.aeris_weather, '\n');
    lemma_pair_line_is_one_line(AERIS_WEATHER@, state.aeris_weather, '\r');
    lemma_lines_of_joined(lines);
}

/// What one line of a stored registry does when it is offered: the line
/// of the provider at `index` sets that provider's credential to the
/// stored one, leaves the others alone, and makes it the default exactly
/// if `default_name` is its name.
proof fn lemma_offer_stored_line(
    current: Registry,
    state: Registry,
    default_name: Seq<char>,
    index: int,
)
    requires
        storable_registry(state),
        0 <= index < PROVIDER_COUNT,
    ensures
        ({
            let line = stored_lines(state)[index + 1];
            let after = offered(current, default_name, line);
            &&& after.open_weather == if index == 0 {
                state.open_weather
            } else {
                current.open_weather
            }
            &&& after.weather_api == if index == 1 {
                state.weather_api
            } else {
                current.weather_api
            }
            &&& after.accu_weather == if index == 2 {
                state.accu_weather
            } else {
                current.accu_weather
            }
            &&& after.aeris_weather == if index == 3 {
                state.aeris_weather
            } else {
                current.aeris_weather
            }
            &&& after.default == if default_name == provider_name(index) {
                index
            } else {
                current.default
            }
        }),
{
    lemma_names();
    let line = stored_lines(state)[index + 1];
    assert(provider_name(0) == OPEN_WEATHER@ && provider_name(1) == WEATHER_API@ && provider_name(
        2,
    ) == ACCU_WEATHER@ && provider_name(3) == AERIS_WEATHER@);
    if index == 0 {
        lemma_key_round_trip(OPEN_WEATHER@, state.open_weather);
        lemma_other_name_rejected(OPEN_WEATHER@, WEATHER_API@, line);
        lemma_other_name_rejected(OPEN_WEATHER@, ACCU_WEATHER@, line);
        lemma_other_name_rejected(OPEN_WEATHER@, AERIS_WEATHER@, line);
    } else if index == 1 {
        lemma_key_round_trip(WEATHER_API@, state.weather_api);
        lemma_other_name_rejected(WEATHER_API@, OPEN_WEATHER@, line);
        lemma_other_name_rejected(WEATHER_API@, ACCU_WEATHER@, line);
        lemma_other_name_rejected(WEATHER_API@, AERIS_WEATHER@, line);
    } else if index == 2 {
        lemma_key_round_trip(ACCU_WEATHER@, state.accu_weather);
        lemma_other_name_rejected(ACCU_WEATHER@, OPEN_WEATHER@, line);
        lemma_other_name_rejected(ACCU_WEATHER@, WEATHER_API@, line);
        lemma_other_name_rejected(ACCU_WEATHER@, AERIS_WEATHER@, line);
    } else {
        lemma_pair_round_trip(AERIS_WEATHER@, state.aeris_weather);
        lemma_other_name_rejected(AERIS_WEATHER@, OPEN_WEATHER@, line);
        lemma_other_name_rejected(AERIS_WEATHER@, WEATHER_API@, line);
        lemma_other_name_rejected(AERIS_WEATHER@, ACCU_WEATHER@, line);
    }
}

/// Loading what was saved restores the registry: the same default
/// provider and the same credential, set or not, of every provider,
/// whatever the registry held before. This holds of every registry whose
/// secrets are plain.
pub proof fn lemma_load_restores(start: Registry, state: Registry)
    requires
        storable_registry(state),
    ensures
        loaded(start, lines_of(stored_text(state))) == state,
{
    lemma_names();
    lemma_stored_lines(state);
    let lines = stored_lines(state);
    let name = lines[0];
    let rest1 = lines.drop_first();
    let rest2 = rest1.drop_first();
    let rest3 = rest2.drop_first();
    let rest4 = rest3.drop_first();
    let s1 = offered(start, name, lines[1]);
    let s2 = offered(s1, name, lines[2]);
    let s3 = offered(s2, name, lines[3]);
    let s4 = offered(s3, name, lines[4]);
    lemma_offer_stored_line(start, state, name, 0);
    lemma_offer_stored_line(s1, state, name, 1);
    lemma_offer_stored_line(s2, state, name, 2);
    lemma_offer_stored_line(s3, state, name, 3);
    assert(rest1[0] == lines[1] && rest2[0] == lines[2] && rest3[0] == lines[3] && rest4[0]
        == lines[4]);
    assert(offered_all(s4, name, rest4.drop_first()) == s4);
    assert(offered_all(s3, name, rest4) == s4);
    assert(offered_all(s2, name, rest3) == s4);
    assert(offered_all(s1, name, rest2) == s4);
}

/// A line that a provider rejects leaves that provider's credential as it
/// was, whatever the line does to the others. A line with another number
/// of fields than a provider's own is rejected by it.
pub proof fn lemma_rejected_line_is_isolated(
    state: Registry,
    default_name: Seq<char>,
    line: Seq<char>,
)
    ensures
        key_reading(OPEN_WEATHER@, line) is None ==> offered(
            state,
            default_name,
            line,
        ).open_weather == state.open_weather,
        key_reading(WEATHER_API@, line) is None ==> offered(state, default_name, line).weather_api
            == state.weather_api,
        key_reading(ACCU_WEATHER@, line) is None ==> offered(
            state,
            default_name,
            line,
        ).accu_weather == state.accu_weather,
        pair_reading(AERIS_WEATHER@, line) is None ==> offered(
            state,
            default_name,
            line,
        ).aeris_weather == state.aeris_weather,
        fields(line, FIELD_SEPARATOR).len() != 2 ==> key_reading(OPEN_WEATHER@, line) is None
            && key_reading(WEATHER_API@, line) is None && key_reading(ACCU_WEATHER@, line)
            is None,
        fields(line, FIELD_SEPARATOR).len() != 3 ==> pair_reading(AERIS_WEATHER@, line) is None,
        key_reading(OPEN_WEATHER@, line) is None && key_reading(WEATHER_API@, line) is None
            && key_reading(ACCU_WEATHER@, line) is None && pair_reading(AERIS_WEATHER@, line)
            is None ==> offered(state, default_name, line) == state,
{
}

} // verus!
