//! The command line: which command the arguments spell, and for `get` which
//! of them name the provider, the address and the date.

use vstd::prelude::*;
use vstd::slice::slice_subrange;
use vstd::string::*;
use crate::text::{
    chars_of, has_prefix, join, joined, lemma_joined_not_empty, same_text, starts_with,
    suffix_from, text_after, texts,
};
use crate::time::{
    calendar_reading, clock_suffix, read_calendar, resolve_local, CalendarTime, LocalTime,
    DATE_TIME_PATTERN,
};

verus! {

/// What an argument that names the provider begins with.
pub const PROVIDER: &'static str = "provider=";

/// What an argument that names the date begins with.
pub const DATE: &'static str = "date=";

/// Describes date value.
#[derive(Debug, Clone, Copy, PartialEq, Eq, Structural)]
pub enum Date {
    /// Current date and time.
    Now,
    /// The date could not be understood.
    Error,
    /// The given date.
    Given(LocalTime),
}

/// The command to launch the application.
#[derive(Debug, PartialEq, Eq)]
#[allow(inconsistent_fields)]
pub enum Command {
    /// Displays a list of available providers and allows to set the default.
    List,
    /// Configures credentials for the selected provider.
    Configure { provider: String },
    /// Displays weather for the provided address, using the named provider
    /// or else the default one, for the given date.
    Get { provider: Option<String>, address: String, date: Date },
    /// Shows the help message; `error` tells that the arguments were not
    /// understood.
    Help { error: bool },
}

/// A command with its texts as plain sequences.
#[allow(inconsistent_fields)]
pub enum CommandView {
    List,
    Configure { provider: Seq<char> },
    Get { provider: Option<Seq<char>>, address: Seq<char>, date: Date },
    Help { error: bool },
}

impl View for Command {
    type V = CommandView;

    open spec fn view(&self) -> CommandView {
        match self {
            Command::List => CommandView::List,
            Command::Configure { provider } => CommandView::Configure { provider: provider@ },
            Command::Get { provider, address, date } => CommandView::Get {
                provider: chars_of(*provider),
                address: address@,
                date: *date,
            },
            Command::Help { error } => CommandView::Help { error: *error },
        }
    }
}

/// Initialization structure.
#[derive(Debug, PartialEq, Eq)]
pub struct Init {
    /// Arguments for starting the application, joined by spaces.
    pub args: String,
    /// The command to launch the application.
    pub command: Command,
}

/// How the arguments of `get` divide: the provider, if one is named, the
/// address, and the argument that names the date, if there is one.
pub struct GetShape {
    pub provider: Option<Seq<char>>,
    pub address: Seq<char>,
    pub date: Option<Seq<char>>,
}

/// The provider that an argument beginning with `provider=` names: what
/// follows the marker, and none where nothing follows.
pub open spec fn named_provider(token: Seq<char>) -> Option<Seq<char>> {
    let rest = suffix_from(token, PROVIDER@.len() as int);
    if rest.len() == 0 {
        None
    } else {
        Some(rest)
    }
}

/// What follows the marker in an argument beginning with `date=`.
pub open spec fn date_rest(token: Seq<char>) -> Seq<char> {
    suffix_from(token, DATE@.len() as int)
}

/// Whether the rest of a date argument asks for the current time: it is
/// empty or spells `now` in letters of any case.
pub open spec fn means_now(rest: Seq<char>) -> bool {
    ||| rest.len() == 0
    ||| (rest.len() == 3 && (rest[0] == 'n' || rest[0] == 'N') && (rest[1] == 'o' || rest[1]
        == 'O') && (rest[2] == 'w' || rest[2] == 'W'))
}

/// The text that is read as date and time: the rest of the argument, and
/// for a rest of exactly ten characters, a bare day, the rest followed by
/// the time of day.
pub open spec fn date_text(rest: Seq<char>, clock: Seq<char>) -> Seq<char> {
    if rest.len() == 10 {
        rest + clock
    } else {
        rest
    }
}

/// Whether `date` is a way for the date argument `token` to resolve when
/// the time of day is `clock`. An argument that asks for the current time
/// resolves to `Now`, and no other does. An explicit date resolves to the
/// reading of its text and to an instant of the local time zone, or to
/// `Error`; it must resolve to `Error` where its text has no reading.
pub open spec fn resolves_at(token: Seq<char>, clock: Seq<char>, date: Date) -> bool {
    let rest = date_rest(token);
    let reading = calendar_reading(date_text(rest, clock), DATE_TIME_PATTERN@);
    if means_now(rest) {
        date == Date::Now
    } else {
        match date {
            Date::Now => false,
            Date::Error => true,
            Date::Given(moment) => reading == Some(moment.calendar),
        }
    }
}

/// Whether `date` is a way for the date argument `token` to resolve at
/// some time of day.
pub open spec fn resolves(token: Seq<char>, date: Date) -> bool {
    exists|clock: Seq<char>| resolves_at(token, clock, date)
}

/// How the arguments of `get` divide. A first argument that begins with
/// `provider=` names the provider; a last argument that begins with
/// `date=` names the date; what remains is the address, its arguments
/// joined by single spaces. Without arguments, or with nothing left for
/// the address, the arguments do not divide.
pub open spec fn get_shape(parts: Seq<Seq<char>>) -> Option<GetShape> {
    if parts.len() == 0 {
        None
    } else {
        let led = has_prefix(parts[0], PROVIDER@);
        let dated = has_prefix(parts.last(), DATE@);
        let from: int = if led {
            1
        } else {
            0
        };
        let to: int = if dated {
            parts.len() - 1
        } else {
            parts.len() as int
        };
        if from < to {
            Some(
                GetShape {
                    provider: if led {
                        named_provider(parts[0])
                    } else {
                        None
                    },
                    address: joined(parts.subrange(from, to), " "@),
                    date: if dated {
                        Some(parts.last())
                    } else {
                        None
                    },
                },
            )
        } else {
            None
        }
    }
}

/// What the arguments of `get` give once the date argument, if there is
/// one that counts, has resolved to `resolved`: provider, address and
/// date, or nothing where the arguments do not divide or the date is not
/// understood.
pub open spec fn get_outcome(parts: Seq<Seq<char>>, resolved: Date) -> Option<
    (Option<Seq<char>>, Seq<char>, Date),
> {
    match get_shape(parts) {
        Some(shape) => if shape.date is None {
            Some((shape.provider, shape.address, Date::Now))
        } else if resolved == Date::Error {
            None
        } else {
            Some((shape.provider, shape.address, resolved))
        },
        None => None,
    }
}

/// The date argument that has to be resolved for the arguments of `get`.
pub open spec fn get_date_token(parts: Seq<Seq<char>>) -> Option<Seq<char>> {
    match get_shape(parts) {
        Some(shape) => shape.date,
        None => None,
    }
}

/// The command that the arguments spell once the date argument of `get`,
/// if there is one that counts, has resolved to `resolved`.
pub open spec fn command_outcome(list: Seq<Seq<char>>, resolved: Date) -> CommandView {
    if list.len() == 0 {
        CommandView::Help { error: false }
    } else if list[0] == "help"@ {
        CommandView::Help { error: false }
    } else if list[0] == "configure"@ {
        if list.len() >= 2 {
            CommandView::Configure { provider: list[1] }
        } else {
            CommandView::List
        }
    } else if list[0] == "get"@ {
        match get_outcome(list.drop_first(), resolved) {
            Some((provider, address, date)) => CommandView::Get { provider, address, date },
            None => CommandView::Help { error: true },
        }
    } else {
        CommandView::Help { error: true }
    }
}

/// The date argument that has to be resolved for the arguments.
pub open spec fn command_date_token(list: Seq<Seq<char>>) -> Option<Seq<char>> {
    if list.len() > 0 && list[0] == "get"@ {
        get_date_token(list.drop_first())
    } else {
        None
    }
}

/// The texts of what the arguments of `get` gave.
pub open spec fn get_view(found: Option<(Option<String>, String, Date)>) -> Option<
    (Option<Seq<char>>, Seq<char>, Date),
> {
    match found {
        Some((provider, address, date)) => Some((chars_of(provider), address@, date)),
        None => None,
    }
}

impl Init {
    /// The arguments as they were given, and the command they spell.
    pub fn new(list: Vec<String>) -> (init: Init)
        ensures
            init.args@ == joined(texts(list@), " "@),
            match command_date_token(texts(list@)) {
                Some(token) => exists|resolved: Date|
                    resolves(token, resolved) && init.command@ == command_outcome(
                        texts(list@),
                        resolved,
                    ),
                None => init.command@ == command_outcome(texts(list@), Date::Now),
            },
    {
        let args: String = join(list.as_slice(), " ");
        let command: Command = Init::parse_args(list.as_slice());
        Init { args, command }
    }

    /// Parsing of the launch parameters. Only a date argument that counts
    /// is resolved; the command is the one that the arguments spell for
    /// what it resolved to.
    pub fn parse_args(list: &[String]) -> (command: Command)
        ensures
            match command_date_token(texts(list@)) {
                Some(token) => exists|resolved: Date|
                    resolves(token, resolved) && command@ == command_outcome(
                        texts(list@),
                        resolved,
                    ),
                None => command@ == command_outcome(texts(list@), Date::Now),
            },
    {
        let n: usize = list.len();
        if n == 0 || !same_text(list[0].as_str(), "get") {
            return Init::command_for(list, Date::Now);
        }
        let parts: &[String] = slice_subrange(list, 1, n);
        let resolved: Date = match Init::date_argument(parts) {
            Some(token) => Init::set_date(token),
            None => Date::Now,
        };
        let command: Command = Init::command_for(list, resolved);
        proof {
            let token = command_date_token(texts(list@));
            if token is Some {
                assert(resolves(token->0, resolved) && command@ == command_outcome(
                    texts(list@),
                    resolved,
                ));
            }
        }
        command
    }

    /// The command that the arguments spell, given what the date argument
    /// of `get` resolved to.
    pub fn command_for(list: &[String], resolved: Date) -> (command: Command)
        ensures
            command@ == command_outcome(texts(list@), resolved),
    {
        let n: usize = list.len();
        if n == 0 {
            return Command::Help { error: false };
        }
        let first: &str = list[0].as_str();
        if same_text(first, "help") {
            Command::Help { error: false }
        } else if same_text(first, "configure") {
            if n >= 2 {
                Command::Configure { provider: list[1].clone() }
            } else {
                Command::List
            }
        } else if same_text(first, "get") {
            let parts: &[String] = slice_subrange(list, 1, n);
            assert(texts(parts@) =~= texts(list@).drop_first());
            match Init::compose_get(parts, resolved) {
                Some((provider, address, date)) => Command::Get { provider, address, date },
                None => Command::Help { error: true },
            }
        } else {
            Command::Help { error: true }
        }
    }

    /// Detail parsing 'get' command: provider, address and date, or
    /// nothing where the arguments do not divide or the date is not
    /// understood. Only a date argument that counts is resolved.
    pub fn parse_get_command(parts: &[String]) -> (found: Option<(Option<String>, String, Date)>)
        ensures
            match get_date_token(texts(parts@)) {
                Some(token) => exists|resolved: Date|
                    resolves(token, resolved) && get_view(found) == get_outcome(
                        texts(parts@),
                        resolved,
                    ),
                None => get_view(found) == get_outcome(texts(parts@), Date::Now),
            },
    {
        let resolved: Date = match Init::date_argument(parts) {
            Some(token) => Init::set_date(token),
            None => Date::Now,
        };
        let found = Init::compose_get(parts, resolved);
        proof {
            let token = get_date_token(texts(parts@));
            if token is Some {
                assert(resolves(token->0, resolved) && get_view(found) == get_outcome(
                    texts(parts@),
                    resolved,
                ));
            }
        }
        found
    }

    /// The date argument that has to be resolved for the arguments of
    /// `get`.
    pub fn date_argument(parts: &[String]) -> (token: Option<&str>)
        ensures
            match token {
                Some(t) => get_date_token(texts(parts@)) == Some(t@) && has_prefix(t@, DATE@),
                None => get_date_token(texts(parts@)) is None,
            },
    {
        let n: usize = parts.len();
        if n == 0 {
            return None;
        }
        let led: bool = starts_with(parts[0].as_str(), PROVIDER);
        let dated: bool = starts_with(parts[n - 1].as_str(), DATE);
        if !dated {
            return None;
        }
        let from: usize = if led {
            1
        } else {
            0
        };
        if from < n - 1 {
            Some(parts[n - 1].as_str())
        } else {
            None
        }
    }

    /// What the arguments of `get` give, given what the date argument
    /// resolved to.
    pub fn compose_get(parts: &[String], resolved: Date) -> (found: Option<
        (Option<String>, String, Date),
    >)
        ensures
            get_view(found) == get_outcome(texts(parts@), resolved),
    {
        let n: usize = parts.len();
        if n == 0 {
            return None;
        }
        let led: bool = starts_with(parts[0].as_str(), PROVIDER);
        let dated: bool = starts_with(parts[n - 1].as_str(), DATE);
        let from: usize = if led {
            1
        } else {
            0
        };
        let to: usize = if dated {
            n - 1
        } else {
            n
        };
        if from >= to {
            return None;
        }
        let date: Date = if dated {
            match resolved {
                Date::Error => return None,
                date => date,
            }
        } else {
            Date::Now
        };
        let provider: Option<String> = if led {
            Init::set_provider(parts[0].as_str())
        } else {
            None
        };
        let middle: &[String] = slice_subrange(parts, from, to);
        assert(texts(middle@) =~= texts(parts@).subrange(from as int, to as int));
        let address: String = join(middle, " ");
        Some((provider, address, date))
    }

    /// Checking for an empty provider: the provider that the argument
    /// names, and none where nothing follows the marker.
    pub fn set_provider(provider: &str) -> (named: Option<String>)
        requires
            has_prefix(provider@, PROVIDER@),
        ensures
            chars_of(named) == named_provider(provider@),
    {
        let marker: usize = PROVIDER.unicode_len();
        let rest: String = text_after(provider, marker);
        if rest.as_str().unicode_len() == 0 {
            None
        } else {
            Some(rest)
        }
    }

    /// Whether the rest of a date argument asks for the current time.
    pub fn asks_for_now(rest: &str) -> (now: bool)
        ensures
            now == means_now(rest@),
    {
        let n: usize = rest.unicode_len();
        if n == 0 {
            return true;
        }
        if n != 3 {
            return false;
        }
        let c0: char = rest.get_char(0);
        let c1: char = rest.get_char(1);
        let c2: char = rest.get_char(2);
        (c0 == 'n' || c0 == 'N') && (c1 == 'o' || c1 == 'O') && (c2 == 'w' || c2 == 'W')
    }

    /// The date that a reading of calendar and clock and the instant that
    /// the local time zone gives for it make: the given date where both
    /// are there, and `Error` where either is missing.
    pub fn date_from(reading: Option<CalendarTime>, secs: Option<i64>) -> (date: Date)
        ensures
            date == match (reading, secs) {
                (Some(calendar), Some(secs)) => Date::Given(LocalTime { calendar, secs }),
                _ => Date::Error,
            },
    {
        match (reading, secs) {
            (Some(calendar), Some(secs)) => Date::Given(LocalTime { calendar, secs }),
            _ => Date::Error,
        }
    }

    /// Resolves a date argument, given the time of day to add to a bare
    /// day.
    pub fn resolve_date(date: &str, clock: &str) -> (resolved: Date)
        requires
            has_prefix(date@, DATE@),
        ensures
            resolves_at(date@, clock@, resolved),
            calendar_reading(date_text(date_rest(date@), clock@), DATE_TIME_PATTERN@) is None
                && !means_now(date_rest(date@)) ==> resolved == Date::Error,
    {
        let marker: usize = DATE.unicode_len();
        let rest: String = text_after(date, marker);
        if Init::asks_for_now(rest.as_str()) {
            return Date::Now;
        }
        let mut text: String = rest;
        if text.as_str().unicode_len() == 10 {
            text.append(clock);
        }
        let reading: Option<CalendarTime> = read_calendar(text.as_str(), DATE_TIME_PATTERN);
        let secs: Option<i64> = match &reading {
            Some(calendar) => resolve_local(calendar),
            None => None,
        };
        Init::date_from(reading, secs)
    }

    /// Checking for an empty date: resolves a date argument. A bare day is
    /// completed by the current time of day.
    pub fn set_date(date: &str) -> (resolved: Date)
        requires
            has_prefix(date@, DATE@),
        ensures
            resolves(date@, resolved),
            date_rest(date@).len() != 10 && !means_now(date_rest(date@)) && calendar_reading(
                date_rest(date@),
                DATE_TIME_PATTERN@,
            ) is None ==> resolved == Date::Error,
    {
        let clock: String = clock_suffix();
        let resolved: Date = Init::resolve_date(date, clock.as_str());
        resolved
    }
}

/// A successful `get` has an address that is not empty, given arguments
/// that are not empty, and its date is never `Error`.
pub proof fn lemma_get_is_sound(parts: Seq<Seq<char>>, resolved: Date)
    requires
        forall|i: int| 0 <= i < parts.len() ==> (#[trigger] parts[i]).len() > 0,
        get_outcome(parts, resolved) is Some,
    ensures
        match get_outcome(parts, resolved) {
            Some((_, address, date)) => address.len() > 0 && date != Date::Error,
            None => false,
        },
{
    let led = has_prefix(parts[0], PROVIDER@);
    let dated = has_prefix(parts.last(), DATE@);
    let from: int = if led {
        1
    } else {
        0
    };
    let to: int = if dated {
        parts.len() - 1
    } else {
        parts.len() as int
    };
    let middle = parts.subrange(from, to);
    lemma_joined_not_empty(middle, " "@);
}

/// No arguments, and arguments that begin with `help`, ask for help
/// without an error; a first argument that is none of `help`, `configure`
/// and `get` is an error.
pub proof fn lemma_help(list: Seq<Seq<char>>, resolved: Date)
    ensures
        list.len() == 0 || list[0] == "help"@ ==> command_outcome(list, resolved)
            == (CommandView::Help { error: false }),
        list.len() > 0 && list[0] != "help"@ && list[0] != "configure"@ && list[0] != "get"@
            ==> command_outcome(list, resolved) == (CommandView::Help { error: true }),
{
}

/// `configure` alone lists the providers; followed by a name it
/// configures that provider, whatever else follows.
pub proof fn lemma_configure(list: Seq<Seq<char>>, resolved: Date)
    requires
        list.len() > 0,
        list[0] == "configure"@,
    ensures
        list.len() == 1 ==> command_outcome(list, resolved) == CommandView::List,
        list.len() >= 2 ==> command_outcome(list, resolved) == (CommandView::Configure {
            provider: list[1],
        }),
{
    reveal_strlit("configure");
    reveal_strlit("help");
    assert("configure"@.len() == 9);
}

} // verus!
