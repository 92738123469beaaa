//! The line that a provider's secrets are stored as: the provider's name
//! followed by a fixed number of fields, each led in by a colon. An empty
//! field stands for a secret that is not set.

use vstd::prelude::*;
use vstd::string::*;
use crate::text::{
    fields, first_sep, lemma_fields_cons, lemma_fields_not_empty, lemma_fields_single,
    lemma_first_sep, same_text, split_fields,
};

verus! {

/// The character between the fields of a stored line.
pub const FIELD_SEPARATOR: char = ':';

/// A secret can be stored if it is not empty and holds no separator.
pub open spec fn storable(secret: Seq<char>) -> bool {
    secret.len() > 0 && !secret.contains(FIELD_SEPARATOR)
}

/// The stored line of a provider with a single key.
pub open spec fn key_line(name: Seq<char>, key: Option<Seq<char>>) -> Seq<char> {
    match key {
        Some(k) => name + seq![FIELD_SEPARATOR] + k,
        None => name + seq![FIELD_SEPARATOR],
    }
}

/// The stored line of a provider with an identifier and a secret.
pub open spec fn pair_line(name: Seq<char>, pair: Option<(Seq<char>, Seq<char>)>) -> Seq<char> {
    match pair {
        Some((id, secret)) => name + seq![FIELD_SEPARATOR] + id + seq![FIELD_SEPARATOR] + secret,
        None => name + seq![FIELD_SEPARATOR] + seq![FIELD_SEPARATOR],
    }
}

/// What a line means to the provider `name` with a single key: `None` if
/// the line is not this provider's or has another number of fields than
/// two; otherwise the key, where an empty field means none is set.
pub open spec fn key_reading(name: Seq<char>, line: Seq<char>) -> Option<Option<Seq<char>>> {
    let parts = fields(line, FIELD_SEPARATOR);
    if parts.len() == 2 && parts[0] == name {
        if parts[1].len() == 0 {
            Some(None)
        } else {
            Some(Some(parts[1]))
        }
    } else {
        None
    }
}

/// What a line means to the provider `name` with an identifier and a
/// secret: `None` if the line is not this provider's, has another number
/// of fields than three, or sets only one of the two; otherwise the pair,
/// where two empty fields mean none is set.
pub open spec fn pair_reading(name: Seq<char>, line: Seq<char>) -> Option<
    Option<(Seq<char>, Seq<char>)>,
> {
    let parts = fields(line, FIELD_SEPARATOR);
    if parts.len() == 3 && parts[0] == name {
        if parts[1].len() == 0 && parts[2].len() == 0 {
            Some(None)
        } else if parts[1].len() > 0 && parts[2].len() > 0 {
            Some(Some((parts[1], parts[2])))
        } else {
            None
        }
    } else {
        None
    }
}

/// The texts of an optional pair of strings.
pub open spec fn pair_chars(pair: Option<(String, String)>) -> Option<(Seq<char>, Seq<char>)> {
    match pair {
        Some((id, secret)) => Some((id@, secret@)),
        None => None,
    }
}

/// The text of an optional key inside an optional reading.
pub open spec fn key_reading_chars(reading: Option<Option<String>>) -> Option<Option<Seq<char>>> {
    match reading {
        Some(Some(k)) => Some(Some(k@)),
        Some(None) => Some(None),
        None => None,
    }
}

/// The texts of an optional pair inside an optional reading.
pub open spec fn pair_reading_chars(reading: Option<Option<(String, String)>>) -> Option<
    Option<(Seq<char>, Seq<char>)>,
> {
    match reading {
        Some(Some((id, secret))) => Some(Some((id@, secret@))),
        Some(None) => Some(None),
        None => None,
    }
}

/// Writes the stored line of a provider with a single key.
pub fn write_key_line(name: &str, key: &Option<String>) -> (line: String)
    ensures
        line@ == key_line(name@, crate::text::chars_of(*key)),
{
    let mut line: String = String::from_str(name);
    line.append(":");
    proof {
        reveal_strlit(":");
    }
    match key {
        Some(k) => {
            line.append(k.as_str());
        },
        None => {},
    }
    line
}

/// Writes the stored line of a provider with an identifier and a secret.
pub fn write_pair_line(name: &str, pair: &Option<(String, String)>) -> (line: String)
    ensures
        line@ == pair_line(name@, pair_chars(*pair)),
{
    let mut line: String = String::from_str(name);
    proof {
        reveal_strlit(":");
    }
    line.append(":");
    match pair {
        Some((id, secret)) => {
            line.append(id.as_str());
            line.append(":");
            line.append(secret.as_str());
        },
        None => {
            line.append(":");
        },
    }
    line
}

/// Reads a stored line for the provider `name` with a single key.
pub fn read_key_line(name: &str, line: &str) -> (reading: Option<Option<String>>)
    ensures
        key_reading_chars(reading) == key_reading(name@, line@),
{
    let parts: Vec<String> = split_fields(line, FIELD_SEPARATOR);
    if parts.len() != 2 {
        return None;
    }
    if !same_text(parts[0].as_str(), name) {
        return None;
    }
    if parts[1].as_str().unicode_len() == 0 {
        Some(None)
    } else {
        Some(Some(parts[1].clone()))
    }
}

/// Reads a stored line for the provider `name` with an identifier and a
/// secret.
pub fn read_pair_line(name: &str, line: &str) -> (reading: Option<Option<(String, String)>>)
    ensures
        pair_reading_chars(reading) == pair_reading(name@, line@),
{
    let parts: Vec<String> = split_fields(line, FIELD_SEPARATOR);
    if parts.len() != 3 {
        return None;
    }
    if !same_text(parts[0].as_str(), name) {
        return None;
    }
    let id_empty: bool = parts[1].as_str().unicode_len() == 0;
    let secret_empty: bool = parts[2].as_str().unicode_len() == 0;
    if id_empty && secret_empty {
        Some(None)
    } else if !id_empty && !secret_empty {
        Some(Some((parts[1].clone(), parts[2].clone())))
    } else {
        None
    }
}

/// Reading the line written for a single key gives that key back, set or
/// not, provided that neither the name nor the key holds a separator and a
/// key that is set is not empty.
pub proof fn lemma_key_round_trip(name: Seq<char>, key: Option<Seq<char>>)
    requires
        !name.contains(FIELD_SEPARATOR),
        key is Some ==> storable(key->0),
    ensures
        key_reading(name, key_line(name, key)) == Some(key),
{
    let tail = match key {
        Some(k) => k,
        None => Seq::<char>::empty(),
    };
    lemma_fields_cons(name, FIELD_SEPARATOR, tail);
    lemma_fields_single(tail, FIELD_SEPARATOR);
}

/// Reading the line written for an identifier and a secret gives the pair
/// back, set or not, provided that none of the three texts holds a
/// separator and that, where the pair is set, neither part is empty.
pub proof fn lemma_pair_round_trip(name: Seq<char>, pair: Option<(Seq<char>, Seq<char>)>)
    requires
        !name.contains(FIELD_SEPARATOR),
        match pair {
            Some((id, secret)) => storable(id) && storable(secret),
            None => true,
        },
    ensures
        pair_reading(name, pair_line(name, pair)) == Some(pair),
{
    let (id, secret) = match pair {
        Some((id, secret)) => (id, secret),
        None => (Seq::<char>::empty(), Seq::<char>::empty()),
    };
    let rest = id + seq![FIELD_SEPARATOR] + secret;
    assert(pair_line(name, pair) =~= name + seq![FIELD_SEPARATOR] + rest);
    lemma_fields_cons(name, FIELD_SEPARATOR, rest);
    lemma_fields_cons(id, FIELD_SEPARATOR, secret);
    lemma_fields_single(secret, FIELD_SEPARATOR);
}

/// A line is read by at most the provider that it names: a provider with
/// another name rejects it.
pub proof fn lemma_other_name_rejected(name: Seq<char>, other: Seq<char>, line: Seq<char>)
    requires
        name != other,
        key_reading(name, line) is Some || pair_reading(name, line) is Some,
    ensures
        key_reading(other, line) is None,
        pair_reading(other, line) is None,
{
}

/// A text that falls into two fields is the first, a separator and the
/// second.
pub proof fn lemma_two_fields(line: Seq<char>, sep: char)
    requires
        fields(line, sep).len() == 2,
    ensures
        line == fields(line, sep)[0] + seq![sep] + fields(line, sep)[1],
{
    lemma_first_sep(line, sep);
    let cut = first_sep(line, sep);
    let rest = line.subrange(cut + 1, line.len() as int);
    lemma_first_sep(rest, sep);
    let next = first_sep(rest, sep);
    if next < rest.len() {
        lemma_fields_not_empty(rest.subrange(next + 1, rest.len() as int), sep);
    }
    assert(fields(rest, sep) == seq![rest]);
}

/// A text that falls into three fields is the three with a separator
/// between each two.
pub proof fn lemma_three_fields(line: Seq<char>, sep: char)
    requires
        fields(line, sep).len() == 3,
    ensures
        line == fields(line, sep)[0] + seq![sep] + fields(line, sep)[1] + seq![sep] + fields(
            line,
            sep,
        )[2],
{
    lemma_first_sep(line, sep);
    let cut = first_sep(line, sep);
    let rest = line.subrange(cut + 1, line.len() as int);
    lemma_two_fields(rest, sep);
    assert(line =~= line.subrange(0, cut) + seq![sep] + rest);
    assert(line =~= line.subrange(0, cut) + seq![sep] + fields(rest, sep)[0] + seq![sep] + fields(
        rest,
        sep,
    )[1]);
}

/// A line that is accepted for a single key is the line that is written
/// for the key it reads.
pub proof fn lemma_key_line_of_reading(name: Seq<char>, line: Seq<char>)
    requires
        key_reading(name, line) is Some,
    ensures
        key_line(name, key_reading(name, line)->0) == line,
{
    lemma_two_fields(line, FIELD_SEPARATOR);
    let parts = fields(line, FIELD_SEPARATOR);
}

/// A line that is accepted for an identifier and a secret is the line that
/// is written for the pair it reads.
pub proof fn lemma_pair_line_of_reading(name: Seq<char>, line: Seq<char>)
    requires
        pair_reading(name, line) is Some,
    ensures
        pair_line(name, pair_reading(name, line)->0) == line,
{
    lemma_three_fields(line, FIELD_SEPARATOR);
    let parts = fields(line, FIELD_SEPARATOR);
    if parts[1].len() == 0 {
        assert(name + seq![FIELD_SEPARATOR] + parts[1] + seq![FIELD_SEPARATOR] + parts[2] =~= name
            + seq![FIELD_SEPARATOR] + seq![FIELD_SEPARATOR]);
    }
}

} // verus!
