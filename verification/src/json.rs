//! A plain tree of JSON values and the lookups that the providers' payloads
//! are read with. Every lookup is total: a missing key, a wrong kind of
//! value or a number out of range gives `None`.

use vstd::prelude::*;
use crate::text::{chars_of, same_text};

verus! {

/// A double-precision number, held by its IEEE 754 bit pattern.
#[derive(Debug, Clone, Copy, PartialEq, Eq, Structural)]
pub struct Real {
    pub bits: u64,
}

/// The three readings of a JSON number: as a signed integer, as an
/// unsigned integer and as a double. A reading is absent where the number
/// has no exact value of that kind.
#[derive(Debug, Clone, Copy, PartialEq, Eq, Structural)]
pub struct JsonNumber {
    pub signed: Option<i64>,
    pub unsigned: Option<u64>,
    pub decimal: Option<Real>,
}

/// One key of a JSON object with its value.
#[derive(Debug)]
pub struct Member {
    pub key: String,
    pub value: Json,
}

/// A JSON value.
#[derive(Debug)]
pub enum Json {
    Null,
    Bool(bool),
    Number(JsonNumber),
    Text(String),
    List(Vec<Json>),
    Object(Vec<Member>),
}

/// The value of the first member of `members` whose key is `key`.
pub open spec fn find_member(members: Seq<Member>, key: Seq<char>) -> Option<Json>
    decreases members.len(),
{
    if members.len() == 0 {
        None
    } else if members[0].key@ == key {
        Some(members[0].value)
    } else {
        find_member(members.drop_first(), key)
    }
}

/// The value that an optional reference to a node stands for.
pub open spec fn node(found: Option<&Json>) -> Option<Json> {
    match found {
        Some(value) => Some(*value),
        None => None,
    }
}

impl Json {
    /// The member `key` of an object; `None` for any other value.
    pub open spec fn member(self, key: Seq<char>) -> Option<Json> {
        match self {
            Json::Object(members) => find_member(members@, key),
            _ => None,
        }
    }

    /// The element at `index` of a list; `None` for any other value.
    pub open spec fn element(self, index: int) -> Option<Json> {
        match self {
            Json::List(items) => if 0 <= index < items@.len() {
                Some(items@[index])
            } else {
                None
            },
            _ => None,
        }
    }

    /// The number as a signed integer.
    pub open spec fn signed(self) -> Option<i64> {
        match self {
            Json::Number(n) => n.signed,
            _ => None,
        }
    }

    /// The number as an unsigned integer.
    pub open spec fn unsigned(self) -> Option<u64> {
        match self {
            Json::Number(n) => n.unsigned,
            _ => None,
        }
    }

    /// The number as a double.
    pub open spec fn decimal(self) -> Option<Real> {
        match self {
            Json::Number(n) => n.decimal,
            _ => None,
        }
    }

    /// The characters of a string value.
    pub open spec fn text(self) -> Option<Seq<char>> {
        match self {
            Json::Text(s) => Some(s@),
            _ => None,
        }
    }

    /// The value of a boolean.
    pub open spec fn truth(self) -> Option<bool> {
        match self {
            Json::Bool(b) => Some(b),
            _ => None,
        }
    }

    /// Looks up the member `key` of an object.
    pub fn get(&self, key: &str) -> (found: Option<&Json>)
        ensures
            node(found) == self.member(key@),
    {
        match self {
            Json::Object(members) => {
                let n: usize = members.len();
                let mut i: usize = 0;
                assert(members@.subrange(0, n as int) =~= members@);
                while i < n
                    invariant
                        i <= n,
                        n == members@.len(),
                        self.member(key@) == find_member(members@, key@),
                        find_member(members@, key@) == find_member(
                            members@.subrange(i as int, n as int),
                            key@,
                        ),
                    decreases n - i,
                {
                    let ghost rest = members@.subrange(i as int, n as int);
                    assert(rest.drop_first() =~= members@.subrange(i + 1, n as int));
                    if same_text(members[i].key.as_str(), key) {
                        return Some(&members[i].value);
                    }
                    i = i + 1;
                }
                None
            },
            _ => None,
        }
    }

    /// Looks up the element at `index` of a list.
    pub fn at(&self, index: usize) -> (found: Option<&Json>)
        ensures
            node(found) == self.element(index as int),
    {
        match self {
            Json::List(items) => if index < items.len() {
                Some(&items[index])
            } else {
                None
            },
            _ => None,
        }
    }
}

/// The member `key` of a node that may be absent.
pub open spec fn child(parent: Option<Json>, key: Seq<char>) -> Option<Json> {
    match parent {
        Some(value) => value.member(key),
        None => None,
    }
}

/// The element at `index` of a node that may be absent.
pub open spec fn entry(parent: Option<Json>, index: int) -> Option<Json> {
    match parent {
        Some(value) => value.element(index),
        None => None,
    }
}

/// The signed reading of a node that may be absent.
pub open spec fn signed_of(found: Option<Json>) -> Option<i64> {
    match found {
        Some(value) => value.signed(),
        None => None,
    }
}

/// The unsigned reading of a node that may be absent.
pub open spec fn unsigned_of(found: Option<Json>) -> Option<u64> {
    match found {
        Some(value) => value.unsigned(),
        None => None,
    }
}

/// The double reading of a node that may be absent.
pub open spec fn decimal_of(found: Option<Json>) -> Option<Real> {
    match found {
        Some(value) => value.decimal(),
        None => None,
    }
}

/// The characters of a node that may be absent.
pub open spec fn text_of(found: Option<Json>) -> Option<Seq<char>> {
    match found {
        Some(value) => value.text(),
        None => None,
    }
}

/// The boolean of a node that may be absent.
pub open spec fn truth_of(found: Option<Json>) -> Option<bool> {
    match found {
        Some(value) => value.truth(),
        None => None,
    }
}

/// The unsigned reading of a node, cut down to its low 8 bits.
pub open spec fn low8_of(found: Option<Json>) -> Option<u8> {
    match unsigned_of(found) {
        Some(v) => Some((v % 0x100) as u8),
        None => None,
    }
}

/// The unsigned reading of a node, cut down to its low 16 bits.
pub open spec fn low16_of(found: Option<Json>) -> Option<u16> {
    match unsigned_of(found) {
        Some(v) => Some((v % 0x1_0000) as u16),
        None => None,
    }
}

/// The unsigned reading of a node, cut down to its low 32 bits.
pub open spec fn low32_of(found: Option<Json>) -> Option<u32> {
    match unsigned_of(found) {
        Some(v) => Some((v % 0x1_0000_0000) as u32),
        None => None,
    }
}

/// Whether the unsigned reading of a node is present, and whether it is 1.
pub open spec fn flag_of(found: Option<Json>) -> Option<bool> {
    match unsigned_of(found) {
        Some(v) => Some(v == 1),
        None => None,
    }
}

/// Steps from a node to its member `key`.
pub fn step<'a>(parent: Option<&'a Json>, key: &str) -> (found: Option<&'a Json>)
    ensures
        node(found) == child(node(parent), key@),
{
    match parent {
        Some(value) => value.get(key),
        None => None,
    }
}

/// Steps from a node to its element at `index`.
pub fn step_at<'a>(parent: Option<&'a Json>, index: usize) -> (found: Option<&'a Json>)
    ensures
        node(found) == entry(node(parent), index as int),
{
    match parent {
        Some(value) => value.at(index),
        None => None,
    }
}

/// Reads a node as a signed integer.
pub fn read_signed(found: Option<&Json>) -> (value: Option<i64>)
    ensures
        value == signed_of(node(found)),
{
    match found {
        Some(Json::Number(n)) => n.signed,
        _ => None,
    }
}

/// Reads a node as an unsigned integer.
pub fn read_unsigned(found: Option<&Json>) -> (value: Option<u64>)
    ensures
        value == unsigned_of(node(found)),
{
    match found {
        Some(Json::Number(n)) => n.unsigned,
        _ => None,
    }
}

/// Reads a node as a double.
pub fn read_decimal(found: Option<&Json>) -> (value: Option<Real>)
    ensures
        value == decimal_of(node(found)),
{
    match found {
        Some(Json::Number(n)) => n.decimal,
        _ => None,
    }
}

/// Reads a node as text.
pub fn read_text(found: Option<&Json>) -> (value: Option<String>)
    ensures
        chars_of(value) == text_of(node(found)),
{
    match found {
        Some(Json::Text(s)) => Some(s.clone()),
        _ => None,
    }
}

/// Reads a node as a boolean.
pub fn read_truth(found: Option<&Json>) -> (value: Option<bool>)
    ensures
        value == truth_of(node(found)),
{
    match found {
        Some(Json::Bool(b)) => Some(*b),
        _ => None,
    }
}

/// Reads a node as an unsigned integer and keeps its low 8 bits.
pub fn read_low8(found: Option<&Json>) -> (value: Option<u8>)
    ensures
        value == low8_of(node(found)),
{
    match read_unsigned(found) {
        Some(v) => Some((v % 0x100) as u8),
        None => None,
    }
}

/// Reads a node as an unsigned integer and keeps its low 16 bits.
pub fn read_low16(found: Option<&Json>) -> (value: Option<u16>)
    ensures
        value == low16_of(node(found)),
{
    match read_unsigned(found) {
        Some(v) => Some((v % 0x1_0000) as u16),
        None => None,
    }
}

/// Reads a node as an unsigned integer and keeps its low 32 bits.
pub fn read_low32(found: Option<&Json>) -> (value: Option<u32>)
    ensures
        value == low32_of(node(found)),
{
    match read_unsigned(found) {
        Some(v) => Some((v % 0x1_0000_0000) as u32),
        None => None,
    }
}

/// Reads a node as an unsigned integer and tells whether it is 1.
pub fn read_flag(found: Option<&Json>) -> (value: Option<bool>)
    ensures
        value == flag_of(node(found)),
{
    match read_unsigned(found) {
        Some(v) => Some(v == 1),
        None => None,
    }
}

/// The elements of a node that is a list, and none for any other node.
pub open spec fn list_of(found: Option<Json>) -> Seq<Json> {
    match found {
        Some(Json::List(items)) => items@,
        _ => Seq::empty(),
    }
}

/// Whether a node is a list.
pub open spec fn is_list(found: Option<Json>) -> bool {
    match found {
        Some(Json::List(_)) => true,
        _ => false,
    }
}

/// Whether a node is an object.
pub open spec fn is_object(found: Option<Json>) -> bool {
    match found {
        Some(Json::Object(_)) => true,
        _ => false,
    }
}

/// Reads a node as a list.
pub fn read_list<'a>(found: Option<&'a Json>) -> (items: Option<&'a Vec<Json>>)
    ensures
        items is Some == is_list(node(found)),
        items is Some ==> items->0@ == list_of(node(found)),
        items is None ==> list_of(node(found)).len() == 0,
{
    match found {
        Some(Json::List(items)) => Some(items),
        _ => None,
    }
}

/// Reads a node as an object: the node itself if it is one.
pub fn read_object<'a>(found: Option<&'a Json>) -> (object: Option<&'a Json>)
    ensures
        object is Some == is_object(node(found)),
        object is Some ==> node(object) == node(found),
{
    match found {
        Some(Json::Object(members)) => found,
        _ => None,
    }
}

/// The value that `serde_json::from_str` reads from `text`, copied node by
/// node; `None` where it reports an error.
pub uninterp spec fn json_document(text: Seq<char>) -> Option<Json>;

#[verifier::external_type_specification]
#[verifier::external_body]
pub struct ExValue(serde_json::Value);

#[verifier::external_type_specification]
#[verifier::external_body]
pub struct ExNumber(serde_json::Number);

/// Copies a `serde_json::Number` as what `Number::as_i64`,
/// `Number::as_u64` and `Number::as_f64` give for it, the last by its
/// bits.
#[verifier::external_body]
pub(crate) fn from_number(n: &serde_json::Number) -> (number: JsonNumber) {
    JsonNumber {
        signed: n.as_i64(),
        unsigned: n.as_u64(),
        decimal: n.as_f64().map(|x| Real { bits: x.to_bits() }),
    }
}

/// Copies one key of a `serde_json::Map` with its value.
#[verifier::external_body]
pub(crate) fn from_entry(entry: (String, serde_json::Value)) -> (member: Member) {
    Member { key: entry.0, value: from_value(entry.1) }
}

/// Copies a `serde_json::Value` node by node.
#[verifier::external_body]
pub(crate) fn from_value(value: serde_json::Value) -> (tree: Json) {
    match value {
        serde_json::Value::Null => Json::Null,
        serde_json::Value::Bool(b) => Json::Bool(b),
        serde_json::Value::Number(n) => Json::Number(from_number(&n)),
        serde_json::Value::String(s) => Json::Text(s),
        serde_json::Value::Array(a) => Json::List(a.into_iter().map(from_value).collect()),
        serde_json::Value::Object(m) => Json::Object(m.into_iter().map(from_entry).collect()),
    }
}

/// Calls `serde_json::from_str` for a `serde_json::Value`. The contract
/// only names the outcome: equal texts give equal documents.
#[verifier::external_body]
pub(crate) fn read_document(text: &str) -> (doc: Option<Json>)
    ensures
        doc == json_document(text@),
{
    match serde_json::from_str::<serde_json::Value>(text) {
        Ok(value) => Some(from_value(value)),
        Err(_) => None,
    }
}

/// Reads a text as a JSON document.
pub fn parse(text: &str) -> (doc: Option<Json>)
    ensures
        doc == json_document(text@),
{
    read_document(text)
}

/// The document of a text, if it is an object.
pub open spec fn object_document(text: Seq<char>) -> Option<Json> {
    if is_object(json_document(text)) {
        json_document(text)
    } else {
        None
    }
}

/// The document of a text, if it is a list.
pub open spec fn list_document(text: Seq<char>) -> Option<Json> {
    if is_list(json_document(text)) {
        json_document(text)
    } else {
        None
    }
}

/// Reads a text as a JSON document that must be an object.
pub fn parse_object(text: &str) -> (doc: Option<Json>)
    ensures
        doc == object_document(text@),
{
    match read_document(text) {
        Some(Json::Object(members)) => Some(Json::Object(members)),
        _ => None,
    }
}

/// Reads a text as a JSON document that must be a list.
pub fn parse_list(text: &str) -> (doc: Option<Json>)
    ensures
        doc == list_document(text@),
{
    match read_document(text) {
        Some(Json::List(items)) => Some(Json::List(items)),
        _ => None,
    }
}

} // verus!
