//! JSON documents as a tree of plain values. The text is parsed by
//! `serde_json`; what it makes of a text is named here, not restated.

use crate::text::{chars_of, same_chars};
use vstd::prelude::*;

verus! {

/// A JSON value.
#[derive(Debug, PartialEq, Eq)]
pub enum Json {
    Null,
    Bool(bool),
    /// A number, with its value where it is a whole number within `i64`.
    Number(Option<i64>),
    Text(Vec<char>),
    Array(Vec<Json>),
    /// The members in the order in which the parser keeps them, each name
    /// once.
    Object(Vec<(Vec<char>, Json)>),
}

/// `serde_json::Value`, a parsed document, carried as an opaque value.
#[verifier::external_type_specification]
#[verifier::external_body]
pub struct ExJsonValue(serde_json::Value);

/// `serde_json::Error`, the reason why a text was not parsed, carried as an
/// opaque value.
#[verifier::external_type_specification]
#[verifier::external_body]
pub struct ExJsonError(serde_json::Error);

/// The document that `serde_json::from_str` reads from `text`, or nothing
/// where it reports an error.
pub uninterp spec fn json_document(text: Seq<char>) -> Option<Json>;

/// What a `serde_json::Value` holds.
pub uninterp spec fn json_content(value: serde_json::Value) -> Json;

/// Calls `serde_json::from_str` for a `serde_json::Value`. The claim: whether
/// it succeeds, and what the value holds if it does, is [`json_document`] of
/// the text, a function of the text alone.
#[verifier::external_body]
fn json_from_text(text: &str) -> (r: Result<serde_json::Value, serde_json::Error>)
    ensures
        r is Ok <==> json_document(text@) is Some,
        r matches Ok(value) ==> json_document(text@) == Some(json_content(value)),
{
    serde_json::from_str::<serde_json::Value>(text)
}

/// Copies a `serde_json::Value` into a [`Json`], variant by variant: a number
/// by `Number::as_i64`, an object's members as `Map::iter` yields them. The
/// claim: the copy is what [`json_content`] names.
#[verifier::external_body]
fn json_from_value(value: &serde_json::Value) -> (r: Json)
    ensures
        r == json_content(*value),
{
    match value {
        serde_json::Value::Null => Json::Null,
        serde_json::Value::Bool(b) => Json::Bool(*b),
        serde_json::Value::Number(n) => Json::Number(n.as_i64()),
        serde_json::Value::String(s) => Json::Text(s.chars().collect()),
        serde_json::Value::Array(items) => Json::Array(items.iter().map(json_from_value).collect()),
        serde_json::Value::Object(members) => Json::Object(
            members.iter().map(|(k, v)| (k.chars().collect(), json_from_value(v))).collect(),
        ),
    }
}

/// Reads `text` as a JSON document.
pub fn parse_json(text: &str) -> (r: Option<Json>)
    ensures
        r == json_document(text@),
{
    match json_from_text(text) {
        Ok(value) => Some(json_from_value(&value)),
        Err(_) => None,
    }
}

/// The value of the first of `members` that is named `name`.
pub open spec fn first_named(members: Seq<(Vec<char>, Json)>, name: Seq<char>) -> Option<Json>
    decreases members.len(),
{
    if members.len() == 0 {
        None
    } else if members[0].0@ == name {
        Some(members[0].1)
    } else {
        first_named(members.drop_first(), name)
    }
}

impl Json {
    /// The member `name` of an object; nothing for a value that is no object
    /// or has no such member.
    pub open spec fn member(self, name: Seq<char>) -> Option<Json> {
        match self {
            Json::Object(members) => first_named(members@, name),
            _ => None,
        }
    }

    /// The member reached from `self` by descending through the objects named
    /// by `path` in turn.
    pub open spec fn descend(self, path: Seq<Seq<char>>) -> Option<Json>
        decreases path.len(),
    {
        if path.len() == 0 {
            Some(self)
        } else {
            match self.descend(path.drop_last()) {
                Some(inner) => inner.member(path.last()),
                None => None,
            }
        }
    }

    /// The items of an array.
    pub open spec fn items(self) -> Option<Seq<Json>> {
        match self {
            Json::Array(items) => Some(items@),
            _ => None,
        }
    }

    /// The characters of a string.
    pub open spec fn text(self) -> Option<Seq<char>> {
        match self {
            Json::Text(chars) => Some(chars@),
            _ => None,
        }
    }

    /// The value of a whole number within `i64`.
    pub open spec fn integer(self) -> Option<i64> {
        match self {
            Json::Number(Some(n)) => Some(n),
            _ => None,
        }
    }

    /// The member `name` of an object.
    pub fn get(&self, name: &str) -> (r: Option<&Json>)
        ensures
            match r {
                Some(found) => self.member(name@) == Some(*found),
                None => self.member(name@) is None,
            },
    {
        match self {
            Json::Object(members) => {
                let wanted = chars_of(name);
                let mut i: usize = 0;
                assert(members@.skip(0) =~= members@);
                while i < members.len()
                    invariant
                        i <= members.len(),
                        wanted@ == name@,
                        *self == Json::Object(*members),
                        first_named(members@, name@) == first_named(members@.skip(i as int), name@),
                    decreases members.len() - i,
                {
                    assert(members@.skip(i as int).drop_first() =~= members@.skip(i + 1));
                    assert(members@.skip(i as int)[0] == members@[i as int]);
                    if same_chars(members[i].0.as_slice(), wanted.as_slice()) {
                        return Some(&members[i].1);
                    }
                    i += 1;
                }
                None
            },
            _ => None,
        }
    }

    /// The items of an array.
    pub fn as_array(&self) -> (r: Option<&Vec<Json>>)
        ensures
            match r {
                Some(items) => self.items() == Some(items@),
                None => self.items() is None,
            },
    {
        match self {
            Json::Array(items) => Some(items),
            _ => None,
        }
    }

    /// The characters of a string.
    pub fn as_text(&self) -> (r: Option<&Vec<char>>)
        ensures
            match r {
                Some(chars) => self.text() == Some(chars@),
                None => self.text() is None,
            },
    {
        match self {
            Json::Text(chars) => Some(chars),
            _ => None,
        }
    }

    /// The value of a whole number within `i64`.
    pub fn as_i64(&self) -> (r: Option<i64>)
        ensures
            r == self.integer(),
    {
        match self {
            Json::Number(Some(n)) => Some(*n),
            _ => None,
        }
    }
}

} // verus!
