//! JSON documents as plain values, and the lookups the response parser makes
//! in them.

use vstd::prelude::*;
use crate::text::{same_text, texts};

verus! {

/// A JSON document.
///
/// A number is held as text, an object as its members in order. Looking a
/// key up in an object finds the first member of that name.
#[derive(Debug, PartialEq, Eq)]
pub enum JsonValue {
    Null,
    Bool(bool),
    Number(String),
    String(String),
    Array(Vec<JsonValue>),
    Object(Vec<(String, JsonValue)>),
}

/// The mathematical value of a [`JsonValue`].
pub enum Json {
    Null,
    Bool(bool),
    Number(Seq<char>),
    String(Seq<char>),
    Array(Seq<Json>),
    Object(Seq<(Seq<char>, Json)>),
}

impl View for JsonValue {
    type V = Json;

    open spec fn view(&self) -> Json
        decreases self,
    {
        match self {
            JsonValue::Null => Json::Null,
            JsonValue::Bool(b) => Json::Bool(*b),
            JsonValue::Number(text) => Json::Number(text@),
            JsonValue::String(text) => Json::String(text@),
            JsonValue::Array(items) => Json::Array(
                Seq::new(
                    items.len() as nat,
                    |i: int|
                        if 0 <= i < items.len() {
                            items[i].view()
                        } else {
                            Json::Null
                        },
                ),
            ),
            JsonValue::Object(members) => Json::Object(
                Seq::new(
                    members.len() as nat,
                    |i: int|
                        (
                            members[i].0@,
                            if 0 <= i < members.len() {
                                members[i].1.view()
                            } else {
                                Json::Null
                            },
                        ),
                ),
            ),
        }
    }
}

/// `serde_json::Value`, of which verified code sees nothing but that it is
/// handed from the reader to the conversion.
#[verifier::external_type_specification]
#[verifier::external_body]
pub struct ExValue(serde_json::Value);

/// The document that `serde_json::from_str` reads from `text`, and `None`
/// where it rejects `text`.
pub uninterp spec fn json_document(text: Seq<char>) -> Option<Json>;

/// The document that a `serde_json::Value` holds.
pub uninterp spec fn value_document(value: serde_json::Value) -> Json;

/// Calls `serde_json::from_str` for a `serde_json::Value`. Believed of it:
/// whether it accepts `text`, and the document it reads, depend on `text`
/// alone. What that document is for a given text is not stated.
#[verifier::external_body]
fn read_value(text: &str) -> (read: Option<serde_json::Value>)
    ensures
        match read {
            Some(value) => json_document(text@) == Some(value_document(value)),
            None => json_document(text@) is None,
        },
{
    match serde_json::from_str::<serde_json::Value>(text) {
        Ok(value) => Some(value),
        Err(_) => None,
    }
}

/// Turns a `serde_json::Value` into a [`JsonValue`], variant by variant: a
/// number becomes the text `serde_json` displays it with, an object its
/// members in the order its map hands them out. Believed of it: the result
/// holds the document that `value` holds.
#[verifier::external_body]
fn lower(value: serde_json::Value) -> (doc: JsonValue)
    ensures
        doc@ == value_document(value),
{
    match value {
        serde_json::Value::Null => JsonValue::Null,
        serde_json::Value::Bool(flag) => JsonValue::Bool(flag),
        serde_json::Value::Number(number) => JsonValue::Number(number.to_string()),
        serde_json::Value::String(text) => JsonValue::String(text),
        serde_json::Value::Array(items) => JsonValue::Array(items.into_iter().map(lower).collect()),
        serde_json::Value::Object(members) => JsonValue::Object(
            members.into_iter().map(|(name, inner)| (name, lower(inner))).collect(),
        ),
    }
}

/// The index of the first member at or after `from` that is named `key`, or
/// the number of members where there is none.
pub open spec fn member_index(members: Seq<(Seq<char>, Json)>, key: Seq<char>, from: int) -> int
    decreases members.len() - from,
{
    if 0 <= from < members.len() {
        if members[from].0 == key {
            from
        } else {
            member_index(members, key, from + 1)
        }
    } else {
        members.len() as int
    }
}

/// The member of `doc` named `key`: the first of that name where `doc` is an
/// object that has one, and none otherwise.
pub open spec fn member(doc: Json, key: Seq<char>) -> Option<Json> {
    match doc {
        Json::Object(members) => {
            let at = member_index(members, key, 0);
            if at < members.len() {
                Some(members[at].1)
            } else {
                None
            }
        },
        _ => None,
    }
}

/// The value reached from `doc` by looking up each of `keys` in turn.
pub open spec fn descend(doc: Json, keys: Seq<Seq<char>>) -> Option<Json>
    decreases keys.len(),
{
    if keys.len() == 0 {
        Some(doc)
    } else {
        match member(doc, keys[0]) {
            Some(inner) => descend(inner, keys.skip(1)),
            None => None,
        }
    }
}

/// The text of `doc` where it is a string.
pub open spec fn string_text(doc: Json) -> Option<Seq<char>> {
    match doc {
        Json::String(text) => Some(text),
        _ => None,
    }
}

impl JsonValue {
    /// Reads `text` as a JSON document; `None` where it is none.
    pub fn parse(text: &str) -> (doc: Option<JsonValue>)
        ensures
            match doc {
                Some(read) => json_document(text@) == Some(read@),
                None => json_document(text@) is None,
            },
    {
        match read_value(text) {
            Some(value) => Some(lower(value)),
            None => None,
        }
    }

    /// The member named `key`, as `serde_json::Value::get` finds it by a
    /// string: the first member of that name where `self` is an object that
    /// has one.
    pub fn get(&self, key: &str) -> (found: Option<&JsonValue>)
        ensures
            match found {
                Some(inner) => member(self@, key@) == Some(inner@),
                None => member(self@, key@) is None,
            },
    {
        match self {
            JsonValue::Object(members) => {
                let mut at: usize = 0;
                let ghost m = self@->Object_0;
                while at < members.len()
                    invariant
                        at <= members.len(),
                        self@ == Json::Object(m),
                        m.len() == members.len(),
                        member_index(m, key@, 0) == member_index(m, key@, at as int),
                        forall|i: int|
                            0 <= i < members.len() ==> m[i] == (members[i].0@, members[i].1@),
                    decreases members.len() - at,
                {
                    if same_text(members[at].0.as_str(), key) {
                        return Some(&members[at].1);
                    }
                    at = at + 1;
                }
                None
            },
            _ => None,
        }
    }

    /// The text of a string, as `serde_json::Value::as_str` gives it.
    pub fn as_str(&self) -> (text: Option<&str>)
        ensures
            match text {
                Some(t) => string_text(self@) == Some(t@),
                None => string_text(self@) is None,
            },
    {
        match self {
            JsonValue::String(text) => Some(text.as_str()),
            _ => None,
        }
    }

    /// The value reached by looking up each of `keys` in turn, starting at
    /// `self`.
    pub fn descend(&self, keys: &Vec<String>) -> (found: Option<&JsonValue>)
        ensures
            match found {
                Some(inner) => descend(self@, texts(keys@)) == Some(inner@),
                None => descend(self@, texts(keys@)) is None,
            },
    {
        let mut current: &JsonValue = self;
        let mut done: usize = 0;
        assert(texts(keys@).skip(0) =~= texts(keys@));
        while done < keys.len()
            invariant
                done <= keys.len(),
                descend(self@, texts(keys@)) == descend(current@, texts(keys@).skip(done as int)),
            decreases keys.len() - done,
        {
            assert(texts(keys@).skip(done as int)[0] == keys[done as int]@);
            assert(texts(keys@).skip(done as int).skip(1) == texts(keys@).skip(done + 1));
            match current.get(keys[done].as_str()) {
                Some(inner) => {
                    current = inner;
                },
                None => {
                    return None;
                },
            }
            done = done + 1;
        }
        Some(current)
    }
}

} // verus!
