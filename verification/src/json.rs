//! JSON documents as the library reads and writes them.
//!
//! Merchants and buyers hand the program text that is JSON by convention.
//! The text is parsed and printed by `serde_json`; what the program decides
//! from a document it decides here, on a tree of its own.

use vstd::prelude::*;
use vstd::utf8::{encode_utf8, encode_utf8_decode_utf8};

verus! {

/// A JSON document.
#[derive(Debug, PartialEq)]
pub enum Json {
    Null,
    Bool(bool),
    /// A whole number that is not negative.
    Unsigned(u64),
    /// A whole number below zero.
    Negative(i64),
    /// Any other number, in the digits that `serde_json` prints for it.
    Decimal(String),
    Text(String),
    Array(Vec<Json>),
    /// The members of an object, each a key and a value.
    Object(Vec<(String, Json)>),
}

/// What a JSON document says.
pub enum JsonValue {
    Null,
    Bool(bool),
    Unsigned(u64),
    Negative(i64),
    Decimal(Seq<char>),
    Text(Seq<char>),
    Array(Seq<JsonValue>),
    Object(Seq<(Seq<char>, JsonValue)>),
}

/// The value of the first member with the given key, if there is one.
pub open spec fn member_of(members: Seq<(Seq<char>, JsonValue)>, key: Seq<char>) -> Option<
    JsonValue,
>
    decreases members.len(),
{
    if members.len() == 0 {
        None
    } else if members[0].0 == key {
        Some(members[0].1)
    } else {
        member_of(members.drop_first(), key)
    }
}

impl JsonValue {
    /// The value under `key`, where this is an object that has such a member.
    pub open spec fn member(self, key: Seq<char>) -> Option<JsonValue> {
        match self {
            JsonValue::Object(members) => member_of(members, key),
            _ => None,
        }
    }

    /// The number, where this is a whole number that is not negative.
    pub open spec fn unsigned(self) -> Option<u64> {
        match self {
            JsonValue::Unsigned(n) => Some(n),
            _ => None,
        }
    }

    /// The string, where this is one.
    pub open spec fn text(self) -> Option<Seq<char>> {
        match self {
            JsonValue::Text(t) => Some(t),
            _ => None,
        }
    }

    /// The elements, where this is an array.
    pub open spec fn elements(self) -> Option<Seq<JsonValue>> {
        match self {
            JsonValue::Array(items) => Some(items),
            _ => None,
        }
    }

    /// The members, where this is an object.
    pub open spec fn members(self) -> Option<Seq<(Seq<char>, JsonValue)>> {
        match self {
            JsonValue::Object(members) => Some(members),
            _ => None,
        }
    }
}

impl View for Json {
    type V = JsonValue;

    open spec fn view(&self) -> JsonValue {
        self.value()
    }
}

impl Json {
    /// What the document says.
    pub open spec fn value(&self) -> JsonValue
        decreases self,
    {
        match self {
            Json::Null => JsonValue::Null,
            Json::Bool(flag) => JsonValue::Bool(*flag),
            Json::Unsigned(n) => JsonValue::Unsigned(*n),
            Json::Negative(n) => JsonValue::Negative(*n),
            Json::Decimal(digits) => JsonValue::Decimal(digits@),
            Json::Text(text) => JsonValue::Text(text@),
            Json::Array(items) => JsonValue::Array(
                Seq::new(
                    items@.len(),
                    |i: int|
                        if 0 <= i < items@.len() {
                            items@[i].value()
                        } else {
                            JsonValue::Null
                        },
                ),
            ),
            Json::Object(members) => JsonValue::Object(
                Seq::new(
                    members@.len(),
                    |i: int|
                        if 0 <= i < members@.len() {
                            (members@[i].0@, members@[i].1.value())
                        } else {
                            (Seq::empty(), JsonValue::Null)
                        },
                ),
            ),
        }
    }
}

/// What the elements of an array say.
pub open spec fn elements_view(items: Seq<Json>) -> Seq<JsonValue> {
    Seq::new(items.len(), |i: int| items[i]@)
}

/// What the members of an object say.
pub open spec fn members_view(members: Seq<(String, Json)>) -> Seq<(Seq<char>, JsonValue)> {
    Seq::new(members.len(), |i: int| (members[i].0@, members[i].1@))
}

/// An array says what its elements say.
pub proof fn lemma_array_view(items: Vec<Json>)
    ensures
        Json::Array(items)@ == JsonValue::Array(elements_view(items@)),
{
    assert(Json::Array(items)@.elements().unwrap() =~= elements_view(items@));
}

/// An object says what its members say.
pub proof fn lemma_object_view(members: Vec<(String, Json)>)
    ensures
        Json::Object(members)@ == JsonValue::Object(members_view(members@)),
{
    assert(Json::Object(members)@.members().unwrap() =~= members_view(members@));
}

/// Whether two strings are the same text.
pub fn same_text(a: &str, b: &str) -> (same: bool)
    ensures
        same == (a@ == b@),
{
    let left = a.as_bytes();
    let right = b.as_bytes();
    proof {
        encode_utf8_decode_utf8(a@);
        encode_utf8_decode_utf8(b@);
    }
    assert(left@ == encode_utf8(a@));
    assert(right@ == encode_utf8(b@));
    if left.len() != right.len() {
        return false;
    }
    let mut i: usize = 0;
    while i < left.len()
        invariant
            i <= left@.len(),
            left@.len() == right@.len(),
            left@ == encode_utf8(a@),
            right@ == encode_utf8(b@),
            forall|k: int| 0 <= k < i ==> left@[k] == right@[k],
        decreases left@.len() - i,
    {
        if left[i] != right[i] {
            assert(left@[i as int] != right@[i as int]);
            return false;
        }
        i += 1;
    }
    assert(left@ =~= right@);
    true
}

impl Json {
    /// The value under `key`, where this is an object that has such a member.
    /// Of several members with one key the first counts.
    pub fn member(&self, key: &str) -> (found: Option<&Json>)
        ensures
            match found {
                Some(value) => self@.member(key@) == Some(value@),
                None => self@.member(key@).is_none(),
            },
    {
        match self {
            Json::Object(members) => {
                let ghost all = self@.members().unwrap();
                let mut i: usize = 0;
                assert(all.skip(0) =~= all);
                while i < members.len()
                    invariant
                        i <= members@.len(),
                        self@ == JsonValue::Object(all),
                        all.len() == members@.len(),
                        forall|k: int|
                            0 <= k < all.len() ==> #[trigger] all[k] == (
                                members@[k].0@,
                                members@[k].1@,
                            ),
                        member_of(all, key@) == member_of(all.skip(i as int), key@),
                    decreases members@.len() - i,
                {
                    proof {
                        assert(all.skip(i as int)[0] == all[i as int]);
                        assert(all.skip(i as int).drop_first() =~= all.skip(i + 1));
                    }
                    if same_text(members[i].0.as_str(), key) {
                        return Some(&members[i].1);
                    }
                    i += 1;
                }
                None
            },
            _ => None,
        }
    }

    /// The number, where this is a whole number that is not negative.
    pub fn as_unsigned(&self) -> (number: Option<u64>)
        ensures
            number == self@.unsigned(),
    {
        match self {
            Json::Unsigned(n) => Some(*n),
            _ => None,
        }
    }

    /// The string, where this is one.
    pub fn as_text(&self) -> (text: Option<&String>)
        ensures
            match text {
                Some(t) => self@.text() == Some(t@),
                None => self@.text().is_none(),
            },
    {
        match self {
            Json::Text(t) => Some(t),
            _ => None,
        }
    }

    /// The elements, where this is an array.
    pub fn as_elements(&self) -> (items: Option<&Vec<Json>>)
        ensures
            match items {
                Some(list) => self@.elements() == Some(elements_view(list@)),
                None => self@.elements().is_none(),
            },
    {
        match self {
            Json::Array(items) => {
                proof {
                    lemma_array_view(*items);
                }
                Some(items)
            },
            _ => None,
        }
    }
}

// ---------------------------------------------------------------------------
// Text to document and back
// ---------------------------------------------------------------------------

/// `serde_json::Value`, carried through as it is: nothing is known of what
/// is inside.
#[verifier::external_type_specification]
#[verifier::external_body]
pub struct ExValue(serde_json::Value);

/// `serde_json::Number`, carried through as it is: nothing is known of what
/// is inside.
#[verifier::external_type_specification]
#[verifier::external_body]
pub struct ExNumber(serde_json::Number);

/// The document that a text spells, as `serde_json` reads it, or `None`
/// where the text is not JSON.
pub uninterp spec fn parsed_json(text: Seq<char>) -> Option<JsonValue>;

/// The text that `serde_json` prints for a document.
pub uninterp spec fn printed_json(document: JsonValue) -> Seq<char>;

/// Tells the three kinds of `serde_json::Number` apart with its `as_u64` and
/// `as_i64`, and keeps of any other number what its `to_string` prints.
#[verifier::external_body]
fn json_from_number(number: &serde_json::Number) -> Json {
    match (number.as_u64(), number.as_i64()) {
        (Some(unsigned), _) => Json::Unsigned(unsigned),
        (None, Some(negative)) => Json::Negative(negative),
        (None, None) => Json::Decimal(number.to_string()),
    }
}

/// Copies a `serde_json::Value` into a document, variant by variant. The
/// members of an object come in the order in which its map hands them out.
#[verifier::external_body]
fn json_from_value(value: &serde_json::Value) -> Json {
    match value {
        serde_json::Value::Null => Json::Null,
        serde_json::Value::Bool(flag) => Json::Bool(*flag),
        serde_json::Value::Number(number) => json_from_number(number),
        serde_json::Value::String(text) => Json::Text(text.clone()),
        serde_json::Value::Array(items) => Json::Array(items.iter().map(json_from_value).collect()),
        serde_json::Value::Object(members) => Json::Object(
            members.iter().map(|(key, member)| (key.clone(), json_from_value(member))).collect(),
        ),
    }
}

/// Copies a document into a `serde_json::Value`, variant by variant. Digits
/// that `serde_json` does not read as a number become `null`.
#[verifier::external_body]
fn value_from_json(document: &Json) -> serde_json::Value {
    match document {
        Json::Null => serde_json::Value::Null,
        Json::Bool(flag) => serde_json::Value::Bool(*flag),
        Json::Unsigned(number) => serde_json::Value::from(*number),
        Json::Negative(number) => serde_json::Value::from(*number),
        Json::Decimal(digits) => digits.parse::<serde_json::Number>().map_or(
            serde_json::Value::Null,
            serde_json::Value::Number,
        ),
        Json::Text(text) => serde_json::Value::String(text.clone()),
        Json::Array(items) => serde_json::Value::Array(items.iter().map(value_from_json).collect()),
        Json::Object(members) => serde_json::Value::Object(
            members.iter().map(|(key, member)| (key.clone(), value_from_json(member))).collect(),
        ),
    }
}

/// Calls `serde_json::from_str` for a `serde_json::Value`. Whether the text
/// is JSON, and which document it spells, depends on the text alone; the
/// contract gives the outcome the name [`parsed_json`] and adds nothing about
/// its value.
#[verifier::external_body]
pub(crate) fn parse_json(text: &str) -> (document: Option<Json>)
    ensures
        match document {
            Some(json) => parsed_json(text@) == Some(json@),
            None => parsed_json(text@).is_none(),
        },
{
    serde_json::from_str::<serde_json::Value>(text).ok().map(|value| json_from_value(&value))
}

/// Calls `to_string` on a `serde_json::Value`, which prints the document on
/// one line. The text depends on the document alone; the contract gives it
/// the name [`printed_json`] and adds nothing about its value.
#[verifier::external_body]
pub(crate) fn print_json(document: &Json) -> (text: String)
    ensures
        text@ == printed_json(document@),
{
    value_from_json(document).to_string()
}

} // verus!
