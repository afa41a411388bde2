//! The JSON that the workflow reads: objects whose members it looks up by
//! name. Parsing is `serde_json`'s; the lookups are the library's.

use vstd::prelude::*;
use vstd::string::*;

use crate::encoding::str_eq;

verus! {

/// A member's value, as far as the workflow reads it: strings and truth
/// values with what they hold, the other kinds by kind alone.
#[derive(Clone, Debug, PartialEq, Eq)]
pub enum JsonField {
    Null,
    Flag(bool),
    Number,
    Text(String),
    Array,
    Object,
}

/// `JsonField` by the plain values that it holds.
pub enum JsonFieldView {
    Null,
    Flag(bool),
    Number,
    Text(Seq<char>),
    Array,
    Object,
}

impl View for JsonField {
    type V = JsonFieldView;

    open spec fn view(&self) -> JsonFieldView {
        match self {
            JsonField::Null => JsonFieldView::Null,
            JsonField::Flag(b) => JsonFieldView::Flag(*b),
            JsonField::Number => JsonFieldView::Number,
            JsonField::Text(s) => JsonFieldView::Text(s@),
            JsonField::Array => JsonFieldView::Array,
            JsonField::Object => JsonFieldView::Object,
        }
    }
}

impl DeepView for JsonField {
    type V = JsonFieldView;

    open spec fn deep_view(&self) -> JsonFieldView {
        self@
    }
}

/// The members of a JSON object, name and value.
pub type JsonMembers = Seq<(Seq<char>, JsonFieldView)>;

/// The members of the JSON object that `serde_json::from_slice` reads from
/// the bytes; `None` where the bytes are no JSON text or the text is no
/// object.
pub uninterp spec fn json_object_of(bytes: Seq<u8>) -> Option<JsonMembers>;

/// The objects of the JSON array that `serde_json::from_slice` reads from the
/// bytes; `None` where the bytes are no JSON text, the text is no array, or
/// an element is no object.
pub uninterp spec fn json_object_list_of(bytes: Seq<u8>) -> Option<Seq<JsonMembers>>;

/// `serde_json::from_slice` at the type of a JSON object. Each member is
/// handed out with its name; a string or truth value with its content.
#[verifier::external_body]
pub(crate) fn parse_object(bytes: &[u8]) -> (members: Option<Vec<(String, JsonField)>>)
    ensures
        members.deep_view() == json_object_of(bytes@),
{
    let map = serde_json::from_slice::<serde_json::Map<String, serde_json::Value>>(bytes).ok()?;
    Some(map.into_iter().map(|(name, value)| (name, match value {
        serde_json::Value::Null => JsonField::Null,
        serde_json::Value::Bool(b) => JsonField::Flag(b),
        serde_json::Value::Number(_) => JsonField::Number,
        serde_json::Value::String(s) => JsonField::Text(s),
        serde_json::Value::Array(_) => JsonField::Array,
        serde_json::Value::Object(_) => JsonField::Object,
    })).collect())
}

/// `serde_json::from_slice` at the type of a list of JSON objects.
#[verifier::external_body]
pub(crate) fn parse_object_list(bytes: &[u8]) -> (list: Option<Vec<Vec<(String, JsonField)>>>)
    ensures
        list.deep_view() == json_object_list_of(bytes@),
{
    let maps =
        serde_json::from_slice::<Vec<serde_json::Map<String, serde_json::Value>>>(bytes).ok()?;
    Some(maps.into_iter().map(|map| map.into_iter().map(|(name, value)| (name, match value {
        serde_json::Value::Null => JsonField::Null,
        serde_json::Value::Bool(b) => JsonField::Flag(b),
        serde_json::Value::Number(_) => JsonField::Number,
        serde_json::Value::String(s) => JsonField::Text(s),
        serde_json::Value::Array(_) => JsonField::Array,
        serde_json::Value::Object(_) => JsonField::Object,
    })).collect()).collect())
}

/// The names of the members, in their order.
pub open spec fn member_names(members: JsonMembers) -> Seq<Seq<char>> {
    Seq::new(members.len(), |i: int| members[i].0)
}

/// The value of the first member with this name.
pub open spec fn spec_member(members: JsonMembers, name: Seq<char>) -> Option<JsonFieldView> {
    match member_names(members).index_of_first(name) {
        Some(i) => Some(members[i].1),
        None => None,
    }
}

/// The string held by the member with this name; `None` where the member is
/// missing or holds no string.
pub open spec fn spec_text_member(members: JsonMembers, name: Seq<char>) -> Option<Seq<char>> {
    match spec_member(members, name) {
        Some(JsonFieldView::Text(text)) => Some(text),
        _ => None,
    }
}

/// The truth value held by the member with this name; `None` where the
/// member is missing or holds no truth value.
pub open spec fn spec_flag_member(members: JsonMembers, name: Seq<char>) -> Option<bool> {
    match spec_member(members, name) {
        Some(JsonFieldView::Flag(flag)) => Some(flag),
        _ => None,
    }
}

/// The value of the first member with this name.
pub fn member<'a>(members: &'a Vec<(String, JsonField)>, name: &str) -> (found: Option<
    &'a JsonField,
>)
    ensures
        found.deep_view() == spec_member(members.deep_view(), name@),
{
    let ghost names = member_names(members.deep_view());
    let mut i: usize = 0;
    while i < members.len()
        invariant
            i <= members.len(),
            names == member_names(members.deep_view()),
            forall|j: int| 0 <= j < i ==> names[j] != name@,
        decreases members.len() - i,
    {
        if str_eq(members[i].0.as_str(), name) {
            proof {
                assert(names[i as int] == name@);
                crate::store::first_index_found(names, name@, i as int);
            }
            return Some(&members[i].1);
        }
        i = i + 1;
    }
    proof {
        crate::store::first_index_missing(names, name@);
    }
    None
}

/// The string held by the member with this name.
pub fn text_member<'a>(members: &'a Vec<(String, JsonField)>, name: &str) -> (found: Option<
    &'a str,
>)
    ensures
        found.deep_view() == spec_text_member(members.deep_view(), name@),
{
    match member(members, name) {
        Some(JsonField::Text(text)) => Some(text.as_str()),
        _ => None,
    }
}

/// The truth value held by the member with this name.
pub fn flag_member(members: &Vec<(String, JsonField)>, name: &str) -> (found: Option<bool>)
    ensures
        found == spec_flag_member(members.deep_view(), name@),
{
    match member(members, name) {
        Some(JsonField::Flag(flag)) => Some(*flag),
        _ => None,
    }
}

} // verus!
