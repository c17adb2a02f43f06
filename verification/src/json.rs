//! JSON values, read and written through `serde_json`.
//!
//! A `serde_json::Value` is opaque to the verifier. Contracts speak of what
//! a value holds through [`object_members`]; the functions here that touch a
//! value are thin, unverified calls into `serde_json`, and each says above
//! its contract what it takes on trust.

use vstd::prelude::*;

verus! {

/// A JSON value, as `serde_json` holds it.
#[verifier::external_type_specification]
#[verifier::external_body]
pub struct ExJsonValue(serde_json::Value);

/// What a message or a reply can hold under one key.
#[derive(Debug, Clone, PartialEq, Eq)]
pub enum JsonItem {
    /// No member with the key, or the value is no object.
    Missing,
    /// A string.
    Text(String),
    /// `true` or `false`.
    Flag(bool),
    /// A whole number from 0 to 2^64 - 1.
    Number(u64),
    /// Anything else: null, another number, an array, an object.
    Other,
}

/// What a [`JsonItem`] stands for in contracts.
pub enum JsonItemView {
    Missing,
    Text(Seq<char>),
    Flag(bool),
    Number(u64),
    Other,
}

impl View for JsonItem {
    type V = JsonItemView;

    open spec fn view(&self) -> JsonItemView {
        match self {
            JsonItem::Missing => JsonItemView::Missing,
            JsonItem::Text(text) => JsonItemView::Text(text@),
            JsonItem::Flag(flag) => JsonItemView::Flag(*flag),
            JsonItem::Number(n) => JsonItemView::Number(*n),
            JsonItem::Other => JsonItemView::Other,
        }
    }
}

/// The members of `value`, by key, if it is an object; `None` if it is not.
/// No member is [`JsonItemView::Missing`].
pub uninterp spec fn object_members(value: serde_json::Value) -> Option<
    Map<Seq<char>, JsonItemView>,
>;

/// What the JSON value that `text` is the text of holds: `None` if the text
/// is not JSON, `Some(None)` if it is JSON but no object, else the members
/// of the object.
pub uninterp spec fn parsed_members(text: Seq<char>) -> Option<
    Option<Map<Seq<char>, JsonItemView>>,
>;

/// The text of the object with the given members, in the compact form that
/// `serde_json` writes.
pub uninterp spec fn object_text(members: Map<Seq<char>, JsonItemView>) -> Seq<char>;

/// What is found under `key`, given the members of a value.
pub open spec fn member_of(
    members: Option<Map<Seq<char>, JsonItemView>>,
    key: Seq<char>,
) -> JsonItemView {
    match members {
        Some(found) if found.contains_key(key) => found[key],
        _ => JsonItemView::Missing,
    }
}

/// Every member is a string, a flag or a whole number.
pub open spec fn all_plain(members: Map<Seq<char>, JsonItemView>) -> bool {
    forall|key: Seq<char>| #[trigger]
        members.contains_key(key) ==> {
            ||| members[key] is Text
            ||| members[key] is Flag
            ||| members[key] is Number
        }
}

/// What a parsed value, if there is one, holds.
pub open spec fn members_of(value: Option<serde_json::Value>) -> Option<
    Option<Map<Seq<char>, JsonItemView>>,
> {
    match value {
        Some(parsed) => Some(object_members(parsed)),
        None => None,
    }
}

/// `serde_json::from_str` for a `Value`; its error, a text that is not
/// JSON, becomes `None`. What the value holds depends on the text alone and
/// is named [`parsed_members`].
#[verifier::external_body]
pub(crate) fn parse(text: &str) -> (value: Option<serde_json::Value>)
    ensures
        members_of(value) == parsed_members(text@),
{
    serde_json::from_str::<serde_json::Value>(text).ok()
}

/// `Value::get` with a string key, and the variant of what it finds.
/// `get` gives nothing for a value that is no object and for a key that the
/// object lacks. A number counts as [`JsonItem::Number`] where
/// `Value::as_u64` returns it.
#[verifier::external_body]
pub(crate) fn member(value: &serde_json::Value, key: &str) -> (item: JsonItem)
    ensures
        item@ == member_of(object_members(*value), key@),
{
    match value.get(key) {
        None => JsonItem::Missing,
        Some(serde_json::Value::String(text)) => JsonItem::Text(text.clone()),
        Some(serde_json::Value::Bool(flag)) => JsonItem::Flag(*flag),
        Some(other) => match other.as_u64() {
            Some(n) => JsonItem::Number(n),
            None => JsonItem::Other,
        },
    }
}

/// `Value::Object` of `Map::new`: an object without members.
#[verifier::external_body]
pub(crate) fn empty_object() -> (object: serde_json::Value)
    ensures
        object_members(object) == Some(Map::<Seq<char>, JsonItemView>::empty()),
{
    serde_json::Value::Object(serde_json::Map::new())
}

/// Assignment of `Value::from` of a string through `IndexMut` with a string
/// key: on an object it sets the member with that key, new or not, and
/// leaves the others. It panics on a value that is neither an object nor
/// null, which `requires` rules out.
#[verifier::external_body]
pub(crate) fn put_text(object: &mut serde_json::Value, key: &str, text: &str)
    requires
        object_members(*old(object)) is Some,
    ensures
        object_members(*final(object)) == Some(
            object_members(*old(object))->0.insert(key@, JsonItemView::Text(text@)),
        ),
{
    object[key] = serde_json::Value::from(text);
}

/// Assignment of `Value::from` of a `u64` through `IndexMut` with a string
/// key: as [`put_text`], for a whole number.
#[verifier::external_body]
pub(crate) fn put_number(object: &mut serde_json::Value, key: &str, n: u64)
    requires
        object_members(*old(object)) is Some,
    ensures
        object_members(*final(object)) == Some(
            object_members(*old(object))->0.insert(key@, JsonItemView::Number(n)),
        ),
{
    object[key] = serde_json::Value::from(n);
}

/// `Value`'s `to_string`. For an object whose members are strings, flags
/// and whole numbers, the text depends on the members alone (the keys are
/// written in their sorted order) and is named [`object_text`].
#[verifier::external_body]
pub(crate) fn render(object: &serde_json::Value) -> (text: String)
    requires
        object_members(*object) is Some,
        all_plain(object_members(*object)->0),
    ensures
        text@ == object_text(object_members(*object)->0),
{
    object.to_string()
}

} // verus!
