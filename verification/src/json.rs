//! JSON documents as plain trees.
//!
//! Reading JSON text is left to `serde_json`. What it reads is copied into
//! `JsonValue`, a tree of plain values, and every rule of this library works
//! on that tree.

use vstd::prelude::*;

verus! {

/// A JSON document.
#[derive(Debug, PartialEq, Eq)]
pub enum JsonValue {
    /// `null`.
    Null,
    /// `true` or `false`.
    Bool(bool),
    /// A number. Its value is not kept: no rule of this library reads one.
    Number,
    /// A string.
    Text(String),
    /// An array, with its items in order.
    List(Vec<JsonValue>),
    /// An object, with its members in the order in which `serde_json` walks
    /// them.
    Object(Vec<(String, JsonValue)>),
}

/// `serde_json::Value`: a document as `serde_json` holds it. Nothing inside
/// it is visible here.
#[verifier::external_type_specification]
#[verifier::external_body]
pub struct ExJsonDocument(serde_json::Value);

/// What `serde_json::from_str` reads from `text` as a `serde_json::Value`,
/// or `None` where it reports an error.
pub uninterp spec fn json_document(text: Seq<char>) -> Option<serde_json::Value>;

/// The tree that a `serde_json::Value` holds.
pub uninterp spec fn json_content(value: serde_json::Value) -> JsonValue;

/// The tree that `text` denotes, or `None` where `text` is no JSON document.
pub open spec fn json_tree(text: Seq<char>) -> Option<JsonValue> {
    match json_document(text) {
        Some(value) => Some(json_content(value)),
        None => None,
    }
}

/// Calls `serde_json::from_str` for a `serde_json::Value`. The result is
/// what that function reads from `text`; an error becomes `None`.
#[verifier::external_body]
fn read_document(text: &str) -> (document: Option<serde_json::Value>)
    ensures
        document == json_document(text@),
{
    serde_json::from_str::<serde_json::Value>(text).ok()
}

/// Copies a `serde_json::Value` into a tree of this library, variant by
/// variant: the items of an array in their order, the members of an object
/// in the order of `serde_json::Map::iter`.
#[verifier::external_body]
fn copy_value(value: &serde_json::Value) -> (tree: JsonValue)
    ensures
        tree == json_content(*value),
{
    match value {
        serde_json::Value::Null => JsonValue::Null,
        serde_json::Value::Bool(flag) => JsonValue::Bool(*flag),
        serde_json::Value::Number(_) => JsonValue::Number,
        serde_json::Value::String(text) => JsonValue::Text(text.clone()),
        serde_json::Value::Array(items) => JsonValue::List(items.iter().map(copy_value).collect()),
        serde_json::Value::Object(members) => JsonValue::Object(
            members.iter().map(|(key, member)| (key.clone(), copy_value(member))).collect(),
        ),
    }
}

/// Reads `text` as a JSON document.
pub fn parse_json(text: &str) -> (tree: Option<JsonValue>)
    ensures
        tree == json_tree(text@),
{
    match read_document(text) {
        Some(value) => Some(copy_value(&value)),
        None => None,
    }
}

/// The position of the first member named `key` at or after `from`, or the
/// number of members when none follows.
pub open spec fn member_position(members: Seq<(String, JsonValue)>, key: Seq<char>, from: int) -> int
    decreases members.len() - from,
{
    if 0 <= from < members.len() && members[from].0@ != key {
        member_position(members, key, from + 1)
    } else {
        from
    }
}

/// The value of the first member named `key`, if there is one.
pub open spec fn member(members: Seq<(String, JsonValue)>, key: Seq<char>) -> Option<JsonValue> {
    let at = member_position(members, key, 0);
    if 0 <= at < members.len() {
        Some(members[at].1)
    } else {
        None
    }
}

/// What `member_position` finds: no member from `from` up to it is named
/// `key`, and it is the number of members or the place of one that is.
pub proof fn lemma_member_position(members: Seq<(String, JsonValue)>, key: Seq<char>, from: int)
    requires
        0 <= from <= members.len(),
    ensures
        from <= member_position(members, key, from) <= members.len(),
        forall|i: int|
            from <= i < member_position(members, key, from) ==> (#[trigger] members[i]).0@ != key,
        member_position(members, key, from) < members.len() ==> members[member_position(
            members,
            key,
            from,
        )].0@ == key,
    decreases members.len() - from,
{
    if from < members.len() && members[from].0@ != key {
        lemma_member_position(members, key, from + 1);
    }
}

/// Looks up the first member named `key` among the members of an object.
pub fn find_member<'a>(members: &'a Vec<(String, JsonValue)>, key: &str) -> (found: Option<
    &'a JsonValue,
>)
    ensures
        found is Some <==> member(members@, key@) is Some,
        found is Some ==> *found->0 == member(members@, key@)->0,
{
    let mut at: usize = 0;
    while at < members.len()
        invariant
            at <= members@.len(),
            member_position(members@, key@, 0) == member_position(members@, key@, at as int),
        decreases members@.len() - at,
    {
        if crate::text::same_text(members[at].0.as_str(), key) {
            return Some(&members[at].1);
        }
        at += 1;
    }
    None
}

} // verus!
