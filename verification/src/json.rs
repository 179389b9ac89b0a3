//! JSON documents, as `serde_json` holds them.
//!
//! A `serde_json::Value` is opaque to the verifier. What it holds is named by
//! `json_model`, a tree of plain values, and the few `serde_json` operations
//! the reporter needs are declared here with contracts over that tree. The
//! contracts of this file are taken on trust from `serde_json`'s source; the
//! rest of the crate is proved against them.

use vstd::prelude::*;

verus! {

/// The mathematical content of a JSON document.
pub enum Doc {
    Null,
    Flag(bool),
    /// A number, as its JSON text.
    Number(Seq<char>),
    Text(Seq<char>),
    List(Seq<Doc>),
    /// The members of an object, by key. The order of the members in the
    /// document's text is decided by the keys alone.
    Object(Map<Seq<char>, Doc>),
}

/// `serde_json::Value`, taken as an opaque type: a JSON document of any
/// kind.
#[verifier::external_type_specification]
#[verifier::external_body]
pub struct ExJsonValue(serde_json::Value);

/// What a `serde_json::Value` holds.
pub uninterp spec fn json_model(v: serde_json::Value) -> Doc;

/// What `serde_json::from_str::<Value>` makes of a text: the document it
/// holds, or the parser's complaint.
pub uninterp spec fn json_parsed(text: Seq<char>) -> Result<Doc, Seq<char>>;

/// What `serde_json::to_string` makes of a document: its text, or the
/// serializer's complaint.
pub uninterp spec fn json_rendered(doc: Doc) -> Result<Seq<char>, Seq<char>>;

/// The models of a sequence of values, in the same order.
pub open spec fn json_models(items: Seq<serde_json::Value>) -> Seq<Doc> {
    Seq::new(items.len(), |i: int| json_model(items[i]))
}

/// `Value::Null`: the null document.
#[verifier::external_body]
pub(crate) fn json_null() -> (v: serde_json::Value)
    ensures
        json_model(v) == Doc::Null,
{
    serde_json::Value::Null
}

/// `Value::String`: the document that is the given text.
#[verifier::external_body]
pub(crate) fn json_text(s: String) -> (v: serde_json::Value)
    ensures
        json_model(v) == Doc::Text(s@),
{
    serde_json::Value::String(s)
}

/// `Value::Array`: the list document of the given items, in their order.
#[verifier::external_body]
pub(crate) fn json_list(items: Vec<serde_json::Value>) -> (v: serde_json::Value)
    ensures
        json_model(v) == Doc::List(json_models(items@)),
{
    serde_json::Value::Array(items)
}

/// `Value::Object` over `Map::new`: the object document without members.
#[verifier::external_body]
pub(crate) fn json_empty_object() -> (v: serde_json::Value)
    ensures
        json_model(v) == Doc::Object(Map::<Seq<char>, Doc>::empty()),
{
    serde_json::Value::Object(serde_json::Map::new())
}

/// `Map::insert` on the map of an object document: the member is added, and
/// replaces a member of the same key.
#[verifier::external_body]
pub(crate) fn json_insert(object: &mut serde_json::Value, key: String, value: serde_json::Value)
    requires
        json_model(*old(object)) is Object,
    ensures
        json_model(*final(object)) == Doc::Object(
            json_model(*old(object))->Object_0.insert(key@, json_model(value)),
        ),
{
    if let serde_json::Value::Object(members) = object {
        members.insert(key, value);
    }
}

/// `serde_json::from_str::<Value>`: the parsed document, or the text of the
/// parser's error.
#[verifier::external_body]
pub(crate) fn json_parse(text: &str) -> (r: Result<serde_json::Value, String>)
    ensures
        match r {
            Ok(v) => json_parsed(text@) == Ok::<Doc, Seq<char>>(json_model(v)),
            Err(e) => json_parsed(text@) == Err::<Doc, Seq<char>>(e@),
        },
{
    match serde_json::from_str::<serde_json::Value>(text) {
        Ok(v) => Ok(v),
        Err(e) => Err(e.to_string()),
    }
}

/// `serde_json::to_string` on a `Value`: the document's text, or the text of
/// the serializer's error.
#[verifier::external_body]
pub(crate) fn json_render(v: &serde_json::Value) -> (r: Result<String, String>)
    ensures
        match r {
            Ok(s) => json_rendered(json_model(*v)) == Ok::<Seq<char>, Seq<char>>(s@),
            Err(e) => json_rendered(json_model(*v)) == Err::<Seq<char>, Seq<char>>(e@),
        },
{
    match serde_json::to_string(v) {
        Ok(s) => Ok(s),
        Err(e) => Err(e.to_string()),
    }
}

/// `Value::get` with a string index: the member of that key, where the
/// document is an object that has one.
#[verifier::external_body]
pub(crate) fn json_get<'a>(v: &'a serde_json::Value, key: &str) -> (r: Option<
    &'a serde_json::Value,
>)
    ensures
        r is Some <==> (json_model(*v) matches Doc::Object(members) && members.contains_key(key@)),
        r matches Some(member) ==> json_model(*member) == json_model(*v)->Object_0[key@],
{
    v.get(key)
}

/// `Value::as_str`: the text of a text document, and nothing for any other.
#[verifier::external_body]
pub(crate) fn json_as_str<'a>(v: &'a serde_json::Value) -> (r: Option<&'a str>)
    ensures
        r is Some <==> json_model(*v) is Text,
        r matches Some(s) ==> s@ == json_model(*v)->Text_0,
{
    v.as_str()
}

/// `Value::is_object`: whether the document is an object.
#[verifier::external_body]
pub(crate) fn json_is_object(v: &serde_json::Value) -> (b: bool)
    ensures
        b == (json_model(*v) is Object),
{
    v.is_object()
}

/// `Value::clone`: a value that holds the same document.
#[verifier::external_body]
pub(crate) fn json_clone(v: &serde_json::Value) -> (c: serde_json::Value)
    ensures
        json_model(c) == json_model(*v),
{
    v.clone()
}

} // verus!
