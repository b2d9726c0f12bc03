//! JSON documents, read and written by `serde_json`.
//!
//! A document is held as a `serde_json::Value`, which the verifier cannot look
//! into. What it holds is named by [`json_tree`]; the functions below are the only
//! way in which the rest of the library reads or builds one, and their contracts
//! are taken on trust from the source of `serde_json`.
use vstd::prelude::*;

verus! {

/// A JSON document as a tree.
pub ghost enum Json {
    /// The value `null`.
    Null,
    /// `true` or `false`.
    Bool(bool),
    /// A number, by the characters that are printed for it.
    Number(Seq<char>),
    /// A string.
    Text(Seq<char>),
    /// An array: its items, in order.
    List(Seq<Json>),
    /// An object: its members, by their keys. `serde_json` keeps them sorted by
    /// key, so the keys alone decide the order in which they are printed.
    Object(Map<Seq<char>, Json>),
}

/// `serde_json::Value`, a document. Opaque: it is read through the functions
/// below.
#[verifier::external_type_specification]
#[verifier::external_body]
pub struct ExValue(serde_json::Value);

/// `serde_json::Error`, the parser's and the printer's error. Opaque, and only
/// passed on.
#[verifier::external_type_specification]
#[verifier::external_body]
pub struct ExJsonError(serde_json::Error);

/// `serde_json::Map`, the members of an object. Opaque: it is filled through
/// the functions below.
#[verifier::external_type_specification]
#[verifier::external_body]
#[verifier::reject_recursive_types(K)]
#[verifier::reject_recursive_types(V)]
pub struct ExMembers<K, V>(serde_json::Map<K, V>);

/// The tree that a `serde_json::Value` holds.
pub uninterp spec fn json_tree(v: serde_json::Value) -> Json;

/// The members that a `serde_json::Map` holds, by their keys.
pub uninterp spec fn json_members(m: serde_json::Map<String, serde_json::Value>) -> Map<
    Seq<char>,
    Json,
>;

/// What `serde_json::from_str` makes of a text: the tree it reads, or `None`
/// where it reports an error.
pub uninterp spec fn parsed_json(text: Seq<char>) -> Option<Json>;

/// The text that `serde_json::to_string_pretty` writes for a tree.
pub uninterp spec fn pretty_json(tree: Json) -> Seq<char>;

/// An object without members.
pub open spec fn no_members() -> Map<Seq<char>, Json> {
    Map::empty()
}

/// The trees of a sequence of values, one by one.
pub open spec fn json_trees(items: Seq<serde_json::Value>) -> Seq<Json> {
    items.map_values(|v: serde_json::Value| json_tree(v))
}

/// `serde_json::from_str` at the type `Value`: the document that `text` spells, or
/// the parser's error. The contract names the outcome [`parsed_json`].
#[verifier::external_body]
pub(crate) fn parse_json(text: &str) -> (r: Result<serde_json::Value, serde_json::Error>)
    ensures
        match r {
            Ok(v) => parsed_json(text@) == Some(json_tree(v)),
            Err(_) => parsed_json(text@) is None,
        },
{
    serde_json::from_str::<serde_json::Value>(text)
}

/// `serde_json::to_string_pretty` on a `Value`: it succeeds, and the text is
/// [`pretty_json`] of the tree. Printing a `Value` into memory cannot fail: the
/// printer reports only what its writer reports, and it writes into a `Vec`; the
/// keys of an object are strings, and a number is printed as it is held.
#[verifier::external_body]
pub(crate) fn print_json(v: &serde_json::Value) -> (r: Result<String, serde_json::Error>)
    ensures
        r is Ok,
        r matches Ok(text) ==> text@ == pretty_json(json_tree(*v)),
{
    serde_json::to_string_pretty(v)
}

/// `Value::get` with a string key: the member of an object under `key`. `None`
/// where the value is no object or the object has no such member.
#[verifier::external_body]
pub(crate) fn member<'a>(v: &'a serde_json::Value, key: &str) -> (r: Option<&'a serde_json::Value>)
    ensures
        match r {
            Some(x) => json_tree(*v) matches Json::Object(m) && m.contains_key(key@) && m[key@]
                == json_tree(*x),
            None => !(json_tree(*v) matches Json::Object(m) && m.contains_key(key@)),
        },
{
    v.get(key)
}

/// `Value::as_str`: the text of a string value, `None` for any other value.
#[verifier::external_body]
pub(crate) fn as_text<'a>(v: &'a serde_json::Value) -> (r: Option<&'a str>)
    ensures
        match r {
            Some(s) => json_tree(*v) == Json::Text(s@),
            None => !(json_tree(*v) is Text),
        },
{
    v.as_str()
}

/// `Value::as_array`: the items of an array value, `None` for any other value.
#[verifier::external_body]
pub(crate) fn as_list<'a>(v: &'a serde_json::Value) -> (r: Option<&'a Vec<serde_json::Value>>)
    ensures
        match r {
            Some(items) => json_tree(*v) == Json::List(json_trees(items@)),
            None => !(json_tree(*v) is List),
        },
{
    v.as_array()
}

/// `Value::is_null`: whether the value is JSON's `null`.
#[verifier::external_body]
pub(crate) fn is_null(v: &serde_json::Value) -> (r: bool)
    ensures
        r == (json_tree(*v) is Null),
{
    v.is_null()
}

/// The value `null`.
#[verifier::external_body]
pub(crate) fn null_value() -> (r: serde_json::Value)
    ensures
        json_tree(r) == Json::Null,
{
    serde_json::Value::Null
}

/// `Value::from` for a `String`: the string value with that text.
#[verifier::external_body]
pub(crate) fn text_value(text: String) -> (r: serde_json::Value)
    ensures
        json_tree(r) == Json::Text(text@),
{
    serde_json::Value::from(text)
}

/// `Value::from` for a `Vec<Value>`: the array value with those items, in order.
#[verifier::external_body]
pub(crate) fn list_value(items: Vec<serde_json::Value>) -> (r: serde_json::Value)
    ensures
        json_tree(r) == Json::List(json_trees(items@)),
{
    serde_json::Value::from(items)
}

/// `Map::new`: an object's members, none yet.
#[verifier::external_body]
pub(crate) fn new_members() -> (r: serde_json::Map<String, serde_json::Value>)
    ensures
        json_members(r) == no_members(),
{
    serde_json::Map::new()
}

/// `Map::insert`: afterwards `key` leads to `value`, in place of what it led to
/// before, and the other members are as they were.
#[verifier::external_body]
pub(crate) fn insert_member(
    members: &mut serde_json::Map<String, serde_json::Value>,
    key: String,
    value: serde_json::Value,
)
    ensures
        json_members(*final(members)) == json_members(*old(members)).insert(
            key@,
            json_tree(value),
        ),
{
    members.insert(key, value);
}

/// `Value::from` for a `Map`: the object value with those members.
#[verifier::external_body]
pub(crate) fn object_value(members: serde_json::Map<String, serde_json::Value>) -> (r:
    serde_json::Value)
    ensures
        json_tree(r) == Json::Object(json_members(members)),
{
    serde_json::Value::from(members)
}

} // verus!
