//! JSON documents, as `serde_json` reads and writes them.
//!
//! A document is held as a `serde_json::Value`. Verified code cannot look
//! inside one, so this module says what a value holds by a tree of plain
//! values, [`Tree`], and states of each `serde_json` function that the crate
//! calls what it does to that tree. Those statements are not proved: they are
//! what the rest of the crate takes on trust.
//!
//! The crate is built with `serde_json`'s `preserve_order` and without its
//! `arbitrary_precision`: the members of an object keep the order in which
//! they were put in, and a number is held as an integer or a float.

use serde_json::Value;
use vstd::prelude::*;

verus! {

/// A member of a JSON object.
pub struct Member {
    pub key: Seq<char>,
    pub value: Tree,
}

/// What a JSON document holds.
pub enum Tree {
    Null,
    Bool(bool),
    /// A number: its value where it is a natural number that fits `u64`,
    /// `None` for a negative or fractional one.
    Number(Option<u64>),
    Text(Seq<char>),
    Array(Seq<Tree>),
    /// The members in the order in which the object lists them.
    Object(Seq<Member>),
}

/// The value of the first member of `members` whose key is `key`.
pub open spec fn lookup(members: Seq<Member>, key: Seq<char>) -> Option<Tree>
    decreases members.len(),
{
    if members.len() == 0 {
        None
    } else if members[0].key == key {
        Some(members[0].value)
    } else {
        lookup(members.drop_first(), key)
    }
}

/// The member `key` of an object; `None` of anything else.
pub open spec fn tree_member(t: Tree, key: Seq<char>) -> Option<Tree> {
    match t {
        Tree::Object(members) => lookup(members, key),
        _ => None,
    }
}

/// No two members have the same key.
pub open spec fn distinct_keys(members: Seq<Member>) -> bool {
    forall|i: int, j: int|
        0 <= i < j < members.len() ==> (#[trigger] members[i]).key != (#[trigger] members[j]).key
}

/// Every number in the tree is a natural number that fits `u64`, and no
/// object has two members with one key. Such a tree stands for one document
/// only.
pub open spec fn exact(t: Tree) -> bool
    decreases t,
{
    match t {
        Tree::Number(n) => n is Some,
        Tree::Array(items) => forall|i: int| 0 <= i < items.len() ==> exact(#[trigger] items[i]),
        Tree::Object(members) => {
            &&& distinct_keys(members)
            &&& forall|i: int| 0 <= i < members.len() ==> exact((#[trigger] members[i]).value)
        },
        _ => true,
    }
}

/// `serde_json::Value`, a JSON document in memory. Nothing is seen of what
/// is inside but through [`json_tree`].
#[verifier::external_type_specification]
#[verifier::external_body]
pub struct ExValue(serde_json::Value);

/// `serde_json::Error`. Nothing is read from it: that there is one is all
/// that counts.
#[verifier::external_type_specification]
#[verifier::external_body]
pub struct ExError(serde_json::Error);

/// What a `serde_json::Value` holds: `Null` and `Bool` as they are; for a
/// `Number` what `as_u64` gives; for a `String` its characters; for an
/// `Array` the trees of its items; for an `Object` its entries in the order
/// of iteration.
pub uninterp spec fn json_tree(v: Value) -> Tree;

/// What `serde_json::from_slice` reads from `bytes` as a `Value`: the tree
/// of the value, or `None` where it gives an error.
pub uninterp spec fn parsed(bytes: Seq<u8>) -> Option<Tree>;

/// What `serde_json::to_string_pretty` writes for a value that holds `t`, or
/// `None` where it gives an error.
pub uninterp spec fn pretty(t: Tree) -> Option<Seq<char>>;

/// The trees of a sequence of values.
pub open spec fn json_trees(values: Seq<Value>) -> Seq<Tree> {
    values.map_values(|v: Value| json_tree(v))
}

/// The members that a sequence of keys and values makes.
pub open spec fn json_members(pairs: Seq<(String, Value)>) -> Seq<Member> {
    pairs.map_values(|p: (String, Value)| Member { key: p.0@, value: json_tree(p.1) })
}

/// `serde_json::from_slice`, reading a `Value`. The result depends on the
/// bytes alone: [`parsed`] is its name.
#[verifier::external_body]
pub(crate) fn parse(bytes: &[u8]) -> (r: Result<Value, serde_json::Error>)
    ensures
        match r {
            Ok(v) => parsed(bytes@) == Some(json_tree(v)),
            Err(_) => parsed(bytes@) is None,
        },
{
    serde_json::from_slice::<Value>(bytes)
}

/// `serde_json::to_string_pretty` on a `Value`. Where the tree of the value
/// is exact, the tree decides what is written: [`pretty`] is its name.
#[verifier::external_body]
pub(crate) fn print(v: &Value) -> (r: Result<String, serde_json::Error>)
    ensures
        exact(json_tree(*v)) ==> match r {
            Ok(text) => pretty(json_tree(*v)) == Some(text@),
            Err(_) => pretty(json_tree(*v)) is None,
        },
{
    serde_json::to_string_pretty(v)
}

/// `Value::as_array`: the items of an array, `None` for any other value.
pub assume_specification<'a>[ Value::as_array ](v: &'a Value) -> (r: Option<&'a Vec<Value>>)
    ensures
        match r {
            Some(items) => json_tree(*v) == Tree::Array(json_trees(items@)),
            None => !(json_tree(*v) is Array),
        },
;

/// `Value::as_str`: the text of a string, `None` for any other value.
pub assume_specification<'a>[ Value::as_str ](v: &'a Value) -> (r: Option<&'a str>)
    ensures
        match r {
            Some(text) => json_tree(*v) == Tree::Text(text@),
            None => !(json_tree(*v) is Text),
        },
;

/// `Value::as_u64`: a number that is a natural number and fits `u64`, `None`
/// for any other number and any other value.
pub assume_specification[ Value::as_u64 ](v: &Value) -> (r: Option<u64>)
    ensures
        r == match json_tree(*v) {
            Tree::Number(n) => n,
            _ => None,
        },
;

/// `Value::get` with a string: the value under that key in an object, `None`
/// where the object has no such key or the value is no object.
#[verifier::external_body]
pub(crate) fn member<'a>(v: &'a Value, key: &str) -> (r: Option<&'a Value>)
    ensures
        match r {
            Some(found) => tree_member(json_tree(*v), key@) == Some(json_tree(*found)),
            None => tree_member(json_tree(*v), key@) is None,
        },
{
    v.get(key)
}

/// `Value::from` on a `String`: the JSON string with that text.
#[verifier::external_body]
pub(crate) fn text_value(text: String) -> (v: Value)
    ensures
        json_tree(v) == Tree::Text(text@),
{
    Value::from(text)
}

/// `Value::from` on a `u32`: the JSON number with that value.
#[verifier::external_body]
pub(crate) fn natural_value(n: u32) -> (v: Value)
    ensures
        json_tree(v) == Tree::Number(Some(n as u64)),
{
    Value::from(n)
}

/// `Value::from` on a `Vec` of values: the JSON array of the items, in their
/// order.
#[verifier::external_body]
pub(crate) fn array_value(items: Vec<Value>) -> (v: Value)
    ensures
        json_tree(v) == Tree::Array(json_trees(items@)),
{
    Value::from(items)
}

/// `Value::from_iter` on keys and values: a JSON object. Where the keys
/// differ from one another, it holds each of them with its value, in the
/// order given.
#[verifier::external_body]
pub(crate) fn object_value(pairs: Vec<(String, Value)>) -> (v: Value)
    ensures
        distinct_keys(json_members(pairs@)) ==> json_tree(v) == Tree::Object(json_members(pairs@)),
{
    Value::from_iter(pairs)
}

} // verus!
