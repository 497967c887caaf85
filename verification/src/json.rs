//! JSON documents: the tree that a parsed document stands for, and the
//! reading of fields out of it.
//!
//! Documents are parsed by `serde_json`. A parsed value is opaque here; what
//! it holds is spoken of through [`json_tree`], and the contracts of the
//! parser's own functions below are taken on trust.

use serde_json::Value;
use vstd::prelude::*;

verus! {

/// A JSON value as a mathematical tree. Numbers that are not integers are
/// not told apart.
pub enum JsonTree {
    Null,
    Bool(bool),
    Integer(int),
    Real,
    Text(Seq<char>),
    Array(Seq<JsonTree>),
    Object(Map<Seq<char>, JsonTree>),
}

/// `serde_json::Value`, a parsed JSON value.
#[verifier::external_type_specification]
#[verifier::external_body]
pub struct ExValue(serde_json::Value);

/// `serde_json::Error`, the reason why a text is no JSON document.
#[verifier::external_type_specification]
#[verifier::external_body]
pub struct ExJsonError(serde_json::Error);

/// The tree that a parsed value holds.
pub uninterp spec fn json_tree(value: Value) -> JsonTree;

/// The tree of the JSON document that `text` is, if it is one: what
/// `serde_json::from_str` makes of it.
pub uninterp spec fn json_document(text: Seq<char>) -> Option<JsonTree>;

/// `serde_json::from_str`, asked for a `Value`. Trusted: the result depends
/// on the text alone; it is an error exactly when the text is no document.
#[verifier::external_body]
fn parse_value(text: &str) -> (parsed: Result<Value, serde_json::Error>)
    ensures
        match parsed {
            Ok(value) => json_document(text@) == Some(json_tree(value)),
            Err(_) => json_document(text@) is None,
        },
{
    serde_json::from_str::<Value>(text)
}

/// `serde_json::Value::get` with a string index. Trusted: it yields the
/// member under `key` when the value is an object that has one, and nothing
/// otherwise.
#[verifier::external_body]
fn value_get<'a>(value: &'a Value, key: &str) -> (member: Option<&'a Value>)
    ensures
        match member {
            Some(m) => json_tree(*value).field(key@) == Some(json_tree(*m)),
            None => json_tree(*value).field(key@) is None,
        },
{
    value.get(key)
}

/// `serde_json::Value::is_null`. Trusted: it tells whether the value is
/// JSON's `null`.
pub assume_specification[ Value::is_null ](value: &Value) -> (null: bool)
    ensures
        null == (json_tree(*value) is Null),
;

/// `serde_json::Value::as_i64`. Trusted: it yields the number when the value
/// is an integer that fits in 64 bits with a sign, and nothing otherwise.
pub assume_specification[ Value::as_i64 ](value: &Value) -> (number: Option<i64>)
    ensures
        number == json_tree(*value).integer(),
;

/// `serde_json::Value::as_str`. Trusted: it yields the characters when the
/// value is a string, and nothing otherwise.
pub assume_specification<'a>[ Value::as_str ](value: &'a Value) -> (text: Option<&'a str>)
    ensures
        match text {
            Some(s) => json_tree(*value).text() == Some(s@),
            None => json_tree(*value).text() is None,
        },
;

/// `serde_json::Value::as_array`. Trusted: it yields the items, in order,
/// when the value is an array, and nothing otherwise.
pub assume_specification<'a>[ Value::as_array ](value: &'a Value) -> (items: Option<
    &'a Vec<Value>,
>)
    ensures
        match items {
            Some(list) => json_tree(*value).items() == Some(trees_of(list@)),
            None => json_tree(*value).items() is None,
        },
;

/// The trees of a sequence of parsed values.
pub open spec fn trees_of(values: Seq<Value>) -> Seq<JsonTree> {
    values.map_values(|v: Value| json_tree(v))
}

impl JsonTree {
    /// The member under `key`, if the tree is an object that has one.
    pub open spec fn field(self, key: Seq<char>) -> Option<JsonTree> {
        match self {
            JsonTree::Object(members) => if members.contains_key(key) {
                Some(members[key])
            } else {
                None
            },
            _ => None,
        }
    }

    /// The member under `key`, if there is one and it is not `null`.
    pub open spec fn present(self, key: Seq<char>) -> Option<JsonTree> {
        match self.field(key) {
            Some(JsonTree::Null) => None,
            other => other,
        }
    }

    /// The number, if the tree is an integer that fits in 64 bits with a
    /// sign.
    pub open spec fn integer(self) -> Option<i64> {
        match self {
            JsonTree::Integer(n) => if i64::MIN <= n <= i64::MAX {
                Some(n as i64)
            } else {
                None
            },
            _ => None,
        }
    }

    /// The characters, if the tree is a string.
    pub open spec fn text(self) -> Option<Seq<char>> {
        match self {
            JsonTree::Text(s) => Some(s),
            _ => None,
        }
    }

    /// The items, if the tree is an array.
    pub open spec fn items(self) -> Option<Seq<JsonTree>> {
        match self {
            JsonTree::Array(items) => Some(items),
            _ => None,
        }
    }

    /// The numbers, if the tree is an array of integers that each fit in 64
    /// bits with a sign.
    pub open spec fn integers(self) -> Option<Seq<i64>> {
        match self.items() {
            Some(items) => if forall|i: int| 0 <= i < items.len() ==> (#[trigger] items[i]).integer() is Some {
                Some(items.map_values(|t: JsonTree| t.integer().unwrap()))
            } else {
                None
            },
            None => None,
        }
    }
}

/// Parses `text` as a JSON document.
pub fn parse(text: &str) -> (parsed: Option<Value>)
    ensures
        match parsed {
            Some(value) => json_document(text@) == Some(json_tree(value)),
            None => json_document(text@) is None,
        },
{
    match parse_value(text) {
        Ok(value) => Some(value),
        Err(_) => None,
    }
}

/// The member of `value` under `key`, unless it is missing or `null`.
pub fn member<'a>(value: &'a Value, key: &str) -> (found: Option<&'a Value>)
    ensures
        match found {
            Some(m) => json_tree(*value).present(key@) == Some(json_tree(*m)),
            None => json_tree(*value).present(key@) is None,
        },
{
    match value_get(value, key) {
        Some(m) => if m.is_null() {
            None
        } else {
            Some(m)
        },
        None => None,
    }
}

/// The numbers of `value`, if it is an array of integers.
pub fn integers(value: &Value) -> (numbers: Option<Vec<i64>>)
    ensures
        match numbers {
            Some(list) => json_tree(*value).integers() == Some(list@),
            None => json_tree(*value).integers() is None,
        },
{
    match value.as_array() {
        None => None,
        Some(items) => {
            let ghost trees = trees_of(items@);
            let mut list: Vec<i64> = Vec::new();
            let mut i: usize = 0;
            while i < items.len()
                invariant
                    i <= items@.len(),
                    trees == trees_of(items@),
                    json_tree(*value).items() == Some(trees),
                    list@.len() == i,
                    forall|j: int| 0 <= j < i ==> (#[trigger] trees[j]).integer() == Some(list@[j]),
                decreases items@.len() - i,
            {
                match items[i].as_i64() {
                    Some(n) => {
                        list.push(n);
                    },
                    None => {
                        assert(trees[i as int].integer() is None);
                        return None;
                    },
                }
                i += 1;
            }
            assert(list@ =~= trees.map_values(|t: JsonTree| t.integer().unwrap()));
            Some(list)
        },
    }
}

} // verus!
