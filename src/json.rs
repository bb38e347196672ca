//! A parsed JSON document as plain data, and the lookups the relay needs.
use vstd::prelude::*;

verus! {

/// `serde_json::Value`, the parser's document type, held opaque.
#[verifier::external_type_specification]
#[verifier::external_body]
pub struct ExJsonValue(serde_json::Value);

/// `serde_json::Map`, the members of a parsed object, held opaque.
#[verifier::external_type_specification]
#[verifier::external_body]
#[verifier::reject_recursive_types(K)]
#[verifier::reject_recursive_types(V)]
pub struct ExJsonMap<K, V>(serde_json::Map<K, V>);

/// Relies on `serde_json::Value::is_null` to tell a null apart; nothing is assumed of its result.
pub assume_specification[ serde_json::Value::is_null ](v: &serde_json::Value) -> (r: bool);

/// Relies on `serde_json::Value::as_bool` to read a boolean; nothing is assumed of its result.
pub assume_specification[ serde_json::Value::as_bool ](v: &serde_json::Value) -> (r: Option<bool>);

/// Relies on `serde_json::Value::is_number` to tell a number apart; nothing is assumed of its result.
pub assume_specification[ serde_json::Value::is_number ](v: &serde_json::Value) -> (r: bool);

/// Relies on `serde_json::Value::as_str` to read a string; nothing is assumed of its result.
pub assume_specification<'a>[ serde_json::Value::as_str ](v: &'a serde_json::Value) -> (r: Option<
    &'a str,
>);

/// Relies on `serde_json::Value::as_array` to read an array; nothing is assumed of its result.
pub assume_specification<'a>[ serde_json::Value::as_array ](v: &'a serde_json::Value) -> (r: Option<
    &'a Vec<serde_json::Value>,
>);

/// Relies on `serde_json::Value::as_object` to read an object; nothing is assumed of its result.
pub assume_specification<'a>[ serde_json::Value::as_object ](v: &'a serde_json::Value) -> (r: Option<
    &'a serde_json::Map<String, serde_json::Value>,
>);

/// How deep `serde_json::from_str` lets arrays and objects nest: its parser
/// refuses a document once 128 levels are open.
pub const NESTING_LIMIT: usize = 128;

/// A JSON value. Numbers are kept as a kind only: nothing here reads their value.
#[derive(Debug)]
pub enum JsonValue {
    Null,
    Bool(bool),
    Number,
    Str(String),
    Array(Vec<JsonValue>),
    Object(Vec<(String, JsonValue)>),
}

/// Relies on `serde_json::Map::iter`: the object's members, cloned, in the map's order.
#[verifier::external_body]
fn object_members(m: &serde_json::Map<String, serde_json::Value>) -> (r: Vec<(String, serde_json::Value)>) {
    m.iter().map(|(k, v)| (k.clone(), v.clone())).collect()
}

/// What `serde_json::from_str` makes of `text`: the document on success, the
/// parser's message on failure.
pub uninterp spec fn parsed_json(text: Seq<char>) -> Result<JsonValue, Seq<char>>;

/// Relies on `serde_json::from_str` into a `serde_json::Value`: on success the
/// document, read into plain data; on failure the error's `Display` text.
#[verifier::external_body]
pub(crate) fn parse_json(text: &str) -> (r: Result<JsonValue, String>)
    ensures
        match r {
            Ok(v) => parsed_json(text@) == Ok::<JsonValue, Seq<char>>(v),
            Err(e) => parsed_json(text@) == Err::<JsonValue, Seq<char>>(e@),
        },
{
    match serde_json::from_str::<serde_json::Value>(text) {
        Ok(v) => Ok(JsonValue::from_parsed(&v)),
        Err(e) => Err(e.to_string()),
    }
}

/// The value of the first member named `key` among `members`.
pub open spec fn member(members: Seq<(String, JsonValue)>, key: Seq<char>) -> Option<JsonValue>
    decreases members.len(),
{
    if members.len() == 0 {
        None
    } else if members[0].0@ == key {
        Some(members[0].1)
    } else {
        member(members.drop_first(), key)
    }
}

/// The member `key` of `v`, where `v` is an object that has one.
pub open spec fn field(v: JsonValue, key: Seq<char>) -> Option<JsonValue> {
    match v {
        JsonValue::Object(members) => member(members@, key),
        _ => None,
    }
}

/// The first element of `v`, where `v` is a non-empty array.
pub open spec fn first_item(v: JsonValue) -> Option<JsonValue> {
    match v {
        JsonValue::Array(items) => if items@.len() > 0 {
            Some(items@[0])
        } else {
            None
        },
        _ => None,
    }
}

/// The text of `v`, where `v` is a string.
pub open spec fn text_of(v: JsonValue) -> Option<Seq<char>> {
    match v {
        JsonValue::Str(s) => Some(s@),
        _ => None,
    }
}

impl JsonValue {
    /// The member `key` of this value, where it is an object that has one.
    pub fn get(&self, key: &str) -> (r: Option<&JsonValue>)
        ensures
            match r {
                Some(x) => field(*self, key@) == Some(*x),
                None => field(*self, key@) is None,
            },
    {
        match self {
            JsonValue::Object(members) => {
                let wanted = String::from_str(key);
                let mut i: usize = 0;
                assert(members@.subrange(0, members@.len() as int) =~= members@);
                while i < members.len()
                    invariant
                        i <= members@.len(),
                        wanted@ == key@,
                        field(*self, key@) == member(members@, key@),
                        member(members@, key@) == member(members@.subrange(i as int, members@.len() as int), key@),
                    decreases members.len() - i,
                {
                    let ghost rest = members@.subrange(i as int, members@.len() as int);
                    assert(rest.drop_first() =~= members@.subrange(i + 1, members@.len() as int));
                    assert(rest[0] == members@[i as int]);
                    let same = members[i].0.eq(&wanted);
                    if same {
                        assert(rest[0].0@ == key@);
                        return Some(&members[i].1);
                    }
                    i = i + 1;
                }
                None
            },
            _ => None,
        }
    }

    /// The first element of this value, where it is a non-empty array.
    pub fn first(&self) -> (r: Option<&JsonValue>)
        ensures
            match r {
                Some(x) => first_item(*self) == Some(*x),
                None => first_item(*self) is None,
            },
    {
        match self {
            JsonValue::Array(items) => if items.len() > 0 {
                Some(&items[0])
            } else {
                None
            },
            _ => None,
        }
    }

    /// The text of this value, where it is a string.
    pub fn as_str(&self) -> (r: Option<&str>)
        ensures
            match r {
                Some(t) => text_of(*self) == Some(t@),
                None => text_of(*self) is None,
            },
    {
        match self {
            JsonValue::Str(s) => Some(s.as_str()),
            _ => None,
        }
    }

    /// A document that `serde_json` parsed, as plain data.
    pub fn from_parsed(v: &serde_json::Value) -> (r: JsonValue) {
        JsonValue::from_serde(v, NESTING_LIMIT)
    }

    /// The same document as plain data; containers nested more than `depth`
    /// levels deep are cut to `Null`. Every `serde_json::Value` is one of the
    /// six kinds tested here, so the final branch is never taken.
    pub fn from_serde(v: &serde_json::Value, depth: usize) -> (r: JsonValue)
        decreases depth,
    {
        if v.is_null() {
            JsonValue::Null
        } else if let Some(b) = v.as_bool() {
            JsonValue::Bool(b)
        } else if v.is_number() {
            JsonValue::Number
        } else if let Some(s) = v.as_str() {
            JsonValue::Str(String::from_str(s))
        } else if depth == 0 {
            JsonValue::Null
        } else if let Some(items) = v.as_array() {
            let mut out: Vec<JsonValue> = Vec::new();
            let mut i: usize = 0;
            while i < items.len()
                invariant
                    i <= items.len(),
                    depth > 0,
                decreases items.len() - i,
            {
                out.push(JsonValue::from_serde(&items[i], depth - 1));
                i = i + 1;
            }
            JsonValue::Array(out)
        } else if let Some(map) = v.as_object() {
            let members = object_members(map);
            let mut out: Vec<(String, JsonValue)> = Vec::new();
            let mut i: usize = 0;
            while i < members.len()
                invariant
                    i <= members.len(),
                    depth > 0,
                decreases members.len() - i,
            {
                let key = members[i].0.clone();
                out.push((key, JsonValue::from_serde(&members[i].1, depth - 1)));
                i = i + 1;
            }
            JsonValue::Object(out)
        } else {
            JsonValue::Null
        }
    }
}

} // verus!
