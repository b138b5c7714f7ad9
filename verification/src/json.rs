//! A JSON value as the service replies are read: objects are looked up by
//! key, arrays by position, and whatever is missing reads as `null`.

use vstd::prelude::*;
use crate::text::str_eq;

verus! {

/// A JSON value. Numbers keep their text; object members keep their order,
/// and a key is expected to occur once per object.
#[derive(Debug)]
pub enum JsonValue {
    Null,
    Bool(bool),
    Number(String),
    Text(String),
    Array(Vec<JsonValue>),
    Object(Vec<(String, JsonValue)>),
}

/// The value of the first member named `key`, if any.
pub open spec fn member(pairs: Seq<(String, JsonValue)>, key: Seq<char>) -> Option<JsonValue>
    decreases pairs.len(),
{
    if pairs.len() == 0 {
        None
    } else if pairs[0].0@ == key {
        Some(pairs[0].1)
    } else {
        member(pairs.drop_first(), key)
    }
}

/// `v[key]`: the member named `key` of an object, `null` otherwise.
pub open spec fn get_field(v: JsonValue, key: Seq<char>) -> JsonValue {
    match v {
        JsonValue::Object(pairs) => match member(pairs@, key) {
            Some(x) => x,
            None => JsonValue::Null,
        },
        _ => JsonValue::Null,
    }
}

/// `v[i]`: the element at `i` of an array, `null` otherwise.
pub open spec fn get_item(v: JsonValue, i: int) -> JsonValue {
    match v {
        JsonValue::Array(items) => if 0 <= i < items@.len() {
            items@[i]
        } else {
            JsonValue::Null
        },
        _ => JsonValue::Null,
    }
}

/// The text of a string value.
pub open spec fn as_text(v: JsonValue) -> Option<Seq<char>> {
    match v {
        JsonValue::Text(s) => Some(s@),
        _ => None,
    }
}

/// The text of `v[key]`, or the empty text where that is no string.
pub open spec fn text_or_empty(v: JsonValue, key: Seq<char>) -> Seq<char> {
    match as_text(get_field(v, key)) {
        Some(t) => t,
        None => Seq::<char>::empty(),
    }
}

/// The JSON value that `serde_json` reads from `body` (its maps are ordered
/// by key), or `None` when `body` is not JSON.
pub uninterp spec fn json_of(body: Seq<char>) -> Option<JsonValue>;

#[verifier::external_type_specification]
#[verifier::external_body]
pub struct ExJsonValue(serde_json::Value);

/// Changes a `serde_json::Value` into the library's model, variant for
/// variant; a number keeps the text `serde_json` prints for it.
#[verifier::external_body]
fn from_value(v: serde_json::Value) -> JsonValue {
    match v {
        serde_json::Value::Null => JsonValue::Null,
        serde_json::Value::Bool(b) => JsonValue::Bool(b),
        serde_json::Value::Number(n) => JsonValue::Number(n.to_string()),
        serde_json::Value::String(s) => JsonValue::Text(s),
        serde_json::Value::Array(a) => JsonValue::Array(a.into_iter().map(from_value).collect()),
        serde_json::Value::Object(m) => JsonValue::Object(
            m.into_iter().map(|(k, x)| (k, from_value(x))).collect(),
        ),
    }
}

/// Calls `serde_json::from_str::<serde_json::Value>` on `body`; its result is
/// named by `json_of`.
#[verifier::external_body]
pub fn parse_json(body: &str) -> (r: Option<JsonValue>)
    ensures
        r == json_of(body@),
{
    serde_json::from_str::<serde_json::Value>(body).ok().map(from_value)
}

/// An HTTP status in the success class, 200 to 299.
pub open spec fn success_status(status: u16) -> bool {
    200 <= status < 300
}

/// Whether an HTTP status is in the success class (what
/// `http::StatusCode::is_success` decides).
pub fn is_success_status(status: u16) -> (b: bool)
    ensures
        b == success_status(status),
{
    200 <= status && status < 300
}

impl JsonValue {
    /// `self[key]`; `None` stands for `null`.
    #[verifier::loop_isolation(false)]
    pub fn field(&self, key: &str) -> (r: Option<&JsonValue>)
        ensures
            r matches Some(x) ==> *x == get_field(*self, key@),
            r is None ==> get_field(*self, key@) == JsonValue::Null,
    {
        match self {
            JsonValue::Object(pairs) => {
                let mut i: usize = 0;
                assert(pairs@.skip(0) =~= pairs@);
                while i < pairs.len()
                    invariant
                        i <= pairs@.len(),
                        member(pairs@, key@) == member(pairs@.skip(i as int), key@),
                    decreases pairs@.len() - i,
                {
                    let ghost rest = pairs@.skip(i as int);
                    assert(rest.len() > 0);
                    assert(rest[0] == pairs@[i as int]);
                    if str_eq(pairs[i].0.as_str(), key) {
                        return Some(&pairs[i].1);
                    }
                    assert(rest.drop_first() =~= pairs@.skip(i + 1));
                    i = i + 1;
                }
                assert(pairs@.skip(i as int).len() == 0);
                None
            },
            _ => None,
        }
    }

    /// `self[i]`; `None` stands for `null`.
    pub fn item(&self, i: usize) -> (r: Option<&JsonValue>)
        ensures
            r matches Some(x) ==> *x == get_item(*self, i as int),
            r is None ==> get_item(*self, i as int) == JsonValue::Null,
    {
        match self {
            JsonValue::Array(items) => if i < items.len() {
                Some(&items[i])
            } else {
                None
            },
            _ => None,
        }
    }

    /// The text of a string value.
    pub fn as_str(&self) -> (r: Option<&String>)
        ensures
            r matches Some(s) ==> as_text(*self) == Some(s@),
            r is None ==> as_text(*self) is None,
    {
        match self {
            JsonValue::Text(s) => Some(s),
            _ => None,
        }
    }
}

/// The text of `v[key]`, if it is a string.
pub fn field_text(v: &JsonValue, key: &str) -> (r: Option<String>)
    ensures
        r matches Some(s) ==> as_text(get_field(*v, key@)) == Some(s@),
        r is None ==> as_text(get_field(*v, key@)) is None,
{
    match v.field(key) {
        Some(x) => match x.as_str() {
            Some(s) => Some(s.clone()),
            None => None,
        },
        None => None,
    }
}

} // verus!
