//! A JSON document as plain values, with the lookups that the wire format needs.
use vstd::prelude::*;

verus! {

/// A parsed JSON document.
///
/// Numbers that are not unsigned integers (negative or fractional ones) are
/// kept only as the fact that a number stood there: nothing in the protocol
/// reads them.
pub enum Json {
    Null,
    Bool(bool),
    UInt(u64),
    OtherNumber,
    Str(String),
    Array(Vec<Json>),
    Object(Vec<(String, Json)>),
}

#[verifier::external_type_specification]
#[verifier::external_body]
pub struct ExJsonValue(serde_json::Value);

/// The document that a JSON text denotes, if it is valid JSON.
pub uninterp spec fn parsed_json(text: Seq<char>) -> Option<Json>;

/// The JSON string literal (quoted and escaped) that stands for a text.
pub uninterp spec fn json_quoted(s: Seq<char>) -> Seq<char>;

/// Relies on serde_json::from_str into a serde_json::Value: it parses the text
/// as one JSON document, or fails, depending on the text alone.
#[verifier::external_body]
pub(crate) fn parse_json(text: &str) -> (r: Option<Json>)
    ensures
        r == parsed_json(text@),
{
    match serde_json::from_str::<serde_json::Value>(text) {
        Ok(v) => Some(json_from_value(v)),
        Err(_) => None,
    }
}

/// Relies on the variants of serde_json::Value and on serde_json::Number::as_u64:
/// moves each variant into the matching variant of `Json`.
#[verifier::external_body]
fn json_from_value(v: serde_json::Value) -> Json {
    match v {
        serde_json::Value::Null => Json::Null,
        serde_json::Value::Bool(b) => Json::Bool(b),
        serde_json::Value::Number(n) => match n.as_u64() {
            Some(u) => Json::UInt(u),
            None => Json::OtherNumber,
        },
        serde_json::Value::String(s) => Json::Str(s),
        serde_json::Value::Array(a) => Json::Array(a.into_iter().map(json_from_value).collect()),
        serde_json::Value::Object(o) => Json::Object(
            o.into_iter().map(|(k, x)| (k, json_from_value(x))).collect(),
        ),
    }
}

/// Relies on serde_json::to_string on a str: the quoted JSON string literal
/// with serde_json's escapes, which depends on the text alone.
#[verifier::external_body]
pub(crate) fn quote_json(s: &str) -> (r: String)
    ensures
        r@ == json_quoted(s@),
{
    serde_json::to_string(s).unwrap_or_default()
}

/// The value of the first member named `key`.
pub open spec fn lookup(fields: Seq<(String, Json)>, key: Seq<char>) -> Option<Json>
    decreases fields.len(),
{
    if fields.len() == 0 {
        None
    } else if fields[0].0@ == key {
        Some(fields[0].1)
    } else {
        lookup(fields.drop_first(), key)
    }
}

/// The member `key` of an object; nothing for any other document.
pub open spec fn field(j: Json, key: Seq<char>) -> Option<Json> {
    match j {
        Json::Object(fields) => lookup(fields@, key),
        _ => None,
    }
}

/// The text of a string document.
pub open spec fn text_of(j: Json) -> Option<Seq<char>> {
    match j {
        Json::Str(s) => Some(s@),
        _ => None,
    }
}

/// The value of an unsigned integer document.
pub open spec fn uint_of(j: Json) -> Option<u64> {
    match j {
        Json::UInt(n) => Some(n),
        _ => None,
    }
}

/// The elements of an array document.
pub open spec fn items_of(j: Json) -> Option<Seq<Json>> {
    match j {
        Json::Array(items) => Some(items@),
        _ => None,
    }
}

/// The text of the string member `key`.
pub open spec fn field_text(j: Json, key: Seq<char>) -> Option<Seq<char>> {
    match field(j, key) {
        Some(v) => text_of(v),
        None => None,
    }
}

/// The value of the unsigned integer member `key`.
pub open spec fn field_uint(j: Json, key: Seq<char>) -> Option<u64> {
    match field(j, key) {
        Some(v) => uint_of(v),
        None => None,
    }
}

/// The elements of the array member `key`.
pub open spec fn field_items(j: Json, key: Seq<char>) -> Option<Seq<Json>> {
    match field(j, key) {
        Some(v) => items_of(v),
        None => None,
    }
}

impl Json {
    /// The member `key`, when this is an object that has one.
    pub fn get(&self, key: &str) -> (r: Option<&Json>)
        ensures
            match r {
                Some(v) => field(*self, key@) == Some(*v),
                None => field(*self, key@) is None,
            },
    {
        match self {
            Json::Object(fields) => {
                let k = String::from_str(key);
                let mut i: usize = 0;
                proof {
                    assert(fields@.skip(0) =~= fields@);
                }
                while i < fields.len()
                    invariant
                        i <= fields@.len(),
                        k@ == key@,
                        field(*self, key@) == lookup(fields@.skip(i as int), key@),
                    decreases fields.len() - i,
                {
                    proof {
                        assert(fields@.skip(i as int)[0] == fields@[i as int]);
                        assert(fields@.skip(i as int).drop_first() =~= fields@.skip(i + 1));
                    }
                    if fields[i].0 == k {
                        proof {
                            assert(lookup(fields@.skip(i as int), key@) == Some(fields@[i as int].1));
                        }
                        return Some(&fields[i].1);
                    }
                    i = i + 1;
                }
                proof {
                    assert(fields@.skip(i as int).len() == 0);
                }
                None
            },
            _ => None,
        }
    }

    /// The text, when this is a string.
    pub fn as_text(&self) -> (r: Option<&String>)
        ensures
            match r {
                Some(s) => text_of(*self) == Some(s@),
                None => text_of(*self) is None,
            },
    {
        match self {
            Json::Str(s) => Some(s),
            _ => None,
        }
    }

    /// The value, when this is an unsigned integer.
    pub fn as_uint(&self) -> (r: Option<u64>)
        ensures
            r == uint_of(*self),
    {
        match self {
            Json::UInt(n) => Some(*n),
            _ => None,
        }
    }

    /// The elements, when this is an array.
    pub fn as_items(&self) -> (r: Option<&Vec<Json>>)
        ensures
            match r {
                Some(v) => items_of(*self) == Some(v@),
                None => items_of(*self) is None,
            },
    {
        match self {
            Json::Array(items) => Some(items),
            _ => None,
        }
    }
}

} // verus!
