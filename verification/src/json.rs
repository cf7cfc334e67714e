//! A JSON document as the parsers of this crate read it.
//!
//! Provider replies arrive as JSON; the HTTP layer decodes them and hands the
//! parsers a [`Json`] value. Objects keep their members in order; a lookup
//! answers with the first member of the given name.

use vstd::prelude::*;
use crate::text::same_text;

verus! {

/// A JSON number: its value as an `i64` where it is an integer in range, and
/// the IEEE-754 bit pattern of its value as an `f64`.
pub struct JsonNumber {
    pub int: Option<i64>,
    pub bits: u64,
}

/// A JSON value.
pub enum Json {
    Null,
    Bool(bool),
    Number(JsonNumber),
    String(String),
    Array(Vec<Json>),
    Object(Vec<(String, Json)>),
}

/// The value of the first member named `key`.
pub open spec fn entry_lookup(entries: Seq<(String, Json)>, key: Seq<char>) -> Option<Json>
    decreases entries.len(),
{
    if entries.len() == 0 {
        None
    } else if entries[0].0@ == key {
        Some(entries[0].1)
    } else {
        entry_lookup(entries.drop_first(), key)
    }
}

impl Json {
    /// The member `key` of an object; `None` for a missing member or a non-object.
    pub open spec fn field(self, key: Seq<char>) -> Option<Json> {
        match self {
            Json::Object(entries) => entry_lookup(entries@, key),
            _ => None,
        }
    }

    /// The characters of a JSON string.
    pub open spec fn text(self) -> Option<Seq<char>> {
        match self {
            Json::String(s) => Some(s@),
            _ => None,
        }
    }

    /// The value of a JSON boolean.
    pub open spec fn flag(self) -> Option<bool> {
        match self {
            Json::Bool(b) => Some(b),
            _ => None,
        }
    }

    /// The value of a JSON number that is an integer within `i64`.
    pub open spec fn integer(self) -> Option<i64> {
        match self {
            Json::Number(n) => n.int,
            _ => None,
        }
    }

    /// The elements of a JSON array.
    pub open spec fn items(self) -> Option<Seq<Json>> {
        match self {
            Json::Array(v) => Some(v@),
            _ => None,
        }
    }

    /// The member `key` of an object (`serde_json::Value::get` with a string key).
    pub fn get(&self, key: &str) -> (r: Option<&Json>)
        ensures
            match r {
                Some(x) => self.field(key@) == Some(*x),
                None => self.field(key@) is None,
            },
    {
        match self {
            Json::Object(entries) => {
                let n = entries.len();
                let mut i: usize = 0;
                assert(entries@.skip(0) =~= entries@);
                while i < n
                    invariant
                        n == entries@.len(),
                        i <= n,
                        self.field(key@) == entry_lookup(entries@, key@),
                        entry_lookup(entries@, key@) == entry_lookup(entries@.skip(i as int), key@),
                    decreases n - i,
                {
                    proof {
                        assert(entries@.skip(i as int).drop_first() =~= entries@.skip(i + 1));
                    }
                    assert(entries@.skip(i as int)[0] == entries@[i as int]);
                    if same_text(entries[i].0.as_str(), key) {
                        return Some(&entries[i].1);
                    }
                    i = i + 1;
                }
                assert(entries@.skip(n as int).len() == 0);
                None
            },
            _ => None,
        }
    }

    /// The characters of a JSON string (`as_str`).
    pub fn as_str(&self) -> (r: Option<&str>)
        ensures
            match r {
                Some(t) => self.text() == Some(t@),
                None => self.text() is None,
            },
    {
        match self {
            Json::String(s) => Some(s.as_str()),
            _ => None,
        }
    }

    /// The value of a JSON boolean (`as_bool`).
    pub fn as_bool(&self) -> (r: Option<bool>)
        ensures
            r == self.flag(),
    {
        match self {
            Json::Bool(b) => Some(*b),
            _ => None,
        }
    }

    /// The value of an integral JSON number within `i64` (`as_i64`).
    pub fn as_i64(&self) -> (r: Option<i64>)
        ensures
            r == self.integer(),
    {
        match self {
            Json::Number(n) => n.int,
            _ => None,
        }
    }

    /// The elements of a JSON array (`as_array`).
    pub fn as_array(&self) -> (r: Option<&Vec<Json>>)
        ensures
            match r {
                Some(v) => self.items() == Some(v@),
                None => self.items() is None,
            },
    {
        match self {
            Json::Array(v) => Some(v),
            _ => None,
        }
    }
}

/// The text of member `key`, when that member is a string
/// (`v.get(key).and_then(|s| s.as_str())`).
pub open spec fn field_text(v: Json, key: Seq<char>) -> Option<Seq<char>> {
    match v.field(key) {
        Some(x) => x.text(),
        None => None,
    }
}

/// The string member `key` of `v`.
pub fn get_str<'a>(v: &'a Json, key: &str) -> (r: Option<&'a str>)
    ensures
        match r {
            Some(t) => field_text(*v, key@) == Some(t@),
            None => field_text(*v, key@) is None,
        },
{
    match v.get(key) {
        Some(x) => x.as_str(),
        None => None,
    }
}

} // verus!
