//! JSON values as plain data, read from and written to text by serde_json.

use serde_json::{Number, Value};
use vstd::prelude::*;
use vstd::string::*;
use crate::text::str_eq;

verus! {

/// A JSON value. Numbers are kept as integers when they fit `i64` or `u64`,
/// and otherwise by their text.
#[derive(Debug, PartialEq)]
pub enum Json {
    Null,
    Bool(bool),
    Int(i64),
    UInt(u64),
    Float(String),
    Str(String),
    Array(Vec<Json>),
    Object(Vec<(String, Json)>),
}

/// The mathematical form of a JSON value; both kinds of integer are one.
pub enum JsonV {
    Null,
    Bool(bool),
    Int(int),
    Float(Seq<char>),
    Str(Seq<char>),
    Array(Seq<JsonV>),
    Object(Seq<(Seq<char>, JsonV)>),
}

/// The mathematical form of a value.
pub open spec fn json_view(j: Json) -> JsonV
    decreases j,
{
    match j {
        Json::Null => JsonV::Null,
        Json::Bool(b) => JsonV::Bool(b),
        Json::Int(i) => JsonV::Int(i as int),
        Json::UInt(u) => JsonV::Int(u as int),
        Json::Float(s) => JsonV::Float(s@),
        Json::Str(s) => JsonV::Str(s@),
        Json::Array(a) => JsonV::Array(items_view(a@)),
        Json::Object(o) => JsonV::Object(entries_view(o@)),
    }
}

/// The mathematical forms of a sequence of values.
pub open spec fn items_view(s: Seq<Json>) -> Seq<JsonV>
    decreases s,
{
    if s.len() == 0 {
        Seq::empty()
    } else {
        items_view(s.drop_last()).push(json_view(s.last()))
    }
}

/// The mathematical forms of the members of an object.
pub open spec fn entries_view(s: Seq<(String, Json)>) -> Seq<(Seq<char>, JsonV)>
    decreases s,
{
    if s.len() == 0 {
        Seq::empty()
    } else {
        entries_view(s.drop_last()).push((s.last().0@, json_view(s.last().1)))
    }
}

impl View for Json {
    type V = JsonV;

    open spec fn view(&self) -> JsonV {
        json_view(*self)
    }
}

/// The value of the first member named `key`, searching from the front.
pub open spec fn find_entry(es: Seq<(Seq<char>, JsonV)>, key: Seq<char>) -> Option<JsonV>
    decreases es.len(),
{
    if es.len() == 0 {
        None
    } else if es[0].0 == key {
        Some(es[0].1)
    } else {
        find_entry(es.drop_first(), key)
    }
}

/// The member `key` of an object; nothing for other values.
pub open spec fn field_of(j: JsonV, key: Seq<char>) -> Option<JsonV> {
    match j {
        JsonV::Object(es) => find_entry(es, key),
        _ => None,
    }
}

/// The member `key` of an object, and null where there is none.
pub open spec fn member(j: JsonV, key: Seq<char>) -> JsonV {
    match field_of(j, key) {
        Some(v) => v,
        None => JsonV::Null,
    }
}

/// The text of a string value.
pub open spec fn str_of(j: JsonV) -> Option<Seq<char>> {
    match j {
        JsonV::Str(s) => Some(s),
        _ => None,
    }
}

/// An integer value that fits `i64`.
pub open spec fn i64_of(j: JsonV) -> Option<int> {
    match j {
        JsonV::Int(i) => if i64::MIN <= i <= i64::MAX {
            Some(i)
        } else {
            None
        },
        _ => None,
    }
}

/// An integer value that fits `u64`.
pub open spec fn u64_of(j: JsonV) -> Option<int> {
    match j {
        JsonV::Int(i) => if 0 <= i <= u64::MAX {
            Some(i)
        } else {
            None
        },
        _ => None,
    }
}

/// What `serde_json::from_str` reads from a text, when it is valid JSON.
pub uninterp spec fn parsed_json(text: Seq<char>) -> Option<JsonV>;

/// The message of the error that `serde_json::from_str` gives on a text.
pub uninterp spec fn parse_error_text(text: Seq<char>) -> Seq<char>;

/// The compact text that serde_json writes for a value.
pub uninterp spec fn json_text(j: JsonV) -> Seq<char>;

pub proof fn lemma_items_view(s: Seq<Json>)
    ensures
        items_view(s).len() == s.len(),
        forall|i: int| 0 <= i < s.len() ==> #[trigger] items_view(s)[i] == json_view(s[i]),
    decreases s.len(),
{
    if s.len() > 0 {
        lemma_items_view(s.drop_last());
    }
}

pub proof fn lemma_entries_view(s: Seq<(String, Json)>)
    ensures
        entries_view(s).len() == s.len(),
        forall|i: int|
            0 <= i < s.len() ==> #[trigger] entries_view(s)[i] == (s[i].0@, json_view(s[i].1)),
    decreases s.len(),
{
    if s.len() > 0 {
        lemma_entries_view(s.drop_last());
    }
}

proof fn lemma_find_entry_skip(es: Seq<(Seq<char>, JsonV)>, key: Seq<char>, i: int)
    requires
        0 <= i < es.len(),
        es[i].0 != key,
    ensures
        find_entry(es.skip(i), key) == find_entry(es.skip(i + 1), key),
{
    assert(es.skip(i).drop_first() =~= es.skip(i + 1));
}

impl Json {
    /// The member `key` of an object; `None` for a missing member or a
    /// value that is not an object.
    pub fn get(&self, key: &str) -> (r: Option<&Json>)
        ensures
            r is None <==> field_of(self@, key@) is None,
            r matches Some(v) ==> field_of(self@, key@) == Some(v@),
    {
        match self {
            Json::Object(entries) => {
                let ghost es = entries_view(entries@);
                proof {
                    lemma_entries_view(entries@);
                    assert(es.skip(0) =~= es);
                }
                let mut i: usize = 0;
                while i < entries.len()
                    invariant
                        *self == Json::Object(*entries),
                        es == entries_view(entries@),
                        es.len() == entries@.len(),
                        forall|k: int| 0 <= k < entries@.len() ==> #[trigger] es[k] == (entries@[k].0@, json_view(entries@[k].1)),
                        i <= entries@.len(),
                        find_entry(es, key@) == find_entry(es.skip(i as int), key@),
                    decreases entries@.len() - i,
                {
                    if str_eq(entries[i].0.as_str(), key) {
                        proof {
                            assert(es.skip(i as int)[0] == es[i as int]);
                        }
                        return Some(&entries[i].1);
                    }
                    proof {
                        lemma_find_entry_skip(es, key@, i as int);
                    }
                    i = i + 1;
                }
                None
            },
            _ => None,
        }
    }

    /// The text of a string value.
    pub fn as_str(&self) -> (r: Option<&str>)
        ensures
            r is None <==> str_of(self@) is None,
            r matches Some(s) ==> str_of(self@) == Some(s@),
    {
        match self {
            Json::Str(s) => Some(s.as_str()),
            _ => None,
        }
    }

    /// An integer value that fits `i64`.
    pub fn as_i64(&self) -> (r: Option<i64>)
        ensures
            r is None <==> i64_of(self@) is None,
            r matches Some(i) ==> i64_of(self@) == Some(i as int),
    {
        match self {
            Json::Int(i) => Some(*i),
            Json::UInt(u) => if *u <= 0x7fff_ffff_ffff_ffff {
                Some(*u as i64)
            } else {
                None
            },
            _ => None,
        }
    }

    /// An integer value that fits `u64`.
    pub fn as_u64(&self) -> (r: Option<u64>)
        ensures
            r is None <==> u64_of(self@) is None,
            r matches Some(u) ==> u64_of(self@) == Some(u as int),
    {
        match self {
            Json::Int(i) => if *i >= 0 {
                Some(*i as u64)
            } else {
                None
            },
            Json::UInt(u) => Some(*u),
            _ => None,
        }
    }

    /// The items of an array.
    pub fn as_array(&self) -> (r: Option<&Vec<Json>>)
        ensures
            r is None <==> !(self@ is Array),
            r matches Some(a) ==> self@ == JsonV::Array(items_view(a@)),
    {
        match self {
            Json::Array(a) => Some(a),
            _ => None,
        }
    }

    /// Whether the value is null.
    pub fn is_null(&self) -> (r: bool)
        ensures
            r == (self@ is Null),
    {
        match self {
            Json::Null => true,
            _ => false,
        }
    }

    /// A string value.
    pub fn string(s: &str) -> (r: Json)
        ensures
            r@ == JsonV::Str(s@),
    {
        Json::Str(String::from_str(s))
    }

    /// A copy of the value.
    pub fn deep_clone(&self) -> (r: Json)
        ensures
            r@ == self@,
        decreases self,
    {
        match self {
            Json::Null => Json::Null,
            Json::Bool(b) => Json::Bool(*b),
            Json::Int(i) => Json::Int(*i),
            Json::UInt(u) => Json::UInt(*u),
            Json::Float(s) => Json::Float(s.clone()),
            Json::Str(s) => Json::Str(s.clone()),
            Json::Array(a) => {
                let mut out: Vec<Json> = Vec::new();
                let mut i: usize = 0;
                while i < a.len()
                    invariant
                        *self == Json::Array(*a),
                        i <= a@.len(),
                        out@.len() == i,
                        forall|k: int| 0 <= k < i ==> #[trigger] out@[k]@ == a@[k]@,
                    decreases a@.len() - i,
                {
                    proof {
                        assert(decreases_to!(*self => self->Array_0));
                        assert(decreases_to!(self->Array_0 => self->Array_0@));
                        assert(0 <= i < self->Array_0@.len());
                        assert(decreases_to!(self->Array_0@ => self->Array_0@[i as int]));
                    }
                    out.push(a[i].deep_clone());
                    i = i + 1;
                }
                proof {
                    lemma_items_view(a@);
                    lemma_items_view(out@);
                    assert forall|k: int| 0 <= k < a@.len() implies items_view(out@)[k] == items_view(a@)[k] by {
                        assert(out@[k]@ == a@[k]@);
                    }
                    assert(items_view(out@) =~= items_view(a@));
                }
                Json::Array(out)
            },
            Json::Object(o) => {
                let mut out: Vec<(String, Json)> = Vec::new();
                let mut i: usize = 0;
                while i < o.len()
                    invariant
                        *self == Json::Object(*o),
                        i <= o@.len(),
                        out@.len() == i,
                        forall|k: int| 0 <= k < i ==> #[trigger] out@[k].0@ == o@[k].0@ && out@[k].1@ == o@[k].1@,
                    decreases o@.len() - i,
                {
                    proof {
                        assert(decreases_to!(*self => self->Object_0));
                        assert(decreases_to!(self->Object_0 => self->Object_0@));
                        assert(0 <= i < self->Object_0@.len());
                        assert(decreases_to!(self->Object_0@ => self->Object_0@[i as int]));
                        assert(decreases_to!(self->Object_0@[i as int] => self->Object_0@[i as int].1));
                    }
                    out.push((o[i].0.clone(), o[i].1.deep_clone()));
                    i = i + 1;
                }
                proof {
                    lemma_entries_view(o@);
                    lemma_entries_view(out@);
                    assert(entries_view(out@) =~= entries_view(o@));
                }
                Json::Object(out)
            },
        }
    }
}

/// Appends a member to the members of an object under construction.
pub fn push_member(entries: &mut Vec<(String, Json)>, key: &str, value: Json)
    ensures
        entries_view(final(entries)@) == entries_view(old(entries)@).push((key@, value@)),
{
    entries.push((String::from_str(key), value));
    proof {
        assert(final(entries)@.drop_last() =~= old(entries)@);
    }
}

/// Appends an item to the items of an array under construction.
pub fn push_item(items: &mut Vec<Json>, value: Json)
    ensures
        items_view(final(items)@) == items_view(old(items)@).push(value@),
{
    items.push(value);
    proof {
        assert(final(items)@.drop_last() =~= old(items)@);
    }
}

/// The optional value of an optional JSON value.
pub open spec fn opt_view(o: Option<Json>) -> Option<JsonV> {
    match o {
        Some(j) => Some(j@),
        None => None,
    }
}

/// The member `key` of an object, when it is present and not null.
pub open spec fn present_member(j: JsonV, key: Seq<char>) -> Option<JsonV> {
    match member(j, key) {
        JsonV::Null => None,
        v => Some(v),
    }
}

impl Json {
    /// The member `key` of an object, copied, when it is present and not
    /// null.
    pub fn present_member(&self, key: &str) -> (r: Option<Json>)
        ensures
            opt_view(r) == present_member(self@, key@),
    {
        match self.get(key) {
            Some(v) => if v.is_null() {
                None
            } else {
                Some(v.deep_clone())
            },
            None => None,
        }
    }

    /// The text of the string member `key` of an object.
    pub fn str_member(&self, key: &str) -> (r: Option<&str>)
        ensures
            r is None <==> str_of(member(self@, key@)) is None,
            r matches Some(s) ==> str_of(member(self@, key@)) == Some(s@),
    {
        match self.get(key) {
            Some(v) => v.as_str(),
            None => None,
        }
    }
}

/// serde_json's JSON value, carried opaquely between the wrappers below.
#[verifier::external_type_specification]
#[verifier::external_body]
pub struct ExValue(Value);

/// Converts a serde_json value node by node; relies on `Number::as_i64`,
/// `Number::as_u64` and `Number`'s `Display` to tell integers from other
/// numbers.
#[verifier::external_body]
fn from_serde(v: &Value) -> Json {
    match v {
        Value::Null => Json::Null,
        Value::Bool(b) => Json::Bool(*b),
        Value::Number(n) => match (n.as_i64(), n.as_u64()) {
            (Some(i), _) => Json::Int(i),
            (None, Some(u)) => Json::UInt(u),
            _ => Json::Float(n.to_string()),
        },
        Value::String(s) => Json::Str(s.clone()),
        Value::Array(a) => Json::Array(a.iter().map(from_serde).collect()),
        Value::Object(o) => Json::Object(o.iter().map(|(k, x)| (k.clone(), from_serde(x))).collect()),
    }
}

/// Converts to a serde_json value node by node; relies on `Value::from` for
/// integers and on `Number`'s `FromStr` to read back a number's text.
#[verifier::external_body]
fn to_serde(j: &Json) -> Value {
    match j {
        Json::Null => Value::Null,
        Json::Bool(b) => Value::Bool(*b),
        Json::Int(i) => Value::from(*i),
        Json::UInt(u) => Value::from(*u),
        Json::Float(s) => s.parse::<Number>().map_or(Value::Null, Value::Number),
        Json::Str(s) => Value::String(s.clone()),
        Json::Array(a) => Value::Array(a.iter().map(to_serde).collect()),
        Json::Object(o) => Value::Object(o.iter().map(|(k, x)| (k.clone(), to_serde(x))).collect()),
    }
}

/// Relies on `serde_json::from_str::<serde_json::Value>`: it reads a text
/// into the same value each time, or fails with the same message.
#[verifier::external_body]
pub(crate) fn parse_json(text: &str) -> (r: Result<Json, String>)
    ensures
        r is Ok <==> parsed_json(text@) is Some,
        r matches Ok(j) ==> parsed_json(text@) == Some(j@),
        r matches Err(m) ==> m@ == parse_error_text(text@),
{
    serde_json::from_str::<Value>(text).map(|v| from_serde(&v)).map_err(|e| e.to_string())
}

/// Relies on `serde_json::Value`'s `Display` (compact JSON), which writes
/// the same text for the same value.
#[verifier::external_body]
pub(crate) fn write_json(j: &Json) -> (r: String)
    ensures
        r@ == json_text(j@),
{
    to_serde(j).to_string()
}

impl Json {
    /// Reads JSON text; fails with serde_json's message.
    pub fn parse(text: &str) -> (r: Result<Json, String>)
        ensures
            r is Ok <==> parsed_json(text@) is Some,
            r matches Ok(j) ==> parsed_json(text@) == Some(j@),
            r matches Err(m) ==> m@ == parse_error_text(text@),
    {
        parse_json(text)
    }

    /// The value as compact JSON text.
    pub fn to_text(&self) -> (r: String)
        ensures
            r@ == json_text(self@),
    {
        write_json(self)
    }
}

} // verus!
