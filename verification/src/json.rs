use vstd::prelude::*;
use vstd::string::*;

use crate::text::same_text;

verus! {

/// A JSON number, as far as the library reads it: an integer that fits in `u64`,
/// a negative integer, or a floating-point value whose digits are never read.
#[derive(Clone, Copy, Debug, PartialEq, Eq)]
pub enum JsonNumber {
    PosInt(u64),
    NegInt(i64),
    Float,
}

/// A JSON document as the library reads and writes it. An object keeps its members in order;
/// reading a member finds the first one with the key.
#[derive(Debug)]
pub enum Json {
    Null,
    Bool(bool),
    Number(JsonNumber),
    Str(String),
    Array(Vec<Json>),
    Object(Vec<(String, Json)>),
}

/// The mathematical value of a JSON document.
pub enum JsonValue {
    Null,
    Bool(bool),
    Number(JsonNumber),
    Str(Seq<char>),
    Array(Seq<JsonValue>),
    Object(Seq<(Seq<char>, JsonValue)>),
}

impl Json {
    pub open spec fn value(self) -> JsonValue
        decreases self,
    {
        match self {
            Json::Null => JsonValue::Null,
            Json::Bool(b) => JsonValue::Bool(b),
            Json::Number(n) => JsonValue::Number(n),
            Json::Str(s) => JsonValue::Str(s@),
            Json::Array(v) => JsonValue::Array(
                Seq::new(
                    v@.len(),
                    |i: int|
                        if 0 <= i < v@.len() {
                            v@[i].value()
                        } else {
                            JsonValue::Null
                        },
                ),
            ),
            Json::Object(v) => JsonValue::Object(
                Seq::new(
                    v@.len(),
                    |i: int|
                        if 0 <= i < v@.len() {
                            (v@[i].0@, v@[i].1.value())
                        } else {
                            (Seq::empty(), JsonValue::Null)
                        },
                ),
            ),
        }
    }
}

impl View for Json {
    type V = JsonValue;

    open spec fn view(&self) -> JsonValue {
        self.value()
    }
}

/// The values of a sequence of documents.
pub open spec fn json_values(v: Seq<Json>) -> Seq<JsonValue> {
    v.map_values(|j: Json| j@)
}

/// The value of the first member named `key` among `members[from..]`, or `null`.
pub open spec fn member_from(members: Seq<(Seq<char>, JsonValue)>, key: Seq<char>, from: int) -> JsonValue
    decreases members.len() - from,
{
    if from < 0 || from >= members.len() {
        JsonValue::Null
    } else if members[from].0 == key {
        members[from].1
    } else {
        member_from(members, key, from + 1)
    }
}

impl JsonValue {
    /// `value[key]`: the member `key` of an object, or `null` for anything else.
    pub open spec fn field(self, key: Seq<char>) -> JsonValue {
        match self {
            JsonValue::Object(members) => member_from(members, key, 0),
            _ => JsonValue::Null,
        }
    }

    /// `value.as_str()`.
    pub open spec fn as_str(self) -> Option<Seq<char>> {
        match self {
            JsonValue::Str(s) => Some(s),
            _ => None,
        }
    }

    /// `value.as_u64()`: a number that is a non-negative integer.
    pub open spec fn as_u64(self) -> Option<u64> {
        match self {
            JsonValue::Number(JsonNumber::PosInt(n)) => Some(n),
            _ => None,
        }
    }

    /// `value.as_array()`.
    pub open spec fn as_array(self) -> Option<Seq<JsonValue>> {
        match self {
            JsonValue::Array(items) => Some(items),
            _ => None,
        }
    }

    /// `value.is_string()`.
    pub open spec fn is_string(self) -> bool {
        self is Str
    }

    /// The items of an array, or none for anything else (`as_array().unwrap_or_default()`).
    pub open spec fn items(self) -> Seq<JsonValue> {
        match self {
            JsonValue::Array(items) => items,
            _ => Seq::empty(),
        }
    }
}

impl Json {
    /// `self[key]`: the member `key` of an object; `None` stands for `null`.
    pub fn field(&self, key: &str) -> (r: Option<&Json>)
        ensures
            r matches Some(j) ==> j@ == self@.field(key@),
            r is None ==> self@.field(key@) == JsonValue::Null,
    {
        match self {
            Json::Object(members) => {
                let ghost mv = match self@ {
                    JsonValue::Object(m) => m,
                    _ => Seq::empty(),
                };
                assert(mv.len() == members@.len());
                let mut i: usize = 0;
                while i < members.len()
                    invariant
                        i <= members@.len(),
                        mv.len() == members@.len(),
                        forall|k: int| 0 <= k < members@.len() ==> #[trigger] mv[k] == (members@[k].0@, members@[k].1@),
                        self@.field(key@) == member_from(mv, key@, i as int),
                    decreases members.len() - i,
                {
                    if same_text(members[i].0.as_str(), key) {
                        assert(mv[i as int] == (members@[i as int].0@, members@[i as int].1@));
                        return Some(&members[i].1);
                    }
                    assert(mv[i as int] == (members@[i as int].0@, members@[i as int].1@));
                    i = i + 1;
                }
                None
            },
            _ => None,
        }
    }

    /// `self.as_str()`.
    pub fn as_str(&self) -> (r: Option<&String>)
        ensures
            r matches Some(s) ==> self@.as_str() == Some(s@),
            r is None ==> self@.as_str() is None,
    {
        match self {
            Json::Str(s) => Some(s),
            _ => None,
        }
    }

    /// `self.as_u64()`.
    pub fn as_u64(&self) -> (r: Option<u64>)
        ensures
            r == self@.as_u64(),
    {
        match self {
            Json::Number(JsonNumber::PosInt(n)) => Some(*n),
            _ => None,
        }
    }

    /// `self.is_string()`.
    pub fn is_string(&self) -> (r: bool)
        ensures
            r == self@.is_string(),
    {
        match self {
            Json::Str(_) => true,
            _ => false,
        }
    }

    /// `self.as_array()`.
    pub fn as_array(&self) -> (r: Option<&Vec<Json>>)
        ensures
            r matches Some(v) ==> self@.as_array() == Some(json_values(v@)),
            r is None ==> self@.as_array() is None,
    {
        match self {
            Json::Array(v) => {
                assert(self@.as_array().unwrap() =~= json_values(v@));
                Some(v)
            },
            _ => None,
        }
    }
}

/// A string document.
pub fn json_str(s: &str) -> (r: Json)
    ensures
        r@ == JsonValue::Str(s@),
{
    Json::Str(s.to_owned())
}

/// An object of one member.
pub fn json_object1(k: &str, v: Json) -> (r: Json)
    ensures
        r@ == JsonValue::Object(seq![(k@, v@)]),
{
    let mut members: Vec<(String, Json)> = Vec::new();
    members.push((k.to_owned(), v));
    let r = Json::Object(members);
    assert(r@ == JsonValue::Object(seq![(k@, v@)])) by {
        assert(r@->Object_0 =~= seq![(k@, v@)]);
    }
    r
}

} // verus!
verus! {

/// The values of the members of an object.
pub open spec fn member_values(m: Seq<(String, Json)>) -> Seq<(Seq<char>, JsonValue)> {
    m.map_values(|p: (String, Json)| (p.0@, p.1@))
}

/// An object with the given members, in order.
pub fn json_object(members: Vec<(String, Json)>) -> (r: Json)
    ensures
        r@ == JsonValue::Object(member_values(members@)),
{
    let ghost m = members@;
    let r = Json::Object(members);
    assert(r@->Object_0 =~= member_values(m));
    r
}

/// An array with the given items, in order.
pub fn json_array(items: Vec<Json>) -> (r: Json)
    ensures
        r@ == JsonValue::Array(json_values(items@)),
{
    let ghost m = items@;
    let r = Json::Array(items);
    assert(r@->Array_0 =~= json_values(m));
    r
}

/// A member of an object.
pub fn member(key: &str, value: Json) -> (r: (String, Json))
    ensures
        r.0@ == key@,
        r.1 == value,
{
    (key.to_owned(), value)
}

} // verus!
