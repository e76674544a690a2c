//! JSON values as the RPC logic reads them, and the lookups it performs.
use vstd::prelude::*;

use crate::text::chars_of;

verus! {

/// A JSON number: its text as the JSON parser prints it, and its value when it
/// is a non-negative integer that fits in 64 bits.
#[derive(Clone, Debug)]
pub struct JsonNumber {
    pub text: String,
    pub unsigned: Option<u64>,
}

/// A JSON value.
#[derive(Debug)]
pub enum Json {
    Null,
    Bool(bool),
    Number(JsonNumber),
    Str(String),
    Array(Vec<Json>),
    /// An object's members: their names, and their values at the same positions.
    Object(Vec<String>, Vec<Json>),
}

/// The value of the first member named `name`.
pub open spec fn member_value(keys: Seq<String>, values: Seq<Json>, name: Seq<char>) -> Option<Json>
    decreases keys.len(),
{
    if keys.len() == 0 || values.len() == 0 {
        None
    } else if keys[0]@ == name {
        Some(values[0])
    } else {
        member_value(keys.drop_first(), values.drop_first(), name)
    }
}

/// The value of member `name` of an object; `None` for other values.
pub open spec fn field(v: Json, name: Seq<char>) -> Option<Json> {
    match v {
        Json::Object(keys, values) => member_value(keys@, values@, name),
        _ => None,
    }
}

/// The text of a string value.
pub open spec fn as_text(v: Json) -> Option<Seq<char>> {
    match v {
        Json::Str(s) => Some(s@),
        _ => None,
    }
}

/// The value of a number that is a non-negative 64-bit integer.
pub open spec fn as_unsigned(v: Json) -> Option<u64> {
    match v {
        Json::Number(n) => n.unsigned,
        _ => None,
    }
}

/// The elements of an array.
pub open spec fn as_items(v: Json) -> Option<Seq<Json>> {
    match v {
        Json::Array(items) => Some(items@),
        _ => None,
    }
}

/// An optional value's member `name`.
pub open spec fn opt_field(v: Option<Json>, name: Seq<char>) -> Option<Json> {
    match v {
        Some(j) => field(j, name),
        None => None,
    }
}

/// An optional value as text.
pub open spec fn opt_text(v: Option<Json>) -> Option<Seq<char>> {
    match v {
        Some(j) => as_text(j),
        None => None,
    }
}

/// An optional value as a non-negative 64-bit integer.
pub open spec fn opt_unsigned(v: Option<Json>) -> Option<u64> {
    match v {
        Some(j) => as_unsigned(j),
        None => None,
    }
}

/// Whether two string slices hold the same text.
pub fn text_eq(a: &str, b: &str) -> (r: bool)
    ensures
        r == (a@ == b@),
{
    let x = chars_of(a);
    let y = chars_of(b);
    if x.len() != y.len() {
        return false;
    }
    let n = x.len();
    let mut i: usize = 0;
    while i < n
        invariant
            x@ == a@,
            y@ == b@,
            n == x@.len(),
            n == y@.len(),
            i <= n,
            forall|k: int| 0 <= k < i ==> x@[k] == y@[k],
        decreases n - i,
    {
        if x[i] != y[i] {
            assert(x@[i as int] != y@[i as int]);
            return false;
        }
        i = i + 1;
    }
    assert(x@ =~= y@);
    true
}

impl Json {
    /// The value of member `name`, when this is an object that has one.
    pub fn get(&self, name: &str) -> (r: Option<&Json>)
        ensures
            match r {
                Some(j) => field(*self, name@) == Some(*j),
                None => field(*self, name@) is None,
            },
    {
        match self {
            Json::Object(keys, values) => {
                let n = if keys.len() < values.len() { keys.len() } else { values.len() };
                let mut i: usize = 0;
                assert(keys@.skip(0) =~= keys@);
                assert(values@.skip(0) =~= values@);
                while i < n
                    invariant
                        field(*self, name@) == member_value(keys@, values@, name@),
                        n <= keys@.len(),
                        n <= values@.len(),
                        n == keys@.len() || n == values@.len(),
                        i <= n,
                        member_value(keys@, values@, name@) == member_value(
                            keys@.skip(i as int),
                            values@.skip(i as int),
                            name@,
                        ),
                    decreases n - i,
                {
                    assert(keys@.skip(i as int).drop_first() =~= keys@.skip(i + 1));
                    assert(values@.skip(i as int).drop_first() =~= values@.skip(i + 1));
                    if text_eq(keys[i].as_str(), name) {
                        assert(keys@.skip(i as int)[0] == keys@[i as int]);
                        assert(values@.skip(i as int)[0] == values@[i as int]);
                        return Some(&values[i]);
                    }
                    i = i + 1;
                }
                None
            },
            _ => None,
        }
    }

    /// The text of a string value.
    pub fn as_str(&self) -> (r: Option<&str>)
        ensures
            match r {
                Some(s) => as_text(*self) == Some(s@),
                None => as_text(*self) is None,
            },
    {
        match self {
            Json::Str(s) => Some(s.as_str()),
            _ => None,
        }
    }

    /// The value of a number that is a non-negative 64-bit integer.
    pub fn as_u64(&self) -> (r: Option<u64>)
        ensures
            r == as_unsigned(*self),
    {
        match self {
            Json::Number(n) => n.unsigned,
            _ => None,
        }
    }

    /// The elements of an array.
    pub fn as_array(&self) -> (r: Option<&Vec<Json>>)
        ensures
            match r {
                Some(v) => as_items(*self) == Some(v@),
                None => as_items(*self) is None,
            },
    {
        match self {
            Json::Array(items) => Some(items),
            _ => None,
        }
    }
}

} // verus!
