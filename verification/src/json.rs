//! A JSON document model for persisted node parameter values.
//!
//! A value is held as its tokens in document order: scalars are single tokens, an array is its
//! element count followed by its elements, an object is its member count followed by each key and
//! value, keys in key order (the order in which JSON maps are stored and compared). Two values are
//! equal exactly when their tokens are.

use vstd::prelude::*;
use crate::value::Decimal;

verus! {

/// A JSON number: a non-negative integer, a negative integer, or a finite real.
#[derive(Debug, Clone, Copy, PartialEq, Eq, Structural)]
pub enum JsonNumber {
    PosInt(u64),
    NegInt(i64),
    Float(Decimal),
}

/// One token of a JSON value in document order.
#[derive(Debug, Clone)]
pub enum JsonToken {
    Null,
    Bool(bool),
    Number(JsonNumber),
    String(String),
    /// Starts an array of the given number of elements.
    ArrayStart(usize),
    /// Starts an object of the given number of members.
    ObjectStart(usize),
    /// The key of the object member whose value follows.
    Key(String),
}

/// A JSON value, as its tokens in document order.
#[derive(Debug, Clone)]
pub struct JsonValue {
    pub tokens: Vec<JsonToken>,
}

/// Equality of JSON numbers: same representation, reals compared as numbers.
pub open spec fn number_same(x: JsonNumber, y: JsonNumber) -> bool {
    match (x, y) {
        (JsonNumber::PosInt(a), JsonNumber::PosInt(b)) => a == b,
        (JsonNumber::NegInt(a), JsonNumber::NegInt(b)) => a == b,
        (JsonNumber::Float(a), JsonNumber::Float(b)) => a.same_number(b),
        _ => false,
    }
}

/// Equality of two tokens.
pub open spec fn token_same(x: JsonToken, y: JsonToken) -> bool {
    match x {
        JsonToken::Null => y is Null,
        JsonToken::Bool(a) => y matches JsonToken::Bool(b) && a == b,
        JsonToken::Number(a) => y matches JsonToken::Number(b) && number_same(a, b),
        JsonToken::String(a) => y matches JsonToken::String(b) && a@ == b@,
        JsonToken::ArrayStart(a) => y matches JsonToken::ArrayStart(b) && a == b,
        JsonToken::ObjectStart(a) => y matches JsonToken::ObjectStart(b) && a == b,
        JsonToken::Key(a) => y matches JsonToken::Key(b) && a@ == b@,
    }
}

impl JsonValue {
    /// Whether two values are equal as JSON.
    pub open spec fn same(self, other: JsonValue) -> bool {
        &&& self.tokens@.len() == other.tokens@.len()
        &&& forall|i: int|
            0 <= i < self.tokens@.len() ==> token_same(#[trigger] self.tokens@[i], other.tokens@[i])
    }

    /// The string held by a JSON string value.
    pub open spec fn string_text(self) -> Option<Seq<char>> {
        if self.tokens@.len() == 1 {
            match self.tokens@[0] {
                JsonToken::String(s) => Some(s@),
                _ => None,
            }
        } else {
            None
        }
    }

    /// Returns the string held by a JSON string value.
    pub fn as_str(&self) -> (text: Option<&str>)
        ensures
            text matches Some(t) ==> self.string_text() == Some(t@),
            text is None ==> self.string_text() is None,
    {
        if self.tokens.len() == 1 {
            match &self.tokens[0] {
                JsonToken::String(s) => Some(s.as_str()),
                _ => None,
            }
        } else {
            None
        }
    }

    /// Builds a JSON string value.
    pub fn from_text(text: &str) -> (value: JsonValue)
        ensures
            value.string_text() == Some(text@),
            value.tokens@.len() == 1,
            value.tokens@[0] matches JsonToken::String(s) && s@ == text@,
    {
        JsonValue { tokens: vec![JsonToken::String(text.to_owned())] }
    }

    /// Builds a JSON boolean value.
    pub fn from_bool(flag: bool) -> (value: JsonValue)
        ensures
            value.tokens@ == seq![JsonToken::Bool(flag)],
    {
        JsonValue { tokens: vec![JsonToken::Bool(flag)] }
    }

    /// Builds a JSON number value.
    pub fn from_number(number: JsonNumber) -> (value: JsonValue)
        ensures
            value.tokens@ == seq![JsonToken::Number(number)],
    {
        JsonValue { tokens: vec![JsonToken::Number(number)] }
    }

    /// Builds the JSON `null` value.
    pub fn null() -> (value: JsonValue)
        ensures
            value.tokens@ == seq![JsonToken::Null],
    {
        JsonValue { tokens: vec![JsonToken::Null] }
    }
}

/// Returns whether two JSON numbers are equal.
pub fn number_equal(x: &JsonNumber, y: &JsonNumber) -> (same: bool)
    ensures
        same == number_same(*x, *y),
{
    match (x, y) {
        (JsonNumber::PosInt(a), JsonNumber::PosInt(b)) => *a == *b,
        (JsonNumber::NegInt(a), JsonNumber::NegInt(b)) => *a == *b,
        (JsonNumber::Float(a), JsonNumber::Float(b)) => a.same_as(b),
        _ => false,
    }
}

fn token_equal(x: &JsonToken, y: &JsonToken) -> (same: bool)
    ensures
        same == token_same(*x, *y),
{
    match x {
        JsonToken::Null => match y {
            JsonToken::Null => true,
            _ => false,
        },
        JsonToken::Bool(a) => match y {
            JsonToken::Bool(b) => *a == *b,
            _ => false,
        },
        JsonToken::Number(a) => match y {
            JsonToken::Number(b) => number_equal(a, b),
            _ => false,
        },
        JsonToken::String(a) => match y {
            JsonToken::String(b) => *a == *b,
            _ => false,
        },
        JsonToken::ArrayStart(a) => match y {
            JsonToken::ArrayStart(b) => *a == *b,
            _ => false,
        },
        JsonToken::ObjectStart(a) => match y {
            JsonToken::ObjectStart(b) => *a == *b,
            _ => false,
        },
        JsonToken::Key(a) => match y {
            JsonToken::Key(b) => *a == *b,
            _ => false,
        },
    }
}

/// Returns whether two JSON values are equal.
pub fn json_equal(a: &JsonValue, b: &JsonValue) -> (same: bool)
    ensures
        same == a.same(*b),
{
    if a.tokens.len() != b.tokens.len() {
        return false;
    }
    let mut i: usize = 0;
    while i < a.tokens.len()
        invariant
            a.tokens@.len() == b.tokens@.len(),
            0 <= i <= a.tokens@.len(),
            forall|k: int| 0 <= k < i ==> token_same(#[trigger] a.tokens@[k], b.tokens@[k]),
        decreases a.tokens@.len() - i,
    {
        if !token_equal(&a.tokens[i], &b.tokens[i]) {
            return false;
        }
        i = i + 1;
    }
    true
}

} // verus!
