//! The instruction tokens that the tracker reads and the shift rewrites.

use vstd::prelude::*;

verus! {

/// The value that a letter-coded field carries.
///
/// Numbers are fixed-point integers in whatever unit the stream's producer
/// chose; the transforms here never rescale them.
#[derive(Debug, Clone)]
pub enum Value {
    Number(i64),
    Text(String),
}

/// A letter-coded field, such as `X12` or `M5`.
#[derive(Debug, Clone)]
pub struct Field {
    pub letters: String,
    pub value: Value,
}

/// One token of an instruction stream.
#[derive(Debug, Clone)]
pub enum Token {
    /// Switch to absolute distance mode.
    AbsoluteMode,
    /// Switch to relative distance mode.
    RelativeMode,
    Field(Field),
    /// Any other token (comment, flag, ...), passed through untouched.
    Other,
}

/// The field's letters are exactly the one character `c`.
pub open spec fn has_letter(f: Field, c: char) -> bool {
    f.letters@ == seq![c]
}

/// The numeric reading of a value, if it has one.
pub open spec fn numeric(v: Value) -> Option<int> {
    match v {
        Value::Number(n) => Some(n as int),
        Value::Text(_) => None,
    }
}

/// The token with its field value replaced by the number `n`; tokens that
/// are not fields are returned as they are.
pub open spec fn with_number(t: Token, n: i64) -> Token {
    match t {
        Token::Field(f) => Token::Field(Field { letters: f.letters, value: Value::Number(n) }),
        _ => t,
    }
}

/// Whether `s` consists of the single character `c`.
pub fn letters_are(s: &String, c: char) -> (r: bool)
    ensures
        r == (s@ == seq![c]),
{
    let st = s.as_str();
    if st.unicode_len() == 1 {
        let first = st.get_char(0);
        if first == c {
            assert(st@ =~= seq![c]);
            true
        } else {
            false
        }
    } else {
        false
    }
}

impl Value {
    /// The value as a number, or `None` when it is text.
    pub fn as_number(&self) -> (r: Option<i64>)
        ensures
            match r {
                Some(n) => numeric(*self) == Some(n as int),
                None => numeric(*self) is None,
            },
    {
        match self {
            Value::Number(n) => Some(*n),
            Value::Text(_) => None,
        }
    }
}

} // verus!
