//! The encoders of primitive values.
//!
//! A primitive is written the same way as an attribute value and as a text
//! node: a string as it is, a boolean as `true` or `false`, an integer in
//! decimal. Escaping is left to the writer.

use crate::sink::push_char;
use vstd::prelude::*;

verus! {

/// A value that is written as a single piece of text.
#[derive(Debug)]
pub enum Primitive {
    Text(String),
    Bool(bool),
    Integer(i128),
}

/// The character of a decimal digit.
pub open spec fn digit(d: int) -> char {
    if d == 0 {
        '0'
    } else if d == 1 {
        '1'
    } else if d == 2 {
        '2'
    } else if d == 3 {
        '3'
    } else if d == 4 {
        '4'
    } else if d == 5 {
        '5'
    } else if d == 6 {
        '6'
    } else if d == 7 {
        '7'
    } else if d == 8 {
        '8'
    } else {
        '9'
    }
}

/// The decimal digits of a natural number, most significant first, with no
/// leading zero.
pub open spec fn decimal_digits(n: nat) -> Seq<char>
    decreases n,
{
    if n < 10 {
        seq![digit(n as int)]
    } else {
        decimal_digits(n / 10).push(digit((n % 10) as int))
    }
}

/// The base-10 text of an integer, with a minus sign if it is negative.
pub open spec fn decimal(n: int) -> Seq<char> {
    if n < 0 {
        seq!['-'] + decimal_digits((-n) as nat)
    } else {
        decimal_digits(n as nat)
    }
}

/// The text of a boolean.
pub open spec fn bool_text(b: bool) -> Seq<char> {
    if b {
        seq!['t', 'r', 'u', 'e']
    } else {
        seq!['f', 'a', 'l', 's', 'e']
    }
}

impl Primitive {
    /// The text that stands for this value, before any escaping.
    pub open spec fn text(&self) -> Seq<char> {
        match self {
            Primitive::Text(s) => s@,
            Primitive::Bool(b) => bool_text(*b),
            Primitive::Integer(n) => decimal(*n as int),
        }
    }
}

/// The text of an integer is never empty.
pub proof fn lemma_decimal_nonempty(n: int)
    ensures
        decimal(n).len() > 0,
{
    if n < 0 {
        let m = (-n) as nat;
        assert(decimal_digits(m).len() > 0) by {
            if m >= 10 {
            }
        }
    } else {
        let m = n as nat;
        assert(decimal_digits(m).len() > 0) by {
            if m >= 10 {
            }
        }
    }
}

fn digit_char(d: u8) -> (c: char)
    requires
        d < 10,
    ensures
        c == digit(d as int),
{
    (48 + d) as char
}

fn push_digits(text: &mut String, n: u128)
    ensures
        final(text)@ == old(text)@ + decimal_digits(n as nat),
    decreases n,
{
    if n >= 10 {
        push_digits(text, n / 10);
    }
    push_char(text, digit_char((n % 10) as u8));
}

/// Writes an integer in decimal.
pub fn integer_text(n: i128) -> (text: String)
    ensures
        text@ == decimal(n as int),
{
    let mut text = String::new();
    if n < 0 {
        push_char(&mut text, '-');
        let magnitude: u128 = (-(n + 1)) as u128 + 1;
        push_digits(&mut text, magnitude);
    } else {
        push_digits(&mut text, n as u128);
    }
    text
}

/// Writes a boolean as the word `true` or `false`.
pub fn boolean_text(b: bool) -> (text: String)
    ensures
        text@ == bool_text(b),
{
    proof {
        reveal_strlit("true");
        reveal_strlit("false");
    }
    if b {
        let text = "true".to_owned();
        assert(text@ == bool_text(true));
        text
    } else {
        let text = "false".to_owned();
        assert(text@ == bool_text(false));
        text
    }
}

/// Encodes a primitive as the value of an attribute.
pub fn encode_attribute(value: &Primitive) -> (encoded: String)
    ensures
        encoded@ == value.text(),
{
    match value {
        Primitive::Text(s) => s.clone(),
        Primitive::Bool(b) => boolean_text(*b),
        Primitive::Integer(n) => integer_text(*n),
    }
}

/// Encodes a primitive as the content of a text node.
pub fn encode_content(value: &Primitive) -> (encoded: String)
    ensures
        encoded@ == value.text(),
{
    match value {
        Primitive::Text(s) => s.clone(),
        Primitive::Bool(b) => boolean_text(*b),
        Primitive::Integer(n) => integer_text(*n),
    }
}

} // verus!
