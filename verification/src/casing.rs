//! The casing of emitted names.
//!
//! Fields are declared in snake case and emitted in Pascal case: the
//! underscores go, and the letter that opens each word is capitalised.

use crate::sink::push_char;
use vstd::prelude::*;

verus! {

/// The capital of an ASCII lower-case letter; any other character itself.
pub open spec fn upper(c: char) -> char {
    if 'a' <= c && c <= 'z' {
        ((c as u8) - 32) as u8 as char
    } else {
        c
    }
}

/// The Pascal-case form of the first `n` characters of `name`, together
/// with whether the character after them opens a word.
pub open spec fn pascal_prefix(name: Seq<char>, n: nat) -> (Seq<char>, bool)
    decreases n,
{
    if n == 0 || n > name.len() {
        (Seq::empty(), true)
    } else {
        let (done, opens_word) = pascal_prefix(name, (n - 1) as nat);
        let c = name[n - 1];
        if c == '_' {
            (done, true)
        } else if opens_word {
            (done.push(upper(c)), false)
        } else {
            (done.push(c), false)
        }
    }
}

/// The Pascal-case form of a snake-case name.
pub open spec fn pascal_case(name: Seq<char>) -> Seq<char> {
    pascal_prefix(name, name.len()).0
}

/// Capitalises an ASCII lower-case letter.
pub fn to_upper(c: char) -> (capital: char)
    ensures
        capital == upper(c),
{
    if 'a' <= c && c <= 'z' {
        ((c as u8) - 32) as char
    } else {
        c
    }
}

/// Converts a snake-case name to Pascal case.
pub fn to_pascal_case(name: &str) -> (converted: String)
    ensures
        converted@ == pascal_case(name@),
{
    let mut converted = String::new();
    let mut opens_word = true;
    for c in it: name.chars()
        invariant
            it.seq() == name@,
            (converted@, opens_word) == pascal_prefix(name@, it.index() as nat),
    {
        if c == '_' {
            opens_word = true;
        } else if opens_word {
            push_char(&mut converted, to_upper(c));
            opens_word = false;
        } else {
            push_char(&mut converted, c);
            opens_word = false;
        }
    }
    converted
}

} // verus!
