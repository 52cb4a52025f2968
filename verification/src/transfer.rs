//! Functions that take over a value, hand one out, or do both, each with a
//! contract that says what the caller holds afterwards.
use vstd::prelude::*;
use vstd::string::*;
use crate::decimal::{decimal, to_decimal};

verus! {

/// The line that reports a text taken over for good.
pub open spec fn owner_line(s: Seq<char>) -> Seq<char> {
    "s es el owner del String ["@ + s + "]"@
}

/// The line that reports a number received as a copy.
pub open spec fn copy_line(num: nat) -> Seq<char> {
    "num tiene el valor de "@ + decimal(num)
        + ", pero es una copia de la variable envida"@
}

/// Builds a greeting in two steps: a text is created from a literal and then
/// extended in place.
pub fn greeting() -> (saludo: String)
    ensures
        saludo@ == "Hey crustaceans!"@,
{
    let mut saludo = String::from_str("Hey");
    saludo.append(" crustaceans!");
    proof {
        reveal_strlit("Hey");
        reveal_strlit(" crustaceans!");
        reveal_strlit("Hey crustaceans!");
        assert(saludo@ =~= "Hey crustaceans!"@);
    }
    saludo
}

/// Takes over a text for good: the caller gets back only the line that
/// reports it, and the text itself ends here.
pub fn takes_ownership(s: String) -> (line: String)
    ensures
        line@ == owner_line(s@),
{
    let mut line = String::from_str("s es el owner del String [");
    line.append(s.as_str());
    line.append("]");
    line
}

/// Receives a number as a copy and returns the line that reports it; the
/// caller's own number stays as it was.
pub fn makes_copy(num: u32) -> (line: String)
    ensures
        line@ == copy_line(num as nat),
{
    let mut line = String::from_str("num tiene el valor de ");
    line.append(to_decimal(num as u64).as_str());
    line.append(", pero es una copia de la variable envida");
    line
}

/// Creates a text and hands it to the caller.
pub fn gives_ownership() -> (dummy_string: String)
    ensures
        dummy_string@ == "where do I own ?"@,
{
    let dummy_string = String::from_str("where do I own ?");
    dummy_string
}

/// Takes over a text and hands the very same text back to the caller.
pub fn takes_and_gives_ownership(sent_string: String) -> (returned: String)
    ensures
        returned == sent_string,
{
    sent_string
}

/// Takes over a text and hands it back together with its length, counted in
/// characters.
pub fn calculate_length(s: String) -> (pair: (String, usize))
    ensures
        pair.0 == s,
        pair.1 == s@.len(),
{
    let length = s.as_str().unicode_len();
    (s, length)
}

/// Duplicates a number by plain assignment: the caller gets back the number
/// and its copy, and both hold the value that was passed.
pub fn copies_scalar(x: u32) -> (both: (u32, u32))
    ensures
        both.0 == x,
        both.1 == x,
{
    let y: u32 = x;
    (x, y)
}

/// Duplicates a text by an explicit clone: the caller gets back the text and
/// its clone, and both hold the contents that were passed.
pub fn clones_text(s1: String) -> (both: (String, String))
    ensures
        both.0 == s1,
        both.1@ == s1@,
{
    let s2 = s1.clone();
    (s1, s2)
}

} // verus!
