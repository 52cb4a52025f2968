//! The lines that report what a binding holds at some point of a program.
use vstd::prelude::*;
use vstd::string::*;
use crate::decimal::{decimal, to_decimal};

verus! {

/// The line that reports the value held by the binding called `name`.
pub open spec fn value_line(name: Seq<char>, value: Seq<char>) -> Seq<char> {
    "El valor de "@ + name + " es "@ + value
}

/// The line that reports a text `s1` next to its clone `s2`.
pub open spec fn clone_line(s1: Seq<char>, s2: Seq<char>) -> Seq<char> {
    "El valor de s1 es "@ + s1 + " y el valor de s2 es "@ + s2
}

/// The line that reports a text together with its length in characters.
pub open spec fn length_line(text: Seq<char>, len: nat) -> Seq<char> {
    "El String "@ + text + " tiene una longitud de "@ + decimal(len) + " caracteres"@
}

/// Writes the line that reports the value held by the binding called `name`.
pub fn report_value(name: &str, value: &str) -> (line: String)
    ensures
        line@ == value_line(name@, value@),
{
    let mut line = String::from_str("El valor de ");
    line.append(name);
    line.append(" es ");
    line.append(value);
    line
}

/// Writes the line that reports a text next to its clone.
pub fn report_clone(s1: &str, s2: &str) -> (line: String)
    ensures
        line@ == clone_line(s1@, s2@),
{
    let mut line = String::from_str("El valor de s1 es ");
    line.append(s1);
    line.append(" y el valor de s2 es ");
    line.append(s2);
    line
}

/// Writes the line that reports a text together with its length.
pub fn report_length(text: &str, len: usize) -> (line: String)
    ensures
        line@ == length_line(text@, len as nat),
{
    let mut line = String::from_str("El String ");
    line.append(text);
    line.append(" tiene una longitud de ");
    line.append(to_decimal(len as u64).as_str());
    line.append(" caracteres");
    line
}

} // verus!
