//! The whole tour: every scene in order, and the lines it reports.
use vstd::prelude::*;
use vstd::string::*;
use crate::decimal::{decimal, to_decimal};
use crate::report::{clone_line, length_line, report_clone, report_length, report_value, value_line};
use crate::transfer::{
    calculate_length, clones_text, copies_scalar, copy_line, gives_ownership, greeting,
    makes_copy, owner_line, takes_and_gives_ownership, takes_ownership,
};

verus! {

/// Runs every scene once, in order, and returns the lines to be shown, one
/// per report.
pub fn walkthrough() -> (lines: Vec<String>)
    ensures
        lines@.len() == 8,
        lines@[0]@ == "Hey crustaceans!"@,
        lines@[1]@ == "El valor de x es 1"@,
        lines@[2]@ == "El valor de s2 es Rust is so cool!"@,
        lines@[3]@
            == "El valor de s1 es Hey again rustaceans! y el valor de s2 es Hey again rustaceans!"@,
        lines@[4]@ == "s es el owner del String [una cadena cualquiera]"@,
        lines@[5]@ == "num tiene el valor de 2, pero es una copia de la variable envida"@,
        lines@[6]@ == "El valor de n es 2"@,
        lines@[7]@ == "El String Rust is cool tiene una longitud de 12 caracteres"@,
{
    let mut lines: Vec<String> = Vec::new();

    // A text is created from a literal and extended in place.
    lines.push(greeting());

    // A number is copied by assignment, so `x` stays usable beside its copy.
    let (x, _y) = copies_scalar(1);
    let line = report_value("x", to_decimal(x as u64).as_str());
    assert(line@ == "El valor de x es 1"@) by {
        reveal_strlit("El valor de ");
        reveal_strlit("x");
        reveal_strlit(" es ");
        reveal_strlit("El valor de x es 1");
        assert(value_line("x"@, decimal(1)) =~= "El valor de x es 1"@);
    }
    lines.push(line);

    // A text is moved by assignment: from here on only `s2` owns it.
    let s1 = String::from_str("Rust is so cool!");
    let s2 = s1;
    let line = report_value("s2", s2.as_str());
    assert(line@ == "El valor de s2 es Rust is so cool!"@) by {
        reveal_strlit("El valor de ");
        reveal_strlit("s2");
        reveal_strlit(" es ");
        reveal_strlit("Rust is so cool!");
        reveal_strlit("El valor de s2 es Rust is so cool!");
        assert(value_line("s2"@, "Rust is so cool!"@) =~= "El valor de s2 es Rust is so cool!"@);
    }
    lines.push(line);

    // A clone is a second text with an owner of its own.
    let (s1, s2) = clones_text(String::from_str("Hey again rustaceans!"));
    let line = report_clone(s1.as_str(), s2.as_str());
    assert(line@
        == "El valor de s1 es Hey again rustaceans! y el valor de s2 es Hey again rustaceans!"@)
        by {
        reveal_strlit("El valor de s1 es ");
        reveal_strlit(" y el valor de s2 es ");
        reveal_strlit("Hey again rustaceans!");
        reveal_strlit(
            "El valor de s1 es Hey again rustaceans! y el valor de s2 es Hey again rustaceans!",
        );
        assert(clone_line("Hey again rustaceans!"@, "Hey again rustaceans!"@)
            =~= "El valor de s1 es Hey again rustaceans! y el valor de s2 es Hey again rustaceans!"@);
    }
    lines.push(line);

    // A text passed to a function is gone for the caller.
    let s3 = String::from_str("una cadena cualquiera");
    let line = takes_ownership(s3);
    assert(line@ == "s es el owner del String [una cadena cualquiera]"@) by {
        reveal_strlit("s es el owner del String [");
        reveal_strlit("]");
        reveal_strlit("una cadena cualquiera");
        reveal_strlit("s es el owner del String [una cadena cualquiera]");
        assert(owner_line("una cadena cualquiera"@)
            =~= "s es el owner del String [una cadena cualquiera]"@);
    }
    lines.push(line);

    // A number passed to a function is copied, so `n` stays usable.
    let n: u32 = 2;
    let line = makes_copy(n);
    assert(line@ == "num tiene el valor de 2, pero es una copia de la variable envida"@) by {
        reveal_strlit("num tiene el valor de ");
        reveal_strlit(", pero es una copia de la variable envida");
        reveal_strlit("num tiene el valor de 2, pero es una copia de la variable envida");
        assert(copy_line(2)
            =~= "num tiene el valor de 2, pero es una copia de la variable envida"@);
    }
    lines.push(line);
    let line = report_value("n", to_decimal(n as u64).as_str());
    assert(line@ == "El valor de n es 2"@) by {
        reveal_strlit("El valor de ");
        reveal_strlit("n");
        reveal_strlit(" es ");
        reveal_strlit("El valor de n es 2");
        assert(value_line("n"@, decimal(2)) =~= "El valor de n es 2"@);
    }
    lines.push(line);

    // A returned text belongs to whoever receives it.
    let _s4 = gives_ownership();
    let s5 = String::from_str("Let's get rusty!");
    let _s6 = takes_and_gives_ownership(s5);

    // A function can hand its argument back beside its result.
    let s7 = String::from_str("Rust is cool");
    let (s8, len) = calculate_length(s7);
    let line = report_length(s8.as_str(), len);
    assert(line@ == "El String Rust is cool tiene una longitud de 12 caracteres"@) by {
        reveal_strlit("El String ");
        reveal_strlit("Rust is cool");
        reveal_strlit(" tiene una longitud de ");
        reveal_strlit(" caracteres");
        reveal_strlit("El String Rust is cool tiene una longitud de 12 caracteres");
        assert(decimal(12) =~= seq!['1', '2']) by {
            reveal_with_fuel(decimal, 2);
        }
        assert(length_line("Rust is cool"@, 12)
            =~= "El String Rust is cool tiene una longitud de 12 caracteres"@);
    }
    lines.push(line);

    lines
}

} // verus!
