//! Decimal notation of natural numbers, as text.
use vstd::prelude::*;
use vstd::string::*;

verus! {

/// The character that writes the single digit `d`.
pub open spec fn digit_char(d: nat) -> char
    recommends
        d < 10,
{
    if d == 0 {
        '0'
    } else if d == 1 {
        '1'
    } else if d == 2 {
        '2'
    } else if d == 3 {
        '3'
    } else if d == 4 {
        '4'
    } else if d == 5 {
        '5'
    } else if d == 6 {
        '6'
    } else if d == 7 {
        '7'
    } else if d == 8 {
        '8'
    } else {
        '9'
    }
}

/// The decimal notation of `n`: most significant digit first, no sign, no
/// leading zero, and the single digit `0` for zero.
pub open spec fn decimal(n: nat) -> Seq<char>
    decreases n,
{
    if n < 10 {
        seq![digit_char(n)]
    } else {
        decimal(n / 10).push(digit_char(n % 10))
    }
}

/// Whether `c` is one of the ten digit characters.
pub open spec fn is_digit(c: char) -> bool {
    c == '0' || c == '1' || c == '2' || c == '3' || c == '4' || c == '5' || c == '6' || c == '7'
        || c == '8' || c == '9'
}

/// The number that the digit character `c` stands for.
pub open spec fn digit_value(c: char) -> nat
    recommends
        is_digit(c),
{
    if c == '0' {
        0
    } else if c == '1' {
        1
    } else if c == '2' {
        2
    } else if c == '3' {
        3
    } else if c == '4' {
        4
    } else if c == '5' {
        5
    } else if c == '6' {
        6
    } else if c == '7' {
        7
    } else if c == '8' {
        8
    } else {
        9
    }
}

/// Whether `s` is a numeral: one digit or more, and no leading zero unless
/// the numeral is the single digit `0`.
pub open spec fn is_numeral(s: Seq<char>) -> bool {
    &&& s.len() >= 1
    &&& forall|i: int| 0 <= i < s.len() ==> is_digit(#[trigger] s[i])
    &&& s.len() > 1 ==> s[0] != '0'
}

/// The number that a sequence of digits stands for, read in base ten.
pub open spec fn numeral_value(s: Seq<char>) -> nat
    decreases s.len(),
{
    if s.len() == 0 {
        0
    } else {
        10 * numeral_value(s.drop_last()) + digit_value(s.last())
    }
}

/// The decimal notation of a number is a numeral, and read back in base ten
/// it gives the number again.
pub proof fn lemma_decimal_reads_back(n: nat)
    ensures
        is_numeral(decimal(n)),
        numeral_value(decimal(n)) == n,
    decreases n,
{
    let s = decimal(n);
    if n < 10 {
        assert(s.drop_last() =~= Seq::<char>::empty());
        assert(numeral_value(s) == n) by {
            reveal_with_fuel(numeral_value, 2);
        }
    } else {
        let head = decimal(n / 10);
        lemma_decimal_reads_back(n / 10);
        assert(s.drop_last() =~= head);
        assert(s[0] == head[0]);
        assert(head[0] != '0') by {
            if n / 10 < 10 {
                assert(head[0] == digit_char(n / 10));
            } else {
                lemma_decimal_reads_back(n / 10 / 10);
                assert(head.len() > 1);
            }
        }
        assert forall|i: int| 0 <= i < s.len() implies is_digit(#[trigger] s[i]) by {
            if i < head.len() {
                assert(s[i] == head[i]);
            }
        }
    }
}

/// Every numeral is the decimal notation of the number it stands for, so no
/// two numerals stand for the same number.
pub proof fn lemma_numeral_is_decimal(s: Seq<char>)
    requires
        is_numeral(s),
    ensures
        decimal(numeral_value(s)) == s,
        s[0] != '0' ==> numeral_value(s) >= 1,
    decreases s.len(),
{
    let head = s.drop_last();
    assert(is_digit(s.last()));
    if s.len() == 1 {
        assert(head =~= Seq::<char>::empty());
        assert(numeral_value(s) == digit_value(s[0])) by {
            reveal_with_fuel(numeral_value, 2);
        }
        assert(decimal(numeral_value(s)) =~= s);
    } else {
        assert(head[0] == s[0]);
        assert forall|i: int| 0 <= i < head.len() implies is_digit(#[trigger] head[i]) by {
            assert(head[i] == s[i]);
        }
        lemma_numeral_is_decimal(head);
        let n = numeral_value(s);
        assert(n == 10 * numeral_value(head) + digit_value(s.last()));
        assert(n / 10 == numeral_value(head) && n % 10 == digit_value(s.last()));
        assert(decimal(n) =~= s);
    }
}

/// The one-character text of a single digit.
fn digit_text(d: u64) -> (text: &'static str)
    requires
        d < 10,
    ensures
        text@ == seq![digit_char(d as nat)],
{
    proof {
        reveal_strlit("0");
        reveal_strlit("1");
        reveal_strlit("2");
        reveal_strlit("3");
        reveal_strlit("4");
        reveal_strlit("5");
        reveal_strlit("6");
        reveal_strlit("7");
        reveal_strlit("8");
        reveal_strlit("9");
    }
    let text = match d {
        0 => "0",
        1 => "1",
        2 => "2",
        3 => "3",
        4 => "4",
        5 => "5",
        6 => "6",
        7 => "7",
        8 => "8",
        _ => "9",
    };
    assert(text@ =~= seq![digit_char(d as nat)]);
    text
}

/// Writes `n` in decimal notation.
pub fn to_decimal(n: u64) -> (text: String)
    ensures
        text@ == decimal(n as nat),
    decreases n,
{
    if n < 10 {
        String::from_str(digit_text(n))
    } else {
        let mut text = to_decimal(n / 10);
        text.append(digit_text(n % 10));
        assert(text@ =~= decimal(n as nat));
        text
    }
}

} // verus!
