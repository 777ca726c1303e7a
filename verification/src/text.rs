//! Decimal rendering of integers, the building block of every label and
//! message that shows a number of health points.
use vstd::prelude::*;

verus! {

/// The character that writes the decimal digit `d` (for `0 <= d < 10`).
pub open spec fn digit_char(d: int) -> char {
    if d == 0 {
        '0'
    } else if d == 1 {
        '1'
    } else if d == 2 {
        '2'
    } else if d == 3 {
        '3'
    } else if d == 4 {
        '4'
    } else if d == 5 {
        '5'
    } else if d == 6 {
        '6'
    } else if d == 7 {
        '7'
    } else if d == 8 {
        '8'
    } else {
        '9'
    }
}

/// The decimal digits of `n`, most significant first, without leading zeros
/// (zero itself is the single digit `0`).
pub open spec fn decimal_digits(n: nat) -> Seq<char>
    decreases n,
{
    if n < 10 {
        seq![digit_char(n as int)]
    } else {
        decimal_digits(n / 10).push(digit_char((n % 10) as int))
    }
}

/// How Rust's `Display` writes an integer: a minus sign for negative values,
/// then the decimal digits of the magnitude.
pub open spec fn integer_chars(n: int) -> Seq<char> {
    if n < 0 {
        seq!['-'] + decimal_digits((-n) as nat)
    } else {
        decimal_digits(n as nat)
    }
}

/// The value of a decimal digit character (its distance from `0`).
pub open spec fn digit_value(c: char) -> int {
    (c as int) - ('0' as int)
}

/// Whether `c` is one of the characters `0` to `9`.
pub open spec fn is_digit(c: char) -> bool {
    '0' <= c <= '9'
}

/// Reads a run of decimal digits, most significant first.
pub open spec fn parse_digits(s: Seq<char>) -> int
    decreases s.len(),
{
    if s.len() == 0 {
        0
    } else {
        parse_digits(s.drop_last()) * 10 + digit_value(s.last())
    }
}

/// Reads an integer written with an optional leading minus sign.
pub open spec fn parse_integer(s: Seq<char>) -> int {
    if s.len() > 0 && s[0] == '-' {
        -parse_digits(s.drop_first())
    } else {
        parse_digits(s)
    }
}

/// A digit written by `digit_char` reads back as itself.
pub proof fn lemma_digit_char_value(d: int)
    requires
        0 <= d < 10,
    ensures
        digit_value(digit_char(d)) == d,
        is_digit(digit_char(d)),
{
}

/// The decimal writing of `n` is a non-empty run of digits, without a
/// leading zero unless `n` is zero, and it reads back as `n`.
pub proof fn lemma_decimal_digits_read_back(n: nat)
    ensures
        decimal_digits(n).len() > 0,
        forall|i: int| 0 <= i < decimal_digits(n).len() ==> is_digit(#[trigger] decimal_digits(n)[i]),
        n > 0 ==> decimal_digits(n)[0] != '0',
        parse_digits(decimal_digits(n)) == n,
    decreases n,
{
    if n < 10 {
        lemma_digit_char_value(n as int);
        assert(decimal_digits(n).drop_last() =~= Seq::<char>::empty());
        assert(parse_digits(Seq::<char>::empty()) == 0);
        assert(parse_digits(decimal_digits(n)) == 0 * 10 + n);
    } else {
        lemma_decimal_digits_read_back(n / 10);
        lemma_digit_char_value((n % 10) as int);
        let s = decimal_digits(n);
        assert(s.drop_last() =~= decimal_digits(n / 10));
        assert forall|i: int| 0 <= i < s.len() implies is_digit(#[trigger] s[i]) by {
            if i < s.len() - 1 {
                assert(s[i] == decimal_digits(n / 10)[i]);
            }
        }
        assert(s[0] == decimal_digits(n / 10)[0]);
        assert(s.last() == digit_char((n % 10) as int));
        assert((n / 10) * 10 + n % 10 == n) by (nonlinear_arith);
        assert(parse_digits(s) == parse_digits(decimal_digits(n / 10)) * 10 + (n % 10) as int);
    }
}

/// Writing an integer and reading it back gives the same integer: the text
/// is a minus sign exactly for negative values, followed by the digits of
/// the magnitude.
pub proof fn lemma_integer_chars_read_back(n: int)
    ensures
        parse_integer(integer_chars(n)) == n,
        integer_chars(n).len() > 0,
        (integer_chars(n)[0] == '-') == (n < 0),
        forall|i: int|
            (if n < 0 { 1int } else { 0int }) <= i < integer_chars(n).len() ==> is_digit(
                #[trigger] integer_chars(n)[i],
            ),
{
    if n < 0 {
        lemma_decimal_digits_read_back((-n) as nat);
        let s = integer_chars(n);
        assert(s.drop_first() =~= decimal_digits((-n) as nat));
        assert forall|i: int| 1 <= i < s.len() implies is_digit(#[trigger] s[i]) by {
            assert(s[i] == decimal_digits((-n) as nat)[i - 1]);
        }
    } else {
        lemma_decimal_digits_read_back(n as nat);
        assert(is_digit(decimal_digits(n as nat)[0]));
    }
}

/// Different integers are written differently.
pub proof fn lemma_integer_chars_injective(a: int, b: int)
    ensures
        integer_chars(a) == integer_chars(b) ==> a == b,
{
    lemma_integer_chars_read_back(a);
    lemma_integer_chars_read_back(b);
}

/// The one-character string of the digit `d`.
fn digit_str(d: u32) -> (s: &'static str)
    requires
        d < 10,
    ensures
        s@ == seq![digit_char(d as int)],
{
    if d == 0 {
        proof {
            reveal_strlit("0");
        }
        "0"
    } else if d == 1 {
        proof {
            reveal_strlit("1");
        }
        "1"
    } else if d == 2 {
        proof {
            reveal_strlit("2");
        }
        "2"
    } else if d == 3 {
        proof {
            reveal_strlit("3");
        }
        "3"
    } else if d == 4 {
        proof {
            reveal_strlit("4");
        }
        "4"
    } else if d == 5 {
        proof {
            reveal_strlit("5");
        }
        "5"
    } else if d == 6 {
        proof {
            reveal_strlit("6");
        }
        "6"
    } else if d == 7 {
        proof {
            reveal_strlit("7");
        }
        "7"
    } else if d == 8 {
        proof {
            reveal_strlit("8");
        }
        "8"
    } else {
        proof {
            reveal_strlit("9");
        }
        "9"
    }
}

/// Writes a natural number in decimal.
pub fn natural_to_text(n: u32) -> (s: String)
    ensures
        s@ == decimal_digits(n as nat),
    decreases n,
{
    if n < 10 {
        String::from_str(digit_str(n))
    } else {
        let mut s = natural_to_text(n / 10);
        s.append(digit_str(n % 10));
        s
    }
}

/// Writes an integer the way `{}` formatting does.
pub fn integer_to_text(n: i32) -> (s: String)
    ensures
        s@ == integer_chars(n as int),
{
    if n < 0 {
        let magnitude: u32 = (-(n as i64)) as u32;
        let mut s = String::from_str("-");
        proof {
            reveal_strlit("-");
        }
        let digits = natural_to_text(magnitude);
        s.append(digits.as_str());
        s
    } else {
        natural_to_text(n as u32)
    }
}

} // verus!
