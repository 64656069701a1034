//! Decimal text of integers, and the text of a single character.

use vstd::prelude::*;
use vstd::string::StringExecFns;

verus! {

/// The character of a decimal digit.
pub open spec fn digit_char(d: nat) -> char
    recommends
        d < 10,
{
    if d == 0 {
        '0'
    } else if d == 1 {
        '1'
    } else if d == 2 {
        '2'
    } else if d == 3 {
        '3'
    } else if d == 4 {
        '4'
    } else if d == 5 {
        '5'
    } else if d == 6 {
        '6'
    } else if d == 7 {
        '7'
    } else if d == 8 {
        '8'
    } else {
        '9'
    }
}

/// The decimal digits of a natural number, most significant first, without leading
/// zeros; `0` is the one digit `0`.
pub open spec fn decimal_digits(n: nat) -> Seq<char>
    decreases n,
{
    if n < 10 {
        seq![digit_char(n)]
    } else {
        decimal_digits(n / 10).push(digit_char(n % 10))
    }
}

/// The decimal text of an integer: its digits, after a `-` where it is negative.
pub open spec fn decimal_text(n: int) -> Seq<char> {
    if n < 0 {
        seq!['-'] + decimal_digits((-n) as nat)
    } else {
        decimal_digits(n as nat)
    }
}

/// One decimal digit as text.
fn digit_str(d: u8) -> (s: &'static str)
    requires
        d < 10,
    ensures
        s@ == seq![digit_char(d as nat)],
{
    proof {
        reveal_strlit("0");
        reveal_strlit("1");
        reveal_strlit("2");
        reveal_strlit("3");
        reveal_strlit("4");
        reveal_strlit("5");
        reveal_strlit("6");
        reveal_strlit("7");
        reveal_strlit("8");
        reveal_strlit("9");
    }
    let s = if d == 0 {
        "0"
    } else if d == 1 {
        "1"
    } else if d == 2 {
        "2"
    } else if d == 3 {
        "3"
    } else if d == 4 {
        "4"
    } else if d == 5 {
        "5"
    } else if d == 6 {
        "6"
    } else if d == 7 {
        "7"
    } else if d == 8 {
        "8"
    } else {
        "9"
    };
    assert(s@ =~= seq![digit_char(d as nat)]);
    s
}

/// The decimal text of an unsigned integer.
pub fn unsigned_text(n: u128) -> (text: String)
    ensures
        text@ == decimal_digits(n as nat),
{
    let mut text = String::from_str(digit_str((n % 10) as u8));
    let mut rest: u128 = n / 10;
    assert(decimal_digits(n as nat) =~= (if rest > 0 {
        decimal_digits(rest as nat)
    } else {
        Seq::<char>::empty()
    }) + text@);
    while rest > 0
        invariant
            decimal_digits(n as nat) == (if rest > 0 {
                decimal_digits(rest as nat)
            } else {
                Seq::<char>::empty()
            }) + text@,
        decreases rest,
    {
        let digit = digit_str((rest % 10) as u8);
        let ghost before = text@;
        text = String::from_str(digit).concat(text.as_str());
        let ghost all = rest;
        rest = rest / 10;
        assert(decimal_digits(all as nat) + before =~= (if rest > 0 {
            decimal_digits(rest as nat)
        } else {
            Seq::<char>::empty()
        }) + text@);
    }
    text
}

/// The decimal text of a signed integer.
pub fn signed_text(n: i128) -> (text: String)
    ensures
        text@ == decimal_text(n as int),
{
    if n >= 0 {
        unsigned_text(n as u128)
    } else {
        let size: u128 = ((-(n + 1)) as u128) + 1;
        proof {
            reveal_strlit("-");
            assert("-"@ =~= seq!['-']);
        }
        String::from_str("-").concat(unsigned_text(size).as_str())
    }
}

/// Makes a string of one character (`String::from`). Trusted: the string holds that
/// character and nothing else.
#[verifier::external_body]
pub(crate) fn one_char(c: char) -> (text: String)
    ensures
        text@ == seq![c],
{
    String::from(c)
}

} // verus!
