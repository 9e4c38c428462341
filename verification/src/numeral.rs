//! Numbers written out in digits.

use vstd::prelude::*;
use vstd::string::StringExecFns;

verus! {

/// The character of a digit below ten.
pub open spec fn digit(d: nat) -> char {
    if d == 0 {
        '0'
    } else if d == 1 {
        '1'
    } else if d == 2 {
        '2'
    } else if d == 3 {
        '3'
    } else if d == 4 {
        '4'
    } else if d == 5 {
        '5'
    } else if d == 6 {
        '6'
    } else if d == 7 {
        '7'
    } else if d == 8 {
        '8'
    } else {
        '9'
    }
}

/// The digits of `n` to the base `base`, the most significant first and
/// without leading zeros; the one digit `0` for zero.
pub open spec fn numeral(n: nat, base: nat) -> Seq<char>
    decreases n,
    via numeral_ends
{
    if base < 2 || n < base {
        seq![digit(n)]
    } else {
        numeral(n / base, base).push(digit(n % base))
    }
}

#[via_fn]
proof fn numeral_ends(n: nat, base: nat) {
    if base >= 2 && n >= base {
        assert(n / base < n) by (nonlinear_arith)
            requires
                base >= 2,
                n >= base,
        ;
    }
}

/// The digit `d` as text.
fn digit_text(d: u32) -> (text: &'static str)
    requires
        d < 10,
    ensures
        text@ == seq![digit(d as nat)],
{
    proof {
        reveal_strlit("0");
        reveal_strlit("1");
        reveal_strlit("2");
        reveal_strlit("3");
        reveal_strlit("4");
        reveal_strlit("5");
        reveal_strlit("6");
        reveal_strlit("7");
        reveal_strlit("8");
        reveal_strlit("9");
    }
    let text = if d == 0 {
        "0"
    } else if d == 1 {
        "1"
    } else if d == 2 {
        "2"
    } else if d == 3 {
        "3"
    } else if d == 4 {
        "4"
    } else if d == 5 {
        "5"
    } else if d == 6 {
        "6"
    } else if d == 7 {
        "7"
    } else if d == 8 {
        "8"
    } else {
        "9"
    };
    assert(text@ =~= seq![digit(d as nat)]);
    text
}

/// `n` written to the base `base`.
fn numeral_text(n: u32, base: u32) -> (text: String)
    requires
        2 <= base <= 10,
    ensures
        text@ == numeral(n as nat, base as nat),
    decreases n,
{
    if n < base {
        String::from_str(digit_text(n))
    } else {
        assert(n / base < n) by (nonlinear_arith)
            requires
                base >= 2,
                n >= base,
        ;
        assert(n % base < base) by (nonlinear_arith)
            requires
                base >= 2,
        ;
        let mut text = numeral_text(n / base, base);
        text.append(digit_text(n % base));
        text
    }
}

/// `n` in decimal digits.
pub fn decimal(n: u32) -> (text: String)
    ensures
        text@ == numeral(n as nat, 10),
{
    numeral_text(n, 10)
}

/// `n` in octal digits.
pub fn octal(n: u32) -> (text: String)
    ensures
        text@ == numeral(n as nat, 8),
{
    numeral_text(n, 8)
}

} // verus!
