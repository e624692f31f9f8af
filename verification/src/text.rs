//! Decimal text for unsigned and signed numbers.

use vstd::prelude::*;

verus! {

/// The character that stands for the decimal digit `d`.
pub open spec fn digit_char(d: nat) -> char
    recommends
        d < 10,
{
    seq!['0', '1', '2', '3', '4', '5', '6', '7', '8', '9'][d as int]
}

/// The decimal numeral of `n`: most significant digit first, no leading
/// zero except for `0` itself.
pub open spec fn decimal_digits(n: nat) -> Seq<char>
    decreases n,
{
    if n < 10 {
        seq![digit_char(n)]
    } else {
        decimal_digits(n / 10).push(digit_char(n % 10))
    }
}

/// The decimal numeral of a signed number: a minus sign before the
/// magnitude when it is negative.
pub open spec fn signed_decimal_digits(n: int) -> Seq<char> {
    if n < 0 {
        seq!['-'] + decimal_digits((-n) as nat)
    } else {
        decimal_digits(n as nat)
    }
}

/// One decimal digit as text.
fn digit_text(d: u64) -> (text: &'static str)
    requires
        d < 10,
    ensures
        text@ == seq![digit_char(d as nat)],
{
    proof {
        reveal_strlit("0");
        reveal_strlit("1");
        reveal_strlit("2");
        reveal_strlit("3");
        reveal_strlit("4");
        reveal_strlit("5");
        reveal_strlit("6");
        reveal_strlit("7");
        reveal_strlit("8");
        reveal_strlit("9");
    }
    match d {
        0 => "0",
        1 => "1",
        2 => "2",
        3 => "3",
        4 => "4",
        5 => "5",
        6 => "6",
        7 => "7",
        8 => "8",
        _ => "9",
    }
}

/// The numeral of `value` in base two, in exactly `width` digits: the
/// low `width` bits of `value`, most significant first.
pub open spec fn binary_digits(value: nat, width: nat) -> Seq<char>
    decreases width,
{
    if width == 0 {
        Seq::empty()
    } else {
        binary_digits(value / 2, (width - 1) as nat).push(
            if value % 2 == 1 {
                '1'
            } else {
                '0'
            },
        )
    }
}

/// Appends the low `width` bits of `value` to `out`, most significant
/// first.
pub fn push_binary(out: &mut String, value: u8, width: u8)
    ensures
        final(out)@ == old(out)@ + binary_digits(value as nat, width as nat),
    decreases width,
{
    proof {
        reveal_strlit("0");
        reveal_strlit("1");
    }
    if width > 0 {
        push_binary(out, value / 2, width - 1);
        if value % 2 == 1 {
            out.append("1");
        } else {
            out.append("0");
        }
    }
}

/// Appends the decimal numeral of `n` to `out`.
pub fn push_decimal(out: &mut String, n: u64)
    ensures
        final(out)@ == old(out)@ + decimal_digits(n as nat),
    decreases n,
{
    if n >= 10 {
        push_decimal(out, n / 10);
    }
    out.append(digit_text(n % 10));
}

/// The decimal numeral of `n`.
pub fn decimal(n: u64) -> (text: String)
    ensures
        text@ == decimal_digits(n as nat),
{
    let mut text: String = String::new();
    push_decimal(&mut text, n);
    text
}

/// Appends the decimal numeral of `n`, with a minus sign when `n` is
/// negative.
pub fn push_signed_decimal(out: &mut String, n: i64)
    ensures
        final(out)@ == old(out)@ + signed_decimal_digits(n as int),
{
    proof {
        reveal_strlit("-");
    }
    if n < 0 {
        let magnitude: i128 = -(n as i128);
        out.append("-");
        push_decimal(out, magnitude as u64);
    } else {
        push_decimal(out, n as u64);
    }
}

/// The decimal numeral of a signed number.
pub fn signed_decimal(n: i64) -> (text: String)
    ensures
        text@ == signed_decimal_digits(n as int),
{
    let mut text: String = String::new();
    push_signed_decimal(&mut text, n);
    text
}

} // verus!
