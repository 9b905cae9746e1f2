//! Rendering of numbers as text for client-visible descriptions.

use vstd::prelude::*;
use vstd::string::StringExecFns;

verus! {

/// The lower-case hexadecimal digit for `digit`, which is below 16.
pub open spec fn hex_digit(digit: nat) -> char {
    if digit == 0 {
        '0'
    } else if digit == 1 {
        '1'
    } else if digit == 2 {
        '2'
    } else if digit == 3 {
        '3'
    } else if digit == 4 {
        '4'
    } else if digit == 5 {
        '5'
    } else if digit == 6 {
        '6'
    } else if digit == 7 {
        '7'
    } else if digit == 8 {
        '8'
    } else if digit == 9 {
        '9'
    } else if digit == 10 {
        'a'
    } else if digit == 11 {
        'b'
    } else if digit == 12 {
        'c'
    } else if digit == 13 {
        'd'
    } else if digit == 14 {
        'e'
    } else {
        'f'
    }
}

/// The number that a hexadecimal digit stands for; 0 for any other character.
pub open spec fn hex_digit_value(c: char) -> nat {
    if c == '1' {
        1
    } else if c == '2' {
        2
    } else if c == '3' {
        3
    } else if c == '4' {
        4
    } else if c == '5' {
        5
    } else if c == '6' {
        6
    } else if c == '7' {
        7
    } else if c == '8' {
        8
    } else if c == '9' {
        9
    } else if c == 'a' {
        10
    } else if c == 'b' {
        11
    } else if c == 'c' {
        12
    } else if c == 'd' {
        13
    } else if c == 'e' {
        14
    } else if c == 'f' {
        15
    } else {
        0
    }
}

/// `value` written in base 16, most significant digit first, with leading
/// zeros up to `width` digits and never fewer than one digit.
pub open spec fn hex_digits(value: nat, width: nat) -> Seq<char>
    decreases value, width,
{
    if value < 16 && width <= 1 {
        seq![hex_digit(value)]
    } else {
        hex_digits(value / 16, if width > 0 { (width - 1) as nat } else { 0 }).push(
            hex_digit(value % 16),
        )
    }
}

/// The number that a sequence of hexadecimal digits denotes.
pub open spec fn hex_value(digits: Seq<char>) -> nat
    decreases digits.len(),
{
    if digits.len() == 0 {
        0
    } else {
        16 * hex_value(digits.drop_last()) + hex_digit_value(digits.last())
    }
}

/// The least number of hexadecimal digits that can hold `value`.
pub open spec fn hex_len(value: nat) -> nat
    decreases value,
{
    if value < 16 {
        1
    } else {
        1 + hex_len(value / 16)
    }
}

/// `value` written in base 10, without leading zeros. The digits below ten
/// are the same characters in base 10 and in base 16.
pub open spec fn decimal_digits(value: nat) -> Seq<char>
    decreases value,
{
    if value < 10 {
        seq![hex_digit(value)]
    } else {
        decimal_digits(value / 10).push(hex_digit(value % 10))
    }
}

/// An address as the client sees it: `0x`, then at least eight hexadecimal digits.
pub open spec fn address_text(address: u64) -> Seq<char> {
    seq!['0', 'x'] + hex_digits(address as nat, 8)
}

/// Reading the digits of a number back gives the number, and the digits are
/// as many as the width asks for, or as the number needs if that is more.
pub proof fn lemma_hex_digits_denote(value: nat, width: nat)
    ensures
        hex_value(hex_digits(value, width)) == value,
        hex_digits(value, width).len() == if width > hex_len(value) {
            width
        } else {
            hex_len(value)
        },
    decreases value, width,
{
    if value < 16 && width <= 1 {
        let s = seq![hex_digit(value)];
        assert(s.drop_last() =~= Seq::<char>::empty());
        assert(s.last() == hex_digit(value));
        assert(hex_value(s.drop_last()) == 0);
    } else {
        let rest_width: nat = if width > 0 { (width - 1) as nat } else { 0 };
        let rest = hex_digits(value / 16, rest_width);
        lemma_hex_digits_denote(value / 16, rest_width);
        let all = rest.push(hex_digit(value % 16));
        assert(all.drop_last() =~= rest);
        assert(all.last() == hex_digit(value % 16));
        assert(hex_digit_value(hex_digit(value % 16)) == value % 16);
    }
}

fn hex_digit_str(digit: u64) -> (text: &'static str)
    requires
        digit < 16,
    ensures
        text@ == seq![hex_digit(digit as nat)],
{
    proof {
        reveal_strlit("0");
        reveal_strlit("1");
        reveal_strlit("2");
        reveal_strlit("3");
        reveal_strlit("4");
        reveal_strlit("5");
        reveal_strlit("6");
        reveal_strlit("7");
        reveal_strlit("8");
        reveal_strlit("9");
        reveal_strlit("a");
        reveal_strlit("b");
        reveal_strlit("c");
        reveal_strlit("d");
        reveal_strlit("e");
        reveal_strlit("f");
    }
    let text = if digit == 0 {
        "0"
    } else if digit == 1 {
        "1"
    } else if digit == 2 {
        "2"
    } else if digit == 3 {
        "3"
    } else if digit == 4 {
        "4"
    } else if digit == 5 {
        "5"
    } else if digit == 6 {
        "6"
    } else if digit == 7 {
        "7"
    } else if digit == 8 {
        "8"
    } else if digit == 9 {
        "9"
    } else if digit == 10 {
        "a"
    } else if digit == 11 {
        "b"
    } else if digit == 12 {
        "c"
    } else if digit == 13 {
        "d"
    } else if digit == 14 {
        "e"
    } else {
        "f"
    };
    assert(text@ =~= seq![hex_digit(digit as nat)]);
    text
}

/// Appends `value` in base 16 to `out`, padded with zeros to `width` digits.
pub fn push_hex(out: &mut String, value: u64, width: u8)
    ensures
        final(out)@ == old(out)@ + hex_digits(value as nat, width as nat),
    decreases value, width,
{
    if value < 16 && width <= 1 {
        out.append(hex_digit_str(value));
    } else {
        let rest_width: u8 = if width > 0 { width - 1 } else { 0 };
        push_hex(out, value / 16, rest_width);
        out.append(hex_digit_str(value % 16));
        assert(final(out)@ =~= old(out)@ + hex_digits(value as nat, width as nat));
    }
}

/// Appends `value` in base 10 to `out`.
pub fn push_decimal(out: &mut String, value: u64)
    ensures
        final(out)@ == old(out)@ + decimal_digits(value as nat),
    decreases value,
{
    if value < 10 {
        out.append(hex_digit_str(value));
    } else {
        push_decimal(out, value / 10);
        out.append(hex_digit_str(value % 10));
        assert(final(out)@ =~= old(out)@ + decimal_digits(value as nat));
    }
}

/// The text of an address: `0x` and at least eight hexadecimal digits.
pub fn format_address(address: u64) -> (text: String)
    ensures
        text@ == address_text(address),
{
    proof {
        reveal_strlit("0x");
    }
    let mut text = String::from_str("0x");
    push_hex(&mut text, address, 8);
    assert(text@ =~= address_text(address));
    text
}

} // verus!
