//! Numbers as text.

use vstd::prelude::*;
use vstd::string::StringExecFns;

verus! {

/// The character that stands for a value below sixteen.
pub open spec fn digit_char(value: nat) -> char {
    if value == 0 {
        '0'
    } else if value == 1 {
        '1'
    } else if value == 2 {
        '2'
    } else if value == 3 {
        '3'
    } else if value == 4 {
        '4'
    } else if value == 5 {
        '5'
    } else if value == 6 {
        '6'
    } else if value == 7 {
        '7'
    } else if value == 8 {
        '8'
    } else if value == 9 {
        '9'
    } else if value == 10 {
        'a'
    } else if value == 11 {
        'b'
    } else if value == 12 {
        'c'
    } else if value == 13 {
        'd'
    } else if value == 14 {
        'e'
    } else {
        'f'
    }
}

/// The decimal digits of a number, without leading zeros.
pub open spec fn decimal(value: nat) -> Seq<char>
    decreases value,
{
    if value < 10 {
        seq![digit_char(value)]
    } else {
        decimal(value / 10).push(digit_char(value % 10))
    }
}

/// The hexadecimal digits of a number, in lower case, without leading zeros.
pub open spec fn hexadecimal(value: nat) -> Seq<char>
    decreases value,
{
    if value < 16 {
        seq![digit_char(value)]
    } else {
        hexadecimal(value / 16).push(digit_char(value % 16))
    }
}

/// An address as it is written in a message: `0x` and its hexadecimal digits.
pub open spec fn address_text(address: u32) -> Seq<char> {
    "0x"@ + hexadecimal(address as nat)
}

/// Appends the character that stands for a value below sixteen.
fn append_digit(text: &mut String, value: u64)
    requires
        value < 16,
    ensures
        final(text)@ == old(text)@.push(digit_char(value as nat)),
{
    proof {
        reveal_strlit("0");
        reveal_strlit("1");
        reveal_strlit("2");
        reveal_strlit("3");
        reveal_strlit("4");
        reveal_strlit("5");
        reveal_strlit("6");
        reveal_strlit("7");
        reveal_strlit("8");
        reveal_strlit("9");
        reveal_strlit("a");
        reveal_strlit("b");
        reveal_strlit("c");
        reveal_strlit("d");
        reveal_strlit("e");
        reveal_strlit("f");
    }
    let digit = if value == 0 {
        "0"
    } else if value == 1 {
        "1"
    } else if value == 2 {
        "2"
    } else if value == 3 {
        "3"
    } else if value == 4 {
        "4"
    } else if value == 5 {
        "5"
    } else if value == 6 {
        "6"
    } else if value == 7 {
        "7"
    } else if value == 8 {
        "8"
    } else if value == 9 {
        "9"
    } else if value == 10 {
        "a"
    } else if value == 11 {
        "b"
    } else if value == 12 {
        "c"
    } else if value == 13 {
        "d"
    } else if value == 14 {
        "e"
    } else {
        "f"
    };
    assert(digit@ =~= seq![digit_char(value as nat)]);
    text.append(digit);
    assert(text@ =~= old(text)@.push(digit_char(value as nat)));
}

/// Appends the decimal digits of a number.
pub fn append_decimal(text: &mut String, value: u64)
    ensures
        final(text)@ == old(text)@ + decimal(value as nat),
    decreases value,
{
    if value >= 10 {
        append_decimal(text, value / 10);
    }
    append_digit(text, value % 10);
    assert(text@ =~= old(text)@ + decimal(value as nat));
}

/// Appends the hexadecimal digits of a number.
pub fn append_hexadecimal(text: &mut String, value: u64)
    ensures
        final(text)@ == old(text)@ + hexadecimal(value as nat),
    decreases value,
{
    if value >= 16 {
        append_hexadecimal(text, value / 16);
    }
    append_digit(text, value % 16);
    assert(text@ =~= old(text)@ + hexadecimal(value as nat));
}

/// Appends an address as it is written in a message.
pub fn append_address(text: &mut String, address: u32)
    ensures
        final(text)@ == old(text)@ + address_text(address),
{
    text.append("0x");
    append_hexadecimal(text, address as u64);
    assert(text@ =~= old(text)@ + address_text(address));
}

} // verus!
