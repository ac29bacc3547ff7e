//! Text that the commands compare and render: addresses without regard to
//! case, and numbers as they appear in messages.

use vstd::prelude::*;

verus! {

/// The upper-case form of a text, as `str::to_uppercase` of the standard
/// library gives it.
pub uninterp spec fn uppercase(text: Seq<char>) -> Seq<char>;

/// A text between double quotes with its special characters escaped, as the
/// standard library's `Debug` for `str` writes it.
pub uninterp spec fn quoted(text: Seq<char>) -> Seq<char>;

/// Calls `str::to_uppercase`. Taken on trust: the result is the upper-case
/// form of the text and depends on the text alone.
#[verifier::external_body]
pub(crate) fn upper(text: &str) -> (result: String)
    ensures
        result@ == uppercase(text@),
{
    text.to_uppercase()
}

/// Formats a text with `{:?}`, that is with `Debug` for `str`. Taken on
/// trust: the result is the quoted form of the text and depends on the text
/// alone.
#[verifier::external_body]
pub(crate) fn quote(text: &str) -> (result: String)
    ensures
        result@ == quoted(text@),
{
    format!("{:?}", text)
}

/// Two addresses name the same device where their upper-case forms are equal.
pub open spec fn same_address(a: Seq<char>, b: Seq<char>) -> bool {
    uppercase(a) == uppercase(b)
}

/// Whether two texts are equal, character by character.
pub fn text_equal(a: &str, b: &str) -> (equal: bool)
    ensures
        equal == (a@ == b@),
{
    a.to_owned() == b.to_owned()
}

/// Whether a discovered address is the wanted one, without regard to case.
pub fn address_matches(device: &str, target: &str) -> (matches: bool)
    ensures
        matches == same_address(device@, target@),
{
    let device_upper: String = upper(device);
    let target_upper: String = upper(target);
    text_equal(device_upper.as_str(), target_upper.as_str())
}

/// The character of one digit below sixteen, in upper case; a greater number
/// has the character of fifteen.
pub open spec fn digit_char(digit: nat) -> char {
    if digit == 0 {
        '0'
    } else if digit == 1 {
        '1'
    } else if digit == 2 {
        '2'
    } else if digit == 3 {
        '3'
    } else if digit == 4 {
        '4'
    } else if digit == 5 {
        '5'
    } else if digit == 6 {
        '6'
    } else if digit == 7 {
        '7'
    } else if digit == 8 {
        '8'
    } else if digit == 9 {
        '9'
    } else if digit == 10 {
        'A'
    } else if digit == 11 {
        'B'
    } else if digit == 12 {
        'C'
    } else if digit == 13 {
        'D'
    } else if digit == 14 {
        'E'
    } else {
        'F'
    }
}

/// A number in decimal, without leading zeros.
pub open spec fn decimal_text(n: nat) -> Seq<char>
    decreases n,
{
    if n < 10 {
        seq![digit_char(n)]
    } else {
        decimal_text(n / 10).push(digit_char(n % 10))
    }
}

/// A byte as two upper-case hexadecimal digits.
pub open spec fn hex_text(byte: u8) -> Seq<char> {
    seq![digit_char((byte / 16) as nat), digit_char((byte % 16) as nat)]
}

/// The text of a truth value: `true` or `false`.
pub open spec fn bool_text(value: bool) -> Seq<char> {
    if value {
        "true"@
    } else {
        "false"@
    }
}

/// One digit as a text of one character; sixteen and more count as fifteen.
pub fn digit_str(digit: u8) -> (text: &'static str)
    ensures
        text@ == seq![digit_char(digit as nat)],
{
    proof {
        reveal_strlit("0");
        reveal_strlit("1");
        reveal_strlit("2");
        reveal_strlit("3");
        reveal_strlit("4");
        reveal_strlit("5");
        reveal_strlit("6");
        reveal_strlit("7");
        reveal_strlit("8");
        reveal_strlit("9");
        reveal_strlit("A");
        reveal_strlit("B");
        reveal_strlit("C");
        reveal_strlit("D");
        reveal_strlit("E");
        reveal_strlit("F");
    }
    let text: &'static str = match digit {
        0 => "0",
        1 => "1",
        2 => "2",
        3 => "3",
        4 => "4",
        5 => "5",
        6 => "6",
        7 => "7",
        8 => "8",
        9 => "9",
        10 => "A",
        11 => "B",
        12 => "C",
        13 => "D",
        14 => "E",
        _ => "F",
    };
    assert(text@ =~= seq![digit_char(digit as nat)]);
    text
}

/// Appends a byte in decimal to a text.
pub fn push_decimal(text: &mut String, value: u8)
    ensures
        final(text)@ == old(text)@ + decimal_text(value as nat),
{
    let hundreds: u8 = value / 100;
    let tens: u8 = (value / 10) % 10;
    let ones: u8 = value % 10;
    proof {
        reveal_with_fuel(decimal_text, 3);
    }
    if hundreds > 0 {
        text.append(digit_str(hundreds));
        text.append(digit_str(tens));
        text.append(digit_str(ones));
        assert(decimal_text(value as nat) =~= seq![
            digit_char(hundreds as nat),
            digit_char(tens as nat),
            digit_char(ones as nat),
        ]);
    } else if tens > 0 {
        text.append(digit_str(tens));
        text.append(digit_str(ones));
        assert(decimal_text(value as nat) =~= seq![
            digit_char(tens as nat),
            digit_char(ones as nat),
        ]);
    } else {
        text.append(digit_str(ones));
    }
    assert(text@ =~= old(text)@ + decimal_text(value as nat));
}

/// Appends a byte as two upper-case hexadecimal digits to a text.
pub fn push_hex(text: &mut String, byte: u8)
    ensures
        final(text)@ == old(text)@ + hex_text(byte),
{
    text.append(digit_str(byte / 16));
    text.append(digit_str(byte % 16));
    assert(text@ =~= old(text)@ + hex_text(byte));
}

/// The text of a truth value.
pub fn bool_str(value: bool) -> (text: &'static str)
    ensures
        text@ == bool_text(value),
{
    if value {
        "true"
    } else {
        "false"
    }
}

} // verus!
