//! Colors and their text form.

use vstd::prelude::*;
use vstd::string::StringExecFns;

verus! {

/// A color of four byte channels.
#[derive(Clone, Copy, Debug, PartialEq, Eq, Structural)]
pub struct Rgba {
    pub red: u8,
    pub green: u8,
    pub blue: u8,
    pub alpha: u8,
}

/// The lowercase hexadecimal digit for a value below sixteen.
pub open spec fn hex_digit(value: int) -> char {
    if value == 0 {
        '0'
    } else if value == 1 {
        '1'
    } else if value == 2 {
        '2'
    } else if value == 3 {
        '3'
    } else if value == 4 {
        '4'
    } else if value == 5 {
        '5'
    } else if value == 6 {
        '6'
    } else if value == 7 {
        '7'
    } else if value == 8 {
        '8'
    } else if value == 9 {
        '9'
    } else if value == 10 {
        'a'
    } else if value == 11 {
        'b'
    } else if value == 12 {
        'c'
    } else if value == 13 {
        'd'
    } else if value == 14 {
        'e'
    } else {
        'f'
    }
}

/// Whether `c` is one of `0`-`9` or `a`-`f`.
pub open spec fn is_lower_hex(c: char) -> bool {
    exists|value: int| 0 <= value < 16 && c == #[trigger] hex_digit(value)
}

/// The two digits of a byte, high nibble first.
pub open spec fn hex_byte(byte: u8) -> Seq<char> {
    seq![hex_digit(byte as int / 16), hex_digit(byte as int % 16)]
}

/// The text form of a color: `#` followed by the red, green, blue and alpha
/// bytes, two digits each.
pub open spec fn hex_color(color: Rgba) -> Seq<char> {
    seq!['#'] + hex_byte(color.red) + hex_byte(color.green) + hex_byte(color.blue) + hex_byte(
        color.alpha,
    )
}

/// The text form of a color is nine characters long: `#`, then eight
/// lowercase hexadecimal digits.
pub proof fn lemma_hex_color_shape(color: Rgba)
    ensures
        hex_color(color).len() == 9,
        hex_color(color)[0] == '#',
        forall|i: int| 1 <= i < 9 ==> is_lower_hex(#[trigger] hex_color(color)[i]),
{
    let text = hex_color(color);
    assert(is_lower_hex(text[1])) by {
        assert(text[1] == hex_digit(color.red as int / 16));
    }
    assert(is_lower_hex(text[2])) by {
        assert(text[2] == hex_digit(color.red as int % 16));
    }
    assert(is_lower_hex(text[3])) by {
        assert(text[3] == hex_digit(color.green as int / 16));
    }
    assert(is_lower_hex(text[4])) by {
        assert(text[4] == hex_digit(color.green as int % 16));
    }
    assert(is_lower_hex(text[5])) by {
        assert(text[5] == hex_digit(color.blue as int / 16));
    }
    assert(is_lower_hex(text[6])) by {
        assert(text[6] == hex_digit(color.blue as int % 16));
    }
    assert(is_lower_hex(text[7])) by {
        assert(text[7] == hex_digit(color.alpha as int / 16));
    }
    assert(is_lower_hex(text[8])) by {
        assert(text[8] == hex_digit(color.alpha as int % 16));
    }
}

/// The one-character text of a hexadecimal digit.
fn digit_text(value: u8) -> (text: &'static str)
    requires
        value < 16,
    ensures
        text@ == seq![hex_digit(value as int)],
{
    proof {
        reveal_strlit("0");
        reveal_strlit("1");
        reveal_strlit("2");
        reveal_strlit("3");
        reveal_strlit("4");
        reveal_strlit("5");
        reveal_strlit("6");
        reveal_strlit("7");
        reveal_strlit("8");
        reveal_strlit("9");
        reveal_strlit("a");
        reveal_strlit("b");
        reveal_strlit("c");
        reveal_strlit("d");
        reveal_strlit("e");
        reveal_strlit("f");
    }
    let text: &'static str = match value {
        0 => "0",
        1 => "1",
        2 => "2",
        3 => "3",
        4 => "4",
        5 => "5",
        6 => "6",
        7 => "7",
        8 => "8",
        9 => "9",
        10 => "a",
        11 => "b",
        12 => "c",
        13 => "d",
        14 => "e",
        _ => "f",
    };
    assert(text@ =~= seq![hex_digit(value as int)]);
    text
}

/// Appends the two digits of `byte` to `text`.
fn push_hex_byte(text: &mut String, byte: u8)
    ensures
        final(text)@ == old(text)@ + hex_byte(byte),
{
    text.append(digit_text(byte / 16));
    text.append(digit_text(byte % 16));
    assert(text@ =~= old(text)@ + hex_byte(byte));
}

impl Rgba {
    /// Renders the color as `#rrggbbaa` in lowercase hexadecimal.
    pub fn hex(&self) -> (text: String)
        ensures
            text@ == hex_color(*self),
    {
        proof {
            reveal_strlit("#");
        }
        let mut text = String::from_str("#");
        push_hex_byte(&mut text, self.red);
        push_hex_byte(&mut text, self.green);
        push_hex_byte(&mut text, self.blue);
        push_hex_byte(&mut text, self.alpha);
        assert(text@ =~= hex_color(*self));
        text
    }
}

} // verus!
