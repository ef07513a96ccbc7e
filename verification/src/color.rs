//! Colors and their textual form.

use vstd::prelude::*;
use vstd::string::*;

verus! {

/// An RGB color. Two colors are equal when all three channels are.
#[derive(Clone, Copy, Debug, PartialEq, Eq, Structural)]
pub struct Color {
    pub r: u8,
    pub g: u8,
    pub b: u8,
}

/// The lowercase hexadecimal digit for a value below sixteen.
pub open spec fn hex_digit(n: int) -> char {
    seq!['0', '1', '2', '3', '4', '5', '6', '7', '8', '9', 'a', 'b', 'c', 'd', 'e', 'f'][n]
}

/// The lowercase hexadecimal form of a byte string: two digits for each byte,
/// the high half first.
pub open spec fn lower_hex(bytes: Seq<u8>) -> Seq<char> {
    Seq::new(
        2 * bytes.len(),
        |i: int|
            if i % 2 == 0 {
                hex_digit(bytes[i / 2] as int / 16)
            } else {
                hex_digit(bytes[i / 2] as int % 16)
            },
    )
}

/// Calls `hex::encode`. Taken on trust: it writes each byte as two lowercase
/// hexadecimal digits, the high half first, in the order of the input.
#[verifier::external_body]
fn encode_hex(bytes: &[u8]) -> (digits: String)
    ensures
        digits@ == lower_hex(bytes@),
{
    hex::encode(bytes)
}

impl Color {
    /// The channels in the order red, green, blue.
    pub open spec fn channels(self) -> Seq<u8> {
        seq![self.r, self.g, self.b]
    }

    /// The text `#rrggbb` for this color.
    pub open spec fn hex_text(self) -> Seq<char> {
        seq!['#'] + lower_hex(self.channels())
    }

    /// The darkened variant: each channel divided by three, rounding down.
    pub open spec fn darkened(self) -> Color {
        Color { r: self.r / 3, g: self.g / 3, b: self.b / 3 }
    }

    /// Darkens the color: every channel becomes a third of itself, rounded
    /// down.
    pub fn darken(&self) -> (dark: Color)
        ensures
            dark == self.darkened(),
            dark.r == self.r / 3,
            dark.g == self.g / 3,
            dark.b == self.b / 3,
    {
        Color { r: self.r / 3, g: self.g / 3, b: self.b / 3 }
    }

    /// Formats the color as `#rrggbb` in lowercase hexadecimal.
    pub fn hex(&self) -> (text: String)
        ensures
            text@ == self.hex_text(),
    {
        let bytes: [u8; 3] = [self.r, self.g, self.b];
        let digits = encode_hex(bytes.as_slice());
        proof {
            reveal_strlit("#");
            assert(bytes@ =~= self.channels());
            assert("#"@ =~= seq!['#']);
        }
        let mut text = String::from_str("#");
        text.append(digits.as_str());
        text
    }
}

} // verus!
