//! Colours as four byte channels, read from and written as hexadecimal text.

use vstd::prelude::*;
use vstd::string::*;
use crate::text::{hex_digit_value, hex_pair, hex_value, push_hex_pair, upper_hex};

verus! {

/// A colour: red, green, blue and alpha, one byte each.
#[derive(Debug, Clone, Copy, PartialEq, Eq)]
pub struct HexColor {
    pub r: u8,
    pub g: u8,
    pub b: u8,
    pub a: u8,
}

/// Where the digits begin: behind one leading `#`, if there is one.
pub open spec fn digits_start(s: Seq<char>) -> int {
    if s.len() > 0 && s[0] == '#' {
        1
    } else {
        0
    }
}

/// The byte that the two characters from `at` on spell, if both are there
/// and both are hexadecimal digits.
pub open spec fn channel_at(s: Seq<char>, at: int) -> Option<u8> {
    if 0 <= at && at + 2 <= s.len() {
        match (hex_value(s[at]), hex_value(s[at + 1])) {
            (Some(high), Some(low)) => Some((high * 16 + low) as u8),
            _ => None,
        }
    } else {
        None
    }
}

/// What a text decodes to: the colour, or the message that names the first
/// channel whose two digits are missing or malformed. The alpha channel is
/// read only from a text of exactly eight digits, and is 255 otherwise.
pub open spec fn decoded(s: Seq<char>) -> Result<HexColor, Seq<char>> {
    let at = digits_start(s);
    match (channel_at(s, at), channel_at(s, at + 2), channel_at(s, at + 4)) {
        (None, _, _) => Err("Invalid red value"@),
        (Some(_), None, _) => Err("Invalid green value"@),
        (Some(_), Some(_), None) => Err("Invalid blue value"@),
        (Some(r), Some(g), Some(b)) => if s.len() - at == 8 {
            match channel_at(s, at + 6) {
                None => Err("Invalid alpha value"@),
                Some(a) => Ok(HexColor { r, g, b, a }),
            }
        } else {
            Ok(HexColor { r, g, b, a: 255 })
        },
    }
}

/// The canonical text of a colour: `#` and eight upper-case digits.
pub open spec fn encoded(c: HexColor) -> Seq<char> {
    seq!['#'] + hex_pair(c.r) + hex_pair(c.g) + hex_pair(c.b) + hex_pair(c.a)
}

fn read_channel(text: &str, len: usize, at: usize) -> (r: Option<u8>)
    requires
        len == text@.len(),
        at <= 7,
    ensures
        r == channel_at(text@, at as int),
{
    if len < 2 || at > len - 2 {
        return None;
    }
    match (hex_digit_value(text.get_char(at)), hex_digit_value(text.get_char(at + 1))) {
        (Some(high), Some(low)) => Some(high * 16 + low),
        _ => None,
    }
}

impl HexColor {
    /// Decodes a colour from six or eight hexadecimal digits, with or
    /// without a leading `#`.
    pub fn from_hex(hex: &str) -> (res: Result<Self, String>)
        ensures
            match res {
                Ok(c) => decoded(hex@) == Ok::<HexColor, Seq<char>>(c),
                Err(e) => decoded(hex@) == Err::<HexColor, Seq<char>>(e@),
            },
    {
        let len: usize = hex.unicode_len();
        let at: usize = if len > 0 && hex.get_char(0) == '#' {
            1
        } else {
            0
        };
        let r: u8 = match read_channel(hex, len, at) {
            Some(v) => v,
            None => return Err(String::from_str("Invalid red value")),
        };
        let g: u8 = match read_channel(hex, len, at + 2) {
            Some(v) => v,
            None => return Err(String::from_str("Invalid green value")),
        };
        let b: u8 = match read_channel(hex, len, at + 4) {
            Some(v) => v,
            None => return Err(String::from_str("Invalid blue value")),
        };
        let a: u8 = if len - at == 8 {
            match read_channel(hex, len, at + 6) {
                Some(v) => v,
                None => return Err(String::from_str("Invalid alpha value")),
            }
        } else {
            255
        };
        Ok(HexColor { r, g, b, a })
    }

    /// Encodes the colour as `#` and eight upper-case hexadecimal digits.
    pub fn to_hex(&self) -> (s: String)
        ensures
            s@ == encoded(*self),
    {
        let mut s = String::from_str("#");
        proof {
            reveal_strlit("#");
        }
        push_hex_pair(&mut s, self.r);
        push_hex_pair(&mut s, self.g);
        push_hex_pair(&mut s, self.b);
        push_hex_pair(&mut s, self.a);
        assert(s@ =~= encoded(*self));
        s
    }

    /// The four channels: red, green, blue, alpha.
    pub fn to_tuple(&self) -> (t: (u8, u8, u8, u8))
        ensures
            t == (self.r, self.g, self.b, self.a),
    {
        (self.r, self.g, self.b, self.a)
    }
}

/// Decoding a text and encoding the colour again gives `#` and eight
/// upper-case digits: the first six are the text's own first six digits in
/// upper case, and the last two are `FF` unless the text held exactly eight.
pub proof fn lemma_decode_then_encode(s: Seq<char>, c: HexColor)
    requires
        decoded(s) == Ok::<HexColor, Seq<char>>(c),
    ensures
        encoded(c).len() == 9,
        encoded(c)[0] == '#',
        forall|i: int| 0 <= i < 6 ==> encoded(c)[1 + i] == upper_hex(#[trigger] s[digits_start(s) + i]),
        s.len() - digits_start(s) == 8 ==> forall|i: int|
            6 <= i < 8 ==> encoded(c)[1 + i] == upper_hex(#[trigger] s[digits_start(s) + i]),
        s.len() - digits_start(s) != 8 ==> encoded(c)[7] == 'F' && encoded(c)[8] == 'F',
        forall|i: int| 1 <= i < 9 ==> hex_value(#[trigger] encoded(c)[i]) is Some,
{
    let at = digits_start(s);
    lemma_pair_spells(s, at);
    lemma_pair_spells(s, at + 2);
    lemma_pair_spells(s, at + 4);
    if s.len() - at == 8 {
        lemma_pair_spells(s, at + 6);
    }
    lemma_pair_is_hex(c.r);
    lemma_pair_is_hex(c.g);
    lemma_pair_is_hex(c.b);
    lemma_pair_is_hex(c.a);
}

/// A colour that is encoded and then decoded comes back as it was.
pub proof fn lemma_encode_then_decode(c: HexColor)
    ensures
        decoded(encoded(c)) == Ok::<HexColor, Seq<char>>(c),
{
    let s = encoded(c);
    assert(s.len() == 9);
    assert(s[0] == '#');
    lemma_pair_is_hex(c.r);
    lemma_pair_is_hex(c.g);
    lemma_pair_is_hex(c.b);
    lemma_pair_is_hex(c.a);
    assert(channel_at(s, 1) == Some(c.r));
    assert(channel_at(s, 3) == Some(c.g));
    assert(channel_at(s, 5) == Some(c.b));
    assert(channel_at(s, 7) == Some(c.a));
}

/// A byte's two digits are upper-case hexadecimal digits.
proof fn lemma_pair_is_hex(v: u8)
    ensures
        hex_value(hex_pair(v)[0]) == Some((v / 16) as u8),
        hex_value(hex_pair(v)[1]) == Some((v % 16) as u8),
{
}

/// The byte read from two digits is written as those digits in upper case.
proof fn lemma_pair_spells(s: Seq<char>, at: int)
    requires
        channel_at(s, at) is Some,
    ensures
        hex_pair(channel_at(s, at)->0)[0] == upper_hex(s[at]),
        hex_pair(channel_at(s, at)->0)[1] == upper_hex(s[at + 1]),
{
}

} // verus!
