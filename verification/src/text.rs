//! Writing numbers and flags as text.

use vstd::prelude::*;
use vstd::utf8::{encode_scalar, encode_utf8, has_width_1_encoding};

verus! {

/// The digit for a number below ten.
pub open spec fn digit_text(d: nat) -> Seq<char> {
    if d == 0 {
        "0"@
    } else if d == 1 {
        "1"@
    } else if d == 2 {
        "2"@
    } else if d == 3 {
        "3"@
    } else if d == 4 {
        "4"@
    } else if d == 5 {
        "5"@
    } else if d == 6 {
        "6"@
    } else if d == 7 {
        "7"@
    } else if d == 8 {
        "8"@
    } else {
        "9"@
    }
}

/// A number in decimal, without sign or leading zeros.
pub open spec fn decimal_text(n: nat) -> Seq<char>
    decreases n,
{
    if n < 10 {
        digit_text(n)
    } else {
        decimal_text(n / 10) + digit_text(n % 10)
    }
}

/// `true` or `false`.
pub open spec fn flag_text(b: bool) -> Seq<char> {
    if b {
        "true"@
    } else {
        "false"@
    }
}

/// Whether no character of a text is a control character below U+0020; in
/// particular, that the text holds no line feed and no carriage return.
pub open spec fn no_control(text: Seq<char>) -> bool {
    forall|i: int| 0 <= i < text.len() ==> (#[trigger] text[i]) as u32 >= 0x20
}

/// Whether no byte is a control character below 0x20.
pub open spec fn no_control_bytes(bytes: Seq<u8>) -> bool {
    forall|i: int| 0 <= i < bytes.len() ==> (#[trigger] bytes[i]) >= 0x20
}

/// A byte that holds the bits of a leading or continuation byte of a longer
/// UTF-8 sequence is no control character.
proof fn marked_byte_is_no_control(low: u8)
    by (bit_vector)
    ensures
        0x80u8 | low >= 0x20,
        0xC0u8 | low >= 0x20,
        0xE0u8 | low >= 0x20,
        0xF0u8 | low >= 0x20,
{
}

/// A character up to U+007F is its own single byte.
proof fn short_scalar_is_its_byte(scalar: u32)
    by (bit_vector)
    requires
        scalar <= 0x7F,
    ensures
        scalar & 0x7F == scalar,
{
}

/// The UTF-8 bytes of a character that is no control character hold no
/// control character.
pub proof fn scalar_bytes_have_no_control(scalar: u32)
    requires
        scalar >= 0x20,
    ensures
        no_control_bytes(encode_scalar(scalar)),
{
    if has_width_1_encoding(scalar) {
        short_scalar_is_its_byte(scalar);
    } else {
        marked_byte_is_no_control(((scalar >> 6) & 0x1F) as u8);
        marked_byte_is_no_control(((scalar >> 12) & 0x0F) as u8);
        marked_byte_is_no_control(((scalar >> 18) & 0x7) as u8);
        marked_byte_is_no_control((scalar & 0x3F) as u8);
        marked_byte_is_no_control(((scalar >> 6) & 0x3F) as u8);
        marked_byte_is_no_control(((scalar >> 12) & 0x3F) as u8);
    }
}

/// The UTF-8 bytes of a text without control characters hold no control
/// character; in particular no newline.
pub proof fn bytes_have_no_control(text: Seq<char>)
    requires
        no_control(text),
    ensures
        no_control_bytes(encode_utf8(text)),
    decreases text.len(),
{
    if text.len() > 0 {
        scalar_bytes_have_no_control(text[0] as u32);
        assert(no_control(text.drop_first())) by {
            assert forall|i: int| 0 <= i < text.drop_first().len() implies (
            #[trigger] text.drop_first()[i]) as u32 >= 0x20 by {
                assert(text.drop_first()[i] == text[i + 1]);
            }
        }
        bytes_have_no_control(text.drop_first());
    }
}

/// A digit is no control character.
pub proof fn digit_has_no_control(d: nat)
    ensures
        no_control(digit_text(d)),
{
    reveal_strlit("0");
    reveal_strlit("1");
    reveal_strlit("2");
    reveal_strlit("3");
    reveal_strlit("4");
    reveal_strlit("5");
    reveal_strlit("6");
    reveal_strlit("7");
    reveal_strlit("8");
    reveal_strlit("9");
}

/// A number in decimal holds no control character.
pub proof fn decimal_has_no_control(n: nat)
    ensures
        no_control(decimal_text(n)),
    decreases n,
{
    digit_has_no_control(n % 10);
    if n < 10 {
        digit_has_no_control(n);
    } else {
        decimal_has_no_control(n / 10);
    }
}

/// A flag holds no control character.
pub proof fn flag_has_no_control(b: bool)
    ensures
        no_control(flag_text(b)),
{
    reveal_strlit("true");
    reveal_strlit("false");
}

/// Writes the last decimal digit of a number.
pub fn digit(n: u64) -> (r: &'static str)
    ensures
        r@ == digit_text(n as nat % 10),
{
    let d = n % 10;
    if d == 0 {
        "0"
    } else if d == 1 {
        "1"
    } else if d == 2 {
        "2"
    } else if d == 3 {
        "3"
    } else if d == 4 {
        "4"
    } else if d == 5 {
        "5"
    } else if d == 6 {
        "6"
    } else if d == 7 {
        "7"
    } else if d == 8 {
        "8"
    } else {
        "9"
    }
}

/// Writes a number in decimal.
pub fn decimal(n: u64) -> (r: String)
    ensures
        r@ == decimal_text(n as nat),
    decreases n,
{
    if n < 10 {
        digit(n).to_owned()
    } else {
        let mut out = decimal(n / 10);
        out.append(digit(n));
        out
    }
}

/// Writes a flag.
pub fn flag(b: bool) -> (r: &'static str)
    ensures
        r@ == flag_text(b),
{
    if b {
        "true"
    } else {
        "false"
    }
}

} // verus!
