//! Lowercase hexadecimal rendering of the bit fields that appear in
//! mnemonics: single digits, zero-padded 2- and 3-digit immediates,
//! register names, and stream offsets padded to at least 4 digits.

use vstd::prelude::*;
use vstd::string::StringExecFns;

verus! {

/// The lowercase hexadecimal digit for a value below 16, as a one-character
/// string view.
pub open spec fn hex_digit_seq(d: nat) -> Seq<char>
    recommends
        d < 16,
{
    if d == 0 {
        "0"@
    } else if d == 1 {
        "1"@
    } else if d == 2 {
        "2"@
    } else if d == 3 {
        "3"@
    } else if d == 4 {
        "4"@
    } else if d == 5 {
        "5"@
    } else if d == 6 {
        "6"@
    } else if d == 7 {
        "7"@
    } else if d == 8 {
        "8"@
    } else if d == 9 {
        "9"@
    } else if d == 10 {
        "a"@
    } else if d == 11 {
        "b"@
    } else if d == 12 {
        "c"@
    } else if d == 13 {
        "d"@
    } else if d == 14 {
        "e"@
    } else {
        "f"@
    }
}

/// The lowercase hexadecimal digit for `d`, as a string slice.
pub fn hex_digit_str(d: u16) -> (r: &'static str)
    requires
        d < 16,
    ensures
        r@ == hex_digit_seq(d as nat),
{
    if d == 0 {
        "0"
    } else if d == 1 {
        "1"
    } else if d == 2 {
        "2"
    } else if d == 3 {
        "3"
    } else if d == 4 {
        "4"
    } else if d == 5 {
        "5"
    } else if d == 6 {
        "6"
    } else if d == 7 {
        "7"
    } else if d == 8 {
        "8"
    } else if d == 9 {
        "9"
    } else if d == 10 {
        "a"
    } else if d == 11 {
        "b"
    } else if d == 12 {
        "c"
    } else if d == 13 {
        "d"
    } else if d == 14 {
        "e"
    } else {
        "f"
    }
}

/// A data-register operand: `V` followed by one lowercase hex digit,
/// never zero-padded.
pub open spec fn spec_reg(x: nat) -> Seq<char>
    recommends
        x < 16,
{
    "V"@ + hex_digit_seq(x)
}

/// A lowercase hexadecimal digit character.
pub open spec fn is_lower_hex_digit(c: char) -> bool {
    ('0' <= c && c <= '9') || ('a' <= c && c <= 'f')
}

/// Every register operand renders as `V` followed by exactly one lowercase
/// hexadecimal digit: no zero padding for any of the 16 registers.
pub proof fn lemma_reg_operand(x: nat)
    requires
        x < 16,
    ensures
        spec_reg(x).len() == 2,
        spec_reg(x)[0] == 'V',
        is_lower_hex_digit(spec_reg(x)[1]),
{
    reveal_strlit("V");
    reveal_strlit("0");
    reveal_strlit("1");
    reveal_strlit("2");
    reveal_strlit("3");
    reveal_strlit("4");
    reveal_strlit("5");
    reveal_strlit("6");
    reveal_strlit("7");
    reveal_strlit("8");
    reveal_strlit("9");
    reveal_strlit("a");
    reveal_strlit("b");
    reveal_strlit("c");
    reveal_strlit("d");
    reveal_strlit("e");
    reveal_strlit("f");
}

/// Renders the register operand `Vx`.
pub fn reg_str(x: u16) -> (r: String)
    requires
        x < 16,
    ensures
        r@ == spec_reg(x as nat),
{
    let mut s = String::from_str("V");
    s.append(hex_digit_str(x));
    s
}

/// A byte-sized immediate: `0x` and exactly two hex digits, zero-padded.
pub open spec fn spec_byte(kk: nat) -> Seq<char>
    recommends
        kk < 0x100,
{
    "0x"@ + hex_digit_seq(kk / 16) + hex_digit_seq(kk % 16)
}

/// Renders a byte-sized immediate as `0x` plus two zero-padded hex digits.
pub fn byte_str(kk: u16) -> (r: String)
    requires
        kk < 0x100,
    ensures
        r@ == spec_byte(kk as nat),
{
    let mut s = String::from_str("0x");
    s.append(hex_digit_str(kk / 16));
    s.append(hex_digit_str(kk % 16));
    s
}

/// A 12-bit address: `0x` and exactly three hex digits, zero-padded.
pub open spec fn spec_addr(nnn: nat) -> Seq<char>
    recommends
        nnn < 0x1000,
{
    "0x"@ + hex_digit_seq(nnn / 0x100) + hex_digit_seq((nnn / 16) % 16) + hex_digit_seq(nnn % 16)
}

/// Renders a 12-bit address as `0x` plus three zero-padded hex digits.
pub fn addr_str(nnn: u16) -> (r: String)
    requires
        nnn < 0x1000,
    ensures
        r@ == spec_addr(nnn as nat),
{
    let mut s = String::from_str("0x");
    s.append(hex_digit_str(nnn / 0x100));
    s.append(hex_digit_str((nnn / 16) % 16));
    s.append(hex_digit_str(nnn % 16));
    s
}

/// The plain hexadecimal digits of `v`, most significant first, with no
/// padding and no prefix.
pub open spec fn hex_seq(v: nat) -> Seq<char>
    decreases v,
{
    if v < 16 {
        hex_digit_seq(v)
    } else {
        hex_seq(v / 16) + hex_digit_seq(v % 16)
    }
}

/// Renders `v` in plain lowercase hexadecimal, no padding and no prefix.
pub fn hex_str(v: usize) -> (r: String)
    ensures
        r@ == hex_seq(v as nat),
    decreases v,
{
    if v < 16 {
        String::from_str(hex_digit_str(v as u16))
    } else {
        let mut s = hex_str(v / 16);
        s.append(hex_digit_str((v % 16) as u16));
        s
    }
}

/// A stream offset in hexadecimal, zero-padded on the left to at least
/// four digits; wider values keep all their digits.
pub open spec fn spec_offset_hex(v: nat) -> Seq<char> {
    if v < 0x10000 {
        hex_digit_seq(v / 0x1000) + hex_digit_seq((v / 0x100) % 16) + hex_digit_seq((v / 16) % 16)
            + hex_digit_seq(v % 16)
    } else {
        hex_seq(v)
    }
}

/// Renders a stream offset: at least four lowercase hex digits, zero-padded.
pub fn offset_hex_str(v: usize) -> (r: String)
    ensures
        r@ == spec_offset_hex(v as nat),
{
    if v < 0x10000 {
        let w: u16 = v as u16;
        let mut s = String::from_str(hex_digit_str(w / 0x1000));
        s.append(hex_digit_str((w / 0x100) % 16));
        s.append(hex_digit_str((w / 16) % 16));
        s.append(hex_digit_str(w % 16));
        s
    } else {
        hex_str(v)
    }
}

} // verus!
