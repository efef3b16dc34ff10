//! The instruction decoder: a total map from a 16-bit instruction word to
//! its textual mnemonic.
//!
//! Dispatch is keyed on the top 4 bits; opcodes 0x0, 0x8, 0xE and 0xF
//! dispatch a second time on a sub-field. Unassigned bit patterns decode to
//! an `(invalid)` marker that spells out the offending nibbles, so decoding
//! never fails.

use vstd::prelude::*;
use vstd::string::StringExecFns;

use crate::text::{
    addr_str, byte_str, hex_digit_seq, hex_digit_str, reg_str, spec_addr, spec_byte, spec_reg,
};

verus! {

/// The primary opcode: top 4 bits of the word.
pub open spec fn op_of(w: u16) -> u16 {
    w / 0x1000
}

/// The `x` register field: bits 8 to 11.
pub open spec fn x_of(w: u16) -> u16 {
    (w / 0x100) % 16
}

/// The `y` register field: bits 4 to 7.
pub open spec fn y_of(w: u16) -> u16 {
    (w / 16) % 16
}

/// The low nibble, used as a sub-opcode selector.
pub open spec fn n_of(w: u16) -> u16 {
    w % 16
}

/// The low byte, an 8-bit immediate or selector.
pub open spec fn kk_of(w: u16) -> u16 {
    w % 0x100
}

/// The low 12 bits, an address-sized immediate.
pub open spec fn nnn_of(w: u16) -> u16 {
    w % 0x1000
}

/// Mnemonics under opcode 0x0: two fixed 12-bit patterns are no-operand
/// mnemonics; everything else is a system call carrying the raw address.
pub open spec fn spec_decode_op0(nnn: u16) -> Seq<char>
    recommends
        nnn < 0x1000,
{
    if nnn == 0x0e0 {
        "CLS"@
    } else if nnn == 0x0ee {
        "RET"@
    } else {
        "SYS "@ + spec_addr(nnn as nat)
    }
}

/// Mnemonics under opcode 0x8: arithmetic and logic over `(Vx, Vy)`,
/// selected by the low nibble; unassigned selectors yield the marker.
pub open spec fn spec_decode_op8(x: u16, y: u16, n: u16) -> Seq<char>
    recommends
        x < 16,
        y < 16,
        n < 16,
{
    let pair = spec_reg(x as nat) + ", "@ + spec_reg(y as nat);
    if n == 0x0 {
        "LD "@ + pair
    } else if n == 0x1 {
        "OR "@ + pair
    } else if n == 0x2 {
        "AND "@ + pair
    } else if n == 0x3 {
        "XOR "@ + pair
    } else if n == 0x4 {
        "ADD "@ + pair
    } else if n == 0x5 {
        "SUB "@ + pair
    } else if n == 0x6 {
        "SHR "@ + pair
    } else if n == 0x7 {
        "SUBN "@ + pair
    } else if n == 0xe {
        "SHL "@ + pair
    } else {
        "(invalid): opcode: 8, x: "@ + hex_digit_seq(x as nat) + ", v: "@ + hex_digit_seq(y as nat)
            + ", sel: 0x"@ + hex_digit_seq(n as nat)
    }
}

/// Mnemonics under opcode 0xE: the two key-skip instructions, selected by
/// the low byte; anything else yields the marker.
pub open spec fn spec_decode_ope(x: u16, kk: u16) -> Seq<char>
    recommends
        x < 16,
        kk < 0x100,
{
    if kk == 0x9e {
        "SKP "@ + spec_reg(x as nat)
    } else if kk == 0xa1 {
        "SKNP "@ + spec_reg(x as nat)
    } else {
        "(invalid): opcode: e, x: "@ + hex_digit_seq(x as nat) + ", "@ + spec_byte(kk as nat)
    }
}

/// Mnemonics under opcode 0xF: the `LD`-family moves between `Vx` and the
/// pseudo-registers, selected by the low byte; anything else yields the
/// marker.
pub open spec fn spec_decode_opf(x: u16, kk: u16) -> Seq<char>
    recommends
        x < 16,
        kk < 0x100,
{
    if kk == 0x07 {
        "LD "@ + spec_reg(x as nat) + ", DT"@
    } else if kk == 0x0a {
        "LD "@ + spec_reg(x as nat) + ", K"@
    } else if kk == 0x15 {
        "LD DT, "@ + spec_reg(x as nat)
    } else if kk == 0x18 {
        "LD ST, "@ + spec_reg(x as nat)
    } else if kk == 0x1e {
        "ADD I, "@ + spec_reg(x as nat)
    } else if kk == 0x29 {
        "LD F, "@ + spec_reg(x as nat)
    } else if kk == 0x33 {
        "LD B, "@ + spec_reg(x as nat)
    } else if kk == 0x55 {
        "LD [I], "@ + spec_reg(x as nat)
    } else if kk == 0x65 {
        "LD "@ + spec_reg(x as nat) + ", [I]"@
    } else {
        "(invalid): opcode: f, x: "@ + hex_digit_seq(x as nat) + ", sel: "@ + spec_byte(kk as nat)
    }
}

/// The mnemonic for a whole instruction word.
pub open spec fn spec_decode(w: u16) -> Seq<char> {
    let op = op_of(w);
    if op == 0x0 {
        spec_decode_op0(nnn_of(w))
    } else if op == 0x1 {
        "JP "@ + spec_addr(nnn_of(w) as nat)
    } else if op == 0x2 {
        "CALL "@ + spec_addr(nnn_of(w) as nat)
    } else if op == 0x3 {
        "SE "@ + spec_reg(x_of(w) as nat) + ", "@ + spec_byte(kk_of(w) as nat)
    } else if op == 0x4 {
        "SNE "@ + spec_reg(x_of(w) as nat) + ", "@ + spec_byte(kk_of(w) as nat)
    } else if op == 0x5 {
        "SE "@ + spec_reg(x_of(w) as nat) + ", "@ + spec_reg(y_of(w) as nat)
    } else if op == 0x6 {
        "LD "@ + spec_reg(x_of(w) as nat) + ", "@ + spec_byte(kk_of(w) as nat)
    } else if op == 0x7 {
        "ADD "@ + spec_reg(x_of(w) as nat) + ", "@ + spec_byte(kk_of(w) as nat)
    } else if op == 0x8 {
        spec_decode_op8(x_of(w), y_of(w), n_of(w))
    } else if op == 0x9 {
        "SNE "@ + spec_reg(x_of(w) as nat) + ", "@ + spec_reg(y_of(w) as nat)
    } else if op == 0xa {
        "LD I, "@ + spec_addr(nnn_of(w) as nat)
    } else if op == 0xb {
        "LD V0, "@ + spec_addr(nnn_of(w) as nat)
    } else if op == 0xc {
        "RND "@ + spec_reg(x_of(w) as nat) + ", "@ + spec_byte(kk_of(w) as nat)
    } else if op == 0xd {
        "DRW "@ + spec_reg(x_of(w) as nat) + ", "@ + spec_reg(y_of(w) as nat) + ", "@ + spec_byte(
            n_of(w) as nat,
        )
    } else if op == 0xe {
        spec_decode_ope(x_of(w), kk_of(w))
    } else {
        spec_decode_opf(x_of(w), kk_of(w))
    }
}

/// Renders a `(Vx, Vy)` operand pair for the opcode-0x8 family.
fn reg_pair(mnemonic: &str, x: u16, y: u16) -> (r: String)
    requires
        x < 16,
        y < 16,
    ensures
        r@ == mnemonic@ + (spec_reg(x as nat) + ", "@ + spec_reg(y as nat)),
{
    let mut s = String::from_str(mnemonic);
    let mut pair = reg_str(x);
    pair.append(", ");
    pair.append(reg_str(y).as_str());
    s.append(pair.as_str());
    s
}

/// Decodes the opcode-0x8 sub-dispatch.
fn decode_op8(x: u16, y: u16, n: u16) -> (r: String)
    requires
        x < 16,
        y < 16,
        n < 16,
    ensures
        r@ == spec_decode_op8(x, y, n),
{
    if n == 0x0 {
        reg_pair("LD ", x, y)
    } else if n == 0x1 {
        reg_pair("OR ", x, y)
    } else if n == 0x2 {
        reg_pair("AND ", x, y)
    } else if n == 0x3 {
        reg_pair("XOR ", x, y)
    } else if n == 0x4 {
        reg_pair("ADD ", x, y)
    } else if n == 0x5 {
        reg_pair("SUB ", x, y)
    } else if n == 0x6 {
        reg_pair("SHR ", x, y)
    } else if n == 0x7 {
        reg_pair("SUBN ", x, y)
    } else if n == 0xe {
        reg_pair("SHL ", x, y)
    } else {
        let mut s = String::from_str("(invalid): opcode: 8, x: ");
        s.append(hex_digit_str(x));
        s.append(", v: ");
        s.append(hex_digit_str(y));
        s.append(", sel: 0x");
        s.append(hex_digit_str(n));
        s
    }
}

/// Decodes the opcode-0xE sub-dispatch.
fn decode_ope(x: u16, kk: u16) -> (r: String)
    requires
        x < 16,
        kk < 0x100,
    ensures
        r@ == spec_decode_ope(x, kk),
{
    if kk == 0x9e {
        let mut s = String::from_str("SKP ");
        s.append(reg_str(x).as_str());
        s
    } else if kk == 0xa1 {
        let mut s = String::from_str("SKNP ");
        s.append(reg_str(x).as_str());
        s
    } else {
        let mut s = String::from_str("(invalid): opcode: e, x: ");
        s.append(hex_digit_str(x));
        s.append(", ");
        s.append(byte_str(kk).as_str());
        s
    }
}

/// Decodes the opcode-0xF sub-dispatch.
fn decode_opf(x: u16, kk: u16) -> (r: String)
    requires
        x < 16,
        kk < 0x100,
    ensures
        r@ == spec_decode_opf(x, kk),
{
    if kk == 0x07 {
        let mut s = String::from_str("LD ");
        s.append(reg_str(x).as_str());
        s.append(", DT");
        s
    } else if kk == 0x0a {
        let mut s = String::from_str("LD ");
        s.append(reg_str(x).as_str());
        s.append(", K");
        s
    } else if kk == 0x15 {
        let mut s = String::from_str("LD DT, ");
        s.append(reg_str(x).as_str());
        s
    } else if kk == 0x18 {
        let mut s = String::from_str("LD ST, ");
        s.append(reg_str(x).as_str());
        s
    } else if kk == 0x1e {
        let mut s = String::from_str("ADD I, ");
        s.append(reg_str(x).as_str());
        s
    } else if kk == 0x29 {
        let mut s = String::from_str("LD F, ");
        s.append(reg_str(x).as_str());
        s
    } else if kk == 0x33 {
        let mut s = String::from_str("LD B, ");
        s.append(reg_str(x).as_str());
        s
    } else if kk == 0x55 {
        let mut s = String::from_str("LD [I], ");
        s.append(reg_str(x).as_str());
        s
    } else if kk == 0x65 {
        let mut s = String::from_str("LD ");
        s.append(reg_str(x).as_str());
        s.append(", [I]");
        s
    } else {
        let mut s = String::from_str("(invalid): opcode: f, x: ");
        s.append(hex_digit_str(x));
        s.append(", sel: ");
        s.append(byte_str(kk).as_str());
        s
    }
}

/// Renders a two-operand mnemonic: the name, the first operand, `, `, the
/// second operand.
fn mnemonic_two(mnemonic: &str, first: String, second: String) -> (r: String)
    ensures
        r@ == mnemonic@ + first@ + ", "@ + second@,
{
    let mut s = String::from_str(mnemonic);
    s.append(first.as_str());
    s.append(", ");
    s.append(second.as_str());
    s
}

/// Decodes one instruction word into its mnemonic. Total: every 16-bit
/// value maps to exactly one non-empty string, and unassigned bit patterns
/// map to an `(invalid)` marker rather than an error.
pub fn decode(instruction: u16) -> (r: String)
    ensures
        r@ == spec_decode(instruction),
        r@.len() > 0,
{
    proof {
        lemma_decode_nonempty(instruction);
    }
    let op: u16 = instruction / 0x1000;
    let x: u16 = (instruction / 0x100) % 16;
    let y: u16 = (instruction / 16) % 16;
    let n: u16 = instruction % 16;
    let kk: u16 = instruction % 0x100;
    let nnn: u16 = instruction % 0x1000;
    if op == 0x0 {
        if nnn == 0x0e0 {
            String::from_str("CLS")
        } else if nnn == 0x0ee {
            String::from_str("RET")
        } else {
            let mut s = String::from_str("SYS ");
            s.append(addr_str(nnn).as_str());
            s
        }
    } else if op == 0x1 {
        let mut s = String::from_str("JP ");
        s.append(addr_str(nnn).as_str());
        s
    } else if op == 0x2 {
        let mut s = String::from_str("CALL ");
        s.append(addr_str(nnn).as_str());
        s
    } else if op == 0x3 {
        mnemonic_two("SE ", reg_str(x), byte_str(kk))
    } else if op == 0x4 {
        mnemonic_two("SNE ", reg_str(x), byte_str(kk))
    } else if op == 0x5 {
        mnemonic_two("SE ", reg_str(x), reg_str(y))
    } else if op == 0x6 {
        mnemonic_two("LD ", reg_str(x), byte_str(kk))
    } else if op == 0x7 {
        mnemonic_two("ADD ", reg_str(x), byte_str(kk))
    } else if op == 0x8 {
        decode_op8(x, y, n)
    } else if op == 0x9 {
        mnemonic_two("SNE ", reg_str(x), reg_str(y))
    } else if op == 0xa {
        let mut s = String::from_str("LD I, ");
        s.append(addr_str(nnn).as_str());
        s
    } else if op == 0xb {
        let mut s = String::from_str("LD V0, ");
        s.append(addr_str(nnn).as_str());
        s
    } else if op == 0xc {
        mnemonic_two("RND ", reg_str(x), byte_str(kk))
    } else if op == 0xd {
        let mut s = mnemonic_two("DRW ", reg_str(x), reg_str(y));
        s.append(", ");
        s.append(byte_str(n).as_str());
        s
    } else if op == 0xe {
        decode_ope(x, kk)
    } else {
        decode_opf(x, kk)
    }
}

/// The decoder is total: every 16-bit instruction word decodes to a
/// non-empty mnemonic.
pub proof fn lemma_decode_nonempty(w: u16)
    ensures
        spec_decode(w).len() > 0,
{
    reveal_strlit("CLS");
    reveal_strlit("RET");
    reveal_strlit("SYS ");
    reveal_strlit("JP ");
    reveal_strlit("CALL ");
    reveal_strlit("SE ");
    reveal_strlit("SNE ");
    reveal_strlit("LD ");
    reveal_strlit("ADD ");
    reveal_strlit("OR ");
    reveal_strlit("AND ");
    reveal_strlit("XOR ");
    reveal_strlit("SUB ");
    reveal_strlit("SHR ");
    reveal_strlit("SUBN ");
    reveal_strlit("SHL ");
    reveal_strlit("LD I, ");
    reveal_strlit("LD V0, ");
    reveal_strlit("RND ");
    reveal_strlit("DRW ");
    reveal_strlit("SKP ");
    reveal_strlit("SKNP ");
    reveal_strlit("LD DT, ");
    reveal_strlit("LD ST, ");
    reveal_strlit("ADD I, ");
    reveal_strlit("LD F, ");
    reveal_strlit("LD B, ");
    reveal_strlit("LD [I], ");
    reveal_strlit("(invalid): opcode: 8, x: ");
    reveal_strlit("(invalid): opcode: e, x: ");
    reveal_strlit("(invalid): opcode: f, x: ");
}

} // verus!
