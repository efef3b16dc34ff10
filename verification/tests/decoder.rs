use c8dump::decode;

#[test]
fn decode_is_total_and_nonempty() {
    for w in 0u32..=0xffffu32 {
        let s = decode(w as u16);
        assert!(!s.is_empty());
    }
}

#[test]
fn decode_opcode_0() {
    assert_eq!(decode(0x00e0), "CLS");
    assert_eq!(decode(0x00ee), "RET");
    assert_eq!(decode(0x0123), "SYS 0x123");
    assert_eq!(decode(0x0000), "SYS 0x000");
    assert_eq!(decode(0x0fff), "SYS 0xfff");
}

#[test]
fn decode_jumps_and_calls() {
    assert_eq!(decode(0x1abc), "JP 0xabc");
    assert_eq!(decode(0x2abc), "CALL 0xabc");
    assert_eq!(decode(0x1005), "JP 0x005");
    assert_eq!(decode(0xa012), "LD I, 0x012");
    assert_eq!(decode(0xbabc), "LD V0, 0xabc");
}

#[test]
fn decode_register_byte_forms() {
    assert_eq!(decode(0x6a3f), "LD Va, 0x3f");
    assert_eq!(decode(0x7a3f), "ADD Va, 0x3f");
    assert_eq!(decode(0x3102), "SE V1, 0x02");
    assert_eq!(decode(0x4f00), "SNE Vf, 0x00");
    assert_eq!(decode(0xc2ab), "RND V2, 0xab");
}

#[test]
fn decode_register_pair_forms() {
    assert_eq!(decode(0x5120), "SE V1, V2");
    assert_eq!(decode(0x9af0), "SNE Va, Vf");
}

#[test]
fn decode_opcode_8_family() {
    assert_eq!(decode(0x8120), "LD V1, V2");
    assert_eq!(decode(0x8121), "OR V1, V2");
    assert_eq!(decode(0x8122), "AND V1, V2");
    assert_eq!(decode(0x8123), "XOR V1, V2");
    assert_eq!(decode(0x8124), "ADD V1, V2");
    assert_eq!(decode(0x8125), "SUB V1, V2");
    assert_eq!(decode(0x8126), "SHR V1, V2");
    assert_eq!(decode(0x8127), "SUBN V1, V2");
    assert_eq!(decode(0x812e), "SHL V1, V2");
}

#[test]
fn decode_opcode_8_invalid_marker() {
    let marker = decode(0x8ab8);
    assert_eq!(marker, "(invalid): opcode: 8, x: a, v: b, sel: 0x8");
    assert!(marker.contains("8"));
    assert!(marker.contains("a"));
    assert!(marker.contains("b"));
    assert_eq!(decode(0x812f), "(invalid): opcode: 8, x: 1, v: 2, sel: 0xf");
}

#[test]
fn decode_draw() {
    assert_eq!(decode(0xdab4), "DRW Va, Vb, 0x04");
    assert_eq!(decode(0xd12f), "DRW V1, V2, 0x0f");
}

#[test]
fn decode_opcode_e_family() {
    assert_eq!(decode(0xe19e), "SKP V1");
    assert_eq!(decode(0xeaa1), "SKNP Va");
    assert_eq!(decode(0xe1ab), "(invalid): opcode: e, x: 1, 0xab");
    assert_eq!(decode(0xe100), "(invalid): opcode: e, x: 1, 0x00");
}

#[test]
fn decode_opcode_f_family() {
    assert_eq!(decode(0xf107), "LD V1, DT");
    assert_eq!(decode(0xf10a), "LD V1, K");
    assert_eq!(decode(0xf115), "LD DT, V1");
    assert_eq!(decode(0xf118), "LD ST, V1");
    assert_eq!(decode(0xf11e), "ADD I, V1");
    assert_eq!(decode(0xf129), "LD F, V1");
    assert_eq!(decode(0xf133), "LD B, V1");
    assert_eq!(decode(0xf155), "LD [I], V1");
    assert_eq!(decode(0xf165), "LD V1, [I]");
    assert_eq!(decode(0xf1ab), "(invalid): opcode: f, x: 1, sel: 0xab");
    assert_eq!(decode(0xf100), "(invalid): opcode: f, x: 1, sel: 0x00");
}

#[test]
fn register_operands_render_unpadded_lowercase() {
    let digits = "0123456789abcdef";
    for x in 0u16..16u16 {
        let s = decode(0x603f | (x << 8));
        let expected = format!("LD V{}, 0x3f", digits.as_bytes()[x as usize] as char);
        assert_eq!(s, expected);
        assert_eq!(s.len(), "LD V?, 0x3f".len());
    }
}
