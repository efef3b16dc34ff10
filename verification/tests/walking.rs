use c8dump::{decode, disassemble, format_line, run, step, word, DisassembleError, ReadEvent,
             StepAction};

#[test]
fn word_is_big_endian() {
    assert_eq!(word(0x12, 0x34), 0x1234);
    assert_eq!(word(0x00, 0xe0), 0x00e0);
    assert_eq!(word(0xff, 0xff), 0xffff);
}

#[test]
fn format_line_pads_offset_to_four_digits() {
    assert_eq!(format_line(0, 0x00e0), "0x0000: CLS\n");
    assert_eq!(format_line(2, 0x1abc), "0x0002: JP 0xabc\n");
    assert_eq!(format_line(0xabc, 0x00ee), "0x0abc: RET\n");
    assert_eq!(format_line(0xffff, 0x00ee), "0xffff: RET\n");
}

#[test]
fn format_line_keeps_wide_offsets_whole() {
    assert_eq!(format_line(0x10000, 0x00e0), "0x10000: CLS\n");
    assert_eq!(format_line(0x12345, 0x00e0), "0x12345: CLS\n");
}

#[test]
fn disassemble_round_trip_even_input() {
    let input = [0x00u8, 0xe0, 0x12, 0x34, 0x81, 0x20, 0x6a, 0x3f];
    let out = disassemble(&input);
    let lines: Vec<&str> = out.lines().collect();
    assert_eq!(lines.len(), input.len() / 2);
    for (n, line) in lines.iter().enumerate() {
        let w = word(input[2 * n], input[2 * n + 1]);
        let expected = format!("0x{:0>4x}: {}", 2 * n, decode(w));
        assert_eq!(*line, expected);
    }
    assert_eq!(out, "0x0000: CLS\n0x0002: JP 0x234\n0x0004: LD V1, V2\n0x0006: LD Va, 0x3f\n");
}

#[test]
fn disassemble_drops_trailing_odd_byte() {
    let even = [0x00u8, 0xe0, 0x12, 0x34];
    let odd = [0x00u8, 0xe0, 0x12, 0x34, 0x99];
    assert_eq!(disassemble(&odd), disassemble(&even));
    assert_eq!(disassemble(&odd).lines().count(), 2);
    assert_eq!(disassemble(&[0x77u8]), "");
}

#[test]
fn disassemble_empty_input() {
    let input: [u8; 0] = [];
    assert_eq!(disassemble(&input), "");
}

#[test]
fn step_emits_line_for_chunk() {
    match step(4, &ReadEvent::Chunk(0x00, 0xe0)) {
        StepAction::Emit(line) => assert_eq!(line, "0x0004: CLS\n"),
        _ => panic!("a complete chunk must emit a line"),
    }
}

#[test]
fn step_stops_on_short_read() {
    assert!(matches!(step(0, &ReadEvent::End), StepAction::Stop));
}

#[test]
fn step_fails_on_read_fault() {
    match step(0, &ReadEvent::Fault) {
        StepAction::Fail(DisassembleError::InputError(m)) => {
            assert_eq!(m, "Error reading input");
        },
        _ => panic!("a read fault must report an input error"),
    }
}

#[test]
fn run_clean_stream_succeeds() {
    let events = vec![
        ReadEvent::Chunk(0x00, 0xe0),
        ReadEvent::Chunk(0x12, 0x34),
        ReadEvent::End,
    ];
    let (out, result) = run(&events);
    assert!(result.is_ok());
    assert_eq!(out, "0x0000: CLS\n0x0002: JP 0x234\n");
}

#[test]
fn run_exhausted_chunks_succeed() {
    let events = vec![ReadEvent::Chunk(0x00, 0xee)];
    let (out, result) = run(&events);
    assert!(result.is_ok());
    assert_eq!(out, "0x0000: RET\n");
}

#[test]
fn run_empty_stream_succeeds() {
    let (out, result) = run(&Vec::new());
    assert!(result.is_ok());
    assert_eq!(out, "");
}

#[test]
fn run_ignores_events_after_end() {
    let events = vec![ReadEvent::End, ReadEvent::Chunk(0x00, 0xe0), ReadEvent::Fault];
    let (out, result) = run(&events);
    assert!(result.is_ok());
    assert_eq!(out, "");
}

#[test]
fn run_fault_keeps_lines_written_before_it() {
    let events = vec![
        ReadEvent::Chunk(0x00, 0xe0),
        ReadEvent::Chunk(0x61, 0x02),
        ReadEvent::Fault,
        ReadEvent::Chunk(0x12, 0x34),
    ];
    let (out, result) = run(&events);
    match result {
        Err(DisassembleError::InputError(m)) => assert_eq!(m, "Error reading input"),
        _ => panic!("a mid-stream fault must report an input error"),
    }
    assert_eq!(out, "0x0000: CLS\n0x0002: LD V1, 0x02\n");
    assert_eq!(out, disassemble(&[0x00, 0xe0, 0x61, 0x02]));
}

#[test]
fn run_immediate_fault_reports_error_with_no_output() {
    let events = vec![ReadEvent::Fault];
    let (out, result) = run(&events);
    assert!(result.is_err());
    assert_eq!(out, "");
}
