//! The stream walker: consumes a byte stream two bytes at a time, decodes
//! each big-endian word, and emits one `offset: mnemonic` line per word.
//!
//! The walk over an in-memory byte slice is `disassemble`. A walk over a
//! live source is driven from outside: each read attempt becomes a
//! [`ReadEvent`], and [`step`] decides what the attempt produces. [`run`]
//! walks a recorded event sequence the same way.

use vstd::prelude::*;
use vstd::string::StringExecFns;

use crate::decode::{decode, spec_decode};
use crate::text::{offset_hex_str, spec_offset_hex};

verus! {

/// The instruction word assembled big-endian from two stream bytes.
pub open spec fn spec_word(hi: u8, lo: u8) -> u16 {
    (hi * 0x100 + lo) as u16
}

/// Assembles the big-endian instruction word from two stream bytes.
pub fn word(hi: u8, lo: u8) -> (w: u16)
    ensures
        w == spec_word(hi, lo),
{
    (hi as u16) * 0x100 + (lo as u16)
}

/// One output line: the byte offset padded to at least four hex digits,
/// `: `, the mnemonic, and a newline.
pub open spec fn spec_line(offset: nat, w: u16) -> Seq<char> {
    "0x"@ + spec_offset_hex(offset) + ": "@ + spec_decode(w) + "\n"@
}

/// Renders the output line for the instruction `w` found at byte `offset`.
pub fn format_line(offset: usize, w: u16) -> (r: String)
    ensures
        r@ == spec_line(offset as nat, w),
{
    let mut s = String::from_str("0x");
    s.append(offset_hex_str(offset).as_str());
    s.append(": ");
    s.append(decode(w).as_str());
    s.append("\n");
    s
}

/// Everything the walker emits for the bytes of `bytes`, the first of which
/// lies at byte `offset` of the stream: one line per complete 2-byte word.
/// A trailing odd byte contributes nothing.
pub open spec fn spec_walk(bytes: Seq<u8>, offset: nat) -> Seq<char>
    decreases bytes.len(),
{
    if bytes.len() < 2 {
        Seq::<char>::empty()
    } else {
        spec_line(offset, spec_word(bytes[0], bytes[1])) + spec_walk(bytes.skip(2), offset + 2)
    }
}

/// The whole output for a stream held in memory, walked from offset 0.
pub open spec fn spec_disassemble(bytes: Seq<u8>) -> Seq<char> {
    spec_walk(bytes, 0)
}

/// Disassembles an in-memory byte stream: one line per complete 2-byte
/// word, in stream order, each prefixed with its starting byte offset.
/// A trailing odd byte is silently dropped.
pub fn disassemble(input: &[u8]) -> (out: String)
    ensures
        out@ == spec_disassemble(input@),
{
    let mut out = String::new();
    let mut i: usize = 0;
    proof {
        assert(input@.skip(0) =~= input@);
        assert(Seq::<char>::empty() + spec_walk(input@, 0) =~= spec_walk(input@, 0));
    }
    while input.len() - i >= 2
        invariant
            i <= input@.len(),
            spec_disassemble(input@) == out@ + spec_walk(input@.skip(i as int), i as nat),
        decreases input@.len() - i,
    {
        let hi: u8 = input[i];
        let lo: u8 = input[i + 1];
        let line = format_line(i, word(hi, lo));
        proof {
            let pre = input@.skip(i as int);
            assert(pre.skip(2) =~= input@.skip(i as int + 2));
            assert(spec_walk(pre, i as nat) == line@ + spec_walk(
                input@.skip(i as int + 2),
                i as nat + 2,
            ));
            assert(out@ + (line@ + spec_walk(input@.skip(i as int + 2), i as nat + 2)) =~= (out@
                + line@) + spec_walk(input@.skip(i as int + 2), i as nat + 2));
        }
        out.append(line.as_str());
        i = i + 2;
    }
    proof {
        assert(spec_walk(input@.skip(i as int), i as nat) == Seq::<char>::empty());
        assert(out@ + Seq::<char>::empty() =~= out@);
    }
    out
}

/// The walker's output decomposed line by line, offsets starting at `base`:
/// line `n` covers bytes `2n` and `2n + 1` and carries offset `base + 2n`.
pub open spec fn spec_lines_from(bytes: Seq<u8>, base: nat) -> Seq<Seq<char>> {
    Seq::new(
        bytes.len() / 2,
        |n: int| spec_line((base + 2 * n) as nat, spec_word(bytes[2 * n], bytes[2 * n + 1])),
    )
}

/// The walker's output decomposed line by line, from offset 0.
pub open spec fn spec_lines(bytes: Seq<u8>) -> Seq<Seq<char>> {
    spec_lines_from(bytes, 0)
}

proof fn lemma_walk_lines_from(bytes: Seq<u8>, base: nat)
    ensures
        spec_walk(bytes, base) == spec_lines_from(bytes, base).flatten(),
    decreases bytes.len(),
{
    if bytes.len() < 2 {
        assert(spec_lines_from(bytes, base).len() == 0);
        assert(spec_lines_from(bytes, base).flatten() == Seq::<char>::empty());
    } else {
        lemma_walk_lines_from(bytes.skip(2), base + 2);
        let l0 = spec_line(base, spec_word(bytes[0], bytes[1]));
        let rest = spec_lines_from(bytes.skip(2), base + 2);
        let all = spec_lines_from(bytes, base);
        assert(all[0] == l0);
        assert(all.drop_first() =~= rest);
        assert(all.flatten() == l0 + rest.flatten());
    }
}

/// The walk over any byte stream emits exactly one line per complete
/// 2-byte word — `k` lines for a stream of `2k` or `2k + 1` bytes, none
/// for an empty stream — and the `n`-th line carries offset `2n` and the
/// mnemonic of the word assembled big-endian from bytes `2n` and `2n + 1`.
/// A trailing odd byte contributes no line.
pub proof fn lemma_walk_lines(bytes: Seq<u8>)
    ensures
        spec_lines(bytes).len() == bytes.len() / 2,
        spec_disassemble(bytes) == spec_lines(bytes).flatten(),
        forall|n: int|
            0 <= n < spec_lines(bytes).len() ==> spec_lines(bytes)[n] == spec_line(
                (2 * n) as nat,
                spec_word(bytes[2 * n], bytes[2 * n + 1]),
            ),
{
    lemma_walk_lines_from(bytes, 0);
}

/// One read attempt's outcome, as the walker sees it: a complete 2-byte
/// chunk, a short read at the end of the stream (0 or 1 bytes), or an I/O
/// fault distinct from end-of-stream.
#[derive(Clone, Copy, PartialEq, Eq, Structural, Debug)]
pub enum ReadEvent {
    Chunk(u8, u8),
    End,
    Fault,
}

/// The two failures the walker can report: the byte source raised an I/O
/// fault mid-stream, or a write to the sink did not succeed. Decoding
/// itself never fails.
#[derive(Debug)]
pub enum DisassembleError {
    InputError(String),
    OutputError(String),
}

/// What the walker does in reaction to one read event: emit a line and
/// move on, stop cleanly, or fail.
#[derive(Debug)]
pub enum StepAction {
    Emit(String),
    Stop,
    Fail(DisassembleError),
}

/// The walker's decision for one read attempt at byte `offset`: a complete
/// chunk emits its line (and the caller advances the offset by 2), a short
/// read ends the walk successfully, and a read fault reports an input-read
/// failure.
pub fn step(offset: usize, event: &ReadEvent) -> (a: StepAction)
    ensures
        match *event {
            ReadEvent::Chunk(hi, lo) => a matches StepAction::Emit(line) && line@ == spec_line(
                offset as nat,
                spec_word(hi, lo),
            ),
            ReadEvent::End => a is Stop,
            ReadEvent::Fault => a matches StepAction::Fail(e) && e matches
                DisassembleError::InputError(m) && m@ == "Error reading input"@,
        },
{
    match event {
        ReadEvent::Chunk(hi, lo) => StepAction::Emit(format_line(offset, word(*hi, *lo))),
        ReadEvent::End => StepAction::Stop,
        ReadEvent::Fault => StepAction::Fail(
            DisassembleError::InputError(String::from_str("Error reading input")),
        ),
    }
}

/// The lines emitted over a sequence of read events, starting at byte
/// `offset`: one per chunk until the first short read or fault.
pub open spec fn spec_run_output(events: Seq<ReadEvent>, offset: nat) -> Seq<char>
    decreases events.len(),
{
    if events.len() == 0 {
        Seq::<char>::empty()
    } else {
        match events[0] {
            ReadEvent::Chunk(hi, lo) => spec_line(offset, spec_word(hi, lo)) + spec_run_output(
                events.drop_first(),
                offset + 2,
            ),
            _ => Seq::<char>::empty(),
        }
    }
}

/// Whether a walk over `events` hits a read fault before a clean end.
pub open spec fn spec_run_fault(events: Seq<ReadEvent>) -> bool
    decreases events.len(),
{
    if events.len() == 0 {
        false
    } else {
        match events[0] {
            ReadEvent::Chunk(_, _) => spec_run_fault(events.drop_first()),
            ReadEvent::End => false,
            ReadEvent::Fault => true,
        }
    }
}

/// Walks a recorded sequence of read events from offset 0: emits the line
/// for every complete chunk before the first short read or fault, and
/// reports an input-read failure exactly when a fault cuts the stream
/// short. Lines emitted before the failure are kept.
pub fn run(events: &Vec<ReadEvent>) -> (r: (String, Result<(), DisassembleError>))
    requires
        events@.len() <= usize::MAX / 2,
    ensures
        r.0@ == spec_run_output(events@, 0),
        spec_run_fault(events@) ==> (r.1 matches Err(DisassembleError::InputError(m)) && m@
            == "Error reading input"@),
        !spec_run_fault(events@) ==> r.1 is Ok,
{
    let mut out = String::new();
    let mut i: usize = 0;
    let mut offset: usize = 0;
    proof {
        assert(events@.skip(0) =~= events@);
        assert(Seq::<char>::empty() + spec_run_output(events@, 0) =~= spec_run_output(events@, 0));
    }
    while i < events.len()
        invariant
            i <= events@.len(),
            events@.len() <= usize::MAX / 2,
            offset == 2 * i,
            spec_run_output(events@, 0) == out@ + spec_run_output(
                events@.skip(i as int),
                offset as nat,
            ),
            spec_run_fault(events@) == spec_run_fault(events@.skip(i as int)),
        decreases events@.len() - i,
    {
        proof {
            assert(events@.skip(i as int)[0] == events@[i as int]);
            assert(events@.skip(i as int).drop_first() =~= events@.skip(i as int + 1));
        }
        let ev = events[i];
        match ev {
            ReadEvent::Chunk(hi, lo) => {
                let line = format_line(offset, word(hi, lo));
                proof {
                    assert(out@ + (line@ + spec_run_output(
                        events@.skip(i as int + 1),
                        offset as nat + 2,
                    )) =~= (out@ + line@) + spec_run_output(
                        events@.skip(i as int + 1),
                        offset as nat + 2,
                    ));
                }
                out.append(line.as_str());
                i = i + 1;
                offset = offset + 2;
            },
            ReadEvent::End => {
                proof {
                    assert(out@ + Seq::<char>::empty() =~= out@);
                }
                return (out, Ok(()));
            },
            ReadEvent::Fault => {
                proof {
                    assert(out@ + Seq::<char>::empty() =~= out@);
                }
                return (
                    out,
                    Err(DisassembleError::InputError(String::from_str("Error reading input"))),
                );
            },
        }
    }
    proof {
        assert(events@.skip(i as int).len() == 0);
        assert(out@ + Seq::<char>::empty() =~= out@);
    }
    (out, Ok(()))
}

/// The bytes carried by an all-chunk event sequence, in stream order.
pub open spec fn spec_chunk_bytes(events: Seq<ReadEvent>) -> Seq<u8>
    recommends
        forall|i: int| 0 <= i < events.len() ==> events[i] is Chunk,
{
    Seq::new(
        2 * events.len(),
        |i: int|
            if i % 2 == 0 {
                events[i / 2]->Chunk_0
            } else {
                events[i / 2]->Chunk_1
            },
    )
}

/// Over complete chunks alone, the event walk agrees with the byte walk:
/// reading a stream two bytes at a time emits the same lines as walking
/// the same bytes in memory.
pub proof fn lemma_run_matches_walk(events: Seq<ReadEvent>, base: nat)
    requires
        forall|i: int| 0 <= i < events.len() ==> events[i] is Chunk,
    ensures
        spec_run_output(events, base) == spec_walk(spec_chunk_bytes(events), base),
    decreases events.len(),
{
    let bytes = spec_chunk_bytes(events);
    if events.len() == 0 {
        assert(bytes.len() == 0);
    } else {
        lemma_run_matches_walk(events.drop_first(), base + 2);
        assert(events[0] is Chunk);
        assert(spec_chunk_bytes(events.drop_first()) =~= bytes.skip(2));
        assert(bytes[0] == events[0]->Chunk_0);
        assert(bytes[1] == events[0]->Chunk_1);
        assert(spec_walk(bytes, base) == spec_line(base, spec_word(bytes[0], bytes[1]))
            + spec_walk(bytes.skip(2), base + 2));
    }
}

proof fn lemma_fault_prefix_from(events: Seq<ReadEvent>, j: int, base: nat)
    requires
        0 <= j < events.len(),
        forall|i: int| 0 <= i < j ==> events[i] is Chunk,
        events[j] is Fault,
    ensures
        spec_run_fault(events),
        spec_run_output(events, base) == spec_run_output(events.take(j), base),
    decreases j,
{
    if j == 0 {
        assert(events.take(0).len() == 0);
    } else {
        assert(events[0] is Chunk);
        assert(events.drop_first()[j - 1] is Fault);
        lemma_fault_prefix_from(events.drop_first(), j - 1, base + 2);
        assert(events.take(j)[0] == events[0]);
        assert(events.take(j).drop_first() =~= events.drop_first().take(j - 1));
    }
}

/// A read fault that cuts the stream short after `j` complete chunks is
/// reported, and the walk's output is exactly what the walker emits for
/// those `j` chunks' bytes: every line written before the fault is kept,
/// and nothing after it is.
pub proof fn lemma_fault_keeps_prefix(events: Seq<ReadEvent>, j: int)
    requires
        0 <= j < events.len(),
        forall|i: int| 0 <= i < j ==> events[i] is Chunk,
        events[j] is Fault,
    ensures
        spec_run_fault(events),
        spec_run_output(events, 0) == spec_disassemble(spec_chunk_bytes(events.take(j))),
{
    lemma_fault_prefix_from(events, j, 0);
    assert(forall|i: int| 0 <= i < events.take(j).len() ==> events.take(j)[i] is Chunk);
    lemma_run_matches_walk(events.take(j), 0);
}

} // verus!
