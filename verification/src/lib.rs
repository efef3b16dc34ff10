//! A disassembler for the Chip-8 virtual machine's 16-bit instruction words.
//!
//! The decoder maps every 16-bit word to a textual mnemonic; the stream
//! walker turns a byte stream into one annotated line per instruction.

pub mod decode;
pub mod text;
pub mod walker;

pub use decode::decode;
pub use walker::DisassembleError;
pub use walker::ReadEvent;
pub use walker::StepAction;
pub use walker::disassemble;
pub use walker::format_line;
pub use walker::run;
pub use walker::step;
pub use walker::word;
