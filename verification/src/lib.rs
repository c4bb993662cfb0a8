//! A disassembler for a subset of the 8086 instruction set.
//!
//! The library decodes a finite stream of machine-code bytes into
//! assembler-syntax text lines, one line per instruction.  The subset
//! covers the `mov`, `add`, `sub` and `cmp` families and the short
//! conditional jumps.  Decoding is specified against a mathematical
//! model of the instruction grammar: every executable decoder is
//! proved to agree with the spec-level decoder on its slice of the
//! byte stream.

pub mod cursor;
pub mod text;
pub mod tables;
pub mod model;
pub mod decode;
pub mod driver;
pub mod laws;
