//! Execution core of a minimal 8-bit accumulator-style virtual CPU: a
//! 65536-byte memory, a small register file, a decoder from opcode bytes to
//! typed instructions, and an engine that fetches, decodes and executes until
//! it halts or faults on an illegal opcode.

pub mod computer;
pub mod instruction;
pub mod parser;
