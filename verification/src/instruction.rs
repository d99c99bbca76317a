//! The instruction set: a closed family of value types describing every legal
//! instruction and its operand-encoding enumerations. Pure data; the bit-level
//! encoding lives in `parser`, the behaviour in `computer`.

use vstd::prelude::*;

verus! {

/// One decoded instruction.
#[derive(Clone, Copy, PartialEq, Eq, Structural, Debug)]
pub enum Instruction {
    /// Arithmetic or bitwise operation; `src` and `dst` are addressing modes,
    /// the result is written back to `dst`.
    Mathematical { func: MathFunction, src: Target, dst: Target },
    /// Copy from memory or the instruction stream into register `dst`.
    Load { dst: Register, src: MemoryMethod },
    /// Copy register `src` out to memory.
    Store { src: Register, dst: MemoryMethod },
    /// Conditional or unconditional jump, judged against ACC.
    Branch(BranchKind),
    /// No operation.
    Nop,
    /// Stop execution.
    Hault,
}

/// The operation of a `Mathematical` instruction.
#[derive(Clone, Copy, PartialEq, Eq, Structural, Debug)]
pub enum MathFunction {
    And,
    Or,
    Xor,
    Add,
    Sub,
    Inc,
    Dec,
    Not,
}

/// Addressing mode of one `Mathematical` operand.
#[derive(Clone, Copy, PartialEq, Eq, Structural, Debug)]
pub enum Target {
    /// The byte at the address held in MAR.
    Indirect,
    /// The ACC register.
    Acc,
    /// The MAR register.
    Mar,
    /// A 16-bit word at an address taken from the instruction stream.
    Memory,
}

/// The register moved by a `Load` or `Store`.
#[derive(Clone, Copy, PartialEq, Eq, Structural, Debug)]
pub enum Register {
    Acc,
    Mar,
}

/// How a `Load` or `Store` locates its memory operand.
#[derive(Clone, Copy, PartialEq, Eq, Structural, Debug)]
pub enum MemoryMethod {
    /// An address taken from the instruction stream.
    Address,
    /// An immediate value in the instruction stream (for stores this behaves
    /// as `Address`: there is no meaningful constant destination).
    Constant,
    /// The address held in MAR.
    Indirect,
}

/// The condition of a `Branch`, judged against ACC; the ordering kinds read
/// ACC as a two's-complement signed byte.
#[derive(Clone, Copy, PartialEq, Eq, Structural, Debug)]
pub enum BranchKind {
    /// Always taken.
    Bra,
    /// Taken when ACC == 0.
    Brz,
    /// Taken when ACC != 0.
    Bne,
    /// Taken when ACC < 0.
    Blt,
    /// Taken when ACC <= 0.
    Ble,
    /// Taken when ACC > 0.
    Bgt,
    /// Taken when ACC >= 0.
    Bge,
}

} // verus!
