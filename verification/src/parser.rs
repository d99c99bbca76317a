//! The decoder: one opcode byte to one typed instruction, or `None` for an
//! illegal byte.
//!
//! Bit layout of an opcode (bits numbered 7..0, most significant first):
//!
//! - `1xxxxxxx` — `Mathematical`. Bits 6-4 are the `MathFunction` code, bits
//!   3-2 the `dst` `Target` code, bits 1-0 the `src` `Target` code. All eight
//!   function codes and all four target codes are legal, so every byte with
//!   the high bit set decodes.
//! - `0000xxxx` — `Load` or `Store`. Bit 3 is the direction (clear = load,
//!   set = store), bit 2 the `Register` code (0 = ACC, 1 = MAR), bits 1-0 the
//!   `MemoryMethod` code (0 = address, 1 = constant, 2 = indirect); method
//!   code 3 is undefined and rejected.
//! - `00010xxx` — `Branch`. Bits 2-0 are the `BranchKind` code (0..=6);
//!   kind code 7 is undefined and rejected.
//! - `00011000` — `Nop`; `00011100` — `Hault`; every remaining byte is
//!   rejected.
//!
//! The decoder is a pure function of the byte: `try_parse` returns exactly
//! `decode_spec(opcode)`, and the lemmas below pin down which bytes decode
//! and that decoding a mathematical opcode and re-encoding its fields
//! reproduces the byte.

use crate::instruction::{BranchKind, Instruction, MathFunction, MemoryMethod, Register, Target};
use vstd::prelude::*;

verus! {

/// The `MathFunction` named by a three-bit code.
pub open spec fn math_function_of(c: u8) -> MathFunction {
    if c == 0 {
        MathFunction::And
    } else if c == 1 {
        MathFunction::Or
    } else if c == 2 {
        MathFunction::Xor
    } else if c == 3 {
        MathFunction::Add
    } else if c == 4 {
        MathFunction::Sub
    } else if c == 5 {
        MathFunction::Inc
    } else if c == 6 {
        MathFunction::Dec
    } else {
        MathFunction::Not
    }
}

/// The three-bit code of a `MathFunction`; inverse of `math_function_of`.
pub open spec fn math_function_code(f: MathFunction) -> u8 {
    match f {
        MathFunction::And => 0,
        MathFunction::Or => 1,
        MathFunction::Xor => 2,
        MathFunction::Add => 3,
        MathFunction::Sub => 4,
        MathFunction::Inc => 5,
        MathFunction::Dec => 6,
        MathFunction::Not => 7,
    }
}

/// The `Target` named by a two-bit code.
pub open spec fn target_of(c: u8) -> Target {
    if c == 0 {
        Target::Indirect
    } else if c == 1 {
        Target::Acc
    } else if c == 2 {
        Target::Mar
    } else {
        Target::Memory
    }
}

/// The two-bit code of a `Target`; inverse of `target_of`.
pub open spec fn target_code(t: Target) -> u8 {
    match t {
        Target::Indirect => 0,
        Target::Acc => 1,
        Target::Mar => 2,
        Target::Memory => 3,
    }
}

/// The `Register` named by a one-bit code.
pub open spec fn register_of(c: u8) -> Register {
    if c == 0 {
        Register::Acc
    } else {
        Register::Mar
    }
}

/// The `MemoryMethod` named by a two-bit code; code 3 is undefined.
pub open spec fn memory_method_of(c: u8) -> Option<MemoryMethod> {
    if c == 0 {
        Some(MemoryMethod::Address)
    } else if c == 1 {
        Some(MemoryMethod::Constant)
    } else if c == 2 {
        Some(MemoryMethod::Indirect)
    } else {
        None
    }
}

/// The `BranchKind` named by a three-bit code; code 7 is undefined.
pub open spec fn branch_kind_of(c: u8) -> Option<BranchKind> {
    if c == 0 {
        Some(BranchKind::Bra)
    } else if c == 1 {
        Some(BranchKind::Brz)
    } else if c == 2 {
        Some(BranchKind::Bne)
    } else if c == 3 {
        Some(BranchKind::Blt)
    } else if c == 4 {
        Some(BranchKind::Ble)
    } else if c == 5 {
        Some(BranchKind::Bgt)
    } else if c == 6 {
        Some(BranchKind::Bge)
    } else {
        None
    }
}

/// What one opcode byte means: the instruction it encodes, or `None` when no
/// legal instruction carries that byte.
pub open spec fn decode_spec(b: u8) -> Option<Instruction> {
    if b >= 0x80 {
        Some(
            Instruction::Mathematical {
                func: math_function_of((b / 16) % 8),
                src: target_of(b % 4),
                dst: target_of((b / 4) % 4),
            },
        )
    } else if b <= 0x0F {
        match memory_method_of(b % 4) {
            Some(m) => if b / 8 == 0 {
                Some(Instruction::Load { dst: register_of((b / 4) % 2), src: m })
            } else {
                Some(Instruction::Store { src: register_of((b / 4) % 2), dst: m })
            },
            None => None,
        }
    } else if b <= 0x17 {
        match branch_kind_of(b % 8) {
            Some(k) => Some(Instruction::Branch(k)),
            None => None,
        }
    } else if b == 0x18 {
        Some(Instruction::Nop)
    } else if b == 0x1C {
        Some(Instruction::Hault)
    } else {
        None
    }
}

/// The bytes on which `decode_spec` yields an instruction.
pub open spec fn legal_opcode(b: u8) -> bool {
    ||| b >= 0x80
    ||| b <= 0x0F && b % 4 != 3
    ||| 0x10 <= b <= 0x17 && b % 8 != 7
    ||| b == 0x18
    ||| b == 0x1C
}

/// The byte that encodes `Mathematical { func, src, dst }`: the high bit set,
/// the function code in bits 6-4, the destination code in bits 3-2 and the
/// source code in bits 1-0.
pub open spec fn encode_math(func: MathFunction, src: Target, dst: Target) -> u8 {
    (128 + 16 * math_function_code(func) + 4 * target_code(dst) + target_code(src)) as u8
}

/// Decodes one opcode byte; total over the byte, no state, no side effects.
pub fn try_parse(opcode: u8) -> (r: Option<Instruction>)
    ensures
        r == decode_spec(opcode),
{
    if opcode >= 0x80 {
        let func_code: u8 = (opcode / 16) % 8;
        let dst_code: u8 = (opcode / 4) % 4;
        let src_code: u8 = opcode % 4;
        let func = if func_code == 0 {
            MathFunction::And
        } else if func_code == 1 {
            MathFunction::Or
        } else if func_code == 2 {
            MathFunction::Xor
        } else if func_code == 3 {
            MathFunction::Add
        } else if func_code == 4 {
            MathFunction::Sub
        } else if func_code == 5 {
            MathFunction::Inc
        } else if func_code == 6 {
            MathFunction::Dec
        } else {
            MathFunction::Not
        };
        let src = if src_code == 0 {
            Target::Indirect
        } else if src_code == 1 {
            Target::Acc
        } else if src_code == 2 {
            Target::Mar
        } else {
            Target::Memory
        };
        let dst = if dst_code == 0 {
            Target::Indirect
        } else if dst_code == 1 {
            Target::Acc
        } else if dst_code == 2 {
            Target::Mar
        } else {
            Target::Memory
        };
        Some(Instruction::Mathematical { func, src, dst })
    } else if opcode <= 0x0F {
        let method_code: u8 = opcode % 4;
        let method = if method_code == 0 {
            Some(MemoryMethod::Address)
        } else if method_code == 1 {
            Some(MemoryMethod::Constant)
        } else if method_code == 2 {
            Some(MemoryMethod::Indirect)
        } else {
            None
        };
        match method {
            Some(m) => {
                let reg = if (opcode / 4) % 2 == 0 {
                    Register::Acc
                } else {
                    Register::Mar
                };
                if opcode / 8 == 0 {
                    Some(Instruction::Load { dst: reg, src: m })
                } else {
                    Some(Instruction::Store { src: reg, dst: m })
                }
            },
            None => None,
        }
    } else if opcode <= 0x17 {
        let kind_code: u8 = opcode % 8;
        let kind = if kind_code == 0 {
            Some(BranchKind::Bra)
        } else if kind_code == 1 {
            Some(BranchKind::Brz)
        } else if kind_code == 2 {
            Some(BranchKind::Bne)
        } else if kind_code == 3 {
            Some(BranchKind::Blt)
        } else if kind_code == 4 {
            Some(BranchKind::Ble)
        } else if kind_code == 5 {
            Some(BranchKind::Bgt)
        } else if kind_code == 6 {
            Some(BranchKind::Bge)
        } else {
            None
        };
        match kind {
            Some(k) => Some(Instruction::Branch(k)),
            None => None,
        }
    } else if opcode == 0x18 {
        Some(Instruction::Nop)
    } else if opcode == 0x1C {
        Some(Instruction::Hault)
    } else {
        None
    }
}

/// Decoding is deterministic: any two results obtained for the same byte are
/// the same instruction (or both rejections).
pub proof fn lemma_decode_deterministic(b: u8, r1: Option<Instruction>, r2: Option<Instruction>)
    requires
        r1 == decode_spec(b),
        r2 == decode_spec(b),
    ensures
        r1 == r2,
{
}

/// A byte decodes exactly when it is a legal opcode: every byte with the high
/// bit set, every load/store byte whose method code is not 3, every branch
/// byte whose kind code is not 7, `Nop` and `Hault`; every other byte is
/// rejected.
pub proof fn lemma_decode_some_iff(b: u8)
    ensures
        decode_spec(b) is Some <==> legal_opcode(b),
{
}

/// Round trip: decoding any byte with the high bit set yields a
/// `Mathematical` instruction, and re-encoding its function, source and
/// destination into the same bit positions reproduces the byte exactly.
pub proof fn lemma_math_round_trip(b: u8)
    requires
        b >= 0x80,
    ensures
        decode_spec(b) matches Some(Instruction::Mathematical { func, src, dst })
            && encode_math(func, src, dst) == b,
{
    assert(128 + 16 * ((b / 16) % 8) + 4 * ((b / 4) % 4) + (b % 4) == b) by (bit_vector)
        requires
            b >= 0x80,
    ;
}

} // verus!
