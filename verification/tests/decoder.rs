use vcpu::instruction::{BranchKind, Instruction, MathFunction, MemoryMethod, Register, Target};
use vcpu::parser::try_parse;

fn math_function_code(f: MathFunction) -> u8 {
    match f {
        MathFunction::And => 0,
        MathFunction::Or => 1,
        MathFunction::Xor => 2,
        MathFunction::Add => 3,
        MathFunction::Sub => 4,
        MathFunction::Inc => 5,
        MathFunction::Dec => 6,
        MathFunction::Not => 7,
    }
}

fn target_code(t: Target) -> u8 {
    match t {
        Target::Indirect => 0,
        Target::Acc => 1,
        Target::Mar => 2,
        Target::Memory => 3,
    }
}

fn legal_opcode(b: u8) -> bool {
    b >= 0x80
        || (b <= 0x0F && b % 4 != 3)
        || (0x10 <= b && b <= 0x17 && b % 8 != 7)
        || b == 0x18
        || b == 0x1C
}

#[test]
fn parse() {
    assert_eq!(
        try_parse(0).unwrap(),
        Instruction::Load {
            dst: Register::Acc,
            src: MemoryMethod::Address
        }
    );
}

#[test]
fn decode_deterministic() {
    for b in 0..=255u8 {
        assert_eq!(try_parse(b), try_parse(b));
    }
}

#[test]
fn decode_nop_and_hault() {
    assert_eq!(try_parse(0x18).unwrap(), Instruction::Nop);
    assert_eq!(try_parse(0x1C).unwrap(), Instruction::Hault);
}

#[test]
fn decode_rejects_undefined_bytes() {
    for b in [0x19u8, 0x1A, 0x1B, 0x1D, 0x1E, 0x1F] {
        assert!(try_parse(b).is_none());
    }
    // load/store bytes whose memory-method code is 3
    for b in [0x03u8, 0x07, 0x0B, 0x0F] {
        assert!(try_parse(b).is_none());
    }
    // the branch byte whose kind code is 7
    assert!(try_parse(0x17).is_none());
}

#[test]
fn decode_some_exactly_on_legal_bytes() {
    for b in 0..=255u8 {
        assert_eq!(try_parse(b).is_some(), legal_opcode(b));
    }
}

#[test]
fn decode_branch_kinds() {
    let kinds = [
        BranchKind::Bra,
        BranchKind::Brz,
        BranchKind::Bne,
        BranchKind::Blt,
        BranchKind::Ble,
        BranchKind::Bgt,
        BranchKind::Bge,
    ];
    for (i, kind) in kinds.iter().enumerate() {
        assert_eq!(
            try_parse(0x10 + i as u8).unwrap(),
            Instruction::Branch(*kind)
        );
    }
}

#[test]
fn decode_load_store_variants() {
    assert_eq!(
        try_parse(0x01).unwrap(),
        Instruction::Load {
            dst: Register::Acc,
            src: MemoryMethod::Constant
        }
    );
    assert_eq!(
        try_parse(0x04).unwrap(),
        Instruction::Load {
            dst: Register::Mar,
            src: MemoryMethod::Address
        }
    );
    assert_eq!(
        try_parse(0x08).unwrap(),
        Instruction::Store {
            src: Register::Acc,
            dst: MemoryMethod::Address
        }
    );
    assert_eq!(
        try_parse(0x0E).unwrap(),
        Instruction::Store {
            src: Register::Mar,
            dst: MemoryMethod::Indirect
        }
    );
}

#[test]
fn decode_math_fields() {
    // 1 011 01 01: Add, dst Acc, src Acc
    assert_eq!(
        try_parse(0xB5).unwrap(),
        Instruction::Mathematical {
            func: MathFunction::Add,
            src: Target::Acc,
            dst: Target::Acc
        }
    );
    // 1 000 00 11: And, dst Indirect, src Memory
    assert_eq!(
        try_parse(0x83).unwrap(),
        Instruction::Mathematical {
            func: MathFunction::And,
            src: Target::Memory,
            dst: Target::Indirect
        }
    );
}

#[test]
fn decode_math_round_trip() {
    for b in 0x80..=0xFFu8 {
        match try_parse(b).unwrap() {
            Instruction::Mathematical { func, src, dst } => {
                let encoded =
                    0x80 + 16 * math_function_code(func) + 4 * target_code(dst) + target_code(src);
                assert_eq!(encoded, b);
            }
            other => panic!("byte {:#04x} decoded to {:?}", b, other),
        }
    }
}
