use vcpu::computer::{Computer, TerminationReason, MEMORY_SIZE};

fn image(program: &[u8]) -> [u8; MEMORY_SIZE] {
    let mut memory = [0u8; MEMORY_SIZE];
    memory[..program.len()].copy_from_slice(program);
    memory
}

#[test]
fn hault_only_halts_in_one_cycle() {
    let memory = image(&[0x1C]);
    let mut computer = Computer::new(memory);
    assert_eq!(computer.run(1), Some(TerminationReason::Halted));
    assert_eq!(computer.pc(), 1);
    assert_eq!(computer.ir(), 0x1C);
    assert_eq!(computer.acc(), 0);
    assert_eq!(computer.mar(), 0);
    assert_eq!(computer.memory(), &memory[..]);
}

#[test]
fn load_acc_constant_then_hault() {
    // Load ACC, constant 5; Hault
    let mut computer = Computer::new(image(&[0x01, 5, 0x1C]));
    assert_eq!(computer.run(10), Some(TerminationReason::Halted));
    assert_eq!(computer.acc(), 5);
}

#[test]
fn bra_lands_on_hault() {
    // Bra 0x0005; the byte at 0x0005 is Hault
    let mut program = [0u8; 6];
    program[0] = 0x10;
    program[1] = 0x00;
    program[2] = 0x05;
    program[5] = 0x1C;
    let mut computer = Computer::new(image(&program));
    assert_eq!(computer.run(10), Some(TerminationReason::Halted));
    assert_eq!(computer.pc(), 6); // one past the branch target
}

#[test]
fn illegal_first_byte_faults() {
    let memory = image(&[0x19]);
    let mut computer = Computer::new(memory);
    assert_eq!(
        computer.run(10),
        Some(TerminationReason::Faulted {
            opcode: 0x19,
            pc: 1
        })
    );
    assert_eq!(computer.ir(), 0x19);
    assert_eq!(computer.memory(), &memory[..]);
}

#[test]
fn tight_loop_exhausts_cycles_and_resumes() {
    // Bra 0x0000 forever
    let mut computer = Computer::new(image(&[0x10, 0x00, 0x00]));
    assert_eq!(computer.run(100), None);
    assert_eq!(computer.run(100), None);
    assert_eq!(computer.pc(), 0);
}

#[test]
fn run_zero_cycles_changes_nothing() {
    let memory = image(&[0x1C]);
    let mut computer = Computer::new(memory);
    assert_eq!(computer.run(0), None);
    assert_eq!(computer.pc(), 0);
    assert_eq!(computer.memory(), &memory[..]);
}

#[test]
fn add_acc_to_acc_and_store() {
    // Load ACC, constant 21; Add dst ACC src ACC; Store ACC to 0x0010; Hault
    let mut computer = Computer::new(image(&[0x01, 21, 0xB5, 0x08, 0x00, 0x10, 0x1C]));
    assert_eq!(computer.run(10), Some(TerminationReason::Halted));
    assert_eq!(computer.acc(), 42);
    assert_eq!(computer.memory()[0x10], 42);
}

#[test]
fn inc_wraps_at_byte_width() {
    // Load ACC, constant 255; Inc dst ACC src ACC; Hault
    let mut computer = Computer::new(image(&[0x01, 255, 0xD5, 0x1C]));
    assert_eq!(computer.run(10), Some(TerminationReason::Halted));
    assert_eq!(computer.acc(), 0);
}

#[test]
fn blt_takes_branch_on_negative_acc() {
    // Load ACC, constant 200 (negative as a signed byte); Blt 0x0008; Hault at 8
    let mut program = [0u8; 9];
    program[0] = 0x01;
    program[1] = 200;
    program[2] = 0x13;
    program[3] = 0x00;
    program[4] = 0x08;
    program[8] = 0x1C;
    let mut computer = Computer::new(image(&program));
    assert_eq!(computer.run(10), Some(TerminationReason::Halted));
    assert_eq!(computer.pc(), 9);
}

#[test]
fn brz_falls_through_on_nonzero_acc() {
    // Load ACC, constant 1; Brz 0x0000 (not taken); Hault right after the operand
    let mut computer = Computer::new(image(&[0x01, 1, 0x11, 0x00, 0x00, 0x1C]));
    assert_eq!(computer.run(10), Some(TerminationReason::Halted));
    assert_eq!(computer.pc(), 6);
}

#[test]
fn word_read_wraps_around_memory_end() {
    // Load MAR from address 0xFFFF: high byte from 0xFFFF, low byte from 0x0000
    let mut program = [0u8; 4];
    program[0] = 0x04;
    program[1] = 0xFF;
    program[2] = 0xFF;
    program[3] = 0x1C;
    let mut memory = image(&program);
    memory[0xFFFF] = 0xAB;
    let mut computer = Computer::new(memory);
    assert_eq!(computer.run(10), Some(TerminationReason::Halted));
    assert_eq!(computer.mar(), 0xAB00 + 0x04);
}

#[test]
fn store_mar_indirect_writes_big_endian() {
    // Load MAR, constant 0x1234; Store MAR indirect (to the address in MAR); Hault
    let mut computer = Computer::new(image(&[0x05, 0x12, 0x34, 0x0E, 0x1C]));
    assert_eq!(computer.run(10), Some(TerminationReason::Halted));
    assert_eq!(computer.memory()[0x1234], 0x12);
    assert_eq!(computer.memory()[0x1235], 0x34);
}

#[test]
fn add_into_memory_word_carries() {
    // Load ACC, constant 1; Add src ACC dst memory word at 0x0020; Hault.
    // The word 0x00FF plus 1 is 0x0100, stored back big-endian.
    let mut program = [0u8; 0x22];
    program[0] = 0x01;
    program[1] = 1;
    program[2] = 0xBD; // 1 011 11 01: Add, dst Memory, src Acc
    program[3] = 0x00;
    program[4] = 0x20;
    program[5] = 0x1C;
    program[0x20] = 0x00;
    program[0x21] = 0xFF;
    let mut computer = Computer::new(image(&program));
    assert_eq!(computer.run(10), Some(TerminationReason::Halted));
    assert_eq!(computer.memory()[0x20], 0x01);
    assert_eq!(computer.memory()[0x21], 0x00);
}

#[test]
fn inc_into_indirect_byte() {
    // Load MAR, constant 0x0030; Load ACC, constant 9; Inc src ACC dst indirect; Hault
    let mut computer = Computer::new(image(&[0x05, 0x00, 0x30, 0x01, 9, 0xD1, 0x1C]));
    assert_eq!(computer.run(10), Some(TerminationReason::Halted));
    assert_eq!(computer.memory()[0x30], 10);
}

#[test]
fn not_is_ones_complement() {
    // Load MAR, constant 0x00F0; Not src MAR dst MAR (1 111 10 10 = 0xFA); Hault
    let mut computer = Computer::new(image(&[0x05, 0x00, 0xF0, 0xFA, 0x1C]));
    assert_eq!(computer.run(10), Some(TerminationReason::Halted));
    assert_eq!(computer.mar(), 0xFF0F);
}

#[test]
fn store_constant_behaves_as_address() {
    // Load ACC, constant 7; Store ACC with constant method (0x09): writes to
    // the literal address that follows, as address mode does; Hault
    let mut computer = Computer::new(image(&[0x01, 7, 0x09, 0x00, 0x40, 0x1C]));
    assert_eq!(computer.run(10), Some(TerminationReason::Halted));
    assert_eq!(computer.memory()[0x40], 7);
}

#[test]
fn faulted_mid_program_reports_pc_after_opcode() {
    // Nop; Nop; illegal byte 0x1F at address 2
    let mut computer = Computer::new(image(&[0x18, 0x18, 0x1F]));
    assert_eq!(
        computer.run(10),
        Some(TerminationReason::Faulted {
            opcode: 0x1F,
            pc: 3
        })
    );
}
