//! Machine state and the execution engine.
//!
//! The machine owns a fixed 65536-byte memory and four registers: ACC (8-bit
//! accumulator), MAR (16-bit memory address register), IR (the opcode most
//! recently fetched) and PC (address of the next byte to fetch). Every 16-bit
//! value in memory or in the instruction stream is big-endian, and every
//! 16-bit address is valid, so no memory operation can fail; addresses and
//! the program counter wrap around at the end of memory.
//!
//! The behaviour of the engine is stated over a ghost mirror of the machine,
//! `CpuView`: `step_spec` is one fetch-decode-execute cycle, and `ticks`
//! iterates cycles until an outcome (halt or fault) is reached, after which
//! the state no longer changes. `Computer::run` is proved to leave the
//! machine exactly at `ticks` of its starting state.

use crate::instruction::{BranchKind, Instruction, MathFunction, MemoryMethod, Register, Target};
use crate::parser::{decode_spec, try_parse};
use vstd::prelude::*;

verus! {

/// Size of the machine's memory: one byte for every 16-bit address.
pub const MEMORY_SIZE: usize = 64 * 1024;

/// Ghost mirror of the whole machine: memory contents and register file.
#[verifier::ext_equal]
pub ghost struct CpuView {
    pub mem: Seq<u8>,
    pub acc: u8,
    pub ir: u8,
    pub mar: u16,
    pub pc: u16,
}

/// The machine as built by `Computer::new`: caller-supplied memory, all
/// registers zero.
pub open spec fn boot(mem: Seq<u8>) -> CpuView {
    CpuView { mem, acc: 0, ir: 0, mar: 0, pc: 0 }
}

/// The next 16-bit address: one past `a`, wrapping at the end of memory.
pub open spec fn wrap_inc(a: u16) -> u16 {
    if a == 0xFFFF {
        0
    } else {
        (a + 1) as u16
    }
}

/// The byte of `mem` at address `a`.
pub open spec fn rd8(mem: Seq<u8>, a: u16) -> u8 {
    mem[a as int]
}

/// The big-endian 16-bit word of `mem` at addresses `a` and `a + 1`.
pub open spec fn rd16(mem: Seq<u8>, a: u16) -> u16 {
    (rd8(mem, a) * 256 + rd8(mem, wrap_inc(a))) as u16
}

/// `mem` with the byte at address `a` replaced by `v`.
pub open spec fn wr8(mem: Seq<u8>, a: u16, v: u8) -> Seq<u8> {
    mem.update(a as int, v)
}

/// `mem` with the word `v` stored big-endian at addresses `a` and `a + 1`.
pub open spec fn wr16(mem: Seq<u8>, a: u16, v: u16) -> Seq<u8> {
    wr8(wr8(mem, a, (v / 256) as u8), wrap_inc(a), (v % 256) as u8)
}

/// `s` with the program counter set to `pc`.
pub open spec fn with_pc(s: CpuView, pc: u16) -> CpuView {
    CpuView { pc, ..s }
}

/// `s` with the accumulator set to `v`.
pub open spec fn with_acc(s: CpuView, v: u8) -> CpuView {
    CpuView { acc: v, ..s }
}

/// `s` with the memory address register set to `v`.
pub open spec fn with_mar(s: CpuView, v: u16) -> CpuView {
    CpuView { mar: v, ..s }
}

/// `s` with the memory replaced by `mem`.
pub open spec fn with_mem(s: CpuView, mem: Seq<u8>) -> CpuView {
    CpuView { mem, ..s }
}

/// `s` after consuming one byte of the instruction stream.
pub open spec fn advance1(s: CpuView) -> CpuView {
    with_pc(s, wrap_inc(s.pc))
}

/// `s` after consuming a 16-bit operand from the instruction stream.
pub open spec fn advance2(s: CpuView) -> CpuView {
    with_pc(s, wrap_inc(wrap_inc(s.pc)))
}

/// `s` after fetching the next opcode: IR holds the byte at PC and PC has
/// moved past it.
pub open spec fn fetch_ir_spec(s: CpuView) -> CpuView {
    CpuView { ir: rd8(s.mem, s.pc), pc: wrap_inc(s.pc), ..s }
}

/// Addition wrapping at 16 bits.
pub open spec fn add_wrap(a: u16, b: u16) -> u16 {
    if a + b > 0xFFFF {
        (a + b - 0x10000) as u16
    } else {
        (a + b) as u16
    }
}

/// Subtraction wrapping at 16 bits.
pub open spec fn sub_wrap(a: u16, b: u16) -> u16 {
    if a - b < 0 {
        (a - b + 0x10000) as u16
    } else {
        (a - b) as u16
    }
}

/// The low byte of a 16-bit value: what remains when a result is truncated
/// to the accumulator's width or to one memory cell.
pub open spec fn lo8(v: u16) -> u8 {
    (v % 256) as u8
}

/// The result of a `MathFunction` on the resolved source value `a` and
/// destination value `b`: bitwise for And/Or/Xor, wrapping at 16 bits for
/// Add/Sub, ones-complement for Not; Inc and Dec ignore `b` and move `a` by
/// one.
pub open spec fn math_apply(func: MathFunction, a: u16, b: u16) -> u16 {
    match func {
        MathFunction::And => a & b,
        MathFunction::Or => a | b,
        MathFunction::Xor => a ^ b,
        MathFunction::Add => add_wrap(a, b),
        MathFunction::Sub => sub_wrap(a, b),
        MathFunction::Inc => add_wrap(a, 1),
        MathFunction::Dec => sub_wrap(a, 1),
        MathFunction::Not => (0xFFFF - a) as u16,
    }
}

/// The value a `Mathematical` source operand resolves to: ACC or MAR widened
/// to 16 bits, the byte at MAR for indirect addressing, or a 16-bit word at
/// an address taken from the instruction stream.
pub open spec fn math_src_val(s: CpuView, src: Target) -> u16 {
    match src {
        Target::Indirect => rd8(s.mem, s.mar) as u16,
        Target::Acc => s.acc as u16,
        Target::Mar => s.mar,
        Target::Memory => rd16(s.mem, rd16(s.mem, s.pc)),
    }
}

/// The state after resolving a `Mathematical` source operand: only memory
/// addressing consumes instruction-stream bytes.
pub open spec fn math_src_post(s: CpuView, src: Target) -> CpuView {
    match src {
        Target::Memory => advance2(s),
        _ => s,
    }
}

/// The value a `Mathematical` destination operand resolves to, read the same
/// way as a source operand.
pub open spec fn math_dst_val(s: CpuView, dst: Target) -> u16 {
    match dst {
        Target::Indirect => rd8(s.mem, s.mar) as u16,
        Target::Acc => s.acc as u16,
        Target::Mar => s.mar,
        Target::Memory => rd16(s.mem, rd16(s.mem, s.pc)),
    }
}

/// One `Mathematical` instruction: resolve the source, then the destination
/// (in that order, since both may consume operand bytes), apply the function
/// and write the result back to the destination — a register truncated to
/// its width, the byte at MAR for indirect addressing, or a 16-bit store to
/// the fetched address for memory addressing.
pub open spec fn exec_math_spec(s: CpuView, func: MathFunction, src: Target, dst: Target) -> CpuView {
    let a = math_src_val(s, src);
    let s1 = math_src_post(s, src);
    let b = math_dst_val(s1, dst);
    match dst {
        Target::Indirect => with_mem(s1, wr8(s1.mem, s1.mar, lo8(math_apply(func, a, b)))),
        Target::Acc => with_acc(s1, lo8(math_apply(func, a, b))),
        Target::Mar => with_mar(s1, math_apply(func, a, b)),
        Target::Memory => {
            let addr = rd16(s1.mem, s1.pc);
            let s2 = advance2(s1);
            with_mem(s2, wr16(s2.mem, addr, math_apply(func, a, b)))
        },
    }
}

/// One `Load` instruction: locate the source per the addressing method and
/// copy into the register — one byte for ACC, a big-endian word for MAR;
/// constants are read from the instruction stream itself.
pub open spec fn exec_load_spec(s: CpuView, dst: Register, src: MemoryMethod) -> CpuView {
    match src {
        MemoryMethod::Address => {
            let addr = rd16(s.mem, s.pc);
            let s1 = advance2(s);
            match dst {
                Register::Acc => with_acc(s1, rd8(s1.mem, addr)),
                Register::Mar => with_mar(s1, rd16(s1.mem, addr)),
            }
        },
        MemoryMethod::Constant => match dst {
            Register::Acc => with_acc(advance1(s), rd8(s.mem, s.pc)),
            Register::Mar => with_mar(advance2(s), rd16(s.mem, s.pc)),
        },
        MemoryMethod::Indirect => match dst {
            Register::Acc => with_acc(s, rd8(s.mem, s.mar)),
            Register::Mar => with_mar(s, rd16(s.mem, s.mar)),
        },
    }
}

/// One `Store` instruction, the mirror of `Load`: write the register to the
/// located destination. A constant destination has no meaning of its own and
/// behaves as address mode; indirect mode writes to the address held in MAR.
pub open spec fn exec_store_spec(s: CpuView, src: Register, dst: MemoryMethod) -> CpuView {
    match dst {
        MemoryMethod::Address | MemoryMethod::Constant => {
            let addr = rd16(s.mem, s.pc);
            let s1 = advance2(s);
            match src {
                Register::Acc => with_mem(s1, wr8(s1.mem, addr, s1.acc)),
                Register::Mar => with_mem(s1, wr16(s1.mem, addr, s1.mar)),
            }
        },
        MemoryMethod::Indirect => match src {
            Register::Acc => with_mem(s, wr8(s.mem, s.mar, s.acc)),
            Register::Mar => with_mem(s, wr16(s.mem, s.mar, s.mar)),
        },
    }
}

/// The accumulator read as a two's-complement signed byte, the
/// interpretation used by the ordering branch kinds.
pub open spec fn signed8(v: u8) -> int {
    if v >= 0x80 {
        v - 0x100
    } else {
        v as int
    }
}

/// Whether a branch of the given kind is taken for accumulator value `acc`.
pub open spec fn branch_taken(kind: BranchKind, acc: u8) -> bool {
    match kind {
        BranchKind::Bra => true,
        BranchKind::Brz => acc == 0,
        BranchKind::Bne => acc != 0,
        BranchKind::Blt => signed8(acc) < 0,
        BranchKind::Ble => signed8(acc) <= 0,
        BranchKind::Bgt => signed8(acc) > 0,
        BranchKind::Bge => signed8(acc) >= 0,
    }
}

/// One `Branch` instruction: the 16-bit target operand is always consumed;
/// PC moves to the target only when the condition holds of ACC.
pub open spec fn exec_branch_spec(s: CpuView, kind: BranchKind) -> CpuView {
    let target = rd16(s.mem, s.pc);
    let s1 = advance2(s);
    if branch_taken(kind, s1.acc) {
        with_pc(s1, target)
    } else {
        s1
    }
}

/// The machine after executing one decoded instruction. `Nop` changes
/// nothing; `Hault` changes nothing either — it only determines the outcome.
pub open spec fn exec_instr_spec(s: CpuView, ins: Instruction) -> CpuView {
    match ins {
        Instruction::Mathematical { func, src, dst } => exec_math_spec(s, func, src, dst),
        Instruction::Load { dst, src } => exec_load_spec(s, dst, src),
        Instruction::Store { src, dst } => exec_store_spec(s, src, dst),
        Instruction::Branch(kind) => exec_branch_spec(s, kind),
        Instruction::Nop => s,
        Instruction::Hault => s,
    }
}

/// The machine after the execute phase of a cycle, `s` being the state with
/// the opcode already fetched into IR. A byte that decodes to no instruction
/// mutates nothing.
pub open spec fn execute_post(s: CpuView) -> CpuView {
    match decode_spec(s.ir) {
        Some(ins) => exec_instr_spec(s, ins),
        None => s,
    }
}

/// What the execute phase reports for the opcode in IR: `Err` on an illegal
/// byte, otherwise whether to continue or that `Hault` was reached.
pub open spec fn execute_outcome(s: CpuView) -> Result<ExecuteResult, ()> {
    match decode_spec(s.ir) {
        Some(Instruction::Hault) => Ok(ExecuteResult::Hault),
        Some(_) => Ok(ExecuteResult::Continue),
        None => Err(()),
    }
}

/// Why a run ended.
#[derive(Clone, Copy, PartialEq, Eq, Structural, Debug)]
pub enum TerminationReason {
    /// A `Hault` instruction was executed.
    Halted,
    /// A fetched byte decodes to no instruction; carries that byte and the
    /// program counter just after the byte was consumed. Fatal: nothing but
    /// the fetch itself preceded it, and the run cannot resume.
    Faulted { opcode: u8, pc: u16 },
}

/// What one execute step asks of the engine's loop.
#[derive(Clone, Copy, PartialEq, Eq, Structural, Debug)]
pub enum ExecuteResult {
    /// Keep fetching.
    Continue,
    /// A `Hault` instruction was executed; stop.
    Hault,
}

/// A point of a run: the machine together with the outcome reached so far
/// (`None` while the machine is still running).
#[verifier::ext_equal]
pub ghost struct RunState {
    pub cpu: CpuView,
    pub outcome: Option<TerminationReason>,
}

/// A run that starts at machine state `s`: no outcome yet.
pub open spec fn running(s: CpuView) -> RunState {
    RunState { cpu: s, outcome: None }
}

/// The outcome of one cycle, `s1` being the state after the fetch phase:
/// a fault for an illegal opcode (carrying the byte and the already-advanced
/// PC), a halt for `Hault`, and none for every other instruction.
pub open spec fn step_outcome(s1: CpuView) -> Option<TerminationReason> {
    match decode_spec(s1.ir) {
        Some(Instruction::Hault) => Some(TerminationReason::Halted),
        Some(_) => None,
        None => Some(TerminationReason::Faulted { opcode: s1.ir, pc: s1.pc }),
    }
}

/// One full fetch-decode-execute cycle from machine state `s`.
pub open spec fn step_spec(s: CpuView) -> RunState {
    RunState {
        cpu: execute_post(fetch_ir_spec(s)),
        outcome: step_outcome(fetch_ir_spec(s)),
    }
}

/// One cycle of a run: a machine that has already halted or faulted stays
/// exactly as it is.
pub open spec fn tick(m: RunState) -> RunState {
    if m.outcome is None {
        step_spec(m.cpu)
    } else {
        m
    }
}

/// `n` cycles of a run.
pub open spec fn ticks(m: RunState, n: nat) -> RunState
    decreases n,
{
    if n == 0 {
        m
    } else {
        tick(ticks(m, (n - 1) as nat))
    }
}

/// Cycles compose: `a + b` cycles from `m` reach the same point as `a`
/// cycles followed by another `b`.
pub proof fn lemma_ticks_compose(m: RunState, a: nat, b: nat)
    ensures
        ticks(m, a + b) == ticks(ticks(m, a), b),
    decreases b,
{
    if b > 0 {
        lemma_ticks_compose(m, a, (b - 1) as nat);
    }
}

/// A run cut short is resumable: when `a` cycles from `s` reach no outcome
/// yet, starting a fresh run from the machine state reached and giving it
/// `b` more cycles lands exactly where one run of `a + b` cycles would.
pub proof fn lemma_run_resumable(s: CpuView, a: nat, b: nat)
    requires
        ticks(running(s), a).outcome is None,
    ensures
        ticks(running(ticks(running(s), a).cpu), b) == ticks(running(s), a + b),
{
    lemma_ticks_compose(running(s), a, b);
    assert(running(ticks(running(s), a).cpu) =~= ticks(running(s), a));
}

/// Once a run has an outcome it never changes again: every later point of
/// the run is the same machine state and the same outcome.
pub proof fn lemma_ticks_stable(m: RunState, i: nat, j: nat)
    requires
        i <= j,
        ticks(m, i).outcome is Some,
    ensures
        ticks(m, j) == ticks(m, i),
    decreases j,
{
    if j > i {
        lemma_ticks_stable(m, i, (j - 1) as nat);
    }
}

/// The machine: a 65536-byte memory exclusively owned by the engine, and the
/// register file. Its ghost view is a `CpuView` over the same contents.
pub struct Computer {
    memory: [u8; MEMORY_SIZE],
    acc: u8,
    ir: u8,
    mar: u16,
    pc: u16,
}

impl View for Computer {
    type V = CpuView;

    closed spec fn view(&self) -> CpuView {
        CpuView {
            mem: self.memory@,
            acc: self.acc,
            ir: self.ir,
            mar: self.mar,
            pc: self.pc,
        }
    }
}

impl Computer {
    /// Builds a machine over the given memory image with all registers zero;
    /// execution will begin at address 0.
    pub fn new(memory: [u8; MEMORY_SIZE]) -> (c: Computer)
        ensures
            c@ == boot(memory@),
    {
        Computer { memory, acc: 0, ir: 0, mar: 0, pc: 0 }
    }

    /// The full current memory contents, for inspection after a run.
    pub fn memory(&self) -> (r: &[u8])
        ensures
            r@ == self@.mem,
    {
        self.memory.as_slice()
    }

    /// The accumulator register.
    pub fn acc(&self) -> (r: u8)
        ensures
            r == self@.acc,
    {
        self.acc
    }

    /// The memory address register.
    pub fn mar(&self) -> (r: u16)
        ensures
            r == self@.mar,
    {
        self.mar
    }

    /// The instruction register: the opcode most recently fetched.
    pub fn ir(&self) -> (r: u8)
        ensures
            r == self@.ir,
    {
        self.ir
    }

    /// The program counter: the address of the next byte to fetch.
    pub fn pc(&self) -> (r: u16)
        ensures
            r == self@.pc,
    {
        self.pc
    }

    /// Loads the next instruction into IR and advances PC.
    fn fetch_instruction(&mut self)
        ensures
            final(self)@ == fetch_ir_spec(old(self)@),
    {
        let op = self.fetch_8_pc();
        self.ir = op;
    }

    /// Reads the byte PC points at and advances PC past it.
    fn fetch_8_pc(&mut self) -> (r: u8)
        ensures
            r == rd8(old(self)@.mem, old(self)@.pc),
            final(self)@ == advance1(old(self)@),
    {
        let a = self.memory[self.pc as usize];
        self.pc = if self.pc == 0xFFFF {
            0
        } else {
            self.pc + 1
        };
        a
    }

    /// Reads the next two instruction-stream bytes as a big-endian word,
    /// advancing PC by 2.
    fn fetch_16_pc(&mut self) -> (r: u16)
        ensures
            r == rd16(old(self)@.mem, old(self)@.pc),
            final(self)@ == advance2(old(self)@),
    {
        let hi = self.fetch_8_pc();
        let lo = self.fetch_8_pc();
        (hi as u16) * 256 + (lo as u16)
    }

    /// Reads the byte at `addr`.
    fn fetch_8(&self, addr: u16) -> (r: u8)
        ensures
            r == rd8(self@.mem, addr),
    {
        self.memory[addr as usize]
    }

    /// Reads the big-endian word at `addr` and the following address.
    fn fetch_16(&self, addr: u16) -> (r: u16)
        ensures
            r == rd16(self@.mem, addr),
    {
        let hi = self.memory[addr as usize];
        let next = if addr == 0xFFFF {
            0
        } else {
            addr + 1
        };
        let lo = self.memory[next as usize];
        (hi as u16) * 256 + (lo as u16)
    }

    /// Stores the byte `value` at `addr`.
    fn store_8(&mut self, addr: u16, value: u8)
        ensures
            final(self)@ == with_mem(old(self)@, wr8(old(self)@.mem, addr, value)),
    {
        self.memory[addr as usize] = value;
    }

    /// Stores the word `value` big-endian at `addr` and the following
    /// address.
    fn store_16(&mut self, addr: u16, value: u16)
        ensures
            final(self)@ == with_mem(old(self)@, wr16(old(self)@.mem, addr, value)),
    {
        self.memory[addr as usize] = (value / 256) as u8;
        let next = if addr == 0xFFFF {
            0
        } else {
            addr + 1
        };
        self.memory[next as usize] = (value % 256) as u8;
    }

    /// Executes one `Mathematical` instruction.
    fn exec_math(&mut self, func: MathFunction, src: Target, dst: Target)
        ensures
            final(self)@ == exec_math_spec(old(self)@, func, src, dst),
    {
        let a: u16 = match src {
            Target::Indirect => self.fetch_8(self.mar) as u16,
            Target::Acc => self.acc as u16,
            Target::Mar => self.mar,
            Target::Memory => {
                let addr = self.fetch_16_pc();
                self.fetch_16(addr)
            },
        };
        let (b, writeback): (u16, Option<u16>) = match dst {
            Target::Indirect => (self.fetch_8(self.mar) as u16, Some(self.mar)),
            Target::Acc => (self.acc as u16, None),
            Target::Mar => (self.mar, None),
            Target::Memory => {
                let addr = self.fetch_16_pc();
                (self.fetch_16(addr), Some(addr))
            },
        };
        let r: u16 = match func {
            MathFunction::And => a & b,
            MathFunction::Or => a | b,
            MathFunction::Xor => a ^ b,
            MathFunction::Add => a.wrapping_add(b),
            MathFunction::Sub => a.wrapping_sub(b),
            MathFunction::Inc => a.wrapping_add(1),
            MathFunction::Dec => a.wrapping_sub(1),
            MathFunction::Not => 0xFFFF - a,
        };
        match dst {
            Target::Indirect => {
                let m = self.mar;
                self.store_8(m, (r % 256) as u8);
            },
            Target::Acc => {
                self.acc = (r % 256) as u8;
            },
            Target::Mar => {
                self.mar = r;
            },
            Target::Memory => {
                match writeback {
                    Some(addr) => self.store_16(addr, r),
                    None => {},
                }
            },
        }
    }

    /// Executes one `Load` instruction.
    fn exec_load(&mut self, dst: Register, src: MemoryMethod)
        ensures
            final(self)@ == exec_load_spec(old(self)@, dst, src),
    {
        match src {
            MemoryMethod::Address => {
                let addr = self.fetch_16_pc();
                match dst {
                    Register::Acc => {
                        let v = self.fetch_8(addr);
                        self.acc = v;
                    },
                    Register::Mar => {
                        let v = self.fetch_16(addr);
                        self.mar = v;
                    },
                }
            },
            MemoryMethod::Constant => {
                match dst {
                    Register::Acc => {
                        let v = self.fetch_8_pc();
                        self.acc = v;
                    },
                    Register::Mar => {
                        let v = self.fetch_16_pc();
                        self.mar = v;
                    },
                }
            },
            MemoryMethod::Indirect => {
                match dst {
                    Register::Acc => {
                        let v = self.fetch_8(self.mar);
                        self.acc = v;
                    },
                    Register::Mar => {
                        let v = self.fetch_16(self.mar);
                        self.mar = v;
                    },
                }
            },
        }
    }

    /// Executes one `Store` instruction.
    fn exec_store(&mut self, src: Register, dst: MemoryMethod)
        ensures
            final(self)@ == exec_store_spec(old(self)@, src, dst),
    {
        match dst {
            MemoryMethod::Address | MemoryMethod::Constant => {
                let addr = self.fetch_16_pc();
                match src {
                    Register::Acc => {
                        let v = self.acc;
                        self.store_8(addr, v);
                    },
                    Register::Mar => {
                        let v = self.mar;
                        self.store_16(addr, v);
                    },
                }
            },
            MemoryMethod::Indirect => {
                match src {
                    Register::Acc => {
                        let m = self.mar;
                        let v = self.acc;
                        self.store_8(m, v);
                    },
                    Register::Mar => {
                        let m = self.mar;
                        self.store_16(m, m);
                    },
                }
            },
        }
    }

    /// Executes one `Branch` instruction.
    fn exec_branch(&mut self, kind: BranchKind)
        ensures
            final(self)@ == exec_branch_spec(old(self)@, kind),
    {
        let target = self.fetch_16_pc();
        let taken: bool = match kind {
            BranchKind::Bra => true,
            BranchKind::Brz => self.acc == 0,
            BranchKind::Bne => self.acc != 0,
            BranchKind::Blt => self.acc >= 0x80,
            BranchKind::Ble => self.acc == 0 || self.acc >= 0x80,
            BranchKind::Bgt => self.acc != 0 && self.acc < 0x80,
            BranchKind::Bge => self.acc < 0x80,
        };
        if taken {
            self.pc = target;
        }
    }

    /// Decodes the opcode in IR and executes the instruction: `Err` on an
    /// illegal byte (no state changes), otherwise `Ok` saying whether to
    /// keep fetching or that `Hault` was reached.
    fn execute_instruction(&mut self) -> (r: Result<ExecuteResult, ()>)
        ensures
            final(self)@ == execute_post(old(self)@),
            r == execute_outcome(old(self)@),
    {
        match try_parse(self.ir) {
            None => Err(()),
            Some(ins) => {
                match ins {
                    Instruction::Mathematical { func, src, dst } => {
                        self.exec_math(func, src, dst);
                        Ok(ExecuteResult::Continue)
                    },
                    Instruction::Load { dst, src } => {
                        self.exec_load(dst, src);
                        Ok(ExecuteResult::Continue)
                    },
                    Instruction::Store { src, dst } => {
                        self.exec_store(src, dst);
                        Ok(ExecuteResult::Continue)
                    },
                    Instruction::Branch(kind) => {
                        self.exec_branch(kind);
                        Ok(ExecuteResult::Continue)
                    },
                    Instruction::Nop => Ok(ExecuteResult::Continue),
                    Instruction::Hault => Ok(ExecuteResult::Hault),
                }
            },
        }
    }

    /// Runs fetch-decode-execute cycles, starting wherever PC points, until
    /// a `Hault` instruction halts the machine, an illegal opcode faults it,
    /// or `max_cycles` cycles have been executed. Arbitrary programs may
    /// loop forever, so the caller bounds the run; `None` means the machine
    /// is still running after `max_cycles` cycles and may be resumed by
    /// calling `run` again. The machine ends exactly at `ticks` of its
    /// starting state, and the returned outcome is the outcome of that run.
    #[verifier::loop_isolation(false)]
    pub fn run(&mut self, max_cycles: u64) -> (r: Option<TerminationReason>)
        ensures
            final(self)@ == ticks(running(old(self)@), max_cycles as nat).cpu,
            r == ticks(running(old(self)@), max_cycles as nat).outcome,
    {
        let ghost rs0 = running(old(self)@);
        let mut i: u64 = 0;
        while i < max_cycles
            invariant
                i <= max_cycles,
                ticks(rs0, i as nat) == running(self@),
            decreases max_cycles - i,
        {
            self.fetch_instruction();
            let res = self.execute_instruction();
            i = i + 1;
            match res {
                Ok(ExecuteResult::Continue) => {},
                Ok(ExecuteResult::Hault) => {
                    proof {
                        lemma_ticks_stable(rs0, i as nat, max_cycles as nat);
                    }
                    return Some(TerminationReason::Halted);
                },
                Err(()) => {
                    proof {
                        lemma_ticks_stable(rs0, i as nat, max_cycles as nat);
                    }
                    return Some(TerminationReason::Faulted { opcode: self.ir, pc: self.pc });
                },
            }
        }
        None
    }
}

} // verus!
