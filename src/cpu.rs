use vstd::prelude::*;

use crate::cpu_bus::{bus_read, bus_write, BusView, CpuBus, OAM_DMA_CYCLES};
use crate::opcodes::{decode, get_instruction_info, Addressing, Instruction};
use crate::status::{pack, unpack, Status};

verus! {

pub const NMI_VECTOR: u16 = 0xFFFA;

pub const RESET_VECTOR: u16 = 0xFFFC;

pub const IRQ_VECTOR: u16 = 0xFFFE;

/// Cycles that taking an interrupt costs.
pub const INTERRUPT_CYCLES: u32 = 7;

/// Stack pointer after reset.
pub const RESET_SP: u8 = 0xFD;

/// Status byte after reset: interrupts disabled, reserved bit set.
pub const RESET_STATUS: u8 = 0x24;

/// The CPU registers. The stack lives in page 1: the stack pointer is the low
/// byte of the address `0x0100 | sp`.
#[derive(Clone, Copy, Debug, PartialEq, Eq, Structural)]
pub struct Registers {
    pub a: u8,
    pub x: u8,
    pub y: u8,
    pub sp: u8,
    pub pc: u16,
    pub p: Status,
}

/// The whole state of the CPU and what it sees through its bus.
pub ghost struct CpuView {
    pub regs: Registers,
    pub bus: BusView,
    /// An NMI waits to be taken at the next instruction boundary.
    pub nmi: bool,
    /// An IRQ waits to be taken at the next instruction boundary.
    pub irq: bool,
}

pub open spec fn wrap8(x: int) -> u8 {
    (x % 0x100) as u8
}

pub open spec fn wrap16(x: int) -> u16 {
    (x % 0x10000) as u16
}

/// The address of stack slot `sp`: always in page 1.
pub open spec fn stack_addr(sp: u8) -> u16 {
    (0x0100 + sp as int) as u16
}

pub open spec fn with_regs(s: CpuView, regs: Registers) -> CpuView {
    CpuView { regs, ..s }
}

pub open spec fn cpu_read(s: CpuView, addr: u16) -> (CpuView, u8) {
    let (b, v) = bus_read(s.bus, addr);
    (CpuView { bus: b, ..s }, v)
}

pub open spec fn cpu_write(s: CpuView, addr: u16, v: u8) -> CpuView {
    CpuView { bus: bus_write(s.bus, addr, v), ..s }
}

/// Writes `v` at the stack slot, then moves the stack pointer down.
pub open spec fn push(s: CpuView, v: u8) -> CpuView {
    let t = cpu_write(s, stack_addr(s.regs.sp), v);
    with_regs(t, Registers { sp: wrap8(s.regs.sp + 0xFF), ..t.regs })
}

/// Moves the stack pointer up, then reads the stack slot.
pub open spec fn pop(s: CpuView) -> (CpuView, u8) {
    let sp = wrap8(s.regs.sp + 1);
    cpu_read(with_regs(s, Registers { sp, ..s.regs }), stack_addr(sp))
}

/// Reads the byte at PC and moves PC on.
pub open spec fn fetch(s: CpuView) -> (CpuView, u8) {
    let (t, v) = cpu_read(s, s.regs.pc);
    (with_regs(t, Registers { pc: wrap16(s.regs.pc + 1), ..t.regs }), v)
}

pub open spec fn word(lo: u8, hi: u8) -> u16 {
    (hi as int * 0x100 + lo as int) as u16
}

/// Reads a little-endian word at PC and moves PC past it.
pub open spec fn fetch_word(s: CpuView) -> (CpuView, u16) {
    let (s1, lo) = fetch(s);
    let (s2, hi) = fetch(s1);
    (s2, word(lo, hi))
}

/// Two byte reads, little-endian.
pub open spec fn read_word(s: CpuView, addr: u16) -> (CpuView, u16) {
    let (s1, lo) = cpu_read(s, addr);
    let (s2, hi) = cpu_read(s1, wrap16(addr + 1));
    (s2, word(lo, hi))
}

/// The address after `addr` within its page: the high byte of an indirect
/// jump vector comes from there.
pub open spec fn same_page_next(addr: u16) -> u16 {
    (addr as int - addr as int % 0x100 + (addr as int % 0x100 + 1) % 0x100) as u16
}

/// A word whose high byte is read without leaving the page of its low byte.
pub open spec fn read_word_wrap(s: CpuView, addr: u16) -> (CpuView, u16) {
    let (s1, lo) = cpu_read(s, addr);
    let (s2, hi) = cpu_read(s1, same_page_next(addr));
    (s2, word(lo, hi))
}

/// A word read from the zero page, wrapping within it.
pub open spec fn read_word_zp(s: CpuView, zp: u8) -> (CpuView, u16) {
    let (s1, lo) = cpu_read(s, zp as u16);
    let (s2, hi) = cpu_read(s1, wrap8(zp + 1) as u16);
    (s2, word(lo, hi))
}

pub open spec fn sign_extend(b: u8) -> int {
    if b < 0x80 {
        b as int
    } else {
        b as int - 0x100
    }
}

/// The operand that an addressing mode computes, reading at PC: the effective
/// address, or the value itself for immediate mode.
#[verifier::opaque]
pub open spec fn operand(s: CpuView, mode: Addressing) -> (CpuView, u16) {
    match mode {
        Addressing::Accumlator | Addressing::Implied => (s, 0),
        Addressing::Immediate | Addressing::ZeroPage => {
            let (t, v) = fetch(s);
            (t, v as u16)
        },
        Addressing::ZeroPageX => {
            let (t, v) = fetch(s);
            (t, wrap8(v + s.regs.x) as u16)
        },
        Addressing::ZeroPageY => {
            let (t, v) = fetch(s);
            (t, wrap8(v + s.regs.y) as u16)
        },
        Addressing::Absolute => fetch_word(s),
        Addressing::AbsoluteX => {
            let (t, a) = fetch_word(s);
            (t, wrap16(a + s.regs.x))
        },
        Addressing::AbsoluteY => {
            let (t, a) = fetch_word(s);
            (t, wrap16(a + s.regs.y))
        },
        Addressing::Relative => {
            let (t, v) = fetch(s);
            (t, wrap16(t.regs.pc + sign_extend(v) + 0x10000))
        },
        Addressing::Indirect => {
            let (t, a) = fetch_word(s);
            read_word_wrap(t, a)
        },
        Addressing::IndirectX => {
            let (t, v) = fetch(s);
            read_word_zp(t, wrap8(v + s.regs.x))
        },
        Addressing::IndirectY => {
            let (t, v) = fetch(s);
            let (u, a) = read_word_zp(t, v);
            (u, wrap16(a + s.regs.y))
        },
    }
}

/// The value an instruction works on: the operand itself in immediate mode,
/// else the byte at the effective address.
pub open spec fn load(s: CpuView, mode: Addressing, ea: u16) -> (CpuView, u8) {
    if mode == Addressing::Immediate {
        (s, wrap8(ea as int))
    } else {
        cpu_read(s, ea)
    }
}

/// N and Z after a result `v`.
pub open spec fn set_nz(p: Status, v: u8) -> Status {
    Status { zero: v == 0, negative: v & 0x80 != 0, ..p }
}

/// `A + M + C`: the result byte, the carry out, and the signed overflow.
pub open spec fn adc(a: u8, m: u8, c: bool) -> (u8, bool, bool) {
    let sum = a as int + m as int + if c {
        1int
    } else {
        0int
    };
    let r = wrap8(sum);
    (r, sum > 0xFF, (!(a ^ m) & (a ^ r)) & 0x80 != 0)
}

/// Flags after comparing register `reg` with `m`.
pub open spec fn compare(p: Status, reg: u8, m: u8) -> Status {
    Status { carry: reg >= m, zero: reg == m, negative: wrap8(reg - m + 0x100) & 0x80 != 0, ..p }
}

/// The register an instruction reads or writes.
#[derive(Clone, Copy, Debug, PartialEq, Eq, Structural)]
pub enum RegTarget {
    A,
    X,
    Y,
}

#[derive(Clone, Copy, Debug, PartialEq, Eq, Structural)]
pub enum LogicOp {
    And,
    Or,
    Xor,
}

#[derive(Clone, Copy, Debug, PartialEq, Eq, Structural)]
pub enum ShiftOp {
    Asl,
    Lsr,
    Rol,
    Ror,
}

pub open spec fn reg_value(r: Registers, t: RegTarget) -> u8 {
    match t {
        RegTarget::A => r.a,
        RegTarget::X => r.x,
        RegTarget::Y => r.y,
    }
}

/// Sets a register, with N and Z from the new value.
pub open spec fn set_reg_nz(s: CpuView, t: RegTarget, v: u8) -> CpuView {
    let r = s.regs;
    let p = set_nz(r.p, v);
    match t {
        RegTarget::A => with_regs(s, Registers { a: v, p, ..r }),
        RegTarget::X => with_regs(s, Registers { x: v, p, ..r }),
        RegTarget::Y => with_regs(s, Registers { y: v, p, ..r }),
    }
}

pub open spec fn with_status(s: CpuView, p: Status) -> CpuView {
    with_regs(s, Registers { p, ..s.regs })
}

/// ADC, or SBC as the ADC of the operand's complement.
#[verifier::opaque]
pub open spec fn arith(s: CpuView, mode: Addressing, ea: u16, subtract: bool) -> CpuView {
    let (t, m0) = load(s, mode, ea);
    let m = if subtract {
        m0 ^ 0xFF
    } else {
        m0
    };
    let (v, c, o) = adc(s.regs.a, m, s.regs.p.carry);
    let u = set_reg_nz(t, RegTarget::A, v);
    with_status(u, Status { carry: c, overflow: o, ..u.regs.p })
}

pub open spec fn logic_value(op: LogicOp, a: u8, m: u8) -> u8 {
    match op {
        LogicOp::And => a & m,
        LogicOp::Or => a | m,
        LogicOp::Xor => a ^ m,
    }
}

#[verifier::opaque]
pub open spec fn logic(s: CpuView, mode: Addressing, ea: u16, op: LogicOp) -> CpuView {
    let (t, m) = load(s, mode, ea);
    set_reg_nz(t, RegTarget::A, logic_value(op, s.regs.a, m))
}

/// A shift or rotate of `v` with carry in `c`.
pub open spec fn shift_result(op: ShiftOp, v: u8, c: bool) -> u8 {
    let cin = if c {
        1int
    } else {
        0int
    };
    match op {
        ShiftOp::Asl => wrap8(v * 2),
        ShiftOp::Lsr => (v / 2) as u8,
        ShiftOp::Rol => wrap8(v * 2 + cin),
        ShiftOp::Ror => (v / 2 + cin * 0x80) as u8,
    }
}

/// The bit shifted out into the carry.
pub open spec fn shift_carry(op: ShiftOp, v: u8) -> bool {
    match op {
        ShiftOp::Asl | ShiftOp::Rol => v >= 0x80,
        ShiftOp::Lsr | ShiftOp::Ror => v % 2 == 1,
    }
}

#[verifier::opaque]
pub open spec fn shift_accumulator(s: CpuView, op: ShiftOp) -> CpuView {
    let v = shift_result(op, s.regs.a, s.regs.p.carry);
    let u = set_reg_nz(s, RegTarget::A, v);
    with_status(u, Status { carry: shift_carry(op, s.regs.a), ..u.regs.p })
}

#[verifier::opaque]
pub open spec fn shift_memory(s: CpuView, ea: u16, op: ShiftOp) -> CpuView {
    let (t, m) = cpu_read(s, ea);
    let v = shift_result(op, m, s.regs.p.carry);
    with_status(cpu_write(t, ea, v), Status { carry: shift_carry(op, m), ..set_nz(s.regs.p, v) })
}

/// A shift or rotate of A (accumulator mode) or of the byte at `ea`.
pub open spec fn shift_op(s: CpuView, mode: Addressing, ea: u16, op: ShiftOp) -> CpuView {
    if mode == Addressing::Accumlator {
        shift_accumulator(s, op)
    } else {
        shift_memory(s, ea, op)
    }
}

pub open spec fn branch(s: CpuView, taken: bool, target: u16) -> CpuView {
    if taken {
        with_regs(s, Registers { pc: target, ..s.regs })
    } else {
        s
    }
}

#[verifier::opaque]
pub open spec fn bit_test(s: CpuView, ea: u16) -> CpuView {
    let (t, m) = cpu_read(s, ea);
    with_status(
        t,
        Status { zero: s.regs.a & m == 0, negative: m & 0x80 != 0, overflow: m & 0x40 != 0, ..s.regs.p },
    )
}

/// Pushes PC - 1, high byte first, and jumps.
#[verifier::opaque]
pub open spec fn jsr(s: CpuView, target: u16) -> CpuView {
    let ret = wrap16(s.regs.pc + 0xFFFF);
    let s1 = push(s, (ret / 0x100) as u8);
    let s2 = push(s1, (ret % 0x100) as u8);
    with_regs(s2, Registers { pc: target, ..s2.regs })
}

/// Pulls the return address, low byte first, and resumes after it.
#[verifier::opaque]
pub open spec fn rts(s: CpuView) -> CpuView {
    let (s1, lo) = pop(s);
    let (s2, hi) = pop(s1);
    with_regs(s2, Registers { pc: wrap16(word(lo, hi) + 1), ..s2.regs })
}

#[verifier::opaque]
pub open spec fn rti(s: CpuView) -> CpuView {
    let (s1, v) = pop(s);
    let (s2, lo) = pop(s1);
    let (s3, hi) = pop(s2);
    with_regs(s3, Registers { p: pulled_status(s.regs.p, v), pc: word(lo, hi), ..s3.regs })
}

#[verifier::opaque]
pub open spec fn brk(s: CpuView) -> CpuView {
    interrupt(with_regs(s, Registers { pc: wrap16(s.regs.pc + 1), ..s.regs }), IRQ_VECTOR, true)
}

#[verifier::opaque]
pub open spec fn compare_op(s: CpuView, mode: Addressing, ea: u16, t: RegTarget) -> CpuView {
    let (u, m) = load(s, mode, ea);
    with_status(u, compare(s.regs.p, reg_value(s.regs, t), m))
}

/// INC or DEC of the byte at `ea`.
#[verifier::opaque]
pub open spec fn step_memory(s: CpuView, ea: u16, inc: bool) -> CpuView {
    let (t, m) = cpu_read(s, ea);
    let v = if inc {
        wrap8(m + 1)
    } else {
        wrap8(m + 0xFF)
    };
    with_status(cpu_write(t, ea, v), set_nz(s.regs.p, v))
}

/// INX, DEX, INY or DEY.
#[verifier::opaque]
pub open spec fn step_register(s: CpuView, t: RegTarget, inc: bool) -> CpuView {
    let m = reg_value(s.regs, t);
    set_reg_nz(
        s,
        t,
        if inc {
            wrap8(m + 1)
        } else {
            wrap8(m + 0xFF)
        },
    )
}

#[verifier::opaque]
pub open spec fn load_reg(s: CpuView, mode: Addressing, ea: u16, t: RegTarget) -> CpuView {
    let (u, m) = load(s, mode, ea);
    set_reg_nz(u, t, m)
}

#[verifier::opaque]
pub open spec fn pull_a(s: CpuView) -> CpuView {
    let (t, v) = pop(s);
    set_reg_nz(t, RegTarget::A, v)
}

#[verifier::opaque]
pub open spec fn pull_status(s: CpuView) -> CpuView {
    let (t, v) = pop(s);
    with_status(t, pulled_status(s.regs.p, v))
}

/// The status byte that is pushed: B set for BRK and PHP, clear for NMI and IRQ.
pub open spec fn pushed_status(p: Status, brk: bool) -> u8 {
    pack(Status { break_mode: brk, ..p })
}

/// The status after pulling byte `v`: B keeps its value and the reserved bit is 1.
pub open spec fn pulled_status(p: Status, v: u8) -> Status {
    Status { break_mode: p.break_mode, ..unpack(v) }
}

/// Pushes PC and the status, disables interrupts and jumps through `vector`.
#[verifier::opaque]
pub open spec fn interrupt(s: CpuView, vector: u16, brk: bool) -> CpuView {
    let pc = s.regs.pc;
    let s1 = push(s, (pc / 0x100) as u8);
    let s2 = push(s1, (pc % 0x100) as u8);
    let s3 = push(s2, pushed_status(s.regs.p, brk));
    let s4 = with_status(s3, Status { interrupt: true, ..s3.regs.p });
    let (s5, target) = read_word(s4, vector);
    with_regs(s5, Registers { pc: target, ..s5.regs })
}

pub open spec fn branch_taken(p: Status, ins: Instruction) -> bool {
    match ins {
        Instruction::BCC => !p.carry,
        Instruction::BCS => p.carry,
        Instruction::BEQ => p.zero,
        Instruction::BNE => !p.zero,
        Instruction::BVC => !p.overflow,
        Instruction::BVS => p.overflow,
        Instruction::BPL => !p.negative,
        Instruction::BMI => p.negative,
        _ => false,
    }
}

/// Extra cycles of a branch: one when taken, one more when it lands on another page.
pub open spec fn branch_extra(s: CpuView, ins: Instruction, target: u16) -> u32 {
    if branch_taken(s.regs.p, ins) {
        if target / 0x100 != s.regs.pc / 0x100 {
            2
        } else {
            1
        }
    } else {
        0
    }
}

#[verifier::opaque]
pub open spec fn store(s: CpuView, ea: u16, t: RegTarget) -> CpuView {
    cpu_write(s, ea, reg_value(s.regs, t))
}

/// TAX, TXA, TAY, TYA and TSX: copies `v` into a register.
#[verifier::opaque]
pub open spec fn transfer(s: CpuView, t: RegTarget, v: u8) -> CpuView {
    set_reg_nz(s, t, v)
}

#[verifier::opaque]
pub open spec fn txs(s: CpuView) -> CpuView {
    with_regs(s, Registers { sp: s.regs.x, ..s.regs })
}

#[verifier::opaque]
pub open spec fn push_a(s: CpuView) -> CpuView {
    push(s, s.regs.a)
}

/// PHP: pushes the status with B set.
#[verifier::opaque]
pub open spec fn php(s: CpuView) -> CpuView {
    push(s, pushed_status(s.regs.p, true))
}

/// What an instruction does, once its operand `ea` is known and PC is past it.
#[verifier::opaque]
pub open spec fn execute(s: CpuView, ins: Instruction, mode: Addressing, ea: u16) -> CpuView {
    let r = s.regs;
    let p = r.p;
    match ins {
        Instruction::ADC => arith(s, mode, ea, false),
        Instruction::SBC => arith(s, mode, ea, true),
        Instruction::AND => logic(s, mode, ea, LogicOp::And),
        Instruction::ORA => logic(s, mode, ea, LogicOp::Or),
        Instruction::EOR => logic(s, mode, ea, LogicOp::Xor),
        Instruction::ASL => shift_op(s, mode, ea, ShiftOp::Asl),
        Instruction::LSR => shift_op(s, mode, ea, ShiftOp::Lsr),
        Instruction::ROL => shift_op(s, mode, ea, ShiftOp::Rol),
        Instruction::ROR => shift_op(s, mode, ea, ShiftOp::Ror),
        Instruction::BCC => branch(s, !p.carry, ea),
        Instruction::BCS => branch(s, p.carry, ea),
        Instruction::BEQ => branch(s, p.zero, ea),
        Instruction::BNE => branch(s, !p.zero, ea),
        Instruction::BVC => branch(s, !p.overflow, ea),
        Instruction::BVS => branch(s, p.overflow, ea),
        Instruction::BPL => branch(s, !p.negative, ea),
        Instruction::BMI => branch(s, p.negative, ea),
        Instruction::BIT => bit_test(s, ea),
        Instruction::JMP => branch(s, true, ea),
        Instruction::JSR => jsr(s, ea),
        Instruction::RTS => rts(s),
        Instruction::BRK => brk(s),
        Instruction::RTI => rti(s),
        Instruction::CMP => compare_op(s, mode, ea, RegTarget::A),
        Instruction::CPX => compare_op(s, mode, ea, RegTarget::X),
        Instruction::CPY => compare_op(s, mode, ea, RegTarget::Y),
        Instruction::INC => step_memory(s, ea, true),
        Instruction::DEC => step_memory(s, ea, false),
        Instruction::INX => step_register(s, RegTarget::X, true),
        Instruction::DEX => step_register(s, RegTarget::X, false),
        Instruction::INY => step_register(s, RegTarget::Y, true),
        Instruction::DEY => step_register(s, RegTarget::Y, false),
        Instruction::CLC => with_status(s, Status { carry: false, ..p }),
        Instruction::SEC => with_status(s, Status { carry: true, ..p }),
        Instruction::CLI => with_status(s, Status { interrupt: false, ..p }),
        Instruction::SEI => with_status(s, Status { interrupt: true, ..p }),
        Instruction::CLD => with_status(s, Status { decimal: false, ..p }),
        Instruction::SED => with_status(s, Status { decimal: true, ..p }),
        Instruction::CLV => with_status(s, Status { overflow: false, ..p }),
        Instruction::LDA => load_reg(s, mode, ea, RegTarget::A),
        Instruction::LDX => load_reg(s, mode, ea, RegTarget::X),
        Instruction::LDY => load_reg(s, mode, ea, RegTarget::Y),
        Instruction::STA => store(s, ea, RegTarget::A),
        Instruction::STX => store(s, ea, RegTarget::X),
        Instruction::STY => store(s, ea, RegTarget::Y),
        Instruction::TAX => transfer(s, RegTarget::X, r.a),
        Instruction::TXA => transfer(s, RegTarget::A, r.x),
        Instruction::TAY => transfer(s, RegTarget::Y, r.a),
        Instruction::TYA => transfer(s, RegTarget::A, r.y),
        Instruction::TSX => transfer(s, RegTarget::X, r.sp),
        Instruction::TXS => txs(s),
        Instruction::PHA => push_a(s),
        Instruction::PLA => pull_a(s),
        Instruction::PHP => php(s),
        Instruction::PLP => pull_status(s),
        Instruction::NOP => s,
    }
}

/// Takes an OAM DMA stall that the last bus write left owed.
pub open spec fn settle_dma(s: CpuView, cycles: u32) -> (CpuView, u32) {
    if s.bus.dma_pending {
        (CpuView { bus: BusView { dma_pending: false, ..s.bus }, ..s }, (cycles + OAM_DMA_CYCLES) as u32)
    } else {
        (s, cycles)
    }
}

/// Instructions that only read their operand. Their indexed forms take a cycle
/// more when the index carries the address into another page.
pub open spec fn reads_operand(ins: Instruction) -> bool {
    match ins {
        Instruction::ADC | Instruction::SBC | Instruction::AND | Instruction::ORA | Instruction::EOR
        | Instruction::CMP | Instruction::LDA | Instruction::LDX | Instruction::LDY => true,
        _ => false,
    }
}

/// `ea` was reached by adding `index` to an address on another page.
pub open spec fn crosses_page(ea: u16, index: u8) -> bool {
    ((ea as int - index as int + 0x10000) % 0x10000) / 0x100 != ea as int / 0x100
}

/// The cycle that an indexed read pays for crossing a page.
pub open spec fn page_extra(s: CpuView, ins: Instruction, mode: Addressing, ea: u16) -> u32 {
    let crossed = match mode {
        Addressing::AbsoluteX => crosses_page(ea, s.regs.x),
        Addressing::AbsoluteY | Addressing::IndirectY => crosses_page(ea, s.regs.y),
        _ => false,
    };
    if reads_operand(ins) && crossed {
        1
    } else {
        0
    }
}

/// Fetches, decodes and executes one instruction; gives the cycles it takes.
#[verifier::opaque]
pub open spec fn instruction_step(s: CpuView) -> (CpuView, u32) {
    let (s1, op) = fetch(s);
    let (ins, mode, base) = decode(op);
    let (s2, ea) = operand(s1, mode);
    (
        execute(s2, ins, mode, ea),
        (base as int + branch_extra(s2, ins, ea) + page_extra(s2, ins, mode, ea)) as u32,
    )
}

/// One step: a waiting NMI, else a waiting IRQ that is not masked, else one
/// instruction. Gives the new state and the cycles used.
#[verifier::opaque]
pub open spec fn step(s: CpuView) -> (CpuView, u32) {
    if s.nmi {
        settle_dma(interrupt(CpuView { nmi: false, ..s }, NMI_VECTOR, false), INTERRUPT_CYCLES)
    } else if s.irq && !s.regs.p.interrupt {
        settle_dma(interrupt(CpuView { irq: false, ..s }, IRQ_VECTOR, false), INTERRUPT_CYCLES)
    } else {
        let (t, cycles) = instruction_step(s);
        settle_dma(t, cycles)
    }
}

/// The registers after reset, with PC read from the reset vector.
pub open spec fn reset_regs(pc: u16) -> Registers {
    Registers { a: 0, x: 0, y: 0, sp: RESET_SP, pc, p: unpack(RESET_STATUS) }
}

/// The size of a read: one byte, or a little-endian word.
#[derive(Clone, Copy, Debug, PartialEq, Eq, Structural)]
pub enum ReadSize {
    Word,
    Byte,
}

/// The 6502 core, which owns its bus.
pub struct Cpu {
    pub regs: Registers,
    pub bus: CpuBus,
    pub nmi_pending: bool,
    pub irq_pending: bool,
}

impl View for Cpu {
    type V = CpuView;

    open spec fn view(&self) -> CpuView {
        CpuView { regs: self.regs, bus: self.bus@, nmi: self.nmi_pending, irq: self.irq_pending }
    }
}

impl Cpu {
    /// A CPU at power-on: the registers as reset leaves them, with PC at 0.
    pub fn new(cpu_bus: CpuBus) -> (r: Cpu)
        requires
            cpu_bus@.wf(),
        ensures
            r@ == (CpuView { regs: reset_regs(0), bus: cpu_bus@, nmi: false, irq: false }),
    {
        Cpu { regs: Self::reset_registers(0), bus: cpu_bus, nmi_pending: false, irq_pending: false }
    }

    fn reset_registers(pc: u16) -> (r: Registers)
        ensures
            r == reset_regs(pc),
    {
        Registers { a: 0, x: 0, y: 0, sp: RESET_SP, pc, p: Status::from(RESET_STATUS) }
    }

    /// Reset: A, X and Y cleared, SP at `0xFD`, status `0x24`, pending
    /// interrupts dropped, and PC loaded from the reset vector.
    pub fn reset(&mut self)
        requires
            old(self)@.bus.wf(),
        ensures
            ({
                let (t, pc) = read_word(old(self)@, RESET_VECTOR);
                final(self)@ == CpuView { regs: reset_regs(pc), nmi: false, irq: false, ..t }
            }),
            final(self)@.bus.wf(),
    {
        let pc = self.read(RESET_VECTOR, ReadSize::Word);
        self.regs = Self::reset_registers(pc);
        self.nmi_pending = false;
        self.irq_pending = false;
    }

    /// Asks for an NMI, taken at the next instruction boundary.
    pub fn nmi(&mut self)
        ensures
            final(self)@ == (CpuView { nmi: true, ..old(self)@ }),
    {
        self.nmi_pending = true;
    }

    /// Asks for an IRQ, taken at the next instruction boundary when not masked.
    pub fn irq(&mut self)
        ensures
            final(self)@ == (CpuView { irq: true, ..old(self)@ }),
    {
        self.irq_pending = true;
    }

    /// Takes an NMI now.
    pub fn nmi_handler(&mut self)
        requires
            old(self)@.bus.wf(),
        ensures
            final(self)@ == interrupt(CpuView { nmi: false, ..old(self)@ }, NMI_VECTOR, false),
            final(self)@.bus.wf(),
    {
        self.nmi_pending = false;
        self.interrupt(NMI_VECTOR, false);
    }

    fn interrupt(&mut self, vector: u16, brk: bool)
        requires
            old(self)@.bus.wf(),
        ensures
            final(self)@ == interrupt(old(self)@, vector, brk),
            final(self)@.bus.wf(),
    {
        proof {
            reveal(interrupt);
        }
        let pc = self.regs.pc;
        self.push((pc / 0x100) as u8);
        self.push((pc % 0x100) as u8);
        let pushed = u8::from(Status { break_mode: brk, ..self.regs.p });
        self.push(pushed);
        self.set_status(Status { interrupt: true, ..self.regs.p });
        let target = self.read(vector, ReadSize::Word);
        self.set_pc(target);
    }

    fn set_status(&mut self, p: Status)
        ensures
            final(self)@ == with_status(old(self)@, p),
    {
        self.regs = Registers { p, ..self.regs };
    }

    fn set_pc(&mut self, pc: u16)
        ensures
            final(self)@ == with_regs(old(self)@, Registers { pc, ..old(self)@.regs }),
    {
        self.regs = Registers { pc, ..self.regs };
    }

    fn set_sp(&mut self, sp: u8)
        ensures
            final(self)@ == with_regs(old(self)@, Registers { sp, ..old(self)@.regs }),
    {
        self.regs = Registers { sp, ..self.regs };
    }

    fn read8(&mut self, addr: u16) -> (r: u8)
        requires
            old(self)@.bus.wf(),
        ensures
            (final(self)@, r) == cpu_read(old(self)@, addr),
            final(self)@.bus.wf(),
    {
        self.bus.read_by_cpu(addr)
    }

    fn write8(&mut self, addr: u16, data: u8)
        requires
            old(self)@.bus.wf(),
        ensures
            final(self)@ == cpu_write(old(self)@, addr, data),
            final(self)@.bus.wf(),
    {
        self.bus.write_by_cpu(addr, data);
    }

    fn read(&mut self, addr: u16, size: ReadSize) -> (r: u16)
        requires
            old(self)@.bus.wf(),
        ensures
            size == ReadSize::Word ==> (final(self)@, r) == read_word(old(self)@, addr),
            size == ReadSize::Byte ==> r < 0x100 && (final(self)@, r as u8) == cpu_read(old(self)@, addr),
            final(self)@.bus.wf(),
    {
        match size {
            ReadSize::Word => {
                let lower = self.read8(addr);
                let upper = self.read8(((addr as u32 + 1) % 0x10000) as u16);
                upper as u16 * 0x100 + lower as u16
            },
            ReadSize::Byte => self.read8(addr) as u16,
        }
    }

    fn push(&mut self, data: u8)
        requires
            old(self)@.bus.wf(),
        ensures
            final(self)@ == push(old(self)@, data),
            final(self)@.bus.wf(),
    {
        self.write8(0x0100 + self.regs.sp as u16, data);
        self.set_sp(((self.regs.sp as u16 + 0xFF) % 0x100) as u8);
    }

    fn pop(&mut self) -> (r: u8)
        requires
            old(self)@.bus.wf(),
        ensures
            (final(self)@, r) == pop(old(self)@),
            final(self)@.bus.wf(),
    {
        self.set_sp(((self.regs.sp as u16 + 1) % 0x100) as u8);
        self.read8(0x0100 + self.regs.sp as u16)
    }

    /// PHP: pushes the status with B set.
    fn push_status(&mut self)
        requires
            old(self)@.bus.wf(),
        ensures
            final(self)@ == php(old(self)@),
            final(self)@.bus.wf(),
    {
        proof {
            reveal(php);
        }
        let pushed = u8::from(Status { break_mode: true, ..self.regs.p });
        self.push(pushed);
    }

    /// PLP: pulls the status; B keeps its value and the reserved bit is set.
    fn pop_status(&mut self)
        requires
            old(self)@.bus.wf(),
        ensures
            final(self)@ == pull_status(old(self)@),
            final(self)@.bus.wf(),
    {
        proof {
            reveal(pull_status);
        }
        let b = self.regs.p.break_mode;
        let v = self.pop();
        self.set_status(Status { break_mode: b, ..Status::from(v) });
    }

    /// The byte at PC; PC moves on.
    fn fetch(&mut self) -> (r: u8)
        requires
            old(self)@.bus.wf(),
        ensures
            (final(self)@, r) == fetch(old(self)@),
            final(self)@.bus.wf(),
    {
        let pc = self.regs.pc;
        let data = self.read8(pc);
        self.set_pc(((pc as u32 + 1) % 0x10000) as u16);
        data
    }

    fn fetch_addr(&mut self) -> (r: u16)
        requires
            old(self)@.bus.wf(),
        ensures
            (final(self)@, r) == fetch_word(old(self)@),
            final(self)@.bus.wf(),
    {
        let lower_byte = self.fetch();
        let upper_byte = self.fetch();
        upper_byte as u16 * 0x100 + lower_byte as u16
    }

    fn read_zero_page_word(&mut self, zp: u8) -> (r: u16)
        requires
            old(self)@.bus.wf(),
        ensures
            (final(self)@, r) == read_word_zp(old(self)@, zp),
            final(self)@.bus.wf(),
    {
        let lower_byte = self.read8(zp as u16);
        let upper_byte = self.read8(((zp as u16 + 1) % 0x100) as u16);
        upper_byte as u16 * 0x100 + lower_byte as u16
    }

    /// Computes the operand of an addressing mode, reading past PC.
    fn fetch_operand(&mut self, addressing: Addressing) -> (r: u16)
        requires
            old(self)@.bus.wf(),
        ensures
            (final(self)@, r) == operand(old(self)@, addressing),
            final(self)@.bus.wf(),
    {
        proof {
            reveal(operand);
        }
        match addressing {
            Addressing::Accumlator | Addressing::Implied => 0,
            Addressing::Immediate | Addressing::ZeroPage => self.fetch() as u16,
            Addressing::ZeroPageX => {
                let x = self.regs.x;
                ((self.fetch() as u16 + x as u16) % 0x100) as u16
            },
            Addressing::ZeroPageY => {
                let y = self.regs.y;
                ((self.fetch() as u16 + y as u16) % 0x100) as u16
            },
            Addressing::Absolute => self.fetch_addr(),
            Addressing::AbsoluteX => {
                let x = self.regs.x;
                ((self.fetch_addr() as u32 + x as u32) % 0x10000) as u16
            },
            Addressing::AbsoluteY => {
                let y = self.regs.y;
                ((self.fetch_addr() as u32 + y as u32) % 0x10000) as u16
            },
            Addressing::Relative => {
                let offset = self.fetch();
                let pc = self.regs.pc as u32;
                if offset < 0x80 {
                    ((pc + offset as u32 + 0x10000) % 0x10000) as u16
                } else {
                    ((pc + offset as u32 + 0x10000 - 0x100) % 0x10000) as u16
                }
            },
            Addressing::Indirect => {
                let addr = self.fetch_addr();
                let lower_byte = self.read8(addr);
                let next = addr - addr % 0x100 + (addr % 0x100 + 1) % 0x100;
                let upper_byte = self.read8(next);
                upper_byte as u16 * 0x100 + lower_byte as u16
            },
            Addressing::IndirectX => {
                let x = self.regs.x;
                let base = self.fetch();
                self.read_zero_page_word(((base as u16 + x as u16) % 0x100) as u8)
            },
            Addressing::IndirectY => {
                let y = self.regs.y;
                let base = self.fetch();
                let addr = self.read_zero_page_word(base);
                ((addr as u32 + y as u32) % 0x10000) as u16
            },
        }
    }

    pub fn check_negative(register: u8) -> (r: bool)
        ensures
            r == (register & 0x80 != 0),
    {
        register & 0x80 != 0
    }

    /// `reg + operand + carry`: the result, the carry out and the signed overflow.
    pub fn checked_add(reg: u8, operand: u8, carry: bool) -> (r: (u8, bool, bool))
        ensures
            r == adc(reg, operand, carry),
    {
        let sum: u16 = reg as u16 + operand as u16 + if carry {
            1
        } else {
            0
        };
        let result = (sum % 0x100) as u8;
        (result, sum > 0xFF, (!(reg ^ operand) & (reg ^ result)) & 0x80 != 0)
    }

    /// `reg - operand - !carry`, as the addition of the operand's complement.
    pub fn checked_sub(reg: u8, operand: u8, carry: bool) -> (r: (u8, bool, bool))
        ensures
            r == adc(reg, operand ^ 0xFF, carry),
    {
        Self::checked_add(reg, operand ^ 0xFF, carry)
    }

    fn branch_condition(p: &Status, instruction: Instruction) -> (r: bool)
        ensures
            r == branch_taken(*p, instruction),
    {
        match instruction {
            Instruction::BCC => !p.carry,
            Instruction::BCS => p.carry,
            Instruction::BEQ => p.zero,
            Instruction::BNE => !p.zero,
            Instruction::BVC => !p.overflow,
            Instruction::BVS => p.overflow,
            Instruction::BPL => !p.negative,
            Instruction::BMI => p.negative,
            _ => false,
        }
    }

    fn load_operand(&mut self, addressing: Addressing, operand: u16) -> (r: u8)
        requires
            old(self)@.bus.wf(),
        ensures
            (final(self)@, r) == load(old(self)@, addressing, operand),
            final(self)@.bus.wf(),
    {
        match addressing {
            Addressing::Immediate => (operand % 0x100) as u8,
            _ => self.read8(operand),
        }
    }

    /// Stores `v` in a register and sets N and Z from it.
    fn set_register(&mut self, target: RegTarget, v: u8)
        ensures
            final(self)@ == set_reg_nz(old(self)@, target, v),
    {
        let r = self.regs;
        let p = Status { zero: v == 0, negative: Self::check_negative(v), ..r.p };
        self.regs = match target {
            RegTarget::A => Registers { a: v, p, ..r },
            RegTarget::X => Registers { x: v, p, ..r },
            RegTarget::Y => Registers { y: v, p, ..r },
        };
    }

    fn register(&self, target: RegTarget) -> (r: u8)
        ensures
            r == reg_value(self.regs, target),
    {
        match target {
            RegTarget::A => self.regs.a,
            RegTarget::X => self.regs.x,
            RegTarget::Y => self.regs.y,
        }
    }

    fn arith(&mut self, addressing: Addressing, operand: u16, subtract: bool)
        requires
            old(self)@.bus.wf(),
        ensures
            final(self)@ == arith(old(self)@, addressing, operand, subtract),
            final(self)@.bus.wf(),
    {
        proof {
            reveal(arith);
        }
        let m = self.load_operand(addressing, operand);
        let (v, c, o) = if subtract {
            Self::checked_sub(self.regs.a, m, self.regs.p.carry)
        } else {
            Self::checked_add(self.regs.a, m, self.regs.p.carry)
        };
        self.set_register(RegTarget::A, v);
        self.set_status(Status { carry: c, overflow: o, ..self.regs.p });
    }

    fn logic(&mut self, addressing: Addressing, operand: u16, op: LogicOp)
        requires
            old(self)@.bus.wf(),
        ensures
            final(self)@ == logic(old(self)@, addressing, operand, op),
            final(self)@.bus.wf(),
    {
        proof {
            reveal(logic);
        }
        let a = self.regs.a;
        let m = self.load_operand(addressing, operand);
        let v = match op {
            LogicOp::And => a & m,
            LogicOp::Or => a | m,
            LogicOp::Xor => a ^ m,
        };
        self.set_register(RegTarget::A, v);
    }

    fn shift_value(op: ShiftOp, v: u8, carry: bool) -> (r: (u8, bool))
        ensures
            r.0 == shift_result(op, v, carry),
            r.1 == shift_carry(op, v),
    {
        let cin: u16 = if carry {
            1
        } else {
            0
        };
        match op {
            ShiftOp::Asl => (((v as u16 * 2) % 0x100) as u8, v >= 0x80),
            ShiftOp::Lsr => (v / 2, v % 2 == 1),
            ShiftOp::Rol => (((v as u16 * 2 + cin) % 0x100) as u8, v >= 0x80),
            ShiftOp::Ror => ((v as u16 / 2 + cin * 0x80) as u8, v % 2 == 1),
        }
    }

    fn shift_accumulator(&mut self, op: ShiftOp)
        ensures
            final(self)@ == shift_accumulator(old(self)@, op),
            final(self)@.bus == old(self)@.bus,
    {
        proof {
            reveal(shift_accumulator);
        }
        let (v, c) = Self::shift_value(op, self.regs.a, self.regs.p.carry);
        self.set_register(RegTarget::A, v);
        self.set_status(Status { carry: c, ..self.regs.p });
    }

    #[verifier::rlimit(30)]
    fn shift_memory(&mut self, operand: u16, op: ShiftOp)
        requires
            old(self)@.bus.wf(),
        ensures
            final(self)@ == shift_memory(old(self)@, operand, op),
            final(self)@.bus.wf(),
    {
        let ghost s = old(self)@;
        let m = self.read8(operand);
        let ghost t = self@;
        assert(cpu_read(s, operand) == (t, m));
        let (v, c) = Self::shift_value(op, m, self.regs.p.carry);
        self.write8(operand, v);
        let ghost u = self@;
        assert(u == cpu_write(t, operand, v));
        let p = Status { carry: c, zero: v == 0, negative: Self::check_negative(v), ..self.regs.p };
        assert(p == (Status { carry: shift_carry(op, m), ..set_nz(s.regs.p, v) }));
        self.set_status(p);
        proof {
            reveal(shift_memory);
            assert(self@ == with_status(u, p));
        }
    }

    fn shift(&mut self, addressing: Addressing, operand: u16, op: ShiftOp)
        requires
            old(self)@.bus.wf(),
        ensures
            final(self)@ == shift_op(old(self)@, addressing, operand, op),
            final(self)@.bus.wf(),
    {
        if addressing == Addressing::Accumlator {
            self.shift_accumulator(op);
        } else {
            self.shift_memory(operand, op);
        }
    }

    fn branch(&mut self, taken: bool, target: u16)
        ensures
            final(self)@ == branch(old(self)@, taken, target),
    {
        if taken {
            self.set_pc(target);
        }
    }

    fn bit_test(&mut self, operand: u16)
        requires
            old(self)@.bus.wf(),
        ensures
            final(self)@ == bit_test(old(self)@, operand),
            final(self)@.bus.wf(),
    {
        proof {
            reveal(bit_test);
        }
        let m = self.read8(operand);
        self.set_status(
            Status { zero: self.regs.a & m == 0, negative: m & 0x80 != 0, overflow: m & 0x40 != 0, ..self.regs.p },
        );
    }

    fn jsr(&mut self, target: u16)
        requires
            old(self)@.bus.wf(),
        ensures
            final(self)@ == jsr(old(self)@, target),
            final(self)@.bus.wf(),
    {
        proof {
            reveal(jsr);
        }
        let ret = ((self.regs.pc as u32 + 0xFFFF) % 0x10000) as u16;
        self.push((ret / 0x100) as u8);
        self.push((ret % 0x100) as u8);
        self.set_pc(target);
    }

    fn rts(&mut self)
        requires
            old(self)@.bus.wf(),
        ensures
            final(self)@ == rts(old(self)@),
            final(self)@.bus.wf(),
    {
        proof {
            reveal(rts);
        }
        let lower = self.pop();
        let upper = self.pop();
        self.set_pc(((upper as u32 * 0x100 + lower as u32 + 1) % 0x10000) as u16);
    }

    fn rti(&mut self)
        requires
            old(self)@.bus.wf(),
        ensures
            final(self)@ == rti(old(self)@),
            final(self)@.bus.wf(),
    {
        proof {
            reveal(rti);
            reveal(pull_status);
        }
        self.pop_status();
        let lower = self.pop();
        let upper = self.pop();
        self.set_pc(upper as u16 * 0x100 + lower as u16);
    }

    fn brk(&mut self)
        requires
            old(self)@.bus.wf(),
        ensures
            final(self)@ == brk(old(self)@),
            final(self)@.bus.wf(),
    {
        proof {
            reveal(brk);
        }
        self.set_pc(((self.regs.pc as u32 + 1) % 0x10000) as u16);
        self.interrupt(IRQ_VECTOR, true);
    }

    fn compare(&mut self, addressing: Addressing, operand: u16, target: RegTarget)
        requires
            old(self)@.bus.wf(),
        ensures
            final(self)@ == compare_op(old(self)@, addressing, operand, target),
            final(self)@.bus.wf(),
    {
        proof {
            reveal(compare_op);
        }
        let reg = self.register(target);
        let m = self.load_operand(addressing, operand);
        let negative = Self::check_negative(((reg as u16 + 0x100 - m as u16) % 0x100) as u8);
        self.set_status(Status { carry: reg >= m, zero: reg == m, negative, ..self.regs.p });
    }

    fn step_memory(&mut self, operand: u16, inc: bool)
        requires
            old(self)@.bus.wf(),
        ensures
            final(self)@ == step_memory(old(self)@, operand, inc),
            final(self)@.bus.wf(),
    {
        proof {
            reveal(step_memory);
        }
        let m = self.read8(operand);
        let v = if inc {
            ((m as u16 + 1) % 0x100) as u8
        } else {
            ((m as u16 + 0xFF) % 0x100) as u8
        };
        self.write8(operand, v);
        self.set_status(Status { zero: v == 0, negative: Self::check_negative(v), ..self.regs.p });
    }

    fn step_register(&mut self, target: RegTarget, inc: bool)
        ensures
            final(self)@ == step_register(old(self)@, target, inc),
            final(self)@.bus == old(self)@.bus,
    {
        proof {
            reveal(step_register);
        }
        let m = self.register(target);
        let v = if inc {
            ((m as u16 + 1) % 0x100) as u8
        } else {
            ((m as u16 + 0xFF) % 0x100) as u8
        };
        self.set_register(target, v);
    }

    fn load_register(&mut self, addressing: Addressing, operand: u16, target: RegTarget)
        requires
            old(self)@.bus.wf(),
        ensures
            final(self)@ == load_reg(old(self)@, addressing, operand, target),
            final(self)@.bus.wf(),
    {
        proof {
            reveal(load_reg);
        }
        let m = self.load_operand(addressing, operand);
        self.set_register(target, m);
    }

    fn store(&mut self, operand: u16, target: RegTarget)
        requires
            old(self)@.bus.wf(),
        ensures
            final(self)@ == store(old(self)@, operand, target),
            final(self)@.bus.wf(),
    {
        proof {
            reveal(store);
        }
        let v = self.register(target);
        self.write8(operand, v);
    }

    fn transfer(&mut self, target: RegTarget, v: u8)
        ensures
            final(self)@ == transfer(old(self)@, target, v),
            final(self)@.bus == old(self)@.bus,
    {
        proof {
            reveal(transfer);
        }
        self.set_register(target, v);
    }

    fn txs(&mut self)
        ensures
            final(self)@ == txs(old(self)@),
            final(self)@.bus == old(self)@.bus,
    {
        proof {
            reveal(txs);
        }
        self.set_sp(self.regs.x);
    }

    fn push_a(&mut self)
        requires
            old(self)@.bus.wf(),
        ensures
            final(self)@ == push_a(old(self)@),
            final(self)@.bus.wf(),
    {
        proof {
            reveal(push_a);
        }
        self.push(self.regs.a);
    }

    fn pull_a(&mut self)
        requires
            old(self)@.bus.wf(),
        ensures
            final(self)@ == pull_a(old(self)@),
            final(self)@.bus.wf(),
    {
        proof {
            reveal(pull_a);
        }
        let v = self.pop();
        self.set_register(RegTarget::A, v);
    }

    fn exec_group_0(&mut self, instruction: Instruction, addressing: Addressing, operand: u16)
        requires
            old(self)@.bus.wf(),
            instruction == Instruction::ADC || instruction == Instruction::SBC
                || instruction == Instruction::AND || instruction == Instruction::ORA
                || instruction == Instruction::EOR || instruction == Instruction::ASL
                || instruction == Instruction::LSR,
        ensures
            final(self)@ == execute(old(self)@, instruction, addressing, operand),
            final(self)@.bus.wf(),
    {
        proof {
            reveal(execute);
        }
        match instruction {
            Instruction::ADC => self.arith(addressing, operand, false),
            Instruction::SBC => self.arith(addressing, operand, true),
            Instruction::AND => self.logic(addressing, operand, LogicOp::And),
            Instruction::ORA => self.logic(addressing, operand, LogicOp::Or),
            Instruction::EOR => self.logic(addressing, operand, LogicOp::Xor),
            Instruction::ASL => self.shift(addressing, operand, ShiftOp::Asl),
            Instruction::LSR => self.shift(addressing, operand, ShiftOp::Lsr),
            _ => {},
        }
    }

    fn exec_group_1(&mut self, instruction: Instruction, addressing: Addressing, operand: u16)
        requires
            old(self)@.bus.wf(),
            instruction == Instruction::ROL || instruction == Instruction::ROR
                || instruction == Instruction::BCC || instruction == Instruction::BCS
                || instruction == Instruction::BEQ || instruction == Instruction::BNE
                || instruction == Instruction::BVC,
        ensures
            final(self)@ == execute(old(self)@, instruction, addressing, operand),
            final(self)@.bus.wf(),
    {
        proof {
            reveal(execute);
        }
        let p = self.regs.p;
        match instruction {
            Instruction::ROL => self.shift(addressing, operand, ShiftOp::Rol),
            Instruction::ROR => self.shift(addressing, operand, ShiftOp::Ror),
            Instruction::BCC => self.branch(!p.carry, operand),
            Instruction::BCS => self.branch(p.carry, operand),
            Instruction::BEQ => self.branch(p.zero, operand),
            Instruction::BNE => self.branch(!p.zero, operand),
            Instruction::BVC => self.branch(!p.overflow, operand),
            _ => {},
        }
    }

    fn exec_group_2(&mut self, instruction: Instruction, addressing: Addressing, operand: u16)
        requires
            old(self)@.bus.wf(),
            instruction == Instruction::BVS || instruction == Instruction::BPL
                || instruction == Instruction::BMI || instruction == Instruction::BIT
                || instruction == Instruction::JMP || instruction == Instruction::JSR
                || instruction == Instruction::RTS,
        ensures
            final(self)@ == execute(old(self)@, instruction, addressing, operand),
            final(self)@.bus.wf(),
    {
        proof {
            reveal(execute);
        }
        let p = self.regs.p;
        match instruction {
            Instruction::BVS => self.branch(p.overflow, operand),
            Instruction::BPL => self.branch(!p.negative, operand),
            Instruction::BMI => self.branch(p.negative, operand),
            Instruction::BIT => self.bit_test(operand),
            Instruction::JMP => self.branch(true, operand),
            Instruction::JSR => self.jsr(operand),
            Instruction::RTS => self.rts(),
            _ => {},
        }
    }

    fn exec_group_3(&mut self, instruction: Instruction, addressing: Addressing, operand: u16)
        requires
            old(self)@.bus.wf(),
            instruction == Instruction::BRK || instruction == Instruction::RTI
                || instruction == Instruction::CMP || instruction == Instruction::CPX
                || instruction == Instruction::CPY || instruction == Instruction::INC
                || instruction == Instruction::DEC,
        ensures
            final(self)@ == execute(old(self)@, instruction, addressing, operand),
            final(self)@.bus.wf(),
    {
        proof {
            reveal(execute);
        }
        match instruction {
            Instruction::BRK => self.brk(),
            Instruction::RTI => self.rti(),
            Instruction::CMP => self.compare(addressing, operand, RegTarget::A),
            Instruction::CPX => self.compare(addressing, operand, RegTarget::X),
            Instruction::CPY => self.compare(addressing, operand, RegTarget::Y),
            Instruction::INC => self.step_memory(operand, true),
            Instruction::DEC => self.step_memory(operand, false),
            _ => {},
        }
    }

    fn exec_group_4(&mut self, instruction: Instruction, addressing: Addressing, operand: u16)
        requires
            old(self)@.bus.wf(),
            instruction == Instruction::INX || instruction == Instruction::DEX
                || instruction == Instruction::INY || instruction == Instruction::DEY
                || instruction == Instruction::CLC || instruction == Instruction::SEC
                || instruction == Instruction::CLI,
        ensures
            final(self)@ == execute(old(self)@, instruction, addressing, operand),
            final(self)@.bus.wf(),
    {
        proof {
            reveal(execute);
        }
        let p = self.regs.p;
        match instruction {
            Instruction::INX => self.step_register(RegTarget::X, true),
            Instruction::DEX => self.step_register(RegTarget::X, false),
            Instruction::INY => self.step_register(RegTarget::Y, true),
            Instruction::DEY => self.step_register(RegTarget::Y, false),
            Instruction::CLC => self.set_status(Status { carry: false, ..p }),
            Instruction::SEC => self.set_status(Status { carry: true, ..p }),
            Instruction::CLI => self.set_status(Status { interrupt: false, ..p }),
            _ => {},
        }
    }

    fn exec_group_5(&mut self, instruction: Instruction, addressing: Addressing, operand: u16)
        requires
            old(self)@.bus.wf(),
            instruction == Instruction::SEI || instruction == Instruction::CLD
                || instruction == Instruction::SED || instruction == Instruction::CLV
                || instruction == Instruction::LDA || instruction == Instruction::LDX
                || instruction == Instruction::LDY,
        ensures
            final(self)@ == execute(old(self)@, instruction, addressing, operand),
            final(self)@.bus.wf(),
    {
        proof {
            reveal(execute);
        }
        let p = self.regs.p;
        match instruction {
            Instruction::SEI => self.set_status(Status { interrupt: true, ..p }),
            Instruction::CLD => self.set_status(Status { decimal: false, ..p }),
            Instruction::SED => self.set_status(Status { decimal: true, ..p }),
            Instruction::CLV => self.set_status(Status { overflow: false, ..p }),
            Instruction::LDA => self.load_register(addressing, operand, RegTarget::A),
            Instruction::LDX => self.load_register(addressing, operand, RegTarget::X),
            Instruction::LDY => self.load_register(addressing, operand, RegTarget::Y),
            _ => {},
        }
    }

    fn exec_group_6(&mut self, instruction: Instruction, addressing: Addressing, operand: u16)
        requires
            old(self)@.bus.wf(),
            instruction == Instruction::STA || instruction == Instruction::STX
                || instruction == Instruction::STY || instruction == Instruction::TAX
                || instruction == Instruction::TXA || instruction == Instruction::TAY
                || instruction == Instruction::TYA,
        ensures
            final(self)@ == execute(old(self)@, instruction, addressing, operand),
            final(self)@.bus.wf(),
    {
        proof {
            reveal(execute);
        }
        match instruction {
            Instruction::STA => self.store(operand, RegTarget::A),
            Instruction::STX => self.store(operand, RegTarget::X),
            Instruction::STY => self.store(operand, RegTarget::Y),
            Instruction::TAX => self.transfer(RegTarget::X, self.regs.a),
            Instruction::TXA => self.transfer(RegTarget::A, self.regs.x),
            Instruction::TAY => self.transfer(RegTarget::Y, self.regs.a),
            Instruction::TYA => self.transfer(RegTarget::A, self.regs.y),
            _ => {},
        }
    }

    #[verifier::rlimit(30)]
    fn exec_group_7(&mut self, instruction: Instruction, addressing: Addressing, operand: u16)
        requires
            old(self)@.bus.wf(),
            instruction == Instruction::TSX || instruction == Instruction::TXS
                || instruction == Instruction::PHA || instruction == Instruction::PLA
                || instruction == Instruction::PHP || instruction == Instruction::PLP,
        ensures
            final(self)@ == execute(old(self)@, instruction, addressing, operand),
            final(self)@.bus.wf(),
    {
        proof {
            reveal(execute);
        }
        match instruction {
            Instruction::TSX => self.transfer(RegTarget::X, self.regs.sp),
            Instruction::TXS => self.txs(),
            Instruction::PHA => self.push_a(),
            Instruction::PLA => self.pull_a(),
            Instruction::PHP => self.push_status(),
            Instruction::PLP => self.pop_status(),
            _ => {},
        }
    }

    /// Executes one decoded instruction whose operand has been fetched. The
    /// instructions are handed to `exec_group_*` seven at a time, which keeps
    /// the proof of each part small.
    fn exec(&mut self, instruction: Instruction, addressing: Addressing, operand: u16)
        requires
            old(self)@.bus.wf(),
        ensures
            final(self)@ == execute(old(self)@, instruction, addressing, operand),
            final(self)@.bus.wf(),
    {
        match instruction {
            Instruction::ADC | Instruction::SBC | Instruction::AND | Instruction::ORA
            | Instruction::EOR | Instruction::ASL | Instruction::LSR => {
                self.exec_group_0(instruction, addressing, operand)
            },
            Instruction::ROL | Instruction::ROR | Instruction::BCC | Instruction::BCS
            | Instruction::BEQ | Instruction::BNE | Instruction::BVC => {
                self.exec_group_1(instruction, addressing, operand)
            },
            Instruction::BVS | Instruction::BPL | Instruction::BMI | Instruction::BIT
            | Instruction::JMP | Instruction::JSR | Instruction::RTS => {
                self.exec_group_2(instruction, addressing, operand)
            },
            Instruction::BRK | Instruction::RTI | Instruction::CMP | Instruction::CPX
            | Instruction::CPY | Instruction::INC | Instruction::DEC => {
                self.exec_group_3(instruction, addressing, operand)
            },
            Instruction::INX | Instruction::DEX | Instruction::INY | Instruction::DEY
            | Instruction::CLC | Instruction::SEC | Instruction::CLI => {
                self.exec_group_4(instruction, addressing, operand)
            },
            Instruction::SEI | Instruction::CLD | Instruction::SED | Instruction::CLV
            | Instruction::LDA | Instruction::LDX | Instruction::LDY => {
                self.exec_group_5(instruction, addressing, operand)
            },
            Instruction::STA | Instruction::STX | Instruction::STY | Instruction::TAX
            | Instruction::TXA | Instruction::TAY | Instruction::TYA => {
                self.exec_group_6(instruction, addressing, operand)
            },
            Instruction::TSX | Instruction::TXS | Instruction::PHA | Instruction::PLA
            | Instruction::PHP | Instruction::PLP => {
                self.exec_group_7(instruction, addressing, operand)
            },
            Instruction::NOP => {
                proof {
                    reveal(execute);
                }
            },
        }
    }

    fn branch_cycles(&self, instruction: Instruction, target: u16) -> (r: u32)
        ensures
            r == branch_extra(self@, instruction, target),
    {
        if Self::branch_condition(&self.regs.p, instruction) {
            if target / 0x100 != self.regs.pc / 0x100 {
                2
            } else {
                1
            }
        } else {
            0
        }
    }

    fn page_cycles(&self, instruction: Instruction, addressing: Addressing, ea: u16) -> (r: u32)
        ensures
            r == page_extra(self@, instruction, addressing, ea),
    {
        let reads = match instruction {
            Instruction::ADC | Instruction::SBC | Instruction::AND | Instruction::ORA
            | Instruction::EOR | Instruction::CMP | Instruction::LDA | Instruction::LDX
            | Instruction::LDY => true,
            _ => false,
        };
        let index: u8 = match addressing {
            Addressing::AbsoluteX => self.regs.x,
            Addressing::AbsoluteY | Addressing::IndirectY => self.regs.y,
            _ => 0,
        };
        let crossed = match addressing {
            Addressing::AbsoluteX | Addressing::AbsoluteY | Addressing::IndirectY => {
                ((ea as u32 + 0x10000 - index as u32) % 0x10000) / 0x100 != ea as u32 / 0x100
            },
            _ => false,
        };
        if reads && crossed {
            1
        } else {
            0
        }
    }

    /// Fetches, decodes and executes the instruction at PC.
    fn execute_next(&mut self) -> (r: u32)
        requires
            old(self)@.bus.wf(),
        ensures
            (final(self)@, r) == instruction_step(old(self)@),
            final(self)@.bus.wf(),
            r <= 0x102,
    {
        proof {
            reveal(instruction_step);
        }
        let opcode = self.fetch();
        let (instruction, addressing, base) = get_instruction_info(opcode);
        let operand = self.fetch_operand(addressing);
        let extra = self.branch_cycles(instruction, operand) + self.page_cycles(
            instruction,
            addressing,
            operand,
        );
        self.exec(instruction, addressing, operand);
        base as u32 + extra
    }

    /// Runs one step: takes a waiting interrupt or executes one instruction.
    /// Returns the cycles used, an OAM DMA stall included.
    pub fn run(&mut self) -> (r: u32)
        requires
            old(self)@.bus.wf(),
        ensures
            (final(self)@, r) == step(old(self)@),
            final(self)@.bus.wf(),
    {
        proof {
            reveal(step);
        }
        let cycles: u32 = if self.nmi_pending {
            self.nmi_handler();
            INTERRUPT_CYCLES
        } else if self.irq_pending && !self.regs.p.interrupt {
            self.irq_pending = false;
            self.interrupt(IRQ_VECTOR, false);
            INTERRUPT_CYCLES
        } else {
            self.execute_next()
        };
        cycles + self.bus.take_dma_stall()
    }
}

} // verus!
