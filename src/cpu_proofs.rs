use vstd::prelude::*;

use crate::cpu::{
    arith, execute, fetch, shift_memory, shift_result, step_memory, instruction_step, jsr, operand, step, word, load_reg, logic, php, pop, pull_a, pull_status, push, reg_value, reset_regs,
    rts, shift_accumulator, shift_op, stack_addr, step_register, transfer, with_regs, CpuView,
    LogicOp, RegTarget, Registers, ShiftOp, RESET_STATUS,
};
use crate::cpu_bus::{lemma_prg_read, lemma_wram_read, lemma_wram_write, prg_byte, WRAM_SIZE};
use crate::opcodes::{Addressing, Instruction};
use crate::status::{lemma_status_round_trip, lemma_unpack_pack, pack, Status};

verus! {

/// The stack is page 1: the slot of stack pointer `sp` is `0x0100 | sp`, so no
/// stack pointer value reaches outside `0x0100..=0x01FF`.
pub proof fn lemma_stack_in_page_one(sp: u8)
    ensures
        0x0100 <= stack_addr(sp) <= 0x01FF,
        stack_addr(sp) / 0x100 == 1,
        stack_addr(sp) % 0x100 == sp,
{
}

/// Reset leaves the status byte at `0x24`.
pub proof fn lemma_reset_status(pc: u16)
    ensures
        pack(reset_regs(pc).p) == RESET_STATUS,
{
    lemma_status_round_trip(RESET_STATUS);
    assert(RESET_STATUS | 0x20 == RESET_STATUS) by (bit_vector);
}

/// Pushing any byte and popping at once gives the byte back and leaves every
/// register as it was.
pub proof fn lemma_push_pop(s: CpuView, v: u8)
    requires
        s.bus.wf(),
    ensures
        pop(push(s, v)).1 == v,
        pop(push(s, v)).0.regs == s.regs,
{
    let a = stack_addr(s.regs.sp);
    lemma_wram_write(s.bus, a, v);
    let t = push(s, v);
    let sp = ((t.regs.sp as int + 1) % 0x100) as u8;
    assert(sp == s.regs.sp);
    lemma_wram_read(t.bus, stack_addr(sp));
}

/// Two pushes followed by two pops give the bytes back in reverse order and
/// leave the stack pointer where it was.
proof fn lemma_push2_pop2(s: CpuView, hi: u8, lo: u8)
    requires
        s.bus.wf(),
    ensures
        ({
            let t = push(push(s, hi), lo);
            let (u1, r1) = pop(t);
            let (u2, r2) = pop(u1);
            r1 == lo && r2 == hi && u2.regs.sp == s.regs.sp && u2.bus.wf()
        }),
{
    let s1 = push(s, hi);
    lemma_wram_write(s.bus, stack_addr(s.regs.sp), hi);
    let t = push(s1, lo);
    lemma_wram_write(s1.bus, stack_addr(s1.regs.sp), lo);
    let (u1, r1) = pop(t);
    lemma_wram_read(t.bus, stack_addr(s1.regs.sp));
    let (u2, r2) = pop(u1);
    lemma_wram_read(u1.bus, stack_addr(s.regs.sp));
    assert(stack_addr(s1.regs.sp) as int % WRAM_SIZE as int != stack_addr(s.regs.sp) as int % WRAM_SIZE as int);
}

/// A JSR to any target followed by an RTS (wherever it stands, so at whatever PC
/// it runs) resumes at the instruction after the JSR, with the stack pointer
/// back where it was. `s` is the state with PC past the JSR's operand.
pub proof fn lemma_jsr_rts(s: CpuView, target: u16, pc_at_rts: u16)
    requires
        s.bus.wf(),
    ensures
        ({
            let t = execute(s, Instruction::JSR, Addressing::Absolute, target);
            let u = execute(
                with_regs(t, Registers { pc: pc_at_rts, ..t.regs }),
                Instruction::RTS,
                Addressing::Implied,
                0,
            );
            t.regs.pc == target && u.regs.pc == s.regs.pc && u.regs.sp == s.regs.sp
        }),
{
    let t = execute(s, Instruction::JSR, Addressing::Absolute, target);
    assert(t == jsr(s, target)) by {
        reveal(execute);
    }
    reveal(jsr);
    let ret = ((s.regs.pc as int + 0xFFFF) % 0x10000) as u16;
    let hi = (ret / 0x100) as u8;
    let lo = (ret % 0x100) as u8;
    let t2 = push(push(s, hi), lo);
    lemma_push2_pop2(s, hi, lo);
    let v = with_regs(t, Registers { pc: pc_at_rts, ..t.regs });
    assert(execute(v, Instruction::RTS, Addressing::Implied, 0) == rts(v)) by {
        reveal(execute);
    }
    reveal(rts);
    assert(v == with_regs(t2, Registers { pc: pc_at_rts, ..t2.regs }));
    let (w1, r1) = pop(t2);
    let (w2, r2) = pop(w1);
    assert(pop(v) == (with_regs(w1, Registers { pc: pc_at_rts, ..w1.regs }), r1));
    assert(pop(pop(v).0) == (with_regs(w2, Registers { pc: pc_at_rts, ..w2.regs }), r2));
}

proof fn lemma_push_frame(s: CpuView, v: u8)
    requires
        s.bus.wf(),
    ensures
        ({
            let t = push(s, v);
            &&& t.bus.wf()
            &&& t.bus.prg == s.bus.prg
            &&& t.bus.dma_pending == s.bus.dma_pending
            &&& t.nmi == s.nmi
            &&& t.irq == s.irq
        }),
{
    lemma_wram_write(s.bus, stack_addr(s.regs.sp), v);
}

proof fn lemma_pop_frame(s: CpuView)
    requires
        s.bus.wf(),
    ensures
        pop(s).0.bus == s.bus,
        pop(s).0.nmi == s.nmi,
        pop(s).0.irq == s.irq,
{
    lemma_wram_read(s.bus, stack_addr(((s.regs.sp as int + 1) % 0x100) as u8));
}

proof fn lemma_fetch_prg(s: CpuView)
    requires
        s.regs.pc >= 0x8000,
    ensures
        fetch(s) == (
            with_regs(s, Registers { pc: ((s.regs.pc as int + 1) % 0x10000) as u16, ..s.regs }),
            prg_byte(s.bus.prg, s.regs.pc),
        ),
{
    lemma_prg_read(s.bus, s.regs.pc);
}

/// Two CPU steps over program ROM: a `JSR T` at PC, then the `RTS` standing at
/// `T`. The first lands on `T`; the second resumes right after the JSR, with the
/// stack pointer back where it was. No interrupt may be waiting.
pub proof fn lemma_jsr_rts_steps(s: CpuView)
    requires
        s.bus.wf(),
        !s.nmi,
        !s.irq,
        !s.bus.dma_pending,
        0x8000 <= s.regs.pc <= 0xFFFC,
        prg_byte(s.bus.prg, s.regs.pc) == 0x20,
        word(prg_byte(s.bus.prg, (s.regs.pc + 1) as u16), prg_byte(s.bus.prg, (s.regs.pc + 2) as u16))
            >= 0x8000,
        prg_byte(
            s.bus.prg,
            word(prg_byte(s.bus.prg, (s.regs.pc + 1) as u16), prg_byte(s.bus.prg, (s.regs.pc + 2) as u16)),
        ) == 0x60,
    ensures
        ({
            let target = word(
                prg_byte(s.bus.prg, (s.regs.pc + 1) as u16),
                prg_byte(s.bus.prg, (s.regs.pc + 2) as u16),
            );
            let s1 = step(s).0;
            let s2 = step(s1).0;
            s1.regs.pc == target && s2.regs.pc == s.regs.pc + 3 && s2.regs.sp == s.regs.sp
        }),
{
    let pc = s.regs.pc;
    let target = word(prg_byte(s.bus.prg, (pc + 1) as u16), prg_byte(s.bus.prg, (pc + 2) as u16));
    lemma_fetch_prg(s);
    let a1 = fetch(s).0;
    lemma_fetch_prg(a1);
    let a15 = fetch(a1).0;
    lemma_fetch_prg(a15);
    let a2 = fetch(a15).0;
    assert(a2 == with_regs(s, Registers { pc: (pc + 3) as u16, ..s.regs }));
    assert(operand(a1, Addressing::Absolute) == (a2, target)) by {
        reveal(operand);
    }
    let t = execute(a2, Instruction::JSR, Addressing::Absolute, target);
    assert(t == jsr(a2, target)) by {
        reveal(execute);
    }
    assert(instruction_step(s) == (t, 6u32)) by {
        reveal(instruction_step);
    }
    let ret = ((a2.regs.pc as int + 0xFFFF) % 0x10000) as u16;
    lemma_push_frame(a2, (ret / 0x100) as u8);
    lemma_push_frame(push(a2, (ret / 0x100) as u8), (ret % 0x100) as u8);
    assert(t.bus.wf() && !t.bus.dma_pending && t.bus.prg == s.bus.prg && !t.nmi && !t.irq
        && t.regs.pc == target) by {
        reveal(jsr);
    }
    assert(step(s) == (t, 6u32)) by {
        reveal(step);
    }
    lemma_jsr_rts(a2, target, ((target as int + 1) % 0x10000) as u16);
    lemma_fetch_prg(t);
    let b1 = fetch(t).0;
    assert(b1 == with_regs(t, Registers { pc: ((target as int + 1) % 0x10000) as u16, ..t.regs }));
    assert(operand(b1, Addressing::Implied) == (b1, 0u16)) by {
        reveal(operand);
    }
    let u = execute(b1, Instruction::RTS, Addressing::Implied, 0);
    assert(instruction_step(t) == (u, 6u32)) by {
        reveal(instruction_step);
    }
    assert(u == rts(b1)) by {
        reveal(execute);
    }
    lemma_pop_frame(b1);
    lemma_pop_frame(pop(b1).0);
    assert(!u.bus.dma_pending) by {
        reveal(rts);
    }
    assert(step(t) == (u, 6u32)) by {
        reveal(step);
    }
}

/// PHP, then any instructions that leave the stack alone (they may change A,
/// X, Y and the status, here `a`, `x`, `y` and `p`), then PLP: the stack pointer
/// is back where it was, A, X and Y keep what the instructions between left,
/// and every status flag but B is the one PHP saw; B stays as PLP found it. The
/// reserved flag must be set, as it always is in a running CPU.
pub proof fn lemma_php_plp(s: CpuView, pc_at_plp: u16, a: u8, x: u8, y: u8, p: Status)
    requires
        s.bus.wf(),
        s.regs.p.reserved,
    ensures
        ({
            let t = execute(s, Instruction::PHP, Addressing::Implied, 0);
            let u = execute(
                with_regs(t, Registers { pc: pc_at_plp, a, x, y, p, ..t.regs }),
                Instruction::PLP,
                Addressing::Implied,
                0,
            );
            &&& u.regs.a == a && u.regs.x == x && u.regs.y == y
            &&& u.regs.sp == s.regs.sp
            &&& u.regs.p == (Status { break_mode: p.break_mode, ..s.regs.p })
        }),
{
    let t = execute(s, Instruction::PHP, Addressing::Implied, 0);
    assert(t == php(s)) by {
        reveal(execute);
    }
    reveal(php);
    let v = with_regs(t, Registers { pc: pc_at_plp, a, x, y, p, ..t.regs });
    assert(execute(v, Instruction::PLP, Addressing::Implied, 0) == pull_status(v)) by {
        reveal(execute);
    }
    reveal(pull_status);
    let pushed = pack(Status { break_mode: true, ..s.regs.p });
    lemma_push_pop(s, pushed);
    lemma_wram_write(s.bus, stack_addr(s.regs.sp), pushed);
    lemma_wram_read(v.bus, stack_addr(s.regs.sp));
    lemma_unpack_pack(Status { break_mode: true, ..s.regs.p });
}

/// INC, DEC, and the shifts and rotates of memory: Z afterwards tells whether
/// the byte stored is zero and N holds its bit 7 (shown for work RAM, where the
/// byte stored can be read back).
pub proof fn lemma_memory_write_sets_nz(s: CpuView, ins: Instruction, mode: Addressing, ea: u16)
    requires
        s.bus.wf(),
        ea < 0x2000,
        mode != Addressing::Accumlator,
        ins == Instruction::INC || ins == Instruction::DEC || ins == Instruction::ASL || ins
            == Instruction::LSR || ins == Instruction::ROL || ins == Instruction::ROR,
    ensures
        ({
            let t = execute(s, ins, mode, ea);
            let v = t.bus.wram[ea as int % WRAM_SIZE as int];
            t.regs.p.zero == (v == 0) && t.regs.p.negative == (v & 0x80 != 0)
        }),
{
    lemma_wram_read(s.bus, ea);
    let m = s.bus.wram[ea as int % WRAM_SIZE as int];
    if ins == Instruction::INC || ins == Instruction::DEC {
        let inc = ins == Instruction::INC;
        assert(execute(s, ins, mode, ea) == step_memory(s, ea, inc)) by {
            reveal(execute);
        }
        reveal(step_memory);
        let v = if inc {
            ((m as int + 1) % 0x100) as u8
        } else {
            ((m as int + 0xFF) % 0x100) as u8
        };
        lemma_wram_write(s.bus, ea, v);
    } else {
        let op = if ins == Instruction::ASL {
            ShiftOp::Asl
        } else if ins == Instruction::LSR {
            ShiftOp::Lsr
        } else if ins == Instruction::ROL {
            ShiftOp::Rol
        } else {
            ShiftOp::Ror
        };
        assert(execute(s, ins, mode, ea) == shift_memory(s, ea, op)) by {
            reveal(execute);
        }
        reveal(shift_memory);
        lemma_wram_write(s.bus, ea, shift_result(op, m, s.regs.p.carry));
    }
}

/// N and Z after a write of `v` into register `t`.
pub open spec fn nz_matches(s: CpuView, t: RegTarget) -> bool {
    let v = reg_value(s.regs, t);
    s.regs.p.zero == (v == 0) && s.regs.p.negative == (v & 0x80 != 0)
}

proof fn lemma_nz_arith(s: CpuView, mode: Addressing, ea: u16, subtract: bool)
    ensures
        nz_matches(arith(s, mode, ea, subtract), RegTarget::A),
{
    reveal(arith);
}

proof fn lemma_nz_logic(s: CpuView, mode: Addressing, ea: u16, op: LogicOp)
    ensures
        nz_matches(logic(s, mode, ea, op), RegTarget::A),
{
    reveal(logic);
}

proof fn lemma_nz_shift(s: CpuView, op: ShiftOp)
    ensures
        nz_matches(shift_accumulator(s, op), RegTarget::A),
{
    reveal(shift_accumulator);
}

proof fn lemma_nz_load(s: CpuView, mode: Addressing, ea: u16, t: RegTarget)
    ensures
        nz_matches(load_reg(s, mode, ea, t), t),
{
    reveal(load_reg);
}

proof fn lemma_nz_transfer(s: CpuView, t: RegTarget, v: u8)
    ensures
        nz_matches(transfer(s, t, v), t),
{
    reveal(transfer);
}

proof fn lemma_nz_step(s: CpuView, t: RegTarget, inc: bool)
    ensures
        nz_matches(step_register(s, t, inc), t),
{
    reveal(step_register);
}

proof fn lemma_nz_pull(s: CpuView)
    ensures
        nz_matches(pull_a(s), RegTarget::A),
{
    reveal(pull_a);
}

/// The register an instruction writes, if it writes A, X or Y.
pub open spec fn written_register(ins: Instruction, mode: Addressing) -> Option<RegTarget> {
    match ins {
        Instruction::LDA | Instruction::ADC | Instruction::SBC | Instruction::AND | Instruction::ORA
        | Instruction::EOR | Instruction::TXA | Instruction::TYA | Instruction::PLA => Some(RegTarget::A),
        Instruction::ASL | Instruction::LSR | Instruction::ROL | Instruction::ROR => if mode
            == Addressing::Accumlator {
            Some(RegTarget::A)
        } else {
            None
        },
        Instruction::LDX | Instruction::TAX | Instruction::TSX | Instruction::INX | Instruction::DEX => Some(RegTarget::X),
        Instruction::LDY | Instruction::TAY | Instruction::INY | Instruction::DEY => Some(RegTarget::Y),
        _ => None,
    }
}

/// Whenever an instruction writes A, X or Y, Z afterwards tells whether the new
/// value is zero and N holds its bit 7.
#[verifier::rlimit(50)]
pub proof fn lemma_register_write_sets_nz(s: CpuView, ins: Instruction, mode: Addressing, ea: u16)
    requires
        written_register(ins, mode) is Some,
    ensures
        nz_matches(execute(s, ins, mode, ea), written_register(ins, mode)->0),
{
    if ins == Instruction::ADC {
        assert(execute(s, ins, mode, ea) == arith(s, mode, ea, false)) by {
            reveal(execute);
        }
        lemma_nz_arith(s, mode, ea, false);
    } else if ins == Instruction::SBC {
        assert(execute(s, ins, mode, ea) == arith(s, mode, ea, true)) by {
            reveal(execute);
        }
        lemma_nz_arith(s, mode, ea, true);
    } else if ins == Instruction::AND {
        assert(execute(s, ins, mode, ea) == logic(s, mode, ea, LogicOp::And)) by {
            reveal(execute);
        }
        lemma_nz_logic(s, mode, ea, LogicOp::And);
    } else if ins == Instruction::ORA {
        assert(execute(s, ins, mode, ea) == logic(s, mode, ea, LogicOp::Or)) by {
            reveal(execute);
        }
        lemma_nz_logic(s, mode, ea, LogicOp::Or);
    } else if ins == Instruction::EOR {
        assert(execute(s, ins, mode, ea) == logic(s, mode, ea, LogicOp::Xor)) by {
            reveal(execute);
        }
        lemma_nz_logic(s, mode, ea, LogicOp::Xor);
    } else if ins == Instruction::ASL {
        assert(execute(s, ins, mode, ea) == shift_op(s, mode, ea, ShiftOp::Asl)) by {
            reveal(execute);
        }
        assert(shift_op(s, mode, ea, ShiftOp::Asl) == shift_accumulator(s, ShiftOp::Asl));
        lemma_nz_shift(s, ShiftOp::Asl);
    } else if ins == Instruction::LSR {
        assert(execute(s, ins, mode, ea) == shift_op(s, mode, ea, ShiftOp::Lsr)) by {
            reveal(execute);
        }
        assert(shift_op(s, mode, ea, ShiftOp::Lsr) == shift_accumulator(s, ShiftOp::Lsr));
        lemma_nz_shift(s, ShiftOp::Lsr);
    } else if ins == Instruction::ROL {
        assert(execute(s, ins, mode, ea) == shift_op(s, mode, ea, ShiftOp::Rol)) by {
            reveal(execute);
        }
        assert(shift_op(s, mode, ea, ShiftOp::Rol) == shift_accumulator(s, ShiftOp::Rol));
        lemma_nz_shift(s, ShiftOp::Rol);
    } else if ins == Instruction::ROR {
        assert(execute(s, ins, mode, ea) == shift_op(s, mode, ea, ShiftOp::Ror)) by {
            reveal(execute);
        }
        assert(shift_op(s, mode, ea, ShiftOp::Ror) == shift_accumulator(s, ShiftOp::Ror));
        lemma_nz_shift(s, ShiftOp::Ror);
    } else if ins == Instruction::LDA {
        assert(execute(s, ins, mode, ea) == load_reg(s, mode, ea, RegTarget::A)) by {
            reveal(execute);
        }
        lemma_nz_load(s, mode, ea, RegTarget::A);
    } else if ins == Instruction::LDX {
        assert(execute(s, ins, mode, ea) == load_reg(s, mode, ea, RegTarget::X)) by {
            reveal(execute);
        }
        lemma_nz_load(s, mode, ea, RegTarget::X);
    } else if ins == Instruction::LDY {
        assert(execute(s, ins, mode, ea) == load_reg(s, mode, ea, RegTarget::Y)) by {
            reveal(execute);
        }
        lemma_nz_load(s, mode, ea, RegTarget::Y);
    } else if ins == Instruction::TAX {
        assert(execute(s, ins, mode, ea) == transfer(s, RegTarget::X, s.regs.a)) by {
            reveal(execute);
        }
        lemma_nz_transfer(s, RegTarget::X, s.regs.a);
    } else if ins == Instruction::TXA {
        assert(execute(s, ins, mode, ea) == transfer(s, RegTarget::A, s.regs.x)) by {
            reveal(execute);
        }
        lemma_nz_transfer(s, RegTarget::A, s.regs.x);
    } else if ins == Instruction::TAY {
        assert(execute(s, ins, mode, ea) == transfer(s, RegTarget::Y, s.regs.a)) by {
            reveal(execute);
        }
        lemma_nz_transfer(s, RegTarget::Y, s.regs.a);
    } else if ins == Instruction::TYA {
        assert(execute(s, ins, mode, ea) == transfer(s, RegTarget::A, s.regs.y)) by {
            reveal(execute);
        }
        lemma_nz_transfer(s, RegTarget::A, s.regs.y);
    } else if ins == Instruction::TSX {
        assert(execute(s, ins, mode, ea) == transfer(s, RegTarget::X, s.regs.sp)) by {
            reveal(execute);
        }
        lemma_nz_transfer(s, RegTarget::X, s.regs.sp);
    } else if ins == Instruction::INX {
        assert(execute(s, ins, mode, ea) == step_register(s, RegTarget::X, true)) by {
            reveal(execute);
        }
        lemma_nz_step(s, RegTarget::X, true);
    } else if ins == Instruction::DEX {
        assert(execute(s, ins, mode, ea) == step_register(s, RegTarget::X, false)) by {
            reveal(execute);
        }
        lemma_nz_step(s, RegTarget::X, false);
    } else if ins == Instruction::INY {
        assert(execute(s, ins, mode, ea) == step_register(s, RegTarget::Y, true)) by {
            reveal(execute);
        }
        lemma_nz_step(s, RegTarget::Y, true);
    } else if ins == Instruction::DEY {
        assert(execute(s, ins, mode, ea) == step_register(s, RegTarget::Y, false)) by {
            reveal(execute);
        }
        lemma_nz_step(s, RegTarget::Y, false);
    } else if ins == Instruction::PLA {
        assert(execute(s, ins, mode, ea) == pull_a(s)) by {
            reveal(execute);
        }
        lemma_nz_pull(s);
    }
}

} // verus!

