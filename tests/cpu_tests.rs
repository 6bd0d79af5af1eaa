use tapioca_nes::cpu::Cpu;
use tapioca_nes::cpu_bus::CpuBus;
use tapioca_nes::ppu::Ppu;
use tapioca_nes::ram::Ram;
use tapioca_nes::rom::{CharacterRom, Mirroring, ProgramRom};
use tapioca_nes::status::Status;

fn configure_cpu(prog: &[u8]) -> Cpu {
    let mut buf = vec![0u8; 0x8000];
    buf[..prog.len()].copy_from_slice(prog);
    buf[0xFFFC - 0x8000] = 0x00;
    buf[0xFFFD - 0x8000] = 0x80;

    let prom = ProgramRom::new(&buf);
    let crom = CharacterRom::new(&[]);
    let wram = Ram::new(0x0800);
    let ppu = Ppu::new(crom, Mirroring::Horizontal);
    let cpu_bus = CpuBus::new(wram, prom, ppu);
    Cpu::new(cpu_bus)
}

fn stack_byte(cpu: &mut Cpu, sp: u8) -> u8 {
    cpu.bus.read_by_cpu(0x0100 + sp as u16)
}

#[test]
fn test_status_type_conv() {
    let s1 = Status {
        negative: false,
        overflow: true,
        reserved: false,
        break_mode: true,
        decimal: false,
        interrupt: true,
        zero: false,
        carry: true,
    };
    // The reserved bit always packs as 1.
    assert_eq!(u8::from(s1), 0b0111_0101);

    let s2 = Status {
        negative: true,
        overflow: false,
        reserved: true,
        break_mode: false,
        decimal: true,
        interrupt: false,
        zero: true,
        carry: false,
    };
    assert_eq!(s2, Status::from(0b1010_1010));
}

#[test]
fn test_status_push_pop() {
    let prog = [0x08, 0x28]; // PHP, PLP

    let mut cpu = configure_cpu(&prog);
    cpu.reset();

    let status = 0b0101_0101;
    cpu.regs.p = status.into();
    cpu.run();
    assert_eq!(cpu.regs.sp, 0xFC); // one byte pushed from 0xFD
    assert_eq!(cpu.regs.p, Status::from(status)); // PHP leaves the status alone
    let sp = cpu.regs.sp;
    assert_eq!(stack_byte(&mut cpu, sp + 1), status | 0x30); // pushed with B and reserved set

    cpu.regs.p = 0b1111_1111.into(); // alter status
    cpu.run();
    assert_eq!(cpu.regs.sp, 0xFD);
    assert_eq!(cpu.regs.p, Status::from(status)); // PLP restores it
}

#[test]
fn test_adc() {
    let prog = [
        0x69, 0x01, // ADC #$1 : Immediate
        0x69, 0x01, 0x65, 0x00, // ADC $0 : Zero Page
        0x65, 0x00, 0x75, 0x00, // ADC $0, X : Zero Page, X
        0x75, 0x00, 0x6D, 0x00, 0x05, // ADC $0x500 : Absolute
        0x6D, 0x00, 0x05, 0x7D, 0x00, 0x05, // ADC $0x500 : Absolute, X
        0x7D, 0x00, 0x05, 0x79, 0x00, 0x05, // ADC $0x500 : Absolute, Y
        0x79, 0x00, 0x05, 0x61, 0x00, // ADC ($0, X): Indirect, X
        0x61, 0x00, 0x71, 0x00, // ADC ($0), Y: Indirect, Y
        0x71, 0x00,
    ];

    let mut cpu = configure_cpu(&prog);
    cpu.reset();
    cpu.regs.a = 0x1;
    cpu.regs.x = 0x1;
    cpu.regs.y = 0x1;

    // Immediate
    cpu.run();
    assert_eq!(cpu.regs.a, 0x2);
    cpu.regs.p.carry = true;
    cpu.run();
    assert_eq!(cpu.regs.a, 0x4);
    cpu.regs.p.carry = false;
    cpu.regs.a = 0x1;

    // Zero Page
    cpu.bus.write_by_cpu(0x0, 0x1);
    cpu.run();
    assert_eq!(cpu.regs.a, 0x2);
    cpu.regs.p.carry = true;
    cpu.run();
    assert_eq!(cpu.regs.a, 0x4);
    cpu.regs.p.carry = false;
    cpu.regs.a = 0x1;

    // Zero Page, X
    cpu.bus.write_by_cpu(0x1, 0x1);
    cpu.run();
    assert_eq!(cpu.regs.a, 0x2);
    cpu.regs.p.carry = true;
    cpu.run();
    assert_eq!(cpu.regs.a, 0x4);
    cpu.regs.p.carry = false;
    cpu.regs.a = 0x1;

    // Absolute
    cpu.bus.write_by_cpu(0x500, 0x1);
    cpu.run();
    assert_eq!(cpu.regs.a, 0x2);
    cpu.regs.p.carry = true;
    cpu.run();
    assert_eq!(cpu.regs.a, 0x4);
    cpu.regs.p.carry = false;
    cpu.regs.a = 0x1;
    cpu.bus.write_by_cpu(0x500, 0x0);

    // Absolute, X
    cpu.bus.write_by_cpu(0x501, 0x1);
    cpu.run();
    assert_eq!(cpu.regs.a, 0x2);
    cpu.regs.p.carry = true;
    cpu.run();
    assert_eq!(cpu.regs.a, 0x4);
    cpu.regs.p.carry = false;
    cpu.regs.a = 0x1;
    cpu.bus.write_by_cpu(0x501, 0x0);

    // Absolute, Y
    cpu.bus.write_by_cpu(0x501, 0x1);
    cpu.run();
    assert_eq!(cpu.regs.a, 0x2);
    cpu.regs.p.carry = true;
    cpu.run();
    assert_eq!(cpu.regs.a, 0x4);
    cpu.regs.p.carry = false;
    cpu.regs.a = 0x1;
    cpu.bus.write_by_cpu(0x501, 0x0);

    // Indirect, X
    cpu.bus.write_by_cpu(0x1, 0xA);
    cpu.bus.write_by_cpu(0x2, 0x0);
    cpu.bus.write_by_cpu(0xA, 0x1);
    cpu.run();
    assert_eq!(cpu.regs.a, 0x2);
    cpu.regs.p.carry = true;
    cpu.run();
    assert_eq!(cpu.regs.a, 0x4);
    cpu.regs.p.carry = false;
    cpu.regs.a = 0x1;
    cpu.bus.write_by_cpu(0x1, 0x0);
    cpu.bus.write_by_cpu(0x2, 0x0);
    cpu.bus.write_by_cpu(0xA, 0x0);

    // Indirect, Y
    cpu.bus.write_by_cpu(0x0, 0x0);
    cpu.bus.write_by_cpu(0x1, 0x5);
    cpu.bus.write_by_cpu(0x501, 0x1);
    cpu.run();
    assert_eq!(cpu.regs.a, 0x2);
    cpu.regs.p.carry = true;
    cpu.run();
    assert_eq!(cpu.regs.a, 0x4);
}

#[test]
fn test_jmp() {
    let prog = [
        0x4C, 0x03, 0x80, // JMP $0x8003 : Absolute
        0xEA, // NOP (@0x8003)
        0x6C, 0x0A, 0x80, // JMP ($0x800A) : Indirect
        0x00, 0x00, 0x00, // dummy
        0x0C, // lower byte (@0x800A)
        0x80, // upper byte (@0x800B)
        0xEA, // NOP (@0x800C)
    ];

    let mut cpu = configure_cpu(&prog);
    cpu.reset();

    cpu.run();
    assert_eq!(cpu.regs.pc, 0x8003);
    let pc = cpu.regs.pc;
    assert_eq!(cpu.bus.read_by_cpu(pc), 0xEA);

    cpu.run();
    cpu.run();
    assert_eq!(cpu.regs.pc, 0x800C);
    let pc = cpu.regs.pc;
    assert_eq!(cpu.bus.read_by_cpu(pc), 0xEA);
}

#[test]
fn test_subroutine_inst() {
    let prog = [
        0x20, 0x0A, 0x80, // JSR $0x800A : Absolute
        0xEA, // NOP (@0x8003)
        0x00, 0x00, 0x00, 0x00, 0x00, 0x00, 0x60, // RTS : Implied
    ];
    let mut cpu = configure_cpu(&prog);
    cpu.reset();
    cpu.run();
    assert_eq!(cpu.regs.pc, 0x800A);
    let pc = cpu.regs.pc;
    assert_eq!(cpu.bus.read_by_cpu(pc), 0x60);

    cpu.run();
    assert_eq!(cpu.regs.pc, 0x8003);
    let pc = cpu.regs.pc;
    assert_eq!(cpu.bus.read_by_cpu(pc), 0xEA);
}

fn write_load_fixture(cpu: &mut Cpu) {
    cpu.bus.write_by_cpu(0x0, 0x2);
    cpu.bus.write_by_cpu(0x1, 0x3);
    cpu.bus.write_by_cpu(0x2, 0x4);
    cpu.bus.write_by_cpu(0x403, 0xA);
    cpu.bus.write_by_cpu(0x304, 0xB);
}

#[test]
fn test_load_inst() {
    let prog = [
        0xA9, 0x1, // LDA #$1 : Immediate
        0xA5, 0x0, // LDA $0 : Zero Page
        0xB5, 0x0, // LDA $0, X : Zero Page, X
        0xAD, 0x0, 0x0, // LDA $0x0000 : Absolute
        0xBD, 0x0, 0x0, // LDA $0x0000, X : Absolute, X
        0xB9, 0x0, 0x0, // LDA $0x0000, Y : Absolute, Y
        0xA1, 0x0, // LDA ($0x0, X) : Indirect, X
        0xB1, 0x0, // LDA ($0x0), Y
    ];
    let mut cpu = configure_cpu(&prog);
    cpu.reset();
    write_load_fixture(&mut cpu);
    cpu.regs.x = 0x1;
    cpu.regs.y = 0x2;

    cpu.run();
    assert_eq!(cpu.regs.a, 0x1);
    cpu.run();
    assert_eq!(cpu.regs.a, 0x2);
    cpu.run();
    assert_eq!(cpu.regs.a, 0x3);
    cpu.run();
    assert_eq!(cpu.regs.a, 0x2);
    cpu.run();
    assert_eq!(cpu.regs.a, 0x3);
    cpu.run();
    assert_eq!(cpu.regs.a, 0x4);
    cpu.run();
    assert_eq!(cpu.regs.a, 0xA);
    cpu.run();
    assert_eq!(cpu.regs.a, 0xB);

    let prog = [
        0xA2, 0x1, // LDX #$1 : Immediate
        0xA6, 0x0, // LDX $0 : Zero Page
        0xB6, 0x0, // LDX $0, Y : Zero Page, Y
        0xAE, 0x0, 0x0, // LDX $0x0000 : Absolute
        0xBE, 0x0, 0x0, // LDX $0x0000, Y : Absolute, Y
    ];
    let mut cpu = configure_cpu(&prog);
    cpu.reset();
    write_load_fixture(&mut cpu);
    cpu.regs.y = 0x2;

    cpu.run();
    assert_eq!(cpu.regs.x, 0x1);
    cpu.run();
    assert_eq!(cpu.regs.x, 0x2);
    cpu.run();
    assert_eq!(cpu.regs.x, 0x4);
    cpu.run();
    assert_eq!(cpu.regs.x, 0x2);
    cpu.run();
    assert_eq!(cpu.regs.x, 0x4);

    let prog = [
        0xA0, 0x1, // LDY #$1 : Immediate
        0xA4, 0x0, // LDY $0 : Zero Page
        0xB4, 0x0, // LDY $0, X : Zero Page, X
        0xAC, 0x0, 0x0, // LDY $0x0000 : Absolute
        0xBC, 0x0, 0x0, // LDY $0x0000, X : Absolute, X
    ];
    let mut cpu = configure_cpu(&prog);
    cpu.reset();
    write_load_fixture(&mut cpu);
    cpu.regs.x = 0x2;

    cpu.run();
    assert_eq!(cpu.regs.y, 0x1);
    cpu.run();
    assert_eq!(cpu.regs.y, 0x2);
    cpu.run();
    assert_eq!(cpu.regs.y, 0x4);
    cpu.run();
    assert_eq!(cpu.regs.y, 0x2);
    cpu.run();
    assert_eq!(cpu.regs.y, 0x4);
}

#[test]
fn reset_vector_scenario() {
    let mut cpu = configure_cpu(&[0xA9, 0x42, 0x00]);
    cpu.reset();
    assert_eq!(cpu.regs.pc, 0x8000);
    assert_eq!(cpu.regs.sp, 0xFD);
    assert_eq!(u8::from(cpu.regs.p), 0x24);
    assert_eq!((cpu.regs.a, cpu.regs.x, cpu.regs.y), (0, 0, 0));
    assert_eq!(cpu.run(), 2);
    assert_eq!(cpu.regs.a, 0x42);
    assert_eq!(cpu.regs.pc, 0x8002);
}

#[test]
fn status_pack_scenario() {
    let s = Status {
        negative: false,
        overflow: true,
        reserved: true,
        break_mode: true,
        decimal: false,
        interrupt: true,
        zero: false,
        carry: true,
    };
    assert_eq!(u8::from(s), 0x75);
    let u = Status::from(0xAA);
    assert_eq!(
        u,
        Status {
            negative: true,
            overflow: false,
            reserved: true,
            break_mode: false,
            decimal: true,
            interrupt: false,
            zero: true,
            carry: false,
        }
    );
}

#[test]
fn status_round_trip_sets_reserved() {
    for b in 0..=255u8 {
        assert_eq!(u8::from(Status::from(b)), b | 0x20);
    }
}

#[test]
fn adc_overflow_scenario() {
    let mut cpu = configure_cpu(&[0x69, 0x50]);
    cpu.reset();
    cpu.regs.a = 0x50;
    cpu.regs.p.carry = false;
    cpu.run();
    assert_eq!(cpu.regs.a, 0xA0);
    assert!(cpu.regs.p.negative);
    assert!(cpu.regs.p.overflow);
    assert!(!cpu.regs.p.carry);
    assert!(!cpu.regs.p.zero);
}

#[test]
fn sbc_borrow_and_carry() {
    // SEC; LDA #$05; SBC #$06
    let mut cpu = configure_cpu(&[0x38, 0xA9, 0x05, 0xE9, 0x06]);
    cpu.reset();
    cpu.run();
    cpu.run();
    cpu.run();
    assert_eq!(cpu.regs.a, 0xFF);
    assert!(!cpu.regs.p.carry);
    assert!(cpu.regs.p.negative);
    assert!(!cpu.regs.p.overflow);
}

#[test]
fn compare_sets_flags_from_difference() {
    // LDA #$10; CMP #$20; CMP #$10; CPX #$00
    let mut cpu = configure_cpu(&[0xA9, 0x10, 0xC9, 0x20, 0xC9, 0x10, 0xE0, 0x00]);
    cpu.reset();
    cpu.run();
    cpu.run();
    assert!(!cpu.regs.p.carry);
    assert!(!cpu.regs.p.zero);
    assert!(cpu.regs.p.negative); // 0x10 - 0x20 = 0xF0
    cpu.run();
    assert!(cpu.regs.p.carry);
    assert!(cpu.regs.p.zero);
    assert!(!cpu.regs.p.negative);
    cpu.run();
    assert!(cpu.regs.p.carry);
    assert!(cpu.regs.p.zero);
}

#[test]
fn register_writes_set_n_and_z() {
    // LDA #$00; LDX #$80; DEY (Y = 0 -> 0xFF); TAY
    let mut cpu = configure_cpu(&[0xA9, 0x00, 0xA2, 0x80, 0x88, 0xA8]);
    cpu.reset();
    cpu.run();
    assert!(cpu.regs.p.zero && !cpu.regs.p.negative);
    cpu.run();
    assert!(!cpu.regs.p.zero && cpu.regs.p.negative);
    cpu.run();
    assert_eq!(cpu.regs.y, 0xFF);
    assert!(!cpu.regs.p.zero && cpu.regs.p.negative);
    cpu.run();
    assert_eq!(cpu.regs.y, 0x00);
    assert!(cpu.regs.p.zero && !cpu.regs.p.negative);
}

#[test]
fn shifts_on_memory_and_accumulator() {
    // LDA #$81; ASL A; ROL $10; LSR $10; ROR A
    let mut cpu = configure_cpu(&[0xA9, 0x81, 0x0A, 0x26, 0x10, 0x46, 0x10, 0x6A]);
    cpu.reset();
    cpu.bus.write_by_cpu(0x10, 0x40);
    cpu.run();
    cpu.run();
    assert_eq!(cpu.regs.a, 0x02);
    assert!(cpu.regs.p.carry);
    cpu.run();
    assert_eq!(cpu.bus.read_by_cpu(0x10), 0x81);
    assert!(!cpu.regs.p.carry);
    cpu.run();
    assert_eq!(cpu.bus.read_by_cpu(0x10), 0x40);
    assert!(cpu.regs.p.carry);
    cpu.run();
    assert_eq!(cpu.regs.a, 0x81);
    assert!(!cpu.regs.p.carry);
    assert!(cpu.regs.p.negative);
}

#[test]
fn inc_dec_memory_wrap() {
    // INC $20; DEC $21
    let mut cpu = configure_cpu(&[0xE6, 0x20, 0xC6, 0x21]);
    cpu.reset();
    cpu.bus.write_by_cpu(0x20, 0xFF);
    cpu.bus.write_by_cpu(0x21, 0x00);
    cpu.run();
    assert_eq!(cpu.bus.read_by_cpu(0x20), 0x00);
    assert!(cpu.regs.p.zero);
    cpu.run();
    assert_eq!(cpu.bus.read_by_cpu(0x21), 0xFF);
    assert!(cpu.regs.p.negative);
}

#[test]
fn bit_copies_high_bits() {
    // LDA #$01; BIT $30
    let mut cpu = configure_cpu(&[0xA9, 0x01, 0x24, 0x30]);
    cpu.reset();
    cpu.bus.write_by_cpu(0x30, 0xC0);
    cpu.run();
    cpu.run();
    assert!(cpu.regs.p.zero);
    assert!(cpu.regs.p.negative);
    assert!(cpu.regs.p.overflow);
}

#[test]
fn branch_cycles_and_targets() {
    // $8000: BNE +2 (Z clear: taken, same page) -> $8004
    // $8004: BEQ -6 (Z clear: not taken)
    let mut cpu = configure_cpu(&[0xD0, 0x02, 0xEA, 0xEA, 0xF0, 0xFA]);
    cpu.reset();
    cpu.regs.p.zero = false;
    assert_eq!(cpu.run(), 3);
    assert_eq!(cpu.regs.pc, 0x8004);
    assert_eq!(cpu.run(), 2);
    assert_eq!(cpu.regs.pc, 0x8006);
}

#[test]
fn branch_across_page_costs_two_more() {
    // $8000: BCC -3 -> $7FFF, another page
    let mut cpu = configure_cpu(&[0x90, 0xFD]);
    cpu.reset();
    assert_eq!(cpu.run(), 4);
    assert_eq!(cpu.regs.pc, 0x7FFF);
}

#[test]
fn unknown_opcode_is_two_cycle_nop() {
    let mut cpu = configure_cpu(&[0x02, 0xA9, 0x07]);
    cpu.reset();
    assert_eq!(cpu.run(), 2);
    assert_eq!(cpu.regs.pc, 0x8001);
    cpu.run();
    assert_eq!(cpu.regs.a, 0x07);
}

#[test]
fn jsr_rts_scenario() {
    let mut prog = vec![0x20, 0x08, 0x80, 0xEA, 0, 0, 0, 0];
    prog.push(0x60); // RTS at $8008
    let mut cpu = configure_cpu(&prog);
    cpu.reset();
    assert_eq!(cpu.run(), 6);
    assert_eq!(cpu.regs.pc, 0x8008);
    assert_eq!(cpu.regs.sp, 0xFB);
    assert_eq!(stack_byte(&mut cpu, 0xFD), 0x80);
    assert_eq!(stack_byte(&mut cpu, 0xFC), 0x02);
    cpu.run();
    assert_eq!(cpu.regs.pc, 0x8003);
    assert_eq!(cpu.regs.sp, 0xFD);
}

#[test]
fn jmp_indirect_page_wrap_scenario() {
    let mut cpu = configure_cpu(&[0x6C, 0xFF, 0x10]);
    cpu.reset();
    cpu.bus.write_by_cpu(0x10FF, 0x34);
    cpu.bus.write_by_cpu(0x1000, 0x12);
    cpu.bus.write_by_cpu(0x1100, 0x56);
    cpu.run();
    assert_eq!(cpu.regs.pc, 0x1234);
}

#[test]
fn push_pop_round_trip() {
    // PHA; LDA #$00; PLA
    let mut cpu = configure_cpu(&[0x48, 0xA9, 0x00, 0x68]);
    cpu.reset();
    cpu.regs.a = 0x9C;
    cpu.run();
    assert_eq!(cpu.regs.sp, 0xFC);
    cpu.run();
    cpu.run();
    assert_eq!(cpu.regs.a, 0x9C);
    assert_eq!(cpu.regs.sp, 0xFD);
    assert!(cpu.regs.p.negative);
}

#[test]
fn stack_pointer_wraps_within_page_one() {
    // PHA with SP = 0 writes $0100 and wraps SP to $FF; PLA reads it back.
    let mut cpu = configure_cpu(&[0x48, 0x68]);
    cpu.reset();
    cpu.regs.sp = 0x00;
    cpu.regs.a = 0x5A;
    cpu.run();
    assert_eq!(cpu.regs.sp, 0xFF);
    assert_eq!(cpu.bus.read_by_cpu(0x0100), 0x5A);
    cpu.regs.a = 0;
    cpu.run();
    assert_eq!(cpu.regs.sp, 0x00);
    assert_eq!(cpu.regs.a, 0x5A);
}

#[test]
fn php_plp_keeps_registers() {
    // PHP; LDA #$00 (changes Z and N); PLP
    let mut cpu = configure_cpu(&[0x08, 0xA9, 0x00, 0x28]);
    cpu.reset();
    cpu.regs.x = 0x11;
    cpu.regs.y = 0x22;
    cpu.regs.p = Status::from(0xC3);
    let before = cpu.regs.p;
    cpu.run();
    cpu.run();
    let a = cpu.regs.a;
    cpu.run();
    assert_eq!(cpu.regs.p, before);
    assert_eq!((cpu.regs.a, cpu.regs.x, cpu.regs.y, cpu.regs.sp), (a, 0x11, 0x22, 0xFD));
}

#[test]
fn brk_and_rti() {
    let mut buf = vec![0u8; 0x8000];
    buf[0] = 0x00; // BRK at $8000
    buf[0x10] = 0x40; // RTI at $8010
    buf[0xFFFC - 0x8000] = 0x00;
    buf[0xFFFD - 0x8000] = 0x80;
    buf[0xFFFE - 0x8000] = 0x10;
    buf[0xFFFF - 0x8000] = 0x80;
    let bus = CpuBus::new(
        Ram::new(0x0800),
        ProgramRom::new(&buf),
        Ppu::new(CharacterRom::new(&[]), Mirroring::Vertical),
    );
    let mut cpu = Cpu::new(bus);
    cpu.reset();
    cpu.regs.p.interrupt = false;
    assert_eq!(cpu.run(), 7);
    assert_eq!(cpu.regs.pc, 0x8010);
    assert!(cpu.regs.p.interrupt);
    assert_eq!(stack_byte(&mut cpu, 0xFD), 0x80);
    assert_eq!(stack_byte(&mut cpu, 0xFC), 0x02);
    assert_eq!(stack_byte(&mut cpu, 0xFB), 0x30); // B and reserved set
    cpu.run();
    assert_eq!(cpu.regs.pc, 0x8002);
    assert!(!cpu.regs.p.interrupt);
    assert_eq!(cpu.regs.sp, 0xFD);
}

#[test]
fn nmi_is_taken_at_instruction_boundary() {
    let mut buf = vec![0xEAu8; 0x8000];
    buf[0xFFFA - 0x8000] = 0x00;
    buf[0xFFFB - 0x8000] = 0x90;
    buf[0xFFFC - 0x8000] = 0x00;
    buf[0xFFFD - 0x8000] = 0x80;
    let bus = CpuBus::new(
        Ram::new(0x0800),
        ProgramRom::new(&buf),
        Ppu::new(CharacterRom::new(&[]), Mirroring::Vertical),
    );
    let mut cpu = Cpu::new(bus);
    cpu.reset();
    cpu.run();
    cpu.nmi();
    assert_eq!(cpu.run(), 7);
    assert_eq!(cpu.regs.pc, 0x9000);
    assert_eq!(stack_byte(&mut cpu, 0xFB) & 0x10, 0); // B clear for NMI
    assert!(!cpu.nmi_pending);
}

#[test]
fn masked_irq_waits() {
    let mut buf = vec![0xEAu8; 0x8000];
    buf[0xFFFC - 0x8000] = 0x00;
    buf[0xFFFD - 0x8000] = 0x80;
    buf[0xFFFE - 0x8000] = 0x00;
    buf[0xFFFF - 0x8000] = 0xA0;
    buf[0] = 0x58; // CLI
    let bus = CpuBus::new(
        Ram::new(0x0800),
        ProgramRom::new(&buf),
        Ppu::new(CharacterRom::new(&[]), Mirroring::Vertical),
    );
    let mut cpu = Cpu::new(bus);
    cpu.reset();
    cpu.irq();
    assert_eq!(cpu.run(), 2); // I is set after reset: CLI runs instead
    assert_eq!(cpu.run(), 7);
    assert_eq!(cpu.regs.pc, 0xA000);
}

#[test]
fn check_negative_and_checked_arith() {
    assert!(Cpu::check_negative(0x80));
    assert!(!Cpu::check_negative(0x7F));
    assert_eq!(Cpu::checked_add(0xFF, 0x01, false), (0x00, true, false));
    assert_eq!(Cpu::checked_add(0x7F, 0x00, true), (0x80, false, true));
    assert_eq!(Cpu::checked_sub(0x00, 0x01, true), (0xFF, false, false));
}

#[test]
fn cycle_counts_of_indexed_forms() {
    let prog = [
        0x1E, 0x00, 0x03, // ASL $0300,X
        0x3E, 0x00, 0x03, // ROL $0300,X
        0x5E, 0x00, 0x03, // LSR $0300,X
        0x7E, 0x00, 0x03, // ROR $0300,X
        0x99, 0x00, 0x03, // STA $0300,Y
        0x9D, 0xFF, 0x02, // STA $02FF,X: crosses, but stores pay no extra
        0xBD, 0xFF, 0x02, // LDA $02FF,X: crosses
        0xBD, 0x00, 0x03, // LDA $0300,X
        0xB1, 0x10, // LDA ($10),Y with pointer $02FF: crosses
        0xB9, 0x00, 0x03, // LDA $0300,Y
    ];
    let mut cpu = configure_cpu(&prog);
    cpu.reset();
    cpu.bus.write_by_cpu(0x10, 0xFF);
    cpu.bus.write_by_cpu(0x11, 0x02);
    cpu.regs.x = 1;
    cpu.regs.y = 1;
    let cycles: Vec<u32> = (0..10).map(|_| cpu.run()).collect();
    assert_eq!(cycles, vec![7, 7, 7, 7, 5, 5, 5, 4, 6, 4]);
}
