use tapioca_nes::nes::{Nes, NesError};
use tapioca_nes::rom::{load, parse, Mirroring, RomError};
use tapioca_nes::wram::Wram;
use tapioca_nes::ram::Ram;

fn image(prg_banks: u8, chr_banks: u8, flags6: u8, flags7: u8) -> Vec<u8> {
    let mut v = vec![0x4E, 0x45, 0x53, 0x1A, prg_banks, chr_banks, flags6, flags7, 0, 0, 0, 0, 0, 0, 0, 0];
    if flags6 & 0x04 != 0 {
        v.extend(std::iter::repeat(0xEE).take(512));
    }
    let mut prg = vec![0u8; prg_banks as usize * 0x4000];
    if !prg.is_empty() {
        prg[0] = 0xA9;
        prg[1] = 0x42;
        let n = prg.len();
        prg[n - 4] = 0x00; // reset vector -> $8000
        prg[n - 3] = 0x80;
    }
    v.extend(prg);
    v.extend(vec![0x77u8; chr_banks as usize * 0x2000]);
    v
}

#[test]
fn parse_splits_banks() {
    let img = image(1, 1, 0x01, 0x00);
    let c = parse(&img).unwrap();
    assert_eq!(c.prg.data.len(), 0x4000);
    assert_eq!(c.chr.data.len(), 0x2000);
    assert_eq!(c.chr.data[0], 0x77);
    assert_eq!(c.mirroring, Mirroring::Vertical);
    assert_eq!(c.mapper, 0);
}

#[test]
fn parse_skips_trainer_and_reads_mapper() {
    let img = image(2, 0, 0x14, 0x20);
    let c = parse(&img).unwrap();
    assert_eq!(c.prg.data.len(), 0x8000);
    assert_eq!(c.prg.data[0], 0xA9);
    assert!(c.chr.data.is_empty());
    assert_eq!(c.mirroring, Mirroring::Horizontal);
    assert_eq!(c.mapper, 0x21);
    assert_eq!(c.prg.read(1), 0x42);
}

#[test]
fn parse_errors() {
    assert!(matches!(parse(&[0x4E, 0x45, 0x53]), Err(RomError::TooShort)));
    let mut bad = image(1, 0, 0, 0);
    bad[3] = 0x00;
    assert!(matches!(parse(&bad), Err(RomError::BadMagic)));
    let mut short = image(1, 1, 0, 0);
    short.pop();
    assert!(matches!(parse(&short), Err(RomError::Truncated)));
    assert!(load(short).is_none());
    assert!(load(image(1, 1, 0, 0)).is_some());
}

#[test]
fn console_boots_and_runs() {
    let img = image(1, 1, 0, 0);
    let mut nes = Nes::load(&img).unwrap();
    assert_eq!(nes.cpu.regs.pc, 0x8000);
    nes.step();
    assert_eq!(nes.cpu.regs.a, 0x42);
    assert_eq!(nes.frame().len(), 256 * 240 * 3);
}

#[test]
fn console_rejects_other_mappers() {
    let img = image(1, 1, 0x10, 0);
    assert!(matches!(Nes::load(&img), Err(NesError::UnsupportedMapper(1))));
    assert!(matches!(Nes::load(&img[..10]), Err(NesError::Rom(RomError::TooShort))));
}

#[test]
fn console_delivers_frames() {
    let mut img = image(1, 1, 0, 0);
    // JMP $8000 forever
    img[16] = 0x4C;
    img[17] = 0x00;
    img[18] = 0x80;
    let mut nes = Nes::load(&img).unwrap();
    let mut frames = 0;
    for _ in 0..40000 {
        if nes.step() {
            frames += 1;
        }
    }
    assert!(frames >= 3);
}

#[test]
fn ram_and_wram() {
    let mut r = Ram::new(4);
    r.write(3, 9);
    assert_eq!(r.read(3), 9);
    let mut w = Wram::new(0x800);
    w.write(0x7FF, 1);
    assert_eq!(w.read(0x7FF), 1);
    w.reset();
    assert_eq!(w.read(0x7FF), 0);
    assert_eq!(w.ram.len(), 0x800);
}
