use tapioca_nes::cpu_bus::CpuBus;
use tapioca_nes::ppu::Ppu;
use tapioca_nes::ppu_regs::{
    PpuCtrlReg, PpuMask, PpuPtrState, RegType, EMPHASIZE_BLUE, EMPHASIZE_GREEN, EMPHASIZE_RED,
    GRAYSCALE, SHOW_ALL, SHOW_BG, SHOW_BG_LEFTMOST, SHOW_SPRITES, SHOW_SPRITES_LEFTMOST,
};
use tapioca_nes::ram::Ram;
use tapioca_nes::rom::{CharacterRom, Mirroring, ProgramRom};

fn ppu_with_chr_ram(mirroring: Mirroring) -> Ppu {
    Ppu::new(CharacterRom::new(&[]), mirroring)
}

fn bus() -> CpuBus {
    let mut prg = vec![0u8; 0x4000];
    prg[0] = 0xAB;
    prg[0x3FFF] = 0xCD;
    CpuBus::new(Ram::new(0x0800), ProgramRom::new(&prg), ppu_with_chr_ram(Mirroring::Horizontal))
}

#[test]
fn ppu_ctrl_reg_test() {
    let ctrlreg1 = PpuCtrlReg::new();
    assert_eq!(ctrlreg1.base_nametable_addr(), 0x2000);
    assert_eq!(ctrlreg1.vram_addr_increment(), true);
    assert_eq!(ctrlreg1.sprite_pattern_table_addr(), 0x0000);
    assert_eq!(ctrlreg1.bg_pattern_table_addr(), 0x0000);
    assert_eq!(ctrlreg1.sprite_size(), false);
    assert_eq!(ctrlreg1.ppu_master_slave(), false);
    assert_eq!(ctrlreg1.generate_nmi(), false);

    let ctrlreg2 = PpuCtrlReg::from_u8(0x8);
    assert_eq!(ctrlreg2.base_nametable_addr(), 0x2000);
    assert_eq!(ctrlreg2.vram_addr_increment(), true);
    assert_eq!(ctrlreg2.sprite_pattern_table_addr(), 0x1000);
    assert_eq!(ctrlreg2.bg_pattern_table_addr(), 0x0000);
    assert_eq!(ctrlreg2.sprite_size(), false);
    assert_eq!(ctrlreg2.ppu_master_slave(), false);
    assert_eq!(ctrlreg2.generate_nmi(), false);
}

#[test]
fn ppu_mask_test() {
    let mask1 = PpuMask::from_bits(0x1e).unwrap();
    assert!(!mask1.contains(GRAYSCALE));
    assert!(mask1.contains(SHOW_BG_LEFTMOST));
    assert!(mask1.contains(SHOW_SPRITES_LEFTMOST));
    assert!(mask1.contains(SHOW_BG));
    assert!(mask1.contains(SHOW_SPRITES));
    assert!(mask1.contains(SHOW_ALL));
    assert!(!mask1.contains(EMPHASIZE_RED));
    assert!(!mask1.contains(EMPHASIZE_GREEN));
    assert!(!mask1.contains(EMPHASIZE_BLUE));
}

#[test]
fn ctrl_reg_other_fields() {
    let c = PpuCtrlReg::from_u8(0xFF);
    assert_eq!(c.base_nametable_addr(), 0x2C00);
    assert!(!c.vram_addr_increment());
    assert_eq!(c.bg_pattern_table_addr(), 0x1000);
    assert!(c.sprite_size());
    assert!(c.ppu_master_slave());
    assert!(c.generate_nmi());
    assert_eq!(PpuCtrlReg::from_u8(0x02).base_nametable_addr(), 0x2800);
}

#[test]
fn register_of_address() {
    assert_eq!(RegType::from_addr(0x2000), RegType::PPUCTRL);
    assert_eq!(RegType::from_addr(0x2002), RegType::PPUSTATUS);
    assert_eq!(RegType::from_addr(0x3FFF), RegType::PPUDATA);
    assert_eq!(RegType::from_addr(0x200E), RegType::PPUADDR);
}

#[test]
fn ppu_address_latch_scenario() {
    let mut bus = bus();
    bus.write_by_cpu(0x2006, 0x21);
    bus.write_by_cpu(0x2006, 0x08);
    bus.write_by_cpu(0x2007, 0x42);
    assert_eq!(bus.ppu.peek(0x2108), 0x42);
    assert_eq!(bus.ppu.ppuptr.get(), 0x2109);
}

#[test]
fn ppudata_increment_32() {
    let mut ppu = ppu_with_chr_ram(Mirroring::Horizontal);
    ppu.write(RegType::PPUCTRL, 0x04);
    ppu.write(RegType::PPUADDR, 0x20);
    ppu.write(RegType::PPUADDR, 0x00);
    ppu.write(RegType::PPUDATA, 0x11);
    ppu.write(RegType::PPUDATA, 0x22);
    assert_eq!(ppu.peek(0x2000), 0x11);
    assert_eq!(ppu.peek(0x2020), 0x22);
    assert_eq!(ppu.ppuptr.get(), 0x2040);
}

#[test]
fn status_read_clears_vblank_and_toggle() {
    let mut ppu = ppu_with_chr_ram(Mirroring::Horizontal);
    ppu.status = 0xC0;
    ppu.write(RegType::PPUADDR, 0x3F); // first write: toggle now set
    assert_eq!(ppu.ppuptr.state, PpuPtrState::Low);
    let r = ppu.read(RegType::PPUSTATUS);
    assert_eq!(r & 0xE0, 0xC0);
    assert_eq!(r & 0x1F, 0x3F & 0x1F); // low bits from the last byte written
    assert_eq!(ppu.status & 0x80, 0);
    assert_eq!(ppu.status & 0x40, 0x40);
    assert_eq!(ppu.ppuptr.state, PpuPtrState::High);
    assert_eq!(ppu.read(RegType::PPUSTATUS) & 0x80, 0);
}

#[test]
fn buffered_ppudata_reads() {
    let mut ppu = ppu_with_chr_ram(Mirroring::Horizontal);
    ppu.poke(0x2400, 0x77);
    ppu.poke(0x2401, 0x88);
    ppu.poke(0x3F01, 0x2A);
    ppu.write(RegType::PPUADDR, 0x24);
    ppu.write(RegType::PPUADDR, 0x00);
    let _stale = ppu.read(RegType::PPUDATA);
    assert_eq!(ppu.read(RegType::PPUDATA), 0x77);
    assert_eq!(ppu.read(RegType::PPUDATA), 0x88);
    ppu.write(RegType::PPUADDR, 0x3F);
    ppu.write(RegType::PPUADDR, 0x01);
    assert_eq!(ppu.read(RegType::PPUDATA), 0x2A); // palette reads are not delayed
}

#[test]
fn nametable_mirroring() {
    let mut h = ppu_with_chr_ram(Mirroring::Horizontal);
    h.poke(0x2005, 1);
    assert_eq!(h.peek(0x2405), 1);
    assert_eq!(h.peek(0x2805), 0);
    assert_eq!(h.peek(0x3005), 1); // $3000 mirrors $2000
    let mut v = ppu_with_chr_ram(Mirroring::Vertical);
    v.poke(0x2005, 1);
    assert_eq!(v.peek(0x2805), 1);
    assert_eq!(v.peek(0x2405), 0);
}

#[test]
fn palette_mirroring() {
    let mut ppu = ppu_with_chr_ram(Mirroring::Horizontal);
    ppu.poke(0x3F10, 0x21);
    assert_eq!(ppu.peek(0x3F00), 0x21);
    ppu.poke(0x3F04, 0x05);
    assert_eq!(ppu.peek(0x3F14), 0x05);
    assert_eq!(ppu.peek(0x3F24), 0x05);
    ppu.poke(0x3F11, 0x09);
    assert_eq!(ppu.peek(0x3F01), 0x00);
}

#[test]
fn chr_rom_ignores_writes_and_chr_ram_takes_them() {
    let mut rom = Ppu::new(CharacterRom::new(&[0x5A; 0x2000]), Mirroring::Horizontal);
    rom.poke(0x0010, 0x00);
    assert_eq!(rom.peek(0x0010), 0x5A);
    let mut ram = ppu_with_chr_ram(Mirroring::Horizontal);
    ram.poke(0x0010, 0x33);
    assert_eq!(ram.peek(0x0010), 0x33);
}

#[test]
fn oam_data_and_dma() {
    let mut bus = bus();
    bus.write_by_cpu(0x2003, 0x10);
    bus.write_by_cpu(0x2004, 0x99);
    assert_eq!(bus.ppu.sprite_ram[0x10], 0x99);
    assert_eq!(bus.ppu.oamptr, 0x11);
    for i in 0..256u16 {
        bus.write_by_cpu(0x0300 + i, i as u8);
    }
    bus.write_by_cpu(0x2003, 0x04);
    bus.write_by_cpu(0x4014, 0x03);
    assert_eq!(bus.ppu.sprite_ram[0x04], 0x00);
    assert_eq!(bus.ppu.sprite_ram[0xFF], 0xFB);
    assert_eq!(bus.ppu.sprite_ram[0x00], 0xFC);
    assert_eq!(bus.take_dma_stall(), 513);
    assert_eq!(bus.take_dma_stall(), 0);
}

#[test]
fn bus_address_map() {
    let mut bus = bus();
    bus.write_by_cpu(0x0001, 0x44);
    assert_eq!(bus.read_by_cpu(0x0801), 0x44);
    assert_eq!(bus.read_by_cpu(0x1801), 0x44);
    assert_eq!(bus.read_by_cpu(0x8000), 0xAB);
    assert_eq!(bus.read_by_cpu(0xC000), 0xAB); // 16 KiB PRG mirrored
    assert_eq!(bus.read_by_cpu(0xFFFF), 0xCD);
    bus.write_by_cpu(0x8000, 0x00); // ROM ignores writes
    assert_eq!(bus.read_by_cpu(0x8000), 0xAB);
    assert_eq!(bus.read_by_cpu(0x4016), 0);
    assert_eq!(bus.read_by_cpu(0x6000), 0);
}

#[test]
fn frame_render_and_vblank_nmi() {
    let mut ppu = ppu_with_chr_ram(Mirroring::Horizontal);
    ppu.poke(0x0010, 0xFF); // tile 1, row 0: colour 1 across
    ppu.poke(0x2000, 0x01); // top-left cell shows tile 1
    ppu.poke(0x3F00, 0x0F); // backdrop black
    ppu.poke(0x3F01, 0x30); // colour 1 of palette 0: white
    ppu.write(RegType::PPUCTRL, 0x80);
    ppu.write(RegType::PPUMASK, 0x1E);
    ppu.run(241 * 341 + 2);
    assert!(ppu.take_frame_ready());
    assert!(ppu.take_nmi());
    assert!(!ppu.take_nmi());
    assert_eq!(ppu.status & 0x80, 0x80);
    assert_eq!(&ppu.frame[0..3], &[252, 252, 252]);
    assert_eq!(&ppu.frame[21..24], &[252, 252, 252]); // x = 7
    assert_eq!(&ppu.frame[24..27], &[0, 0, 0]); // x = 8: tile 0
    assert_eq!(&ppu.frame[256 * 3..256 * 3 + 3], &[0, 0, 0]); // row 1 of the tile
    ppu.run(20 * 341);
    assert_eq!(ppu.status & 0x80, 0); // cleared at pre-render
}

#[test]
fn sprite_over_background_and_sprite0_hit() {
    let mut ppu = ppu_with_chr_ram(Mirroring::Horizontal);
    ppu.poke(0x0010, 0xFF); // tile 1, row 0 opaque
    ppu.poke(0x2000, 0x01);
    ppu.poke(0x3F01, 0x30);
    ppu.poke(0x3F11, 0x16); // sprite palette 0, colour 1: red
    ppu.poke(0x2020, 0x01); // cell (0, 1) shows tile 1: its row 0 is line 8
    ppu.sprite_ram[0] = 7; // drawn from line 8
    ppu.sprite_ram[1] = 0x01;
    ppu.sprite_ram[2] = 0x00;
    ppu.sprite_ram[3] = 0x04; // x = 4
    let (frame, hit) = ppu.render();
    assert!(hit);
    let px = |x: usize, y: usize| (frame[(y * 256 + x) * 3], frame[(y * 256 + x) * 3 + 1], frame[(y * 256 + x) * 3 + 2]);
    assert_eq!(px(4, 8), (248, 56, 0));
    assert_eq!(px(3, 8), (252, 252, 252));
    ppu.sprite_ram[2] = 0x20; // behind the background
    let (frame, _) = ppu.render();
    assert_eq!(frame[(8 * 256 + 4) * 3], 252);
}

#[test]
fn eight_sprites_per_line() {
    let mut ppu = ppu_with_chr_ram(Mirroring::Horizontal);
    ppu.poke(0x0010, 0xFF);
    ppu.poke(0x3F11, 0x16);
    for i in 0..9 {
        ppu.sprite_ram[4 * i] = 9;
        ppu.sprite_ram[4 * i + 1] = 1;
        ppu.sprite_ram[4 * i + 3] = (i * 16) as u8;
    }
    let (frame, _) = ppu.render();
    assert_eq!(frame[(10 * 256 + 7 * 16) * 3], 248); // eighth sprite drawn
    assert_eq!(frame[(10 * 256 + 8 * 16) * 3], 124); // ninth dropped: backdrop colour 0
    assert!(ppu.sprite_overflow());
}

#[test]
fn no_overflow_when_sprites_hidden() {
    let mut ppu = ppu_with_chr_ram(Mirroring::Horizontal);
    for i in 0..64 {
        ppu.sprite_ram[4 * i] = 0xF0;
    }
    assert!(!ppu.sprite_overflow());
    for i in 0..8 {
        ppu.sprite_ram[4 * i] = 20;
    }
    assert!(!ppu.sprite_overflow());
    ppu.sprite_ram[4 * 8] = 25;
    assert!(ppu.sprite_overflow());
}

#[test]
fn oam_dma_reads_ppu_registers_like_the_cpu() {
    let mut bus = bus();
    bus.write_by_cpu(0x2003, 0x00);
    bus.ppu.status = 0x80;
    bus.write_by_cpu(0x4014, 0x20);
    assert_eq!(bus.ppu.sprite_ram[2], 0x80); // first PPUSTATUS read sees vertical blank
    assert_eq!(bus.ppu.sprite_ram[3], 0x80); // a write-only register reads the bus
    assert_eq!(bus.ppu.sprite_ram[10] & 0x80, 0); // the read cleared it
    assert_eq!(bus.ppu.status & 0x80, 0);
}

#[test]
fn reads_leave_their_byte_on_the_bus() {
    let mut ppu = ppu_with_chr_ram(Mirroring::Horizontal);
    ppu.poke(0x3F00, 0x2A);
    ppu.write(RegType::PPUADDR, 0x3F);
    ppu.write(RegType::PPUADDR, 0x00);
    assert_eq!(ppu.read(RegType::PPUDATA), 0x2A);
    assert_eq!(ppu.read(RegType::PPUCTRL), 0x2A);
    assert_eq!(ppu.read(RegType::PPUSTATUS) & 0x1F, 0x2A & 0x1F);
}

#[test]
fn left_column_clipping_and_grayscale() {
    let mut ppu = ppu_with_chr_ram(Mirroring::Horizontal);
    ppu.poke(0x0010, 0xFF);
    ppu.poke(0x2000, 0x01);
    ppu.poke(0x2001, 0x01);
    ppu.poke(0x3F00, 0x0F);
    ppu.poke(0x3F01, 0x16);
    ppu.write(RegType::PPUMASK, SHOW_BG);
    let (frame, _) = ppu.render();
    assert_eq!(&frame[0..3], &[0, 0, 0]); // leftmost 8 columns hidden
    assert_eq!(&frame[8 * 3..8 * 3 + 3], &[248, 56, 0]);
    ppu.write(RegType::PPUMASK, SHOW_BG | SHOW_BG_LEFTMOST | GRAYSCALE);
    let (frame, _) = ppu.render();
    assert_eq!(&frame[0..3], &[188, 188, 188]); // colour $16 shown as $10
}
