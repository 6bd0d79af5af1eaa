use vstd::prelude::*;

use crate::ppu_regs::{PpuCtrlReg, PpuMask, PpuPtr, PpuPtrState, RegType, SHOW_ALL};
use crate::render::{frame_of, sprite0_hit, sprite_overflow};
use crate::rom::{CharacterRom, Mirroring};

verus! {

pub const VRAM_SIZE: usize = 0x0800;

pub const PALETTE_SIZE: usize = 0x20;

pub const OAM_SIZE: usize = 0x100;

pub const CHR_RAM_SIZE: usize = 0x2000;

pub const SCREEN_WIDTH: usize = 256;

pub const SCREEN_HEIGHT: usize = 240;

/// Bytes of one RGB frame.
pub const FRAME_BYTES: usize = 184320;

pub const DOTS_PER_LINE: u16 = 341;

pub const LINES_PER_FRAME: u16 = 262;

/// The scanline at whose second dot vertical blank starts.
pub const VBLANK_LINE: u16 = 241;

/// The pre-render scanline, at whose second dot vertical blank ends.
pub const PRERENDER_LINE: u16 = 261;

/// The whole state of the PPU, as values.
pub ghost struct PpuView {
    pub ctrl: PpuCtrlReg,
    pub mask: PpuMask,
    /// PPUSTATUS bits 5-7: sprite overflow, sprite 0 hit, vertical blank.
    pub status: u8,
    pub oam_addr: u8,
    pub oam: Seq<u8>,
    pub ptr: PpuPtr,
    pub read_buffer: u8,
    /// The last byte on the PPU data bus: written to, or read from, a register.
    pub open_bus: u8,
    pub vram: Seq<u8>,
    pub palette: Seq<u8>,
    pub chr: Seq<u8>,
    pub chr_writable: bool,
    pub mirroring: Mirroring,
    pub nmi_line: bool,
    pub dot: u16,
    pub scanline: u16,
    pub frame: Seq<u8>,
    pub frame_ready: bool,
}

impl PpuView {
    pub open spec fn wf(self) -> bool {
        &&& self.oam.len() == OAM_SIZE
        &&& self.vram.len() == VRAM_SIZE
        &&& self.palette.len() == PALETTE_SIZE
        &&& self.frame.len() == FRAME_BYTES
        &&& self.dot < DOTS_PER_LINE
        &&& self.scanline < LINES_PER_FRAME
        &&& self.ptr.addr < 0x8000
        &&& self.ptr.temp < 0x8000
    }
}

/// Offset into the 2 KiB nametable RAM of a PPU address in `$2000..$3EFF`.
/// Horizontal mirroring maps logical tables (0,1) to the first physical table
/// and (2,3) to the second; vertical maps (0,2) and (1,3).
pub open spec fn nametable_index(m: Mirroring, a: int) -> int {
    let rel = (a - 0x2000) % 0x1000;
    let table = rel / 0x400;
    let phys = match m {
        Mirroring::Horizontal => table / 2,
        Mirroring::Vertical => table % 2,
    };
    phys * 0x400 + rel % 0x400
}

/// Palette RAM entry of a PPU address in `$3F00..$3FFF`: 32 entries repeat,
/// and `$3F10/$14/$18/$1C` are `$3F00/$04/$08/$0C`.
pub open spec fn palette_index(a: int) -> int {
    let i = a % 0x20;
    if i >= 0x10 && i % 4 == 0 {
        i - 0x10
    } else {
        i
    }
}

/// The byte at a PPU address; the 14-bit space repeats above `$3FFF`.
pub open spec fn mem_read(p: PpuView, addr: u16) -> u8 {
    let a = addr as int % 0x4000;
    if a < 0x2000 {
        if a < p.chr.len() {
            p.chr[a]
        } else {
            0
        }
    } else if a < 0x3F00 {
        p.vram[nametable_index(p.mirroring, a)]
    } else {
        p.palette[palette_index(a)]
    }
}

/// A store to a PPU address. Pattern ROM ignores stores.
pub open spec fn mem_write(p: PpuView, addr: u16, d: u8) -> PpuView {
    let a = addr as int % 0x4000;
    if a < 0x2000 {
        if p.chr_writable && a < p.chr.len() {
            PpuView { chr: p.chr.update(a, d), ..p }
        } else {
            p
        }
    } else if a < 0x3F00 {
        PpuView { vram: p.vram.update(nametable_index(p.mirroring, a), d), ..p }
    } else {
        PpuView { palette: p.palette.update(palette_index(a), d), ..p }
    }
}

/// What reading a PPU register does besides driving the data bus: the new
/// state and the byte read.
pub open spec fn reg_effect(p: PpuView, reg: RegType) -> (PpuView, u8) {
    match reg {
        RegType::PPUSTATUS => (
            PpuView { status: p.status & 0x7F, ptr: PpuPtr { state: PpuPtrState::High, ..p.ptr }, ..p },
            (p.status & 0xE0) | (p.open_bus & 0x1F),
        ),
        RegType::OAMDATA => (p, p.oam[p.oam_addr as int]),
        RegType::PPUDATA => {
            let a = p.ptr.addr as int % 0x4000;
            let next = PpuView { ptr: p.ptr.advanced(p.ctrl.spec_increment()), ..p };
            if a < 0x3F00 {
                (PpuView { read_buffer: mem_read(p, a as u16), ..next }, p.read_buffer)
            } else {
                (PpuView { read_buffer: mem_read(p, (a - 0x1000) as u16), ..next }, mem_read(p, a as u16))
            }
        },
        _ => (p, p.open_bus),
    }
}

/// A CPU read of a PPU register: the new state and the byte read. The byte read
/// stays on the PPU data bus; a write-only register reads as that bus.
pub open spec fn reg_read(p: PpuView, reg: RegType) -> (PpuView, u8) {
    let (q, r) = reg_effect(p, reg);
    (PpuView { open_bus: r, ..q }, r)
}

/// A CPU write of a PPU register.
pub open spec fn reg_write(p0: PpuView, reg: RegType, d: u8) -> PpuView {
    let p = PpuView { open_bus: d, ..p0 };
    match reg {
        RegType::PPUCTRL => PpuView { ctrl: PpuCtrlReg { flags: d }, ptr: p.ptr.nametable_written(d), ..p },
        RegType::PPUMASK => PpuView { mask: PpuMask { bits: d }, ..p },
        RegType::OAMADDR => PpuView { oam_addr: d, ..p },
        RegType::OAMDATA => PpuView {
            oam: p.oam.update(p.oam_addr as int, d),
            oam_addr: ((p.oam_addr as int + 1) % 0x100) as u8,
            ..p
        },
        RegType::PPUSCROLL => PpuView { ptr: p.ptr.scroll_written(d), ..p },
        RegType::PPUADDR => PpuView { ptr: p.ptr.addr_written(d), ..p },
        RegType::PPUDATA => {
            let q = mem_write(p, p.ptr.addr, d);
            PpuView { ptr: q.ptr.advanced(p.ctrl.spec_increment()), ..q }
        },
        RegType::PPUSTATUS => p,
    }
}

/// OAM after a DMA of `src` (256 bytes) that starts at the OAM address and wraps.
pub open spec fn oam_dma(p: PpuView, src: Seq<u8>) -> PpuView {
    PpuView {
        oam: Seq::new(OAM_SIZE as nat, |j: int| src[(j - p.oam_addr as int) % 0x100]),
        ..p
    }
}

/// The state at power-on.
pub open spec fn power_on(chr_rom: Seq<u8>, mirroring: Mirroring) -> PpuView {
    PpuView {
        ctrl: PpuCtrlReg { flags: 0 },
        mask: PpuMask { bits: SHOW_ALL },
        status: 0,
        oam_addr: 0,
        oam: Seq::new(OAM_SIZE as nat, |i: int| 0u8),
        ptr: PpuPtr::initial(),
        read_buffer: 0,
        open_bus: 0,
        vram: Seq::new(VRAM_SIZE as nat, |i: int| 0u8),
        palette: Seq::new(PALETTE_SIZE as nat, |i: int| 0u8),
        chr: if chr_rom.len() == 0 {
            Seq::new(CHR_RAM_SIZE as nat, |i: int| 0u8)
        } else {
            chr_rom
        },
        chr_writable: chr_rom.len() == 0,
        mirroring,
        nmi_line: false,
        dot: 0,
        scanline: 0,
        frame: Seq::new(FRAME_BYTES as nat, |i: int| 0u8),
        frame_ready: false,
    }
}

/// The picture processing unit: registers, VRAM, OAM, palette RAM, pattern
/// memory and the frame it last rendered.
pub struct Ppu {
    pub ctrlreg: PpuCtrlReg,
    pub mask: PpuMask,
    pub status: u8,
    pub oamptr: u8,
    pub sprite_ram: Vec<u8>,
    pub ppuptr: PpuPtr,
    pub read_buffer: u8,
    pub open_bus: u8,
    pub vram: Vec<u8>,
    pub palette: Vec<u8>,
    pub chr: Vec<u8>,
    pub chr_writable: bool,
    pub mirroring: Mirroring,
    pub nmi_line: bool,
    pub dot: u16,
    pub scanline: u16,
    pub frame: Vec<u8>,
    pub frame_ready: bool,
}

impl View for Ppu {
    type V = PpuView;

    open spec fn view(&self) -> PpuView {
        PpuView {
            ctrl: self.ctrlreg,
            mask: self.mask,
            status: self.status,
            oam_addr: self.oamptr,
            oam: self.sprite_ram@,
            ptr: self.ppuptr,
            read_buffer: self.read_buffer,
            open_bus: self.open_bus,
            vram: self.vram@,
            palette: self.palette@,
            chr: self.chr@,
            chr_writable: self.chr_writable,
            mirroring: self.mirroring,
            nmi_line: self.nmi_line,
            dot: self.dot,
            scanline: self.scanline,
            frame: self.frame@,
            frame_ready: self.frame_ready,
        }
    }
}

fn nametable_offset(m: Mirroring, a: u16) -> (r: usize)
    requires
        0x2000 <= a < 0x3F00,
    ensures
        r == nametable_index(m, a as int),
        r < VRAM_SIZE,
{
    let rel = (a - 0x2000) % 0x1000;
    let table = rel / 0x400;
    let phys = match m {
        Mirroring::Horizontal => table / 2,
        Mirroring::Vertical => table % 2,
    };
    (phys * 0x400 + rel % 0x400) as usize
}

fn palette_offset(a: u16) -> (r: usize)
    ensures
        r == palette_index(a as int),
        r < PALETTE_SIZE,
{
    let i = a % 0x20;
    if i >= 0x10 && i % 4 == 0 {
        (i - 0x10) as usize
    } else {
        i as usize
    }
}

impl Ppu {
    pub fn new(chr_rom: CharacterRom, mirroring: Mirroring) -> (r: Ppu)
        ensures
            r@ == power_on(chr_rom.data@, mirroring),
            r@.wf(),
    {
        let writable = chr_rom.data.len() == 0;
        let chr = if writable {
            vec![0u8; CHR_RAM_SIZE]
        } else {
            chr_rom.data
        };
        let r = Ppu {
            ctrlreg: PpuCtrlReg::new(),
            mask: PpuMask { bits: SHOW_ALL },
            status: 0,
            oamptr: 0,
            sprite_ram: vec![0u8; OAM_SIZE],
            ppuptr: PpuPtr::new(),
            read_buffer: 0,
            open_bus: 0,
            vram: vec![0u8; VRAM_SIZE],
            palette: vec![0u8; PALETTE_SIZE],
            chr,
            chr_writable: writable,
            mirroring,
            nmi_line: false,
            dot: 0,
            scanline: 0,
            frame: vec![0u8; FRAME_BYTES],
            frame_ready: false,
        };
        assert(r@.oam =~= Seq::new(OAM_SIZE as nat, |i: int| 0u8));
        assert(r@.vram =~= Seq::new(VRAM_SIZE as nat, |i: int| 0u8));
        assert(r@.palette =~= Seq::new(PALETTE_SIZE as nat, |i: int| 0u8));
        assert(r@.frame =~= Seq::new(FRAME_BYTES as nat, |i: int| 0u8));
        assert(writable ==> r@.chr =~= Seq::new(CHR_RAM_SIZE as nat, |i: int| 0u8));
        r
    }

    /// The byte at a PPU address, without side effects.
    pub fn peek(&self, addr: u16) -> (r: u8)
        requires
            self@.wf(),
        ensures
            r == mem_read(self@, addr),
    {
        let a = addr % 0x4000;
        if a < 0x2000 {
            if (a as usize) < self.chr.len() {
                self.chr[a as usize]
            } else {
                0
            }
        } else if a < 0x3F00 {
            self.vram[nametable_offset(self.mirroring, a)]
        } else {
            self.palette[palette_offset(a)]
        }
    }

    /// Stores a byte at a PPU address.
    pub fn poke(&mut self, addr: u16, data: u8)
        requires
            old(self)@.wf(),
        ensures
            final(self)@ == mem_write(old(self)@, addr, data),
            final(self)@.wf(),
    {
        let a = addr % 0x4000;
        if a < 0x2000 {
            if self.chr_writable && (a as usize) < self.chr.len() {
                self.chr.set(a as usize, data);
            }
        } else if a < 0x3F00 {
            let i = nametable_offset(self.mirroring, a);
            self.vram.set(i, data);
        } else {
            let i = palette_offset(a);
            self.palette.set(i, data);
        }
    }

    fn increment(&self) -> (r: u16)
        ensures
            r == self.ctrlreg.spec_increment(),
    {
        if self.ctrlreg.vram_addr_increment() {
            1
        } else {
            32
        }
    }

    /// A CPU read of a register.
    pub fn read(&mut self, regtype: RegType) -> (r: u8)
        requires
            old(self)@.wf(),
        ensures
            (final(self)@, r) == reg_read(old(self)@, regtype),
            final(self)@.wf(),
    {
        let r = self.read_effect(regtype);
        self.open_bus = r;
        r
    }

    fn read_effect(&mut self, regtype: RegType) -> (r: u8)
        requires
            old(self)@.wf(),
        ensures
            (final(self)@, r) == reg_effect(old(self)@, regtype),
            final(self)@.wf(),
    {
        match regtype {
            RegType::PPUSTATUS => {
                let r = (self.status & 0xE0) | (self.open_bus & 0x1F);
                self.status = self.status & 0x7F;
                self.ppuptr.reset_latch();
                r
            },
            RegType::OAMDATA => self.sprite_ram[self.oamptr as usize],
            RegType::PPUDATA => {
                let step = self.increment();
                let addr = self.ppuptr.get_and_inc(step) % 0x4000;
                if addr < 0x3F00 {
                    let r = self.read_buffer;
                    self.read_buffer = self.peek(addr);
                    r
                } else {
                    self.read_buffer = self.peek(addr - 0x1000);
                    self.peek(addr)
                }
            },
            _ => self.open_bus,
        }
    }

    /// A CPU write of a register.
    pub fn write(&mut self, regtype: RegType, data: u8)
        requires
            old(self)@.wf(),
        ensures
            final(self)@ == reg_write(old(self)@, regtype, data),
            final(self)@.wf(),
    {
        proof {
            lemma_ptr_writes_keep_15_bits(self.ppuptr, data);
        }
        self.open_bus = data;
        match regtype {
            RegType::PPUCTRL => {
                self.ctrlreg.set(data);
                self.ppuptr.write_nametable(data);
            },
            RegType::PPUMASK => {
                self.mask = PpuMask { bits: data };
            },
            RegType::OAMADDR => {
                self.oamptr = data;
            },
            RegType::OAMDATA => {
                self.sprite_ram.set(self.oamptr as usize, data);
                self.oamptr = ((self.oamptr as u16 + 1) % 0x100) as u8;
            },
            RegType::PPUSCROLL => {
                self.ppuptr.write_scroll(data);
            },
            RegType::PPUADDR => {
                self.ppuptr.write(data);
            },
            RegType::PPUDATA => {
                let step = self.increment();
                let addr = self.ppuptr.get();
                self.poke(addr, data);
                self.ppuptr.get_and_inc(step);
            },
            RegType::PPUSTATUS => {},
        }
    }

    /// Copies 256 bytes into OAM, from the OAM address on, wrapping.
    pub fn write_oam_dma(&mut self, src: &Vec<u8>)
        requires
            old(self)@.wf(),
            src@.len() == OAM_SIZE,
        ensures
            final(self)@ == oam_dma(old(self)@, src@),
            final(self)@.wf(),
    {
        let start = self.oamptr;
        let mut i: usize = 0;
        while i < OAM_SIZE
            invariant
                0 <= i <= OAM_SIZE,
                src@.len() == OAM_SIZE,
                start == old(self).oamptr,
                self@ == (PpuView { oam: self@.oam, ..old(self)@ }),
                self@.oam.len() == OAM_SIZE,
                forall|j: int|
                    0 <= j < OAM_SIZE ==> #[trigger] self@.oam[j] == if (j - start as int) % 0x100 < i {
                        src@[(j - start as int) % 0x100]
                    } else {
                        old(self)@.oam[j]
                    },
            decreases OAM_SIZE - i,
        {
            let j = (start as usize + i) % OAM_SIZE;
            assert((j as int - start as int) % 0x100 == i as int);
            self.sprite_ram.set(j, src[i]);
            i = i + 1;
        }
        assert(self@.oam =~= oam_dma(old(self)@, src@).oam);
    }
}

/// One PPU dot. At the second dot of the first vertical-blank line the frame is
/// rendered, vertical blank, sprite 0 hit and sprite overflow are set, and NMI is raised if
/// PPUCTRL asks for it; at the second dot of the pre-render line the status bits
/// are cleared.
pub open spec fn tick(p: PpuView) -> PpuView {
    let q = if p.scanline == VBLANK_LINE && p.dot == 1 {
        PpuView {
            status: p.status | 0x80 | (if sprite0_hit(p) {
                0x40u8
            } else {
                0u8
            }) | (if sprite_overflow(p) {
                0x20u8
            } else {
                0u8
            }),
            frame: frame_of(p),
            frame_ready: true,
            nmi_line: p.nmi_line || p.ctrl.flags & 0x80 != 0,
            ..p
        }
    } else if p.scanline == PRERENDER_LINE && p.dot == 1 {
        PpuView { status: p.status & 0x1F, ..p }
    } else {
        p
    };
    if p.dot + 1 == DOTS_PER_LINE {
        PpuView {
            dot: 0,
            scanline: if p.scanline + 1 == LINES_PER_FRAME {
                0
            } else {
                (p.scanline + 1) as u16
            },
            ..q
        }
    } else {
        PpuView { dot: (p.dot + 1) as u16, ..q }
    }
}

/// `n` dots.
pub open spec fn ticks(p: PpuView, n: nat) -> PpuView
    decreases n,
{
    if n == 0 {
        p
    } else {
        tick(ticks(p, (n - 1) as nat))
    }
}

impl Ppu {
    /// Advances the PPU by one dot.
    pub fn tick(&mut self)
        requires
            old(self)@.wf(),
        ensures
            final(self)@ == tick(old(self)@),
            final(self)@.wf(),
    {
        if self.scanline == VBLANK_LINE && self.dot == 1 {
            let (frame, hit) = self.render();
            let overflow = self.sprite_overflow();
            self.status = self.status | 0x80 | (if hit {
                0x40u8
            } else {
                0u8
            }) | (if overflow {
                0x20u8
            } else {
                0u8
            });
            self.frame = frame;
            self.frame_ready = true;
            self.nmi_line = self.nmi_line || self.ctrlreg.generate_nmi();
        } else if self.scanline == PRERENDER_LINE && self.dot == 1 {
            self.status = self.status & 0x1F;
        }
        if self.dot + 1 == DOTS_PER_LINE {
            self.dot = 0;
            self.scanline = if self.scanline + 1 == LINES_PER_FRAME {
                0
            } else {
                self.scanline + 1
            };
        } else {
            self.dot = self.dot + 1;
        }
    }

    /// Advances the PPU by `dots` dots.
    pub fn run(&mut self, dots: u32)
        requires
            old(self)@.wf(),
        ensures
            final(self)@ == ticks(old(self)@, dots as nat),
            final(self)@.wf(),
    {
        let mut i: u32 = 0;
        while i < dots
            invariant
                i <= dots,
                self@ == ticks(old(self)@, i as nat),
                self@.wf(),
            decreases dots - i,
        {
            self.tick();
            i = i + 1;
        }
    }

    /// Takes the NMI request raised at vertical blank, clearing it.
    pub fn take_nmi(&mut self) -> (r: bool)
        ensures
            r == old(self)@.nmi_line,
            final(self)@ == (PpuView { nmi_line: false, ..old(self)@ }),
    {
        let r = self.nmi_line;
        self.nmi_line = false;
        r
    }

    /// Takes the news that a new frame was rendered, clearing it.
    pub fn take_frame_ready(&mut self) -> (r: bool)
        ensures
            r == old(self)@.frame_ready,
            final(self)@ == (PpuView { frame_ready: false, ..old(self)@ }),
    {
        let r = self.frame_ready;
        self.frame_ready = false;
        r
    }
}

/// The address registers `v` and `t` stay within 15 bits through every write.
pub proof fn lemma_ptr_writes_keep_15_bits(ptr: PpuPtr, d: u8)
    requires
        ptr.addr < 0x8000,
        ptr.temp < 0x8000,
    ensures
        ptr.addr_written(d).addr < 0x8000 && ptr.addr_written(d).temp < 0x8000,
        ptr.scroll_written(d).addr < 0x8000 && ptr.scroll_written(d).temp < 0x8000,
        ptr.nametable_written(d).addr < 0x8000 && ptr.nametable_written(d).temp < 0x8000,
{
    let t = ptr.temp;
    assert((t & 0x00FF) | (((d & 0x3F) as u16) << 8u16) < 0x8000) by (bit_vector);
    assert(t < 0x8000 ==> (t & 0xFF00) | (d as u16) < 0x8000) by (bit_vector);
    assert((t & 0x7FE0) | ((d >> 3u8) as u16) < 0x8000) by (bit_vector);
    assert((t & 0x0C1F) | (((d & 7) as u16) << 12u16) | (((d & 0xF8) as u16) << 2u16) < 0x8000)
        by (bit_vector);
    assert((t & 0x73FF) | (((d & 3) as u16) << 10u16) < 0x8000) by (bit_vector);
}

/// Reading PPUSTATUS clears the vertical blank flag and the write toggle
/// together, and the byte read still shows the vertical blank flag as it was.
pub proof fn lemma_status_read_clears_vblank_and_toggle(p: PpuView)
    ensures
        ({
            let (q, r) = reg_read(p, RegType::PPUSTATUS);
            &&& q.status & 0x80 == 0
            &&& q.ptr.state == PpuPtrState::High
            &&& r & 0x80 == p.status & 0x80
        }),
{
    let s = p.status;
    let o = p.open_bus;
    assert((s & 0x7F) & 0x80 == 0 && ((s & 0xE0) | (o & 0x1F)) & 0x80 == s & 0x80) by (bit_vector);
}

} // verus!
