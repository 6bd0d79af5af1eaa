use vstd::prelude::*;

verus! {

/// A masked byte is no larger than its mask.
pub proof fn lemma_and_le(x: u8, m: u8)
    ensures
        x & m <= m,
{
    assert(x & m <= m) by (bit_vector);
}

/// The eight memory-mapped PPU registers, by their offset from `$2000`.
#[allow(non_camel_case_types)]
#[derive(Clone, Copy, Debug, PartialEq, Eq, Structural)]
pub enum RegType {
    PPUCTRL,
    PPUMASK,
    PPUSTATUS,
    OAMADDR,
    OAMDATA,
    PPUSCROLL,
    PPUADDR,
    PPUDATA,
}

/// The register that a CPU address selects; the eight registers repeat every 8 bytes.
pub open spec fn reg_of(addr: u16) -> RegType {
    let n = addr as int % 8;
    if n == 0 {
        RegType::PPUCTRL
    } else if n == 1 {
        RegType::PPUMASK
    } else if n == 2 {
        RegType::PPUSTATUS
    } else if n == 3 {
        RegType::OAMADDR
    } else if n == 4 {
        RegType::OAMDATA
    } else if n == 5 {
        RegType::PPUSCROLL
    } else if n == 6 {
        RegType::PPUADDR
    } else {
        RegType::PPUDATA
    }
}

impl RegType {
    pub fn from_addr(addr: u16) -> (r: RegType)
        ensures
            r == reg_of(addr),
    {
        match addr % 8 {
            0 => RegType::PPUCTRL,
            1 => RegType::PPUMASK,
            2 => RegType::PPUSTATUS,
            3 => RegType::OAMADDR,
            4 => RegType::OAMDATA,
            5 => RegType::PPUSCROLL,
            6 => RegType::PPUADDR,
            _ => RegType::PPUDATA,
        }
    }
}

/// PPUCTRL (`$2000`).
#[derive(Clone, Copy, Debug, PartialEq, Eq, Structural)]
pub struct PpuCtrlReg {
    pub flags: u8,
}

impl PpuCtrlReg {
    pub fn new() -> (r: PpuCtrlReg)
        ensures
            r.flags == 0,
    {
        Self::from_u8(0)
    }

    pub fn from_u8(flags: u8) -> (r: PpuCtrlReg)
        ensures
            r.flags == flags,
    {
        PpuCtrlReg { flags }
    }

    pub fn set(&mut self, flags: u8)
        ensures
            final(self).flags == flags,
    {
        self.flags = flags;
    }

    pub open spec fn spec_base_nametable_addr(self) -> u16 {
        (0x2000 + (self.flags & 3) as int * 0x400) as u16
    }

    /// `$2000`, `$2400`, `$2800` or `$2C00`, by bits 0-1.
    pub fn base_nametable_addr(&self) -> (r: u16)
        ensures
            r == self.spec_base_nametable_addr(),
    {
        let n = self.flags & 3;
        proof {
            lemma_and_le(self.flags, 3);
        }
        0x2000 + n as u16 * 0x400
    }

    pub open spec fn spec_vram_addr_increment(self) -> bool {
        self.flags & 0x04 == 0
    }

    /// True when each PPUDATA access adds 1 to the VRAM address (bit 2 clear);
    /// false when it adds 32.
    pub fn vram_addr_increment(&self) -> (r: bool)
        ensures
            r == self.spec_vram_addr_increment(),
    {
        self.flags & 0x04 == 0
    }

    pub open spec fn spec_increment(self) -> u16 {
        if self.spec_vram_addr_increment() {
            1
        } else {
            32
        }
    }

    pub open spec fn spec_sprite_pattern_table_addr(self) -> u16 {
        if self.flags & 0x08 == 0 {
            0x0000
        } else {
            0x1000
        }
    }

    /// Pattern table of 8x8 sprites (bit 3).
    pub fn sprite_pattern_table_addr(&self) -> (r: u16)
        ensures
            r == self.spec_sprite_pattern_table_addr(),
    {
        if self.flags & 0x08 == 0 {
            0x0000
        } else {
            0x1000
        }
    }

    pub open spec fn spec_bg_pattern_table_addr(self) -> u16 {
        if self.flags & 0x10 == 0 {
            0x0000
        } else {
            0x1000
        }
    }

    /// Pattern table of the background (bit 4).
    pub fn bg_pattern_table_addr(&self) -> (r: u16)
        ensures
            r == self.spec_bg_pattern_table_addr(),
    {
        if self.flags & 0x10 == 0 {
            0x0000
        } else {
            0x1000
        }
    }

    /// True for 8x16 sprites, false for 8x8 (bit 5).
    pub fn sprite_size(&self) -> (r: bool)
        ensures
            r == (self.flags & 0x20 != 0),
    {
        self.flags & 0x20 != 0
    }

    /// PPU master/slave select (bit 6).
    pub fn ppu_master_slave(&self) -> (r: bool)
        ensures
            r == (self.flags & 0x40 != 0),
    {
        self.flags & 0x40 != 0
    }

    /// Whether vertical blank raises NMI (bit 7).
    pub fn generate_nmi(&self) -> (r: bool)
        ensures
            r == (self.flags & 0x80 != 0),
    {
        self.flags & 0x80 != 0
    }
}

/// PPUMASK (`$2001`). Every bit is a flag.
#[derive(Clone, Copy, Debug, PartialEq, Eq, Structural)]
pub struct PpuMask {
    pub bits: u8,
}

pub const GRAYSCALE: u8 = 0b0000_0001;

pub const SHOW_BG_LEFTMOST: u8 = 0b0000_0010;

pub const SHOW_SPRITES_LEFTMOST: u8 = 0b0000_0100;

pub const SHOW_BG: u8 = 0b0000_1000;

pub const SHOW_SPRITES: u8 = 0b0001_0000;

pub const SHOW_ALL: u8 = 0b0001_1110;

pub const EMPHASIZE_RED: u8 = 0b0010_0000;

pub const EMPHASIZE_GREEN: u8 = 0b0100_0000;

pub const EMPHASIZE_BLUE: u8 = 0b1000_0000;

impl PpuMask {
    /// Every byte is a valid mask, so this is always `Some`.
    pub fn from_bits(bits: u8) -> (r: Option<PpuMask>)
        ensures
            r == Some(PpuMask { bits }),
    {
        Some(PpuMask { bits })
    }

    pub fn bits(&self) -> (r: u8)
        ensures
            r == self.bits,
    {
        self.bits
    }

    /// Whether every flag of `flags` is set.
    pub fn contains(&self, flags: u8) -> (r: bool)
        ensures
            r == (self.bits & flags == flags),
    {
        self.bits & flags == flags
    }

    /// Whether any flag of `flags` is set.
    pub fn intersects(&self, flags: u8) -> (r: bool)
        ensures
            r == (self.bits & flags != 0),
    {
        self.bits & flags != 0
    }
}

/// Which half of a two-write register pair the next write fills: the shared
/// write toggle `w` of PPUSCROLL and PPUADDR (`High` is `w = 0`).
#[derive(Clone, Copy, Debug, PartialEq, Eq, Structural)]
pub enum PpuPtrState {
    High,
    Low,
}

impl PpuPtrState {
    pub fn toggle(&mut self)
        ensures
            *final(self) == (if *old(self) == PpuPtrState::High {
                PpuPtrState::Low
            } else {
                PpuPtrState::High
            }),
    {
        match *self {
            PpuPtrState::High => *self = PpuPtrState::Low,
            PpuPtrState::Low => *self = PpuPtrState::High,
        }
    }
}

/// The PPU's internal address registers: the current VRAM address `v`, the
/// temporary address `t` (both 15 bits), the fine X scroll `x` and the write
/// toggle.
#[derive(Clone, Copy, Debug, PartialEq, Eq, Structural)]
pub struct PpuPtr {
    pub addr: u16,
    pub temp: u16,
    pub fine_x: u8,
    pub state: PpuPtrState,
}

impl PpuPtr {
    pub open spec fn initial() -> PpuPtr {
        PpuPtr { addr: 0, temp: 0, fine_x: 0, state: PpuPtrState::High }
    }

    /// What a PPUADDR write does: the first write sets the high 6 bits of `t`, the
    /// second its low 8 bits and then copies `t` into `v`.
    pub open spec fn addr_written(self, data: u8) -> PpuPtr {
        if self.state == PpuPtrState::High {
            PpuPtr {
                temp: (self.temp & 0x00FF) | (((data & 0x3F) as u16) << 8u16),
                state: PpuPtrState::Low,
                ..self
            }
        } else {
            let t = (self.temp & 0xFF00) | (data as u16);
            PpuPtr { temp: t, addr: t, state: PpuPtrState::High, ..self }
        }
    }

    /// What a PPUSCROLL write does: the first write sets coarse and fine X, the
    /// second coarse and fine Y.
    pub open spec fn scroll_written(self, data: u8) -> PpuPtr {
        if self.state == PpuPtrState::High {
            PpuPtr {
                temp: (self.temp & 0x7FE0) | ((data >> 3u8) as u16),
                fine_x: data & 7,
                state: PpuPtrState::Low,
                ..self
            }
        } else {
            PpuPtr {
                temp: (self.temp & 0x0C1F) | (((data & 7) as u16) << 12u16) | (((data & 0xF8) as u16)
                    << 2u16),
                state: PpuPtrState::High,
                ..self
            }
        }
    }

    /// A PPUCTRL write copies its nametable bits into bits 10-11 of `t`.
    pub open spec fn nametable_written(self, data: u8) -> PpuPtr {
        PpuPtr { temp: (self.temp & 0x73FF) | (((data & 3) as u16) << 10u16), ..self }
    }

    /// The VRAM address after one PPUDATA access.
    pub open spec fn advanced(self, step: u16) -> PpuPtr {
        PpuPtr { addr: ((self.addr as int + step as int) % 0x8000) as u16, ..self }
    }

    pub fn new() -> (r: PpuPtr)
        ensures
            r == PpuPtr::initial(),
    {
        PpuPtr { addr: 0, temp: 0, fine_x: 0, state: PpuPtrState::High }
    }

    pub fn get(&self) -> (r: u16)
        ensures
            r == self.addr,
    {
        self.addr
    }

    /// The current VRAM address, which then moves on by `step` (within 15 bits).
    pub fn get_and_inc(&mut self, step: u16) -> (r: u16)
        ensures
            r == old(self).addr,
            *final(self) == old(self).advanced(step),
    {
        let addr = self.addr;
        self.addr = ((self.addr as u32 + step as u32) % 0x8000) as u16;
        addr
    }

    pub fn write(&mut self, data: u8)
        ensures
            *final(self) == old(self).addr_written(data),
    {
        match self.state {
            PpuPtrState::High => {
                self.temp = (self.temp & 0x00FF) | (((data & 0x3F) as u16) << 8u16);
            },
            PpuPtrState::Low => {
                self.temp = (self.temp & 0xFF00) | (data as u16);
                self.addr = self.temp;
            },
        }
        self.state.toggle();
    }

    pub fn write_scroll(&mut self, data: u8)
        ensures
            *final(self) == old(self).scroll_written(data),
    {
        match self.state {
            PpuPtrState::High => {
                self.temp = (self.temp & 0x7FE0) | ((data >> 3u8) as u16);
                self.fine_x = data & 7;
            },
            PpuPtrState::Low => {
                self.temp = (self.temp & 0x0C1F) | (((data & 7) as u16) << 12u16) | (((data
                    & 0xF8) as u16) << 2u16);
            },
        }
        self.state.toggle();
    }

    pub fn write_nametable(&mut self, data: u8)
        ensures
            *final(self) == old(self).nametable_written(data),
    {
        self.temp = (self.temp & 0x73FF) | (((data & 3) as u16) << 10u16);
    }

    /// Resets the write toggle, as a PPUSTATUS read does.
    pub fn reset_latch(&mut self)
        ensures
            *final(self) == (PpuPtr { state: PpuPtrState::High, ..*old(self) }),
    {
        self.state = PpuPtrState::High;
    }

    pub fn reset(&mut self)
        ensures
            *final(self) == PpuPtr::initial(),
    {
        *self = PpuPtr::new();
    }
}

} // verus!
