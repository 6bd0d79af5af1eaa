use vstd::prelude::*;

use crate::ppu::{oam_dma, reg_read, reg_write, Ppu, PpuView, OAM_SIZE};
use crate::ppu_regs::{reg_of, RegType};
use crate::ram::Ram;
use crate::rom::ProgramRom;

verus! {

pub const WRAM_SIZE: usize = 0x0800;

pub const OAM_DMA_ADDR: u16 = 0x4014;

/// CPU cycles that an OAM DMA takes.
pub const OAM_DMA_CYCLES: u32 = 513;

/// What the CPU sees through its bus, as values.
pub ghost struct BusView {
    pub wram: Seq<u8>,
    pub prg: Seq<u8>,
    pub ppu: PpuView,
    /// An OAM DMA happened and its stall is still owed.
    pub dma_pending: bool,
}

impl BusView {
    pub open spec fn wf(self) -> bool {
        self.wram.len() == WRAM_SIZE && self.ppu.wf()
    }
}

/// The byte of program ROM at a CPU address of `$8000..$FFFF`; a 16 KiB ROM
/// repeats to fill the 32 KiB window.
pub open spec fn prg_byte(prg: Seq<u8>, addr: u16) -> u8 {
    if prg.len() == 0 {
        0
    } else {
        prg[(addr as int - 0x8000) % prg.len() as int]
    }
}

/// A CPU read: the new bus state and the byte read. Only PPU registers change
/// on a read; unmapped and I/O addresses read as 0.
#[verifier::opaque]
pub open spec fn bus_read(b: BusView, addr: u16) -> (BusView, u8) {
    if addr < 0x2000 {
        (b, b.wram[addr as int % WRAM_SIZE as int])
    } else if addr < 0x4000 {
        let (p, r) = reg_read(b.ppu, reg_of(addr));
        (BusView { ppu: p, ..b }, r)
    } else if addr < 0x8000 {
        (b, 0)
    } else {
        (b, prg_byte(b.prg, addr))
    }
}

/// The first `n` bytes of page `page`, read one after another as the CPU reads
/// them, and the bus state after those reads.
pub open spec fn dma_reads(b: BusView, page: u8, n: nat) -> (BusView, Seq<u8>)
    decreases n,
{
    if n == 0 {
        (b, Seq::empty())
    } else {
        let (b1, bytes) = dma_reads(b, page, (n - 1) as nat);
        let (b2, v) = bus_read(b1, (page as int * 0x100 + n - 1) as u16);
        (b2, bytes.push(v))
    }
}

/// A CPU write. ROM and unmapped addresses ignore writes; a write to `$4014`
/// copies page `data` into OAM.
#[verifier::opaque]
pub open spec fn bus_write(b: BusView, addr: u16, data: u8) -> BusView {
    if addr < 0x2000 {
        BusView { wram: b.wram.update(addr as int % WRAM_SIZE as int, data), ..b }
    } else if addr < 0x4000 {
        BusView { ppu: reg_write(b.ppu, reg_of(addr), data), ..b }
    } else if addr == OAM_DMA_ADDR {
        let (b1, bytes) = dma_reads(b, data, OAM_SIZE as nat);
        BusView { ppu: oam_dma(b1.ppu, bytes), dma_pending: true, ..b1 }
    } else {
        b
    }
}

/// Routes CPU reads and writes to work RAM, PPU registers and program ROM.
pub struct CpuBus {
    pub wram: Ram,
    pub prog_rom: ProgramRom,
    pub ppu: Ppu,
    pub dma_pending: bool,
}

impl View for CpuBus {
    type V = BusView;

    open spec fn view(&self) -> BusView {
        BusView {
            wram: self.wram@,
            prg: self.prog_rom.data@,
            ppu: self.ppu@,
            dma_pending: self.dma_pending,
        }
    }
}

impl CpuBus {
    pub fn new(wram: Ram, prog_rom: ProgramRom, ppu: Ppu) -> (r: CpuBus)
        requires
            wram@.len() == WRAM_SIZE,
            ppu@.wf(),
        ensures
            r@ == (BusView { wram: wram@, prg: prog_rom.data@, ppu: ppu@, dma_pending: false }),
            r@.wf(),
    {
        CpuBus { wram, prog_rom, ppu, dma_pending: false }
    }

    fn prg_read(&self, addr: u16) -> (r: u8)
        requires
            addr >= 0x8000,
        ensures
            r == prg_byte(self@.prg, addr),
    {
        let len = self.prog_rom.data.len();
        if len == 0 {
            0
        } else {
            self.prog_rom.data[(addr as usize - 0x8000) % len]
        }
    }

    pub fn read_by_cpu(&mut self, addr: u16) -> (r: u8)
        requires
            old(self)@.wf(),
        ensures
            (final(self)@, r) == bus_read(old(self)@, addr),
            final(self)@.wf(),
    {
        proof {
            reveal(bus_read);
        }
        if addr < 0x2000 {
            self.wram.read(addr % 0x0800)
        } else if addr < 0x4000 {
            self.ppu.read(RegType::from_addr(addr))
        } else if addr < 0x8000 {
            0
        } else {
            self.prg_read(addr)
        }
    }

    /// Reads page `page` byte by byte, as the CPU would.
    fn dma_page(&mut self, page: u8) -> (r: Vec<u8>)
        requires
            old(self)@.wf(),
        ensures
            (final(self)@, r@) == dma_reads(old(self)@, page, OAM_SIZE as nat),
            final(self)@.wf(),
    {
        let mut r: Vec<u8> = Vec::new();
        let mut i: u16 = 0;
        while i < 0x100
            invariant
                self@.wf(),
                i <= 0x100,
                (self@, r@) == dma_reads(old(self)@, page, i as nat),
            decreases 0x100 - i,
        {
            let v = self.read_by_cpu(page as u16 * 0x100 + i);
            r.push(v);
            i = i + 1;
        }
        r
    }

    pub fn write_by_cpu(&mut self, addr: u16, data: u8)
        requires
            old(self)@.wf(),
        ensures
            final(self)@ == bus_write(old(self)@, addr, data),
            final(self)@.wf(),
    {
        proof {
            reveal(bus_write);
        }
        if addr < 0x2000 {
            self.wram.write(addr % 0x0800, data);
        } else if addr < 0x4000 {
            self.ppu.write(RegType::from_addr(addr), data);
        } else if addr == OAM_DMA_ADDR {
            let src = self.dma_page(data);
            assert(src@.len() == OAM_SIZE) by {
                lemma_dma_reads_len(old(self)@, data, OAM_SIZE as nat);
            }
            self.ppu.write_oam_dma(&src);
            self.dma_pending = true;
        }
    }

    /// Takes the stall owed for an OAM DMA, clearing it.
    pub fn take_dma_stall(&mut self) -> (r: u32)
        ensures
            r == if old(self)@.dma_pending {
                OAM_DMA_CYCLES
            } else {
                0
            },
            final(self)@ == (BusView { dma_pending: false, ..old(self)@ }),
    {
        let r = if self.dma_pending {
            OAM_DMA_CYCLES
        } else {
            0
        };
        self.dma_pending = false;
        r
    }
}

/// Reading work RAM (or a mirror of it) changes nothing.
pub proof fn lemma_wram_read(b: BusView, addr: u16)
    requires
        addr < 0x2000,
    ensures
        bus_read(b, addr) == (b, b.wram[addr as int % WRAM_SIZE as int]),
{
    reveal(bus_read);
}

proof fn lemma_dma_reads_len(b: BusView, page: u8, n: nat)
    ensures
        dma_reads(b, page, n).1.len() == n,
    decreases n,
{
    if n > 0 {
        lemma_dma_reads_len(b, page, (n - 1) as nat);
    }
}

/// Reading program ROM changes nothing.
pub proof fn lemma_prg_read(b: BusView, addr: u16)
    requires
        addr >= 0x8000,
    ensures
        bus_read(b, addr) == (b, prg_byte(b.prg, addr)),
{
    reveal(bus_read);
}

/// Writing work RAM (or a mirror of it) changes that one byte.
pub proof fn lemma_wram_write(b: BusView, addr: u16, data: u8)
    requires
        addr < 0x2000,
    ensures
        bus_write(b, addr, data) == (BusView { wram: b.wram.update(addr as int % WRAM_SIZE as int, data), ..b }),
{
    reveal(bus_write);
}

} // verus!
