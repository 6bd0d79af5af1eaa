use vstd::prelude::*;

use crate::cpu::{read_word, reset_regs, step, Cpu, CpuView};
use crate::cpu_bus::{BusView, CpuBus, WRAM_SIZE};
use crate::ppu::{power_on, ticks, Ppu, PpuView};
use crate::ram::Ram;
use crate::rom::{ines_chr, ines_error, ines_mapper, ines_mirroring, ines_prg, parse, Cartridge, RomError};

verus! {

/// PPU dots per CPU cycle.
pub const DOTS_PER_CYCLE: u32 = 3;

/// Why a console could not be built from an image.
#[derive(Clone, Copy, Debug, PartialEq, Eq, Structural)]
pub enum NesError {
    Rom(RomError),
    /// Only mapper 0 (NROM) is supported.
    UnsupportedMapper(u8),
}

/// The console state after power-on and reset, with the cartridge's ROMs.
pub open spec fn booted(prg: Seq<u8>, ppu: PpuView) -> CpuView {
    let s = CpuView {
        regs: reset_regs(0),
        bus: BusView { wram: Seq::new(WRAM_SIZE as nat, |i: int| 0u8), prg, ppu, dma_pending: false },
        nmi: false,
        irq: false,
    };
    let (t, pc) = read_word(s, 0xFFFC);
    CpuView { regs: reset_regs(pc), nmi: false, irq: false, ..t }
}

/// One console step: a CPU step, three PPU dots per CPU cycle, then an NMI the
/// PPU raised is handed to the CPU. Also tells whether a frame was finished.
pub open spec fn console_step(s: CpuView) -> (CpuView, bool) {
    let (c, cycles) = step(s);
    let p = ticks(c.bus.ppu, (cycles * DOTS_PER_CYCLE) as nat);
    let bus = BusView { ppu: PpuView { nmi_line: false, frame_ready: false, ..p }, ..c.bus };
    (CpuView { bus, nmi: c.nmi || p.nmi_line, ..c }, p.frame_ready)
}

/// The console: a CPU that owns the bus, which owns work RAM, program ROM and
/// the PPU.
pub struct Nes {
    pub cpu: Cpu,
}

impl Nes {
    /// Powers on a console with a cartridge and resets it.
    pub fn from_cartridge(cart: Cartridge) -> (r: Result<Nes, NesError>)
        ensures
            r is Err <==> cart.mapper != 0,
            r matches Err(e) ==> e == NesError::UnsupportedMapper(cart.mapper),
            r matches Ok(n) ==> n.cpu@ == booted(cart.prg.data@, power_on(cart.chr.data@, cart.mirroring)),
            r matches Ok(n) ==> n.cpu@.bus.wf(),
    {
        if cart.mapper != 0 {
            return Err(NesError::UnsupportedMapper(cart.mapper));
        }
        let ppu = Ppu::new(cart.chr, cart.mirroring);
        let wram = Ram::new(WRAM_SIZE);
        let bus = CpuBus::new(wram, cart.prg, ppu);
        let mut cpu = Cpu::new(bus);
        cpu.reset();
        Ok(Nes { cpu })
    }

    /// Powers on a console with an iNES image and resets it.
    pub fn load(rom: &[u8]) -> (r: Result<Nes, NesError>)
        ensures
            ines_error(rom@) matches Some(e) ==> r == Err::<Nes, NesError>(NesError::Rom(e)),
            ines_error(rom@) is None && ines_mapper(rom@) != 0 ==> r == Err::<Nes, NesError>(
                NesError::UnsupportedMapper(ines_mapper(rom@)),
            ),
            ines_error(rom@) is None && ines_mapper(rom@) == 0 ==> r is Ok,
            r matches Ok(n) ==> n.cpu@ == booted(
                ines_prg(rom@),
                power_on(ines_chr(rom@), ines_mirroring(rom@)),
            ),
            r matches Ok(n) ==> n.cpu@.bus.wf(),
    {
        match parse(rom) {
            Ok(cart) => Self::from_cartridge(cart),
            Err(e) => Err(NesError::Rom(e)),
        }
    }

    /// Runs one console step; true when the PPU finished a frame during it.
    pub fn step(&mut self) -> (r: bool)
        requires
            old(self).cpu@.bus.wf(),
        ensures
            (final(self).cpu@, r) == console_step(old(self).cpu@),
            final(self).cpu@.bus.wf(),
    {
        let cycles = self.cpu.run();
        assert(cycles <= 0x102 + 513) by {
            reveal(step);
            reveal(crate::cpu::instruction_step);
        }
        self.cpu.bus.ppu.run(cycles * DOTS_PER_CYCLE);
        if self.cpu.bus.ppu.take_nmi() {
            self.cpu.nmi();
        }
        self.cpu.bus.ppu.take_frame_ready()
    }

    /// The last frame rendered: 256x240 RGB bytes, row-major from the top left.
    pub fn frame(&self) -> (r: &[u8])
        ensures
            r@ == self.cpu.bus.ppu.frame@,
    {
        self.cpu.bus.ppu.frame.as_slice()
    }
}

} // verus!
