use vstd::prelude::*;

pub mod cpu;
pub mod cpu_bus;
pub mod cpu_proofs;
pub mod nes;
pub mod opcodes;
pub mod ppu;
pub mod ppu_regs;
pub mod ram;
pub mod render;
pub mod rom;
pub mod status;
pub mod wram;

verus! {

} // verus!
