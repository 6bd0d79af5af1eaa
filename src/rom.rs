use vstd::prelude::*;
use vstd::slice::{slice_subrange, slice_to_vec};

verus! {

pub const INES_HEADER_SIZE: usize = 0x0010;

pub const PRG_BANK_SIZE: usize = 0x4000;

pub const CHR_BANK_SIZE: usize = 0x2000;

pub const TRAINER_SIZE: usize = 0x0200;

/// How the four logical nametables map onto the two physical ones.
#[derive(Clone, Copy, Debug, PartialEq, Eq, Structural)]
pub enum Mirroring {
    /// Tables 0 and 1 share one physical table, 2 and 3 the other.
    Horizontal,
    /// Tables 0 and 2 share one physical table, 1 and 3 the other.
    Vertical,
}

/// Why an image is not a usable iNES cartridge.
#[derive(Clone, Copy, Debug, PartialEq, Eq, Structural)]
pub enum RomError {
    /// Shorter than the 16-byte header.
    TooShort,
    /// The header does not start with `4E 45 53 1A`.
    BadMagic,
    /// The header claims more PRG or CHR banks than the image holds.
    Truncated,
}

pub open spec fn has_magic(rom: Seq<u8>) -> bool {
    rom[0] == 0x4E && rom[1] == 0x45 && rom[2] == 0x53 && rom[3] == 0x1A
}

pub open spec fn trainer_len(rom: Seq<u8>) -> int {
    if rom[6] & 0x04 != 0 {
        TRAINER_SIZE as int
    } else {
        0
    }
}

pub open spec fn prg_start(rom: Seq<u8>) -> int {
    INES_HEADER_SIZE as int + trainer_len(rom)
}

pub open spec fn prg_end(rom: Seq<u8>) -> int {
    prg_start(rom) + rom[4] as int * PRG_BANK_SIZE as int
}

pub open spec fn chr_end(rom: Seq<u8>) -> int {
    prg_end(rom) + rom[5] as int * CHR_BANK_SIZE as int
}

/// The error an image gets, if any.
pub open spec fn ines_error(rom: Seq<u8>) -> Option<RomError> {
    if rom.len() < INES_HEADER_SIZE {
        Some(RomError::TooShort)
    } else if !has_magic(rom) {
        Some(RomError::BadMagic)
    } else if rom.len() < chr_end(rom) {
        Some(RomError::Truncated)
    } else {
        None
    }
}

pub open spec fn ines_prg(rom: Seq<u8>) -> Seq<u8> {
    rom.subrange(prg_start(rom), prg_end(rom))
}

pub open spec fn ines_chr(rom: Seq<u8>) -> Seq<u8> {
    rom.subrange(prg_end(rom), chr_end(rom))
}

pub open spec fn ines_mirroring(rom: Seq<u8>) -> Mirroring {
    if rom[6] & 0x01 != 0 {
        Mirroring::Vertical
    } else {
        Mirroring::Horizontal
    }
}

/// Mapper number: low nibble from flags 6, high nibble from flags 7.
pub open spec fn ines_mapper(rom: Seq<u8>) -> u8 {
    (rom[7] & 0xF0) | (rom[6] >> 4u8)
}

/// Program ROM, as laid out in the cartridge.
pub struct ProgramRom {
    pub data: Vec<u8>,
}

impl ProgramRom {
    pub fn new(data: &[u8]) -> (r: ProgramRom)
        ensures
            r.data@ == data@,
    {
        ProgramRom { data: slice_to_vec(data) }
    }

    pub fn read(&self, addr: u16) -> (r: u8)
        requires
            (addr as int) < self.data@.len(),
        ensures
            r == self.data@[addr as int],
    {
        self.data[addr as usize]
    }
}

/// Pattern data of the cartridge; empty when the cartridge has CHR RAM instead.
pub struct CharacterRom {
    pub data: Vec<u8>,
}

impl CharacterRom {
    pub fn new(data: &[u8]) -> (r: CharacterRom)
        ensures
            r.data@ == data@,
    {
        CharacterRom { data: slice_to_vec(data) }
    }
}

/// What an iNES image holds for the console.
pub struct Cartridge {
    pub prg: ProgramRom,
    pub chr: CharacterRom,
    pub mirroring: Mirroring,
    pub mapper: u8,
}

/// Splits an iNES 1.0 image into its parts.
pub fn parse(rom: &[u8]) -> (r: Result<Cartridge, RomError>)
    ensures
        ines_error(rom@) is Some <==> r is Err,
        r matches Err(e) ==> ines_error(rom@) == Some(e),
        r matches Ok(c) ==> c.prg.data@ == ines_prg(rom@) && c.chr.data@ == ines_chr(rom@)
            && c.mirroring == ines_mirroring(rom@) && c.mapper == ines_mapper(rom@),
{
    if rom.len() < INES_HEADER_SIZE {
        return Err(RomError::TooShort);
    }
    if !(rom[0] == 0x4E && rom[1] == 0x45 && rom[2] == 0x53 && rom[3] == 0x1A) {
        return Err(RomError::BadMagic);
    }
    let trainer: usize = if rom[6] & 0x04 != 0 {
        TRAINER_SIZE
    } else {
        0
    };
    let prg_start: usize = INES_HEADER_SIZE + trainer;
    let prg_end: usize = prg_start + rom[4] as usize * PRG_BANK_SIZE;
    let chr_end: usize = prg_end + rom[5] as usize * CHR_BANK_SIZE;
    if rom.len() < chr_end {
        return Err(RomError::Truncated);
    }
    let mirroring = if rom[6] & 0x01 != 0 {
        Mirroring::Vertical
    } else {
        Mirroring::Horizontal
    };
    Ok(
        Cartridge {
            prg: ProgramRom::new(slice_subrange(rom, prg_start, prg_end)),
            chr: CharacterRom::new(slice_subrange(rom, prg_end, chr_end)),
            mirroring,
            mapper: (rom[7] & 0xF0) | (rom[6] >> 4u8),
        },
    )
}

/// The program and character data of an iNES image, or `None` where the image is
/// rejected.
pub fn load(rom: Vec<u8>) -> (r: Option<(ProgramRom, CharacterRom)>)
    ensures
        r is None <==> ines_error(rom@) is Some,
        r matches Some(pc) ==> pc.0.data@ == ines_prg(rom@) && pc.1.data@ == ines_chr(rom@),
{
    match parse(rom.as_slice()) {
        Ok(c) => Some((c.prg, c.chr)),
        Err(_) => None,
    }
}

} // verus!
