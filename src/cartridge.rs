//! The iNES cartridge image: header checks and the split into PRG-ROM and
//! CHR-ROM.
use vstd::prelude::*;

verus! {

pub const PRG_ROM_PAGE_SIZE: usize = 16384;
pub const CHR_ROM_PAGE_SIZE: usize = 8192;
pub const HEADER_SIZE: usize = 16;
pub const TRAINER_SIZE: usize = 512;

#[derive(Clone, Copy, Debug, PartialEq, Eq, Structural)]
#[allow(non_camel_case_types)]
pub enum Mirroring {
    VERTICAL,
    HORIZONTAL,
    FOUR_SCREEN,
}

#[derive(Clone, Copy, Debug, PartialEq, Eq, Structural)]
pub enum RomError {
    /// The image does not begin with the iNES tag.
    NotINes,
    /// The header declares a format version other than 1.
    UnsupportedVersion,
    /// A mapper other than 0.
    UnsupportedMapper,
    /// PRG-ROM other than one or two 16 KiB banks, or CHR-ROM other than one
    /// 8 KiB bank.
    UnsupportedSize,
    /// The image is shorter than its header declares.
    Truncated,
}

pub struct Rom {
    pub prg_rom: Vec<u8>,
    pub chr_rom: Vec<u8>,
    pub mapper: u8,
    pub screen_mirroring: Mirroring,
}

pub open spec fn has_ines_tag(raw: Seq<u8>) -> bool {
    raw.len() >= 16 && raw[0] == 0x4E && raw[1] == 0x45 && raw[2] == 0x53 && raw[3] == 0x1A
}

pub open spec fn mapper_of(raw: Seq<u8>) -> u8 {
    (raw[7] & 0xF0) | (raw[6] >> 4)
}

pub open spec fn mirroring_of(flags6: u8) -> Mirroring {
    if flags6 & 0b1000 != 0 {
        Mirroring::FOUR_SCREEN
    } else if flags6 & 0b1 != 0 {
        Mirroring::VERTICAL
    } else {
        Mirroring::HORIZONTAL
    }
}

/// Where PRG-ROM starts: after the header and, when byte 6 bit 1 says so, the
/// trainer.
pub open spec fn prg_start(raw: Seq<u8>) -> int {
    16 + if raw[6] & 0b10 != 0 { 512int } else { 0int }
}

pub open spec fn prg_len(raw: Seq<u8>) -> int {
    raw[4] as int * 16384
}

pub open spec fn chr_len(raw: Seq<u8>) -> int {
    raw[5] as int * 8192
}

/// What parsing `raw` gives: the error, or (PRG-ROM, CHR-ROM, mirroring).
pub open spec fn parse_spec(raw: Seq<u8>) -> Result<(Seq<u8>, Seq<u8>, Mirroring), RomError> {
    if !has_ines_tag(raw) {
        Err(RomError::NotINes)
    } else if (raw[7] >> 2) & 0b11 != 0 {
        Err(RomError::UnsupportedVersion)
    } else if mapper_of(raw) != 0 {
        Err(RomError::UnsupportedMapper)
    } else if !(raw[4] == 1 || raw[4] == 2) || raw[5] != 1 {
        Err(RomError::UnsupportedSize)
    } else if raw.len() < prg_start(raw) + prg_len(raw) + chr_len(raw) {
        Err(RomError::Truncated)
    } else {
        let p = prg_start(raw);
        let c = p + prg_len(raw);
        Ok((raw.subrange(p, c), raw.subrange(c, c + chr_len(raw)), mirroring_of(raw[6])))
    }
}

fn copy_range(raw: &Vec<u8>, start: usize, len: usize) -> (r: Vec<u8>)
    requires
        start + len <= raw@.len(),
    ensures
        r@ == raw@.subrange(start as int, start + len),
{
    let mut out: Vec<u8> = Vec::with_capacity(len);
    let n = raw.len();
    let mut i: usize = 0;
    while i < len
        invariant
            n == raw@.len(),
            i <= len,
            start + len <= raw@.len(),
            out@ == raw@.subrange(start as int, start + i),
        decreases len - i,
    {
        out.push(raw[start + i]);
        i = i + 1;
    }
    out
}

impl Rom {
    pub open spec fn wf(&self) -> bool {
        &&& self.prg_rom@.len() == 0x4000 || self.prg_rom@.len() == 0x8000
        &&& self.chr_rom@.len() == 0x2000
    }

    /// Parses an iNES image.
    pub fn new(raw: &Vec<u8>) -> (r: Result<Rom, RomError>)
        ensures
            match (r, parse_spec(raw@)) {
                (Ok(rom), Ok((prg, chr, m))) => {
                    &&& rom.wf()
                    &&& rom.prg_rom@ == prg
                    &&& rom.chr_rom@ == chr
                    &&& rom.screen_mirroring == m
                    &&& rom.mapper == 0
                },
                (Err(e), Err(f)) => e == f,
                _ => false,
            },
    {
        if raw.len() < HEADER_SIZE || raw[0] != 0x4E || raw[1] != 0x45 || raw[2] != 0x53
            || raw[3] != 0x1A {
            return Err(RomError::NotINes);
        }
        if (raw[7] >> 2) & 0b11 != 0 {
            return Err(RomError::UnsupportedVersion);
        }
        let mapper = (raw[7] & 0xF0) | (raw[6] >> 4);
        if mapper != 0 {
            return Err(RomError::UnsupportedMapper);
        }
        if !(raw[4] == 1 || raw[4] == 2) || raw[5] != 1 {
            return Err(RomError::UnsupportedSize);
        }
        let four_screen = raw[6] & 0b1000 != 0;
        let vertical = raw[6] & 0b1 != 0;
        let screen_mirroring = if four_screen {
            Mirroring::FOUR_SCREEN
        } else if vertical {
            Mirroring::VERTICAL
        } else {
            Mirroring::HORIZONTAL
        };
        let prg_size = raw[4] as usize * PRG_ROM_PAGE_SIZE;
        let chr_size = raw[5] as usize * CHR_ROM_PAGE_SIZE;
        let prg_start = HEADER_SIZE + if raw[6] & 0b10 != 0 { TRAINER_SIZE } else { 0 };
        let chr_start = prg_start + prg_size;
        if raw.len() < chr_start + chr_size {
            return Err(RomError::Truncated);
        }
        let prg_rom = copy_range(raw, prg_start, prg_size);
        let chr_rom = copy_range(raw, chr_start, chr_size);
        Ok(Rom { prg_rom, chr_rom, mapper, screen_mirroring })
    }
}

} // verus!
