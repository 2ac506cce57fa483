//! The PPU control register ($2000) as a bit-packed value.
use vstd::prelude::*;

verus! {

pub const NAMETABLE1: u8 = 0b0000_0001;
pub const NAMETABLE2: u8 = 0b0000_0010;
pub const VRAM_ADD_INCREMENT: u8 = 0b0000_0100;
pub const SPRITE_PATTERN_ADDR: u8 = 0b0000_1000;
pub const BACKGROUND_PATTERN_ADDR: u8 = 0b0001_0000;
pub const SPRITE_SIZE: u8 = 0b0010_0000;
pub const MASTER_SLAVE_SELECT: u8 = 0b0100_0000;
pub const GENERATE_NMI: u8 = 0b1000_0000;

/// The control register: one byte whose bits select nametable, address
/// increment, pattern tables, sprite size and NMI generation.
#[derive(Clone, Copy, Debug, PartialEq, Eq, Structural)]
pub struct ControlRegister {
    pub bits: u8,
}

/// Whether the bits of `mask` are all set in `bits`.
pub open spec fn has_flag(bits: u8, mask: u8) -> bool {
    bits & mask == mask
}

impl ControlRegister {
    pub fn new() -> (r: Self)
        ensures
            r.bits == 0,
    {
        ControlRegister { bits: 0 }
    }

    /// The base nametable address selected by the two low bits.
    pub fn nametable_addr(&self) -> (r: u16)
        ensures
            r == 0x2000 + 0x400 * (self.bits & 0b11) as u16,
    {
        let b = self.bits;
        let sel = b & 0b11;
        assert(sel <= 3) by (bit_vector)
            requires
                sel == b & 0b11,
        ;
        if sel == 0 {
            0x2000
        } else if sel == 1 {
            0x2400
        } else if sel == 2 {
            0x2800
        } else {
            0x2c00
        }
    }

    /// How far the VRAM address moves after each data access: 1 or 32.
    pub fn vram_addr_increment(&self) -> (r: u8)
        ensures
            r == (if has_flag(self.bits, VRAM_ADD_INCREMENT) { 32u8 } else { 1u8 }),
    {
        if self.bits & VRAM_ADD_INCREMENT != VRAM_ADD_INCREMENT {
            1
        } else {
            32
        }
    }

    /// Base address of the sprite pattern table.
    pub fn sprt_pattern_addr(&self) -> (r: u16)
        ensures
            r == (if has_flag(self.bits, SPRITE_PATTERN_ADDR) { 0x1000u16 } else { 0u16 }),
    {
        if self.bits & SPRITE_PATTERN_ADDR != SPRITE_PATTERN_ADDR {
            0
        } else {
            0x1000
        }
    }

    /// Base address of the background pattern table.
    pub fn bknd_pattern_addr(&self) -> (r: u16)
        ensures
            r == (if has_flag(self.bits, BACKGROUND_PATTERN_ADDR) { 0x1000u16 } else { 0u16 }),
    {
        if self.bits & BACKGROUND_PATTERN_ADDR != BACKGROUND_PATTERN_ADDR {
            0
        } else {
            0x1000
        }
    }

    /// Sprite height in pixels: 8 or 16.
    pub fn sprite_size(&self) -> (r: u8)
        ensures
            r == (if has_flag(self.bits, SPRITE_SIZE) { 16u8 } else { 8u8 }),
    {
        if self.bits & SPRITE_SIZE != SPRITE_SIZE {
            8
        } else {
            16
        }
    }

    /// The master/slave select bit, as 0 or 1.
    pub fn master_slave_select(&self) -> (r: u8)
        ensures
            r == (if has_flag(self.bits, MASTER_SLAVE_SELECT) { 1u8 } else { 0u8 }),
    {
        if self.bits & MASTER_SLAVE_SELECT != MASTER_SLAVE_SELECT {
            0
        } else {
            1
        }
    }

    /// Whether an NMI is raised at the start of VBlank.
    pub fn generate_vblank_nmi(&self) -> (r: bool)
        ensures
            r == has_flag(self.bits, GENERATE_NMI),
    {
        self.bits & GENERATE_NMI == GENERATE_NMI
    }

    /// Replaces the whole register by `data`.
    pub fn update(&mut self, data: u8)
        ensures
            final(self).bits == data,
    {
        self.bits = data;
    }
}

} // verus!
