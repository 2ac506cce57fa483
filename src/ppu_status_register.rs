//! The PPU status register ($2002): VBlank, sprite-0 hit, sprite overflow.
use vstd::prelude::*;
use crate::flags::{with_flag, set_flag};

verus! {

pub const SPRITE_OVERFLOW: u8 = 0b0010_0000;
pub const SPRITE_ZERO_HIT: u8 = 0b0100_0000;
pub const VBLANK_STARTED: u8 = 0b1000_0000;

#[derive(Clone, Copy, Debug, PartialEq, Eq, Structural)]
pub struct StatusRegister {
    pub bits: u8,
}

pub open spec fn in_vblank(bits: u8) -> bool {
    bits & VBLANK_STARTED == VBLANK_STARTED
}

impl StatusRegister {
    pub fn new() -> (r: Self)
        ensures
            r.bits == 0,
    {
        StatusRegister { bits: 0 }
    }

    pub fn set_vblank_status(&mut self, status: bool)
        ensures
            final(self).bits == with_flag(old(self).bits, VBLANK_STARTED, status),
    {
        self.bits = set_flag(self.bits, VBLANK_STARTED, status);
    }

    pub fn set_sprite_zero_hit(&mut self, status: bool)
        ensures
            final(self).bits == with_flag(old(self).bits, SPRITE_ZERO_HIT, status),
    {
        self.bits = set_flag(self.bits, SPRITE_ZERO_HIT, status);
    }

    pub fn set_sprite_overflow(&mut self, status: bool)
        ensures
            final(self).bits == with_flag(old(self).bits, SPRITE_OVERFLOW, status),
    {
        self.bits = set_flag(self.bits, SPRITE_OVERFLOW, status);
    }

    pub fn reset_vblank_status(&mut self)
        ensures
            final(self).bits == with_flag(old(self).bits, VBLANK_STARTED, false),
    {
        self.bits = set_flag(self.bits, VBLANK_STARTED, false);
    }

    pub fn is_in_vblank(&self) -> (r: bool)
        ensures
            r == in_vblank(self.bits),
    {
        self.bits & VBLANK_STARTED == VBLANK_STARTED
    }

    pub fn snapshot(&self) -> (r: u8)
        ensures
            r == self.bits,
    {
        self.bits
    }
}

} // verus!
