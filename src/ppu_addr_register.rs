//! The PPU address register ($2006): a 14-bit VRAM pointer filled by two
//! writes, high byte first.
use vstd::prelude::*;

verus! {

#[derive(Clone, Copy, Debug, PartialEq, Eq, Structural)]
pub struct AddrRegister {
    /// The pointer; always below 0x4000.
    pub value: u16,
    /// Whether the next write sets the high byte.
    pub hi_ptr: bool,
}

/// The pointer after one write of `data`.
pub open spec fn addr_after_write(value: u16, hi_ptr: bool, data: u8) -> u16 {
    if hi_ptr {
        (((data & 0x3F) as u16) << 8) | (value & 0x00FF)
    } else {
        (value & 0x3F00) | (data as u16)
    }
}

/// The pointer moved forward by `inc`, wrapping within 0x0000..=0x3FFF.
pub open spec fn addr_after_increment(value: u16, inc: u8) -> u16 {
    ((value + inc) % 0x4000) as u16
}

impl AddrRegister {
    pub open spec fn wf(&self) -> bool {
        self.value <= 0x3FFF
    }

    pub fn new() -> (r: Self)
        ensures
            r.wf(),
            r.value == 0,
            r.hi_ptr,
    {
        AddrRegister { value: 0, hi_ptr: true }
    }

    /// Writes one byte: the high byte (its top two bits dropped) or the low
    /// byte, as the latch says; then flips the latch.
    pub fn update(&mut self, data: u8)
        requires
            old(self).wf(),
        ensures
            final(self).wf(),
            final(self).value == addr_after_write(old(self).value, old(self).hi_ptr, data),
            final(self).hi_ptr == !old(self).hi_ptr,
    {
        let v = self.value;
        let nv: u16;
        if self.hi_ptr {
            nv = (((data & 0x3F) as u16) << 8) | (v & 0x00FF);
            assert(nv <= 0x3FFF) by (bit_vector)
                requires
                    nv == (((data & 0x3F) as u16) << 8) | (v & 0x00FF),
            ;
        } else {
            nv = (v & 0x3F00) | (data as u16);
            assert(nv <= 0x3FFF) by (bit_vector)
                requires
                    nv == (v & 0x3F00) | (data as u16),
            ;
        }
        self.value = nv;
        self.hi_ptr = !self.hi_ptr;
    }

    /// Moves the pointer forward by `inc`, wrapping at 0x3FFF.
    pub fn increment(&mut self, inc: u8)
        requires
            old(self).wf(),
        ensures
            final(self).wf(),
            final(self).value == addr_after_increment(old(self).value, inc),
            final(self).hi_ptr == old(self).hi_ptr,
    {
        let sum: u16 = self.value + inc as u16;
        self.value = sum % 0x4000;
    }

    pub fn reset_latch(&mut self)
        ensures
            final(self).value == old(self).value,
            final(self).hi_ptr,
    {
        self.hi_ptr = true;
    }

    pub fn get(&self) -> (r: u16)
        ensures
            r == self.value,
    {
        self.value
    }
}

/// Two writes from the high-byte position set the pointer to the high byte's
/// low six bits followed by the low byte, and leave the latch where it began;
/// so the same pair written again gives the same pointer.
pub proof fn lemma_two_writes_set_pointer(value: u16, hi: u8, lo: u8)
    ensures
        ({
            let first = addr_after_write(value, true, hi);
            let second = addr_after_write(first, false, lo);
            &&& second == (((hi & 0x3F) as u16) << 8) | (lo as u16)
            &&& addr_after_write(addr_after_write(second, true, hi), false, lo) == second
        }),
{
    let first = addr_after_write(value, true, hi);
    let second = addr_after_write(first, false, lo);
    assert(second == (((hi & 0x3F) as u16) << 8) | (lo as u16)) by (bit_vector)
        requires
            first == (((hi & 0x3F) as u16) << 8) | (value & 0x00FF),
            second == (first & 0x3F00) | (lo as u16),
    ;
    let third = addr_after_write(second, true, hi);
    let fourth = addr_after_write(third, false, lo);
    assert(fourth == second) by (bit_vector)
        requires
            second == (((hi & 0x3F) as u16) << 8) | (lo as u16),
            third == (((hi & 0x3F) as u16) << 8) | (second & 0x00FF),
            fourth == (third & 0x3F00) | (lo as u16),
    ;
}

} // verus!
