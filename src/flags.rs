//! Setting and clearing bits of a one-byte register.
use vstd::prelude::*;

verus! {

/// `bits` with the bits of `mask` set when `on`, cleared otherwise.
pub open spec fn with_flag(bits: u8, mask: u8, on: bool) -> u8 {
    if on {
        bits | mask
    } else {
        bits & !mask
    }
}

pub fn set_flag(bits: u8, mask: u8, on: bool) -> (r: u8)
    ensures
        r == with_flag(bits, mask, on),
{
    if on {
        bits | mask
    } else {
        bits & !mask
    }
}

} // verus!
