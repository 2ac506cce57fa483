//! Interrupt descriptors: where the handler's address is, which status bits
//! the pushed copy of P carries, and what entry costs.
use vstd::prelude::*;

verus! {

#[derive(Clone, Copy, Debug, PartialEq, Eq, Structural)]
pub enum InterruptType {
    NMI,
}

#[derive(Clone, Copy, Debug, PartialEq, Eq, Structural)]
pub struct Interrupt {
    pub itype: InterruptType,
    pub vector_addr: u16,
    /// The B and U bits of the copy of P that entry pushes.
    pub b_flag_mask: u8,
    pub cpu_cycles: u8,
}

pub open spec fn nmi_spec() -> Interrupt {
    Interrupt { itype: InterruptType::NMI, vector_addr: 0xfffa, b_flag_mask: 0b0010_0000, cpu_cycles: 2 }
}

/// The non-maskable interrupt: vector at 0xFFFA, pushes P with B clear and U
/// set, costs two CPU cycles.
pub fn nmi() -> (r: Interrupt)
    ensures
        r == nmi_spec(),
{
    Interrupt { itype: InterruptType::NMI, vector_addr: 0xfffa, b_flag_mask: 0b0010_0000, cpu_cycles: 2 }
}

} // verus!
