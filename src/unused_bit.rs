//! The status register's unused bit 5 (U) reads as 1 at every instruction
//! boundary: no instruction, and no interrupt entry, clears it.
use vstd::prelude::*;
use crate::bus::BusError;
use crate::flags::with_flag;
use crate::instructions::{
    CpuView, rd, wr, same_registers, pulled_status, instruction, instruction_0, instruction_1,
    instruction_2, instruction_3, instruction_4, instruction_5, instruction_6, instruction_7,
    execute_spec, interrupt_entry, CARRY, ZERO, INTERRUPT_DISABLE, DECIMAL_MODE, BREAK, BREAK2,
    OVERFLOW, NEGATIVE,
};
use crate::interrupts::Interrupt;

verus! {

/// Whether the state that a step gives (if any) has U set.
pub open spec fn keeps_unused_bit<T>(r: Result<(CpuView, T), BusError>) -> bool {
    match r {
        Ok((t, _)) => t.p & BREAK2 == BREAK2,
        Err(_) => true,
    }
}

pub open spec fn keeps_registers<T>(r: Result<(CpuView, T), BusError>, s: CpuView) -> bool {
    match r {
        Ok((t, _)) => same_registers(t, s),
        Err(_) => true,
    }
}

pub broadcast proof fn lemma_flag_keeps_unused_bit(p: u8, m: u8, on: bool)
    requires
        m == CARRY || m == ZERO || m == INTERRUPT_DISABLE || m == DECIMAL_MODE || m == BREAK
            || m == OVERFLOW || m == NEGATIVE,
    ensures
        #[trigger] with_flag(p, m, on) & BREAK2 == p & BREAK2,
{
    let r = with_flag(p, m, on);
    assert(r & 0x20 == p & 0x20) by (bit_vector)
        requires
            m == 1 || m == 2 || m == 4 || m == 8 || m == 16 || m == 64 || m == 128,
            r == (if on { p | m } else { p & !m }),
    ;
}

pub broadcast proof fn lemma_pulled_status_sets_unused_bit(v: u8)
    ensures
        #[trigger] pulled_status(v) & BREAK2 == BREAK2,
{
    let r = pulled_status(v);
    assert(r & 0x20 == 0x20) by (bit_vector)
        requires
            r == (v & 0b1110_1111) | 0b0010_0000,
    ;
}

pub broadcast proof fn lemma_rd_keeps_registers(s: CpuView, addr: u16)
    ensures
        keeps_registers(#[trigger] rd(s, addr), s),
{
    reveal(rd);
}

pub broadcast proof fn lemma_wr_keeps_registers(s: CpuView, addr: u16, v: u8)
    ensures
        keeps_registers(#[trigger] wr(s, addr, v), s),
{
    reveal(wr);
}

pub broadcast group group_unused_bit {
    lemma_flag_keeps_unused_bit,
    lemma_pulled_status_sets_unused_bit,
    lemma_rd_keeps_registers,
    lemma_wr_keeps_registers,
}

proof fn lemma_part_0(s: CpuView, code: u8)
    requires
        s.p & BREAK2 == BREAK2,
    ensures
        keeps_unused_bit(instruction_0(s, code)),
{
    broadcast use group_unused_bit;
}

proof fn lemma_part_1(s: CpuView, code: u8)
    requires
        s.p & BREAK2 == BREAK2,
    ensures
        keeps_unused_bit(instruction_1(s, code)),
{
    broadcast use group_unused_bit;
}

proof fn lemma_part_2(s: CpuView, code: u8)
    requires
        s.p & BREAK2 == BREAK2,
    ensures
        keeps_unused_bit(instruction_2(s, code)),
{
    broadcast use group_unused_bit;
}

proof fn lemma_part_3(s: CpuView, code: u8)
    requires
        s.p & BREAK2 == BREAK2,
    ensures
        keeps_unused_bit(instruction_3(s, code)),
{
    broadcast use group_unused_bit;
}

proof fn lemma_part_4(s: CpuView, code: u8)
    requires
        s.p & BREAK2 == BREAK2,
    ensures
        keeps_unused_bit(instruction_4(s, code)),
{
    broadcast use group_unused_bit;
}

proof fn lemma_part_5(s: CpuView, code: u8)
    requires
        s.p & BREAK2 == BREAK2,
    ensures
        keeps_unused_bit(instruction_5(s, code)),
{
    broadcast use group_unused_bit;
}

proof fn lemma_part_6_0(s: CpuView, code: u8)
    requires
        s.p & BREAK2 == BREAK2,
        0xC0 <= code <= 0xC7,
    ensures
        keeps_unused_bit(instruction_6(s, code)),
{
    broadcast use group_unused_bit;
}

proof fn lemma_part_6_1(s: CpuView, code: u8)
    requires
        s.p & BREAK2 == BREAK2,
        0xC8 <= code <= 0xCF,
    ensures
        keeps_unused_bit(instruction_6(s, code)),
{
    broadcast use group_unused_bit;
}

proof fn lemma_part_6_2(s: CpuView, code: u8)
    requires
        s.p & BREAK2 == BREAK2,
        0xD0 <= code <= 0xD7,
    ensures
        keeps_unused_bit(instruction_6(s, code)),
{
    broadcast use group_unused_bit;
}

proof fn lemma_part_6_3(s: CpuView, code: u8)
    requires
        s.p & BREAK2 == BREAK2,
        0xD8 <= code <= 0xDF,
    ensures
        keeps_unused_bit(instruction_6(s, code)),
{
    broadcast use group_unused_bit;
}

proof fn lemma_part_6(s: CpuView, code: u8)
    requires
        s.p & BREAK2 == BREAK2,
    ensures
        keeps_unused_bit(instruction_6(s, code)),
{
    if code < 0xC0 {
    } else if code < 0xC8 {
        lemma_part_6_0(s, code);
    } else if code < 0xD0 {
        lemma_part_6_1(s, code);
    } else if code < 0xD8 {
        lemma_part_6_2(s, code);
    } else if code <= 0xDF {
        lemma_part_6_3(s, code);
    } else {
    }
}

proof fn lemma_part_7(s: CpuView, code: u8)
    requires
        s.p & BREAK2 == BREAK2,
    ensures
        keeps_unused_bit(instruction_7(s, code)),
{
    broadcast use group_unused_bit;
}

/// Every instruction keeps U set: if it was set before the instruction is
/// fetched, it is set after, whatever the instruction and the memory hold.
pub proof fn lemma_instruction_keeps_unused_bit(s: CpuView)
    requires
        s.p & BREAK2 == BREAK2,
    ensures
        keeps_unused_bit(execute_spec(s)),
{
    broadcast use group_unused_bit;
    match rd(s, s.pc) {
        Err(_) => {},
        Ok((s1, code)) => {
            let s2 = CpuView { pc: s1.pc.wrapping_add(1), ..s1 };
            if code < 32 {
                lemma_part_0(s2, code);
            } else if code < 64 {
                lemma_part_1(s2, code);
            } else if code < 96 {
                lemma_part_2(s2, code);
            } else if code < 128 {
                lemma_part_3(s2, code);
            } else if code < 160 {
                lemma_part_4(s2, code);
            } else if code < 192 {
                lemma_part_5(s2, code);
            } else if code < 224 {
                lemma_part_6(s2, code);
            } else {
                lemma_part_7(s2, code);
            }
        },
    }
}

/// Interrupt entry keeps U set (and sets I).
pub proof fn lemma_interrupt_keeps_unused_bit(s: CpuView, i: Interrupt)
    requires
        s.p & BREAK2 == BREAK2,
    ensures
        interrupt_entry(s, i).p & BREAK2 == BREAK2,
{
    broadcast use group_unused_bit;
}

} // verus!
