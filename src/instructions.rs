//! What each instruction does, as functions from CPU state to CPU state.
//! Every access goes through the bus's own `read_spec` and `write_spec`, so
//! the side effects of a read (of $2002, $2007, $4016) are part of the state
//! that follows; a step that the bus refuses gives its error instead.
use vstd::prelude::*;
use crate::bus::{BusError, BusView, readable, read_spec, writable, write_spec, write_error};
use crate::cpu::AddressingMode;
use crate::flags::with_flag;
use crate::interrupts::Interrupt;
use crate::opcodes::op_info;

verus! {

pub const CARRY: u8 = 0b0000_0001;
pub const ZERO: u8 = 0b0000_0010;
pub const INTERRUPT_DISABLE: u8 = 0b0000_0100;
pub const DECIMAL_MODE: u8 = 0b0000_1000;
pub const BREAK: u8 = 0b0001_0000;
/// The unused bit 5, which reads as 1.
pub const BREAK2: u8 = 0b0010_0000;
pub const OVERFLOW: u8 = 0b0100_0000;
pub const NEGATIVE: u8 = 0b1000_0000;

/// Base of the stack page.
pub const STACK: u16 = 0x0100;

/// The CPU's registers and the bus behind them.
pub struct CpuView {
    pub a: u8,
    pub x: u8,
    pub y: u8,
    pub sp: u8,
    pub p: u8,
    pub pc: u16,
    pub bus: BusView,
}

/// Whether two states hold the same registers.
pub open spec fn same_registers(s: CpuView, t: CpuView) -> bool {
    s.a == t.a && s.x == t.x && s.y == t.y && s.sp == t.sp && s.p == t.p && s.pc == t.pc
}

/// Whether an exec result `r`, with the state `s` after it, is what `expected`
/// says: the same value and state, or the same error.
pub open spec fn outcome<T>(r: Result<T, BusError>, s: CpuView, expected: Result<(CpuView, T), BusError>) -> bool {
    match expected {
        Ok((s2, t)) => r == Ok::<T, BusError>(t) && s == s2,
        Err(e) => r == Err::<T, BusError>(e),
    }
}

#[verifier::opaque]
pub open spec fn rd(s: CpuView, addr: u16) -> Result<(CpuView, u8), BusError> {
    if readable(addr) {
        let (b, v) = read_spec(s.bus, addr);
        Ok((CpuView { bus: b, ..s }, v))
    } else {
        Err(BusError::WriteOnly(addr))
    }
}

#[verifier::opaque]
pub open spec fn wr(s: CpuView, addr: u16, v: u8) -> Result<(CpuView, ()), BusError> {
    if writable(addr, v) {
        Ok((CpuView { bus: write_spec(s.bus, addr, v), ..s }, ()))
    } else {
        Err(write_error(addr, v))
    }
}

/// A little-endian word written: low byte at `addr`, high byte at the next
/// address.
pub open spec fn wr16(s: CpuView, addr: u16, v: u16) -> Result<(CpuView, ()), BusError> {
    match wr(s, addr, (v & 0xff) as u8) {
        Err(e) => Err(e),
        Ok((s1, _)) => wr(s1, addr.wrapping_add(1), (v >> 8) as u8),
    }
}

/// A little-endian word: low byte at `addr`, high byte at the next address.
pub open spec fn rd16(s: CpuView, addr: u16) -> Result<(CpuView, u16), BusError> {
    match rd(s, addr) {
        Err(e) => Err(e),
        Ok((s1, lo)) => match rd(s1, addr.wrapping_add(1)) {
            Err(e) => Err(e),
            Ok((s2, hi)) => Ok((s2, ((hi as u16) << 8) | (lo as u16))),
        },
    }
}

pub open spec fn page_crossed(a: u16, b: u16) -> bool {
    a & 0xFF00 != b & 0xFF00
}

pub open spec fn word(hi: u8, lo: u8) -> u16 {
    ((hi as u16) << 8) | (lo as u16)
}

/// The effective address of an operand whose bytes start at `at`, and
/// whether indexing crossed a page (Absolute,X, Absolute,Y and (Indirect),Y
/// only). Zero-page indexing and pointers wrap within the zero page.
pub open spec fn operand_at(s: CpuView, mode: AddressingMode, at: u16) -> Result<(CpuView, (u16, bool)), BusError> {
    match mode {
        AddressingMode::ZeroPage => match rd(s, at) {
            Err(e) => Err(e),
            Ok((s1, v)) => Ok((s1, (v as u16, false))),
        },
        AddressingMode::ZeroPage_X => match rd(s, at) {
            Err(e) => Err(e),
            Ok((s1, v)) => Ok((s1, (v.wrapping_add(s.x) as u16, false))),
        },
        AddressingMode::ZeroPage_Y => match rd(s, at) {
            Err(e) => Err(e),
            Ok((s1, v)) => Ok((s1, (v.wrapping_add(s.y) as u16, false))),
        },
        AddressingMode::Absolute => match rd16(s, at) {
            Err(e) => Err(e),
            Ok((s1, a)) => Ok((s1, (a, false))),
        },
        AddressingMode::Absolute_X => match rd16(s, at) {
            Err(e) => Err(e),
            Ok((s1, base)) => Ok((s1, (base.wrapping_add(s.x as u16), page_crossed(base, base.wrapping_add(s.x as u16))))),
        },
        AddressingMode::Absolute_Y => match rd16(s, at) {
            Err(e) => Err(e),
            Ok((s1, base)) => Ok((s1, (base.wrapping_add(s.y as u16), page_crossed(base, base.wrapping_add(s.y as u16))))),
        },
        AddressingMode::Indirect_X => match rd(s, at) {
            Err(e) => Err(e),
            Ok((s1, base)) => {
                let ptr = base.wrapping_add(s.x);
                match rd(s1, ptr as u16) {
                    Err(e) => Err(e),
                    Ok((s2, lo)) => match rd(s2, ptr.wrapping_add(1) as u16) {
                        Err(e) => Err(e),
                        Ok((s3, hi)) => Ok((s3, (word(hi, lo), false))),
                    },
                }
            },
        },
        AddressingMode::Indirect_Y => match rd(s, at) {
            Err(e) => Err(e),
            Ok((s1, base)) => match rd(s1, base as u16) {
                Err(e) => Err(e),
                Ok((s2, lo)) => match rd(s2, base.wrapping_add(1) as u16) {
                    Err(e) => Err(e),
                    Ok((s3, hi)) => {
                        let deref = word(hi, lo).wrapping_add(s.y as u16);
                        Ok((s3, (deref, page_crossed(deref, word(hi, lo)))))
                    },
                },
            },
        },
        _ => Ok((s, (at, false))),
    }
}

/// The operand's address for an instruction whose operand starts at PC.
pub open spec fn operand(s: CpuView, mode: AddressingMode) -> Result<(CpuView, (u16, bool)), BusError> {
    operand_at(s, mode, s.pc)
}

/// The operand's value, and whether its address crossed a page.
pub open spec fn load(s: CpuView, mode: AddressingMode) -> Result<(CpuView, (u8, bool)), BusError> {
    match operand(s, mode) {
        Err(e) => Err(e),
        Ok((s1, (addr, crossed))) => match rd(s1, addr) {
            Err(e) => Err(e),
            Ok((s2, v)) => Ok((s2, (v, crossed))),
        },
    }
}

/// Z set iff `v` is zero, N iff its bit 7 is.
pub open spec fn zn(p: u8, v: u8) -> u8 {
    with_flag(with_flag(p, ZERO, v == 0), NEGATIVE, v & 0x80 != 0)
}

pub open spec fn set_zn(s: CpuView, v: u8) -> CpuView {
    CpuView { p: zn(s.p, v), ..s }
}

pub open spec fn set_p(s: CpuView, mask: u8, on: bool) -> CpuView {
    CpuView { p: with_flag(s.p, mask, on), ..s }
}

/// A + M + C: C is the carry out of bit 7, V is set when both operands'
/// sign differs from the result's.
pub open spec fn add_to_a(s: CpuView, m: u8) -> CpuView {
    let sum: int = s.a as int + m as int + (s.p & CARRY) as int;
    let result = (sum % 256) as u8;
    let p1 = with_flag(s.p, CARRY, sum > 0xFF);
    let p2 = with_flag(p1, OVERFLOW, (m ^ result) & (result ^ s.a) & 0x80 != 0);
    CpuView { a: result, p: zn(p2, result), ..s }
}

/// CMP, CPX, CPY: C iff `reg` >= `m`, then Z and N of `reg - m`.
pub open spec fn compare(s: CpuView, reg: u8, m: u8) -> CpuView {
    set_zn(set_p(s, CARRY, reg >= m), reg.wrapping_sub(m))
}

/// The ALU step of an instruction that reads one operand byte.
pub enum AluOp {
    Lda,
    Ldx,
    Ldy,
    And,
    Ora,
    Eor,
    Adc,
    Sbc,
    Cmp(u8),
    Bit,
    Ign,
    Lax,
    Anc,
    Alr,
    Arr,
    Axs,
    Las,
    Xaa,
}

pub open spec fn and_a(s: CpuView, v: u8) -> CpuView {
    set_zn(CpuView { a: s.a & v, ..s }, s.a & v)
}

pub open spec fn ora_a(s: CpuView, v: u8) -> CpuView {
    set_zn(CpuView { a: s.a | v, ..s }, s.a | v)
}

pub open spec fn eor_a(s: CpuView, v: u8) -> CpuView {
    set_zn(CpuView { a: s.a ^ v, ..s }, s.a ^ v)
}

pub open spec fn lda_a(s: CpuView, v: u8) -> CpuView {
    set_zn(CpuView { a: v, ..s }, v)
}

pub open spec fn alu(op: AluOp, s: CpuView, v: u8) -> CpuView {
    match op {
        AluOp::Lda => lda_a(s, v),
        AluOp::Ldx => set_zn(CpuView { x: v, ..s }, v),
        AluOp::Ldy => set_zn(CpuView { y: v, ..s }, v),
        AluOp::And => and_a(s, v),
        AluOp::Ora => ora_a(s, v),
        AluOp::Eor => eor_a(s, v),
        AluOp::Adc => add_to_a(s, v),
        AluOp::Sbc => add_to_a(s, !v),
        AluOp::Cmp(reg) => compare(s, reg, v),
        AluOp::Bit => {
            let s1 = set_p(s, OVERFLOW, (v & 0b0100_0000) >> 6 == 1);
            let s2 = set_p(s1, NEGATIVE, v >> 7 == 1);
            set_p(s2, ZERO, s.a & v == 0)
        },
        AluOp::Ign => s,
        AluOp::Lax => {
            let s1 = lda_a(s, v);
            CpuView { x: s1.a, ..s1 }
        },
        AluOp::Anc => {
            let s1 = and_a(s, v);
            set_p(s1, CARRY, s1.p == 0b1000_0000)
        },
        AluOp::Alr => lsr_acc(and_a(s, v)),
        AluOp::Arr => {
            let s1 = ror_acc(and_a(s, v));
            let result = s1.a;
            let bit_5 = (result >> 5) & 1;
            let bit_6 = (result >> 6) & 1;
            let s2 = set_p(s1, CARRY, bit_6 == 1);
            let s3 = set_p(s2, OVERFLOW, bit_5 ^ bit_6 == 1);
            set_zn(s3, result)
        },
        AluOp::Axs => {
            let x_and_a = s.x & s.a;
            let result = x_and_a.wrapping_sub(v);
            let s1 = if v <= x_and_a { set_p(s, CARRY, true) } else { s };
            CpuView { x: result, ..set_zn(s1, result) }
        },
        AluOp::Las => {
            let d = v & s.sp;
            set_zn(CpuView { a: d, x: d, sp: d, ..s }, d)
        },
        AluOp::Xaa => {
            let s1 = set_zn(CpuView { a: s.x, ..s }, s.x);
            and_a(s1, v)
        },
    }
}

/// Whether the instruction pays a cycle when its operand crosses a page.
pub open spec fn pays_page_cross(op: AluOp) -> bool {
    match op {
        AluOp::Lda | AluOp::Ldx | AluOp::Ldy | AluOp::And | AluOp::Ora | AluOp::Eor | AluOp::Adc
        | AluOp::Sbc | AluOp::Cmp(_) | AluOp::Ign => true,
        _ => false,
    }
}

/// An instruction that reads its operand and applies `op`; the flag says
/// whether it owes the page-cross cycle.
pub open spec fn read_op(s: CpuView, mode: AddressingMode, op: AluOp) -> Result<(CpuView, bool), BusError> {
    match load(s, mode) {
        Err(e) => Err(e),
        Ok((s1, (v, crossed))) => Ok((alu(op, s1, v), crossed && pays_page_cross(op))),
    }
}

pub open spec fn asl_acc(s: CpuView) -> CpuView {
    let v = s.a;
    set_zn(CpuView { a: v << 1, ..set_p(s, CARRY, v >> 7 == 1) }, v << 1)
}

pub open spec fn lsr_acc(s: CpuView) -> CpuView {
    let v = s.a;
    set_zn(CpuView { a: v >> 1, ..set_p(s, CARRY, v & 1 == 1) }, v >> 1)
}

pub open spec fn rol_value(p: u8, v: u8) -> u8 {
    if p & CARRY == 1 { (v << 1) | 1 } else { v << 1 }
}

pub open spec fn ror_value(p: u8, v: u8) -> u8 {
    if p & CARRY == 1 { (v >> 1) | 0b1000_0000 } else { v >> 1 }
}

pub open spec fn rol_acc(s: CpuView) -> CpuView {
    let v = rol_value(s.p, s.a);
    set_zn(CpuView { a: v, ..set_p(s, CARRY, s.a >> 7 == 1) }, v)
}

pub open spec fn ror_acc(s: CpuView) -> CpuView {
    let v = ror_value(s.p, s.a);
    set_zn(CpuView { a: v, ..set_p(s, CARRY, s.a & 1 == 1) }, v)
}

/// A read-modify-write on memory.
pub enum RmwOp {
    Asl,
    Lsr,
    Rol,
    Ror,
    Inc,
    Dec,
}

/// The value written back, and the state with the carry it sets.
pub open spec fn modify(op: RmwOp, s: CpuView, v: u8) -> (CpuView, u8) {
    match op {
        RmwOp::Asl => (set_p(s, CARRY, v >> 7 == 1), v << 1),
        RmwOp::Lsr => (set_p(s, CARRY, v & 1 == 1), v >> 1),
        RmwOp::Rol => (set_p(s, CARRY, v >> 7 == 1), rol_value(s.p, v)),
        RmwOp::Ror => (set_p(s, CARRY, v & 1 == 1), ror_value(s.p, v)),
        RmwOp::Inc => (s, v.wrapping_add(1)),
        RmwOp::Dec => (s, v.wrapping_sub(1)),
    }
}

/// Read the operand, modify it, write it back, set Z and N from it; the
/// result carries the value written.
pub open spec fn rmw(s: CpuView, mode: AddressingMode, op: RmwOp) -> Result<(CpuView, u8), BusError> {
    match operand(s, mode) {
        Err(e) => Err(e),
        Ok((s1, (addr, _))) => match rd(s1, addr) {
            Err(e) => Err(e),
            Ok((s2, v)) => {
                let (s3, w) = modify(op, s2, v);
                match wr(s3, addr, w) {
                    Err(e) => Err(e),
                    Ok((s4, _)) => Ok((set_zn(s4, w), w)),
                }
            },
        },
    }
}

/// A read-modify-write followed by an accumulator step on the written value
/// (SLO, RLA, SRE, RRA, ISB).
pub enum ComboOp {
    Slo,
    Rla,
    Sre,
    Rra,
    Isb,
}

pub open spec fn combo_rmw(op: ComboOp) -> RmwOp {
    match op {
        ComboOp::Slo => RmwOp::Asl,
        ComboOp::Rla => RmwOp::Rol,
        ComboOp::Sre => RmwOp::Lsr,
        ComboOp::Rra => RmwOp::Ror,
        ComboOp::Isb => RmwOp::Inc,
    }
}

pub open spec fn combo_acc(op: ComboOp, s: CpuView, w: u8) -> CpuView {
    match op {
        ComboOp::Slo => ora_a(s, w),
        ComboOp::Rla => and_a(s, w),
        ComboOp::Sre => eor_a(s, w),
        ComboOp::Rra => add_to_a(s, w),
        ComboOp::Isb => add_to_a(s, !w),
    }
}

pub open spec fn combo(s: CpuView, mode: AddressingMode, op: ComboOp) -> Result<(CpuView, bool), BusError> {
    match rmw(s, mode, combo_rmw(op)) {
        Err(e) => Err(e),
        Ok((s1, w)) => Ok((combo_acc(op, s1, w), false)),
    }
}

/// DCP: decrement memory, then compare A with the result as CMP does.
pub open spec fn dcp(s: CpuView, mode: AddressingMode) -> Result<(CpuView, bool), BusError> {
    match operand(s, mode) {
        Err(e) => Err(e),
        Ok((s1, (addr, _))) => match rd(s1, addr) {
            Err(e) => Err(e),
            Ok((s2, v)) => {
                let w = v.wrapping_sub(1);
                match wr(s2, addr, w) {
                    Err(e) => Err(e),
                    Ok((s3, _)) => Ok((compare(s3, s3.a, w), false)),
                }
            },
        },
    }
}

/// A store of `v` to the operand's address.
pub open spec fn store(s: CpuView, mode: AddressingMode, v: u8) -> Result<(CpuView, bool), BusError> {
    match operand(s, mode) {
        Err(e) => Err(e),
        Ok((s1, (addr, _))) => match wr(s1, addr, v) {
            Err(e) => Err(e),
            Ok((s2, _)) => Ok((s2, false)),
        },
    }
}

/// The unstable stores: the value is a register (or A & X) masked by the
/// target's high byte, plus one for SHX, SHY and TAS.
pub enum UnstableOp {
    Tas,
    AhxIndirectY,
    AhxAbsoluteY,
    Shx,
    Shy,
}

pub open spec fn unstable_store(s: CpuView, op: UnstableOp) -> Result<(CpuView, bool), BusError> {
    let target = match op {
        UnstableOp::AhxIndirectY => match rd(s, s.pc) {
            Err(e) => Err(e),
            Ok((s1, pos)) => rd16(s1, pos as u16),
        },
        _ => rd16(s, s.pc),
    };
    match target {
        Err(e) => Err(e),
        Ok((s1, base)) => {
            let index = match op {
                UnstableOp::Shy => s.x,
                _ => s.y,
            };
            let addr = base.wrapping_add(index as u16);
            let high = (addr >> 8) as u8;
            let (s2, v) = match op {
                UnstableOp::Tas => {
                    let sp = s.a & s.x;
                    (CpuView { sp, ..s1 }, high.wrapping_add(1) & sp)
                },
                UnstableOp::AhxIndirectY | UnstableOp::AhxAbsoluteY => (s1, s.a & s.x & high),
                UnstableOp::Shx => (s1, s.x & high.wrapping_add(1)),
                UnstableOp::Shy => (s1, s.y & high.wrapping_add(1)),
            };
            match wr(s2, addr, v) {
                Err(e) => Err(e),
                Ok((s3, _)) => Ok((s3, false)),
            }
        },
    }
}

/// The work-RAM index of the stack slot `sp`: the stack lives at 0x0100 + S.
pub open spec fn stack_slot(sp: u8) -> int {
    0x0100 + sp as int
}

/// Push: write at 0x0100 + S, then S decreases.
pub open spec fn push(s: CpuView, v: u8) -> CpuView {
    CpuView {
        sp: s.sp.wrapping_sub(1),
        bus: BusView { wram: s.bus.wram.update(stack_slot(s.sp), v), ..s.bus },
        ..s
    }
}

/// Pop: S increases, then read at 0x0100 + S.
pub open spec fn pop(s: CpuView) -> (CpuView, u8) {
    let sp = s.sp.wrapping_add(1);
    (CpuView { sp, ..s }, s.bus.wram[stack_slot(sp)])
}

pub open spec fn push16(s: CpuView, v: u16) -> CpuView {
    push(push(s, (v >> 8) as u8), (v & 0xff) as u8)
}

pub open spec fn pop16(s: CpuView) -> (CpuView, u16) {
    let (s1, lo) = pop(s);
    let (s2, hi) = pop(s1);
    (s2, word(hi, lo))
}

/// PLP and RTI: P from the stack, with B cleared and U set.
pub open spec fn pulled_status(v: u8) -> u8 {
    (v & 0b1110_1111) | 0b0010_0000
}

pub open spec fn pla(s: CpuView) -> CpuView {
    let (s1, v) = pop(s);
    set_zn(CpuView { a: v, ..s1 }, v)
}

pub open spec fn plp(s: CpuView) -> CpuView {
    let (s1, v) = pop(s);
    CpuView { p: pulled_status(v), ..s1 }
}

/// PHP pushes P with B and U set.
pub open spec fn php(s: CpuView) -> CpuView {
    push(s, s.p | 0b0011_0000)
}

pub open spec fn rti(s: CpuView) -> CpuView {
    let s1 = plp(s);
    let (s2, pc) = pop16(s1);
    CpuView { pc, ..s2 }
}

pub open spec fn rts(s: CpuView) -> CpuView {
    let (s1, pc) = pop16(s);
    CpuView { pc: pc.wrapping_add(1), ..s1 }
}

/// The target of a taken branch: the offset byte is signed and counts from
/// the byte after it.
pub open spec fn branch_target(pc: u16, offset: u8) -> u16 {
    if offset < 128 {
        pc.wrapping_add(1).wrapping_add(offset as u16)
    } else {
        pc.wrapping_add(1).wrapping_sub((256 - offset) as u16)
    }
}

pub open spec fn branch(s: CpuView, condition: bool) -> Result<(CpuView, bool), BusError> {
    if condition {
        match rd(s, s.pc) {
            Err(e) => Err(e),
            Ok((s1, offset)) => Ok((CpuView { pc: branch_target(s.pc, offset), ..s1 }, false)),
        }
    } else {
        Ok((s, false))
    }
}

pub open spec fn jmp_absolute(s: CpuView) -> Result<(CpuView, bool), BusError> {
    match rd16(s, s.pc) {
        Err(e) => Err(e),
        Ok((s1, target)) => Ok((CpuView { pc: target, ..s1 }, false)),
    }
}

/// JMP (ind): a vector at the end of a page takes its high byte from the
/// start of the same page.
pub open spec fn jmp_indirect(s: CpuView) -> Result<(CpuView, bool), BusError> {
    match rd16(s, s.pc) {
        Err(e) => Err(e),
        Ok((s1, addr)) => {
            let target = if addr & 0x00ff == 0x00ff {
                match rd(s1, addr) {
                    Err(e) => Err(e),
                    Ok((s2, lo)) => match rd(s2, addr & 0xff00) {
                        Err(e) => Err(e),
                        Ok((s3, hi)) => Ok((s3, word(hi, lo))),
                    },
                }
            } else {
                rd16(s1, addr)
            };
            match target {
                Err(e) => Err(e),
                Ok((s2, t)) => Ok((CpuView { pc: t, ..s2 }, false)),
            }
        },
    }
}

/// JSR pushes the address of its last operand byte, then jumps.
pub open spec fn jsr(s: CpuView) -> Result<(CpuView, bool), BusError> {
    let s1 = push16(s, s.pc.wrapping_add(1));
    match rd16(s1, s1.pc) {
        Err(e) => Err(e),
        Ok((s2, target)) => Ok((CpuView { pc: target, ..s2 }, false)),
    }
}

pub open spec fn tax(s: CpuView) -> CpuView {
    set_zn(CpuView { x: s.a, ..s }, s.a)
}

pub open spec fn tay(s: CpuView) -> CpuView {
    set_zn(CpuView { y: s.a, ..s }, s.a)
}

pub open spec fn tsx(s: CpuView) -> CpuView {
    set_zn(CpuView { x: s.sp, ..s }, s.sp)
}

pub open spec fn txa(s: CpuView) -> CpuView {
    set_zn(CpuView { a: s.x, ..s }, s.x)
}

/// TXS moves X to S and sets no flag.
pub open spec fn txs(s: CpuView) -> CpuView {
    CpuView { sp: s.x, ..s }
}

pub open spec fn tya(s: CpuView) -> CpuView {
    set_zn(CpuView { a: s.y, ..s }, s.y)
}

pub open spec fn inx(s: CpuView) -> CpuView {
    set_zn(CpuView { x: s.x.wrapping_add(1), ..s }, s.x.wrapping_add(1))
}

pub open spec fn iny(s: CpuView) -> CpuView {
    set_zn(CpuView { y: s.y.wrapping_add(1), ..s }, s.y.wrapping_add(1))
}

pub open spec fn dex(s: CpuView) -> CpuView {
    set_zn(CpuView { x: s.x.wrapping_sub(1), ..s }, s.x.wrapping_sub(1))
}

pub open spec fn dey(s: CpuView) -> CpuView {
    set_zn(CpuView { y: s.y.wrapping_sub(1), ..s }, s.y.wrapping_sub(1))
}

/// LXA: LDA, then TAX.
pub open spec fn lxa(s: CpuView, mode: AddressingMode) -> Result<(CpuView, bool), BusError> {
    match read_op(s, mode, AluOp::Lda) {
        Err(e) => Err(e),
        Ok((s1, crossed)) => Ok((tax(s1), crossed)),
    }
}

/// A read-modify-write whose written value is not used further.
pub open spec fn rmw_only(s: CpuView, mode: AddressingMode, op: RmwOp) -> Result<(CpuView, bool), BusError> {
    match rmw(s, mode, op) {
        Err(e) => Err(e),
        Ok((s1, _)) => Ok((s1, false)),
    }
}

pub open spec fn instruction_0(s: CpuView, code: u8) -> Result<(CpuView, bool), BusError> {
    let mode = op_info(code).2;
    match code {
        0x01 | 0x05 | 0x09 | 0x0D | 0x11 | 0x15 | 0x19 | 0x1D => read_op(s, mode, AluOp::Ora),
        0x04 | 0x0C | 0x14 | 0x1C => read_op(s, mode, AluOp::Ign),
        0x0B => read_op(s, mode, AluOp::Anc),
        0x0A => Ok((asl_acc(s), false)),
        0x06 | 0x0E | 0x16 | 0x1E => rmw_only(s, mode, RmwOp::Asl),
        0x03 | 0x07 | 0x0F | 0x13 | 0x17 | 0x1B | 0x1F => combo(s, mode, ComboOp::Slo),
        0x10 => branch(s, s.p & NEGATIVE == 0),
        0x18 => Ok((set_p(s, CARRY, false), false)),
        0x08 => Ok((php(s), false)),
        _ => Ok((s, false)),
    }
}

pub open spec fn instruction_1(s: CpuView, code: u8) -> Result<(CpuView, bool), BusError> {
    let mode = op_info(code).2;
    match code {
        0x21 | 0x25 | 0x29 | 0x2D | 0x31 | 0x35 | 0x39 | 0x3D => read_op(s, mode, AluOp::And),
        0x24 | 0x2C => read_op(s, mode, AluOp::Bit),
        0x34 | 0x3C => read_op(s, mode, AluOp::Ign),
        0x2B => read_op(s, mode, AluOp::Anc),
        0x2A => Ok((rol_acc(s), false)),
        0x26 | 0x2E | 0x36 | 0x3E => rmw_only(s, mode, RmwOp::Rol),
        0x23 | 0x27 | 0x2F | 0x33 | 0x37 | 0x3B | 0x3F => combo(s, mode, ComboOp::Rla),
        0x30 => branch(s, s.p & NEGATIVE != 0),
        0x38 => Ok((set_p(s, CARRY, true), false)),
        0x20 => jsr(s),
        0x28 => Ok((plp(s), false)),
        _ => Ok((s, false)),
    }
}

pub open spec fn instruction_2(s: CpuView, code: u8) -> Result<(CpuView, bool), BusError> {
    let mode = op_info(code).2;
    match code {
        0x41 | 0x45 | 0x49 | 0x4D | 0x51 | 0x55 | 0x59 | 0x5D => read_op(s, mode, AluOp::Eor),
        0x44 | 0x54 | 0x5C => read_op(s, mode, AluOp::Ign),
        0x4B => read_op(s, mode, AluOp::Alr),
        0x4A => Ok((lsr_acc(s), false)),
        0x46 | 0x4E | 0x56 | 0x5E => rmw_only(s, mode, RmwOp::Lsr),
        0x43 | 0x47 | 0x4F | 0x53 | 0x57 | 0x5B | 0x5F => combo(s, mode, ComboOp::Sre),
        0x50 => branch(s, s.p & OVERFLOW == 0),
        0x58 => Ok((set_p(s, INTERRUPT_DISABLE, false), false)),
        0x4C => jmp_absolute(s),
        0x40 => Ok((rti(s), false)),
        0x48 => Ok((push(s, s.a), false)),
        _ => Ok((s, false)),
    }
}

pub open spec fn instruction_3(s: CpuView, code: u8) -> Result<(CpuView, bool), BusError> {
    let mode = op_info(code).2;
    match code {
        0x61 | 0x65 | 0x69 | 0x6D | 0x71 | 0x75 | 0x79 | 0x7D => read_op(s, mode, AluOp::Adc),
        0x64 | 0x74 | 0x7C => read_op(s, mode, AluOp::Ign),
        0x6B => read_op(s, mode, AluOp::Arr),
        0x6A => Ok((ror_acc(s), false)),
        0x66 | 0x6E | 0x76 | 0x7E => rmw_only(s, mode, RmwOp::Ror),
        0x63 | 0x67 | 0x6F | 0x73 | 0x77 | 0x7B | 0x7F => combo(s, mode, ComboOp::Rra),
        0x70 => branch(s, s.p & OVERFLOW != 0),
        0x78 => Ok((set_p(s, INTERRUPT_DISABLE, true), false)),
        0x6C => jmp_indirect(s),
        0x60 => Ok((rts(s), false)),
        0x68 => Ok((pla(s), false)),
        _ => Ok((s, false)),
    }
}

pub open spec fn instruction_4(s: CpuView, code: u8) -> Result<(CpuView, bool), BusError> {
    let mode = op_info(code).2;
    match code {
        0x8B => read_op(s, mode, AluOp::Xaa),
        0x90 => branch(s, s.p & CARRY == 0),
        0x88 => Ok((dey(s), false)),
        0x8A => Ok((txa(s), false)),
        0x9A => Ok((txs(s), false)),
        0x98 => Ok((tya(s), false)),
        0x81 | 0x85 | 0x8D | 0x91 | 0x95 | 0x99 | 0x9D => store(s, mode, s.a),
        0x86 | 0x8E | 0x96 => store(s, mode, s.x),
        0x84 | 0x8C | 0x94 => store(s, mode, s.y),
        0x83 | 0x87 | 0x8F | 0x97 => store(s, mode, s.a & s.x),
        0x9B => unstable_store(s, UnstableOp::Tas),
        0x93 => unstable_store(s, UnstableOp::AhxIndirectY),
        0x9F => unstable_store(s, UnstableOp::AhxAbsoluteY),
        0x9E => unstable_store(s, UnstableOp::Shx),
        0x9C => unstable_store(s, UnstableOp::Shy),
        _ => Ok((s, false)),
    }
}

pub open spec fn instruction_5(s: CpuView, code: u8) -> Result<(CpuView, bool), BusError> {
    let mode = op_info(code).2;
    match code {
        0xA1 | 0xA5 | 0xA9 | 0xAD | 0xB1 | 0xB5 | 0xB9 | 0xBD => read_op(s, mode, AluOp::Lda),
        0xA2 | 0xA6 | 0xAE | 0xB6 | 0xBE => read_op(s, mode, AluOp::Ldx),
        0xA0 | 0xA4 | 0xAC | 0xB4 | 0xBC => read_op(s, mode, AluOp::Ldy),
        0xA3 | 0xA7 | 0xAF | 0xB3 | 0xB7 | 0xBF => read_op(s, mode, AluOp::Lax),
        0xBB => read_op(s, mode, AluOp::Las),
        0xAB => lxa(s, mode),
        0xB0 => branch(s, s.p & CARRY != 0),
        0xB8 => Ok((set_p(s, OVERFLOW, false), false)),
        0xAA => Ok((tax(s), false)),
        0xA8 => Ok((tay(s), false)),
        0xBA => Ok((tsx(s), false)),
        _ => Ok((s, false)),
    }
}

pub open spec fn instruction_6(s: CpuView, code: u8) -> Result<(CpuView, bool), BusError> {
    let mode = op_info(code).2;
    match code {
        0xC1 | 0xC5 | 0xC9 | 0xCD | 0xD1 | 0xD5 | 0xD9 | 0xDD => read_op(s, mode, AluOp::Cmp(s.a)),
        0xC0 | 0xC4 | 0xCC => read_op(s, mode, AluOp::Cmp(s.y)),
        0xD4 | 0xDC => read_op(s, mode, AluOp::Ign),
        0xCB => read_op(s, mode, AluOp::Axs),
        0xC6 | 0xCE | 0xD6 | 0xDE => rmw_only(s, mode, RmwOp::Dec),
        0xC3 | 0xC7 | 0xCF | 0xD3 | 0xD7 | 0xDB | 0xDF => dcp(s, mode),
        0xD0 => branch(s, s.p & ZERO == 0),
        0xD8 => Ok((set_p(s, DECIMAL_MODE, false), false)),
        0xCA => Ok((dex(s), false)),
        0xC8 => Ok((iny(s), false)),
        _ => Ok((s, false)),
    }
}

pub open spec fn instruction_7(s: CpuView, code: u8) -> Result<(CpuView, bool), BusError> {
    let mode = op_info(code).2;
    match code {
        0xE0 | 0xE4 | 0xEC => read_op(s, mode, AluOp::Cmp(s.x)),
        0xE1 | 0xE5 | 0xE9 | 0xEB | 0xED | 0xF1 | 0xF5 | 0xF9 | 0xFD => read_op(s, mode, AluOp::Sbc),
        0xF4 | 0xFC => read_op(s, mode, AluOp::Ign),
        0xE6 | 0xEE | 0xF6 | 0xFE => rmw_only(s, mode, RmwOp::Inc),
        0xE3 | 0xE7 | 0xEF | 0xF3 | 0xF7 | 0xFB | 0xFF => combo(s, mode, ComboOp::Isb),
        0xF0 => branch(s, s.p & ZERO != 0),
        0xF8 => Ok((set_p(s, DECIMAL_MODE, true), false)),
        0xE8 => Ok((inx(s), false)),
        _ => Ok((s, false)),
    }
}

/// The effect of the instruction `code` (not BRK) once its opcode byte has
/// been fetched, and whether it owes the page-cross cycle. The opcodes with
/// no effect are the NOPs, the halting ones (KIL) included. The table is
/// split by the opcode's top three bits.
pub open spec fn instruction(s: CpuView, code: u8) -> Result<(CpuView, bool), BusError> {
    if code < 32 {
        instruction_0(s, code)
    } else if code < 64 {
        instruction_1(s, code)
    } else if code < 96 {
        instruction_2(s, code)
    } else if code < 128 {
        instruction_3(s, code)
    } else if code < 160 {
        instruction_4(s, code)
    } else if code < 192 {
        instruction_5(s, code)
    } else if code < 224 {
        instruction_6(s, code)
    } else {
        instruction_7(s, code)
    }
}

/// What one fetched instruction did: BRK halts; any other ran and costs its
/// base cycles, plus one when the page-cross flag is set.
#[derive(Clone, Copy, Debug, PartialEq, Eq, Structural)]
pub enum Executed {
    Halted,
    Ran { page_crossed: bool, cycles: u8 },
}

/// One instruction: fetch the opcode at PC and step past it; BRK stops
/// there. Otherwise run the instruction and, when it left PC where the fetch
/// did, step over its operand bytes.
pub open spec fn execute_spec(s: CpuView) -> Result<(CpuView, Executed), BusError> {
    match rd(s, s.pc) {
        Err(e) => Err(e),
        Ok((s1, code)) => {
            let s2 = CpuView { pc: s1.pc.wrapping_add(1), ..s1 };
            if code == 0 {
                Ok((s2, Executed::Halted))
            } else {
                match instruction(s2, code) {
                    Err(e) => Err(e),
                    Ok((s3, crossed)) => {
                        let s4 = if s3.pc == s2.pc {
                            CpuView { pc: s3.pc.wrapping_add((op_info(code).0 - 1) as u16), ..s3 }
                        } else {
                            s3
                        };
                        Ok((s4, Executed::Ran { page_crossed: crossed, cycles: op_info(code).1 }))
                    },
                }
            }
        },
    }
}

/// Interrupt entry, before its cycles and the jump: push PC, push P with the
/// interrupt's B and U bits, set I.
pub open spec fn interrupt_entry(s: CpuView, i: Interrupt) -> CpuView {
    let s1 = push16(s, s.pc);
    let flag = with_flag(
        with_flag(s1.p, BREAK, i.b_flag_mask & BREAK == BREAK),
        BREAK2,
        i.b_flag_mask & BREAK2 == BREAK2,
    );
    let s2 = push(s1, flag);
    set_p(s2, INTERRUPT_DISABLE, true)
}

/// The stack pointer always designates a byte of page one: 0x0100 + S lies
/// in 0x0100..=0x01FF, for pushes and pops alike.
pub proof fn lemma_stack_in_page_one(s: CpuView, v: u8)
    ensures
        0x0100 <= stack_slot(s.sp) <= 0x01FF,
        0x0100 <= stack_slot(push(s, v).sp) <= 0x01FF,
        0x0100 <= stack_slot(pop(s).0.sp) <= 0x01FF,
{
}

/// LDA v, PHA, LDA 0, PLA leaves v in A (and S where it was).
pub proof fn lemma_push_pull_round_trip(s: CpuView, v: u8)
    requires
        s.bus.wram.len() == 0x800,
    ensures
        ({
            let s1 = alu(AluOp::Lda, s, v);
            let s2 = push(s1, s1.a);
            let s3 = alu(AluOp::Lda, s2, 0);
            let s4 = pla(s3);
            s4.a == v && s4.sp == s.sp
        }),
{
    let s1 = alu(AluOp::Lda, s, v);
    let s2 = push(s1, s1.a);
    let sp = s.sp;
    assert(((sp as int - 1) % 256 + 1) % 256 == sp as int);
    assert(stack_slot(s2.sp.wrapping_add(1)) == stack_slot(sp));
}

/// ADC m then SBC m, with C set beforehand and no carry out of the ADC,
/// gives A back and sets C again; the pair leaves V as the ADC set it. (With
/// a carry out of the ADC, A comes back one higher: A = 0xFF, m = 0x01.)
pub proof fn lemma_adc_then_sbc(s: CpuView, m: u8)
    requires
        s.p & CARRY == CARRY,
        s.a as int + m as int + 1 <= 0xFF,
    ensures
        ({
            let s1 = alu(AluOp::Adc, s, m);
            let s2 = alu(AluOp::Sbc, s1, m);
            &&& s2.a == s.a
            &&& s2.p & CARRY == CARRY
            &&& s2.p & OVERFLOW == s1.p & OVERFLOW
        }),
{
    let a = s.a;
    let p = s.p;
    assert(p & 1 == 1) by (bit_vector)
        requires
            p & 1u8 == 1u8,
    ;
    let r1: u8 = (a as int + m as int + 1) as u8;
    assert(r1 == ((a as int + m as int + 1) % 256) as u8);
    let v1 = (m ^ r1) & (r1 ^ a) & 0x80 != 0;
    let p1 = zn(with_flag(with_flag(p, CARRY, false), OVERFLOW, v1), r1);
    assert(p1 & 1 == 0 && (p1 & 0x40 == 0x40) == v1) by (bit_vector)
        requires
            p1 == with_flag(with_flag(with_flag(with_flag(p, 1, false), 0x40, v1), 2, r1 == 0), 0x80, r1 & 0x80 != 0),
    ;
    let nm: u8 = !m;
    assert(nm == 255 - m) by (bit_vector)
        requires
            nm == !m,
    ;
    let v2 = (nm ^ a) & (a ^ r1) & 0x80 != 0;
    assert(v2 == v1) by (bit_vector)
        requires
            r1 == a + m + 1,
            a as u16 + m as u16 + 1 <= 0xFF,
            nm == !m,
            v1 == ((m ^ r1) & (r1 ^ a) & 0x80 != 0),
            v2 == ((nm ^ a) & (a ^ r1) & 0x80 != 0),
    ;
    let p2 = zn(with_flag(with_flag(p1, CARRY, true), OVERFLOW, v2), a);
    assert(p2 & 1 == 1 && (p2 & 0x40 == 0x40) == v2 && (p1 & 0x40 == 0x40) == v1 && (p2 & 0x40 == p1 & 0x40 <==> v1 == v2))
        by (bit_vector)
        requires
            p2 == with_flag(with_flag(with_flag(with_flag(p1, 1, true), 0x40, v2), 2, a == 0), 0x80, a & 0x80 != 0),
            p1 == with_flag(with_flag(with_flag(with_flag(p, 1, false), 0x40, v1), 2, r1 == 0), 0x80, r1 & 0x80 != 0),
    ;
}

/// A taken branch with offset -1 (0xFF) from an offset byte at `pc`, where
/// the next instruction starts a page, lands on `pc` itself: one page back.
pub proof fn lemma_branch_back_one(pc: u16)
    requires
        pc < 0xFFFF,
        ((pc + 1) as u16) & 0xFF == 0,
    ensures
        branch_target(pc, 0xFF) == pc,
        (pc >> 8) as int == (((pc + 1) as u16) >> 8) as int - 1,
{
    let next = (pc + 1) as u16;
    assert(pc >> 8 == (next >> 8) - 1) by (bit_vector)
        requires
            next == pc + 1,
            pc < 0xFFFF,
            next & 0xFF == 0,
    ;
}

} // verus!
