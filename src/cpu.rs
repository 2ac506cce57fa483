//! The 6502 (2A03) interpreter: registers, addressing modes, instruction
//! handlers and the fetch/execute loop. Each handler's contract is the
//! matching function of `instructions`.
use vstd::prelude::*;
use crate::bus::{Bus, BusError, FrameHandler, is_readable, is_writable, write_error_of};
use crate::flags::set_flag;
use crate::instructions::{
    CpuView, outcome, same_registers, rd, wr, rd16, wr16, operand, operand_at, load, set_zn, add_to_a,
    read_op, AluOp, asl_acc, lsr_acc, rol_acc, ror_acc, rmw, RmwOp, combo, ComboOp, dcp, store,
    unstable_store, UnstableOp, push, pop, push16, pop16, pla, plp, php, rti, rts, branch,
    jmp_absolute, jmp_indirect, jsr, tax, tay, tsx, txa, txs, tya, inx, iny, dex, dey, lxa, set_p,
    CARRY, ZERO, INTERRUPT_DISABLE, DECIMAL_MODE, OVERFLOW, NEGATIVE, STACK,
};

verus! {

#[derive(Clone, Copy, Debug, PartialEq, Eq, Structural)]
#[allow(non_camel_case_types)]
pub enum AddressingMode {
    Immediate,
    ZeroPage,
    ZeroPage_X,
    ZeroPage_Y,
    Absolute,
    Absolute_X,
    Absolute_Y,
    Indirect_X,
    Indirect_Y,
    NoneAddressing,
}

pub struct CPU<F: FrameHandler> {
    pub register_a: u8,
    pub register_x: u8,
    pub register_y: u8,
    pub stack_pointer: u8,
    pub status: u8,
    pub program_counter: u16,
    pub bus: Bus<F>,
}

impl<F: FrameHandler> View for CPU<F> {
    type V = CpuView;

    open spec fn view(&self) -> CpuView {
        CpuView {
            a: self.register_a,
            x: self.register_x,
            y: self.register_y,
            sp: self.stack_pointer,
            p: self.status,
            pc: self.program_counter,
            bus: self.bus@,
        }
    }
}

impl<F: FrameHandler> CPU<F> {
    pub open spec fn wf(&self) -> bool {
        self.bus.wf()
    }

    /// A CPU at power-on: S = 0xFD, P = 0x24 (I and U set), the rest zero.
    pub fn new(bus: Bus<F>) -> (r: CPU<F>)
        requires
            bus.wf(),
        ensures
            r.wf(),
            r.register_a == 0 && r.register_x == 0 && r.register_y == 0,
            r.stack_pointer == 0xfd,
            r.status == 0b0010_0100,
            r.program_counter == 0,
            r.bus == bus,
    {
        CPU {
            register_a: 0,
            register_x: 0,
            register_y: 0,
            stack_pointer: 0xfd,
            status: 0b0010_0100,
            program_counter: 0,
            bus,
        }
    }

    /// Reads one byte through the bus; a write-only PPU register gives
    /// `BusError::WriteOnly` and leaves everything as it was.
    pub fn mem_read(&mut self, addr: u16) -> (r: Result<u8, BusError>)
        requires
            old(self).wf(),
        ensures
            final(self).wf(),
            final(self).bus.cycles == old(self).bus.cycles,
            outcome(r, final(self)@, rd(old(self)@, addr)),
            same_registers(final(self)@, old(self)@),
            r is Err ==> final(self)@ == old(self)@,
    {
        proof {
            reveal(rd);
        }
        if !is_readable(addr) {
            return Err(BusError::WriteOnly(addr));
        }
        Ok(self.bus.mem_read(addr))
    }

    /// Writes one byte through the bus; the status register, ROM, and a DMA
    /// from a page of PPU registers give their error and leave everything as
    /// it was.
    pub fn mem_write(&mut self, addr: u16, data: u8) -> (r: Result<(), BusError>)
        requires
            old(self).wf(),
        ensures
            final(self).wf(),
            final(self).bus.cycles == old(self).bus.cycles,
            outcome(r, final(self)@, wr(old(self)@, addr, data)),
            same_registers(final(self)@, old(self)@),
            r is Err ==> final(self)@ == old(self)@,
    {
        proof {
            reveal(wr);
        }
        if !is_writable(addr, data) {
            return Err(write_error_of(addr, data));
        }
        self.bus.mem_write(addr, data);
        Ok(())
    }

    /// Reads a little-endian word: low byte at `pos`, high byte at the next
    /// address (with wrap).
    pub fn mem_read_u16(&mut self, pos: u16) -> (r: Result<u16, BusError>)
        requires
            old(self).wf(),
        ensures
            final(self).wf(),
            final(self).bus.cycles == old(self).bus.cycles,
            outcome(r, final(self)@, rd16(old(self)@, pos)),
            same_registers(final(self)@, old(self)@),
    {
        let lo = self.mem_read(pos)?;
        let hi = self.mem_read(pos.wrapping_add(1))?;
        Ok(((hi as u16) << 8) | (lo as u16))
    }

    /// Writes a little-endian word: low byte at `pos`, high byte at the next
    /// address (with wrap).
    pub fn mem_write_u16(&mut self, pos: u16, data: u16) -> (r: Result<(), BusError>)
        requires
            old(self).wf(),
        ensures
            final(self).wf(),
            final(self).bus.cycles == old(self).bus.cycles,
            outcome(r, final(self)@, wr16(old(self)@, pos, data)),
            same_registers(final(self)@, old(self)@),
    {
        let hi = (data >> 8) as u8;
        let lo = (data & 0xff) as u8;
        self.mem_write(pos, lo)?;
        self.mem_write(pos.wrapping_add(1), hi)?;
        Ok(())
    }

    /// Pop: S increases, then the byte at 0x0100 + S is read.
    pub fn pop_stack(&mut self) -> (r: u8)
        requires
            old(self).wf(),
        ensures
            final(self).wf(),
            final(self).bus.cycles == old(self).bus.cycles,
            (final(self)@, r) == pop(old(self)@),
    {
        self.stack_pointer = self.stack_pointer.wrapping_add(1);
        let addr = STACK + self.stack_pointer as u16;
        let sp = self.stack_pointer;
        assert(addr & 0x07FF == addr && addr <= 0x1FF) by (bit_vector)
            requires
                addr == 0x0100u16 + sp as u16,
        ;
        self.bus.mem_read(addr)
    }

    /// Push: `data` goes to 0x0100 + S, then S decreases.
    pub fn push_stack(&mut self, data: u8)
        requires
            old(self).wf(),
        ensures
            final(self).wf(),
            final(self).bus.cycles == old(self).bus.cycles,
            final(self)@ == push(old(self)@, data),
    {
        let addr = STACK + self.stack_pointer as u16;
        let sp = self.stack_pointer;
        assert(addr & 0x07FF == addr && addr <= 0x1FF) by (bit_vector)
            requires
                addr == 0x0100u16 + sp as u16,
        ;
        self.bus.mem_write(addr, data);
        self.stack_pointer = self.stack_pointer.wrapping_sub(1);
    }

    fn pop_stack_u16(&mut self) -> (r: u16)
        requires
            old(self).wf(),
        ensures
            final(self).wf(),
            final(self).bus.cycles == old(self).bus.cycles,
            (final(self)@, r) == pop16(old(self)@),
    {
        let lo = self.pop_stack() as u16;
        let hi = self.pop_stack() as u16;
        (hi << 8) | lo
    }

    pub(crate) fn push_stack_u16(&mut self, data: u16)
        requires
            old(self).wf(),
        ensures
            final(self).wf(),
            final(self).bus.cycles == old(self).bus.cycles,
            final(self)@ == push16(old(self)@, data),
    {
        let hi = (data >> 8) as u8;
        let lo = (data & 0xff) as u8;
        self.push_stack(hi);
        self.push_stack(lo);
    }

    fn update_zero_and_negative_flags(&mut self, result: u8)
        ensures
            final(self)@ == set_zn(old(self)@, result),
            final(self).bus == old(self).bus,
    {
        self.status = set_flag(self.status, ZERO, result == 0);
        self.status = set_flag(self.status, NEGATIVE, result & 0b1000_0000 != 0);
    }

    fn set_status_flag(&mut self, mask: u8, on: bool)
        ensures
            final(self)@ == set_p(old(self)@, mask, on),
            final(self).bus == old(self).bus,
    {
        self.status = set_flag(self.status, mask, on);
    }

    /// A + M + C into A, with C, V, Z and N.
    fn add_to_register_a(&mut self, data: u8)
        ensures
            final(self)@ == add_to_a(old(self)@, data),
            final(self).bus == old(self).bus,
    {
        let sum: u16 = self.register_a as u16 + data as u16 + (self.status & CARRY) as u16;
        self.status = set_flag(self.status, CARRY, sum > 0xFF);
        let result = (sum % 256) as u8;
        self.status = set_flag(
            self.status,
            OVERFLOW,
            (data ^ result) & (result ^ self.register_a) & 0x80 != 0,
        );
        self.register_a = result;
        self.update_zero_and_negative_flags(result);
    }

    fn page_cross(&self, addr1: u16, addr2: u16) -> (r: bool)
        ensures
            r == (addr1 & 0xFF00 != addr2 & 0xFF00),
    {
        addr1 & 0xFF00 != addr2 & 0xFF00
    }

    fn operand_address_at(&mut self, mode: &AddressingMode, at: u16) -> (r: Result<(u16, bool), BusError>)
        requires
            old(self).wf(),
        ensures
            final(self).wf(),
            final(self).bus.cycles == old(self).bus.cycles,
            outcome(r, final(self)@, operand_at(old(self)@, *mode, at)),
    {
        match mode {
            AddressingMode::ZeroPage => {
                let v = self.mem_read(at)?;
                Ok((v as u16, false))
            },
            AddressingMode::ZeroPage_X => {
                let pos = self.mem_read(at)?;
                Ok((pos.wrapping_add(self.register_x) as u16, false))
            },
            AddressingMode::ZeroPage_Y => {
                let pos = self.mem_read(at)?;
                Ok((pos.wrapping_add(self.register_y) as u16, false))
            },
            AddressingMode::Absolute => {
                let a = self.mem_read_u16(at)?;
                Ok((a, false))
            },
            AddressingMode::Absolute_X => {
                let base = self.mem_read_u16(at)?;
                let addr = base.wrapping_add(self.register_x as u16);
                Ok((addr, self.page_cross(base, addr)))
            },
            AddressingMode::Absolute_Y => {
                let base = self.mem_read_u16(at)?;
                let addr = base.wrapping_add(self.register_y as u16);
                Ok((addr, self.page_cross(base, addr)))
            },
            AddressingMode::Indirect_X => {
                let base = self.mem_read(at)?;
                let ptr = base.wrapping_add(self.register_x);
                let lo = self.mem_read(ptr as u16)?;
                let hi = self.mem_read(ptr.wrapping_add(1) as u16)?;
                Ok((((hi as u16) << 8) | (lo as u16), false))
            },
            AddressingMode::Indirect_Y => {
                let base = self.mem_read(at)?;
                let lo = self.mem_read(base as u16)?;
                let hi = self.mem_read(base.wrapping_add(1) as u16)?;
                let deref_base = ((hi as u16) << 8) | (lo as u16);
                let deref = deref_base.wrapping_add(self.register_y as u16);
                Ok((deref, self.page_cross(deref, deref_base)))
            },
            _ => Ok((at, false)),
        }
    }

    /// The operand's address for the instruction at PC, and whether indexing
    /// crossed a page; see `operand_at`.
    pub fn get_operand_address(&mut self, mode: &AddressingMode) -> (r: Result<(u16, bool), BusError>)
        requires
            old(self).wf(),
            *mode != AddressingMode::NoneAddressing,
        ensures
            final(self).wf(),
            final(self).bus.cycles == old(self).bus.cycles,
            outcome(r, final(self)@, operand(old(self)@, *mode)),
    {
        self.operand_address(mode)
    }

    fn operand_address(&mut self, mode: &AddressingMode) -> (r: Result<(u16, bool), BusError>)
        requires
            old(self).wf(),
        ensures
            final(self).wf(),
            final(self).bus.cycles == old(self).bus.cycles,
            outcome(r, final(self)@, operand(old(self)@, *mode)),
    {
        let pc = self.program_counter;
        self.operand_address_at(mode, pc)
    }

    /// The address that an operand stored at `addr` designates in `mode`
    /// (for a tracer); Immediate designates `addr` itself.
    pub fn get_absolute_address(&mut self, mode: &AddressingMode, addr: u16) -> (r: Result<u16, BusError>)
        requires
            old(self).wf(),
            *mode != AddressingMode::NoneAddressing,
        ensures
            final(self).wf(),
            final(self).bus.cycles == old(self).bus.cycles,
            match operand_at(old(self)@, *mode, addr) {
                Ok((s, (a, _))) => r == Ok::<u16, BusError>(a) && final(self)@ == s,
                Err(e) => r == Err::<u16, BusError>(e),
            },
    {
        let (a, _) = self.operand_address_at(mode, addr)?;
        Ok(a)
    }

    fn read_operand(&mut self, mode: &AddressingMode) -> (r: Result<(u8, bool), BusError>)
        requires
            old(self).wf(),
        ensures
            final(self).wf(),
            final(self).bus.cycles == old(self).bus.cycles,
            outcome(r, final(self)@, load(old(self)@, *mode)),
    {
        let (addr, page_crossed) = self.operand_address(mode)?;
        let value = self.mem_read(addr)?;
        Ok((value, page_crossed))
    }

    pub(crate) fn lda(&mut self, mode: &AddressingMode) -> (r: Result<bool, BusError>)
        requires
            old(self).wf(),
        ensures
            final(self).wf(),
            final(self).bus.cycles == old(self).bus.cycles,
            outcome(r, final(self)@, read_op(old(self)@, *mode, AluOp::Lda)),
    {
        let (value, page_crossed) = self.read_operand(mode)?;
        self.register_a = value;
        self.update_zero_and_negative_flags(value);
        Ok(page_crossed)
    }

    pub(crate) fn ldx(&mut self, mode: &AddressingMode) -> (r: Result<bool, BusError>)
        requires
            old(self).wf(),
        ensures
            final(self).wf(),
            final(self).bus.cycles == old(self).bus.cycles,
            outcome(r, final(self)@, read_op(old(self)@, *mode, AluOp::Ldx)),
    {
        let (value, page_crossed) = self.read_operand(mode)?;
        self.register_x = value;
        self.update_zero_and_negative_flags(value);
        Ok(page_crossed)
    }

    pub(crate) fn ldy(&mut self, mode: &AddressingMode) -> (r: Result<bool, BusError>)
        requires
            old(self).wf(),
        ensures
            final(self).wf(),
            final(self).bus.cycles == old(self).bus.cycles,
            outcome(r, final(self)@, read_op(old(self)@, *mode, AluOp::Ldy)),
    {
        let (value, page_crossed) = self.read_operand(mode)?;
        self.register_y = value;
        self.update_zero_and_negative_flags(value);
        Ok(page_crossed)
    }

    pub(crate) fn and(&mut self, mode: &AddressingMode) -> (r: Result<bool, BusError>)
        requires
            old(self).wf(),
        ensures
            final(self).wf(),
            final(self).bus.cycles == old(self).bus.cycles,
            outcome(r, final(self)@, read_op(old(self)@, *mode, AluOp::And)),
    {
        let (value, page_crossed) = self.read_operand(mode)?;
        self.register_a = self.register_a & value;
        self.update_zero_and_negative_flags(self.register_a);
        Ok(page_crossed)
    }

    pub(crate) fn ora(&mut self, mode: &AddressingMode) -> (r: Result<bool, BusError>)
        requires
            old(self).wf(),
        ensures
            final(self).wf(),
            final(self).bus.cycles == old(self).bus.cycles,
            outcome(r, final(self)@, read_op(old(self)@, *mode, AluOp::Ora)),
    {
        let (value, page_crossed) = self.read_operand(mode)?;
        self.register_a = self.register_a | value;
        self.update_zero_and_negative_flags(self.register_a);
        Ok(page_crossed)
    }

    pub(crate) fn eor(&mut self, mode: &AddressingMode) -> (r: Result<bool, BusError>)
        requires
            old(self).wf(),
        ensures
            final(self).wf(),
            final(self).bus.cycles == old(self).bus.cycles,
            outcome(r, final(self)@, read_op(old(self)@, *mode, AluOp::Eor)),
    {
        let (value, page_crossed) = self.read_operand(mode)?;
        self.register_a = self.register_a ^ value;
        self.update_zero_and_negative_flags(self.register_a);
        Ok(page_crossed)
    }

    pub(crate) fn adc(&mut self, mode: &AddressingMode) -> (r: Result<bool, BusError>)
        requires
            old(self).wf(),
        ensures
            final(self).wf(),
            final(self).bus.cycles == old(self).bus.cycles,
            outcome(r, final(self)@, read_op(old(self)@, *mode, AluOp::Adc)),
    {
        let (value, page_crossed) = self.read_operand(mode)?;
        self.add_to_register_a(value);
        Ok(page_crossed)
    }

    /// A - M - (1 - C), computed as A + !M + C.
    pub(crate) fn sbc(&mut self, mode: &AddressingMode) -> (r: Result<bool, BusError>)
        requires
            old(self).wf(),
        ensures
            final(self).wf(),
            final(self).bus.cycles == old(self).bus.cycles,
            outcome(r, final(self)@, read_op(old(self)@, *mode, AluOp::Sbc)),
    {
        let (value, page_crossed) = self.read_operand(mode)?;
        self.add_to_register_a(!value);
        Ok(page_crossed)
    }

    pub(crate) fn bit(&mut self, mode: &AddressingMode) -> (r: Result<bool, BusError>)
        requires
            old(self).wf(),
        ensures
            final(self).wf(),
            final(self).bus.cycles == old(self).bus.cycles,
            outcome(r, final(self)@, read_op(old(self)@, *mode, AluOp::Bit)),
    {
        let (value, page_crossed) = self.read_operand(mode)?;
        self.set_status_flag(OVERFLOW, (value & 0b0100_0000) >> 6 == 1);
        self.set_status_flag(NEGATIVE, value >> 7 == 1);
        let a = self.register_a;
        self.set_status_flag(ZERO, a & value == 0);
        let page_crossed = false;
        Ok(page_crossed)
    }

    /// The reading NOPs: the operand is read and dropped.
    pub(crate) fn ign(&mut self, mode: &AddressingMode) -> (r: Result<bool, BusError>)
        requires
            old(self).wf(),
        ensures
            final(self).wf(),
            final(self).bus.cycles == old(self).bus.cycles,
            outcome(r, final(self)@, read_op(old(self)@, *mode, AluOp::Ign)),
    {
        let (value, page_crossed) = self.read_operand(mode)?;

        Ok(page_crossed)
    }

    /// LAX: LDA, then A into X.
    pub(crate) fn lax(&mut self, mode: &AddressingMode) -> (r: Result<bool, BusError>)
        requires
            old(self).wf(),
        ensures
            final(self).wf(),
            final(self).bus.cycles == old(self).bus.cycles,
            outcome(r, final(self)@, read_op(old(self)@, *mode, AluOp::Lax)),
    {
        let (value, page_crossed) = self.read_operand(mode)?;
        self.register_a = value;
        self.update_zero_and_negative_flags(value);
        self.register_x = self.register_a;
        let page_crossed = false;
        Ok(page_crossed)
    }

    pub(crate) fn anc(&mut self, mode: &AddressingMode) -> (r: Result<bool, BusError>)
        requires
            old(self).wf(),
        ensures
            final(self).wf(),
            final(self).bus.cycles == old(self).bus.cycles,
            outcome(r, final(self)@, read_op(old(self)@, *mode, AluOp::Anc)),
    {
        let (value, page_crossed) = self.read_operand(mode)?;
        self.register_a = self.register_a & value;
        self.update_zero_and_negative_flags(self.register_a);
        let on = self.status == 0b1000_0000;
        self.set_status_flag(CARRY, on);
        let page_crossed = false;
        Ok(page_crossed)
    }

    pub(crate) fn alr(&mut self, mode: &AddressingMode) -> (r: Result<bool, BusError>)
        requires
            old(self).wf(),
        ensures
            final(self).wf(),
            final(self).bus.cycles == old(self).bus.cycles,
            outcome(r, final(self)@, read_op(old(self)@, *mode, AluOp::Alr)),
    {
        let (value, page_crossed) = self.read_operand(mode)?;
        self.register_a = self.register_a & value;
        self.update_zero_and_negative_flags(self.register_a);
        self.lsr_a();
        let page_crossed = false;
        Ok(page_crossed)
    }

    pub(crate) fn arr(&mut self, mode: &AddressingMode) -> (r: Result<bool, BusError>)
        requires
            old(self).wf(),
        ensures
            final(self).wf(),
            final(self).bus.cycles == old(self).bus.cycles,
            outcome(r, final(self)@, read_op(old(self)@, *mode, AluOp::Arr)),
    {
        let (value, page_crossed) = self.read_operand(mode)?;
        self.register_a = self.register_a & value;
        self.update_zero_and_negative_flags(self.register_a);
        self.ror_a();
        let result = self.register_a;
        let bit_5 = (result >> 5) & 1;
        let bit_6 = (result >> 6) & 1;
        self.set_status_flag(CARRY, bit_6 == 1);
        self.set_status_flag(OVERFLOW, bit_5 ^ bit_6 == 1);
        self.update_zero_and_negative_flags(result);
        let page_crossed = false;
        Ok(page_crossed)
    }

    /// AXS: X = (A & X) - M, with C set when no borrow.
    pub(crate) fn axs(&mut self, mode: &AddressingMode) -> (r: Result<bool, BusError>)
        requires
            old(self).wf(),
        ensures
            final(self).wf(),
            final(self).bus.cycles == old(self).bus.cycles,
            outcome(r, final(self)@, read_op(old(self)@, *mode, AluOp::Axs)),
    {
        let (value, page_crossed) = self.read_operand(mode)?;
        let x_and_a = self.register_x & self.register_a;
        let result = x_and_a.wrapping_sub(value);
        if value <= x_and_a {
            self.status = self.status | CARRY;
        }
        self.update_zero_and_negative_flags(result);
        self.register_x = result;
        let page_crossed = false;
        Ok(page_crossed)
    }

    pub(crate) fn las(&mut self, mode: &AddressingMode) -> (r: Result<bool, BusError>)
        requires
            old(self).wf(),
        ensures
            final(self).wf(),
            final(self).bus.cycles == old(self).bus.cycles,
            outcome(r, final(self)@, read_op(old(self)@, *mode, AluOp::Las)),
    {
        let (value, page_crossed) = self.read_operand(mode)?;
        let data = value & self.stack_pointer;
        self.register_a = data;
        self.register_x = data;
        self.stack_pointer = data;
        self.update_zero_and_negative_flags(data);
        let page_crossed = false;
        Ok(page_crossed)
    }

    pub(crate) fn xaa(&mut self, mode: &AddressingMode) -> (r: Result<bool, BusError>)
        requires
            old(self).wf(),
        ensures
            final(self).wf(),
            final(self).bus.cycles == old(self).bus.cycles,
            outcome(r, final(self)@, read_op(old(self)@, *mode, AluOp::Xaa)),
    {
        let (value, page_crossed) = self.read_operand(mode)?;
        self.register_a = self.register_x;
        self.update_zero_and_negative_flags(self.register_a);
        self.register_a = self.register_a & value;
        self.update_zero_and_negative_flags(self.register_a);
        let page_crossed = false;
        Ok(page_crossed)
    }

    pub(crate) fn cmp(&mut self, mode: &AddressingMode, reg_value: u8) -> (r: Result<bool, BusError>)
        requires
            old(self).wf(),
        ensures
            final(self).wf(),
            final(self).bus.cycles == old(self).bus.cycles,
            outcome(r, final(self)@, read_op(old(self)@, *mode, AluOp::Cmp(reg_value))),
    {
        let (value, page_crossed) = self.read_operand(mode)?;
        self.set_status_flag(CARRY, reg_value >= value);
        self.update_zero_and_negative_flags(reg_value.wrapping_sub(value));
        Ok(page_crossed)
    }

    pub(crate) fn lxa(&mut self, mode: &AddressingMode) -> (r: Result<bool, BusError>)
        requires
            old(self).wf(),
        ensures
            final(self).wf(),
            final(self).bus.cycles == old(self).bus.cycles,
            outcome(r, final(self)@, lxa(old(self)@, *mode)),
    {
        let page_crossed = self.lda(mode)?;
        self.tax();
        Ok(page_crossed)
    }

    pub(crate) fn asl_a(&mut self)
        ensures
            final(self)@ == asl_acc(old(self)@),
            final(self).bus == old(self).bus,
    {
        let value = self.register_a;
        self.set_status_flag(CARRY, value >> 7 == 1);
        self.register_a = value << 1;
        self.update_zero_and_negative_flags(self.register_a);
    }

    pub(crate) fn lsr_a(&mut self)
        ensures
            final(self)@ == lsr_acc(old(self)@),
            final(self).bus == old(self).bus,
    {
        let value = self.register_a;
        self.set_status_flag(CARRY, value & 1 == 1);
        self.register_a = value >> 1;
        self.update_zero_and_negative_flags(self.register_a);
    }

    pub(crate) fn rol_a(&mut self)
        ensures
            final(self)@ == rol_acc(old(self)@),
            final(self).bus == old(self).bus,
    {
        let value = self.register_a;
        let rotated = if self.status & CARRY == 1 { (value << 1) | 1 } else { value << 1 };
        self.set_status_flag(CARRY, value >> 7 == 1);
        self.register_a = rotated;
        self.update_zero_and_negative_flags(rotated);
    }

    pub(crate) fn ror_a(&mut self)
        ensures
            final(self)@ == ror_acc(old(self)@),
            final(self).bus == old(self).bus,
    {
        let value = self.register_a;
        let rotated = if self.status & CARRY == 1 { (value >> 1) | 0b1000_0000 } else { value >> 1 };
        self.set_status_flag(CARRY, value & 1 == 1);
        self.register_a = rotated;
        self.update_zero_and_negative_flags(rotated);
    }

    pub(crate) fn asl_m(&mut self, mode: &AddressingMode) -> (r: Result<u8, BusError>)
        requires
            old(self).wf(),
        ensures
            final(self).wf(),
            final(self).bus.cycles == old(self).bus.cycles,
            outcome(r, final(self)@, rmw(old(self)@, *mode, RmwOp::Asl)),
    {
        let (addr, _) = self.operand_address(mode)?;
        let value = self.mem_read(addr)?;
        self.set_status_flag(CARRY, value >> 7 == 1);
        let result = value << 1;
        self.mem_write(addr, result)?;
        self.update_zero_and_negative_flags(result);
        Ok(result)
    }

    pub(crate) fn lsr_m(&mut self, mode: &AddressingMode) -> (r: Result<u8, BusError>)
        requires
            old(self).wf(),
        ensures
            final(self).wf(),
            final(self).bus.cycles == old(self).bus.cycles,
            outcome(r, final(self)@, rmw(old(self)@, *mode, RmwOp::Lsr)),
    {
        let (addr, _) = self.operand_address(mode)?;
        let value = self.mem_read(addr)?;
        self.set_status_flag(CARRY, value & 1 == 1);
        let result = value >> 1;
        self.mem_write(addr, result)?;
        self.update_zero_and_negative_flags(result);
        Ok(result)
    }

    pub(crate) fn rol_m(&mut self, mode: &AddressingMode) -> (r: Result<u8, BusError>)
        requires
            old(self).wf(),
        ensures
            final(self).wf(),
            final(self).bus.cycles == old(self).bus.cycles,
            outcome(r, final(self)@, rmw(old(self)@, *mode, RmwOp::Rol)),
    {
        let (addr, _) = self.operand_address(mode)?;
        let value = self.mem_read(addr)?;
        let result = if self.status & CARRY == 1 { (value << 1) | 1 } else { value << 1 };
        self.set_status_flag(CARRY, value >> 7 == 1);
        self.mem_write(addr, result)?;
        self.update_zero_and_negative_flags(result);
        Ok(result)
    }

    pub(crate) fn ror_m(&mut self, mode: &AddressingMode) -> (r: Result<u8, BusError>)
        requires
            old(self).wf(),
        ensures
            final(self).wf(),
            final(self).bus.cycles == old(self).bus.cycles,
            outcome(r, final(self)@, rmw(old(self)@, *mode, RmwOp::Ror)),
    {
        let (addr, _) = self.operand_address(mode)?;
        let value = self.mem_read(addr)?;
        let result = if self.status & CARRY == 1 { (value >> 1) | 0b1000_0000 } else { value >> 1 };
        self.set_status_flag(CARRY, value & 1 == 1);
        self.mem_write(addr, result)?;
        self.update_zero_and_negative_flags(result);
        Ok(result)
    }

    pub(crate) fn inc(&mut self, mode: &AddressingMode) -> (r: Result<u8, BusError>)
        requires
            old(self).wf(),
        ensures
            final(self).wf(),
            final(self).bus.cycles == old(self).bus.cycles,
            outcome(r, final(self)@, rmw(old(self)@, *mode, RmwOp::Inc)),
    {
        let (addr, _) = self.operand_address(mode)?;
        let value = self.mem_read(addr)?;
        let result = value.wrapping_add(1);
        self.mem_write(addr, result)?;
        self.update_zero_and_negative_flags(result);
        Ok(result)
    }

    pub(crate) fn dec(&mut self, mode: &AddressingMode) -> (r: Result<u8, BusError>)
        requires
            old(self).wf(),
        ensures
            final(self).wf(),
            final(self).bus.cycles == old(self).bus.cycles,
            outcome(r, final(self)@, rmw(old(self)@, *mode, RmwOp::Dec)),
    {
        let (addr, _) = self.operand_address(mode)?;
        let value = self.mem_read(addr)?;
        let result = value.wrapping_sub(1);
        self.mem_write(addr, result)?;
        self.update_zero_and_negative_flags(result);
        Ok(result)
    }

    pub(crate) fn unofficial_slo(&mut self, mode: &AddressingMode) -> (r: Result<bool, BusError>)
        requires
            old(self).wf(),
        ensures
            final(self).wf(),
            final(self).bus.cycles == old(self).bus.cycles,
            outcome(r, final(self)@, combo(old(self)@, *mode, ComboOp::Slo)),
    {
        let data = self.asl_m(mode)?;
        self.register_a = self.register_a | data;
        self.update_zero_and_negative_flags(self.register_a);
        Ok(false)
    }

    pub(crate) fn unofficial_rla(&mut self, mode: &AddressingMode) -> (r: Result<bool, BusError>)
        requires
            old(self).wf(),
        ensures
            final(self).wf(),
            final(self).bus.cycles == old(self).bus.cycles,
            outcome(r, final(self)@, combo(old(self)@, *mode, ComboOp::Rla)),
    {
        let data = self.rol_m(mode)?;
        self.register_a = self.register_a & data;
        self.update_zero_and_negative_flags(self.register_a);
        Ok(false)
    }

    pub(crate) fn unofficial_sre(&mut self, mode: &AddressingMode) -> (r: Result<bool, BusError>)
        requires
            old(self).wf(),
        ensures
            final(self).wf(),
            final(self).bus.cycles == old(self).bus.cycles,
            outcome(r, final(self)@, combo(old(self)@, *mode, ComboOp::Sre)),
    {
        let data = self.lsr_m(mode)?;
        self.register_a = self.register_a ^ data;
        self.update_zero_and_negative_flags(self.register_a);
        Ok(false)
    }

    pub(crate) fn unofficial_rra(&mut self, mode: &AddressingMode) -> (r: Result<bool, BusError>)
        requires
            old(self).wf(),
        ensures
            final(self).wf(),
            final(self).bus.cycles == old(self).bus.cycles,
            outcome(r, final(self)@, combo(old(self)@, *mode, ComboOp::Rra)),
    {
        let data = self.ror_m(mode)?;
        self.add_to_register_a(data);
        Ok(false)
    }

    pub(crate) fn unofficial_isb(&mut self, mode: &AddressingMode) -> (r: Result<bool, BusError>)
        requires
            old(self).wf(),
        ensures
            final(self).wf(),
            final(self).bus.cycles == old(self).bus.cycles,
            outcome(r, final(self)@, combo(old(self)@, *mode, ComboOp::Isb)),
    {
        let data = self.inc(mode)?;
        self.add_to_register_a(!data);
        Ok(false)
    }

    pub(crate) fn unofficial_dcp(&mut self, mode: &AddressingMode) -> (r: Result<bool, BusError>)
        requires
            old(self).wf(),
        ensures
            final(self).wf(),
            final(self).bus.cycles == old(self).bus.cycles,
            outcome(r, final(self)@, dcp(old(self)@, *mode)),
    {
        let (addr, _) = self.operand_address(mode)?;
        let value = self.mem_read(addr)?;
        let data = value.wrapping_sub(1);
        self.mem_write(addr, data)?;
        let reg = self.register_a;
        self.set_status_flag(CARRY, reg >= data);
        self.update_zero_and_negative_flags(reg.wrapping_sub(data));
        Ok(false)
    }

    pub(crate) fn sta(&mut self, mode: &AddressingMode) -> (r: Result<bool, BusError>)
        requires
            old(self).wf(),
        ensures
            final(self).wf(),
            final(self).bus.cycles == old(self).bus.cycles,
            outcome(r, final(self)@, store(old(self)@, *mode, old(self).register_a)),
    {
        let data = self.register_a;
        let (addr, _) = self.operand_address(mode)?;
        self.mem_write(addr, data)?;
        Ok(false)
    }

    pub(crate) fn stx(&mut self, mode: &AddressingMode) -> (r: Result<bool, BusError>)
        requires
            old(self).wf(),
        ensures
            final(self).wf(),
            final(self).bus.cycles == old(self).bus.cycles,
            outcome(r, final(self)@, store(old(self)@, *mode, old(self).register_x)),
    {
        let data = self.register_x;
        let (addr, _) = self.operand_address(mode)?;
        self.mem_write(addr, data)?;
        Ok(false)
    }

    pub(crate) fn sty(&mut self, mode: &AddressingMode) -> (r: Result<bool, BusError>)
        requires
            old(self).wf(),
        ensures
            final(self).wf(),
            final(self).bus.cycles == old(self).bus.cycles,
            outcome(r, final(self)@, store(old(self)@, *mode, old(self).register_y)),
    {
        let data = self.register_y;
        let (addr, _) = self.operand_address(mode)?;
        self.mem_write(addr, data)?;
        Ok(false)
    }

    pub(crate) fn sax(&mut self, mode: &AddressingMode) -> (r: Result<bool, BusError>)
        requires
            old(self).wf(),
        ensures
            final(self).wf(),
            final(self).bus.cycles == old(self).bus.cycles,
            outcome(r, final(self)@, store(old(self)@, *mode, old(self).register_a & old(self).register_x)),
    {
        let data = self.register_a & self.register_x;
        let (addr, _) = self.operand_address(mode)?;
        self.mem_write(addr, data)?;
        Ok(false)
    }

    /// TAS, AHX, SHX and SHY, with their usual approximate formulas (high-byte
    /// arithmetic wraps).
    pub(crate) fn unstable_store(&mut self, op: UnstableOp) -> (r: Result<bool, BusError>)
        requires
            old(self).wf(),
        ensures
            final(self).wf(),
            final(self).bus.cycles == old(self).bus.cycles,
            outcome(r, final(self)@, unstable_store(old(self)@, op)),
    {
        let base = match op {
            UnstableOp::AhxIndirectY => {
                let pos = self.mem_read(self.program_counter)?;
                self.mem_read_u16(pos as u16)?
            },
            _ => self.mem_read_u16(self.program_counter)?,
        };
        let index = match op {
            UnstableOp::Shy => self.register_x,
            _ => self.register_y,
        };
        let addr = base.wrapping_add(index as u16);
        let high = (addr >> 8) as u8;
        let data = match op {
            UnstableOp::Tas => {
                self.stack_pointer = self.register_a & self.register_x;
                high.wrapping_add(1) & self.stack_pointer
            },
            UnstableOp::AhxIndirectY | UnstableOp::AhxAbsoluteY => self.register_a & self.register_x & high,
            UnstableOp::Shx => self.register_x & high.wrapping_add(1),
            UnstableOp::Shy => self.register_y & high.wrapping_add(1),
        };
        self.mem_write(addr, data)?;
        Ok(false)
    }

    pub(crate) fn tax(&mut self)
        requires
            old(self).wf(),
        ensures
            final(self).wf(),
            final(self).bus.cycles == old(self).bus.cycles,
            final(self)@ == tax(old(self)@),
    {
        self.register_x = self.register_a;
        self.update_zero_and_negative_flags(self.register_x);
    }

    pub(crate) fn tay(&mut self)
        requires
            old(self).wf(),
        ensures
            final(self).wf(),
            final(self).bus.cycles == old(self).bus.cycles,
            final(self)@ == tay(old(self)@),
    {
        self.register_y = self.register_a;
        self.update_zero_and_negative_flags(self.register_y);
    }

    pub(crate) fn tsx(&mut self)
        requires
            old(self).wf(),
        ensures
            final(self).wf(),
            final(self).bus.cycles == old(self).bus.cycles,
            final(self)@ == tsx(old(self)@),
    {
        self.register_x = self.stack_pointer;
        self.update_zero_and_negative_flags(self.register_x);
    }

    pub(crate) fn txa(&mut self)
        requires
            old(self).wf(),
        ensures
            final(self).wf(),
            final(self).bus.cycles == old(self).bus.cycles,
            final(self)@ == txa(old(self)@),
    {
        self.register_a = self.register_x;
        self.update_zero_and_negative_flags(self.register_a);
    }

    pub(crate) fn tya(&mut self)
        requires
            old(self).wf(),
        ensures
            final(self).wf(),
            final(self).bus.cycles == old(self).bus.cycles,
            final(self)@ == tya(old(self)@),
    {
        self.register_a = self.register_y;
        self.update_zero_and_negative_flags(self.register_a);
    }

    pub(crate) fn txs(&mut self)
        requires
            old(self).wf(),
        ensures
            final(self).wf(),
            final(self).bus.cycles == old(self).bus.cycles,
            final(self)@ == txs(old(self)@),
    {
        self.stack_pointer = self.register_x;
    }

    pub(crate) fn inx(&mut self)
        requires
            old(self).wf(),
        ensures
            final(self).wf(),
            final(self).bus.cycles == old(self).bus.cycles,
            final(self)@ == inx(old(self)@),
    {
        self.register_x = self.register_x.wrapping_add(1);
        self.update_zero_and_negative_flags(self.register_x);
    }

    pub(crate) fn iny(&mut self)
        requires
            old(self).wf(),
        ensures
            final(self).wf(),
            final(self).bus.cycles == old(self).bus.cycles,
            final(self)@ == iny(old(self)@),
    {
        self.register_y = self.register_y.wrapping_add(1);
        self.update_zero_and_negative_flags(self.register_y);
    }

    pub(crate) fn dex(&mut self)
        requires
            old(self).wf(),
        ensures
            final(self).wf(),
            final(self).bus.cycles == old(self).bus.cycles,
            final(self)@ == dex(old(self)@),
    {
        self.register_x = self.register_x.wrapping_sub(1);
        self.update_zero_and_negative_flags(self.register_x);
    }

    pub(crate) fn dey(&mut self)
        requires
            old(self).wf(),
        ensures
            final(self).wf(),
            final(self).bus.cycles == old(self).bus.cycles,
            final(self)@ == dey(old(self)@),
    {
        self.register_y = self.register_y.wrapping_sub(1);
        self.update_zero_and_negative_flags(self.register_y);
    }

    pub(crate) fn clc(&mut self)
        requires
            old(self).wf(),
        ensures
            final(self).wf(),
            final(self).bus.cycles == old(self).bus.cycles,
            final(self)@ == set_p(old(self)@, CARRY, false),
    {
        self.set_status_flag(CARRY, false);
    }

    pub(crate) fn cld(&mut self)
        requires
            old(self).wf(),
        ensures
            final(self).wf(),
            final(self).bus.cycles == old(self).bus.cycles,
            final(self)@ == set_p(old(self)@, DECIMAL_MODE, false),
    {
        self.set_status_flag(DECIMAL_MODE, false);
    }

    pub(crate) fn cli(&mut self)
        requires
            old(self).wf(),
        ensures
            final(self).wf(),
            final(self).bus.cycles == old(self).bus.cycles,
            final(self)@ == set_p(old(self)@, INTERRUPT_DISABLE, false),
    {
        self.set_status_flag(INTERRUPT_DISABLE, false);
    }

    pub(crate) fn clv(&mut self)
        requires
            old(self).wf(),
        ensures
            final(self).wf(),
            final(self).bus.cycles == old(self).bus.cycles,
            final(self)@ == set_p(old(self)@, OVERFLOW, false),
    {
        self.set_status_flag(OVERFLOW, false);
    }

    pub(crate) fn sec(&mut self)
        requires
            old(self).wf(),
        ensures
            final(self).wf(),
            final(self).bus.cycles == old(self).bus.cycles,
            final(self)@ == set_p(old(self)@, CARRY, true),
    {
        self.set_status_flag(CARRY, true);
    }

    pub(crate) fn sed(&mut self)
        requires
            old(self).wf(),
        ensures
            final(self).wf(),
            final(self).bus.cycles == old(self).bus.cycles,
            final(self)@ == set_p(old(self)@, DECIMAL_MODE, true),
    {
        self.set_status_flag(DECIMAL_MODE, true);
    }

    pub(crate) fn sei(&mut self)
        requires
            old(self).wf(),
        ensures
            final(self).wf(),
            final(self).bus.cycles == old(self).bus.cycles,
            final(self)@ == set_p(old(self)@, INTERRUPT_DISABLE, true),
    {
        self.set_status_flag(INTERRUPT_DISABLE, true);
    }

    pub(crate) fn pha(&mut self)
        requires
            old(self).wf(),
        ensures
            final(self).wf(),
            final(self).bus.cycles == old(self).bus.cycles,
            final(self)@ == push(old(self)@, old(self).register_a),
    {
        let a = self.register_a;
        self.push_stack(a);
    }

    pub(crate) fn php(&mut self)
        requires
            old(self).wf(),
        ensures
            final(self).wf(),
            final(self).bus.cycles == old(self).bus.cycles,
            final(self)@ == php(old(self)@),
    {
        let flag = self.status | 0b0011_0000;
        self.push_stack(flag);
    }

    pub(crate) fn pla(&mut self)
        requires
            old(self).wf(),
        ensures
            final(self).wf(),
            final(self).bus.cycles == old(self).bus.cycles,
            final(self)@ == pla(old(self)@),
    {
        let v = self.pop_stack();
        self.register_a = v;
        self.update_zero_and_negative_flags(v);
    }

    pub(crate) fn plp(&mut self)
        requires
            old(self).wf(),
        ensures
            final(self).wf(),
            final(self).bus.cycles == old(self).bus.cycles,
            final(self)@ == plp(old(self)@),
    {
        let v = self.pop_stack();
        self.status = (v & 0b1110_1111) | 0b0010_0000;
    }

    pub(crate) fn rti(&mut self)
        requires
            old(self).wf(),
        ensures
            final(self).wf(),
            final(self).bus.cycles == old(self).bus.cycles,
            final(self)@ == rti(old(self)@),
    {
        self.plp();
        self.program_counter = self.pop_stack_u16();
    }

    pub(crate) fn rts(&mut self)
        requires
            old(self).wf(),
        ensures
            final(self).wf(),
            final(self).bus.cycles == old(self).bus.cycles,
            final(self)@ == rts(old(self)@),
    {
        self.program_counter = self.pop_stack_u16().wrapping_add(1);
    }

    pub fn branch(&mut self, condition: bool) -> (r: Result<bool, BusError>)
        requires
            old(self).wf(),
        ensures
            final(self).wf(),
            final(self).bus.cycles == old(self).bus.cycles,
            outcome(r, final(self)@, branch(old(self)@, condition)),
    {
        if condition {
            let jump = self.mem_read(self.program_counter)?;
            let next = self.program_counter.wrapping_add(1);
            self.program_counter = if jump < 128 {
                next.wrapping_add(jump as u16)
            } else {
                next.wrapping_sub(256 - jump as u16)
            };
        }
        Ok(false)
    }

    pub(crate) fn bcc(&mut self) -> (r: Result<bool, BusError>)
        requires
            old(self).wf(),
        ensures
            final(self).wf(),
            final(self).bus.cycles == old(self).bus.cycles,
            outcome(r, final(self)@, branch(old(self)@, old(self).status & CARRY == 0)),
    {
        let condition = self.status & CARRY == 0;
        self.branch(condition)
    }

    pub(crate) fn bcs(&mut self) -> (r: Result<bool, BusError>)
        requires
            old(self).wf(),
        ensures
            final(self).wf(),
            final(self).bus.cycles == old(self).bus.cycles,
            outcome(r, final(self)@, branch(old(self)@, old(self).status & CARRY != 0)),
    {
        let condition = self.status & CARRY != 0;
        self.branch(condition)
    }

    pub(crate) fn beq(&mut self) -> (r: Result<bool, BusError>)
        requires
            old(self).wf(),
        ensures
            final(self).wf(),
            final(self).bus.cycles == old(self).bus.cycles,
            outcome(r, final(self)@, branch(old(self)@, old(self).status & ZERO != 0)),
    {
        let condition = self.status & ZERO != 0;
        self.branch(condition)
    }

    pub(crate) fn bmi(&mut self) -> (r: Result<bool, BusError>)
        requires
            old(self).wf(),
        ensures
            final(self).wf(),
            final(self).bus.cycles == old(self).bus.cycles,
            outcome(r, final(self)@, branch(old(self)@, old(self).status & NEGATIVE != 0)),
    {
        let condition = self.status & NEGATIVE != 0;
        self.branch(condition)
    }

    pub(crate) fn bne(&mut self) -> (r: Result<bool, BusError>)
        requires
            old(self).wf(),
        ensures
            final(self).wf(),
            final(self).bus.cycles == old(self).bus.cycles,
            outcome(r, final(self)@, branch(old(self)@, old(self).status & ZERO == 0)),
    {
        let condition = self.status & ZERO == 0;
        self.branch(condition)
    }

    pub(crate) fn bpl(&mut self) -> (r: Result<bool, BusError>)
        requires
            old(self).wf(),
        ensures
            final(self).wf(),
            final(self).bus.cycles == old(self).bus.cycles,
            outcome(r, final(self)@, branch(old(self)@, old(self).status & NEGATIVE == 0)),
    {
        let condition = self.status & NEGATIVE == 0;
        self.branch(condition)
    }

    pub(crate) fn bvc(&mut self) -> (r: Result<bool, BusError>)
        requires
            old(self).wf(),
        ensures
            final(self).wf(),
            final(self).bus.cycles == old(self).bus.cycles,
            outcome(r, final(self)@, branch(old(self)@, old(self).status & OVERFLOW == 0)),
    {
        let condition = self.status & OVERFLOW == 0;
        self.branch(condition)
    }

    pub(crate) fn bvs(&mut self) -> (r: Result<bool, BusError>)
        requires
            old(self).wf(),
        ensures
            final(self).wf(),
            final(self).bus.cycles == old(self).bus.cycles,
            outcome(r, final(self)@, branch(old(self)@, old(self).status & OVERFLOW != 0)),
    {
        let condition = self.status & OVERFLOW != 0;
        self.branch(condition)
    }

    pub(crate) fn jmp_absolute(&mut self) -> (r: Result<bool, BusError>)
        requires
            old(self).wf(),
        ensures
            final(self).wf(),
            final(self).bus.cycles == old(self).bus.cycles,
            outcome(r, final(self)@, jmp_absolute(old(self)@)),
    {
        self.program_counter = self.mem_read_u16(self.program_counter)?;
        Ok(false)
    }

    /// JMP (ind), with the 6502's page-wrap of the vector's high byte.
    pub(crate) fn jmp_indirect(&mut self) -> (r: Result<bool, BusError>)
        requires
            old(self).wf(),
        ensures
            final(self).wf(),
            final(self).bus.cycles == old(self).bus.cycles,
            outcome(r, final(self)@, jmp_indirect(old(self)@)),
    {
        let addr = self.mem_read_u16(self.program_counter)?;
        let indirect_addr = if addr & 0x00ff == 0x00ff {
            let lo = self.mem_read(addr)?;
            let hi = self.mem_read(addr & 0xff00)?;
            ((hi as u16) << 8) | (lo as u16)
        } else {
            self.mem_read_u16(addr)?
        };
        self.program_counter = indirect_addr;
        Ok(false)
    }

    pub(crate) fn jsr(&mut self) -> (r: Result<bool, BusError>)
        requires
            old(self).wf(),
        ensures
            final(self).wf(),
            final(self).bus.cycles == old(self).bus.cycles,
            outcome(r, final(self)@, jsr(old(self)@)),
    {
        let ret = self.program_counter.wrapping_add(1);
        self.push_stack_u16(ret);
        self.program_counter = self.mem_read_u16(self.program_counter)?;
        Ok(false)
    }

}

} // verus!
