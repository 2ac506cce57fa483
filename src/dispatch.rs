//! Opcode dispatch: which handler runs each opcode byte.
use vstd::prelude::*;
use crate::bus::{BusError, FrameHandler};
use crate::cpu::{AddressingMode, CPU};
use crate::instructions::{
    outcome, instruction, instruction_0, instruction_1, instruction_2, instruction_3,
    instruction_4, instruction_5, instruction_6, instruction_7, UnstableOp,
};
use crate::opcodes::op_info;

verus! {

impl<F: FrameHandler> CPU<F> {
    /// Runs the instruction `code` (not BRK) once its opcode byte has been
    /// fetched; see `instruction`.
    pub(crate) fn execute(&mut self, code: u8, mode: AddressingMode) -> (r: Result<bool, BusError>)
        requires
            old(self).wf(),
            mode == op_info(code).2,
        ensures
            final(self).wf(),
            final(self).bus.cycles == old(self).bus.cycles,
            outcome(r, final(self)@, instruction(old(self)@, code)),
    {
        if code < 32 {
            self.execute_0(code, mode)
        } else if code < 64 {
            self.execute_1(code, mode)
        } else if code < 96 {
            self.execute_2(code, mode)
        } else if code < 128 {
            self.execute_3(code, mode)
        } else if code < 160 {
            self.execute_4(code, mode)
        } else if code < 192 {
            self.execute_5(code, mode)
        } else if code < 224 {
            self.execute_6(code, mode)
        } else {
            self.execute_7(code, mode)
        }
    }

    #[verifier::spinoff_prover]
    fn execute_0(&mut self, code: u8, mode: AddressingMode) -> (r: Result<bool, BusError>)
        requires
            old(self).wf(),
            mode == op_info(code).2,
            0 <= code <= 31,
        ensures
            final(self).wf(),
            final(self).bus.cycles == old(self).bus.cycles,
            outcome(r, final(self)@, instruction_0(old(self)@, code)),
    {
        match code {
            0x01 | 0x05 | 0x09 | 0x0D | 0x11 | 0x15 | 0x19 | 0x1D => self.ora(&mode),
            0x04 | 0x0C | 0x14 | 0x1C => self.ign(&mode),
            0x0B => self.anc(&mode),
            0x0A => { self.asl_a(); Ok(false) },
            0x06 | 0x0E | 0x16 | 0x1E => { self.asl_m(&mode)?; Ok(false) },
            0x03 | 0x07 | 0x0F | 0x13 | 0x17 | 0x1B | 0x1F => self.unofficial_slo(&mode),
            0x10 => self.bpl(),
            0x18 => { self.clc(); Ok(false) },
            0x08 => { self.php(); Ok(false) },
            _ => Ok(false),
        }
    }

    #[verifier::spinoff_prover]
    fn execute_1(&mut self, code: u8, mode: AddressingMode) -> (r: Result<bool, BusError>)
        requires
            old(self).wf(),
            mode == op_info(code).2,
            32 <= code <= 63,
        ensures
            final(self).wf(),
            final(self).bus.cycles == old(self).bus.cycles,
            outcome(r, final(self)@, instruction_1(old(self)@, code)),
    {
        match code {
            0x21 | 0x25 | 0x29 | 0x2D | 0x31 | 0x35 | 0x39 | 0x3D => self.and(&mode),
            0x24 | 0x2C => self.bit(&mode),
            0x34 | 0x3C => self.ign(&mode),
            0x2B => self.anc(&mode),
            0x2A => { self.rol_a(); Ok(false) },
            0x26 | 0x2E | 0x36 | 0x3E => { self.rol_m(&mode)?; Ok(false) },
            0x23 | 0x27 | 0x2F | 0x33 | 0x37 | 0x3B | 0x3F => self.unofficial_rla(&mode),
            0x30 => self.bmi(),
            0x38 => { self.sec(); Ok(false) },
            0x20 => self.jsr(),
            0x28 => { self.plp(); Ok(false) },
            _ => Ok(false),
        }
    }

    #[verifier::spinoff_prover]
    fn execute_2(&mut self, code: u8, mode: AddressingMode) -> (r: Result<bool, BusError>)
        requires
            old(self).wf(),
            mode == op_info(code).2,
            64 <= code <= 95,
        ensures
            final(self).wf(),
            final(self).bus.cycles == old(self).bus.cycles,
            outcome(r, final(self)@, instruction_2(old(self)@, code)),
    {
        match code {
            0x41 | 0x45 | 0x49 | 0x4D | 0x51 | 0x55 | 0x59 | 0x5D => self.eor(&mode),
            0x44 | 0x54 | 0x5C => self.ign(&mode),
            0x4B => self.alr(&mode),
            0x4A => { self.lsr_a(); Ok(false) },
            0x46 | 0x4E | 0x56 | 0x5E => { self.lsr_m(&mode)?; Ok(false) },
            0x43 | 0x47 | 0x4F | 0x53 | 0x57 | 0x5B | 0x5F => self.unofficial_sre(&mode),
            0x50 => self.bvc(),
            0x58 => { self.cli(); Ok(false) },
            0x4C => self.jmp_absolute(),
            0x40 => { self.rti(); Ok(false) },
            0x48 => { self.pha(); Ok(false) },
            _ => Ok(false),
        }
    }

    #[verifier::spinoff_prover]
    fn execute_3(&mut self, code: u8, mode: AddressingMode) -> (r: Result<bool, BusError>)
        requires
            old(self).wf(),
            mode == op_info(code).2,
            96 <= code <= 127,
        ensures
            final(self).wf(),
            final(self).bus.cycles == old(self).bus.cycles,
            outcome(r, final(self)@, instruction_3(old(self)@, code)),
    {
        match code {
            0x61 | 0x65 | 0x69 | 0x6D | 0x71 | 0x75 | 0x79 | 0x7D => self.adc(&mode),
            0x64 | 0x74 | 0x7C => self.ign(&mode),
            0x6B => self.arr(&mode),
            0x6A => { self.ror_a(); Ok(false) },
            0x66 | 0x6E | 0x76 | 0x7E => { self.ror_m(&mode)?; Ok(false) },
            0x63 | 0x67 | 0x6F | 0x73 | 0x77 | 0x7B | 0x7F => self.unofficial_rra(&mode),
            0x70 => self.bvs(),
            0x78 => { self.sei(); Ok(false) },
            0x6C => self.jmp_indirect(),
            0x60 => { self.rts(); Ok(false) },
            0x68 => { self.pla(); Ok(false) },
            _ => Ok(false),
        }
    }

    #[verifier::spinoff_prover]
    fn execute_4(&mut self, code: u8, mode: AddressingMode) -> (r: Result<bool, BusError>)
        requires
            old(self).wf(),
            mode == op_info(code).2,
            128 <= code <= 159,
        ensures
            final(self).wf(),
            final(self).bus.cycles == old(self).bus.cycles,
            outcome(r, final(self)@, instruction_4(old(self)@, code)),
    {
        match code {
            0x8B => self.xaa(&mode),
            0x90 => self.bcc(),
            0x88 => { self.dey(); Ok(false) },
            0x8A => { self.txa(); Ok(false) },
            0x9A => { self.txs(); Ok(false) },
            0x98 => { self.tya(); Ok(false) },
            0x81 | 0x85 | 0x8D | 0x91 | 0x95 | 0x99 | 0x9D => self.sta(&mode),
            0x86 | 0x8E | 0x96 => self.stx(&mode),
            0x84 | 0x8C | 0x94 => self.sty(&mode),
            0x83 | 0x87 | 0x8F | 0x97 => self.sax(&mode),
            0x9B => self.unstable_store(UnstableOp::Tas),
            0x93 => self.unstable_store(UnstableOp::AhxIndirectY),
            0x9F => self.unstable_store(UnstableOp::AhxAbsoluteY),
            0x9E => self.unstable_store(UnstableOp::Shx),
            0x9C => self.unstable_store(UnstableOp::Shy),
            _ => Ok(false),
        }
    }

    #[verifier::spinoff_prover]
    fn execute_5(&mut self, code: u8, mode: AddressingMode) -> (r: Result<bool, BusError>)
        requires
            old(self).wf(),
            mode == op_info(code).2,
            160 <= code <= 191,
        ensures
            final(self).wf(),
            final(self).bus.cycles == old(self).bus.cycles,
            outcome(r, final(self)@, instruction_5(old(self)@, code)),
    {
        match code {
            0xA1 | 0xA5 | 0xA9 | 0xAD | 0xB1 | 0xB5 | 0xB9 | 0xBD => self.lda(&mode),
            0xA2 | 0xA6 | 0xAE | 0xB6 | 0xBE => self.ldx(&mode),
            0xA0 | 0xA4 | 0xAC | 0xB4 | 0xBC => self.ldy(&mode),
            0xA3 | 0xA7 | 0xAF | 0xB3 | 0xB7 | 0xBF => self.lax(&mode),
            0xBB => self.las(&mode),
            0xAB => self.lxa(&mode),
            0xB0 => self.bcs(),
            0xB8 => { self.clv(); Ok(false) },
            0xAA => { self.tax(); Ok(false) },
            0xA8 => { self.tay(); Ok(false) },
            0xBA => { self.tsx(); Ok(false) },
            _ => Ok(false),
        }
    }

    #[verifier::spinoff_prover]
    fn execute_6(&mut self, code: u8, mode: AddressingMode) -> (r: Result<bool, BusError>)
        requires
            old(self).wf(),
            mode == op_info(code).2,
            192 <= code <= 223,
        ensures
            final(self).wf(),
            final(self).bus.cycles == old(self).bus.cycles,
            outcome(r, final(self)@, instruction_6(old(self)@, code)),
    {
        match code {
            0xC1 | 0xC5 | 0xC9 | 0xCD | 0xD1 | 0xD5 | 0xD9 | 0xDD => self.cmp(&mode, self.register_a),
            0xC0 | 0xC4 | 0xCC => self.cmp(&mode, self.register_y),
            0xD4 | 0xDC => self.ign(&mode),
            0xCB => self.axs(&mode),
            0xC6 | 0xCE | 0xD6 | 0xDE => { self.dec(&mode)?; Ok(false) },
            0xC3 | 0xC7 | 0xCF | 0xD3 | 0xD7 | 0xDB | 0xDF => self.unofficial_dcp(&mode),
            0xD0 => self.bne(),
            0xD8 => { self.cld(); Ok(false) },
            0xCA => { self.dex(); Ok(false) },
            0xC8 => { self.iny(); Ok(false) },
            _ => Ok(false),
        }
    }

    #[verifier::spinoff_prover]
    fn execute_7(&mut self, code: u8, mode: AddressingMode) -> (r: Result<bool, BusError>)
        requires
            old(self).wf(),
            mode == op_info(code).2,
            224 <= code <= 255,
        ensures
            final(self).wf(),
            final(self).bus.cycles == old(self).bus.cycles,
            outcome(r, final(self)@, instruction_7(old(self)@, code)),
    {
        match code {
            0xE0 | 0xE4 | 0xEC => self.cmp(&mode, self.register_x),
            0xE1 | 0xE5 | 0xE9 | 0xEB | 0xED | 0xF1 | 0xF5 | 0xF9 | 0xFD => self.sbc(&mode),
            0xF4 | 0xFC => self.ign(&mode),
            0xE6 | 0xEE | 0xF6 | 0xFE => { self.inc(&mode)?; Ok(false) },
            0xE3 | 0xE7 | 0xEF | 0xF3 | 0xF7 | 0xFB | 0xFF => self.unofficial_isb(&mode),
            0xF0 => self.beq(),
            0xF8 => { self.sed(); Ok(false) },
            0xE8 => { self.inx(); Ok(false) },
            _ => Ok(false),
        }
    }
}

} // verus!
