//! Running the CPU: interrupt entry, one instruction at a time, the
//! fetch/execute loop, reset and program loading.
use vstd::prelude::*;
use crate::bus::{BusError, BusView, FrameHandler, prg_index};
use crate::cpu::CPU;
use crate::flags::set_flag;
use crate::instructions::{
    CpuView, outcome, same_registers, execute_spec, wr, Executed, interrupt_entry, word, BREAK, BREAK2,
    INTERRUPT_DISABLE,
};
use crate::interrupts::{Interrupt, nmi, nmi_spec};
use crate::opcodes::{lookup, lemma_opcode_bounds};
use crate::ppu::{tick_spec, PpuView};
use crate::unused_bit::{lemma_instruction_keeps_unused_bit, lemma_interrupt_keeps_unused_bit};

verus! {

/// What the host runs before each instruction (a tracer, say).
pub trait InstructionHook<F: FrameHandler> {
    fn before_instruction(&mut self, cpu: &CPU<F>);
}

/// A hook that does nothing.
pub struct NoHook;

impl<F: FrameHandler> InstructionHook<F> for NoHook {
    fn before_instruction(&mut self, cpu: &CPU<F>) {
    }
}

/// The little-endian word that PRG-ROM holds at `addr` (at least 0x8000,
/// below 0xFFFF).
pub open spec fn rom_word(prg: Seq<u8>, addr: u16) -> u16 {
    word(prg[prg_index(prg.len() as int, (addr + 1) as u16)], prg[prg_index(prg.len() as int, addr)])
}

/// Whether a fetched instruction's cycle count is within the table's range.
pub open spec fn cycles_in_range(r: Result<Executed, BusError>) -> bool {
    match r {
        Ok(Executed::Ran { cycles, .. }) => 2 <= cycles <= 8,
        _ => true,
    }
}

/// The power-on registers, with PC from the reset vector.
pub open spec fn reset_spec(s: CpuView) -> CpuView {
    CpuView { a: 0, x: 0, y: 0, sp: 0xFD, p: 0b0010_0100, pc: rom_word(s.bus.prg_rom, 0xFFFC), ..s }
}

/// The start of a turn of the loop: with no NMI pending, nothing happens;
/// with one, the latch is cleared, PC and P are pushed, I is set, two cycles
/// pass (the frame handler may change the controller) and PC comes from
/// the vector at 0xFFFA.
pub open spec fn nmi_entered(s: CpuView, t: CpuView) -> bool {
    match s.bus.ppu.nmi_interrupt {
        None => t == s,
        Some(_) => {
            let cleared = CpuView {
                bus: BusView { ppu: PpuView { nmi_interrupt: None, ..s.bus.ppu }, ..s.bus },
                ..s
            };
            let u = interrupt_entry(cleared, nmi_spec());
            &&& t.a == u.a && t.x == u.x && t.y == u.y && t.sp == u.sp && t.p == u.p
            &&& t.pc == rom_word(u.bus.prg_rom, 0xFFFA)
            &&& t.bus.wram == u.bus.wram
            &&& t.bus.prg_rom == u.bus.prg_rom
            &&& t.bus.ppu == tick_spec(u.bus.ppu, 6).0
            &&& t.bus.cycles == u.bus.cycles.saturating_add(2)
        },
    }
}

/// One turn of the loop from `s`: NMI entry if one is pending, then one
/// instruction as `step_result` says.
pub open spec fn turn(s: CpuView, r: Result<bool, BusError>, t: CpuView) -> bool {
    exists|m: CpuView| #[trigger] nmi_entered(s, m) && step_result(m, r, t)
}

/// Whether each state of `trace` follows from the one before by a turn that
/// ran an instruction other than BRK.
pub open spec fn ran_turns(trace: Seq<CpuView>) -> bool
    decreases trace.len(),
{
    trace.len() <= 1 || (ran_turns(trace.drop_last()) && turn(
        trace[trace.len() - 2],
        Ok::<bool, BusError>(false),
        trace.last(),
    ))
}

/// What running from `s` gives: a sequence of turns that ran instructions,
/// and then a last one that fetched BRK (`Ok`), or that a bus access
/// refused (its error); or, once the cycle counter is full, the loop stops
/// where it is (`Ok`).
pub open spec fn run_result(s: CpuView, r: Result<(), BusError>, t: CpuView) -> bool {
    exists|trace: Seq<CpuView>| #[trigger] ran_turns(trace) && run_ends(s, trace, r, t)
}

pub open spec fn run_ends(s: CpuView, trace: Seq<CpuView>, r: Result<(), BusError>, t: CpuView) -> bool {
    &&& trace.len() >= 1
    &&& trace[0] == s
    &&& match r {
        Ok(()) => turn(trace.last(), Ok::<bool, BusError>(true), t) || (t == trace.last()
            && t.bus.cycles == u64::MAX),
        Err(e) => turn(trace.last(), Err::<bool, BusError>(e), t),
    }
}

/// The state after the first `n` bytes of `program` have been written from
/// 0x0600 on, or the first refused write's error.
pub open spec fn load_spec(s: CpuView, program: Seq<u8>, n: nat) -> Result<(CpuView, ()), BusError>
    decreases n,
{
    if n == 0 {
        Ok((s, ()))
    } else {
        match load_spec(s, program, (n - 1) as nat) {
            Err(e) => Err(e),
            Ok((s1, _)) => wr(s1, (0x0600 + n - 1) as u16, program[n - 1]),
        }
    }
}

proof fn lemma_load_error_stays(s: CpuView, program: Seq<u8>, k: nat, n: nat)
    requires
        k <= n,
        load_spec(s, program, k) is Err,
    ensures
        load_spec(s, program, n) == load_spec(s, program, k),
    decreases n - k,
{
    if k < n {
        lemma_load_error_stays(s, program, k, (n - 1) as nat);
    }
}

/// What a turn of the loop gives when no NMI is pending: BRK stops with
/// the state after its fetch; another instruction leaves the registers and
/// work RAM as `execute_spec` says and spends its cycles on the PPU (the frame
/// handler may change the controller); a refused access gives its error.
pub open spec fn step_result(s: CpuView, r: Result<bool, BusError>, t: CpuView) -> bool {
    match execute_spec(s) {
        Ok((u, Executed::Halted)) => r == Ok::<bool, BusError>(true) && t == u,
        Ok((u, Executed::Ran { page_crossed, cycles })) => {
            &&& r == Ok::<bool, BusError>(false)
            &&& same_registers(t, u)
            &&& t.bus.wram == u.bus.wram
            &&& t.bus.prg_rom == u.bus.prg_rom
            &&& t.bus.ppu == (if page_crossed {
                tick_spec(tick_spec(u.bus.ppu, 3).0, (3 * cycles) as u8).0
            } else {
                tick_spec(u.bus.ppu, (3 * cycles) as u8).0
            })
            &&& t.bus.cycles == (if page_crossed {
                u.bus.cycles.saturating_add(1).saturating_add(cycles as u64)
            } else {
                u.bus.cycles.saturating_add(cycles as u64)
            })
        },
        Err(e) => r == Err::<bool, BusError>(e),
    }
}

impl<F: FrameHandler> CPU<F> {
    /// Interrupt entry: push PC and P (with the interrupt's B and U bits),
    /// set I, spend the interrupt's cycles, jump through its vector.
    pub fn interrupt(&mut self, interrupt: Interrupt)
        requires
            old(self).wf(),
            interrupt.cpu_cycles <= 85,
            0x8000 <= interrupt.vector_addr < 0xFFFF,
        ensures
            final(self).wf(),
            ({
                let s = interrupt_entry(old(self)@, interrupt);
                &&& final(self).register_a == s.a
                &&& final(self).register_x == s.x
                &&& final(self).register_y == s.y
                &&& final(self).stack_pointer == s.sp
                &&& final(self).status == s.p
                &&& final(self).program_counter == rom_word(s.bus.prg_rom, interrupt.vector_addr)
                &&& final(self).bus.cpu_wram@ == s.bus.wram
                &&& final(self).bus.prg_rom@ == s.bus.prg_rom
                &&& final(self).bus.ppu@ == tick_spec(s.bus.ppu, (3 * interrupt.cpu_cycles) as u8).0
                &&& final(self).bus.cycles == old(self).bus.cycles.saturating_add(interrupt.cpu_cycles as u64)
            }),
    {
        let pc = self.program_counter;
        self.push_stack_u16(pc);
        let mut flag = self.status;
        flag = set_flag(flag, BREAK, interrupt.b_flag_mask & BREAK == BREAK);
        flag = set_flag(flag, BREAK2, interrupt.b_flag_mask & BREAK2 == BREAK2);
        self.push_stack(flag);
        self.status = self.status | INTERRUPT_DISABLE;
        self.bus.tick(interrupt.cpu_cycles);
        self.program_counter = self.bus.mem_read_u16(interrupt.vector_addr);
    }

    /// Fetches and runs one instruction, without spending its cycles; see
    /// `execute_spec`.
    pub fn execute_instruction(&mut self) -> (r: Result<Executed, BusError>)
        requires
            old(self).wf(),
        ensures
            final(self).wf(),
            final(self).bus.cycles == old(self).bus.cycles,
            outcome(r, final(self)@, execute_spec(old(self)@)),
            cycles_in_range(r),
            r is Ok && old(self).status & BREAK2 == BREAK2 ==> final(self).status & BREAK2 == BREAK2,
    {
        proof {
            if old(self).status & BREAK2 == BREAK2 {
                lemma_instruction_keeps_unused_bit(old(self)@);
            }
        }
        let code = self.mem_read(self.program_counter)?;
        self.program_counter = self.program_counter.wrapping_add(1);
        if code == 0x00 {
            return Ok(Executed::Halted);
        }
        let program_counter_state = self.program_counter;
        let opcode = lookup(code);
        proof {
            lemma_opcode_bounds(code);
        }
        let page_crossed = self.execute(code, opcode.mode)?;
        if program_counter_state == self.program_counter {
            self.program_counter = self.program_counter.wrapping_add((opcode.len - 1) as u16);
        }
        Ok(Executed::Ran { page_crossed, cycles: opcode.cycles })
    }

    /// One turn of the loop: take a pending NMI, run the hook, then one
    /// instruction, and spend its cycles (one more for a page crossing).
    /// Returns whether the instruction was BRK.
    pub fn step<H: InstructionHook<F>>(&mut self, hook: &mut H) -> (r: Result<bool, BusError>)
        requires
            old(self).wf(),
        ensures
            final(self).wf(),
            r is Ok && old(self).status & BREAK2 == BREAK2 ==> final(self).status & BREAK2 == BREAK2,
            turn(old(self)@, r, final(self)@),
            final(self).bus.cycles >= old(self).bus.cycles,
            r == Ok::<bool, BusError>(false) && old(self).bus.cycles < u64::MAX ==> final(self).bus.cycles
                > old(self).bus.cycles,
    {
        if let Some(_nmi) = self.bus.poll_nmi_status() {
            proof {
                if self.status & BREAK2 == BREAK2 {
                    lemma_interrupt_keeps_unused_bit(self@, nmi_spec());
                }
            }
            self.interrupt(nmi());
        }
        let ghost entered = self@;
        assert(nmi_entered(old(self)@, entered));
        hook.before_instruction(self);
        let executed = self.execute_instruction();
        let r = match executed {
            Err(e) => Err(e),
            Ok(Executed::Halted) => Ok(true),
            Ok(Executed::Ran { page_crossed, cycles }) => {
                if page_crossed {
                    self.bus.tick(1);
                }
                self.bus.tick(cycles);
                Ok(false)
            },
        };
        assert(nmi_entered(old(self)@, entered) && step_result(entered, r, self@));
        r
    }

    /// Runs until BRK, with `callback` before each instruction; see
    /// `run_result`. Stops with the bus's error when the program makes an
    /// access the hardware does not allow, and in any case once the cycle
    /// counter is full (after 2^64 - 1 CPU cycles).
    pub fn run_with_callback<H: InstructionHook<F>>(&mut self, callback: H) -> (r: Result<(), BusError>)
        requires
            old(self).wf(),
        ensures
            final(self).wf(),
            r is Ok && old(self).status & BREAK2 == BREAK2 ==> final(self).status & BREAK2 == BREAK2,
            run_result(old(self)@, r, final(self)@),
    {
        let mut callback = callback;
        let ghost mut trace: Seq<CpuView> = seq![self@];
        while self.bus.cycles < u64::MAX
            invariant
                self.wf(),
                old(self).status & BREAK2 == BREAK2 ==> self.status & BREAK2 == BREAK2,
                ran_turns(trace),
                trace.len() >= 1,
                trace[0] == old(self)@,
                trace.last() == self@,
            decreases u64::MAX - self.bus.cycles,
        {
            let ghost before = self@;
            let stepped = self.step(&mut callback);
            match stepped {
                Err(e) => {
                    assert(ran_turns(trace) && run_ends(old(self)@, trace, Err::<(), BusError>(e), self@));
                    return Err(e);
                },
                Ok(true) => {
                    assert(ran_turns(trace) && run_ends(old(self)@, trace, Ok::<(), BusError>(()), self@));
                    return Ok(());
                },
                Ok(false) => {
                    proof {
                        let next = trace.push(self@);
                        assert(next.drop_last() =~= trace);
                        trace = next;
                    }
                },
            }
        }
        assert(ran_turns(trace) && run_ends(old(self)@, trace, Ok::<(), BusError>(()), self@));
        Ok(())
    }

    pub fn run(&mut self) -> (r: Result<(), BusError>)
        requires
            old(self).wf(),
        ensures
            final(self).wf(),
            r is Ok && old(self).status & BREAK2 == BREAK2 ==> final(self).status & BREAK2 == BREAK2,
            run_result(old(self)@, r, final(self)@),
    {
        self.run_with_callback(NoHook)
    }

    /// Power-on state: A = X = Y = 0, S = 0xFD, P = 0x24, and PC from the
    /// reset vector at 0xFFFC.
    pub fn reset(&mut self)
        requires
            old(self).wf(),
        ensures
            final(self).wf(),
            final(self).register_a == 0,
            final(self).register_x == 0,
            final(self).register_y == 0,
            final(self).stack_pointer == 0xFD,
            final(self).status == 0b0010_0100,
            final(self).program_counter == rom_word(old(self).bus.prg_rom@, 0xFFFC),
            final(self).bus@ == old(self).bus@,
            final(self)@ == reset_spec(old(self)@),
            final(self).bus.gameloop_callback == old(self).bus.gameloop_callback,
    {
        self.register_a = 0;
        self.register_x = 0;
        self.register_y = 0;
        self.stack_pointer = 0xFD;
        self.status = 0b0010_0100;
        self.program_counter = self.bus.mem_read_u16(0xFFFC);
    }

    /// Writes `program` through the bus from 0x0600 on, stopping at the
    /// first write the bus refuses; see `load_spec`. A program of at most
    /// 512 bytes lands in work RAM.
    pub fn load(&mut self, program: Vec<u8>) -> (r: Result<(), BusError>)
        requires
            old(self).wf(),
            program@.len() <= 0xFA00,
        ensures
            final(self).wf(),
            outcome(r, final(self)@, load_spec(old(self)@, program@, program@.len())),
            program@.len() <= 0x200 ==> r is Ok && final(self)@ == (CpuView {
                bus: BusView {
                    wram: old(self)@.bus.wram.subrange(0, 0x600) + program@
                        + old(self)@.bus.wram.subrange(0x600 + program@.len() as int, 0x800),
                    ..old(self)@.bus
                },
                ..old(self)@
            }),
    {
        proof {
            reveal(wr);
        }
        let n = program.len();
        let mut i: usize = 0;
        assert(old(self)@.bus.wram =~= old(self)@.bus.wram.subrange(0, 0x600) + program@.subrange(0, 0)
            + old(self)@.bus.wram.subrange(0x600, 0x800));
        while i < n
            invariant
                n == program@.len() <= 0xFA00,
                i <= n,
                self.wf(),
                old(self)@.bus.wram.len() == 0x800,
                load_spec(old(self)@, program@, i as nat) == Ok::<(CpuView, ()), BusError>((self@, ())),
                n <= 0x200 ==> self@ == (CpuView {
                    bus: BusView {
                        wram: old(self)@.bus.wram.subrange(0, 0x600) + program@.subrange(0, i as int)
                            + old(self)@.bus.wram.subrange(0x600 + i, 0x800),
                        ..old(self)@.bus
                    },
                    ..old(self)@
                }),
            decreases n - i,
        {
            let addr: u16 = 0x0600 + i as u16;
            let ghost before = self@;
            proof {
                reveal(wr);
            }
            match self.mem_write(addr, program[i]) {
                Err(e) => {
                    proof {
                        reveal(wr);
                        lemma_load_error_stays(old(self)@, program@, (i + 1) as nat, n as nat);
                    }
                    return Err(e);
                },
                Ok(()) => {},
            }
            proof {
                reveal(wr);
                if n <= 0x200 {
                    assert(addr & 0x07FF == addr) by (bit_vector)
                        requires
                            0x600 <= addr < 0x800,
                    ;
                    assert(self@.bus.wram == before.bus.wram.update(0x600 + i, program@[i as int]));
                    assert(self@.bus.wram =~= old(self)@.bus.wram.subrange(0, 0x600) + program@.subrange(
                        0,
                        i as int + 1,
                    ) + old(self)@.bus.wram.subrange(0x600 + i + 1, 0x800));
                }
            }
            i = i + 1;
        }
        assert(program@.subrange(0, n as int) =~= program@);
        Ok(())
    }

    /// Loads `program`, resets, and runs: the run starts from the state after
    /// the load, with the power-on registers and PC from the reset vector.
    pub fn load_and_run(&mut self, program: Vec<u8>) -> (r: Result<(), BusError>)
        requires
            old(self).wf(),
            program@.len() <= 0xFA00,
        ensures
            final(self).wf(),
            match load_spec(old(self)@, program@, program@.len()) {
                Err(e) => r == Err::<(), BusError>(e),
                Ok((loaded, _)) => run_result(reset_spec(loaded), r, final(self)@),
            },
            r is Ok ==> final(self).status & BREAK2 == BREAK2,
    {
        self.load(program)?;
        self.reset();
        let status = self.status;
        assert(status & BREAK2 == BREAK2) by (bit_vector)
            requires
                status == 0b0010_0100u8,
        ;
        self.run()
    }
}

} // verus!
