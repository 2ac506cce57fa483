//! The PPU timing core: dot and scanline counters, VBlank and the NMI latch,
//! and the register-level access to VRAM, OAM and palette memory.
use vstd::prelude::*;
use crate::cartridge::Mirroring;
use crate::flags::with_flag;
use crate::ppu_addr_register::{AddrRegister, addr_after_write, addr_after_increment};
use crate::ppu_control_register::{ControlRegister, has_flag, GENERATE_NMI, VRAM_ADD_INCREMENT};
use crate::ppu_mask_register::MaskRegister;
use crate::ppu_scroll_register::ScrollRegister;
use crate::ppu_status_register::{StatusRegister, in_vblank, SPRITE_ZERO_HIT, VBLANK_STARTED};

verus! {

/// Dots per scanline.
pub const DOTS_PER_LINE: u16 = 341;
/// Scanlines per frame.
pub const LINES_PER_FRAME: u16 = 262;
/// The scanline on which VBlank begins.
pub const VBLANK_LINE: u16 = 241;
/// PPU dots per frame: 262 scanlines of 341 dots.
pub const DOTS_PER_FRAME: u32 = 89342;

pub struct NesPPU {
    pub mirroring: Mirroring,
    pub ctrl: ControlRegister,
    pub mask: MaskRegister,
    pub status: StatusRegister,
    pub scroll: ScrollRegister,
    pub addr: AddrRegister,
    pub oam_addr: u8,
    pub oam_data: Vec<u8>,
    pub chr_rom: Vec<u8>,
    pub vram: Vec<u8>,
    pub palette_table: Vec<u8>,
    pub internal_data_buf: u8,
    pub scanline: u16,
    /// The dot within the current scanline.
    pub cycles: u16,
    pub nmi_interrupt: Option<u8>,
}

/// The PPU's state with its memories as sequences.
pub struct PpuView {
    pub mirroring: Mirroring,
    pub ctrl: ControlRegister,
    pub mask: MaskRegister,
    pub status: StatusRegister,
    pub scroll: ScrollRegister,
    pub addr: AddrRegister,
    pub oam_addr: u8,
    pub oam_data: Seq<u8>,
    pub chr_rom: Seq<u8>,
    pub vram: Seq<u8>,
    pub palette_table: Seq<u8>,
    pub internal_data_buf: u8,
    pub scanline: u16,
    pub cycles: u16,
    pub nmi_interrupt: Option<u8>,
}

impl View for NesPPU {
    type V = PpuView;

    open spec fn view(&self) -> PpuView {
        PpuView {
            mirroring: self.mirroring,
            ctrl: self.ctrl,
            mask: self.mask,
            status: self.status,
            scroll: self.scroll,
            addr: self.addr,
            oam_addr: self.oam_addr,
            oam_data: self.oam_data@,
            chr_rom: self.chr_rom@,
            vram: self.vram@,
            palette_table: self.palette_table@,
            internal_data_buf: self.internal_data_buf,
            scanline: self.scanline,
            cycles: self.cycles,
            nmi_interrupt: self.nmi_interrupt,
        }
    }
}

/// A PPU at power-on: memories and registers zero, latches in their first
/// position, at dot 0 of scanline 0, no NMI pending.
pub open spec fn fresh_ppu(chr_rom: Seq<u8>, mirroring: Mirroring) -> PpuView {
    PpuView {
        mirroring,
        ctrl: ControlRegister { bits: 0 },
        mask: MaskRegister { bits: 0 },
        status: StatusRegister { bits: 0 },
        scroll: ScrollRegister { scroll_x: 0, scroll_y: 0, latch: false },
        addr: AddrRegister { value: 0, hi_ptr: true },
        oam_addr: 0,
        oam_data: Seq::new(256, |i: int| 0u8),
        chr_rom,
        vram: Seq::new(0x800, |i: int| 0u8),
        palette_table: Seq::new(32, |i: int| 0u8),
        internal_data_buf: 0,
        scanline: 0,
        cycles: 0,
        nmi_interrupt: None,
    }
}

pub open spec fn ppu_wf(p: PpuView) -> bool {
    &&& p.oam_data.len() == 256
    &&& p.chr_rom.len() == 0x2000
    &&& p.vram.len() == 0x800
    &&& p.palette_table.len() == 32
    &&& p.addr.wf()
    &&& p.scanline < 262
    &&& p.cycles < 341
}

/// The index into the 2 KiB nametable memory that a VRAM address in
/// 0x2000..=0x3EFF (or its mirror above) reaches. Horizontal mirroring pairs
/// tables {0,1} and {2,3}; vertical pairs {0,2} and {1,3}. Four-screen
/// layouts need memory on the cartridge, which this core lacks: there
/// tables 2 and 3 fold onto 0 and 1.
pub open spec fn mirror_vram(m: Mirroring, addr: u16) -> int {
    let index = (addr & 0x2FFF) as int - 0x2000;
    let table = index / 0x400;
    match m {
        Mirroring::VERTICAL => if table >= 2 { index - 0x800 } else { index },
        Mirroring::HORIZONTAL => if table == 0 { index } else if table == 3 { index - 0x800 } else { index - 0x400 },
        Mirroring::FOUR_SCREEN => index % 0x800,
    }
}

/// The palette entry that a VRAM address in 0x3F00..=0x3FFF reaches: palette
/// memory repeats every 32 bytes, and 0x3F10/0x3F14/0x3F18/0x3F1C are aliases
/// of 0x3F00/0x3F04/0x3F08/0x3F0C.
pub open spec fn palette_index(addr: u16) -> int {
    let i = (addr as int - 0x3F00) % 32;
    if i >= 16 && i % 4 == 0 { i - 16 } else { i }
}

pub open spec fn increment_of(ctrl: ControlRegister) -> u8 {
    if has_flag(ctrl.bits, VRAM_ADD_INCREMENT) { 32 } else { 1 }
}

pub open spec fn advance_addr(p: PpuView) -> PpuView {
    PpuView {
        addr: AddrRegister {
            value: addr_after_increment(p.addr.value, increment_of(p.ctrl)),
            ..p.addr
        },
        ..p
    }
}

/// A read of $2007: below 0x3F00 the previous buffer comes back and the
/// buffer takes the byte addressed; in palette space the palette byte comes
/// back at once and the buffer takes the nametable byte beneath it. The
/// pointer then advances.
pub open spec fn read_data_spec(p: PpuView) -> (PpuView, u8) {
    let a = p.addr.value;
    let q = advance_addr(p);
    if a <= 0x1FFF {
        (PpuView { internal_data_buf: p.chr_rom[a as int], ..q }, p.internal_data_buf)
    } else if a <= 0x3EFF {
        (PpuView { internal_data_buf: p.vram[mirror_vram(p.mirroring, a)], ..q }, p.internal_data_buf)
    } else {
        (
            PpuView { internal_data_buf: p.vram[mirror_vram(p.mirroring, a)], ..q },
            p.palette_table[palette_index(a)],
        )
    }
}

/// A write of $2007: CHR-ROM ignores it, nametables and palette store it; the
/// pointer then advances.
pub open spec fn write_data_spec(p: PpuView, value: u8) -> PpuView {
    let a = p.addr.value;
    let q = advance_addr(p);
    if a <= 0x1FFF {
        q
    } else if a <= 0x3EFF {
        PpuView { vram: p.vram.update(mirror_vram(p.mirroring, a), value), ..q }
    } else {
        PpuView { palette_table: p.palette_table.update(palette_index(a), value), ..q }
    }
}

/// A read of $2002: the status byte comes back; VBlank is cleared and both
/// write latches return to their first position.
pub open spec fn read_status_spec(p: PpuView) -> (PpuView, u8) {
    (
        PpuView {
            status: StatusRegister { bits: with_flag(p.status.bits, VBLANK_STARTED, false) },
            addr: AddrRegister { hi_ptr: true, ..p.addr },
            scroll: ScrollRegister { latch: false, ..p.scroll },
            ..p
        },
        p.status.bits,
    )
}

/// A write of $2000: turning NMI generation on during VBlank raises the latch.
pub open spec fn write_ctrl_spec(p: PpuView, value: u8) -> PpuView {
    let raise = !has_flag(p.ctrl.bits, GENERATE_NMI) && has_flag(value, GENERATE_NMI)
        && in_vblank(p.status.bits);
    PpuView {
        ctrl: ControlRegister { bits: value },
        nmi_interrupt: if raise { Some(1u8) } else { p.nmi_interrupt },
        ..p
    }
}

pub open spec fn write_addr_spec(p: PpuView, value: u8) -> PpuView {
    PpuView {
        addr: AddrRegister {
            value: addr_after_write(p.addr.value, p.addr.hi_ptr, value),
            hi_ptr: !p.addr.hi_ptr,
        },
        ..p
    }
}

pub open spec fn write_mask_spec(p: PpuView, value: u8) -> PpuView {
    PpuView { mask: MaskRegister { bits: value }, ..p }
}

pub open spec fn write_oam_addr_spec(p: PpuView, value: u8) -> PpuView {
    PpuView { oam_addr: value, ..p }
}

/// A write of $2005: horizontal scroll first, vertical second.
pub open spec fn write_scroll_spec(p: PpuView, value: u8) -> PpuView {
    PpuView {
        scroll: ScrollRegister {
            scroll_x: if p.scroll.latch { p.scroll.scroll_x } else { value },
            scroll_y: if p.scroll.latch { value } else { p.scroll.scroll_y },
            latch: !p.scroll.latch,
        },
        ..p
    }
}

pub open spec fn write_oam_data_spec(p: PpuView, value: u8) -> PpuView {
    PpuView {
        oam_data: p.oam_data.update(p.oam_addr as int, value),
        oam_addr: ((p.oam_addr + 1) % 256) as u8,
        ..p
    }
}

/// OAM after a DMA of `data` starting at `start`, with wrap.
pub open spec fn oam_after_dma(oam: Seq<u8>, start: u8, data: Seq<u8>) -> Seq<u8> {
    Seq::new(256, |j: int| data[(j - start as int) % 256])
}

/// Position within the frame, counted in dots.
pub open spec fn frame_position(p: PpuView) -> int {
    p.scanline as int * 341 + p.cycles as int
}

/// The PPU after `n` dots, and whether a frame completed.
pub open spec fn tick_spec(p: PpuView, n: u8) -> (PpuView, bool) {
    let c = p.cycles as int + n as int;
    if c < 341 {
        (PpuView { cycles: c as u16, ..p }, false)
    } else {
        let line = p.scanline + 1;
        let q = PpuView { cycles: (c - 341) as u16, ..p };
        if line == 241 {
            (
                PpuView {
                    scanline: 241,
                    status: StatusRegister {
                        bits: with_flag(with_flag(p.status.bits, VBLANK_STARTED, true), SPRITE_ZERO_HIT, false),
                    },
                    nmi_interrupt: if has_flag(p.ctrl.bits, GENERATE_NMI) { Some(1u8) } else { p.nmi_interrupt },
                    ..q
                },
                false,
            )
        } else if line >= 262 {
            (
                PpuView {
                    scanline: 0,
                    status: StatusRegister {
                        bits: with_flag(with_flag(p.status.bits, SPRITE_ZERO_HIT, false), VBLANK_STARTED, false),
                    },
                    nmi_interrupt: None,
                    ..q
                },
                true,
            )
        } else {
            (PpuView { scanline: line as u16, ..q }, false)
        }
    }
}

/// The PPU after ticks of `ns[0]`, `ns[1]`, ... dots in turn, and how many
/// frames completed on the way.
pub open spec fn tick_all(p: PpuView, ns: Seq<u8>) -> (PpuView, nat)
    decreases ns.len(),
{
    if ns.len() == 0 {
        (p, 0)
    } else {
        let (q, k) = tick_all(p, ns.drop_last());
        let (r, done) = tick_spec(q, ns.last());
        (r, k + if done { 1nat } else { 0nat })
    }
}

pub open spec fn total_dots(ns: Seq<u8>) -> int
    decreases ns.len(),
{
    if ns.len() == 0 {
        0
    } else {
        total_dots(ns.drop_last()) + ns.last() as int
    }
}

proof fn lemma_tick_position(p: PpuView, n: u8)
    requires
        ppu_wf(p),
    ensures
        ppu_wf(tick_spec(p, n).0),
        frame_position(tick_spec(p, n).0) == (frame_position(p) + n) % 89342,
        tick_spec(p, n).1 == (frame_position(p) + n >= 89342),
{
}

/// A frame completes exactly once every 262 x 341 = 89342 dots: after any
/// run of ticks, the frames completed are the whole frames that the dots
/// cover from the starting position, and the position is what is left over.
pub proof fn lemma_frame_every_89342_dots(p: PpuView, ns: Seq<u8>)
    requires
        ppu_wf(p),
    ensures
        ppu_wf(tick_all(p, ns).0),
        tick_all(p, ns).1 == (frame_position(p) + total_dots(ns)) / 89342,
        frame_position(tick_all(p, ns).0) == (frame_position(p) + total_dots(ns)) % 89342,
    decreases ns.len(),
{
    if ns.len() == 0 {
        assert(0 <= frame_position(p) < 89342);
        vstd::arithmetic::div_mod::lemma_fundamental_div_mod_converse(frame_position(p), 89342, 0, frame_position(p));
    } else {
        let rest = ns.drop_last();
        lemma_frame_every_89342_dots(p, rest);
        let (q, k) = tick_all(p, rest);
        let n = ns.last();
        lemma_tick_position(q, n);
        let x = frame_position(p) + total_dots(rest);
        assert(total_dots(ns) == total_dots(rest) + n);
        let r = frame_position(q);
        vstd::arithmetic::div_mod::lemma_fundamental_div_mod(x, 89342);
        assert(x == (x / 89342) * 89342 + r);
        if r + n >= 89342 {
            vstd::arithmetic::div_mod::lemma_fundamental_div_mod_converse(x + n, 89342, x / 89342 + 1, r + n - 89342);
            vstd::arithmetic::div_mod::lemma_fundamental_div_mod_converse(r + n, 89342, 1, r + n - 89342);
        } else {
            vstd::arithmetic::div_mod::lemma_fundamental_div_mod_converse(x + n, 89342, x / 89342, r + n);
            vstd::arithmetic::div_mod::lemma_fundamental_div_mod_converse(r + n, 89342, 0, r + n);
        }
    }
}

impl NesPPU {
    pub open spec fn wf(&self) -> bool {
        ppu_wf(self@)
    }

    pub fn new(chr_rom: Vec<u8>, mirroring: Mirroring) -> (r: Self)
        requires
            chr_rom@.len() == 0x2000,
        ensures
            r.wf(),
            r@ == fresh_ppu(chr_rom@, mirroring),
            r.chr_rom@ == chr_rom@,
            r.mirroring == mirroring,
            r.vram@ == Seq::new(0x800, |i: int| 0u8),
            r.oam_data@ == Seq::new(256, |i: int| 0u8),
            r.palette_table@ == Seq::new(32, |i: int| 0u8),
            r.ctrl.bits == 0,
            r.mask.bits == 0,
            r.status.bits == 0,
            r.addr.value == 0 && r.addr.hi_ptr,
            r.scroll == (ScrollRegister { scroll_x: 0, scroll_y: 0, latch: false }),
            r.oam_addr == 0,
            r.internal_data_buf == 0,
            r.scanline == 0,
            r.cycles == 0,
            (r.nmi_interrupt is None),
    {
        let r = NesPPU {
            chr_rom,
            palette_table: vec![0u8; 32],
            vram: vec![0u8; 0x800],
            oam_addr: 0,
            oam_data: vec![0u8; 256],
            mirroring,
            addr: AddrRegister::new(),
            ctrl: ControlRegister::new(),
            mask: MaskRegister::new(),
            status: StatusRegister::new(),
            scroll: ScrollRegister::new(),
            internal_data_buf: 0,
            scanline: 0,
            cycles: 0,
            nmi_interrupt: None,
        };
        assert(r@.vram =~= Seq::new(0x800, |i: int| 0u8));
        assert(r@.oam_data =~= Seq::new(256, |i: int| 0u8));
        assert(r@.palette_table =~= Seq::new(32, |i: int| 0u8));
        assert(r@ == fresh_ppu(chr_rom@, mirroring));
        r
    }

    /// Advances the PPU by `cycles` dots. A scanline ends after 341 dots;
    /// scanline 241 starts VBlank (raising the NMI latch when the control
    /// register asks for it) and the end of scanline 261 ends the frame,
    /// which is what the result reports.
    pub fn tick(&mut self, cycles: u8) -> (r: bool)
        requires
            old(self).wf(),
        ensures
            final(self).wf(),
            (final(self)@, r) == tick_spec(old(self)@, cycles),
            frame_position(final(self)@) == (frame_position(old(self)@) + cycles) % 89342,
            r == (frame_position(old(self)@) + cycles >= 89342),
    {
        let c: u16 = self.cycles + cycles as u16;
        if c < DOTS_PER_LINE {
            self.cycles = c;
            return false;
        }
        self.cycles = c - DOTS_PER_LINE;
        self.scanline = self.scanline + 1;
        if self.scanline == VBLANK_LINE {
            self.status.set_vblank_status(true);
            self.status.set_sprite_zero_hit(false);
            if self.ctrl.generate_vblank_nmi() {
                self.nmi_interrupt = Some(1);
            }
            return false;
        }
        if self.scanline >= LINES_PER_FRAME {
            self.scanline = 0;
            self.nmi_interrupt = None;
            self.status.set_sprite_zero_hit(false);
            self.status.reset_vblank_status();
            return true;
        }
        false
    }

    /// Returns the NMI latch and clears it.
    pub fn poll_nmi_interrupt(&mut self) -> (r: Option<u8>)
        ensures
            r == old(self).nmi_interrupt,
            final(self)@ == (PpuView { nmi_interrupt: None, ..old(self)@ }),
    {
        self.nmi_interrupt.take()
    }

    pub fn write_to_ppu_addr(&mut self, value: u8)
        requires
            old(self).wf(),
        ensures
            final(self).wf(),
            final(self)@ == write_addr_spec(old(self)@, value),
    {
        self.addr.update(value);
    }

    pub fn write_to_ctrl(&mut self, value: u8)
        requires
            old(self).wf(),
        ensures
            final(self).wf(),
            final(self)@ == write_ctrl_spec(old(self)@, value),
    {
        let before_nmi_status = self.ctrl.generate_vblank_nmi();
        self.ctrl.update(value);
        if !before_nmi_status && self.ctrl.generate_vblank_nmi() && self.status.is_in_vblank() {
            self.nmi_interrupt = Some(1);
        }
    }

    pub fn write_to_mask(&mut self, value: u8)
        requires
            old(self).wf(),
        ensures
            final(self).wf(),
            final(self)@ == write_mask_spec(old(self)@, value),
    {
        self.mask.update(value);
    }

    pub fn write_to_oam_addr(&mut self, value: u8)
        requires
            old(self).wf(),
        ensures
            final(self).wf(),
            final(self)@ == write_oam_addr_spec(old(self)@, value),
    {
        self.oam_addr = value;
    }

    /// Stores `value` at the OAM address, which then moves on by one.
    pub fn write_to_oam_data(&mut self, value: u8)
        requires
            old(self).wf(),
        ensures
            final(self).wf(),
            final(self)@ == write_oam_data_spec(old(self)@, value),
    {
        self.oam_data.set(self.oam_addr as usize, value);
        self.oam_addr = self.oam_addr.wrapping_add(1);
    }

    pub fn read_oam_data(&self) -> (r: u8)
        requires
            self.wf(),
        ensures
            r == self@.oam_data[self.oam_addr as int],
    {
        self.oam_data[self.oam_addr as usize]
    }

    pub fn write_to_scroll(&mut self, value: u8)
        requires
            old(self).wf(),
        ensures
            final(self).wf(),
            final(self)@ == write_scroll_spec(old(self)@, value),
    {
        self.scroll.write(value);
    }

    /// Copies 256 bytes into OAM from the OAM address on, wrapping; the
    /// address ends where it began.
    pub fn write_oam_dma(&mut self, data: &Vec<u8>)
        requires
            old(self).wf(),
            data@.len() == 256,
        ensures
            final(self).wf(),
            final(self)@ == (PpuView {
                oam_data: oam_after_dma(old(self)@.oam_data, old(self).oam_addr, data@),
                ..old(self)@
            }),
    {
        let ghost start = self.oam_addr;
        let mut i: usize = 0;
        while i < 256
            invariant
                i <= 256,
                data@.len() == 256,
                self.oam_addr == ((start as int + i) % 256) as u8,
                self.oam_data@.len() == 256,
                forall|j: int|
                    0 <= j < 256 ==> #[trigger] self.oam_data@[j] == (if (j - start as int) % 256 < i {
                        data@[(j - start as int) % 256]
                    } else {
                        old(self).oam_data@[j]
                    }),
                self@ == (PpuView { oam_data: self.oam_data@, oam_addr: self.oam_addr, ..old(self)@ }),
            decreases 256 - i,
        {
            self.oam_data.set(self.oam_addr as usize, data[i]);
            self.oam_addr = self.oam_addr.wrapping_add(1);
            i = i + 1;
        }
        assert(self.oam_data@ =~= oam_after_dma(old(self)@.oam_data, start, data@));
    }

    /// A read of $2002; see `read_status_spec`.
    pub fn read_status(&mut self) -> (r: u8)
        requires
            old(self).wf(),
        ensures
            final(self).wf(),
            (final(self)@, r) == read_status_spec(old(self)@),
            final(self).addr.hi_ptr,
            !final(self).scroll.latch,
    {
        let status = self.status.snapshot();
        self.status.reset_vblank_status();
        self.addr.reset_latch();
        self.scroll.reset_latch();
        status
    }

    /// A read of $2007; see `read_data_spec`. The pointer advances by the
    /// control register's increment, 1 or 32.
    pub fn read_data(&mut self) -> (r: u8)
        requires
            old(self).wf(),
        ensures
            final(self).wf(),
            (final(self)@, r) == read_data_spec(old(self)@),
            final(self).addr.value == (old(self).addr.value + increment_of(old(self).ctrl)) % 0x4000,
    {
        let addr = self.addr.get();
        self.increment_vram_addr();
        if addr <= 0x1fff {
            let result = self.internal_data_buf;
            self.internal_data_buf = self.chr_rom[addr as usize];
            result
        } else if addr <= 0x3eff {
            let result = self.internal_data_buf;
            self.internal_data_buf = self.vram[self.mirror_vram_addr(addr) as usize];
            result
        } else {
            self.internal_data_buf = self.vram[self.mirror_vram_addr(addr) as usize];
            self.palette_table[Self::palette_addr(addr) as usize]
        }
    }

    /// A write of $2007; see `write_data_spec`.
    pub fn write_to_data(&mut self, value: u8)
        requires
            old(self).wf(),
        ensures
            final(self).wf(),
            final(self)@ == write_data_spec(old(self)@, value),
    {
        let addr = self.addr.get();
        if addr <= 0x1fff {
        } else if addr <= 0x3eff {
            let i = self.mirror_vram_addr(addr);
            self.vram.set(i as usize, value);
        } else {
            let i = Self::palette_addr(addr);
            self.palette_table.set(i as usize, value);
        }
        self.increment_vram_addr();
    }

    fn palette_addr(addr: u16) -> (r: u16)
        requires
            0x3F00 <= addr,
        ensures
            r as int == palette_index(addr),
            r < 32,
    {
        let i = (addr - 0x3f00) % 32;
        if i >= 16 && i % 4 == 0 {
            i - 16
        } else {
            i
        }
    }

    fn mirror_vram_addr(&self, addr: u16) -> (r: u16)
        requires
            0x2000 <= addr <= 0x3FFF,
        ensures
            r as int == mirror_vram(self.mirroring, addr),
            r < 0x800,
    {
        let mirrored_vram = addr & 0b10_1111_1111_1111;
        assert(0x2000 <= mirrored_vram <= 0x2FFF) by (bit_vector)
            requires
                0x2000 <= addr <= 0x3FFF,
                mirrored_vram == addr & 0b10_1111_1111_1111,
        ;
        let vram_index = mirrored_vram - 0x2000;
        let name_table = vram_index / 0x400;
        match self.mirroring {
            Mirroring::VERTICAL => if name_table >= 2 { vram_index - 0x800 } else { vram_index },
            Mirroring::HORIZONTAL => {
                if name_table == 0 {
                    vram_index
                } else if name_table == 3 {
                    vram_index - 0x800
                } else {
                    vram_index - 0x400
                }
            },
            Mirroring::FOUR_SCREEN => vram_index % 0x800,
        }
    }

    fn increment_vram_addr(&mut self)
        requires
            old(self).wf(),
        ensures
            final(self).wf(),
            final(self)@ == advance_addr(old(self)@),
    {
        let inc = self.ctrl.vram_addr_increment();
        self.addr.increment(inc);
    }
}

} // verus!
