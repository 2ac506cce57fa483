//! The CPU's memory bus: decodes each address to work RAM, PPU registers,
//! the controller port or PRG-ROM, runs OAM DMA, and drives the PPU at three
//! dots per CPU cycle.
use vstd::prelude::*;
use crate::cartridge::Rom;
use crate::joypad::{Joypad, joypad_after_write, joypad_read};
use crate::ppu::{
    NesPPU, PpuView, ppu_wf, read_status_spec, read_data_spec, write_ctrl_spec, write_mask_spec,
    write_oam_addr_spec, write_oam_data_spec, write_scroll_spec, write_addr_spec, write_data_spec,
    oam_after_dma, tick_spec, fresh_ppu,
};

verus! {

/// What the host does once per completed frame: it may look at the PPU and
/// press or release buttons.
pub trait FrameHandler {
    fn on_frame(&mut self, ppu: &NesPPU, joypad: &mut Joypad);
}

/// A bus access that the hardware does not allow.
#[derive(Clone, Copy, Debug, PartialEq, Eq, Structural)]
pub enum BusError {
    /// A read of a write-only PPU register.
    WriteOnly(u16),
    /// A write to the read-only PPU status register.
    ReadOnly(u16),
    /// A write to cartridge ROM.
    RomWrite(u16),
}

pub struct Bus<F: FrameHandler> {
    pub cpu_wram: Vec<u8>,
    pub prg_rom: Vec<u8>,
    pub ppu: NesPPU,
    /// CPU cycles so far.
    pub cycles: u64,
    /// Frames completed so far (the frame handler has run this many times).
    pub frames: u64,
    pub gameloop_callback: F,
    pub joypad1: Joypad,
}

/// The bus's state, without the frame handler.
pub struct BusView {
    pub wram: Seq<u8>,
    pub prg_rom: Seq<u8>,
    pub ppu: PpuView,
    pub joypad: Joypad,
    pub cycles: u64,
}

impl<F: FrameHandler> View for Bus<F> {
    type V = BusView;

    open spec fn view(&self) -> BusView {
        BusView {
            wram: self.cpu_wram@,
            prg_rom: self.prg_rom@,
            ppu: self.ppu@,
            joypad: self.joypad1,
            cycles: self.cycles,
        }
    }
}

pub open spec fn bus_wf(b: BusView) -> bool {
    &&& b.wram.len() == 0x800
    &&& (b.prg_rom.len() == 0x4000 || b.prg_rom.len() == 0x8000)
    &&& ppu_wf(b.ppu)
}

/// The PPU register that an address in 0x2000..=0x3FFF reaches.
pub open spec fn ppu_register(addr: u16) -> u16 {
    addr & 0x2007
}

pub open spec fn is_ppu_space(addr: u16) -> bool {
    0x2000 <= addr <= 0x3FFF
}

/// Whether a read of `addr` is allowed: all but the write-only PPU registers.
pub open spec fn readable(addr: u16) -> bool {
    !(is_ppu_space(addr) && {
        let r = ppu_register(addr);
        r == 0x2000 || r == 0x2001 || r == 0x2003 || r == 0x2005 || r == 0x2006
    })
}

/// Whether an OAM DMA from page `page` reads only readable addresses.
pub open spec fn dma_page_readable(page: u8) -> bool {
    !(0x20 <= page <= 0x3F)
}

/// Whether a write of `data` to `addr` is allowed: not to the status
/// register, not to ROM, and no DMA from a page of PPU registers.
pub open spec fn writable(addr: u16, data: u8) -> bool {
    &&& !(is_ppu_space(addr) && ppu_register(addr) == 0x2002)
    &&& addr < 0x8000
    &&& (addr == 0x4014 ==> dma_page_readable(data))
}

/// The PRG-ROM index of `addr` (at least 0x8000): a 16 KiB image is seen twice.
pub open spec fn prg_index(prg_len: int, addr: u16) -> int {
    if prg_len == 0x4000 { (addr - 0x8000) % 0x4000 } else { addr - 0x8000 }
}

/// The bus after a read of `addr`, and the byte read.
pub open spec fn read_spec(b: BusView, addr: u16) -> (BusView, u8) {
    if addr <= 0x1FFF {
        (b, b.wram[(addr & 0x07FF) as int])
    } else if addr <= 0x3FFF {
        let r = ppu_register(addr);
        if r == 0x2002 {
            let (p, v) = read_status_spec(b.ppu);
            (BusView { ppu: p, ..b }, v)
        } else if r == 0x2004 {
            (b, b.ppu.oam_data[b.ppu.oam_addr as int])
        } else if r == 0x2007 {
            let (p, v) = read_data_spec(b.ppu);
            (BusView { ppu: p, ..b }, v)
        } else {
            (b, 0)
        }
    } else if addr == 0x4016 {
        let (j, v) = joypad_read(b.joypad);
        (BusView { joypad: j, ..b }, v)
    } else if addr >= 0x8000 {
        (b, b.prg_rom[prg_index(b.prg_rom.len() as int, addr)])
    } else {
        (b, 0)
    }
}

/// The bus after the first `n` reads of a DMA from `base` on, and the bytes read.
pub open spec fn dma_fold(b: BusView, base: u16, n: nat) -> (BusView, Seq<u8>)
    decreases n,
{
    if n == 0 {
        (b, Seq::empty())
    } else {
        let (b1, bytes) = dma_fold(b, base, (n - 1) as nat);
        let (b2, v) = read_spec(b1, (base + n - 1) as u16);
        (b2, bytes.push(v))
    }
}

/// The bus after a write of `data` to `addr`.
pub open spec fn write_spec(b: BusView, addr: u16, data: u8) -> BusView {
    if addr <= 0x1FFF {
        BusView { wram: b.wram.update((addr & 0x07FF) as int, data), ..b }
    } else if addr <= 0x3FFF {
        let r = ppu_register(addr);
        let p = if r == 0x2000 {
            write_ctrl_spec(b.ppu, data)
        } else if r == 0x2001 {
            write_mask_spec(b.ppu, data)
        } else if r == 0x2003 {
            write_oam_addr_spec(b.ppu, data)
        } else if r == 0x2004 {
            write_oam_data_spec(b.ppu, data)
        } else if r == 0x2005 {
            write_scroll_spec(b.ppu, data)
        } else if r == 0x2006 {
            write_addr_spec(b.ppu, data)
        } else if r == 0x2007 {
            write_data_spec(b.ppu, data)
        } else {
            b.ppu
        };
        BusView { ppu: p, ..b }
    } else if addr == 0x4014 {
        let (b1, bytes) = dma_fold(b, (data as u16 * 256) as u16, 256);
        BusView {
            ppu: PpuView {
                oam_data: oam_after_dma(b1.ppu.oam_data, b1.ppu.oam_addr, bytes),
                ..b1.ppu
            },
            ..b1
        }
    } else if addr == 0x4016 {
        BusView { joypad: joypad_after_write(b.joypad, data), ..b }
    } else {
        b
    }
}

/// The error of a write that `writable` refuses.
pub open spec fn write_error(addr: u16, data: u8) -> BusError {
    if is_ppu_space(addr) && ppu_register(addr) == 0x2002 {
        BusError::ReadOnly(addr)
    } else if addr >= 0x8000 {
        BusError::RomWrite(addr)
    } else {
        BusError::WriteOnly((data as u16 * 256) as u16)
    }
}

/// Reads of a buffer in work RAM through any of its four mirrors give the
/// buffer's bytes back, and a byte written at `addr` is read back at
/// `addr | 0x1800`.
pub proof fn lemma_wram_mirror(b: BusView, addr: u16, v: u8)
    requires
        bus_wf(b),
        addr < 0x800,
    ensures
        read_spec(b, addr | 0x1800) == (b, b.wram[addr as int]),
        read_spec(write_spec(b, addr, v), addr | 0x1800) == (write_spec(b, addr, v), v),
{
    assert((addr | 0x1800) & 0x07FF == addr && (addr | 0x1800) <= 0x1FFF && addr & 0x07FF == addr)
        by (bit_vector)
        requires
            addr < 0x800,
    ;
}

proof fn lemma_dma_reads_readable(page: u8, i: u16)
    requires
        dma_page_readable(page),
        i < 256,
    ensures
        readable((page as u16 * 256 + i) as u16),
        (page as u16 * 256 + i) as u16 == ((page as u16) << 8) + i,
{
    let a = (page as u16 * 256 + i) as u16;
    assert(a == ((page as u16) << 8) + i && (is_ppu_space(a) ==> 0x20 <= page <= 0x3F)) by (bit_vector)
        requires
            a == (page as u16 * 256 + i) as u16,
            i < 256,
    ;
}

/// Whether a read of `addr` is allowed; see `readable`.
pub fn is_readable(addr: u16) -> (r: bool)
    ensures
        r == readable(addr),
{
    if addr < 0x2000 || addr > 0x3FFF {
        return true;
    }
    let reg = addr & 0x2007;
    !(reg == 0x2000 || reg == 0x2001 || reg == 0x2003 || reg == 0x2005 || reg == 0x2006)
}

/// Whether a write of `data` to `addr` is allowed; see `writable`.
pub fn is_writable(addr: u16, data: u8) -> (r: bool)
    ensures
        r == writable(addr, data),
{
    if addr >= 0x8000 {
        return false;
    }
    if addr >= 0x2000 && addr <= 0x3FFF && addr & 0x2007 == 0x2002 {
        return false;
    }
    !(addr == 0x4014 && data >= 0x20 && data <= 0x3F)
}

/// The error of a write that `writable` refuses; see `write_error`.
pub fn write_error_of(addr: u16, data: u8) -> (r: BusError)
    requires
        !writable(addr, data),
    ensures
        r == write_error(addr, data),
{
    if addr >= 0x2000 && addr <= 0x3FFF && addr & 0x2007 == 0x2002 {
        BusError::ReadOnly(addr)
    } else if addr >= 0x8000 {
        BusError::RomWrite(addr)
    } else {
        let hi: u16 = (data as u16) << 8;
        assert(hi == (data as u16 * 256) as u16) by (bit_vector)
            requires
                hi == (data as u16) << 8,
        ;
        BusError::WriteOnly(hi)
    }
}

impl<F: FrameHandler> Bus<F> {
    pub open spec fn wf(&self) -> bool {
        bus_wf(self@)
    }

    pub fn new(rom: Rom, gameloop_callback: F) -> (r: Bus<F>)
        requires
            rom.wf(),
        ensures
            r.wf(),
            r.prg_rom@ == rom.prg_rom@,
            r.ppu.chr_rom@ == rom.chr_rom@,
            r.ppu.mirroring == rom.screen_mirroring,
            r.cpu_wram@ == Seq::new(0x800, |i: int| 0u8),
            r.cycles == 0,
            r.frames == 0,
            r.gameloop_callback == gameloop_callback,
            r.ppu@ == fresh_ppu(rom.chr_rom@, rom.screen_mirroring),
            r.joypad1 == Joypad::spec_new(),
            r.ppu.scanline == 0 && r.ppu.cycles == 0,
            r.ppu.ctrl.bits == 0 && r.ppu.status.bits == 0,
            (r.ppu.nmi_interrupt is None),
    {
        let ppu = NesPPU::new(rom.chr_rom, rom.screen_mirroring);
        Bus {
            cpu_wram: vec![0u8; 0x800],
            prg_rom: rom.prg_rom,
            ppu,
            cycles: 0,
            frames: 0,
            gameloop_callback,
            joypad1: Joypad::new(),
        }
    }

    /// Advances the clock (which saturates) by `cycles` CPU cycles and the
    /// PPU by three dots for each; when the PPU completes a frame, the frame
    /// handler runs once, and the frame count goes up by one.
    pub fn tick(&mut self, cycles: u8)
        requires
            old(self).wf(),
            cycles <= 85,
        ensures
            final(self).wf(),
            final(self).cycles == old(self).cycles.saturating_add(cycles as u64),
            final(self).ppu@ == tick_spec(old(self).ppu@, (3 * cycles) as u8).0,
            final(self).cpu_wram@ == old(self).cpu_wram@,
            final(self).prg_rom@ == old(self).prg_rom@,
            final(self).frames == old(self).frames.saturating_add(
                if tick_spec(old(self).ppu@, (3 * cycles) as u8).1 { 1u64 } else { 0u64 },
            ),
            !tick_spec(old(self).ppu@, (3 * cycles) as u8).1 ==> {
                &&& final(self).joypad1 == old(self).joypad1
                &&& final(self).gameloop_callback == old(self).gameloop_callback
            },
    {
        self.cycles = self.cycles.saturating_add(cycles as u64);
        let new_frame = self.ppu.tick(cycles * 3);
        if new_frame {
            self.frames = self.frames.saturating_add(1);
            self.gameloop_callback.on_frame(&self.ppu, &mut self.joypad1);
        }
    }

    pub fn poll_nmi_status(&mut self) -> (r: Option<u8>)
        ensures
            r == old(self).ppu.nmi_interrupt,
            final(self)@ == (BusView { ppu: PpuView { nmi_interrupt: None, ..old(self)@.ppu }, ..old(self)@ }),
            final(self).gameloop_callback == old(self).gameloop_callback,
            final(self).frames == old(self).frames,
    {
        self.ppu.poll_nmi_interrupt()
    }

    fn read_prg_rom(&self, addr: u16) -> (r: u8)
        requires
            self.wf(),
            addr >= 0x8000,
        ensures
            r == self@.prg_rom[prg_index(self@.prg_rom.len() as int, addr)],
    {
        let mut i = addr - 0x8000;
        if self.prg_rom.len() == 0x4000 && i >= 0x4000 {
            i = i % 0x4000;
        }
        self.prg_rom[i as usize]
    }

    /// Reads one byte; see `read_spec`. A read of a write-only PPU register
    /// is a contract violation and is ruled out.
    pub fn mem_read(&mut self, addr: u16) -> (r: u8)
        requires
            old(self).wf(),
            readable(addr),
        ensures
            final(self).wf(),
            final(self).cycles == old(self).cycles,
            final(self).frames == old(self).frames,
            final(self).gameloop_callback == old(self).gameloop_callback,
            (final(self)@, r) == read_spec(old(self)@, addr),
    {
        if addr <= 0x1FFF {
            let i = addr & 0x07FF;
            assert(i < 0x800) by (bit_vector)
                requires
                    i == addr & 0x07FF,
            ;
            self.cpu_wram[i as usize]
        } else if addr <= 0x3FFF {
            let r = addr & 0x2007;
            if r == 0x2002 {
                self.ppu.read_status()
            } else if r == 0x2004 {
                self.ppu.read_oam_data()
            } else {
                assert(r == 0x2007) by (bit_vector)
                    requires
                        0x2000 <= addr <= 0x3FFF,
                        r == addr & 0x2007,
                        r != 0x2002 && r != 0x2004,
                        r != 0x2000 && r != 0x2001 && r != 0x2003 && r != 0x2005 && r != 0x2006,
                ;
                self.ppu.read_data()
            }
        } else if addr == 0x4016 {
            self.joypad1.read()
        } else if addr >= 0x8000 {
            self.read_prg_rom(addr)
        } else {
            0
        }
    }

    /// Reads two bytes, low first, the second from the next address (with
    /// wrap).
    pub fn mem_read_u16(&mut self, pos: u16) -> (r: u16)
        requires
            old(self).wf(),
            readable(pos),
            readable(pos.wrapping_add(1)),
        ensures
            final(self).wf(),
            final(self).cycles == old(self).cycles,
            final(self).frames == old(self).frames,
            final(self).gameloop_callback == old(self).gameloop_callback,
            ({
                let (b1, lo) = read_spec(old(self)@, pos);
                let (b2, hi) = read_spec(b1, pos.wrapping_add(1));
                r == ((hi as u16) << 8) | lo as u16 && final(self)@ == b2
            }),
    {
        let lo = self.mem_read(pos);
        let hi = self.mem_read(pos.wrapping_add(1));
        ((hi as u16) << 8) | (lo as u16)
    }

    /// Writes one byte; see `write_spec`. A write to the status register or
    /// to ROM, or a DMA from a page of PPU registers, is a contract
    /// violation and is ruled out.
    pub fn mem_write(&mut self, addr: u16, data: u8)
        requires
            old(self).wf(),
            writable(addr, data),
        ensures
            final(self).wf(),
            final(self).cycles == old(self).cycles,
            final(self).frames == old(self).frames,
            final(self).gameloop_callback == old(self).gameloop_callback,
            final(self)@ == write_spec(old(self)@, addr, data),
    {
        if addr <= 0x1FFF {
            let i = addr & 0x07FF;
            assert(i < 0x800) by (bit_vector)
                requires
                    i == addr & 0x07FF,
            ;
            self.cpu_wram.set(i as usize, data);
        } else if addr <= 0x3FFF {
            let r = addr & 0x2007;
            if r == 0x2000 {
                self.ppu.write_to_ctrl(data);
            } else if r == 0x2001 {
                self.ppu.write_to_mask(data);
            } else if r == 0x2003 {
                self.ppu.write_to_oam_addr(data);
            } else if r == 0x2004 {
                self.ppu.write_to_oam_data(data);
            } else if r == 0x2005 {
                self.ppu.write_to_scroll(data);
            } else if r == 0x2006 {
                self.ppu.write_to_ppu_addr(data);
            } else if r == 0x2007 {
                self.ppu.write_to_data(data);
            }
        } else if addr == 0x4014 {
            self.oam_dma(data);
        } else if addr == 0x4016 {
            self.joypad1.write(data);
        }
    }

    /// OAM DMA: 256 reads from page `page`, then their bytes into OAM.
    fn oam_dma(&mut self, page: u8)
        requires
            old(self).wf(),
            dma_page_readable(page),
        ensures
            final(self).wf(),
            final(self).cycles == old(self).cycles,
            final(self).frames == old(self).frames,
            final(self).gameloop_callback == old(self).gameloop_callback,
            final(self)@ == write_spec(old(self)@, 0x4014, page),
    {
        let hi: u16 = (page as u16) << 8;
        assert(hi == (page as u16 * 256) as u16) by (bit_vector)
            requires
                hi == (page as u16) << 8,
        ;
        let mut buffer: Vec<u8> = Vec::with_capacity(256);
        let mut i: u16 = 0;
        while i < 256
            invariant
                i <= 256,
                dma_page_readable(page),
                hi == (page as u16 * 256) as u16,
                self.wf(),
                self.gameloop_callback == old(self).gameloop_callback,
                self.cycles == old(self).cycles,
                self.frames == old(self).frames,
                (self@, buffer@) == dma_fold(old(self)@, hi, i as nat),
                buffer@.len() == i,
            decreases 256 - i,
        {
            proof {
                lemma_dma_reads_readable(page, i);
            }
            let v = self.mem_read(hi + i);
            buffer.push(v);
            i = i + 1;
        }
        self.ppu.write_oam_dma(&buffer);
    }
}

} // verus!
