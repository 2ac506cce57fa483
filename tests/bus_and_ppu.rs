use nes_emu::bus::{is_readable, is_writable, Bus, BusError, FrameHandler};
use nes_emu::cpu::CPU;
use nes_emu::cartridge::{Mirroring, Rom, RomError};
use nes_emu::joypad::{Joypad, BUTTON_A, START};
use nes_emu::opcodes::lookup;
use nes_emu::ppu::NesPPU;
use nes_emu::ppu_control_register::ControlRegister;

struct Frames {
    count: u32,
}

impl FrameHandler for Frames {
    fn on_frame(&mut self, _ppu: &NesPPU, _joypad: &mut Joypad) {
        self.count += 1;
    }
}

fn raw_image(prg_banks: u8, flags6: u8) -> Vec<u8> {
    let mut raw = vec![0x4E, 0x45, 0x53, 0x1A, prg_banks, 1, flags6, 0, 0, 0, 0, 0, 0, 0, 0, 0];
    if flags6 & 0b10 != 0 {
        raw.extend_from_slice(&vec![0xEEu8; 512]);
    }
    for i in 0..(prg_banks as usize * 0x4000) {
        raw.push((i % 251) as u8);
    }
    raw.extend_from_slice(&vec![0x77u8; 0x2000]);
    raw
}

fn bus() -> Bus<Frames> {
    Bus::new(Rom::new(&raw_image(2, 0)).unwrap(), Frames { count: 0 })
}

fn ppu() -> NesPPU {
    NesPPU::new(vec![0u8; 0x2000], Mirroring::HORIZONTAL)
}

#[test]
fn wram_mirrors_every_two_kib() {
    let mut b = bus();
    for addr in 0u16..0x800 {
        b.mem_write(addr, (addr % 256) as u8 ^ 0x5A);
    }
    for addr in 0u16..0x800 {
        let expected = (addr % 256) as u8 ^ 0x5A;
        assert_eq!(b.mem_read(addr | 0x1800), expected);
        assert_eq!(b.mem_read(addr | 0x0800), expected);
    }
}

#[test]
fn prg_rom_of_one_bank_is_seen_twice() {
    let mut b = Bus::new(Rom::new(&raw_image(1, 0)).unwrap(), Frames { count: 0 });
    assert_eq!(b.mem_read(0x8005), 5);
    assert_eq!(b.mem_read(0xC005), 5);
    let mut b2 = bus();
    assert_eq!(b2.mem_read(0xC005), (0x4005 % 251) as u8);
}

#[test]
fn cpu_reports_forbidden_accesses() {
    let mut cpu = CPU::new(bus());
    assert_eq!(cpu.mem_read(0x2000), Err(BusError::WriteOnly(0x2000)));
    assert_eq!(cpu.mem_read(0x3FF6), Err(BusError::WriteOnly(0x3FF6)));
    assert_eq!(cpu.mem_write(0x2002, 1), Err(BusError::ReadOnly(0x2002)));
    assert_eq!(cpu.mem_write(0x8000, 1), Err(BusError::RomWrite(0x8000)));
    assert_eq!(cpu.mem_write(0x4014, 0x21), Err(BusError::WriteOnly(0x2100)));
    assert!(!is_readable(0x2005));
    assert!(is_readable(0x2002));
    assert!(!is_writable(0xC000, 0));
    assert!(is_writable(0x4014, 0x02));
}

#[test]
fn new_bus_is_fresh() {
    let b = bus();
    assert_eq!(b.cycles, 0);
    assert_eq!(b.frames, 0);
    assert_eq!(b.cpu_wram, vec![0u8; 0x800]);
    assert_eq!(b.ppu.vram, vec![0u8; 0x800]);
    assert_eq!(b.ppu.oam_data, vec![0u8; 256]);
    assert_eq!(b.ppu.palette_table, vec![0u8; 32]);
    assert_eq!(b.ppu.chr_rom, vec![0x77u8; 0x2000]);
    assert!(b.ppu.addr.hi_ptr);
    assert_eq!(b.ppu.internal_data_buf, 0);
}

#[test]
fn unmapped_reads_are_zero() {
    let mut b = bus();
    assert_eq!(b.mem_read(0x4000), 0);
    assert_eq!(b.mem_read(0x4014), 0);
    assert_eq!(b.mem_read(0x4017), 0);
    assert_eq!(b.mem_read(0x6000), 0);
    b.mem_write(0x6000, 9);
    assert_eq!(b.mem_read(0x6000), 0);
}

#[test]
fn oam_dma_copies_a_page() {
    let mut b = bus();
    for i in 0u16..256 {
        b.mem_write(0x0200 + i, i as u8);
    }
    b.mem_write(0x2003, 0x10);
    b.mem_write(0x4014, 0x02);
    assert_eq!(b.ppu.oam_addr, 0x10);
    assert_eq!(b.ppu.oam_data[0x10], 0);
    assert_eq!(b.ppu.oam_data[0x0F], 0xFF);
    assert_eq!(b.ppu.oam_data[0x20], 0x10);
}

#[test]
fn status_read_resets_latches() {
    let mut b = bus();
    b.mem_write(0x2006, 0x21);
    b.mem_write(0x2005, 0x05);
    assert!(!b.ppu.addr.hi_ptr);
    assert!(b.ppu.scroll.latch);
    b.mem_read(0x2002);
    assert!(b.ppu.addr.hi_ptr);
    assert!(!b.ppu.scroll.latch);
}

#[test]
fn two_address_writes_set_pointer() {
    let mut p = ppu();
    p.write_to_ppu_addr(0xFF);
    p.write_to_ppu_addr(0x34);
    assert_eq!(p.addr.get(), 0x3F34);
    p.write_to_ppu_addr(0xFF);
    p.write_to_ppu_addr(0x34);
    assert_eq!(p.addr.get(), 0x3F34);
}

#[test]
fn data_reads_advance_by_increment() {
    let mut p = ppu();
    p.write_to_ppu_addr(0x23);
    p.write_to_ppu_addr(0x05);
    for k in 1..5u16 {
        p.read_data();
        assert_eq!(p.addr.get(), 0x2305 + k);
    }
    p.write_to_ctrl(0b0000_0100);
    p.read_data();
    assert_eq!(p.addr.get(), 0x2309 + 32);
    // wraps at 0x3FFF
    p.write_to_ppu_addr(0x3F);
    p.write_to_ppu_addr(0xF0);
    p.read_data();
    assert_eq!(p.addr.get(), 0x0010);
}

#[test]
fn data_reads_are_buffered() {
    let mut p = ppu();
    p.write_to_ppu_addr(0x23);
    p.write_to_ppu_addr(0x05);
    p.write_to_data(0x66);
    p.write_to_ppu_addr(0x23);
    p.write_to_ppu_addr(0x05);
    p.read_data();
    assert_eq!(p.read_data(), 0x66);
}

#[test]
fn horizontal_and_vertical_mirroring() {
    let mut h = ppu();
    h.write_to_ppu_addr(0x24);
    h.write_to_ppu_addr(0x05);
    h.write_to_data(0x66);
    h.write_to_ppu_addr(0x20);
    h.write_to_ppu_addr(0x05);
    h.read_data();
    assert_eq!(h.read_data(), 0x66);
    let mut v = NesPPU::new(vec![0u8; 0x2000], Mirroring::VERTICAL);
    v.write_to_ppu_addr(0x28);
    v.write_to_ppu_addr(0x05);
    v.write_to_data(0x77);
    v.write_to_ppu_addr(0x20);
    v.write_to_ppu_addr(0x05);
    v.read_data();
    assert_eq!(v.read_data(), 0x77);
}

#[test]
fn palette_aliases() {
    let mut p = ppu();
    p.write_to_ppu_addr(0x3F);
    p.write_to_ppu_addr(0x10);
    p.write_to_data(0x2A);
    assert_eq!(p.palette_table[0], 0x2A);
    p.write_to_ppu_addr(0x3F);
    p.write_to_ppu_addr(0x00);
    assert_eq!(p.read_data(), 0x2A);
}

#[test]
fn oam_data_writes_advance() {
    let mut p = ppu();
    p.write_to_oam_addr(0xFF);
    p.write_to_oam_data(1);
    p.write_to_oam_data(2);
    assert_eq!(p.oam_data[0xFF], 1);
    assert_eq!(p.oam_data[0x00], 2);
    assert_eq!(p.oam_addr, 1);
    p.write_to_oam_addr(0xFF);
    assert_eq!(p.read_oam_data(), 1);
}

#[test]
fn nmi_raised_when_enabled_during_vblank() {
    let mut p = ppu();
    p.status.set_vblank_status(true);
    p.write_to_ctrl(0x80);
    assert_eq!(p.poll_nmi_interrupt(), Some(1));
    assert_eq!(p.poll_nmi_interrupt(), None);
    let mut q = ppu();
    q.write_to_ctrl(0x80);
    assert_eq!(q.poll_nmi_interrupt(), None);
}

#[test]
fn frame_completes_once_per_frame_of_dots() {
    let mut p = ppu();
    p.write_to_ctrl(0x80);
    let mut frames = 0;
    let mut vblank_trace = vec![p.status.is_in_vblank()];
    for _ in 0..44671 {
        if p.tick(2) {
            frames += 1;
        }
        let v = p.status.is_in_vblank();
        if *vblank_trace.last().unwrap() != v {
            vblank_trace.push(v);
        }
    }
    assert_eq!(frames, 1);
    assert_eq!(vblank_trace, vec![false, true, false]);
    assert_eq!(p.scanline, 0);
    assert_eq!(p.cycles, 0);
    assert_eq!(p.poll_nmi_interrupt(), None);
}

#[test]
fn vblank_raises_nmi_latch() {
    let mut p = ppu();
    p.write_to_ctrl(0x80);
    for _ in 0..(241 * 341) {
        p.tick(1);
    }
    assert_eq!(p.scanline, 241);
    assert!(p.status.is_in_vblank());
    assert_eq!(p.poll_nmi_interrupt(), Some(1));
}

#[test]
fn bus_tick_drives_frames() {
    let mut b = bus();
    let mut ticks = 0u32;
    while b.gameloop_callback.count == 0 {
        b.tick(1);
        ticks += 1;
    }
    assert_eq!(ticks, 29781);
    assert_eq!(b.cycles, 29781);
    assert_eq!(b.frames, 1);
    for _ in 0..(29780 * 2) {
        b.tick(1);
    }
    assert_eq!(b.gameloop_callback.count, 2);
    assert_eq!(b.frames, 2);
}

#[test]
fn opcode_table_bounds() {
    for code in 0u8..=255 {
        let op = lookup(code);
        assert_eq!(op.code, code);
        assert!((1..=3).contains(&op.len));
        assert!((2..=8).contains(&op.cycles));
    }
    assert_eq!(lookup(0xA9).mnemonic, "LDA");
    assert_eq!(lookup(0xA9).len, 2);
    assert_eq!(lookup(0x00).cycles, 7);
}

#[test]
fn joypad_streams_buttons() {
    let mut j = Joypad::new();
    j.set_button_pressed_status(BUTTON_A, true);
    j.set_button_pressed_status(START, true);
    j.write(1);
    assert_eq!(j.read(), 1);
    assert_eq!(j.read(), 1);
    j.write(0);
    let got: Vec<u8> = (0..10).map(|_| j.read()).collect();
    assert_eq!(got, vec![1, 0, 0, 1, 0, 0, 0, 0, 1, 1]);
    j.set_button_pressed_status(START, false);
    assert_eq!(j.button_status, BUTTON_A);
}

#[test]
fn joypad_on_the_bus() {
    let mut b = bus();
    b.joypad1.set_button_pressed_status(BUTTON_A, true);
    b.mem_write(0x4016, 1);
    b.mem_write(0x4016, 0);
    assert_eq!(b.mem_read(0x4016), 1);
    assert_eq!(b.mem_read(0x4016), 0);
}

#[test]
fn control_register_fields() {
    let mut c = ControlRegister::new();
    assert_eq!(c.nametable_addr(), 0x2000);
    assert_eq!(c.vram_addr_increment(), 1);
    c.update(0b1111_1111);
    assert_eq!(c.nametable_addr(), 0x2C00);
    assert_eq!(c.vram_addr_increment(), 32);
    assert_eq!(c.sprt_pattern_addr(), 0x1000);
    assert_eq!(c.bknd_pattern_addr(), 0x1000);
    assert_eq!(c.sprite_size(), 16);
    assert_eq!(c.master_slave_select(), 1);
    assert!(c.generate_vblank_nmi());
    c.update(0b0000_0010);
    assert_eq!(c.nametable_addr(), 0x2800);
    assert!(!c.generate_vblank_nmi());
}

#[test]
fn rom_parses_header() {
    let rom = Rom::new(&raw_image(2, 0b0000_0001)).unwrap();
    assert_eq!(rom.prg_rom.len(), 0x8000);
    assert_eq!(rom.chr_rom.len(), 0x2000);
    assert_eq!(rom.screen_mirroring, Mirroring::VERTICAL);
    assert_eq!(rom.prg_rom[3], 3);
    let rom = Rom::new(&raw_image(1, 0b0000_1000)).unwrap();
    assert_eq!(rom.screen_mirroring, Mirroring::FOUR_SCREEN);
    assert_eq!(rom.prg_rom.len(), 0x4000);
    let rom = Rom::new(&raw_image(1, 0)).unwrap();
    assert_eq!(rom.screen_mirroring, Mirroring::HORIZONTAL);
}

#[test]
fn rom_skips_trainer() {
    let rom = Rom::new(&raw_image(1, 0b0000_0010)).unwrap();
    assert_eq!(rom.prg_rom[0], 0);
    assert_eq!(rom.prg_rom[7], 7);
}

#[test]
fn rom_errors() {
    let mut bad_tag = raw_image(1, 0);
    bad_tag[3] = 0;
    assert_eq!(Rom::new(&bad_tag).err(), Some(RomError::NotINes));
    assert_eq!(Rom::new(&vec![0x4E, 0x45]).err(), Some(RomError::NotINes));
    let mut v2 = raw_image(1, 0);
    v2[7] = 0b0000_1000;
    assert_eq!(Rom::new(&v2).err(), Some(RomError::UnsupportedVersion));
    let mut mapper = raw_image(1, 0);
    mapper[6] = 0x10;
    assert_eq!(Rom::new(&mapper).err(), Some(RomError::UnsupportedMapper));
    let mut size = raw_image(1, 0);
    size[4] = 3;
    assert_eq!(Rom::new(&size).err(), Some(RomError::UnsupportedSize));
    let mut short = raw_image(1, 0);
    short.truncate(0x4000);
    assert_eq!(Rom::new(&short).err(), Some(RomError::Truncated));
}

#[test]
fn bus_polls_nmi_latch() {
    let mut b = bus();
    assert_eq!(b.poll_nmi_status(), None);
    b.ppu.status.set_vblank_status(true);
    b.mem_write(0x2000, 0x80);
    assert_eq!(b.poll_nmi_status(), Some(1));
    assert_eq!(b.poll_nmi_status(), None);
    // reading $2002 clears VBlank and returns it
    assert_eq!(b.mem_read(0x2002) & 0x80, 0x80);
    assert_eq!(b.mem_read(0x2002) & 0x80, 0);
}
