use nes_emu::bus::{Bus, BusError, FrameHandler};
use nes_emu::cartridge::Rom;
use nes_emu::cpu::{AddressingMode, CPU};
use nes_emu::execution::NoHook;
use nes_emu::instructions::Executed;
use nes_emu::interrupts::nmi;
use nes_emu::joypad::Joypad;
use nes_emu::ppu::NesPPU;

struct Frames {
    count: u32,
}

impl FrameHandler for Frames {
    fn on_frame(&mut self, _ppu: &NesPPU, _joypad: &mut Joypad) {
        self.count += 1;
    }
}

/// An NROM-256 image whose reset vector is `vector` and whose PRG-ROM holds
/// `code` from 0x8000 on.
fn image(vector: u16, code: &[u8]) -> Vec<u8> {
    let mut raw = vec![0x4E, 0x45, 0x53, 0x1A, 2, 1, 0, 0, 0, 0, 0, 0, 0, 0, 0, 0];
    let mut prg = vec![0u8; 0x8000];
    prg[..code.len()].copy_from_slice(code);
    prg[0x7FFC] = (vector & 0xFF) as u8;
    prg[0x7FFD] = (vector >> 8) as u8;
    raw.extend_from_slice(&prg);
    raw.extend_from_slice(&vec![0u8; 0x2000]);
    raw
}

fn cpu_with(vector: u16, code: &[u8]) -> CPU<Frames> {
    let rom = Rom::new(&image(vector, code)).unwrap();
    let bus = Bus::new(rom, Frames { count: 0 });
    CPU::new(bus)
}

fn run_program(program: Vec<u8>) -> CPU<Frames> {
    let mut cpu = cpu_with(0x0600, &[]);
    cpu.load_and_run(program).unwrap();
    cpu
}

#[test]
fn reset_gives_power_on_state() {
    let mut cpu = cpu_with(0x8000, &[]);
    cpu.register_a = 7;
    cpu.register_x = 8;
    cpu.stack_pointer = 3;
    cpu.reset();
    assert_eq!(cpu.register_a, 0);
    assert_eq!(cpu.register_x, 0);
    assert_eq!(cpu.register_y, 0);
    assert_eq!(cpu.stack_pointer, 0xFD);
    assert_eq!(cpu.status, 0x24);
    assert_eq!(cpu.program_counter, 0x8000);
}

#[test]
fn lda_immediate_then_brk() {
    let cpu = run_program(vec![0xA9, 0x05, 0x00]);
    assert_eq!(cpu.register_a, 5);
    assert_eq!(cpu.status & 0b0000_0010, 0);
    assert_eq!(cpu.status & 0b1000_0000, 0);
}

#[test]
fn tax_and_two_inx_wrap_to_one() {
    let cpu = run_program(vec![0xA9, 0xFF, 0xAA, 0xE8, 0xE8, 0x00]);
    assert_eq!(cpu.register_x, 1);
}

#[test]
fn store_then_load_zero_page() {
    let cpu = run_program(vec![0xA9, 0x10, 0x85, 0x20, 0xA5, 0x20, 0x00]);
    assert_eq!(cpu.register_a, 0x10);
}

#[test]
fn push_and_pull_restore_accumulator() {
    for v in [0u8, 1, 0x7F, 0x80, 0xFF] {
        let cpu = run_program(vec![0xA9, v, 0x48, 0xA9, 0x00, 0x68, 0x00]);
        assert_eq!(cpu.register_a, v);
        assert_eq!(cpu.stack_pointer, 0xFD);
    }
}

#[test]
fn pha_writes_at_stack_page() {
    let mut cpu = run_program(vec![0xA9, 0x42, 0x48, 0x00]);
    assert_eq!(cpu.stack_pointer, 0xFC);
    assert_eq!(cpu.mem_read(0x01FD).unwrap(), 0x42);
}

#[test]
fn adc_then_sbc_restores_accumulator() {
    // SEC; LDA #$35; ADC #$21; SBC #$21; BRK
    let cpu = run_program(vec![0x38, 0xA9, 0x35, 0x69, 0x21, 0xE9, 0x21, 0x00]);
    assert_eq!(cpu.register_a, 0x35);
    assert_eq!(cpu.status & 0b0000_0001, 1);
    assert_eq!(cpu.status & 0b0100_0000, 0);
}

#[test]
fn adc_sets_carry_and_overflow() {
    // CLC; LDA #$50; ADC #$50; BRK: 0xA0, V set, C clear, N set
    let cpu = run_program(vec![0x18, 0xA9, 0x50, 0x69, 0x50, 0x00]);
    assert_eq!(cpu.register_a, 0xA0);
    assert_eq!(cpu.status & 0b0100_0000, 0b0100_0000);
    assert_eq!(cpu.status & 0b0000_0001, 0);
    assert_eq!(cpu.status & 0b1000_0000, 0b1000_0000);
    // CLC; LDA #$FF; ADC #$01: 0x00, C and Z set, V clear
    let cpu = run_program(vec![0x18, 0xA9, 0xFF, 0x69, 0x01, 0x00]);
    assert_eq!(cpu.register_a, 0);
    assert_eq!(cpu.status & 0b0000_0011, 0b0000_0011);
    assert_eq!(cpu.status & 0b0100_0000, 0);
}

#[test]
fn sbc_borrows() {
    // SEC; LDA #$10; SBC #$20; BRK -> 0xF0, C clear, N set
    let cpu = run_program(vec![0x38, 0xA9, 0x10, 0xE9, 0x20, 0x00]);
    assert_eq!(cpu.register_a, 0xF0);
    assert_eq!(cpu.status & 1, 0);
    assert_eq!(cpu.status & 0b1000_0000, 0b1000_0000);
}

#[test]
fn jmp_indirect_wraps_within_page() {
    // vector bytes: 0x02FF = 0x34, 0x0200 = 0x06, 0x0300 = 0x99
    let mut cpu = cpu_with(0x0600, &[]);
    cpu.mem_write(0x02FF, 0x34).unwrap();
    cpu.mem_write(0x0200, 0x06).unwrap();
    cpu.mem_write(0x0300, 0x99).unwrap();
    cpu.load(vec![0x6C, 0xFF, 0x02]).unwrap();
    cpu.reset();
    cpu.execute_instruction().unwrap();
    assert_eq!(cpu.program_counter, 0x0634);
}

#[test]
fn inx_wraps_and_sets_zero() {
    let cpu = run_program(vec![0xA2, 0xFF, 0xE8, 0x00]);
    assert_eq!(cpu.register_x, 0);
    assert_eq!(cpu.status & 0b0000_0010, 0b0000_0010);
}

#[test]
fn branch_back_one_regresses_page() {
    let mut cpu = cpu_with(0x0600, &[]);
    cpu.mem_write(0x06FF, 0xFF).unwrap();
    cpu.program_counter = 0x06FF;
    cpu.branch(true).unwrap();
    assert_eq!(cpu.program_counter, 0x06FF);
    assert_eq!(cpu.program_counter & 0xFF00, 0x0600);
}

#[test]
fn branch_forward_and_not_taken() {
    // LDX #1; BNE +2; LDX #5; BRK; => X stays 1
    let cpu = run_program(vec![0xA2, 0x01, 0xD0, 0x02, 0xA2, 0x05, 0x00]);
    assert_eq!(cpu.register_x, 1);
    // LDX #0; BNE +2 (not taken); LDX #5; BRK
    let cpu = run_program(vec![0xA2, 0x00, 0xD0, 0x02, 0xA2, 0x05, 0x00]);
    assert_eq!(cpu.register_x, 5);
}

#[test]
fn indirect_y_pointer_wraps_in_zero_page() {
    // pointer at 0x00FF: low 0x00FF = 0x10, high from 0x0000 = 0x03 (not 0x0100 = 0x04)
    let mut cpu = cpu_with(0x0600, &[]);
    cpu.mem_write(0x00FF, 0x10).unwrap();
    cpu.mem_write(0x0000, 0x03).unwrap();
    cpu.mem_write(0x0100, 0x04).unwrap();
    cpu.mem_write(0x0312, 0xAB).unwrap();
    cpu.mem_write(0x0412, 0xCD).unwrap();
    // LDY #2; LDA ($FF),Y; BRK
    cpu.load(vec![0xA0, 0x02, 0xB1, 0xFF, 0x00]).unwrap();
    cpu.reset();
    cpu.run().unwrap();
    assert_eq!(cpu.register_a, 0xAB);
}

#[test]
fn jsr_and_rts_return_after_call() {
    // JSR $0606; LDX #7; BRK; (0x0606:) LDY #9; RTS
    let cpu = run_program(vec![0x20, 0x06, 0x06, 0xA2, 0x07, 0x00, 0xA0, 0x09, 0x60]);
    assert_eq!(cpu.register_x, 7);
    assert_eq!(cpu.register_y, 9);
    assert_eq!(cpu.stack_pointer, 0xFD);
}

#[test]
fn plp_keeps_unused_bit_set() {
    // LDA #0; PHA; PLP; BRK: U forced to 1, B to 0
    let cpu = run_program(vec![0xA9, 0x00, 0x48, 0x28, 0x00]);
    assert_eq!(cpu.status, 0b0010_0000);
    // LDA #$FF; PHA; PLP; PHP; PLA; BRK: PHP pushes B and U set
    let cpu = run_program(vec![0xA9, 0xFF, 0x48, 0x28, 0x08, 0x68, 0x00]);
    assert_eq!(cpu.register_a, 0xFF);
}

#[test]
fn compare_sets_carry_and_zero() {
    // LDA #5; CMP #5; BRK
    let cpu = run_program(vec![0xA9, 0x05, 0xC9, 0x05, 0x00]);
    assert_eq!(cpu.status & 0b0000_0011, 0b0000_0011);
    // LDA #4; CMP #5: borrow, negative
    let cpu = run_program(vec![0xA9, 0x04, 0xC9, 0x05, 0x00]);
    assert_eq!(cpu.status & 0b0000_0001, 0);
    assert_eq!(cpu.status & 0b1000_0000, 0b1000_0000);
}

#[test]
fn shifts_and_rotates() {
    // LDA #$81; ASL A; BRK -> 0x02, C set
    let cpu = run_program(vec![0xA9, 0x81, 0x0A, 0x00]);
    assert_eq!(cpu.register_a, 0x02);
    assert_eq!(cpu.status & 1, 1);
    // SEC; LDA #$01; ROR A; BRK -> 0x80, C set
    let cpu = run_program(vec![0x38, 0xA9, 0x01, 0x6A, 0x00]);
    assert_eq!(cpu.register_a, 0x80);
    assert_eq!(cpu.status & 1, 1);
    // LDA #$03; STA $10; LSR $10; LDA $10; BRK -> 0x01, C set
    let cpu = run_program(vec![0xA9, 0x03, 0x85, 0x10, 0x46, 0x10, 0xA5, 0x10, 0x00]);
    assert_eq!(cpu.register_a, 0x01);
    assert_eq!(cpu.status & 1, 1);
}

#[test]
fn unofficial_lax_and_dcp() {
    // LDA #$33; STA $10; LAX $10; BRK
    let cpu = run_program(vec![0xA9, 0x33, 0x85, 0x10, 0xA7, 0x10, 0x00]);
    assert_eq!(cpu.register_a, 0x33);
    assert_eq!(cpu.register_x, 0x33);
    // LDA #$05; STA $10; DCP $10; BRK: memory 4, carry set (4 <= 5)
    let mut cpu = run_program(vec![0xA9, 0x05, 0x85, 0x10, 0xC7, 0x10, 0x00]);
    assert_eq!(cpu.mem_read(0x0010).unwrap(), 4);
    assert_eq!(cpu.status & 1, 1);
    // SEC; LDA #$05; STA $10; LDA #$02; DCP $10; BRK: memory 4, A < 4 clears carry
    let mut cpu = run_program(vec![0x38, 0xA9, 0x05, 0x85, 0x10, 0xA9, 0x02, 0xC7, 0x10, 0x00]);
    assert_eq!(cpu.mem_read(0x0010).unwrap(), 4);
    assert_eq!(cpu.status & 1, 0);
    assert_eq!(cpu.status & 0b1000_0000, 0b1000_0000);
    // LDA #$05; STA $10; LDA #$04; DCP $10; BRK: equal, Z and C set
    let cpu = run_program(vec![0xA9, 0x05, 0x85, 0x10, 0xA9, 0x04, 0xC7, 0x10, 0x00]);
    assert_eq!(cpu.status & 0b0000_0011, 0b0000_0011);
}

#[test]
fn page_cross_costs_a_cycle() {
    // LDX #$FF; LDA $06F0,X (crosses into 0x07EF); BRK
    let mut cpu = cpu_with(0x0600, &[]);
    cpu.load(vec![0xA2, 0xFF, 0xBD, 0xF0, 0x06, 0x00]).unwrap();
    cpu.reset();
    cpu.execute_instruction().unwrap();
    let r = cpu.execute_instruction().unwrap();
    assert_eq!(r, Executed::Ran { page_crossed: true, cycles: 4 });
    // a store does not pay it: STA $06F0,X
    let mut cpu = cpu_with(0x0600, &[]);
    cpu.load(vec![0xA2, 0xFF, 0x9D, 0xF0, 0x06, 0x00]).unwrap();
    cpu.reset();
    cpu.execute_instruction().unwrap();
    let r = cpu.execute_instruction().unwrap();
    assert_eq!(r, Executed::Ran { page_crossed: false, cycles: 5 });
}

#[test]
fn step_spends_cycles() {
    let mut cpu = cpu_with(0x0600, &[]);
    cpu.load(vec![0xA9, 0x01, 0x00]).unwrap();
    cpu.reset();
    let mut hook = NoHook;
    assert_eq!(cpu.step(&mut hook), Ok(false));
    assert_eq!(cpu.bus.cycles, 2);
    assert_eq!(cpu.bus.ppu.cycles, 6);
    assert_eq!(cpu.step(&mut hook), Ok(true));
}

#[test]
fn writing_rom_stops_run() {
    // STA $8000
    let mut cpu = cpu_with(0x0600, &[]);
    let r = cpu.load_and_run(vec![0x8D, 0x00, 0x80, 0x00]);
    assert_eq!(r, Err(BusError::RomWrite(0x8000)));
}

#[test]
fn nmi_entry_pushes_and_jumps() {
    let mut code = vec![0u8; 0x7FFC];
    code[0x7FFA] = 0x00;
    code[0x7FFB] = 0x90;
    let mut cpu = cpu_with(0x0600, &code);
    cpu.reset();
    cpu.program_counter = 0x1234;
    cpu.status = 0b0011_0000;
    cpu.interrupt(nmi());
    assert_eq!(cpu.program_counter, 0x9000);
    assert_eq!(cpu.stack_pointer, 0xFA);
    assert_eq!(cpu.status & 0b0000_0100, 0b0000_0100);
    assert_eq!(cpu.mem_read(0x01FD).unwrap(), 0x12);
    assert_eq!(cpu.mem_read(0x01FC).unwrap(), 0x34);
    // pushed P: B clear, U set
    assert_eq!(cpu.mem_read(0x01FB).unwrap(), 0b0010_0000);
    assert_eq!(cpu.bus.cycles, 2);
}

#[test]
fn vblank_nmi_interrupts_running_program() {
    // NMI vector 0x0610: zero work RAM there is BRK.
    let mut code = vec![0u8; 0x7FFC];
    code[0x7FFA] = 0x10;
    code[0x7FFB] = 0x06;
    let mut cpu = cpu_with(0x0600, &code);
    // LDA #$80; STA $2000; JMP $0605 (spins)
    cpu.load(vec![0xA9, 0x80, 0x8D, 0x00, 0x20, 0x4C, 0x05, 0x06]).unwrap();
    cpu.reset();
    cpu.run().unwrap();
    assert_eq!(cpu.program_counter, 0x0611);
    assert_eq!(cpu.bus.ppu.scanline, 241);
    assert_eq!(cpu.bus.gameloop_callback.count, 0);
    assert_eq!(cpu.stack_pointer, 0xFA);
    assert_eq!(cpu.mem_read(0x01FD).unwrap(), 0x06);
    assert_eq!(cpu.mem_read(0x01FC).unwrap(), 0x05);
    assert_eq!(cpu.status & 0b0010_0100, 0b0010_0100);
}

#[test]
fn absolute_address_of_operands() {
    let mut cpu = cpu_with(0x0600, &[]);
    cpu.mem_write(0x0010, 0x34).unwrap();
    cpu.mem_write(0x0011, 0x12).unwrap();
    cpu.register_x = 0x01;
    cpu.register_y = 0x02;
    assert_eq!(cpu.get_absolute_address(&AddressingMode::ZeroPage, 0x0010), Ok(0x34));
    assert_eq!(cpu.get_absolute_address(&AddressingMode::ZeroPage_X, 0x0010), Ok(0x35));
    assert_eq!(cpu.get_absolute_address(&AddressingMode::Absolute, 0x0010), Ok(0x1234));
    assert_eq!(cpu.get_absolute_address(&AddressingMode::Absolute_Y, 0x0010), Ok(0x1236));
    assert_eq!(cpu.get_absolute_address(&AddressingMode::Immediate, 0x0010), Ok(0x0010));
    cpu.program_counter = 0x0010;
    assert_eq!(cpu.get_operand_address(&AddressingMode::Absolute_X), Ok((0x1235, false)));
}

#[test]
fn word_write_and_read() {
    let mut cpu = cpu_with(0x0600, &[]);
    cpu.mem_write_u16(0x07FF, 0xBEEF).unwrap();
    assert_eq!(cpu.mem_read(0x07FF).unwrap(), 0xEF);
    assert_eq!(cpu.mem_read(0x0800).unwrap(), 0xBE);
    assert_eq!(cpu.mem_read_u16(0x07FF).unwrap(), 0xBEEF);
    assert_eq!(cpu.mem_write_u16(0x7FFF, 1), Err(BusError::RomWrite(0x8000)));
}

#[test]
fn stack_push_and_pop() {
    let mut cpu = cpu_with(0x0600, &[]);
    cpu.stack_pointer = 0x00;
    cpu.push_stack(0x11);
    assert_eq!(cpu.stack_pointer, 0xFF);
    assert_eq!(cpu.mem_read(0x0100).unwrap(), 0x11);
    assert_eq!(cpu.pop_stack(), 0x11);
    assert_eq!(cpu.stack_pointer, 0x00);
    cpu.stack_pointer = 0xFF;
    cpu.mem_write(0x0100, 0x22).unwrap();
    assert_eq!(cpu.pop_stack(), 0x22);
    assert_eq!(cpu.stack_pointer, 0x00);
}

#[test]
fn long_program_loads_past_work_ram() {
    let mut cpu = cpu_with(0x0600, &[]);
    // 0x0600 + 0x300 reaches the mirror at 0x0800, which is 0x0000
    let mut program = vec![0xEAu8; 0x300];
    program[0x2FF] = 0x42;
    cpu.load(program).unwrap();
    assert_eq!(cpu.mem_read(0x00FF).unwrap(), 0x42);
    // writes stop at the first refused one: the status register
    let big = vec![0u8; 0x7A01];
    assert_eq!(cpu.load(big), Err(BusError::ReadOnly(0x2002)));
}

#[test]
fn brk_leaves_state_after_fetch() {
    let mut cpu = cpu_with(0x0600, &[]);
    cpu.load(vec![0x00]).unwrap();
    cpu.reset();
    cpu.run().unwrap();
    assert_eq!(cpu.program_counter, 0x0601);
    assert_eq!(cpu.status, 0x24);
    assert_eq!(cpu.stack_pointer, 0xFD);
    assert_eq!(cpu.bus.cycles, 0);
}
