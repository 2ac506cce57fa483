//! A cycle-approximate emulator core for the 6502-based console: CPU
//! interpreter, memory bus and PPU timing, with their behaviour stated as
//! contracts and proved.
pub mod bus;
pub mod cartridge;
pub mod cpu;
pub mod dispatch;
pub mod execution;
pub mod flags;
pub mod instructions;
pub mod interrupts;
pub mod joypad;
pub mod opcodes;
pub mod ppu;
pub mod ppu_addr_register;
pub mod ppu_control_register;
pub mod ppu_mask_register;
pub mod ppu_scroll_register;
pub mod ppu_status_register;
pub mod unused_bit;
