//! Core of a cycle-timed emulator for the 8-bit handheld console built around
//! the Sharp LR35902 CPU: register file, CPU, memory bus, cartridge banking,
//! pixel-processing unit, timer, interrupt controller and joypad.

pub mod registers;
pub mod interrupts;
pub mod joypad;
pub mod timer;
pub mod cartridge;
pub mod mmu;
pub mod ppu;
pub mod cpu;
