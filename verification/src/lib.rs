//! The core of an 8-bit handheld console: processor, memory bus, cartridge
//! mappers, timer and interrupt sources, with each component's behaviour
//! stated as a contract over a mathematical model of its state.

pub mod bus;
pub mod cartridge;
pub mod cpu;
pub mod interrupts;
pub mod ppu;
pub mod timer;
