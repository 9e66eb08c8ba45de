pub mod bits;
pub mod instructions;
pub mod interrupts;
pub mod registers;
pub mod timer;
pub mod joypad;
pub mod serial;
pub mod lcd;
pub mod tile;
pub mod object;
pub mod renderer;
pub mod graphics;
pub mod mbc;
pub mod memory;
pub mod system;
pub mod cpu;
pub mod emulator;
pub mod trace;
pub mod alu;
