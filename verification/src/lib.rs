//! An emulator of the Intel 8080, its disassembler, and the Space Invaders
//! cabinet that is built around it.

pub mod argument;
pub mod command;
pub mod config;
pub mod cpu;
pub mod databus;
pub mod disassembler;
pub mod flags;
pub mod invaders_draw_vram;
pub mod invaders_io;
pub mod invaders_machine;
pub mod invaders_mem_limit;
pub mod isa;
pub mod laws;
pub mod machine;
pub mod mem_limiter;
pub mod registers;
pub mod text;
pub mod word;

pub use argument::Argument;
pub use command::{Command, Iter};
pub use cpu::{ClockCycles, RS8080};
pub use databus::DataBus;
pub use disassembler::{disassemble, Cmd};
pub use mem_limiter::{AllowAll, MemLimiter, WriteAction};
