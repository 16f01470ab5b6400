//! A cycle-approximate emulator core for the original 8-bit handheld game
//! console built around the Sharp LR35902 CPU.
//!
//! The crate models the tightly coupled triplet of CPU, bus and peripherals:
//! instruction decode and execution with exact flag semantics, the memory map
//! with its memory-bank controller, the pixel pipeline producing a 160x144
//! framebuffer, the timer with its falling-edge detector, and interrupt
//! delivery.  Everything here is pure logic over plain values: loading ROM
//! images from disk, presenting frames and pacing emulation to real time are
//! the host's business.

pub mod alu;
pub mod bits;
pub mod interrupt;
pub mod ioregister;
pub mod mbc;
pub mod joypad;
pub mod memory;
pub mod serial;
pub mod system;
pub mod timer;
pub mod video;
pub mod sound;
pub mod wram;
pub mod cpu;
pub mod decode;
pub mod instruction;
pub mod operands;
pub mod regs;
pub mod rom;
