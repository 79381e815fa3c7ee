//! A small fixed instruction-set virtual machine: a byte-addressable CPU with
//! 4096 bytes of memory, 16 general registers, a call stack, two timers, a
//! 64x32 monochrome framebuffer and a 16-key input device. Programs are
//! sequences of 16-bit opcodes fetched, decoded and executed one per step.

pub mod bits;
pub mod cpu;
pub mod display;
pub mod error;
pub mod instruction;
pub mod keypad;
pub mod laws;
pub mod memory;
pub mod rom;
pub mod timer;

pub use bits::U4;
pub use cpu::Cpu;
pub use cpu::CpuState;
pub use cpu::VariableRegisters;
pub use display::Display;
pub use instruction::Instruction;
pub use keypad::Keypad;
pub use keypad::MockKeypad;
pub use timer::Timer;
pub use error::DecodeError;
pub use error::MemoryError;
pub use error::StepError;
pub use memory::Memory;
pub use memory::MemoryAddress;
pub use memory::MEMORY_SIZE;
pub use memory::MEMORY_START;
pub use rom::Rom;
