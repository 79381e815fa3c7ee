//! Typed failures of decoding, memory access and instruction stepping. Every
//! failure carries the offending word or address range so a host can render a
//! diagnostic; none is a panic.

use vstd::prelude::*;

verus! {

/// Failure to decode a 16-bit opcode word.
#[derive(Clone, Copy, Debug, PartialEq, Eq, Structural)]
pub enum DecodeError {
    /// The word starts with nibble 0 but is neither of the two supported
    /// machine routines: legacy system calls are not supported.
    UnsupportedSystemCall(u16),
    /// The word matches no opcode pattern.
    InvalidOpcode(u16),
}

/// Failure of a bounds-checked memory operation.
#[derive(Clone, Copy, Debug, PartialEq, Eq, Structural)]
pub enum MemoryError {
    /// A program image longer than the space above the program start.
    RomTooLarge,
    /// An access to `[start, start + len)` that leaves the address space.
    OutOfBounds { start: usize, len: usize },
}

/// Failure of one fetch-decode-execute step.
#[derive(Clone, Copy, Debug, PartialEq, Eq, Structural)]
pub enum StepError {
    /// The word fetched at `address` did not decode.
    Fetch { address: u16, error: DecodeError },
    /// A return instruction found the call stack empty.
    StackUnderflow,
    /// An instruction touched memory outside the address space.
    Memory(MemoryError),
}

} // verus!
