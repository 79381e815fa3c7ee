//! The 4096-byte address space: bounds-checked reads and writes, the builtin
//! font table in low memory, and 16-bit address arithmetic.

use vstd::prelude::*;
use crate::bits::U4;
use crate::error::MemoryError;
use crate::rom::Rom;

verus! {

/// Number of bytes in the address space.
pub const MEMORY_SIZE: usize = 4096;

/// The address at which a program image is loaded and execution begins.
pub const MEMORY_START: u16 = 0x200;

/// Bytes per font glyph.
pub const SINGLE_FONT_BYTE_COUNT: u16 = 5;

/// A 16-bit address. Logically the machine addresses 12 bits; intermediate
/// arithmetic wraps in 16 bits and every memory access is bounds-checked.
#[derive(Clone, Copy, Debug)]
pub struct MemoryAddress(pub u16);

impl MemoryAddress {
    pub fn from_u16(value: u16) -> (r: Self)
        ensures
            r.0 == value,
    {
        MemoryAddress(value)
    }

    /// Steps past one 2-byte instruction.
    pub fn increment(&mut self)
        ensures
            final(self).0 == (old(self).0 + 2) % 0x10000,
    {
        self.0 = self.0.wrapping_add(2);
    }

    /// Steps back over one 2-byte instruction.
    pub fn decrement(&mut self)
        requires
            old(self).0 >= 2,
        ensures
            final(self).0 == old(self).0 - 2,
    {
        self.0 = self.0 - 2;
    }

    pub fn set(&mut self, value: u16)
        ensures
            final(self).0 == value,
    {
        self.0 = value;
    }

    pub fn add(&self, value: u16) -> (r: MemoryAddress)
        ensures
            r.0 == (self.0 + value) % 0x10000,
    {
        MemoryAddress(self.0.wrapping_add(value))
    }
}

/// The builtin font table: sixteen glyphs of five bytes each, one per
/// hexadecimal digit, in digit order.
pub open spec fn spec_font() -> Seq<u8> {
    seq![
        0xF0u8, 0x90, 0x90, 0x90, 0xF0,
        0x20, 0x60, 0x20, 0x20, 0x70,
        0xF0, 0x10, 0xF0, 0x80, 0xF0,
        0xF0, 0x10, 0xF0, 0x10, 0xF0,
        0x90, 0x90, 0xF0, 0x10, 0x10,
        0xF0, 0x80, 0xF0, 0x10, 0xF0,
        0xF0, 0x80, 0xF0, 0x90, 0xF0,
        0xF0, 0x10, 0x20, 0x40, 0x40,
        0xF0, 0x90, 0xF0, 0x90, 0xF0,
        0xF0, 0x90, 0xF0, 0x10, 0xF0,
        0xF0, 0x90, 0xF0, 0x90, 0x90,
        0xE0, 0x90, 0xE0, 0x90, 0xE0,
        0xF0, 0x80, 0x80, 0x80, 0xF0,
        0xE0, 0x90, 0x90, 0x90, 0xE0,
        0xF0, 0x80, 0xF0, 0x80, 0xF0,
        0xF0, 0x80, 0xF0, 0x80, 0x80,
    ]
}

/// The font table as bytes.
fn font_data() -> (r: Vec<u8>)
    ensures
        r@ == spec_font(),
{
    let r: Vec<u8> = vec![
        0xF0u8, 0x90, 0x90, 0x90, 0xF0,
        0x20, 0x60, 0x20, 0x20, 0x70,
        0xF0, 0x10, 0xF0, 0x80, 0xF0,
        0xF0, 0x10, 0xF0, 0x10, 0xF0,
        0x90, 0x90, 0xF0, 0x10, 0x10,
        0xF0, 0x80, 0xF0, 0x10, 0xF0,
        0xF0, 0x80, 0xF0, 0x90, 0xF0,
        0xF0, 0x10, 0x20, 0x40, 0x40,
        0xF0, 0x90, 0xF0, 0x90, 0xF0,
        0xF0, 0x90, 0xF0, 0x10, 0xF0,
        0xF0, 0x90, 0xF0, 0x90, 0x90,
        0xE0, 0x90, 0xE0, 0x90, 0xE0,
        0xF0, 0x80, 0x80, 0x80, 0xF0,
        0xE0, 0x90, 0x90, 0x90, 0xE0,
        0xF0, 0x80, 0xF0, 0x80, 0xF0,
        0xF0, 0x80, 0xF0, 0x80, 0x80,
    ];
    proof {
        assert(r@ =~= spec_font());
    }
    r
}

/// The contents of memory after loading a program image: font table at the
/// bottom, the image at the program start, zero elsewhere.
pub open spec fn spec_loaded(rom: Seq<u8>) -> Seq<u8> {
    Seq::new(
        MEMORY_SIZE as nat,
        |i: int|
            if i < 80 {
                spec_font()[i]
            } else if MEMORY_START <= i < MEMORY_START + rom.len() {
                rom[i - MEMORY_START]
            } else {
                0u8
            },
    )
}

/// Memory after writing `bytes` at `start`; addresses outside the written
/// range keep their old contents.
pub open spec fn spec_write(data: Seq<u8>, start: int, bytes: Seq<u8>) -> Seq<u8> {
    Seq::new(
        data.len(),
        |i: int|
            if start <= i < start + bytes.len() {
                bytes[i - start]
            } else {
                data[i]
            },
    )
}

/// The byte-addressable memory.
#[derive(Debug)]
pub struct Memory {
    pub data: Vec<u8>,
}

impl Memory {
    /// Memory is well formed when it spans the whole address space.
    pub open spec fn wf(self) -> bool {
        self.data@.len() == MEMORY_SIZE
    }

    /// All-zero memory.
    pub fn new() -> (r: Self)
        ensures
            r.wf(),
            r.data@ == Seq::new(MEMORY_SIZE as nat, |i: int| 0u8),
    {
        let mut data: Vec<u8> = Vec::new();
        let mut i: usize = 0;
        while i < MEMORY_SIZE
            invariant
                i <= MEMORY_SIZE,
                data@.len() == i,
                forall|j: int| 0 <= j < i ==> data@[j] == 0u8,
            decreases MEMORY_SIZE - i,
        {
            data.push(0);
            i += 1;
        }
        proof {
            assert(data@ =~= Seq::new(MEMORY_SIZE as nat, |i: int| 0u8));
        }
        Memory { data }
    }

    /// Loads a program image: fails if and only if the image does not fit
    /// above the program start, otherwise zero-fills, writes the font table
    /// at the bottom and the image at the program start.
    pub fn from_rom(rom: Rom) -> (r: Result<Self, MemoryError>)
        ensures
            match r {
                Ok(m) => rom.data@.len() <= MEMORY_SIZE - MEMORY_START && m.wf() && m.data@
                    == spec_loaded(rom.data@),
                Err(e) => rom.data@.len() > MEMORY_SIZE - MEMORY_START && e
                    == MemoryError::RomTooLarge,
            },
    {
        let rom_start = MEMORY_START as usize;
        if rom.data.len() > MEMORY_SIZE - rom_start {
            return Err(MemoryError::RomTooLarge);
        }
        let mut memory = Memory::new();
        let font = font_data();
        let mut i: usize = 0;
        while i < 80
            invariant
                i <= 80,
                memory.data@.len() == MEMORY_SIZE,
                font@ == spec_font(),
                forall|j: int| 0 <= j < i ==> memory.data@[j] == spec_font()[j],
                forall|j: int| i <= j < MEMORY_SIZE ==> memory.data@[j] == 0u8,
            decreases 80 - i,
        {
            memory.data[i] = font[i];
            i += 1;
        }
        let mut k: usize = 0;
        while k < rom.data.len()
            invariant
                k <= rom.data@.len(),
                rom_start == MEMORY_START,
                rom.data@.len() <= MEMORY_SIZE - MEMORY_START,
                memory.data@.len() == MEMORY_SIZE,
                forall|j: int| 0 <= j < 80 ==> memory.data@[j] == spec_font()[j],
                forall|j: int|
                    MEMORY_START <= j < MEMORY_START + k ==> memory.data@[j] == rom.data@[j
                        - MEMORY_START],
                forall|j: int|
                    80 <= j < MEMORY_SIZE && !(MEMORY_START <= j < MEMORY_START + k)
                        ==> memory.data@[j] == 0u8,
            decreases rom.data@.len() - k,
        {
            memory.data[rom_start + k] = rom.data[k];
            k += 1;
        }
        proof {
            assert(memory.data@ =~= spec_loaded(rom.data@));
        }
        Ok(memory)
    }

    /// The address of the five-byte glyph for a hexadecimal digit.
    pub fn get_address_for_font(&self, value: U4) -> (r: MemoryAddress)
        requires
            value.wf(),
        ensures
            r.0 == value.0 * SINGLE_FONT_BYTE_COUNT,
    {
        let raw_address = (value.0 as u16) * SINGLE_FONT_BYTE_COUNT;
        MemoryAddress(raw_address)
    }

    /// Reads the big-endian 16-bit word at `address`. The caller keeps the
    /// address in bounds; the instruction fetch path always holds a valid
    /// program counter.
    pub fn read_instruction(&self, address: MemoryAddress) -> (r: u16)
        requires
            self.wf(),
            address.0 + 1 < MEMORY_SIZE,
        ensures
            r == self.data@[address.0 as int] * 256 + self.data@[address.0 + 1],
    {
        let upper = self.data[address.0 as usize] as u16;
        let lower = self.data[(address.0 + 1) as usize] as u16;
        proof {
            assert(upper <= 255 ==> (upper << 8) == upper * 256) by (bit_vector);
        }
        (upper << 8) + lower
    }

    /// Writes `bytes` at `start`; fails, changing nothing, if and only if the
    /// range leaves the address space.
    pub fn write_slice(&mut self, start: MemoryAddress, bytes: &[u8]) -> (r: Result<
        (),
        MemoryError,
    >)
        requires
            old(self).wf(),
        ensures
            final(self).wf(),
            match r {
                Ok(()) => start.0 + bytes@.len() <= MEMORY_SIZE && final(self).data@ == spec_write(
                    old(self).data@,
                    start.0 as int,
                    bytes@,
                ),
                Err(e) => start.0 + bytes@.len() > MEMORY_SIZE && *final(self) == *old(self) && e
                    == (MemoryError::OutOfBounds { start: start.0 as usize, len: bytes@.len() as usize }),
            },
    {
        let start_idx = start.0 as usize;
        if bytes.len() > MEMORY_SIZE || start_idx > MEMORY_SIZE - bytes.len() {
            return Err(MemoryError::OutOfBounds { start: start_idx, len: bytes.len() });
        }
        let mut offset: usize = 0;
        while offset < bytes.len()
            invariant
                offset <= bytes@.len(),
                start_idx == start.0,
                start_idx + bytes@.len() <= MEMORY_SIZE,
                self.data@.len() == MEMORY_SIZE,
                forall|j: int|
                    start_idx <= j < start_idx + offset ==> self.data@[j] == bytes@[j - start_idx],
                forall|j: int|
                    0 <= j < MEMORY_SIZE && !(start_idx <= j < start_idx + offset)
                        ==> self.data@[j] == old(self).data@[j],
            decreases bytes@.len() - offset,
        {
            self.data[start_idx + offset] = bytes[offset];
            offset += 1;
        }
        proof {
            assert(self.data@ =~= spec_write(old(self).data@, start.0 as int, bytes@));
        }
        Ok(())
    }

    /// Reads `length` bytes starting at `start`; fails if and only if the
    /// range leaves the address space.
    pub fn read_slice(&self, start: MemoryAddress, length: usize) -> (r: Result<&[u8], MemoryError>)
        requires
            self.wf(),
        ensures
            match r {
                Ok(s) => start.0 + length <= MEMORY_SIZE && s@ == self.data@.subrange(
                    start.0 as int,
                    start.0 + length,
                ),
                Err(e) => start.0 + length > MEMORY_SIZE && e == (MemoryError::OutOfBounds {
                    start: start.0 as usize,
                    len: length,
                }),
            },
    {
        let start_idx = start.0 as usize;
        if length > MEMORY_SIZE || start_idx > MEMORY_SIZE - length {
            return Err(MemoryError::OutOfBounds { start: start_idx, len: length });
        }
        Ok(vstd::slice::slice_subrange(self.data.as_slice(), start_idx, start_idx + length))
    }
}

} // verus!
