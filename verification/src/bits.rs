//! Splitting 16-bit opcode words into 4-bit fields and bytes, and joining
//! nibbles back into bytes and 12-bit addresses.

use vstd::prelude::*;

verus! {

/// A four-bit value: one hexadecimal digit of an opcode word.
#[derive(Clone, Copy, Debug)]
pub struct U4(pub u8);

impl U4 {
    /// A `U4` is well formed when it fits in four bits.
    pub open spec fn wf(self) -> bool {
        self.0 <= 0xF
    }

    pub fn new(value: u8) -> (r: U4)
        requires
            value <= 0xF,
        ensures
            r.0 == value,
            r.wf(),
    {
        U4(value)
    }

    pub fn get(self) -> (r: u8)
        ensures
            r == self.0,
    {
        self.0
    }
}

/// Splits a 16-bit word into its high and low bytes.
pub fn split_u16(value: u16) -> (r: (u8, u8))
    ensures
        r.0 == value / 256,
        r.1 == value % 256,
{
    let upper = (value & 0xFF00) >> 8;
    let lower = value & 0xFF;
    proof {
        assert((value & 0xFF00) >> 8 == value / 256 && value / 256 <= 255) by (bit_vector);
        assert(value & 0xFF == value % 256) by (bit_vector);
    }
    (upper as u8, lower as u8)
}

/// Splits a byte into its high and low four-bit halves.
pub fn split_u8(value: u8) -> (r: (U4, U4))
    ensures
        r.0.0 == value / 16,
        r.1.0 == value % 16,
        r.0.wf(),
        r.1.wf(),
{
    let upper = (value & 0xF0) >> 4;
    let lower = value & 0xF;
    proof {
        assert((value & 0xF0) >> 4 == value / 16 && value / 16 <= 15) by (bit_vector);
        assert(value & 0xF == value % 16 && value % 16 <= 15) by (bit_vector);
    }
    (U4::new(upper), U4::new(lower))
}

/// Joins three nibbles into a 12-bit value, highest first.
pub fn join_to_u16(n1: U4, n2: U4, n3: U4) -> (r: u16)
    requires
        n1.wf(),
        n2.wf(),
        n3.wf(),
    ensures
        r == n1.0 * 256 + n2.0 * 16 + n3.0,
        r <= 0xFFF,
{
    let v1 = n1.0 as u16;
    let v2 = n2.0 as u16;
    let v3 = n3.0 as u16;
    proof {
        assert(v1 <= 15 && v2 <= 15 && v3 <= 15 ==> (v1 << 8) == v1 * 256 && (v2 << 4) == v2
            * 16) by (bit_vector);
    }
    (v1 << 8) + (v2 << 4) + v3
}

/// Joins two bytes into a 16-bit word, high byte first.
pub fn join_bytes(b1: u8, b2: u8) -> (r: u16)
    ensures
        r == b1 * 256 + b2,
{
    let v1 = b1 as u16;
    let v2 = b2 as u16;
    proof {
        assert(v1 <= 255 ==> (v1 << 8) == v1 * 256) by (bit_vector);
    }
    (v1 << 8) + v2
}

/// Joins two nibbles into a byte, high nibble first.
pub fn join_to_u8(n1: U4, n2: U4) -> (r: u8)
    requires
        n1.wf(),
        n2.wf(),
    ensures
        r == n1.0 * 16 + n2.0,
{
    let v1 = n1.0;
    proof {
        assert(v1 <= 15 ==> (v1 << 4) == v1 * 16) by (bit_vector);
    }
    (v1 << 4) + n2.0
}

/// Joins four nibbles into a 16-bit word, highest first.
pub fn join_nibbles(n1: u8, n2: u8, n3: u8, n4: u8) -> (r: u16)
    requires
        n1 <= 0xF,
        n2 <= 0xF,
        n3 <= 0xF,
        n4 <= 0xF,
    ensures
        r == n1 * 4096 + n2 * 256 + n3 * 16 + n4,
{
    let v1 = n1 as u16;
    let v2 = n2 as u16;
    let v3 = n3 as u16;
    let v4 = n4 as u16;
    proof {
        assert(v1 <= 15 && v2 <= 15 && v3 <= 15 ==> (v1 << 12) == v1 * 4096 && (v2 << 8) == v2
            * 256 && (v3 << 4) == v3 * 16) by (bit_vector);
    }
    (v1 << 12) + (v2 << 8) + (v3 << 4) + v4
}

/// Splits a 16-bit opcode word into its four nibbles, highest first.
pub fn split_instruction(instruction: u16) -> (r: (U4, U4, U4, U4))
    ensures
        r.0.0 == instruction / 4096,
        r.1.0 == (instruction / 256) % 16,
        r.2.0 == (instruction / 16) % 16,
        r.3.0 == instruction % 16,
        r.0.wf(),
        r.1.wf(),
        r.2.wf(),
        r.3.wf(),
{
    let (upper_byte, lower_byte) = split_u16(instruction);
    let upper_nibbles = split_u8(upper_byte);
    let lower_nibbles = split_u8(lower_byte);
    proof {
        assert((instruction / 256) / 16 == instruction / 4096);
        assert((instruction % 256) / 16 == (instruction / 16) % 16) by (bit_vector);
        assert((instruction % 256) % 16 == instruction % 16) by (bit_vector);
    }
    (upper_nibbles.0, upper_nibbles.1, lower_nibbles.0, lower_nibbles.1)
}

} // verus!
