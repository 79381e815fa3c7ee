//! A program image: raw big-endian 16-bit opcodes concatenated as bytes.

use vstd::prelude::*;
use crate::bits::split_u16;

verus! {

/// The bytes of a program image, headerless, loaded verbatim at the program
/// start address.
#[derive(Debug)]
pub struct Rom {
    pub data: Vec<u8>,
}

/// The byte sequence of a sequence of 16-bit words, each split high byte
/// first.
pub open spec fn spec_rom_bytes(words: Seq<u16>) -> Seq<u8> {
    Seq::new(
        2 * words.len(),
        |i: int|
            if i % 2 == 0 {
                (words[i / 2] / 256) as u8
            } else {
                (words[i / 2] % 256) as u8
            },
    )
}

impl Rom {
    pub fn from_raw_instructions(data: &[u16]) -> (r: Rom)
        ensures
            r.data@ == spec_rom_bytes(data@),
    {
        let mut rom_data: Vec<u8> = Vec::new();
        let mut i: usize = 0;
        while i < data.len()
            invariant
                i <= data@.len(),
                rom_data@.len() == 2 * i,
                forall|j: int|
                    0 <= j < i ==> rom_data@[2 * j] == #[trigger] data@[j] / 256 && rom_data@[2 * j
                        + 1] == data@[j] % 256,
            decreases data@.len() - i,
        {
            let (b1, b2) = split_u16(data[i]);
            rom_data.push(b1);
            rom_data.push(b2);
            i += 1;
        }
        proof {
            assert(rom_data@ =~= spec_rom_bytes(data@));
        }
        Rom { data: rom_data }
    }
}

} // verus!
