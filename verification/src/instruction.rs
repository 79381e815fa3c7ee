//! The instruction set: one tagged variant per opcode form, decoded from a
//! 16-bit word, plus the canonical assembler-style mnemonic of each variant.

use vstd::prelude::*;
use vstd::string::StringExecFns;
use crate::bits::{join_to_u16, join_to_u8, split_instruction, U4};
use crate::error::DecodeError;
use crate::memory::MemoryAddress;

verus! {

/// One decoded instruction, carrying only the operands needed to execute:
/// register indices, literal bytes and 12-bit addresses.
#[derive(Clone, Copy, Debug)]
pub enum Instruction {
    AddValue { register: U4, value: u8 },
    AddRegisterToIndex { register: U4 },
    AddRegisters { register1: U4, register2: U4 },
    And { register1: U4, register2: U4 },
    CallSubroutine(MemoryAddress),
    ClearScreen,
    Draw { register1: U4, register2: U4, sprite_length: U4 },
    Jump(u16),
    JumpWithOffset(u16),
    LoadDelayTimer { register: U4 },
    LoadFont { register: U4 },
    LoadRegisterFromDelayTimer { register: U4 },
    LoadRegisterFromKeyPress { register: U4 },
    LoadRegistersFromMemory { register: U4 },
    LoadRegisterFromRegister { register1: U4, register2: U4 },
    LoadSoundTimer { register: U4 },
    Or { register1: U4, register2: U4 },
    Random { register: U4, mask: u8 },
    Return,
    SetIndex(u16),
    SetValue { register: U4, value: u8 },
    ShiftLeft { register1: U4, register2: U4 },
    ShiftRight { register1: U4, register2: U4 },
    StoreBcdRepresentation { register: U4 },
    SubRegisters { register1: U4, register2: U4 },
    SubRegistersReversed { register1: U4, register2: U4 },
    SkipIfEqual { register: U4, value: u8 },
    SkipIfEqualRegisters { register1: U4, register2: U4 },
    SkipIfKeyPressed { register: U4 },
    SkipIfKeyNotPressed { register: U4 },
    SkipNotEqualByte { register: U4, value: u8 },
    SkipNotEqualRegisters { register1: U4, register2: U4 },
    WriteRegistersToMemory { register: U4 },
    Xor { register1: U4, register2: U4 },
}

impl Instruction {
    /// Every register index operand fits in four bits.
    pub open spec fn wf(self) -> bool {
        match self {
            Instruction::AddValue { register, .. } => register.wf(),
            Instruction::AddRegisterToIndex { register } => register.wf(),
            Instruction::AddRegisters { register1, register2 } => register1.wf() && register2.wf(),
            Instruction::And { register1, register2 } => register1.wf() && register2.wf(),
            Instruction::CallSubroutine(addr) => addr.0 <= 0xFFF,
            Instruction::ClearScreen => true,
            Instruction::Draw { register1, register2, sprite_length } => register1.wf()
                && register2.wf() && sprite_length.wf(),
            Instruction::Jump(address) => address <= 0xFFF,
            Instruction::JumpWithOffset(address) => address <= 0xFFF,
            Instruction::LoadDelayTimer { register } => register.wf(),
            Instruction::LoadFont { register } => register.wf(),
            Instruction::LoadRegisterFromDelayTimer { register } => register.wf(),
            Instruction::LoadRegisterFromKeyPress { register } => register.wf(),
            Instruction::LoadRegistersFromMemory { register } => register.wf(),
            Instruction::LoadRegisterFromRegister { register1, register2 } => register1.wf()
                && register2.wf(),
            Instruction::LoadSoundTimer { register } => register.wf(),
            Instruction::Or { register1, register2 } => register1.wf() && register2.wf(),
            Instruction::Random { register, .. } => register.wf(),
            Instruction::Return => true,
            Instruction::SetIndex(address) => address <= 0xFFF,
            Instruction::SetValue { register, .. } => register.wf(),
            Instruction::ShiftLeft { register1, register2 } => register1.wf() && register2.wf(),
            Instruction::ShiftRight { register1, register2 } => register1.wf() && register2.wf(),
            Instruction::StoreBcdRepresentation { register } => register.wf(),
            Instruction::SubRegisters { register1, register2 } => register1.wf() && register2.wf(),
            Instruction::SubRegistersReversed { register1, register2 } => register1.wf()
                && register2.wf(),
            Instruction::SkipIfEqual { register, .. } => register.wf(),
            Instruction::SkipIfEqualRegisters { register1, register2 } => register1.wf()
                && register2.wf(),
            Instruction::SkipIfKeyPressed { register } => register.wf(),
            Instruction::SkipIfKeyNotPressed { register } => register.wf(),
            Instruction::SkipNotEqualByte { register, .. } => register.wf(),
            Instruction::SkipNotEqualRegisters { register1, register2 } => register1.wf()
                && register2.wf(),
            Instruction::WriteRegistersToMemory { register } => register.wf(),
            Instruction::Xor { register1, register2 } => register1.wf() && register2.wf(),
        }
    }
}

/// What a 16-bit word decodes to. Exact literal matches take priority over
/// wildcard field matches; a word of the legacy machine-routine form fails as
/// an unsupported system call, and anything else unmatched as an invalid
/// opcode.
pub open spec fn spec_decode(word: u16) -> Result<Instruction, DecodeError> {
    let n1 = word / 4096;
    let n4 = word % 16;
    let nnn = word % 4096;
    let kk = (word % 256) as u8;
    let x = U4(((word / 256) % 16) as u8);
    let y = U4(((word / 16) % 16) as u8);
    if word == 0x00E0 {
        Ok(Instruction::ClearScreen)
    } else if word == 0x00EE {
        Ok(Instruction::Return)
    } else if n1 == 0x0 {
        Err(DecodeError::UnsupportedSystemCall(word))
    } else if n1 == 0x1 {
        Ok(Instruction::Jump(nnn))
    } else if n1 == 0x2 {
        Ok(Instruction::CallSubroutine(MemoryAddress(nnn)))
    } else if n1 == 0x3 {
        Ok(Instruction::SkipIfEqual { register: x, value: kk })
    } else if n1 == 0x4 {
        Ok(Instruction::SkipNotEqualByte { register: x, value: kk })
    } else if n1 == 0x5 && n4 == 0x0 {
        Ok(Instruction::SkipIfEqualRegisters { register1: x, register2: y })
    } else if n1 == 0x6 {
        Ok(Instruction::SetValue { register: x, value: kk })
    } else if n1 == 0x7 {
        Ok(Instruction::AddValue { register: x, value: kk })
    } else if n1 == 0x8 && n4 == 0x0 {
        Ok(Instruction::LoadRegisterFromRegister { register1: x, register2: y })
    } else if n1 == 0x8 && n4 == 0x1 {
        Ok(Instruction::Or { register1: x, register2: y })
    } else if n1 == 0x8 && n4 == 0x2 {
        Ok(Instruction::And { register1: x, register2: y })
    } else if n1 == 0x8 && n4 == 0x3 {
        Ok(Instruction::Xor { register1: x, register2: y })
    } else if n1 == 0x8 && n4 == 0x4 {
        Ok(Instruction::AddRegisters { register1: x, register2: y })
    } else if n1 == 0x8 && n4 == 0x5 {
        Ok(Instruction::SubRegisters { register1: x, register2: y })
    } else if n1 == 0x8 && n4 == 0x6 {
        Ok(Instruction::ShiftRight { register1: x, register2: y })
    } else if n1 == 0x8 && n4 == 0x7 {
        Ok(Instruction::SubRegistersReversed { register1: x, register2: y })
    } else if n1 == 0x8 && n4 == 0xE {
        Ok(Instruction::ShiftLeft { register1: x, register2: y })
    } else if n1 == 0x9 && n4 == 0x0 {
        Ok(Instruction::SkipNotEqualRegisters { register1: x, register2: y })
    } else if n1 == 0xA {
        Ok(Instruction::SetIndex(nnn))
    } else if n1 == 0xB {
        Ok(Instruction::JumpWithOffset(nnn))
    } else if n1 == 0xC {
        Ok(Instruction::Random { register: x, mask: kk })
    } else if n1 == 0xD {
        Ok(Instruction::Draw { register1: x, register2: y, sprite_length: U4((word % 16) as u8) })
    } else if n1 == 0xE && kk == 0x9E {
        Ok(Instruction::SkipIfKeyPressed { register: x })
    } else if n1 == 0xE && kk == 0xA1 {
        Ok(Instruction::SkipIfKeyNotPressed { register: x })
    } else if n1 == 0xF && kk == 0x07 {
        Ok(Instruction::LoadRegisterFromDelayTimer { register: x })
    } else if n1 == 0xF && kk == 0x0A {
        Ok(Instruction::LoadRegisterFromKeyPress { register: x })
    } else if n1 == 0xF && kk == 0x15 {
        Ok(Instruction::LoadDelayTimer { register: x })
    } else if n1 == 0xF && kk == 0x18 {
        Ok(Instruction::LoadSoundTimer { register: x })
    } else if n1 == 0xF && kk == 0x1E {
        Ok(Instruction::AddRegisterToIndex { register: x })
    } else if n1 == 0xF && kk == 0x29 {
        Ok(Instruction::LoadFont { register: x })
    } else if n1 == 0xF && kk == 0x33 {
        Ok(Instruction::StoreBcdRepresentation { register: x })
    } else if n1 == 0xF && kk == 0x55 {
        Ok(Instruction::WriteRegistersToMemory { register: x })
    } else if n1 == 0xF && kk == 0x65 {
        Ok(Instruction::LoadRegistersFromMemory { register: x })
    } else {
        Err(DecodeError::InvalidOpcode(word))
    }
}

/// A decoded instruction is well formed.
pub proof fn lemma_decode_wf(word: u16)
    ensures
        spec_decode(word) matches Ok(i) ==> i.wf(),
{
}

impl Instruction {
    /// Decodes a raw 16-bit opcode word.
    pub fn try_from_u16(raw_instruction: u16) -> (r: Result<Self, DecodeError>)
        ensures
            r == spec_decode(raw_instruction),
    {
        let (n1, n2, n3, n4) = split_instruction(raw_instruction);
        proof {
            let w = raw_instruction;
            assert(w % 4096 == ((w / 256) % 16) * 256 + ((w / 16) % 16) * 16 + w % 16)
                by (bit_vector);
            assert(w % 256 == ((w / 16) % 16) * 16 + w % 16) by (bit_vector);
            assert(w == (w / 4096) * 4096 + w % 4096) by (bit_vector);
        }
        let res = match (n1.get(), n2.get(), n3.get(), n4.get()) {
            (0x0, 0x0, 0xE, 0x0) => Instruction::ClearScreen,
            (0x0, 0x0, 0xE, 0xE) => Instruction::Return,
            (0x0, _, _, _) => {
                return Err(DecodeError::UnsupportedSystemCall(raw_instruction));
            },
            (0x1, _, _, _) => Instruction::Jump(join_to_u16(n2, n3, n4)),
            (0x2, _, _, _) => Instruction::CallSubroutine(
                MemoryAddress::from_u16(join_to_u16(n2, n3, n4)),
            ),
            (0x3, _, _, _) => Instruction::SkipIfEqual {
                register: n2,
                value: join_to_u8(n3, n4),
            },
            (0x4, _, _, _) => Instruction::SkipNotEqualByte {
                register: n2,
                value: join_to_u8(n3, n4),
            },
            (0x5, _, _, 0x0) => Instruction::SkipIfEqualRegisters {
                register1: n2,
                register2: n3,
            },
            (0x6, _, _, _) => Instruction::SetValue { register: n2, value: join_to_u8(n3, n4) },
            (0x7, _, _, _) => Instruction::AddValue { register: n2, value: join_to_u8(n3, n4) },
            (0x8, _, _, 0x0) => Instruction::LoadRegisterFromRegister {
                register1: n2,
                register2: n3,
            },
            (0x8, _, _, 0x1) => Instruction::Or { register1: n2, register2: n3 },
            (0x8, _, _, 0x2) => Instruction::And { register1: n2, register2: n3 },
            (0x8, _, _, 0x3) => Instruction::Xor { register1: n2, register2: n3 },
            (0x8, _, _, 0x4) => Instruction::AddRegisters { register1: n2, register2: n3 },
            (0x8, _, _, 0x5) => Instruction::SubRegisters { register1: n2, register2: n3 },
            (0x8, _, _, 0x6) => Instruction::ShiftRight { register1: n2, register2: n3 },
            (0x8, _, _, 0x7) => Instruction::SubRegistersReversed {
                register1: n2,
                register2: n3,
            },
            (0x8, _, _, 0xE) => Instruction::ShiftLeft { register1: n2, register2: n3 },
            (0x9, _, _, 0x0) => Instruction::SkipNotEqualRegisters {
                register1: n2,
                register2: n3,
            },
            (0xA, _, _, _) => Instruction::SetIndex(join_to_u16(n2, n3, n4)),
            (0xB, _, _, _) => Instruction::JumpWithOffset(join_to_u16(n2, n3, n4)),
            (0xC, _, _, _) => Instruction::Random { register: n2, mask: join_to_u8(n3, n4) },
            (0xD, _, _, _) => Instruction::Draw {
                register1: n2,
                register2: n3,
                sprite_length: n4,
            },
            (0xE, _, 0x9, 0xE) => Instruction::SkipIfKeyPressed { register: n2 },
            (0xE, _, 0xA, 0x1) => Instruction::SkipIfKeyNotPressed { register: n2 },
            (0xF, _, 0x0, 0x7) => Instruction::LoadRegisterFromDelayTimer { register: n2 },
            (0xF, _, 0x0, 0xA) => Instruction::LoadRegisterFromKeyPress { register: n2 },
            (0xF, _, 0x1, 0x5) => Instruction::LoadDelayTimer { register: n2 },
            (0xF, _, 0x1, 0x8) => Instruction::LoadSoundTimer { register: n2 },
            (0xF, _, 0x1, 0xE) => Instruction::AddRegisterToIndex { register: n2 },
            (0xF, _, 0x2, 0x9) => Instruction::LoadFont { register: n2 },
            (0xF, _, 0x3, 0x3) => Instruction::StoreBcdRepresentation { register: n2 },
            (0xF, _, 0x5, 0x5) => Instruction::WriteRegistersToMemory { register: n2 },
            (0xF, _, 0x6, 0x5) => Instruction::LoadRegistersFromMemory { register: n2 },
            (_, _, _, _) => {
                return Err(DecodeError::InvalidOpcode(raw_instruction));
            },
        };
        Ok(res)
    }
}

/// The character for one hexadecimal digit, upper case.
pub open spec fn spec_hex_digit(d: int) -> char {
    if d == 0 {
        '0'
    } else if d == 1 {
        '1'
    } else if d == 2 {
        '2'
    } else if d == 3 {
        '3'
    } else if d == 4 {
        '4'
    } else if d == 5 {
        '5'
    } else if d == 6 {
        '6'
    } else if d == 7 {
        '7'
    } else if d == 8 {
        '8'
    } else if d == 9 {
        '9'
    } else if d == 10 {
        'A'
    } else if d == 11 {
        'B'
    } else if d == 12 {
        'C'
    } else if d == 13 {
        'D'
    } else if d == 14 {
        'E'
    } else {
        'F'
    }
}

/// One hexadecimal digit.
pub open spec fn spec_hex1(v: int) -> Seq<char> {
    seq![spec_hex_digit(v % 16)]
}

/// A byte as two hexadecimal digits.
pub open spec fn spec_hex2(v: int) -> Seq<char> {
    seq![spec_hex_digit((v / 16) % 16), spec_hex_digit(v % 16)]
}

/// A 16-bit value as four hexadecimal digits.
pub open spec fn spec_hex4(v: int) -> Seq<char> {
    seq![
        spec_hex_digit((v / 4096) % 16),
        spec_hex_digit((v / 256) % 16),
        spec_hex_digit((v / 16) % 16),
        spec_hex_digit(v % 16),
    ]
}

/// Appends one hexadecimal digit.
fn push_hex1(s: &mut String, d: u8)
    requires
        d < 16,
    ensures
        final(s)@ == old(s)@ + spec_hex1(d as int),
{
    match d {
        0 => s.append("0"),
        1 => s.append("1"),
        2 => s.append("2"),
        3 => s.append("3"),
        4 => s.append("4"),
        5 => s.append("5"),
        6 => s.append("6"),
        7 => s.append("7"),
        8 => s.append("8"),
        9 => s.append("9"),
        10 => s.append("A"),
        11 => s.append("B"),
        12 => s.append("C"),
        13 => s.append("D"),
        14 => s.append("E"),
        15 => s.append("F"),
        _ => vstd::pervasive::unreached(),
    }
    proof {
        reveal_strlit("0");
        reveal_strlit("1");
        reveal_strlit("2");
        reveal_strlit("3");
        reveal_strlit("4");
        reveal_strlit("5");
        reveal_strlit("6");
        reveal_strlit("7");
        reveal_strlit("8");
        reveal_strlit("9");
        reveal_strlit("A");
        reveal_strlit("B");
        reveal_strlit("C");
        reveal_strlit("D");
        reveal_strlit("E");
        reveal_strlit("F");
        assert(s@ =~= old(s)@ + spec_hex1(d as int));
    }
}

/// Appends a byte as two hexadecimal digits.
fn push_hex2(s: &mut String, v: u8)
    ensures
        final(s)@ == old(s)@ + spec_hex2(v as int),
{
    push_hex1(s, v / 16);
    push_hex1(s, v % 16);
    proof {
        assert(s@ =~= old(s)@ + spec_hex2(v as int));
    }
}

/// Appends a 16-bit value as four hexadecimal digits.
fn push_hex4(s: &mut String, v: u16)
    ensures
        final(s)@ == old(s)@ + spec_hex4(v as int),
{
    push_hex1(s, (v / 4096) as u8);
    push_hex1(s, ((v / 256) % 16) as u8);
    push_hex1(s, ((v / 16) % 16) as u8);
    push_hex1(s, (v % 16) as u8);
    proof {
        assert(s@ =~= old(s)@ + spec_hex4(v as int));
    }
}

/// The canonical assembler-style mnemonic of each instruction: registers as
/// one hexadecimal digit, byte literals as two, addresses as four.
pub open spec fn spec_mnemonic(i: Instruction) -> Seq<char> {
    match i {
        Instruction::AddRegisterToIndex { register } => "ADD I, V"@ + spec_hex1(register.0 as int),
        Instruction::And { register1, register2 } => "AND V"@ + spec_hex1(register1.0 as int)
            + ", V"@ + spec_hex1(register2.0 as int),
        Instruction::AddValue { register, value } => "ADD V"@ + spec_hex1(register.0 as int) + ", "@
            + spec_hex2(value as int),
        Instruction::AddRegisters { register1, register2 } => "ADD V"@ + spec_hex1(
            register1.0 as int,
        ) + ", V"@ + spec_hex1(register2.0 as int),
        Instruction::CallSubroutine(addr) => "CALL "@ + spec_hex4(addr.0 as int),
        Instruction::ClearScreen => "CLS"@,
        Instruction::Draw { register1, register2, sprite_length } => "DRW V"@ + spec_hex1(
            register1.0 as int,
        ) + ", V"@ + spec_hex1(register2.0 as int) + ", "@ + spec_hex1(sprite_length.0 as int),
        Instruction::Jump(address) => "JP "@ + spec_hex4(address as int),
        Instruction::JumpWithOffset(address) => "JP V0, "@ + spec_hex4(address as int),
        Instruction::LoadDelayTimer { register } => "LD DT, V"@ + spec_hex1(register.0 as int),
        Instruction::LoadFont { register } => "LD F, V"@ + spec_hex1(register.0 as int),
        Instruction::LoadRegisterFromDelayTimer { register } => "LD V"@ + spec_hex1(
            register.0 as int,
        ) + ", DT"@,
        Instruction::LoadRegisterFromKeyPress { register } => "LD V"@ + spec_hex1(register.0 as int)
            + ", K"@,
        Instruction::LoadRegistersFromMemory { register } => "LD V"@ + spec_hex1(register.0 as int)
            + ", [I]"@,
        Instruction::LoadRegisterFromRegister { register1, register2 } => "LD V"@ + spec_hex1(
            register1.0 as int,
        ) + ", V"@ + spec_hex1(register2.0 as int),
        Instruction::LoadSoundTimer { register } => "LD ST, V"@ + spec_hex1(register.0 as int),
        Instruction::Or { register1, register2 } => "OR V"@ + spec_hex1(register1.0 as int) + ", V"@
            + spec_hex1(register2.0 as int),
        Instruction::Random { register, mask } => "RND V"@ + spec_hex1(register.0 as int) + ", "@
            + spec_hex2(mask as int),
        Instruction::Return => "RET"@,
        Instruction::SetIndex(address) => "LD I, "@ + spec_hex4(address as int),
        Instruction::SetValue { register, value } => "LD V"@ + spec_hex1(register.0 as int) + ", "@
            + spec_hex2(value as int),
        Instruction::WriteRegistersToMemory { register } => "LD [I], V"@ + spec_hex1(
            register.0 as int,
        ),
        Instruction::SkipIfEqual { register, value } => "SE V"@ + spec_hex1(register.0 as int)
            + ", "@ + spec_hex2(value as int),
        Instruction::SkipIfEqualRegisters { register1, register2 } => "SE V"@ + spec_hex1(
            register1.0 as int,
        ) + ", V"@ + spec_hex1(register2.0 as int),
        Instruction::SkipIfKeyPressed { register } => "SKP V"@ + spec_hex1(register.0 as int),
        Instruction::SkipIfKeyNotPressed { register } => "SKNP V"@ + spec_hex1(register.0 as int),
        Instruction::SkipNotEqualByte { register, value } => "SNE V"@ + spec_hex1(register.0 as int)
            + ", "@ + spec_hex2(value as int),
        Instruction::SkipNotEqualRegisters { register1, register2 } => "SNE V"@ + spec_hex1(
            register1.0 as int,
        ) + ", V"@ + spec_hex1(register2.0 as int),
        Instruction::ShiftLeft { register1, register2 } => "SHL V"@ + spec_hex1(register1.0 as int)
            + " {, V"@ + spec_hex1(register2.0 as int) + "}"@,
        Instruction::ShiftRight { register1, register2 } => "SHR V"@ + spec_hex1(register1.0 as int)
            + " {, V"@ + spec_hex1(register2.0 as int) + "}"@,
        Instruction::StoreBcdRepresentation { register } => "LD B, V"@ + spec_hex1(
            register.0 as int,
        ),
        Instruction::SubRegisters { register1, register2 } => "SUB V"@ + spec_hex1(
            register1.0 as int,
        ) + ", V"@ + spec_hex1(register2.0 as int),
        Instruction::SubRegistersReversed { register1, register2 } => "SUBN V"@ + spec_hex1(
            register1.0 as int,
        ) + ", V"@ + spec_hex1(register2.0 as int),
        Instruction::Xor { register1, register2 } => "XOR V"@ + spec_hex1(register1.0 as int)
            + ", V"@ + spec_hex1(register2.0 as int),
    }
}

impl Instruction {
    /// Renders the instruction as its canonical assembler-style mnemonic,
    /// for disassembly and debug display.
    pub fn to_mnemonic(&self) -> (r: String)
        requires
            self.wf(),
        ensures
            r@ == spec_mnemonic(*self),
    {
        let mut s = String::new();
        match *self {
            Instruction::AddRegisterToIndex { register } => {
                s.append("ADD I, V");
                push_hex1(&mut s, register.0);
            },
            Instruction::And { register1, register2 } => {
                s.append("AND V");
                push_hex1(&mut s, register1.0);
                s.append(", V");
                push_hex1(&mut s, register2.0);
            },
            Instruction::AddValue { register, value } => {
                s.append("ADD V");
                push_hex1(&mut s, register.0);
                s.append(", ");
                push_hex2(&mut s, value);
            },
            Instruction::AddRegisters { register1, register2 } => {
                s.append("ADD V");
                push_hex1(&mut s, register1.0);
                s.append(", V");
                push_hex1(&mut s, register2.0);
            },
            Instruction::CallSubroutine(addr) => {
                s.append("CALL ");
                push_hex4(&mut s, addr.0);
            },
            Instruction::ClearScreen => {
                s.append("CLS");
            },
            Instruction::Draw { register1, register2, sprite_length } => {
                s.append("DRW V");
                push_hex1(&mut s, register1.0);
                s.append(", V");
                push_hex1(&mut s, register2.0);
                s.append(", ");
                push_hex1(&mut s, sprite_length.0);
            },
            Instruction::Jump(address) => {
                s.append("JP ");
                push_hex4(&mut s, address);
            },
            Instruction::JumpWithOffset(address) => {
                s.append("JP V0, ");
                push_hex4(&mut s, address);
            },
            Instruction::LoadDelayTimer { register } => {
                s.append("LD DT, V");
                push_hex1(&mut s, register.0);
            },
            Instruction::LoadFont { register } => {
                s.append("LD F, V");
                push_hex1(&mut s, register.0);
            },
            Instruction::LoadRegisterFromDelayTimer { register } => {
                s.append("LD V");
                push_hex1(&mut s, register.0);
                s.append(", DT");
            },
            Instruction::LoadRegisterFromKeyPress { register } => {
                s.append("LD V");
                push_hex1(&mut s, register.0);
                s.append(", K");
            },
            Instruction::LoadRegistersFromMemory { register } => {
                s.append("LD V");
                push_hex1(&mut s, register.0);
                s.append(", [I]");
            },
            Instruction::LoadRegisterFromRegister { register1, register2 } => {
                s.append("LD V");
                push_hex1(&mut s, register1.0);
                s.append(", V");
                push_hex1(&mut s, register2.0);
            },
            Instruction::LoadSoundTimer { register } => {
                s.append("LD ST, V");
                push_hex1(&mut s, register.0);
            },
            Instruction::Or { register1, register2 } => {
                s.append("OR V");
                push_hex1(&mut s, register1.0);
                s.append(", V");
                push_hex1(&mut s, register2.0);
            },
            Instruction::Random { register, mask } => {
                s.append("RND V");
                push_hex1(&mut s, register.0);
                s.append(", ");
                push_hex2(&mut s, mask);
            },
            Instruction::Return => {
                s.append("RET");
            },
            Instruction::SetIndex(address) => {
                s.append("LD I, ");
                push_hex4(&mut s, address);
            },
            Instruction::SetValue { register, value } => {
                s.append("LD V");
                push_hex1(&mut s, register.0);
                s.append(", ");
                push_hex2(&mut s, value);
            },
            Instruction::WriteRegistersToMemory { register } => {
                s.append("LD [I], V");
                push_hex1(&mut s, register.0);
            },
            Instruction::SkipIfEqual { register, value } => {
                s.append("SE V");
                push_hex1(&mut s, register.0);
                s.append(", ");
                push_hex2(&mut s, value);
            },
            Instruction::SkipIfEqualRegisters { register1, register2 } => {
                s.append("SE V");
                push_hex1(&mut s, register1.0);
                s.append(", V");
                push_hex1(&mut s, register2.0);
            },
            Instruction::SkipIfKeyPressed { register } => {
                s.append("SKP V");
                push_hex1(&mut s, register.0);
            },
            Instruction::SkipIfKeyNotPressed { register } => {
                s.append("SKNP V");
                push_hex1(&mut s, register.0);
            },
            Instruction::SkipNotEqualByte { register, value } => {
                s.append("SNE V");
                push_hex1(&mut s, register.0);
                s.append(", ");
                push_hex2(&mut s, value);
            },
            Instruction::SkipNotEqualRegisters { register1, register2 } => {
                s.append("SNE V");
                push_hex1(&mut s, register1.0);
                s.append(", V");
                push_hex1(&mut s, register2.0);
            },
            Instruction::ShiftLeft { register1, register2 } => {
                s.append("SHL V");
                push_hex1(&mut s, register1.0);
                s.append(" {, V");
                push_hex1(&mut s, register2.0);
                s.append("}");
            },
            Instruction::ShiftRight { register1, register2 } => {
                s.append("SHR V");
                push_hex1(&mut s, register1.0);
                s.append(" {, V");
                push_hex1(&mut s, register2.0);
                s.append("}");
            },
            Instruction::StoreBcdRepresentation { register } => {
                s.append("LD B, V");
                push_hex1(&mut s, register.0);
            },
            Instruction::SubRegisters { register1, register2 } => {
                s.append("SUB V");
                push_hex1(&mut s, register1.0);
                s.append(", V");
                push_hex1(&mut s, register2.0);
            },
            Instruction::SubRegistersReversed { register1, register2 } => {
                s.append("SUBN V");
                push_hex1(&mut s, register1.0);
                s.append(", V");
                push_hex1(&mut s, register2.0);
            },
            Instruction::Xor { register1, register2 } => {
                s.append("XOR V");
                push_hex1(&mut s, register1.0);
                s.append(", V");
                push_hex1(&mut s, register2.0);
            },
        }
        proof {
            assert(s@ =~= spec_mnemonic(*self));
        }
        s
    }
}

} // verus!
