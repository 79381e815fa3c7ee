//! The CPU: program counter, index register, call stack, sixteen registers,
//! owned memory and framebuffer, and a keypad handle. One externally driven
//! transition, `tick`, performs a fetch-decode-execute cycle; its whole
//! effect is pinned down by the state transformer `spec_execute`.

use vstd::prelude::*;
use rand::Rng;
use crate::bits::U4;
use crate::display::{spec_draw_rows, Display};
use crate::error::{MemoryError, StepError};
use crate::instruction::{spec_decode, Instruction};
use crate::keypad::Keypad;
use crate::memory::{spec_write, Memory, MemoryAddress, MEMORY_SIZE, MEMORY_START};
use crate::rom::Rom;

verus! {

/// The sixteen 8-bit general registers, V0 through VF. VF doubles as the
/// arithmetic, shift and borrow flag.
#[derive(Debug)]
pub struct VariableRegisters {
    pub registers: Vec<u8>,
}

impl VariableRegisters {
    /// One byte per register.
    pub open spec fn wf(self) -> bool {
        self.registers@.len() == 16
    }

    fn new() -> (r: Self)
        ensures
            r.wf(),
            r.registers@ == Seq::new(16, |i: int| 0u8),
    {
        let mut registers: Vec<u8> = Vec::new();
        let mut i: usize = 0;
        while i < 16
            invariant
                i <= 16,
                registers@.len() == i,
                forall|j: int| 0 <= j < i ==> registers@[j] == 0u8,
            decreases 16 - i,
        {
            registers.push(0);
            i += 1;
        }
        proof {
            assert(registers@ =~= Seq::new(16, |i: int| 0u8));
        }
        VariableRegisters { registers }
    }

    fn set_value(&mut self, register: U4, value: u8)
        requires
            old(self).wf(),
            register.wf(),
        ensures
            final(self).wf(),
            final(self).registers@ == old(self).registers@.update(register.0 as int, value),
    {
        let idx = register.0 as usize;
        self.registers[idx] = value;
    }

    fn add_value(&mut self, register: U4, value: u8)
        requires
            old(self).wf(),
            register.wf(),
        ensures
            final(self).wf(),
            final(self).registers@ == old(self).registers@.update(
                register.0 as int,
                ((old(self).registers@[register.0 as int] + value) % 256) as u8,
            ),
    {
        let idx = register.0 as usize;
        self.registers[idx] = self.registers[idx].wrapping_add(value);
    }

    pub fn get_value(&self, register: U4) -> (r: u8)
        requires
            self.wf(),
            register.wf(),
        ensures
            r == self.registers@[register.0 as int],
    {
        let idx = register.0 as usize;
        self.registers[idx]
    }
}

/// The mathematical state of the machine: every register, the memory and the
/// framebuffer as sequences, free of any execution detail.
#[verifier::ext_equal]
pub struct CpuState {
    pub pixels: Seq<u64>,
    pub pc: u16,
    pub index: u16,
    pub stack: Seq<MemoryAddress>,
    pub delay_timer: u8,
    pub sound_timer: u8,
    pub regs: Seq<u8>,
    pub mem: Seq<u8>,
}

impl CpuState {
    /// Framebuffer, register file and memory have their fixed sizes.
    pub open spec fn wf(self) -> bool {
        self.pixels.len() == 32 && self.regs.len() == 16 && self.mem.len() == MEMORY_SIZE
    }
}

/// The big-endian 16-bit word in memory at the program counter.
pub open spec fn spec_word_at(s: CpuState) -> u16 {
    (s.mem[s.pc as int] * 256 + s.mem[s.pc as int + 1]) as u16
}

/// The effect of a draw instruction: the sprite read at the index register
/// is drawn at the position held in the two registers, or the step fails
/// when the sprite would be read from outside the address space.
pub open spec fn spec_draw_step(
    pre: CpuState,
    register1: U4,
    register2: U4,
    sprite_length: U4,
) -> (CpuState, Result<(), StepError>) {
    let len = sprite_length.0 as int;
    if pre.index + len > MEMORY_SIZE {
        (
            pre,
            Err(
                StepError::Memory(
                    MemoryError::OutOfBounds {
                        start: pre.index as usize,
                        len: sprite_length.0 as usize,
                    },
                ),
            ),
        )
    } else {
        let sprite = pre.mem.subrange(pre.index as int, pre.index + len);
        (
            CpuState {
                pixels: spec_draw_rows(
                    pre.pixels,
                    pre.regs[register1.0 as int],
                    pre.regs[register2.0 as int],
                    sprite,
                ),
                ..pre
            },
            Ok(()),
        )
    }
}

/// The effect of one decoded instruction on the machine state, and its
/// outcome. `rnd` is the byte the random source produced for this step;
/// `key_down` is the keypad's answer for the key named by a key-skip
/// instruction; `pressed` is the key the keypad reports pressed, if any.
/// The program counter has already advanced past the instruction.
pub open spec fn spec_execute(
    pre: CpuState,
    instruction: Instruction,
    rnd: u8,
    key_down: bool,
    pressed: Option<u8>,
) -> (CpuState, Result<(), StepError>) {
    match instruction {
        Instruction::AddRegisterToIndex { register } => (
            CpuState {
                index: ((pre.index + pre.regs[register.0 as int]) % 0x10000) as u16,
                ..pre
            },
            Ok(()),
        ),
        Instruction::AddValue { register, value } => (
            CpuState {
                regs: pre.regs.update(
                    register.0 as int,
                    ((pre.regs[register.0 as int] + value) % 256) as u8,
                ),
                ..pre
            },
            Ok(()),
        ),
        Instruction::AddRegisters { register1, register2 } => {
            let sum = pre.regs[register1.0 as int] + pre.regs[register2.0 as int];
            let flag: u8 = if sum > 255 {
                1
            } else {
                0
            };
            (
                CpuState {
                    regs: pre.regs.update(register1.0 as int, (sum % 256) as u8).update(15, flag),
                    ..pre
                },
                Ok(()),
            )
        },
        Instruction::And { register1, register2 } => (
            CpuState {
                regs: pre.regs.update(
                    register1.0 as int,
                    pre.regs[register1.0 as int] & pre.regs[register2.0 as int],
                ),
                ..pre
            },
            Ok(()),
        ),
        Instruction::CallSubroutine(addr) => (
            CpuState { stack: pre.stack.push(MemoryAddress(pre.pc)), pc: addr.0, ..pre },
            Ok(()),
        ),
        Instruction::ClearScreen => (
            CpuState { pixels: Seq::new(32, |i: int| 0u64), ..pre },
            Ok(()),
        ),
        Instruction::Draw { register1, register2, sprite_length } => spec_draw_step(
            pre,
            register1,
            register2,
            sprite_length,
        ),
        Instruction::Jump(address) => (CpuState { pc: address, ..pre }, Ok(())),
        Instruction::JumpWithOffset(address) => (
            CpuState { pc: ((address + pre.regs[0]) % 0x10000) as u16, ..pre },
            Ok(()),
        ),
        Instruction::LoadDelayTimer { register } => (
            CpuState { delay_timer: pre.regs[register.0 as int], ..pre },
            Ok(()),
        ),
        Instruction::LoadFont { register } => (
            CpuState { index: ((pre.regs[register.0 as int] % 16) * 5) as u16, ..pre },
            Ok(()),
        ),
        Instruction::LoadRegisterFromKeyPress { register } => match pressed {
            None => (CpuState { pc: (pre.pc - 2) as u16, ..pre }, Ok(())),
            Some(key) => (
                CpuState { regs: pre.regs.update(register.0 as int, key), ..pre },
                Ok(()),
            ),
        },
        Instruction::LoadRegisterFromDelayTimer { register } => (
            CpuState { regs: pre.regs.update(register.0 as int, pre.delay_timer), ..pre },
            Ok(()),
        ),
        Instruction::LoadRegistersFromMemory { register } => {
            let count = register.0 + 1;
            if pre.index + count > MEMORY_SIZE {
                (
                    pre,
                    Err(
                        StepError::Memory(
                            MemoryError::OutOfBounds {
                                start: pre.index as usize,
                                len: count as usize,
                            },
                        ),
                    ),
                )
            } else {
                (
                    CpuState {
                        regs: Seq::new(
                            16,
                            |i: int|
                                if i < count {
                                    pre.mem[pre.index + i]
                                } else {
                                    pre.regs[i]
                                },
                        ),
                        index: ((pre.index + count) % 0x10000) as u16,
                        ..pre
                    },
                    Ok(()),
                )
            }
        },
        Instruction::LoadRegisterFromRegister { register1, register2 } => (
            CpuState {
                regs: pre.regs.update(register1.0 as int, pre.regs[register2.0 as int]),
                ..pre
            },
            Ok(()),
        ),
        Instruction::LoadSoundTimer { register } => (
            CpuState { sound_timer: pre.regs[register.0 as int], ..pre },
            Ok(()),
        ),
        Instruction::Or { register1, register2 } => (
            CpuState {
                regs: pre.regs.update(
                    register1.0 as int,
                    pre.regs[register1.0 as int] | pre.regs[register2.0 as int],
                ),
                ..pre
            },
            Ok(()),
        ),
        Instruction::Random { register, mask } => (
            CpuState { regs: pre.regs.update(register.0 as int, rnd & mask), ..pre },
            Ok(()),
        ),
        Instruction::Return => {
            if pre.stack.len() == 0 {
                (pre, Err(StepError::StackUnderflow))
            } else {
                (
                    CpuState { pc: pre.stack.last().0, stack: pre.stack.drop_last(), ..pre },
                    Ok(()),
                )
            }
        },
        Instruction::SetIndex(address) => (CpuState { index: address, ..pre }, Ok(())),
        Instruction::SetValue { register, value } => (
            CpuState { regs: pre.regs.update(register.0 as int, value), ..pre },
            Ok(()),
        ),
        Instruction::ShiftLeft { register1, .. } => {
            let value = pre.regs[register1.0 as int];
            (
                CpuState {
                    regs: pre.regs.update(register1.0 as int, ((value * 2) % 256) as u8).update(
                        15,
                        value / 128,
                    ),
                    ..pre
                },
                Ok(()),
            )
        },
        Instruction::ShiftRight { register1, .. } => {
            let value = pre.regs[register1.0 as int];
            (
                CpuState {
                    regs: pre.regs.update(register1.0 as int, value / 2).update(15, value % 2),
                    ..pre
                },
                Ok(()),
            )
        },
        Instruction::SkipIfEqual { register, value } => (
            CpuState {
                pc: if pre.regs[register.0 as int] == value {
                    ((pre.pc + 2) % 0x10000) as u16
                } else {
                    pre.pc
                },
                ..pre
            },
            Ok(()),
        ),
        Instruction::SkipIfKeyPressed { .. } => (
            CpuState {
                pc: if key_down {
                    ((pre.pc + 2) % 0x10000) as u16
                } else {
                    pre.pc
                },
                ..pre
            },
            Ok(()),
        ),
        Instruction::SkipIfKeyNotPressed { .. } => (
            CpuState {
                pc: if !key_down {
                    ((pre.pc + 2) % 0x10000) as u16
                } else {
                    pre.pc
                },
                ..pre
            },
            Ok(()),
        ),
        Instruction::SkipIfEqualRegisters { register1, register2 } => (
            CpuState {
                pc: if pre.regs[register1.0 as int] == pre.regs[register2.0 as int] {
                    ((pre.pc + 2) % 0x10000) as u16
                } else {
                    pre.pc
                },
                ..pre
            },
            Ok(()),
        ),
        Instruction::SkipNotEqualByte { register, value } => (
            CpuState {
                pc: if pre.regs[register.0 as int] != value {
                    ((pre.pc + 2) % 0x10000) as u16
                } else {
                    pre.pc
                },
                ..pre
            },
            Ok(()),
        ),
        Instruction::SkipNotEqualRegisters { register1, register2 } => (
            CpuState {
                pc: if pre.regs[register1.0 as int] != pre.regs[register2.0 as int] {
                    ((pre.pc + 2) % 0x10000) as u16
                } else {
                    pre.pc
                },
                ..pre
            },
            Ok(()),
        ),
        Instruction::SubRegisters { register1, register2 } => {
            let a = pre.regs[register1.0 as int];
            let b = pre.regs[register2.0 as int];
            let flag: u8 = if a >= b {
                1
            } else {
                0
            };
            (
                CpuState {
                    regs: pre.regs.update(15, flag).update(
                        register1.0 as int,
                        ((a - b) % 256) as u8,
                    ),
                    ..pre
                },
                Ok(()),
            )
        },
        Instruction::SubRegistersReversed { register1, register2 } => {
            let a = pre.regs[register1.0 as int];
            let b = pre.regs[register2.0 as int];
            let flag: u8 = if b >= a {
                1
            } else {
                0
            };
            (
                CpuState {
                    regs: pre.regs.update(15, flag).update(
                        register1.0 as int,
                        ((b - a) % 256) as u8,
                    ),
                    ..pre
                },
                Ok(()),
            )
        },
        Instruction::StoreBcdRepresentation { register } => {
            let value = pre.regs[register.0 as int];
            if pre.index + 3 > MEMORY_SIZE {
                (
                    pre,
                    Err(
                        StepError::Memory(
                            MemoryError::OutOfBounds { start: pre.index as usize, len: 3 },
                        ),
                    ),
                )
            } else {
                (
                    CpuState {
                        mem: spec_write(
                            pre.mem,
                            pre.index as int,
                            seq![value / 100, (value % 100) / 10, value % 10],
                        ),
                        ..pre
                    },
                    Ok(()),
                )
            }
        },
        Instruction::WriteRegistersToMemory { register } => {
            let count = register.0 + 1;
            if pre.index + count > MEMORY_SIZE {
                (
                    pre,
                    Err(
                        StepError::Memory(
                            MemoryError::OutOfBounds {
                                start: pre.index as usize,
                                len: count as usize,
                            },
                        ),
                    ),
                )
            } else {
                (
                    CpuState {
                        mem: spec_write(
                            pre.mem,
                            pre.index as int,
                            pre.regs.subrange(0, count as int),
                        ),
                        index: ((pre.index + count) % 0x10000) as u16,
                        ..pre
                    },
                    Ok(()),
                )
            }
        },
        Instruction::Xor { register1, register2 } => (
            CpuState {
                regs: pre.regs.update(
                    register1.0 as int,
                    pre.regs[register1.0 as int] ^ pre.regs[register2.0 as int],
                ),
                ..pre
            },
            Ok(()),
        ),
    }
}

/// One whole step: fetch the word at the program counter, decode it, advance
/// the program counter past it, then execute. A word that does not decode
/// fails the step before any state changes.
pub open spec fn spec_tick(
    pre: CpuState,
    rnd: u8,
    key_down: bool,
    pressed: Option<u8>,
) -> (CpuState, Result<(), StepError>) {
    match spec_decode(spec_word_at(pre)) {
        Err(e) => (pre, Err(StepError::Fetch { address: pre.pc, error: e })),
        Ok(instruction) => spec_execute(
            CpuState { pc: ((pre.pc + 2) % 0x10000) as u16, ..pre },
            instruction,
            rnd,
            key_down,
            pressed,
        ),
    }
}

/// Relies on rand::thread_rng and rand::Rng::gen to draw one uniformly
/// distributed byte; nothing is promised of its value.
#[verifier::external_body]
fn random_byte() -> u8 {
    rand::thread_rng().gen::<u8>()
}

/// The machine: owned state plus the host-supplied keypad handle.
pub struct Cpu<TKeypad: Keypad + Default> {
    pub display: Display,
    pub program_counter: MemoryAddress,
    pub index: MemoryAddress,
    pub stack: Vec<MemoryAddress>,
    pub delay_timer: u8,
    pub sound_timer: u8,
    pub registers: VariableRegisters,
    pub memory: Memory,
    pub keypad: TKeypad,
}

impl<TKeypad: Keypad + Default> View for Cpu<TKeypad> {
    type V = CpuState;

    open spec fn view(&self) -> CpuState {
        CpuState {
            pixels: self.display.pixels@,
            pc: self.program_counter.0,
            index: self.index.0,
            stack: self.stack@,
            delay_timer: self.delay_timer,
            sound_timer: self.sound_timer,
            regs: self.registers.registers@,
            mem: self.memory.data@,
        }
    }
}

impl<TKeypad: Keypad + Default> Default for Cpu<TKeypad> {
    /// A machine with cleared state: empty memory and framebuffer, zeroed
    /// registers and timers, the program counter at the program start, and a
    /// default keypad.
    fn default() -> (r: Self)
        ensures
            r.wf(),
            r@.pc == MEMORY_START,
            r@.index == 0,
            r@.stack == Seq::<MemoryAddress>::empty(),
            r@.delay_timer == 0,
            r@.sound_timer == 0,
            r@.regs == Seq::new(16, |i: int| 0u8),
            r@.mem == Seq::new(MEMORY_SIZE as nat, |i: int| 0u8),
            r@.pixels == Seq::new(32, |i: int| 0u64),
    {
        let r = Cpu {
            display: Display::new(),
            program_counter: MemoryAddress::from_u16(MEMORY_START),
            index: MemoryAddress::from_u16(0),
            stack: Vec::new(),
            delay_timer: 0,
            sound_timer: 0,
            registers: VariableRegisters::new(),
            memory: Memory::new(),
            keypad: TKeypad::default(),
        };
        proof {
            assert(r.stack@ =~= Seq::<MemoryAddress>::empty());
        }
        r
    }
}

impl<TKeypad: Keypad + Default> Cpu<TKeypad> {
    /// Memory, framebuffer and register file have their fixed sizes.
    pub open spec fn wf(self) -> bool {
        self@.wf()
    }

    /// The keypad's answer for the key a key-skip instruction queries: the
    /// key number held in the instruction's register.
    pub open spec fn spec_key_query(self, instruction: Instruction) -> bool {
        match instruction {
            Instruction::SkipIfKeyPressed { register } => self.keypad.spec_is_key_down(
                self@.regs[register.0 as int],
            ),
            Instruction::SkipIfKeyNotPressed { register } => self.keypad.spec_is_key_down(
                self@.regs[register.0 as int],
            ),
            _ => false,
        }
    }

    /// The keypad answer for whatever instruction the word at the program
    /// counter decodes to.
    pub open spec fn spec_fetch_key_query(self) -> bool {
        match spec_decode(spec_word_at(self@)) {
            Ok(instruction) => self.spec_key_query(instruction),
            Err(_) => false,
        }
    }

    /// A machine with `rom` loaded and everything else cleared; fails if and
    /// only if the image does not fit.
    pub fn from_rom(rom: Rom) -> (r: Result<Self, MemoryError>)
        ensures
            match r {
                Ok(cpu) => rom.data@.len() <= MEMORY_SIZE - MEMORY_START && cpu.wf() && cpu@.mem
                    == crate::memory::spec_loaded(rom.data@) && cpu@.pc == MEMORY_START && cpu@.index
                    == 0 && cpu@.stack == Seq::<MemoryAddress>::empty() && cpu@.delay_timer == 0
                    && cpu@.sound_timer == 0 && cpu@.regs == Seq::new(16, |i: int| 0u8)
                    && cpu@.pixels == Seq::new(32, |i: int| 0u64),
                Err(e) => rom.data@.len() > MEMORY_SIZE - MEMORY_START && e
                    == MemoryError::RomTooLarge,
            },
    {
        let memory = match Memory::from_rom(rom) {
            Ok(m) => m,
            Err(e) => {
                return Err(e);
            },
        };
        let mut cpu = Cpu::default();
        cpu.memory = memory;
        Ok(cpu)
    }

    /// One fetch-decode-execute step. The caller keeps the program counter
    /// where a whole word can be fetched; every effect and outcome is that of
    /// `spec_tick` for the byte the random source produced and the keypad's
    /// current answers.
    pub fn tick(&mut self) -> (r: Result<(), StepError>)
        requires
            old(self).wf(),
            old(self).program_counter.0 + 1 < MEMORY_SIZE,
        ensures
            final(self).wf(),
            final(self).keypad == old(self).keypad,
            exists|b: u8|
                (final(self)@, r) == spec_tick(
                    old(self)@,
                    b,
                    old(self).spec_fetch_key_query(),
                    old(self).keypad.spec_pressed_key(),
                ),
    {
        let instruction = match self.fetch_instruction() {
            Ok(i) => i,
            Err(e) => {
                proof {
                    assert((self@, Err::<(), StepError>(e)) == spec_tick(
                        old(self)@,
                        0u8,
                        old(self).spec_fetch_key_query(),
                        old(self).keypad.spec_pressed_key(),
                    ));
                }
                return Err(e);
            },
        };
        self.program_counter.increment();
        let rnd = random_byte();
        let r = self.handle_instruction(instruction, rnd);
        proof {
            assert((self@, r) == spec_tick(
                old(self)@,
                rnd,
                old(self).spec_fetch_key_query(),
                old(self).keypad.spec_pressed_key(),
            ));
        }
        r
    }

    /// Executes one decoded instruction against the machine state, after the
    /// program counter has advanced past it. `rnd` is the byte the random
    /// source produced for this step; the effect is exactly `spec_execute`
    /// of it and the keypad's current answers. Execution is split over three
    /// helpers, one per kind of state touched, to keep each proof small.
    pub fn handle_instruction(&mut self, instruction: Instruction, rnd: u8) -> (r: Result<
        (),
        StepError,
    >)
        requires
            old(self).wf(),
            instruction.wf(),
            old(self).program_counter.0 >= 2,
        ensures
            final(self).wf(),
            final(self).keypad == old(self).keypad,
            (final(self)@, r) == spec_execute(
                old(self)@,
                instruction,
                rnd,
                old(self).spec_key_query(instruction),
                old(self).keypad.spec_pressed_key(),
            ),
    {
        match instruction {
            Instruction::AddValue { .. }
            | Instruction::AddRegisters { .. }
            | Instruction::And { .. }
            | Instruction::Or { .. }
            | Instruction::Xor { .. }
            | Instruction::SubRegisters { .. }
            | Instruction::SubRegistersReversed { .. }
            | Instruction::ShiftLeft { .. }
            | Instruction::ShiftRight { .. }
            | Instruction::SetValue { .. }
            | Instruction::LoadRegisterFromRegister { .. }
            | Instruction::LoadRegisterFromDelayTimer { .. }
            | Instruction::Random { .. } => self.handle_register_op(instruction, rnd),
            Instruction::Jump(..)
            | Instruction::JumpWithOffset(..)
            | Instruction::CallSubroutine(..)
            | Instruction::Return
            | Instruction::SkipIfEqual { .. }
            | Instruction::SkipNotEqualByte { .. }
            | Instruction::SkipIfEqualRegisters { .. }
            | Instruction::SkipNotEqualRegisters { .. }
            | Instruction::SkipIfKeyPressed { .. }
            | Instruction::SkipIfKeyNotPressed { .. }
            | Instruction::LoadRegisterFromKeyPress { .. } => self.handle_control_op(
                instruction,
                rnd,
            ),
            Instruction::ClearScreen
            | Instruction::Draw { .. }
            | Instruction::SetIndex(..)
            | Instruction::AddRegisterToIndex { .. }
            | Instruction::LoadFont { .. }
            | Instruction::LoadDelayTimer { .. }
            | Instruction::LoadSoundTimer { .. }
            | Instruction::StoreBcdRepresentation { .. }
            | Instruction::WriteRegistersToMemory { .. }
            | Instruction::LoadRegistersFromMemory { .. } => self.handle_system_op(
                instruction,
                rnd,
            ),
        }
    }

    /// The instructions that only read and write the register file.
    #[verifier::rlimit(100)]
    fn handle_register_op(&mut self, instruction: Instruction, rnd: u8) -> (r: Result<
        (),
        StepError,
    >)
        requires
            old(self).wf(),
            instruction.wf(),
            instruction matches Instruction::AddValue { .. } || instruction
                matches Instruction::AddRegisters { .. } || instruction matches Instruction::And { .. } || instruction matches Instruction::Or { .. } || instruction
                matches Instruction::Xor { .. } || instruction matches Instruction::SubRegisters { .. } || instruction matches Instruction::SubRegistersReversed { .. } || instruction
                matches Instruction::ShiftLeft { .. } || instruction
                matches Instruction::ShiftRight { .. } || instruction
                matches Instruction::SetValue { .. } || instruction
                matches Instruction::LoadRegisterFromRegister { .. } || instruction
                matches Instruction::LoadRegisterFromDelayTimer { .. } || instruction
                matches Instruction::Random { .. },
        ensures
            final(self).wf(),
            final(self).keypad == old(self).keypad,
            (final(self)@, r) == spec_execute(
                old(self)@,
                instruction,
                rnd,
                old(self).spec_key_query(instruction),
                old(self).keypad.spec_pressed_key(),
            ),
    {
        let ghost target = spec_execute(
            old(self)@,
            instruction,
            rnd,
            old(self).spec_key_query(instruction),
            old(self).keypad.spec_pressed_key(),
        );
        match instruction {
            Instruction::AddValue { register, value } => {
                self.registers.add_value(register, value);
                proof {
                    assert(self@ =~= target.0 && target.1 == Ok::<(), StepError>(()));
                }
            },
            Instruction::AddRegisters { register1, register2 } => {
                let value1 = self.registers.get_value(register1);
                let value2 = self.registers.get_value(register2);
                let sum_wide = value1 as u16 + value2 as u16;
                let result = value1.wrapping_add(value2);
                self.registers.set_value(register1, result);
                let flag_value: u8 = if sum_wide > 255 {
                    1
                } else {
                    0
                };
                self.registers.set_value(U4::new(0xF), flag_value);
                proof {
                    assert(self@ =~= target.0 && target.1 == Ok::<(), StepError>(()));
                }
            },
            Instruction::And { register1, register2 } => {
                let value1 = self.registers.get_value(register1);
                let value2 = self.registers.get_value(register2);
                self.registers.set_value(register1, value1 & value2);
                proof {
                    assert(self@ =~= target.0 && target.1 == Ok::<(), StepError>(()));
                }
            },
            Instruction::Or { register1, register2 } => {
                let value1 = self.registers.get_value(register1);
                let value2 = self.registers.get_value(register2);
                self.registers.set_value(register1, value1 | value2);
                proof {
                    assert(self@ =~= target.0 && target.1 == Ok::<(), StepError>(()));
                }
            },
            Instruction::Xor { register1, register2 } => {
                let value1 = self.registers.get_value(register1);
                let value2 = self.registers.get_value(register2);
                self.registers.set_value(register1, value1 ^ value2);
                proof {
                    assert(self@ =~= target.0 && target.1 == Ok::<(), StepError>(()));
                }
            },
            Instruction::SubRegisters { register1, register2 } => {
                let value1 = self.registers.get_value(register1);
                let value2 = self.registers.get_value(register2);
                let result = self.handle_sub(value1, value2);
                self.registers.set_value(register1, result);
                proof {
                    assert(self@ =~= target.0 && target.1 == Ok::<(), StepError>(()));
                }
            },
            Instruction::SubRegistersReversed { register1, register2 } => {
                let value1 = self.registers.get_value(register1);
                let value2 = self.registers.get_value(register2);
                let result = self.handle_sub(value2, value1);
                self.registers.set_value(register1, result);
                proof {
                    assert(self@ =~= target.0 && target.1 == Ok::<(), StepError>(()));
                }
            },
            Instruction::ShiftLeft { register1, .. } => {
                let value = self.registers.get_value(register1);
                proof {
                    assert((value << 1) == (value * 2) % 256 && (value >> 7) == value / 128)
                        by (bit_vector);
                }
                self.registers.set_value(register1, value << 1);
                self.registers.set_value(U4::new(0xF), value >> 7);
                proof {
                    assert(self@ =~= target.0 && target.1 == Ok::<(), StepError>(()));
                }
            },
            Instruction::ShiftRight { register1, .. } => {
                let value = self.registers.get_value(register1);
                proof {
                    assert((value >> 1) == value / 2 && (value & 1) == value % 2) by (bit_vector);
                }
                self.registers.set_value(register1, value >> 1);
                self.registers.set_value(U4::new(0xF), value & 1);
                proof {
                    assert(self@ =~= target.0 && target.1 == Ok::<(), StepError>(()));
                }
            },
            Instruction::SetValue { register, value } => {
                self.registers.set_value(register, value);
                proof {
                    assert(self@ =~= target.0 && target.1 == Ok::<(), StepError>(()));
                }
            },
            Instruction::LoadRegisterFromRegister { register1, register2 } => {
                let value = self.registers.get_value(register2);
                self.registers.set_value(register1, value);
                proof {
                    assert(self@ =~= target.0 && target.1 == Ok::<(), StepError>(()));
                }
            },
            Instruction::LoadRegisterFromDelayTimer { register } => {
                let value = self.delay_timer;
                self.registers.set_value(register, value);
                proof {
                    assert(self@ =~= target.0 && target.1 == Ok::<(), StepError>(()));
                }
            },
            Instruction::Random { register, mask } => {
                self.registers.set_value(register, rnd & mask);
                proof {
                    assert(self@ =~= target.0 && target.1 == Ok::<(), StepError>(()));
                }
            },
            _ => {
                return vstd::pervasive::unreached();
            },
        }
        Ok(())
    }

    /// The instructions that steer the program counter and the call stack,
    /// including the keypad-driven skips and the blocking key wait.
    #[verifier::rlimit(100)]
    fn handle_control_op(&mut self, instruction: Instruction, rnd: u8) -> (r: Result<
        (),
        StepError,
    >)
        requires
            old(self).wf(),
            instruction.wf(),
            old(self).program_counter.0 >= 2,
            instruction matches Instruction::Jump(..) || instruction
                matches Instruction::JumpWithOffset(..) || instruction
                matches Instruction::CallSubroutine(..) || instruction matches Instruction::Return
                || instruction matches Instruction::SkipIfEqual { .. } || instruction
                matches Instruction::SkipNotEqualByte { .. } || instruction
                matches Instruction::SkipIfEqualRegisters { .. } || instruction
                matches Instruction::SkipNotEqualRegisters { .. } || instruction
                matches Instruction::SkipIfKeyPressed { .. } || instruction
                matches Instruction::SkipIfKeyNotPressed { .. } || instruction
                matches Instruction::LoadRegisterFromKeyPress { .. },
        ensures
            final(self).wf(),
            final(self).keypad == old(self).keypad,
            (final(self)@, r) == spec_execute(
                old(self)@,
                instruction,
                rnd,
                old(self).spec_key_query(instruction),
                old(self).keypad.spec_pressed_key(),
            ),
    {
        let ghost target = spec_execute(
            old(self)@,
            instruction,
            rnd,
            old(self).spec_key_query(instruction),
            old(self).keypad.spec_pressed_key(),
        );
        match instruction {
            Instruction::Jump(address) => {
                self.program_counter.set(address);
                proof {
                    assert(self@ =~= target.0 && target.1 == Ok::<(), StepError>(()));
                }
            },
            Instruction::JumpWithOffset(address) => {
                let offset = self.registers.get_value(U4::new(0));
                self.program_counter.set(address + offset as u16);
                proof {
                    assert(self@ =~= target.0 && target.1 == Ok::<(), StepError>(()));
                }
            },
            Instruction::CallSubroutine(addr) => {
                self.stack.push(self.program_counter);
                self.program_counter = addr;
                proof {
                    assert(self@ =~= target.0 && target.1 == Ok::<(), StepError>(()));
                }
            },
            Instruction::Return => {
                let address = match self.stack.pop() {
                    Some(a) => a,
                    None => {
                        proof {
                            assert(self@ =~= target.0 && target.1 == Err::<(), StepError>(
                                StepError::StackUnderflow,
                            ));
                        }
                        return Err(StepError::StackUnderflow);
                    },
                };
                self.program_counter = address;
                proof {
                    assert(self@ =~= target.0 && target.1 == Ok::<(), StepError>(()));
                }
            },
            Instruction::SkipIfEqual { register, value } => {
                if self.registers.get_value(register) == value {
                    self.program_counter.increment();
                }
                proof {
                    assert(self@ =~= target.0 && target.1 == Ok::<(), StepError>(()));
                }
            },
            Instruction::SkipNotEqualByte { register, value } => {
                if self.registers.get_value(register) != value {
                    self.program_counter.increment();
                }
                proof {
                    assert(self@ =~= target.0 && target.1 == Ok::<(), StepError>(()));
                }
            },
            Instruction::SkipIfEqualRegisters { register1, register2 } => {
                let value1 = self.registers.get_value(register1);
                let value2 = self.registers.get_value(register2);
                if value1 == value2 {
                    self.program_counter.increment();
                }
                proof {
                    assert(self@ =~= target.0 && target.1 == Ok::<(), StepError>(()));
                }
            },
            Instruction::SkipNotEqualRegisters { register1, register2 } => {
                let value1 = self.registers.get_value(register1);
                let value2 = self.registers.get_value(register2);
                if value1 != value2 {
                    self.program_counter.increment();
                }
                proof {
                    assert(self@ =~= target.0 && target.1 == Ok::<(), StepError>(()));
                }
            },
            Instruction::SkipIfKeyPressed { register } => {
                let value = self.registers.get_value(register);
                if self.keypad.is_key_down(value) {
                    self.program_counter.increment();
                }
                proof {
                    assert(self@ =~= target.0 && target.1 == Ok::<(), StepError>(()));
                }
            },
            Instruction::SkipIfKeyNotPressed { register } => {
                let value = self.registers.get_value(register);
                if !self.keypad.is_key_down(value) {
                    self.program_counter.increment();
                }
                proof {
                    assert(self@ =~= target.0 && target.1 == Ok::<(), StepError>(()));
                }
            },
            Instruction::LoadRegisterFromKeyPress { register } => {
                match self.keypad.get_pressed_key() {
                    None => {
                        self.program_counter.decrement();
                        proof {
                            assert(self@ =~= target.0 && target.1 == Ok::<(), StepError>(()));
                        }
                        return Ok(());
                    },
                    Some(value) => {
                        self.registers.set_value(register, value);
                        proof {
                            assert(self@ =~= target.0 && target.1 == Ok::<(), StepError>(()));
                        }
                    },
                }
            },
            _ => {
                return vstd::pervasive::unreached();
            },
        }
        Ok(())
    }

    /// The instructions that touch memory, the index register, the
    /// framebuffer or the timers.
    #[verifier::rlimit(100)]
    fn handle_system_op(&mut self, instruction: Instruction, rnd: u8) -> (r: Result<
        (),
        StepError,
    >)
        requires
            old(self).wf(),
            instruction.wf(),
            instruction matches Instruction::ClearScreen || instruction
                matches Instruction::Draw { .. } || instruction matches Instruction::SetIndex(..)
                || instruction matches Instruction::AddRegisterToIndex { .. } || instruction
                matches Instruction::LoadFont { .. } || instruction
                matches Instruction::LoadDelayTimer { .. } || instruction
                matches Instruction::LoadSoundTimer { .. } || instruction
                matches Instruction::StoreBcdRepresentation { .. } || instruction
                matches Instruction::WriteRegistersToMemory { .. } || instruction
                matches Instruction::LoadRegistersFromMemory { .. },
        ensures
            final(self).wf(),
            final(self).keypad == old(self).keypad,
            (final(self)@, r) == spec_execute(
                old(self)@,
                instruction,
                rnd,
                old(self).spec_key_query(instruction),
                old(self).keypad.spec_pressed_key(),
            ),
    {
        let ghost target = spec_execute(
            old(self)@,
            instruction,
            rnd,
            old(self).spec_key_query(instruction),
            old(self).keypad.spec_pressed_key(),
        );
        match instruction {
            Instruction::ClearScreen => {
                self.display.clear();
                proof {
                    assert(self@ =~= target.0 && target.1 == Ok::<(), StepError>(()));
                }
            },
            Instruction::Draw { register1, register2, sprite_length } => {
                let r = self.handle_draw_instruction(register1, register2, sprite_length);
                if let Err(e) = r {
                    proof {
                        assert(self@ =~= target.0 && target.1 == Err::<(), StepError>(e));
                    }
                    return Err(e);
                }
                proof {
                    assert(self@ =~= target.0 && target.1 == Ok::<(), StepError>(()));
                }
            },
            Instruction::SetIndex(new_index) => {
                self.index.set(new_index);
                proof {
                    assert(self@ =~= target.0 && target.1 == Ok::<(), StepError>(()));
                }
            },
            Instruction::AddRegisterToIndex { register } => {
                let value = self.registers.get_value(register);
                self.index = self.index.add(value as u16);
                proof {
                    assert(self@ =~= target.0 && target.1 == Ok::<(), StepError>(()));
                }
            },
            Instruction::LoadFont { register } => {
                let value = self.registers.get_value(register);
                proof {
                    assert(value & 0x0F == value % 16 && value % 16 <= 15) by (bit_vector);
                }
                let digit = U4::new(value & 0x0F);
                self.index = self.memory.get_address_for_font(digit);
                proof {
                    assert(self@ =~= target.0 && target.1 == Ok::<(), StepError>(()));
                }
            },
            Instruction::LoadDelayTimer { register } => {
                self.delay_timer = self.registers.get_value(register);
                proof {
                    assert(self@ =~= target.0 && target.1 == Ok::<(), StepError>(()));
                }
            },
            Instruction::LoadSoundTimer { register } => {
                self.sound_timer = self.registers.get_value(register);
                proof {
                    assert(self@ =~= target.0 && target.1 == Ok::<(), StepError>(()));
                }
            },
            Instruction::StoreBcdRepresentation { register } => {
                let value = self.registers.get_value(register);
                let mut digits: Vec<u8> = Vec::new();
                digits.push(value / 100);
                digits.push((value % 100) / 10);
                digits.push(value % 10);
                proof {
                    assert(digits@ =~= seq![
                        old(self)@.regs[register.0 as int] / 100,
                        (old(self)@.regs[register.0 as int] % 100) / 10,
                        old(self)@.regs[register.0 as int] % 10,
                    ]);
                }
                let r = self.memory.write_slice(self.index, digits.as_slice());
                if let Err(e) = r {
                    proof {
                        assert(self@ =~= target.0 && target.1 == Err::<(), StepError>(
                            StepError::Memory(e),
                        ));
                    }
                    return Err(StepError::Memory(e));
                }
                proof {
                    assert(self@ =~= target.0 && target.1 == Ok::<(), StepError>(()));
                }
            },
            Instruction::WriteRegistersToMemory { register } => {
                let count = register.get() + 1;
                let mut bytes: Vec<u8> = Vec::new();
                let mut reg_idx: u8 = 0;
                while reg_idx < count
                    invariant
                        count == register.0 + 1,
                        count <= 16,
                        reg_idx <= count,
                        self@ == old(self)@,
                        self.keypad == old(self).keypad,
                        self.index == old(self).index,
                        self.program_counter == old(self).program_counter,
                        old(self).wf(),
                        bytes@.len() == reg_idx,
                        forall|j: int| 0 <= j < reg_idx ==> bytes@[j] == old(self)@.regs[j],
                    decreases count - reg_idx,
                {
                    bytes.push(self.registers.get_value(U4::new(reg_idx)));
                    reg_idx += 1;
                }
                proof {
                    assert(bytes@ =~= old(self)@.regs.subrange(0, register.0 + 1));
                }
                let r = self.memory.write_slice(self.index, bytes.as_slice());
                if let Err(e) = r {
                    proof {
                        assert(self@ =~= target.0 && target.1 == Err::<(), StepError>(
                            StepError::Memory(e),
                        ));
                    }
                    return Err(StepError::Memory(e));
                }
                self.index = self.index.add(count as u16);
                proof {
                    assert(self@ =~= target.0 && target.1 == Ok::<(), StepError>(()));
                }
            },
            Instruction::LoadRegistersFromMemory { register } => {
                let count = register.get() + 1;
                let bytes = match self.memory.read_slice(self.index, count as usize) {
                    Ok(b) => b,
                    Err(e) => {
                        proof {
                            assert(self@ =~= target.0 && target.1 == Err::<(), StepError>(
                                StepError::Memory(e),
                            ));
                        }
                        return Err(StepError::Memory(e));
                    },
                };
                let mut idx: usize = 0;
                while idx < count as usize
                    invariant
                        count == register.0 + 1,
                        count <= 16,
                        idx <= count,
                        bytes@.len() == count,
                        old(self).index.0 + count <= MEMORY_SIZE,
                        bytes@ == old(self).memory.data@.subrange(
                            old(self).index.0 as int,
                            old(self).index.0 + count as int,
                        ),
                        self.display.pixels@ == old(self).display.pixels@,
                        self.program_counter == old(self).program_counter,
                        self.index == old(self).index,
                        self.stack@ == old(self).stack@,
                        self.delay_timer == old(self).delay_timer,
                        self.sound_timer == old(self).sound_timer,
                        self.memory.data@ == old(self).memory.data@,
                        self.keypad == old(self).keypad,
                        old(self).wf(),
                        self.registers.registers@.len() == 16,
                        forall|j: int| 0 <= j < idx ==> self.registers.registers@[j] == bytes@[j],
                        forall|j: int|
                            idx <= j < 16 ==> self.registers.registers@[j] == old(
                                self,
                            ).registers.registers@[j],
                    decreases count - idx,
                {
                    self.registers.set_value(U4::new(idx as u8), bytes[idx]);
                    idx += 1;
                }
                self.index = self.index.add(count as u16);
                proof {
                    assert(idx == count as usize);
                    assert forall|i: int| 0 <= i < 16 implies self.registers.registers@[i] == (
                    if i < register.0 + 1 {
                        old(self)@.mem[old(self)@.index + i]
                    } else {
                        old(self)@.regs[i]
                    }) by {
                        if i < count {
                            assert(self.registers.registers@[i] == bytes@[i]);
                            assert(bytes@[i] == old(self).memory.data@[old(self).index.0 + i]);
                        }
                    }
                    assert(self.registers.registers@ =~= Seq::new(
                        16,
                        |i: int|
                            if i < register.0 + 1 {
                                old(self)@.mem[old(self)@.index + i]
                            } else {
                                old(self)@.regs[i]
                            },
                    ));
                    assert(self@ =~= target.0 && target.1 == Ok::<(), StepError>(()));
                }
            },
            _ => {
                return vstd::pervasive::unreached();
            },
        }
        Ok(())
    }

    /// Sets the flag register to 1 exactly when `lhs >= rhs` (no borrow) and
    /// returns `lhs - rhs` modulo 256.
    fn handle_sub(&mut self, lhs: u8, rhs: u8) -> (r: u8)
        requires
            old(self).wf(),
        ensures
            final(self).wf(),
            final(self).keypad == old(self).keypad,
            final(self)@ == (CpuState {
                regs: old(self)@.regs.update(
                    15,
                    if lhs >= rhs {
                        1u8
                    } else {
                        0u8
                    },
                ),
                ..old(self)@
            }),
            r == ((lhs - rhs) % 256) as u8,
    {
        let flag_value: u8 = if lhs >= rhs {
            1
        } else {
            0
        };
        self.registers.set_value(U4::new(0xF), flag_value);
        lhs.wrapping_sub(rhs)
    }

    /// Fetches and decodes the word at the program counter; a word that does
    /// not decode fails with the address it was fetched from.
    fn fetch_instruction(&self) -> (r: Result<Instruction, StepError>)
        requires
            self.wf(),
            self.program_counter.0 + 1 < MEMORY_SIZE,
        ensures
            match spec_decode(spec_word_at(self@)) {
                Ok(i) => r == Ok::<Instruction, StepError>(i) && i.wf(),
                Err(e) => r == Err::<Instruction, StepError>(
                    StepError::Fetch { address: self.program_counter.0, error: e },
                ),
            },
    {
        let word = self.memory.read_instruction(self.program_counter);
        proof {
            crate::instruction::lemma_decode_wf(word);
        }
        match Instruction::try_from_u16(word) {
            Ok(i) => Ok(i),
            Err(e) => Err(StepError::Fetch { address: self.program_counter.0, error: e }),
        }
    }

    /// Reads the sprite at the index register and draws it at the position
    /// held in the two registers, clipping at the bottom edge; the collision
    /// flag of the framebuffer is not stored anywhere.
    fn handle_draw_instruction(&mut self, x_register: U4, y_register: U4, sprite_length: U4) -> (r:
        Result<(), StepError>)
        requires
            old(self).wf(),
            x_register.wf(),
            y_register.wf(),
            sprite_length.wf(),
        ensures
            final(self).wf(),
            final(self).keypad == old(self).keypad,
            (final(self)@, r) == spec_draw_step(old(self)@, x_register, y_register, sprite_length),
    {
        let x_pos = self.registers.get_value(x_register);
        let y_pos = self.registers.get_value(y_register);
        let sprite = match self.memory.read_slice(self.index, sprite_length.get() as usize) {
            Ok(s) => s,
            Err(e) => {
                return Err(StepError::Memory(e));
            },
        };
        self.display.draw(x_pos, y_pos, sprite);
        proof {
            assert(self@ =~= spec_draw_step(old(self)@, x_register, y_register, sprite_length).0);
        }
        Ok(())
    }
}

} // verus!
