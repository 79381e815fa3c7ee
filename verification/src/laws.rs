//! Laws of the machine: properties that relate several instructions or whole
//! steps, stated over the state transformer `spec_execute` and the step
//! function `spec_tick` and proved once for every machine state.

use vstd::prelude::*;
use crate::bits::U4;
use crate::cpu::{spec_execute, spec_tick, spec_word_at, CpuState};
use crate::error::{DecodeError, StepError};
use crate::instruction::{spec_decode, Instruction};
use crate::memory::MemoryAddress;

verus! {

/// Setting a register: for every register other than the flag register and
/// every byte, the word `0x6rvv` decodes to the set instruction for that
/// register, and executing it stores exactly that byte there.
pub proof fn lemma_set_value_round_trip(
    pre: CpuState,
    r: u8,
    v: u8,
    rnd: u8,
    key_down: bool,
    pressed: Option<u8>,
)
    requires
        pre.wf(),
        r < 0xF,
    ensures
        spec_decode((0x6000 + r * 256 + v) as u16) == Ok::<Instruction, DecodeError>(
            Instruction::SetValue { register: U4(r), value: v },
        ),
        spec_execute(
            pre,
            Instruction::SetValue { register: U4(r), value: v },
            rnd,
            key_down,
            pressed,
        ).0.regs[r as int] == v,
        spec_execute(
            pre,
            Instruction::SetValue { register: U4(r), value: v },
            rnd,
            key_down,
            pressed,
        ).1 == Ok::<(), StepError>(()),
{
    assert(((0x6000 + r * 256 + v) as u16) == 0x6000u16 + (r as u16) * 256 + (v as u16));
    assert((0x6000u16 + (r as u16) * 256 + (v as u16)) / 4096 == 6 && ((0x6000u16 + (r as u16)
        * 256 + (v as u16)) / 256) % 16 == r as u16 && (0x6000u16 + (r as u16) * 256 + (v as u16))
        % 256 == v as u16) by (bit_vector)
        requires
            r < 15,
    ;
}

/// Adding two registers leaves the flag register 1 exactly when the
/// unreduced sum exceeds 255, and, when the destination is not the flag
/// register itself, stores the sum reduced modulo 256 there.
pub proof fn lemma_add_registers_flag(
    pre: CpuState,
    register1: U4,
    register2: U4,
    rnd: u8,
    key_down: bool,
    pressed: Option<u8>,
)
    requires
        pre.wf(),
        register1.wf(),
        register2.wf(),
    ensures
        ({
            let (post, r) = spec_execute(
                pre,
                Instruction::AddRegisters { register1, register2 },
                rnd,
                key_down,
                pressed,
            );
            let sum = pre.regs[register1.0 as int] + pre.regs[register2.0 as int];
            r == Ok::<(), StepError>(()) && post.regs[15] == (if sum > 255 {
                1u8
            } else {
                0u8
            }) && (register1.0 != 0xF ==> post.regs[register1.0 as int] == sum % 256)
        }),
{
}

/// Subtracting registers leaves the flag register 1 exactly when the
/// minuend is at least the subtrahend (no borrow), and stores the
/// difference modulo 256 in the first register; the reversed form
/// subtracts the other way around. The flag statement asks that the first
/// register is not the flag register itself, which the difference would
/// overwrite.
pub proof fn lemma_sub_registers_flag(
    pre: CpuState,
    register1: U4,
    register2: U4,
    rnd: u8,
    key_down: bool,
    pressed: Option<u8>,
)
    requires
        pre.wf(),
        register1.wf(),
        register2.wf(),
    ensures
        ({
            let (post, r) = spec_execute(
                pre,
                Instruction::SubRegisters { register1, register2 },
                rnd,
                key_down,
                pressed,
            );
            let a = pre.regs[register1.0 as int];
            let b = pre.regs[register2.0 as int];
            r == Ok::<(), StepError>(()) && post.regs[register1.0 as int] == (a - b) % 256 && (
            register1.0 != 0xF ==> post.regs[15] == (if a >= b {
                1u8
            } else {
                0u8
            }))
        }),
        ({
            let (post, r) = spec_execute(
                pre,
                Instruction::SubRegistersReversed { register1, register2 },
                rnd,
                key_down,
                pressed,
            );
            let a = pre.regs[register1.0 as int];
            let b = pre.regs[register2.0 as int];
            r == Ok::<(), StepError>(()) && post.regs[register1.0 as int] == (b - a) % 256 && (
            register1.0 != 0xF ==> post.regs[15] == (if b >= a {
                1u8
            } else {
                0u8
            }))
        }),
{
}

/// Calling a subroutine and returning restores the machine exactly: the
/// program counter comes back to the instruction after the call and the
/// stack to what it was; in particular an empty stack is empty again.
pub proof fn lemma_call_return_round_trip(
    pre: CpuState,
    addr: MemoryAddress,
    rnd: u8,
    key_down: bool,
    pressed: Option<u8>,
)
    requires
        pre.wf(),
    ensures
        ({
            let (s1, r1) = spec_execute(
                pre,
                Instruction::CallSubroutine(addr),
                rnd,
                key_down,
                pressed,
            );
            let (s2, r2) = spec_execute(s1, Instruction::Return, rnd, key_down, pressed);
            r1 == Ok::<(), StepError>(()) && r2 == Ok::<(), StepError>(()) && s2 == pre
        }),
{
    let (s1, r1) = spec_execute(pre, Instruction::CallSubroutine(addr), rnd, key_down, pressed);
    let (s2, r2) = spec_execute(s1, Instruction::Return, rnd, key_down, pressed);
    assert(s1.stack.len() > 0);
    assert(s2.stack =~= pre.stack);
    assert(s2 =~= pre);
}

/// The condition a skip instruction tests, given the keypad's answer for
/// the queried key.
pub open spec fn spec_skip_condition(pre: CpuState, instruction: Instruction, key_down: bool) -> bool {
    match instruction {
        Instruction::SkipIfEqual { register, value } => pre.regs[register.0 as int] == value,
        Instruction::SkipNotEqualByte { register, value } => pre.regs[register.0 as int] != value,
        Instruction::SkipIfEqualRegisters { register1, register2 } => pre.regs[register1.0 as int]
            == pre.regs[register2.0 as int],
        Instruction::SkipNotEqualRegisters { register1, register2 } => pre.regs[register1.0 as int]
            != pre.regs[register2.0 as int],
        Instruction::SkipIfKeyPressed { .. } => key_down,
        Instruction::SkipIfKeyNotPressed { .. } => !key_down,
        _ => false,
    }
}

/// A step whose word decodes to a skip-family instruction advances the
/// program counter by exactly 4 when the condition holds and by exactly 2
/// when it does not, relative to its value before the step, and changes
/// nothing else.
#[verifier::rlimit(100)]
pub proof fn lemma_skip_family_pc(pre: CpuState, rnd: u8, key_down: bool, pressed: Option<u8>)
    requires
        pre.wf(),
        pre.pc + 1 < 4096,
        match spec_decode(spec_word_at(pre)) {
            Ok(i) => i matches Instruction::SkipIfEqual { .. } || i
                matches Instruction::SkipNotEqualByte { .. } || i
                matches Instruction::SkipIfEqualRegisters { .. } || i
                matches Instruction::SkipNotEqualRegisters { .. } || i
                matches Instruction::SkipIfKeyPressed { .. } || i
                matches Instruction::SkipIfKeyNotPressed { .. },
            Err(_) => false,
        },
    ensures
        ({
            let instruction = spec_decode(spec_word_at(pre))->Ok_0;
            let (post, r) = spec_tick(pre, rnd, key_down, pressed);
            r == Ok::<(), StepError>(()) && post.pc == (if spec_skip_condition(
                pre,
                instruction,
                key_down,
            ) {
                pre.pc + 4
            } else {
                pre.pc + 2
            }) && post.regs == pre.regs && post.mem == pre.mem && post.stack == pre.stack
        }),
{
    let instruction = spec_decode(spec_word_at(pre))->Ok_0;
    let mid = CpuState { pc: ((pre.pc + 2) % 0x10000) as u16, ..pre };
    assert(spec_tick(pre, rnd, key_down, pressed) == spec_execute(
        mid,
        instruction,
        rnd,
        key_down,
        pressed,
    ));
    assert(mid.pc == pre.pc + 2);
    let (post, r) = spec_execute(mid, instruction, rnd, key_down, pressed);
    match instruction {
        Instruction::SkipIfEqual { .. } => {
            assert(r == Ok::<(), StepError>(()) && post.regs == pre.regs && post.mem == pre.mem
                && post.stack == pre.stack);
            assert(post.pc == (if spec_skip_condition(pre, instruction, key_down) {
                pre.pc + 4
            } else {
                pre.pc + 2
            }));
        },
        Instruction::SkipNotEqualByte { .. } => {
            assert(r == Ok::<(), StepError>(()) && post.regs == pre.regs && post.mem == pre.mem
                && post.stack == pre.stack);
            assert(post.pc == (if spec_skip_condition(pre, instruction, key_down) {
                pre.pc + 4
            } else {
                pre.pc + 2
            }));
        },
        Instruction::SkipIfEqualRegisters { .. } => {
            assert(r == Ok::<(), StepError>(()) && post.regs == pre.regs && post.mem == pre.mem
                && post.stack == pre.stack);
            assert(post.pc == (if spec_skip_condition(pre, instruction, key_down) {
                pre.pc + 4
            } else {
                pre.pc + 2
            }));
        },
        Instruction::SkipNotEqualRegisters { .. } => {
            assert(r == Ok::<(), StepError>(()) && post.regs == pre.regs && post.mem == pre.mem
                && post.stack == pre.stack);
            assert(post.pc == (if spec_skip_condition(pre, instruction, key_down) {
                pre.pc + 4
            } else {
                pre.pc + 2
            }));
        },
        Instruction::SkipIfKeyPressed { .. } => {
            assert(r == Ok::<(), StepError>(()) && post.regs == pre.regs && post.mem == pre.mem
                && post.stack == pre.stack);
            assert(post.pc == (if spec_skip_condition(pre, instruction, key_down) {
                pre.pc + 4
            } else {
                pre.pc + 2
            }));
        },
        Instruction::SkipIfKeyNotPressed { .. } => {
            assert(r == Ok::<(), StepError>(()) && post.regs == pre.regs && post.mem == pre.mem
                && post.stack == pre.stack);
            assert(post.pc == (if spec_skip_condition(pre, instruction, key_down) {
                pre.pc + 4
            } else {
                pre.pc + 2
            }));
        },
        _ => {
            assert(false);
        },
    }
}

/// The blocking key wait: with no key pressed the step leaves the machine
/// exactly as it was, so the same instruction is fetched again next step;
/// once a key is reported, the register receives that key's value and the
/// program counter advances past the instruction as usual.
#[verifier::rlimit(100)]
pub proof fn lemma_wait_for_key(
    pre: CpuState,
    register: U4,
    rnd: u8,
    key_down: bool,
    pressed: Option<u8>,
)
    requires
        pre.wf(),
        register.wf(),
        pre.pc + 1 < 4096,
        spec_decode(spec_word_at(pre)) == Ok::<Instruction, DecodeError>(
            Instruction::LoadRegisterFromKeyPress { register },
        ),
    ensures
        ({
            let (post, r) = spec_tick(pre, rnd, key_down, pressed);
            r == Ok::<(), StepError>(()) && match pressed {
                None => post == pre,
                Some(key) => post.pc == pre.pc + 2 && post.regs == pre.regs.update(
                    register.0 as int,
                    key,
                ) && post.mem == pre.mem && post.stack == pre.stack,
            }
        }),
{
    let (post, r) = spec_tick(pre, rnd, key_down, pressed);
    if pressed is None {
        assert(post =~= pre);
    }
}

/// Writing all sixteen registers to memory and reading them back from the
/// same region restores every register value. The write advances the index
/// register past the region, so the reader first points it back at the
/// start, as a program does with a set-index instruction.
pub proof fn lemma_register_memory_round_trip(
    pre: CpuState,
    rnd: u8,
    key_down: bool,
    pressed: Option<u8>,
)
    requires
        pre.wf(),
        pre.index + 16 <= 4096,
    ensures
        ({
            let (s1, r1) = spec_execute(
                pre,
                Instruction::WriteRegistersToMemory { register: U4(0xF) },
                rnd,
                key_down,
                pressed,
            );
            let (s2, r2) = spec_execute(
                CpuState { index: pre.index, ..s1 },
                Instruction::LoadRegistersFromMemory { register: U4(0xF) },
                rnd,
                key_down,
                pressed,
            );
            r1 == Ok::<(), StepError>(()) && r2 == Ok::<(), StepError>(()) && s2.regs == pre.regs
        }),
{
    let (s1, r1) = spec_execute(
        pre,
        Instruction::WriteRegistersToMemory { register: U4(0xF) },
        rnd,
        key_down,
        pressed,
    );
    let (s2, r2) = spec_execute(
        CpuState { index: pre.index, ..s1 },
        Instruction::LoadRegistersFromMemory { register: U4(0xF) },
        rnd,
        key_down,
        pressed,
    );
    assert(s2.regs =~= pre.regs);
}

} // verus!
