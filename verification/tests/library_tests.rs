use chip8::bits::{join_bytes, join_nibbles, join_to_u16, join_to_u8, split_instruction, split_u16,
    split_u8, U4};
use chip8::cpu::Cpu;
use chip8::display::Display;
use chip8::error::{DecodeError, MemoryError, StepError};
use chip8::instruction::Instruction;
use chip8::keypad::MockKeypad;
use chip8::memory::{Memory, MemoryAddress, MEMORY_SIZE, MEMORY_START};
use chip8::rom::Rom;

#[test]
fn splits_and_joins_words_and_nibbles() {
    assert_eq!((0xAB, 0xCD), split_u16(0xABCD));
    assert_eq!(0xABCD, join_bytes(0xAB, 0xCD));

    let (high, low) = split_u8(0x7E);
    assert_eq!(0x7, high.0);
    assert_eq!(0xE, low.0);
    assert_eq!(0x7E, join_to_u8(high, low));

    let (n1, n2, n3, n4) = split_instruction(0x1234);
    assert_eq!((1, 2, 3, 4), (n1.0, n2.0, n3.0, n4.0));
    assert_eq!(0x234, join_to_u16(n2, n3, n4));
    assert_eq!(0x1234, join_nibbles(1, 2, 3, 4));
}

#[test]
fn rom_lays_out_words_big_endian() {
    let rom = Rom::from_raw_instructions(&[0x6102, 0xA234]);
    assert_eq!(vec![0x61, 0x02, 0xA2, 0x34], rom.data);
}

#[test]
fn memory_load_rejects_oversized_rom() {
    let max = MEMORY_SIZE - MEMORY_START as usize;
    let ok = Memory::from_rom(Rom { data: vec![0; max] });
    assert!(ok.is_ok());

    let too_large = Memory::from_rom(Rom { data: vec![0; max + 1] });
    assert_eq!(MemoryError::RomTooLarge, too_large.unwrap_err());
}

#[test]
fn memory_slices_are_bounds_checked() {
    let mut memory = Memory::new();

    assert_eq!(
        MemoryError::OutOfBounds { start: 4095, len: 2 },
        memory.read_slice(MemoryAddress::from_u16(4095), 2).unwrap_err()
    );
    assert_eq!(
        MemoryError::OutOfBounds { start: 4094, len: 3 },
        memory
            .write_slice(MemoryAddress::from_u16(4094), &[1, 2, 3])
            .unwrap_err()
    );

    memory
        .write_slice(MemoryAddress::from_u16(4093), &[1, 2, 3])
        .unwrap();
    let bytes = memory.read_slice(MemoryAddress::from_u16(4093), 3).unwrap();
    assert_eq!(&[1, 2, 3][..], bytes);
}

#[test]
fn memory_preloads_the_font_table() {
    let memory = Memory::from_rom(Rom { data: vec![] }).unwrap();
    let zero_glyph = memory.read_slice(MemoryAddress::from_u16(0), 5).unwrap();
    assert_eq!(&[0xF0, 0x90, 0x90, 0x90, 0xF0][..], zero_glyph);

    let f_glyph_address = memory.get_address_for_font(U4::new(0xF));
    assert_eq!(75, f_glyph_address.0);
    let f_glyph = memory.read_slice(f_glyph_address, 5).unwrap();
    assert_eq!(&[0xF0, 0x80, 0xF0, 0x80, 0x80][..], f_glyph);
}

#[test]
fn address_arithmetic_wraps_in_16_bits() {
    let address = MemoryAddress::from_u16(0xFFFF);
    assert_eq!(1, address.add(2).0);

    let mut pc = MemoryAddress::from_u16(0xFFFE);
    pc.increment();
    assert_eq!(0, pc.0);
}

#[test]
fn decoding_system_calls_and_unknown_words_fails() {
    assert_eq!(
        DecodeError::UnsupportedSystemCall(0x0123),
        Instruction::try_from_u16(0x0123).unwrap_err()
    );
    assert_eq!(
        DecodeError::InvalidOpcode(0x5123),
        Instruction::try_from_u16(0x5123).unwrap_err()
    );
    assert_eq!(
        DecodeError::InvalidOpcode(0x8008),
        Instruction::try_from_u16(0x8008).unwrap_err()
    );
    assert_eq!(
        DecodeError::InvalidOpcode(0xF000),
        Instruction::try_from_u16(0xF000).unwrap_err()
    );
    assert!(Instruction::try_from_u16(0x00E0).is_ok());
    assert!(Instruction::try_from_u16(0x00EE).is_ok());
}

#[test]
fn renders_canonical_mnemonics() {
    let mnemonic = |word: u16| Instruction::try_from_u16(word).unwrap().to_mnemonic();
    assert_eq!("CLS", mnemonic(0x00E0));
    assert_eq!("RET", mnemonic(0x00EE));
    assert_eq!("JP 0ABC", mnemonic(0x1ABC));
    assert_eq!("CALL 0204", mnemonic(0x2204));
    assert_eq!("SE V1, 24", mnemonic(0x3124));
    assert_eq!("SNE V1, 24", mnemonic(0x4124));
    assert_eq!("SE V1, V2", mnemonic(0x5120));
    assert_eq!("LD V3, FA", mnemonic(0x63FA));
    assert_eq!("ADD V3, 0A", mnemonic(0x730A));
    assert_eq!("LD V1, V2", mnemonic(0x8120));
    assert_eq!("OR V1, V2", mnemonic(0x8121));
    assert_eq!("AND V1, V2", mnemonic(0x8122));
    assert_eq!("XOR V1, V2", mnemonic(0x8123));
    assert_eq!("ADD V1, V2", mnemonic(0x8124));
    assert_eq!("SUB V1, V2", mnemonic(0x8125));
    assert_eq!("SHR V1 {, V2}", mnemonic(0x8126));
    assert_eq!("SUBN V1, V2", mnemonic(0x8127));
    assert_eq!("SHL V1 {, V2}", mnemonic(0x812E));
    assert_eq!("SNE V1, V2", mnemonic(0x9120));
    assert_eq!("LD I, 0ABC", mnemonic(0xAABC));
    assert_eq!("JP V0, 0ABC", mnemonic(0xBABC));
    assert_eq!("RND V6, 7F", mnemonic(0xC67F));
    assert_eq!("DRW V1, V2, 5", mnemonic(0xD125));
    assert_eq!("SKP V6", mnemonic(0xE69E));
    assert_eq!("SKNP V6", mnemonic(0xE6A1));
    assert_eq!("LD V6, DT", mnemonic(0xF607));
    assert_eq!("LD V6, K", mnemonic(0xF60A));
    assert_eq!("LD DT, V6", mnemonic(0xF615));
    assert_eq!("LD ST, V6", mnemonic(0xF618));
    assert_eq!("ADD I, V6", mnemonic(0xF61E));
    assert_eq!("LD F, V6", mnemonic(0xF629));
    assert_eq!("LD B, V6", mnemonic(0xF633));
    assert_eq!("LD [I], V6", mnemonic(0xF655));
    assert_eq!("LD V6, [I]", mnemonic(0xF665));
}

#[test]
fn add_value_wraps_modulo_256() {
    // set V1 to 250, then add 10 twice, wrapping each time
    let instructions = vec![0x61FA, 0x710A, 0x710A];
    let rom = Rom::from_raw_instructions(&instructions);
    let mut cpu = Cpu::<MockKeypad>::from_rom(rom).unwrap();

    cpu.tick().unwrap();
    cpu.tick().unwrap();
    assert_eq!((250 + 10) % 256, cpu.registers.get_value(U4::new(1)) as u32);

    cpu.tick().unwrap();
    assert_eq!((250 + 10 + 10) % 256, cpu.registers.get_value(U4::new(1)) as u32);
}

#[test]
fn random_is_masked_by_the_literal() {
    let instructions = vec![0xC300, 0xC40F];
    let rom = Rom::from_raw_instructions(&instructions);
    let mut cpu = Cpu::<MockKeypad>::from_rom(rom).unwrap();

    cpu.tick().unwrap();
    assert_eq!(0, cpu.registers.get_value(U4::new(3)));

    cpu.tick().unwrap();
    assert!(cpu.registers.get_value(U4::new(4)) <= 0x0F);
}

#[test]
fn return_with_empty_stack_fails() {
    let instructions = vec![0x00EE];
    let rom = Rom::from_raw_instructions(&instructions);
    let mut cpu = Cpu::<MockKeypad>::from_rom(rom).unwrap();

    assert_eq!(StepError::StackUnderflow, cpu.tick().unwrap_err());
}

#[test]
fn fetch_failure_carries_the_address_and_cause() {
    let instructions = vec![0x0123];
    let rom = Rom::from_raw_instructions(&instructions);
    let mut cpu = Cpu::<MockKeypad>::from_rom(rom).unwrap();

    assert_eq!(
        StepError::Fetch {
            address: 0x200,
            error: DecodeError::UnsupportedSystemCall(0x0123),
        },
        cpu.tick().unwrap_err()
    );
    assert_eq!(0x200, cpu.program_counter.0, "a failed fetch must not advance");
}

#[test]
fn draw_out_of_memory_range_fails() {
    // set index to 0xFFF, then draw a 5-row sprite from there
    let instructions = vec![0xAFFF, 0xD015];
    let rom = Rom::from_raw_instructions(&instructions);
    let mut cpu = Cpu::<MockKeypad>::from_rom(rom).unwrap();

    cpu.tick().unwrap();
    assert_eq!(
        StepError::Memory(MemoryError::OutOfBounds { start: 0xFFF, len: 5 }),
        cpu.tick().unwrap_err()
    );
}

#[test]
fn drawing_twice_restores_the_framebuffer() {
    let mut display = Display::new();
    let sprite = [0xF0, 0x90, 0x90, 0x90, 0xF0];

    let first = display.draw(10, 3, &sprite);
    assert!(!first, "nothing was lit, so nothing was cleared");
    let lit = display.pixels.clone();
    assert!(lit.iter().any(|row| *row != 0));

    let second = display.draw(10, 3, &sprite);
    assert!(second, "the first draw lit pixels, so the second clears them");
    assert!(display.pixels.iter().all(|row| *row == 0));
}

#[test]
fn drawing_clips_at_the_bottom_edge() {
    let mut display = Display::new();
    let sprite = [0xFF, 0xFF];

    display.draw(0, 31, &sprite);

    assert_ne!(0, display.pixels[31]);
    assert_eq!(0, display.pixels[0], "sprites do not wrap to the top");
}

#[test]
fn drawing_clips_at_the_right_edge() {
    let mut display = Display::new();
    let sprite = [0xFF];

    display.draw(60, 0, &sprite);

    // bit 63 is the leftmost column; columns 60..63 are lit, the rest clipped
    assert_eq!(0xF, display.pixels[0]);
}

#[test]
fn clear_screen_darkens_every_pixel() {
    // point the index at the zero glyph, draw it, then clear
    let instructions = vec![0xF029, 0xD005, 0x00E0];
    let rom = Rom::from_raw_instructions(&instructions);
    let mut cpu = Cpu::<MockKeypad>::from_rom(rom).unwrap();

    cpu.tick().unwrap();
    cpu.tick().unwrap();
    assert!(cpu.display.pixels.iter().any(|row| *row != 0));

    cpu.tick().unwrap();
    assert!(cpu.display.pixels.iter().all(|row| *row == 0));
}

#[test]
fn from_rom_starts_with_cleared_state() {
    let rom = Rom::from_raw_instructions(&[0x00E0]);
    let cpu = Cpu::<MockKeypad>::from_rom(rom).unwrap();

    assert_eq!(MEMORY_START, cpu.program_counter.0);
    assert_eq!(0, cpu.index.0);
    assert_eq!(0, cpu.stack.len());
    assert_eq!(0, cpu.delay_timer);
    assert_eq!(0, cpu.sound_timer);
    for register in 0..16 {
        assert_eq!(0, cpu.registers.get_value(U4::new(register)));
    }
    assert!(cpu.display.pixels.iter().all(|row| *row == 0));
}

#[test]
fn store_bcd_rejects_out_of_range_index() {
    let instructions = vec![0x60FE, 0xAFFE, 0xF033];
    let rom = Rom::from_raw_instructions(&instructions);
    let mut cpu = Cpu::<MockKeypad>::from_rom(rom).unwrap();

    cpu.tick().unwrap();
    cpu.tick().unwrap();
    assert_eq!(
        StepError::Memory(MemoryError::OutOfBounds { start: 0xFFE, len: 3 }),
        cpu.tick().unwrap_err()
    );
}
