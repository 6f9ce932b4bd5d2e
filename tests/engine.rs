use chip8_emu::{decode, Chip8, Fault, Instruction, DISPLAY_HEIGHT, DISPLAY_WIDTH};

fn machine_with(rom: &[u8]) -> Chip8 {
    let mut c = Chip8::new_seeded(7);
    c.load_rom(rom);
    c
}

fn run(c: &mut Chip8, cycles: usize) {
    for _ in 0..cycles {
        assert_eq!(c.emulate_cycle_with(0), Ok(()));
    }
}

fn display_is_clear(c: &Chip8) -> bool {
    (0..DISPLAY_HEIGHT).all(|y| (0..DISPLAY_WIDTH).all(|x| !c.pixel(x, y)))
}

#[test]
fn power_on_state() {
    let c = Chip8::new();
    assert_eq!(c.pc(), 0x200);
    assert_eq!(c.index(), 0);
    assert_eq!(c.stack_depth(), 0);
    assert_eq!(c.memory_at(0), 0xF0);
    assert_eq!(c.memory_at(5), 0x20);
    assert_eq!(c.memory_at(79), 0x80);
    assert_eq!(c.memory_at(80), 0);
    assert!(display_is_clear(&c));
}

#[test]
fn add_registers_with_carry() {
    let mut c = machine_with(&[0x6A, 0xC8, 0x6B, 0x64, 0x8A, 0xB4]);
    run(&mut c, 3);
    assert_eq!(c.register(0xA), 44);
    assert_eq!(c.register(0xF), 1);
    assert_eq!(c.pc(), 0x206);
}

#[test]
fn add_registers_without_carry() {
    let mut c = machine_with(&[0x6A, 0x10, 0x6B, 0x20, 0x8A, 0xB4]);
    run(&mut c, 3);
    assert_eq!(c.register(0xA), 0x30);
    assert_eq!(c.register(0xF), 0);
}

#[test]
fn add_registers_reaching_exactly_256() {
    let mut c = machine_with(&[0x6A, 0xFF, 0x6B, 0x01, 0x8A, 0xB4]);
    run(&mut c, 3);
    assert_eq!(c.register(0xA), 0);
    assert_eq!(c.register(0xF), 1);
}

#[test]
fn sub_registers_without_borrow() {
    let mut c = machine_with(&[0x6A, 0x05, 0x6B, 0x03, 0x8A, 0xB5]);
    run(&mut c, 3);
    assert_eq!(c.register(0xA), 2);
    assert_eq!(c.register(0xF), 1);
}

#[test]
fn sub_registers_with_borrow() {
    let mut c = machine_with(&[0x6A, 0x03, 0x6B, 0x05, 0x8A, 0xB5]);
    run(&mut c, 3);
    assert_eq!(c.register(0xA), 254);
    assert_eq!(c.register(0xF), 0);
}

#[test]
fn sub_registers_equal_values() {
    let mut c = machine_with(&[0x6A, 0x05, 0x6B, 0x05, 0x8A, 0xB5]);
    run(&mut c, 3);
    assert_eq!(c.register(0xA), 0);
    assert_eq!(c.register(0xF), 0);
}

#[test]
fn sub_registers_reverse_sets_flag() {
    let mut c = machine_with(&[0x6A, 0x03, 0x6B, 0x05, 0x8A, 0xB7]);
    run(&mut c, 3);
    assert_eq!(c.register(0xA), 2);
    assert_eq!(c.register(0xF), 1);
}

#[test]
fn shifts_keep_the_dropped_bit() {
    let mut c = machine_with(&[0x6A, 0x81, 0x8A, 0x06]);
    run(&mut c, 2);
    assert_eq!(c.register(0xA), 0x40);
    assert_eq!(c.register(0xF), 1);
    let mut c = machine_with(&[0x6A, 0x81, 0x8A, 0x0E]);
    run(&mut c, 2);
    assert_eq!(c.register(0xA), 0x02);
    assert_eq!(c.register(0xF), 1);
}

#[test]
fn bitwise_register_operations() {
    let mut c = machine_with(&[
        0x6A, 0x0C, 0x6B, 0x0A, 0x61, 0x0C, 0x62, 0x0C, 0x8A, 0xB1, 0x81, 0xB2, 0x82, 0xB3,
        0x83, 0xA0,
    ]);
    run(&mut c, 8);
    assert_eq!(c.register(0xA), 0x0E);
    assert_eq!(c.register(0x1), 0x08);
    assert_eq!(c.register(0x2), 0x06);
    assert_eq!(c.register(0x3), 0x0E);
}

#[test]
fn add_immediate_wraps_without_flag() {
    let mut c = machine_with(&[0x6F, 0x09, 0x63, 0xFE, 0x73, 0x03]);
    run(&mut c, 3);
    assert_eq!(c.register(0x3), 1);
    assert_eq!(c.register(0xF), 9);
}

#[test]
fn skip_instructions() {
    // 3xnn taken, 4xnn not taken, 5xy0 taken, 9xy0 not taken.
    let mut c = machine_with(&[0x61, 0x07, 0x31, 0x07]);
    run(&mut c, 2);
    assert_eq!(c.pc(), 0x206);
    let mut c = machine_with(&[0x61, 0x07, 0x41, 0x07]);
    run(&mut c, 2);
    assert_eq!(c.pc(), 0x204);
    let mut c = machine_with(&[0x61, 0x07, 0x62, 0x07, 0x51, 0x20]);
    run(&mut c, 3);
    assert_eq!(c.pc(), 0x208);
    let mut c = machine_with(&[0x61, 0x07, 0x62, 0x07, 0x91, 0x20]);
    run(&mut c, 3);
    assert_eq!(c.pc(), 0x206);
}

#[test]
fn skip_on_key_state() {
    let mut c = machine_with(&[0x61, 0x04, 0xE1, 0x9E]);
    c.key_press(4, true);
    run(&mut c, 2);
    assert_eq!(c.pc(), 0x206);
    let mut c = machine_with(&[0x61, 0x04, 0xE1, 0xA1]);
    run(&mut c, 2);
    assert_eq!(c.pc(), 0x206);
    let mut c = machine_with(&[0x61, 0x04, 0xE1, 0xA1]);
    c.key_press(4, true);
    run(&mut c, 2);
    assert_eq!(c.pc(), 0x204);
}

#[test]
fn key_test_past_last_key_faults() {
    let mut c = machine_with(&[0x6A, 0x20, 0xEA, 0x9E]);
    run(&mut c, 1);
    assert_eq!(c.emulate_cycle_with(0), Err(Fault::KeyOutOfRange));
    assert_eq!(c.pc(), 0x202);
}

#[test]
fn draw_after_clear_reports_no_collision() {
    let mut c = machine_with(&[0x00, 0xE0, 0xA0, 0x00, 0xD0, 0x05]);
    run(&mut c, 3);
    assert_eq!(c.register(0xF), 0);
    // Glyph 0: 0xF0, 0x90, 0x90, 0x90, 0xF0.
    assert!(c.pixel(0, 0) && c.pixel(3, 0) && !c.pixel(4, 0));
    assert!(c.pixel(0, 1) && !c.pixel(1, 1) && c.pixel(3, 1));
    assert_eq!(c.pc(), 0x206);
}

#[test]
fn draw_twice_restores_display() {
    let mut c = machine_with(&[0x00, 0xE0, 0xA0, 0x00, 0xD0, 0x05, 0xD0, 0x05]);
    run(&mut c, 3);
    assert!(!display_is_clear(&c));
    run(&mut c, 1);
    assert!(display_is_clear(&c));
    assert_eq!(c.register(0xF), 1);
}

#[test]
fn draw_wraps_at_the_edges() {
    // Origin (62, 31) with V1 = 126 and V2 = 63: both wrap first.
    let mut c = machine_with(&[0x61, 0x7E, 0x62, 0x3F, 0xA0, 0x00, 0xD1, 0x22]);
    run(&mut c, 4);
    // Row 0 of glyph 0 is 0xF0: columns 62, 63, 0, 1 of row 31.
    assert!(c.pixel(62, 31) && c.pixel(63, 31) && c.pixel(0, 31) && c.pixel(1, 31));
    assert!(!c.pixel(2, 31));
    // Row 1 is 0x90: columns 62 and 1 of row 0.
    assert!(c.pixel(62, 0) && !c.pixel(63, 0) && !c.pixel(0, 0) && c.pixel(1, 0));
    assert_eq!(c.register(0xF), 0);
}

#[test]
fn draw_past_end_of_memory_faults() {
    let mut c = machine_with(&[0xAF, 0xFE, 0xD0, 0x03]);
    run(&mut c, 1);
    assert_eq!(c.emulate_cycle_with(0), Err(Fault::AddressOutOfRange));
    assert_eq!(c.pc(), 0x202);
}

#[test]
fn store_bcd_of_255() {
    let mut c = machine_with(&[0x6A, 0xFF, 0xA3, 0x00, 0xFA, 0x33]);
    run(&mut c, 3);
    assert_eq!(c.memory_at(0x300), 2);
    assert_eq!(c.memory_at(0x301), 5);
    assert_eq!(c.memory_at(0x302), 5);
}

#[test]
fn store_bcd_of_7() {
    let mut c = machine_with(&[0x6A, 0x07, 0xA3, 0x00, 0xFA, 0x33]);
    run(&mut c, 3);
    assert_eq!(c.memory_at(0x300), 0);
    assert_eq!(c.memory_at(0x301), 0);
    assert_eq!(c.memory_at(0x302), 7);
}

#[test]
fn store_bcd_past_end_of_memory_faults() {
    let mut c = machine_with(&[0xAF, 0xFE, 0xF0, 0x33]);
    run(&mut c, 1);
    assert_eq!(c.emulate_cycle_with(0), Err(Fault::AddressOutOfRange));
}

#[test]
fn store_and_load_registers() {
    let mut c = machine_with(&[
        0x60, 0x11, 0x61, 0x22, 0x62, 0x33, 0xA3, 0x00, 0xF1, 0x55, 0x60, 0x00, 0x61, 0x00,
        0x62, 0x00, 0xF2, 0x65,
    ]);
    run(&mut c, 5);
    assert_eq!(c.memory_at(0x300), 0x11);
    assert_eq!(c.memory_at(0x301), 0x22);
    assert_eq!(c.memory_at(0x302), 0);
    run(&mut c, 4);
    assert_eq!(c.register(0), 0x11);
    assert_eq!(c.register(1), 0x22);
    assert_eq!(c.register(2), 0);
    assert_eq!(c.index(), 0x300);
}

#[test]
fn load_then_fetch_reads_first_two_bytes() {
    let c = machine_with(&[0xAB, 0xCD, 0x00]);
    assert_eq!(c.fetch(), Some(0xABCD));
}

#[test]
fn load_drops_bytes_past_end_of_memory() {
    let rom: Vec<u8> = (0..4000u32).map(|i| (i % 251) as u8).collect();
    let c = machine_with(&rom);
    assert_eq!(c.memory_at(0x200), 0);
    assert_eq!(c.memory_at(4095), (3583 % 251) as u8);
}

#[test]
fn wait_for_key_polls_until_a_key_is_held() {
    let mut c = machine_with(&[0xF3, 0x0A]);
    for _ in 0..5 {
        run(&mut c, 1);
        assert_eq!(c.pc(), 0x200);
    }
    c.key_press(9, true);
    c.key_press(5, true);
    run(&mut c, 1);
    assert_eq!(c.register(3), 5);
    assert_eq!(c.pc(), 0x202);
}

#[test]
fn jump_with_offset_then_fetch() {
    let mut c = machine_with(&[0x60, 0x02, 0xB2, 0x08, 0, 0, 0, 0, 0, 0, 0x6E, 0x42]);
    run(&mut c, 2);
    assert_eq!(c.pc(), 0x20A);
    assert_eq!(c.fetch(), Some(0x6E42));
}

#[test]
fn clear_then_jump_back() {
    let mut c = machine_with(&[0x00, 0xE0, 0x12, 0x00]);
    run(&mut c, 2);
    assert!(display_is_clear(&c));
    assert_eq!(c.pc(), 0x200);
}

#[test]
fn call_and_return() {
    let mut c = machine_with(&[0x22, 0x06, 0x00, 0x00, 0x00, 0x00, 0x00, 0xEE]);
    run(&mut c, 1);
    assert_eq!(c.pc(), 0x206);
    assert_eq!(c.stack_depth(), 1);
    run(&mut c, 1);
    assert_eq!(c.pc(), 0x202);
    assert_eq!(c.stack_depth(), 0);
}

#[test]
fn return_with_empty_stack_faults() {
    let mut c = machine_with(&[0x00, 0xEE]);
    assert_eq!(c.emulate_cycle_with(0), Err(Fault::StackUnderflow));
    assert_eq!(c.pc(), 0x200);
}

#[test]
fn seventeenth_nested_call_faults() {
    let mut c = machine_with(&[0x22, 0x00]);
    run(&mut c, 16);
    assert_eq!(c.stack_depth(), 16);
    assert_eq!(c.emulate_cycle_with(0), Err(Fault::StackOverflow));
    assert_eq!(c.stack_depth(), 16);
}

#[test]
fn unknown_opcode_keeps_pc_and_ticks_timers() {
    let mut c = machine_with(&[0x6A, 0x05, 0xFA, 0x15, 0x01, 0x23]);
    run(&mut c, 2);
    assert_eq!(c.delay_timer(), 4);
    assert_eq!(c.emulate_cycle_with(0), Err(Fault::UnknownOpcode { opcode: 0x0123 }));
    assert_eq!(c.pc(), 0x204);
    assert_eq!(c.delay_timer(), 3);
}

#[test]
fn fetch_past_end_of_memory_faults() {
    let mut c = machine_with(&[0x1F, 0xFF]);
    run(&mut c, 1);
    assert_eq!(c.fetch(), None);
    assert_eq!(c.emulate_cycle_with(0), Err(Fault::AddressOutOfRange));
}

#[test]
fn timers_count_down_to_zero() {
    let mut c = machine_with(&[0x6A, 0x02, 0xFA, 0x18, 0xFA, 0x15, 0x12, 0x06]);
    run(&mut c, 3);
    assert_eq!(c.sound_timer(), 0);
    assert_eq!(c.delay_timer(), 1);
    run(&mut c, 3);
    assert_eq!(c.delay_timer(), 0);
    let mut c = machine_with(&[0x6A, 0x09, 0xFA, 0x15, 0xF1, 0x07]);
    run(&mut c, 3);
    assert_eq!(c.register(1), 8);
    assert_eq!(c.delay_timer(), 7);
}

#[test]
fn index_instructions() {
    let mut c = machine_with(&[0x6A, 0x0A, 0xFA, 0x29]);
    run(&mut c, 2);
    assert_eq!(c.index(), 50);
    let mut c = machine_with(&[0xAF, 0xFF, 0x6A, 0xFF, 0xFA, 0x1E]);
    run(&mut c, 3);
    assert_eq!(c.index(), 0x10FE);
}

#[test]
fn random_masks_the_drawn_byte() {
    let mut c = machine_with(&[0xC3, 0x0F]);
    assert_eq!(c.emulate_cycle_with(0xAB), Ok(()));
    assert_eq!(c.register(3), 0x0B);
    assert_eq!(c.pc(), 0x202);
}

#[test]
fn seeded_random_is_reproducible() {
    let rom = [0xC1, 0xFF, 0xC2, 0xFF, 0xC3, 0xFF, 0xC4, 0x00];
    let mut a = Chip8::new_seeded(42);
    let mut b = Chip8::new_seeded(42);
    a.load_rom(&rom);
    b.load_rom(&rom);
    for _ in 0..4 {
        assert_eq!(a.emulate_cycle(), Ok(()));
        assert_eq!(b.emulate_cycle(), Ok(()));
    }
    for r in 1..4 {
        assert_eq!(a.register(r), b.register(r));
    }
    assert_eq!(a.register(4), 0);
    let values: Vec<u8> = (1..4).map(|r| a.register(r)).collect();
    assert!(values.iter().any(|&v| v != values[0]) || values[0] != 0);
}

#[test]
fn display_buffer_upscales_pixels() {
    let mut c = machine_with(&[0xA0, 0x00, 0xD0, 0x05]);
    run(&mut c, 2);
    let buffer = c.get_display_buffer();
    assert_eq!(buffer.len(), 640 * 320);
    assert_eq!(buffer[0], 0xFFFFFF);
    assert_eq!(buffer[9 * 640 + 39], 0xFFFFFF);
    assert_eq!(buffer[40], 0);
    // Pixel (1, 1) is off, pixel (0, 1) on.
    assert_eq!(buffer[10 * 640 + 15], 0);
    assert_eq!(buffer[19 * 640 + 9], 0xFFFFFF);
    assert_eq!(buffer[319 * 640 + 639], 0);
}

#[test]
fn decode_selects_instructions() {
    assert_eq!(decode(0x00E0), Instruction::ClearDisplay);
    assert_eq!(decode(0x00EE), Instruction::Return);
    assert_eq!(decode(0x8AB4), Instruction::AddRegisters { x: 10, y: 11 });
    assert_eq!(decode(0xD125), Instruction::DrawSprite { x: 1, y: 2, n: 5 });
    assert_eq!(decode(0xF165), Instruction::LoadRegisters { x: 1 });
    assert_eq!(decode(0xB123), Instruction::JumpWithOffset { addr: 0x123 });
    assert_eq!(decode(0x8AB8), Instruction::Unknown { opcode: 0x8AB8 });
    assert_eq!(decode(0xE1FF), Instruction::Unknown { opcode: 0xE1FF });
}

#[test]
fn faulting_cycle_still_ticks_timers() {
    let mut c = machine_with(&[0x6A, 0x05, 0xFA, 0x15, 0x00, 0xEE]);
    run(&mut c, 2);
    assert_eq!(c.delay_timer(), 4);
    assert_eq!(c.emulate_cycle_with(0), Err(Fault::StackUnderflow));
    assert_eq!(c.delay_timer(), 3);
    assert_eq!(c.pc(), 0x204);
    assert_eq!(c.register(0xA), 5);
}

#[test]
fn fetch_fault_still_ticks_timers() {
    let mut c = machine_with(&[0x6A, 0x03, 0xFA, 0x18, 0x1F, 0xFF]);
    run(&mut c, 3);
    assert_eq!(c.sound_timer(), 1);
    assert_eq!(c.emulate_cycle_with(0), Err(Fault::AddressOutOfRange));
    assert_eq!(c.sound_timer(), 0);
    assert_eq!(c.pc(), 0xFFF);
}

#[test]
fn machine_seeded_from_the_system() {
    if let Some(c) = Chip8::try_new() {
        assert_eq!(c.pc(), 0x200);
        assert_eq!(c.memory_at(0), 0xF0);
    }
}
