use chip8_core::{Emu, Fault, Outcome, DISPLAY_SIZE, SCREEN_WIDTH};

fn with_program(bytes: &[u8]) -> Emu {
    let mut emu = Emu::new();
    assert_eq!(emu.load(bytes), Ok(()));
    emu
}

fn run(emu: &mut Emu, steps: usize) {
    for _ in 0..steps {
        assert_eq!(emu.tick_with(0), Ok(Outcome::Executed));
    }
}

fn pixel(emu: &Emu, x: usize, y: usize) -> bool {
    emu.get_display()[y * SCREEN_WIDTH + x]
}

fn lit_pixels(emu: &Emu) -> usize {
    emu.get_display().iter().filter(|p| **p).count()
}

#[test]
fn new_machine_has_font_and_start_address() {
    let emu = Emu::new();
    assert_eq!(emu.pc(), 0x200);
    assert_eq!(emu.memory(0), 0xF0);
    assert_eq!(emu.memory(5), 0x20);
    assert_eq!(emu.memory(79), 0x80);
    assert_eq!(emu.memory(80), 0);
    assert_eq!(emu.stack_depth(), 0);
    assert!(emu.is_running());
    assert_eq!(lit_pixels(&emu), 0);
    assert_eq!(emu.get_display().len(), DISPLAY_SIZE);
}

#[test]
fn clear_screen_clears_set_pixels_and_advances_counter() {
    // 0x200: clear; 0x202: I = 0; 0x204: draw the digit 0; 0x206: jump back.
    let mut emu = with_program(&[0x00, 0xE0, 0xA0, 0x00, 0xD0, 0x05, 0x12, 0x00]);
    run(&mut emu, 4);
    assert_eq!(emu.pc(), 0x200);
    assert!(lit_pixels(&emu) > 0);
    run(&mut emu, 1);
    assert_eq!(lit_pixels(&emu), 0);
    assert_eq!(emu.pc(), 0x202);
}

#[test]
fn add_immediate_sets_and_wraps() {
    let mut emu = with_program(&[0x6A, 0x12, 0x7A, 0x01]);
    run(&mut emu, 2);
    assert_eq!(emu.register(0xA), 0x13);

    let mut emu = with_program(&[0x6A, 0xFF, 0x7A, 0x01]);
    run(&mut emu, 2);
    assert_eq!(emu.register(0xA), 0x00);
    assert_eq!(emu.register(0xF), 0);

    let mut emu = with_program(&[0x6A, 0xFF, 0x7A, 0xFF]);
    run(&mut emu, 2);
    assert_eq!(emu.register(0xA), 0xFE);
    assert_eq!(emu.register(0xF), 0);
}

#[test]
fn add_registers_sets_carry() {
    let mut emu = with_program(&[0x60, 0xFF, 0x61, 0x01, 0x80, 0x14]);
    run(&mut emu, 3);
    assert_eq!(emu.register(0), 0x00);
    assert_eq!(emu.register(0xF), 1);

    let mut emu = with_program(&[0x60, 0x10, 0x61, 0x01, 0x80, 0x14]);
    run(&mut emu, 3);
    assert_eq!(emu.register(0), 0x11);
    assert_eq!(emu.register(0xF), 0);
}

#[test]
fn subtract_flags_no_borrow() {
    let mut emu = with_program(&[0x60, 0x05, 0x61, 0x06, 0x80, 0x15]);
    run(&mut emu, 3);
    assert_eq!(emu.register(0), 0xFF);
    assert_eq!(emu.register(0xF), 0);

    let mut emu = with_program(&[0x60, 0x06, 0x61, 0x05, 0x80, 0x15]);
    run(&mut emu, 3);
    assert_eq!(emu.register(0), 0x01);
    assert_eq!(emu.register(0xF), 1);

    let mut emu = with_program(&[0x60, 0x06, 0x61, 0x05, 0x80, 0x17]);
    run(&mut emu, 3);
    assert_eq!(emu.register(0), 0xFF);
    assert_eq!(emu.register(0xF), 0);
}

#[test]
fn shifts_report_the_bit_shifted_out() {
    let mut emu = with_program(&[0x60, 0x05, 0x80, 0x06]);
    run(&mut emu, 2);
    assert_eq!(emu.register(0), 0x02);
    assert_eq!(emu.register(0xF), 1);

    let mut emu = with_program(&[0x60, 0x81, 0x80, 0x0E]);
    run(&mut emu, 2);
    assert_eq!(emu.register(0), 0x02);
    assert_eq!(emu.register(0xF), 1);

    let mut emu = with_program(&[0x60, 0x41, 0x80, 0x0E]);
    run(&mut emu, 2);
    assert_eq!(emu.register(0), 0x82);
    assert_eq!(emu.register(0xF), 0);
}

#[test]
fn logic_and_moves() {
    let mut emu = with_program(&[
        0x60, 0x0C, 0x61, 0x0A, 0x82, 0x00, 0x82, 0x11, 0x83, 0x00, 0x83, 0x12, 0x84, 0x00,
        0x84, 0x13,
    ]);
    run(&mut emu, 8);
    assert_eq!(emu.register(2), 0x0E);
    assert_eq!(emu.register(3), 0x08);
    assert_eq!(emu.register(4), 0x06);
}

#[test]
fn flag_register_as_target_keeps_the_flag() {
    let mut emu = with_program(&[0x6F, 0xFF, 0x61, 0x01, 0x8F, 0x14]);
    run(&mut emu, 3);
    assert_eq!(emu.register(0xF), 1);
}

#[test]
fn call_then_return_restores_counter() {
    let mut rom = vec![0u8; 0x102];
    rom[0] = 0x23;
    rom[1] = 0x00;
    rom[0x100] = 0x00;
    rom[0x101] = 0xEE;
    let mut emu = with_program(&rom);
    run(&mut emu, 1);
    assert_eq!(emu.pc(), 0x300);
    assert_eq!(emu.stack_depth(), 1);
    run(&mut emu, 1);
    assert_eq!(emu.pc(), 0x202);
    assert_eq!(emu.stack_depth(), 0);
}

#[test]
fn draw_wraps_at_right_and_bottom_edges() {
    // V0 = 62, V1 = 30, I = 0 (the digit 0), draw five rows.
    let mut emu = with_program(&[0x60, 0x3E, 0x61, 0x1E, 0xA0, 0x00, 0xD0, 0x15]);
    run(&mut emu, 4);
    assert_eq!(emu.register(0xF), 0);
    // Row 0 of the digit is 0xF0: four pixels from column 62 wrap to 0 and 1.
    assert!(pixel(&emu, 62, 30));
    assert!(pixel(&emu, 63, 30));
    assert!(pixel(&emu, 0, 30));
    assert!(pixel(&emu, 1, 30));
    assert!(!pixel(&emu, 2, 30));
    // Rows 2 to 4 wrap to the top: 0x90 sets columns 62 and 1.
    assert!(pixel(&emu, 62, 0));
    assert!(!pixel(&emu, 63, 0));
    assert!(pixel(&emu, 1, 0));
    assert!(pixel(&emu, 62, 2));
    assert!(pixel(&emu, 1, 2));
    assert_eq!(lit_pixels(&emu), 14);
}

#[test]
fn drawing_twice_restores_framebuffer_and_flags_collision() {
    let mut emu = with_program(&[0x60, 0x3E, 0x61, 0x1E, 0xA0, 0x0A, 0xD0, 0x15, 0xD0, 0x15]);
    run(&mut emu, 4);
    let once: Vec<bool> = emu.get_display().to_vec();
    assert!(once.iter().any(|p| *p));
    assert_eq!(emu.register(0xF), 0);
    run(&mut emu, 1);
    assert_eq!(lit_pixels(&emu), 0);
    assert_eq!(emu.register(0xF), 1);
}

#[test]
fn timers_count_down_and_stop_at_zero() {
    let mut emu = with_program(&[0x60, 0x02, 0xF0, 0x15, 0x61, 0x01, 0xF1, 0x18, 0xF2, 0x07]);
    run(&mut emu, 4);
    assert_eq!(emu.delay_timer(), 2);
    assert_eq!(emu.sound_timer(), 1);
    emu.tick_timers();
    assert_eq!(emu.delay_timer(), 1);
    assert_eq!(emu.sound_timer(), 0);
    run(&mut emu, 1);
    assert_eq!(emu.register(2), 1);
    emu.tick_timers();
    emu.tick_timers();
    emu.tick_timers();
    assert_eq!(emu.delay_timer(), 0);
    assert_eq!(emu.sound_timer(), 0);
}

#[test]
fn reset_after_execution_equals_fresh_machine() {
    let mut emu = with_program(&[
        0x60, 0x3E, 0xA0, 0x05, 0xD0, 0x05, 0x61, 0x09, 0xF1, 0x15, 0xF1, 0x18, 0x22, 0x00,
    ]);
    run(&mut emu, 7);
    emu.keypress(3, true);
    emu.reset();
    let fresh = Emu::new();
    assert_eq!(emu.pc(), fresh.pc());
    assert_eq!(emu.index_register(), fresh.index_register());
    assert_eq!(emu.delay_timer(), fresh.delay_timer());
    assert_eq!(emu.sound_timer(), fresh.sound_timer());
    assert_eq!(emu.stack_depth(), fresh.stack_depth());
    assert_eq!(emu.is_running(), fresh.is_running());
    for x in 0..16 {
        assert_eq!(emu.register(x), fresh.register(x));
    }
    for a in 0..4096 {
        assert_eq!(emu.memory(a), fresh.memory(a));
    }
    assert_eq!(emu.get_display().to_vec(), fresh.get_display().to_vec());
    // No key is left pressed: a key wait spins.
    assert_eq!(emu.load(&[0xF0, 0x0A]), Ok(()));
    run(&mut emu, 1);
    assert_eq!(emu.pc(), 0x200);
}

#[test]
fn counter_stays_even_across_steps() {
    let mut emu = with_program(&[0x60, 0x01, 0x30, 0x01, 0x00, 0x00, 0x12, 0x08, 0xA1, 0x23]);
    for _ in 0..6 {
        assert_eq!(emu.tick_with(0), Ok(Outcome::Executed));
        assert_eq!(emu.pc() % 2, 0);
        assert!(emu.pc() < 4096);
    }
}

#[test]
fn fetch_reads_big_endian_and_advances() {
    let mut emu = with_program(&[0xAB, 0xCD]);
    assert_eq!(emu.fetch(), Ok(0xABCD));
    assert_eq!(emu.pc(), 0x202);
}

#[test]
fn fetch_past_end_of_memory_faults() {
    // Jump to 0xFFE, the last full opcode; it jumps to itself plus nothing.
    let mut rom = vec![0u8; 4096 - 0x200];
    rom[0] = 0x1F;
    rom[1] = 0xFE;
    let last = rom.len() - 2;
    rom[last] = 0x00;
    rom[last + 1] = 0x00;
    let mut emu = with_program(&rom);
    run(&mut emu, 2);
    assert_eq!(emu.pc(), 0x1000);
    assert_eq!(emu.fetch(), Err(Fault::AddressOutOfRange));
    assert_eq!(emu.tick_with(0), Err(Fault::AddressOutOfRange));
    assert!(!emu.is_running());
    assert_eq!(emu.pc(), 0x1000);
    assert_eq!(emu.tick_with(0), Err(Fault::Halted));
}

#[test]
fn stack_overflow_halts() {
    let mut emu = with_program(&[0x22, 0x00]);
    run(&mut emu, 16);
    assert_eq!(emu.stack_depth(), 16);
    assert_eq!(emu.tick_with(0), Err(Fault::StackOverflow));
    assert_eq!(emu.stack_depth(), 16);
    assert_eq!(emu.pc(), 0x200);
    assert!(!emu.is_running());
    assert_eq!(emu.tick_with(0), Err(Fault::Halted));
    emu.reset();
    assert!(emu.is_running());
}

#[test]
fn stack_underflow_halts() {
    let mut emu = with_program(&[0x00, 0xEE]);
    assert_eq!(emu.tick_with(0), Err(Fault::StackUnderflow));
    assert_eq!(emu.pc(), 0x200);
    assert!(!emu.is_running());
}

#[test]
fn push_and_pop_directly() {
    let mut emu = Emu::new();
    assert_eq!(emu.pop(), Err(Fault::StackUnderflow));
    for k in 0..16u16 {
        assert_eq!(emu.push(0x300 + k), Ok(()));
    }
    assert_eq!(emu.push(0x400), Err(Fault::StackOverflow));
    assert_eq!(emu.pop(), Ok(0x30F));
    assert_eq!(emu.stack_depth(), 15);
}

#[test]
fn sprite_reaching_past_memory_faults() {
    let mut emu = with_program(&[0xAF, 0xFF, 0xD0, 0x02]);
    run(&mut emu, 1);
    assert_eq!(emu.tick_with(0), Err(Fault::AddressOutOfRange));
    assert_eq!(lit_pixels(&emu), 0);
    assert_eq!(emu.pc(), 0x202);

    let mut emu = with_program(&[0xAF, 0xFF, 0xD0, 0x01]);
    run(&mut emu, 2);
}

#[test]
fn key_beyond_keypad_faults() {
    let mut emu = with_program(&[0x60, 0x20, 0xE0, 0x9E]);
    run(&mut emu, 1);
    assert_eq!(emu.tick_with(0), Err(Fault::KeyOutOfRange));
}

#[test]
fn oversized_rom_is_refused_untouched() {
    let mut emu = Emu::new();
    let rom = vec![0xAAu8; 4096 - 0x200 + 1];
    assert_eq!(emu.load(&rom), Err(Fault::RomTooLarge));
    assert_eq!(emu.memory(0x200), 0);
    assert_eq!(emu.memory(4095), 0);
    let rom = vec![0xAAu8; 4096 - 0x200];
    assert_eq!(emu.load(&rom), Ok(()));
    assert_eq!(emu.memory(0x200), 0xAA);
    assert_eq!(emu.memory(4095), 0xAA);
    assert_eq!(emu.memory(0x1FF), 0);
}

#[test]
fn unknown_opcode_is_reported_and_changes_nothing_else() {
    let mut emu = with_program(&[0x51, 0x21, 0x80, 0x08, 0xE0, 0x00, 0xF0, 0x33, 0x01, 0x23]);
    assert_eq!(emu.tick_with(0), Ok(Outcome::Unknown(0x5121)));
    assert_eq!(emu.pc(), 0x202);
    assert_eq!(emu.tick_with(0), Ok(Outcome::Unknown(0x8008)));
    assert_eq!(emu.tick_with(0), Ok(Outcome::Unknown(0xE000)));
    assert_eq!(emu.tick_with(0), Ok(Outcome::Unknown(0xF033)));
    assert_eq!(emu.tick_with(0), Ok(Outcome::Unknown(0x0123)));
    assert_eq!(emu.pc(), 0x20A);
    assert!(emu.is_running());
    for x in 0..16 {
        assert_eq!(emu.register(x), 0);
    }
}

#[test]
fn key_wait_spins_until_a_key_is_pressed() {
    let mut emu = with_program(&[0xF3, 0x0A]);
    run(&mut emu, 3);
    assert_eq!(emu.pc(), 0x200);
    emu.keypress(9, true);
    emu.keypress(5, true);
    run(&mut emu, 1);
    assert_eq!(emu.register(3), 5);
    assert_eq!(emu.pc(), 0x202);
}

#[test]
fn key_skips_follow_the_keypad() {
    let mut emu = with_program(&[0x60, 0x07, 0xE0, 0x9E, 0x00, 0x00, 0xE0, 0xA1]);
    emu.keypress(7, true);
    run(&mut emu, 2);
    assert_eq!(emu.pc(), 0x206);
    run(&mut emu, 1);
    assert_eq!(emu.pc(), 0x208);
    emu.keypress(7, false);
    let mut emu2 = with_program(&[0x60, 0x07, 0xE0, 0xA1]);
    run(&mut emu2, 2);
    assert_eq!(emu2.pc(), 0x206);
}

#[test]
fn register_skips() {
    let mut emu = with_program(&[0x60, 0x05, 0x30, 0x05, 0x00, 0x00, 0x40, 0x05, 0x61, 0x05, 0x50, 0x10, 0x00, 0x00, 0x90, 0x10]);
    run(&mut emu, 2);
    assert_eq!(emu.pc(), 0x206);
    run(&mut emu, 1);
    assert_eq!(emu.pc(), 0x208);
    run(&mut emu, 2);
    assert_eq!(emu.pc(), 0x20E);
    run(&mut emu, 1);
    assert_eq!(emu.pc(), 0x210);
}

#[test]
fn random_byte_is_masked() {
    let mut emu = with_program(&[0xC0, 0x0F, 0xC1, 0x00, 0xC2, 0xF0]);
    assert_eq!(emu.tick_with(0xAB), Ok(Outcome::Executed));
    assert_eq!(emu.register(0), 0x0B);
    assert_eq!(emu.tick(), Ok(Outcome::Executed));
    assert_eq!(emu.register(1), 0);
    assert_eq!(emu.tick(), Ok(Outcome::Executed));
    assert_eq!(emu.register(2) & 0x0F, 0);
}

#[test]
fn jumps_and_index_register() {
    let mut emu = with_program(&[0x60, 0x04, 0xB3, 0x00]);
    run(&mut emu, 2);
    assert_eq!(emu.pc(), 0x304);

    let mut emu = with_program(&[0xA1, 0x23, 0x60, 0x10, 0xF0, 0x1E]);
    run(&mut emu, 3);
    assert_eq!(emu.index_register(), 0x133);

    let mut emu = with_program(&[0x14, 0x56]);
    run(&mut emu, 1);
    assert_eq!(emu.pc(), 0x456);
}
