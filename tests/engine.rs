use chip9::{Chip9, Chip9Error, PROGRAM_START};

fn machine(program: &[u8]) -> Chip9 {
    let mut chip = Chip9::new();
    chip.load_program(program).unwrap();
    chip
}

fn run(chip: &mut Chip9, steps: usize) {
    for _ in 0..steps {
        chip.tick().unwrap();
    }
}

#[test]
fn add_reg_sets_carry() {
    let mut chip = machine(&[0x60, 0xFF, 0x61, 0x01, 0x80, 0x14]);
    run(&mut chip, 3);
    assert_eq!(chip.cpu.register(0), 0x00);
    assert_eq!(chip.cpu.register(0xF), 1);
}

#[test]
fn add_reg_without_carry() {
    let mut chip = machine(&[0x60, 0x10, 0x61, 0x20, 0x80, 0x14]);
    run(&mut chip, 3);
    assert_eq!(chip.cpu.register(0), 0x30);
    assert_eq!(chip.cpu.register(0xF), 0);
}

#[test]
fn sub_reg_borrows() {
    let mut chip = machine(&[0x60, 0x05, 0x61, 0x0A, 0x80, 0x15]);
    run(&mut chip, 3);
    assert_eq!(chip.cpu.register(0), 0xFB);
    assert_eq!(chip.cpu.register(0xF), 0);
}

#[test]
fn subn_reg_without_borrow() {
    let mut chip = machine(&[0x60, 0x05, 0x61, 0x0A, 0x80, 0x17]);
    run(&mut chip, 3);
    assert_eq!(chip.cpu.register(0), 0x05);
    assert_eq!(chip.cpu.register(0xF), 1);
}

#[test]
fn shifts_set_flag_to_bit_shifted_out() {
    let mut chip = machine(&[0x60, 0x81, 0x80, 0x06]);
    run(&mut chip, 2);
    assert_eq!(chip.cpu.register(0), 0x40);
    assert_eq!(chip.cpu.register(0xF), 1);
    let mut chip = machine(&[0x60, 0x81, 0x80, 0x0E]);
    run(&mut chip, 2);
    assert_eq!(chip.cpu.register(0), 0x02);
    assert_eq!(chip.cpu.register(0xF), 1);
}

#[test]
fn jump_with_offset() {
    let mut chip = machine(&[0x60, 0x10, 0xB3, 0x00]);
    run(&mut chip, 2);
    assert_eq!(chip.cpu.program_counter(), 0x310);
}

#[test]
fn wait_key_rewinds_until_a_key_is_held() {
    let mut chip = machine(&[0xF3, 0x0A]);
    run(&mut chip, 1);
    assert_eq!(chip.cpu.program_counter(), PROGRAM_START);
    run(&mut chip, 1);
    assert_eq!(chip.cpu.program_counter(), PROGRAM_START);
    chip.keyboard.set_pressed(&[0x9, 0x7]);
    run(&mut chip, 1);
    assert_eq!(chip.cpu.register(3), 0x7);
    assert_eq!(chip.cpu.program_counter(), PROGRAM_START + 2);
}

#[test]
fn store_then_load_registers_round_trip() {
    let mut chip = machine(&[
        0x60, 0x11, 0x61, 0x22, 0x62, 0x33, 0x63, 0x44, 0xA3, 0x00, 0xF2, 0x55, 0x60, 0x00,
        0x61, 0x00, 0x62, 0x00, 0xA3, 0x00, 0xF2, 0x65,
    ]);
    run(&mut chip, 6);
    assert_eq!(chip.cpu.index(), 0x303);
    assert_eq!(chip.cpu.memory().read_byte(0x300), 0x11);
    assert_eq!(chip.cpu.memory().read_byte(0x301), 0x22);
    assert_eq!(chip.cpu.memory().read_byte(0x302), 0x33);
    assert_eq!(chip.cpu.memory().read_byte(0x303), 0x00);
    run(&mut chip, 5);
    assert_eq!(chip.cpu.register(0), 0x11);
    assert_eq!(chip.cpu.register(1), 0x22);
    assert_eq!(chip.cpu.register(2), 0x33);
    assert_eq!(chip.cpu.register(3), 0x44);
    assert_eq!(chip.cpu.index(), 0x303);
}

#[test]
fn bcd_writes_hundreds_tens_ones() {
    let mut chip = machine(&[0x65, 234, 0xA4, 0x00, 0xF5, 0x33]);
    run(&mut chip, 3);
    let mem = chip.cpu.memory();
    assert_eq!(mem.read_byte(0x400), 2);
    assert_eq!(mem.read_byte(0x401), 3);
    assert_eq!(mem.read_byte(0x402), 4);
}

#[test]
fn font_load_points_at_digit_sprite() {
    let mut chip = machine(&[0x6A, 0x0B, 0xFA, 0x29]);
    run(&mut chip, 2);
    assert_eq!(chip.cpu.index(), 55);
    assert_eq!(chip.cpu.memory().read_byte(55), 0xE0);
}

#[test]
fn call_and_return() {
    let mut chip = machine(&[0x22, 0x06, 0x00, 0x00, 0x00, 0x00, 0x00, 0xEE]);
    run(&mut chip, 1);
    assert_eq!(chip.cpu.program_counter(), 0x206);
    assert_eq!(chip.cpu.stack_pointer(), 1);
    run(&mut chip, 1);
    assert_eq!(chip.cpu.program_counter(), 0x202);
    assert_eq!(chip.cpu.stack_pointer(), 0);
}

#[test]
fn skips_compare_register_with_byte() {
    let mut chip = machine(&[0x60, 0x42, 0x30, 0x42]);
    run(&mut chip, 2);
    assert_eq!(chip.cpu.program_counter(), 0x206);
    let mut chip = machine(&[0x60, 0x42, 0x40, 0x42]);
    run(&mut chip, 2);
    assert_eq!(chip.cpu.program_counter(), 0x204);
}

#[test]
fn skip_if_key_reads_key_from_register() {
    let mut chip = machine(&[0x62, 0x05, 0xE2, 0x9E]);
    chip.keyboard.set_pressed(&[5]);
    run(&mut chip, 2);
    assert_eq!(chip.cpu.program_counter(), 0x206);
    let mut chip = machine(&[0x62, 0x05, 0xE2, 0xA1]);
    chip.keyboard.set_pressed(&[5]);
    run(&mut chip, 2);
    assert_eq!(chip.cpu.program_counter(), 0x204);
}

#[test]
fn draw_sets_collision_on_second_draw() {
    let mut chip = machine(&[0x60, 0x3E, 0x61, 0x1F, 0xA0, 0x00, 0xD0, 0x15, 0xD0, 0x15]);
    run(&mut chip, 4);
    assert_eq!(chip.cpu.register(0xF), 0);
    // the glyph of 0 wraps to the left edge and to the top row
    assert!(chip.display.pixel(62, 31));
    assert!(chip.display.pixel(1, 31));
    assert!(chip.display.pixel(62, 0));
    assert!(!chip.display.pixel(2, 31));
    run(&mut chip, 1);
    assert_eq!(chip.cpu.register(0xF), 1);
    assert!(chip.display.grid().iter().all(|p| !p));
}

#[test]
fn random_byte_is_masked() {
    let mut chip = machine(&[0xC4, 0x00, 0xC5, 0x0F]);
    run(&mut chip, 2);
    assert_eq!(chip.cpu.register(4), 0);
    assert!(chip.cpu.register(5) <= 0x0F);
}

#[test]
fn delay_timer_round_trips_through_register() {
    let mut chip = machine(&[0x60, 0x00, 0xF0, 0x15, 0xF1, 0x07, 0xF0, 0x18]);
    run(&mut chip, 4);
    assert_eq!(chip.cpu.register(1), 0);
    assert_eq!(chip.cpu.sound_timer(), 0);
}

#[test]
fn unknown_word_is_an_error() {
    let mut chip = machine(&[0xFF, 0xFF]);
    assert_eq!(chip.tick(), Err(Chip9Error::UnrecognizedOpcode(0xFFFF)));
    assert_eq!(chip.cpu.program_counter(), PROGRAM_START + 2);
}

#[test]
fn oversized_program_is_refused() {
    let mut chip = Chip9::new();
    let image = vec![0u8; 3585];
    assert_eq!(chip.load_program(&image), Err(Chip9Error::ProgramTooLarge(3585, 3584)));
    assert_eq!(chip.cpu.memory().read_byte(PROGRAM_START), 0);
    let image = vec![0xAB; 3584];
    assert_eq!(chip.load_program(&image), Ok(()));
    assert_eq!(chip.cpu.memory().read_byte(0xFFF), 0xAB);
}

#[test]
fn addresses_wrap_at_twelve_bits() {
    let mut chip = machine(&[0x60, 0xFF, 0xAF, 0xFF, 0xF0, 0x1E]);
    run(&mut chip, 3);
    assert_eq!(chip.cpu.index(), 0x0FE);
}

#[test]
fn return_without_call_wraps_stack_pointer() {
    let mut chip = machine(&[0x00, 0xEE]);
    run(&mut chip, 1);
    assert_eq!(chip.cpu.program_counter(), 0x000);
    assert_eq!(chip.cpu.stack_pointer(), 15);
}
