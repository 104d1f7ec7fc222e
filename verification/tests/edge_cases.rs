//! Corner cases of the instructions: the flag register as an operand,
//! wrapping addresses, the edges of the display and of memory.

use chip8_core::{Emu, FONTSET, SCREEN_WIDTH};

fn machine_with(registers: &[(usize, u8)]) -> Emu {
    let mut emu = Emu::new();
    for &(x, value) in registers {
        emu.set_register(x, value);
    }
    emu
}

#[test]
fn add_into_the_flag_register_keeps_the_carry() {
    let mut emu = machine_with(&[(0xF, 0xFF), (1, 0x01)]);
    emu.execute(0x8F14).unwrap();
    assert_eq!(emu.registers()[0xF], 1);

    let mut emu = machine_with(&[(0xF, 0x10), (1, 0x01)]);
    emu.execute(0x8F14).unwrap();
    assert_eq!(emu.registers()[0xF], 0);
}

#[test]
fn subtract_into_the_flag_register_keeps_the_difference() {
    let mut emu = machine_with(&[(0xF, 0x10), (1, 0x01)]);
    emu.execute(0x8F15).unwrap();
    assert_eq!(emu.registers()[0xF], 0x0F);

    let mut emu = machine_with(&[(0xF, 0x01), (1, 0x05)]);
    emu.execute(0x8F17).unwrap();
    assert_eq!(emu.registers()[0xF], 0x04);

    let mut emu = machine_with(&[(0xF, 0x05), (1, 0x01)]);
    emu.execute(0x8F17).unwrap();
    assert_eq!(emu.registers()[0xF], 0xFC);
}

#[test]
fn subtract_with_the_flag_register_as_second_operand() {
    let mut emu = machine_with(&[(1, 0x30), (0xF, 0x10)]);
    emu.execute(0x81F5).unwrap();
    assert_eq!(emu.registers()[1], 0x20);
    assert_eq!(emu.registers()[0xF], 1);

    let mut emu = machine_with(&[(1, 0x30), (0xF, 0x40)]);
    emu.execute(0x81F7).unwrap();
    assert_eq!(emu.registers()[1], 0x10);
    assert_eq!(emu.registers()[0xF], 1);
}

#[test]
fn shift_right_takes_its_operand_from_the_second_register() {
    let mut emu = machine_with(&[(1, 0xAA), (2, 0x05)]);
    emu.execute(0x8126).unwrap();
    assert_eq!(emu.registers()[1], 0x02);
    assert_eq!(emu.registers()[2], 0x05);
    assert_eq!(emu.registers()[0xF], 1);

    let mut emu = machine_with(&[(1, 0xAA), (2, 0xFE)]);
    emu.execute(0x8126).unwrap();
    assert_eq!(emu.registers()[1], 0x7F);
    assert_eq!(emu.registers()[0xF], 0);
}

#[test]
fn shift_left_takes_its_operand_from_the_second_register() {
    let mut emu = machine_with(&[(1, 0x01), (2, 0xC1)]);
    emu.execute(0x812E).unwrap();
    assert_eq!(emu.registers()[1], 0x82);
    assert_eq!(emu.registers()[2], 0xC1);
    assert_eq!(emu.registers()[0xF], 1);

    let mut emu = machine_with(&[(1, 0xFF), (2, 0x41)]);
    emu.execute(0x812E).unwrap();
    assert_eq!(emu.registers()[1], 0x82);
    assert_eq!(emu.registers()[0xF], 0);
}

#[test]
fn shift_into_the_flag_register_shifts_the_flag() {
    let mut emu = machine_with(&[(1, 0xFF)]);
    emu.execute(0x8F16).unwrap();
    assert_eq!(emu.registers()[0xF], 0);

    let mut emu = machine_with(&[(1, 0x80)]);
    emu.execute(0x8F1E).unwrap();
    assert_eq!(emu.registers()[0xF], 2);

    let mut emu = machine_with(&[(1, 0x7F)]);
    emu.execute(0x8F1E).unwrap();
    assert_eq!(emu.registers()[0xF], 0);
}

#[test]
fn shift_of_the_flag_register_into_another_register() {
    let mut emu = machine_with(&[(0xF, 0x07)]);
    emu.execute(0x83F6).unwrap();
    assert_eq!(emu.registers()[3], 0x03);
    assert_eq!(emu.registers()[0xF], 1);

    let mut emu = machine_with(&[(0xF, 0x81)]);
    emu.execute(0x83FE).unwrap();
    assert_eq!(emu.registers()[3], 0x02);
    assert_eq!(emu.registers()[0xF], 1);
}

#[test]
fn shift_of_a_register_onto_itself() {
    let mut emu = machine_with(&[(4, 0x03)]);
    emu.execute(0x8446).unwrap();
    assert_eq!(emu.registers()[4], 0x01);
    assert_eq!(emu.registers()[0xF], 1);
}

#[test]
fn logic_operations_leave_the_flag_register_alone() {
    let mut emu = machine_with(&[(1, 0b1100), (2, 0b1010), (0xF, 0x77)]);
    emu.execute(0x8121).unwrap();
    assert_eq!(emu.registers()[1], 0b1110);
    emu.set_register(1, 0b1100);
    emu.execute(0x8122).unwrap();
    assert_eq!(emu.registers()[1], 0b1000);
    emu.set_register(1, 0b1100);
    emu.execute(0x8123).unwrap();
    assert_eq!(emu.registers()[1], 0b0110);
    emu.execute(0x8120).unwrap();
    assert_eq!(emu.registers()[1], 0b1010);
    assert_eq!(emu.registers()[0xF], 0x77);
    assert_eq!(emu.registers()[2], 0b1010);
}

#[test]
fn skip_wraps_at_the_end_of_the_address_space() {
    let mut emu = machine_with(&[(1, 0x42)]);
    emu.set_program_counter(0xFFFE);
    emu.execute(0x3142).unwrap();
    assert_eq!(emu.program_counter(), 0x0000);

    emu.set_program_counter(0xFFFF);
    emu.execute(0x4100).unwrap();
    assert_eq!(emu.program_counter(), 0x0001);
}

#[test]
fn skip_on_immediate_compares_the_whole_byte() {
    let mut emu = machine_with(&[(1, 0x42)]);
    emu.execute(0x3142).unwrap();
    assert_eq!(emu.program_counter(), 0x202);
    emu.execute(0x3143).unwrap();
    assert_eq!(emu.program_counter(), 0x202);
    emu.execute(0x4142).unwrap();
    assert_eq!(emu.program_counter(), 0x202);
    emu.execute(0x4102).unwrap();
    assert_eq!(emu.program_counter(), 0x204);
}

#[test]
fn key_wait_rewind_wraps_at_the_start_of_the_address_space() {
    let mut emu = Emu::new();
    emu.set_program_counter(0x0001);
    emu.execute(0xF00A).unwrap();
    assert_eq!(emu.program_counter(), 0xFFFF);
}

#[test]
fn jump_with_offset_can_leave_memory() {
    let mut emu = machine_with(&[(0, 0xFF)]);
    emu.execute(0xBFFF).unwrap();
    assert_eq!(emu.program_counter(), 0x10FE);
}

#[test]
fn key_skip_ignores_key_numbers_above_fifteen() {
    let mut emu = Emu::new();
    for key in 0..16 {
        emu.set_key(key, true);
    }
    for value in [16u8, 17, 0x1F, 0x80, 0xFF] {
        emu.set_register(5, value);
        emu.set_program_counter(0x300);
        emu.execute(0xE59E).unwrap();
        assert_eq!(emu.program_counter(), 0x300);
    }
    emu.set_register(5, 15);
    emu.execute(0xE59E).unwrap();
    assert_eq!(emu.program_counter(), 0x302);
}

#[test]
fn call_pushes_the_address_after_the_call() {
    let mut emu = Emu::new();
    emu.load_program(&[0x23, 0x00]);
    emu.write_memory(0x300, 0x00);
    emu.write_memory(0x301, 0xEE);
    emu.step().unwrap();
    assert_eq!(emu.program_counter(), 0x300);
    assert_eq!(emu.stack_pointer(), 1);
    assert_eq!(emu.stack()[0], 0x202);
    emu.step().unwrap();
    assert_eq!(emu.program_counter(), 0x202);
    assert_eq!(emu.stack_pointer(), 0);
    assert_eq!(emu.stack()[0], 0x202);
}

#[test]
fn sprite_position_is_read_before_the_flag_is_cleared() {
    let mut emu = machine_with(&[(0xF, 10), (1, 2)]);
    emu.set_index_register(0x300);
    emu.write_memory(0x300, 0x80);
    emu.execute(0xDF11).unwrap();
    assert!(emu.framebuffer()[2 * SCREEN_WIDTH + 10]);
    assert_eq!(emu.framebuffer().iter().filter(|&&p| p).count(), 1);
    assert_eq!(emu.registers()[0xF], 0);
}

#[test]
fn sprite_coordinates_are_taken_modulo_the_display_size() {
    let mut emu = machine_with(&[(0, 255), (1, 255)]);
    emu.set_index_register(0x300);
    emu.write_memory(0x300, 0xC0);
    emu.write_memory(0x301, 0x80);
    emu.execute(0xD012).unwrap();
    let lit: Vec<usize> = (0..2048).filter(|&cell| emu.framebuffer()[cell]).collect();
    assert_eq!(lit, vec![63, 31 * 64, 31 * 64 + 63]);
}

#[test]
fn sprite_of_fifteen_rows_draws_a_font_glyph_column() {
    let mut emu = machine_with(&[(0, 0), (1, 0)]);
    emu.set_index_register(0);
    emu.execute(0xD01F).unwrap();
    for row in 0..15 {
        for col in 0..8 {
            let expected = (FONTSET[row] >> (7 - col)) & 1 == 1;
            assert_eq!(emu.framebuffer()[row * 64 + col], expected);
            assert_eq!(emu.pixel(col, row), expected);
        }
    }
    assert_eq!(emu.registers()[0xF], 0);
}

#[test]
fn drawing_a_sprite_twice_restores_the_display() {
    let mut emu = machine_with(&[(0, 61), (1, 30)]);
    emu.set_index_register(5);
    emu.set_pixel(17, true);
    emu.set_pixel(30 * 64 + 62, true);
    let before = emu.framebuffer().to_vec();
    emu.execute(0xD015).unwrap();
    assert_ne!(emu.framebuffer().to_vec(), before);
    emu.execute(0xD015).unwrap();
    assert_eq!(emu.framebuffer().to_vec(), before);
    assert_eq!(emu.registers()[0xF], 1);
}

#[test]
fn drawing_changes_neither_memory_nor_other_registers() {
    let mut emu = machine_with(&[(0, 3), (1, 4), (2, 9)]);
    emu.set_index_register(0);
    let memory = emu.memory().to_vec();
    emu.execute(0xD015).unwrap();
    assert_eq!(emu.memory().to_vec(), memory);
    assert_eq!(emu.registers()[..3], [3, 4, 9]);
    assert_eq!(emu.index_register(), 0);
    assert_eq!(emu.program_counter(), 0x200);
}

#[test]
fn clear_screen_turns_every_pixel_off() {
    let mut emu = Emu::new();
    for cell in 0..2048 {
        emu.set_pixel(cell, true);
    }
    emu.execute(0x00E0).unwrap();
    assert!(emu.framebuffer().iter().all(|&p| !p));
}

#[test]
fn load_program_copies_the_bytes_above_the_font() {
    let mut emu = Emu::new();
    emu.load_program(&[0xDE, 0xAD, 0xBE, 0xEF]);
    assert_eq!(emu.memory()[..80], FONTSET);
    assert!(emu.memory()[80..0x200].iter().all(|&b| b == 0));
    assert_eq!(emu.memory()[0x200..0x204], [0xDE, 0xAD, 0xBE, 0xEF]);
    assert!(emu.memory()[0x204..].iter().all(|&b| b == 0));
    assert_eq!(emu.program_counter(), 0x200);
}

#[test]
fn load_program_accepts_an_empty_program() {
    let mut emu = Emu::new();
    emu.load_program(&[]);
    assert_eq!(emu.memory().to_vec(), Emu::new().memory().to_vec());
}

#[test]
fn load_program_fills_memory_to_the_last_byte() {
    let program: Vec<u8> = (0..3584u32).map(|i| (i % 251) as u8 + 1).collect();
    let mut emu = Emu::new();
    emu.load_program(&program);
    assert_eq!(emu.memory()[0x200..], program[..]);
    assert_eq!(emu.memory()[..80], FONTSET);
    assert_eq!(emu.memory()[0xFFF], (3583 % 251) as u8 + 1);
}

#[test]
fn load_program_overwrites_an_earlier_program() {
    let mut emu = Emu::new();
    emu.load_program(&[1, 2, 3, 4]);
    emu.load_program(&[9, 8]);
    assert_eq!(emu.memory()[0x200..0x205], [9, 8, 3, 4, 0]);
}

#[test]
fn set_key_presses_and_releases_one_key() {
    let mut emu = Emu::new();
    emu.set_key(0xA, true);
    let mut expected = [false; 16];
    expected[0xA] = true;
    assert_eq!(emu.keypad(), &expected);
    emu.set_key(0xA, false);
    assert_eq!(emu.keypad(), &[false; 16]);
}

#[test]
fn pixel_is_addressed_by_column_and_row() {
    let mut emu = Emu::new();
    emu.set_pixel(5 * 64 + 9, true);
    assert!(emu.pixel(9, 5));
    assert!(!emu.pixel(5, 9));
    emu.set_pixel(2047, true);
    assert!(emu.pixel(63, 31));
}

#[test]
fn delay_timer_is_read_and_written_through_registers() {
    let mut emu = machine_with(&[(3, 0x44)]);
    emu.execute(0xF315).unwrap();
    assert_eq!(emu.delay_timer(), 0x44);
    emu.execute(0xF907).unwrap();
    assert_eq!(emu.registers()[9], 0x44);
    emu.execute(0xF318).unwrap();
    assert_eq!(emu.sound_timer(), 0x44);
}

#[test]
fn index_register_takes_the_low_twelve_bits() {
    let mut emu = Emu::new();
    emu.execute(0xAFFF).unwrap();
    assert_eq!(emu.index_register(), 0x0FFF);
    emu.execute(0xA000).unwrap();
    assert_eq!(emu.index_register(), 0x0000);
}
