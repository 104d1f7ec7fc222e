//! Jumps, calls, returns, conditional skips and the keypad instructions.

use chip8_core::{Emu, Fault};

#[test]
fn test_opcode_0000_nop() {
    let mut emu = Emu::new();
    emu.set_program_counter(0x300);

    assert_eq!(emu.execute(0x0000), Err(Fault::UnimplementedOpcode(0x0000)));

    assert_eq!(emu.program_counter(), 0x300);
}

#[test]
fn test_opcode_00ee_ret() {
    let mut emu = Emu::new();

    emu.push(0x456).unwrap();
    emu.set_program_counter(0x300);

    emu.execute(0x00EE).unwrap();

    assert_eq!(emu.program_counter(), 0x456);
    assert_eq!(emu.stack_pointer(), 0);
}

#[test]
fn test_opcode_1nnn_jump() {
    let mut emu = Emu::new();

    emu.execute(0x1ABC).unwrap();

    assert_eq!(emu.program_counter(), 0xABC);
}

#[test]
fn test_opcode_2nnn_call() {
    let mut emu = Emu::new();
    emu.set_program_counter(0x300);

    emu.execute(0x2DEF).unwrap();

    assert_eq!(emu.program_counter(), 0xDEF);
    assert_eq!(emu.stack_pointer(), 1);
    assert_eq!(emu.pop().unwrap(), 0x300);
}

#[test]
fn test_opcode_bnnn_jump_v0_offset() {
    let mut emu = Emu::new();
    emu.set_register(0, 0x50);

    emu.execute(0xB123).unwrap();

    assert_eq!(emu.program_counter(), 0x173);
}

#[test]
fn test_opcode_bnnn_jump_v0_offset_zero() {
    let mut emu = Emu::new();
    emu.set_register(0, 0x00);

    emu.execute(0xB000).unwrap();

    assert_eq!(emu.program_counter(), 0x000);
}

#[test]
fn test_opcode_4xnn_skip_when_vx_not_equal_nn() {
    let mut emu = Emu::new();
    emu.set_program_counter(0x200);

    emu.write_memory(0x200, 0x4B);
    emu.write_memory(0x201, 0x77);

    emu.set_register(0xB, 0x42);

    emu.tick().unwrap();

    assert_eq!(emu.program_counter(), 0x200 + 4); // +2 (fetch) and +2 (skip)
}

#[test]
fn test_opcode_4xnn_no_skip_when_vs_equal_nn() {
    let mut emu = Emu::new();
    emu.set_program_counter(0x300);
    emu.set_register(0x4, 0xAB);

    emu.execute(0x45AB).unwrap();

    assert_eq!(emu.program_counter(), 0x300 + 2); // normal jump
}

#[test]
fn test_opcode_5xy0_skip_when_vx_equal_vy() {
    let mut emu = Emu::new();
    emu.set_program_counter(0x200);

    emu.write_memory(0x200, 0x51);
    emu.write_memory(0x201, 0xA0);

    emu.set_register(0x1, 0xFE);
    emu.set_register(0xA, 0xFE);

    emu.tick().unwrap();

    assert_eq!(emu.program_counter(), 0x200 + 4); // +2 (fetch), +2 (skip)
}

#[test]
fn test_opcode_5xy0_skip_when_vx_not_equal_vy() {
    let mut emu = Emu::new();
    emu.set_program_counter(0x200);

    emu.write_memory(0x200, 0x51);
    emu.write_memory(0x201, 0xA0);

    emu.set_register(0x1, 0x21);
    emu.set_register(0xA, 0x37);

    emu.tick().unwrap();

    assert_eq!(emu.program_counter(), 0x200 + 2);
}

#[test]
fn test_opcode_9xy0_no_skip_when_vx_equal_vy() {
    let mut emu = Emu::new();
    emu.set_program_counter(0x200);

    emu.write_memory(0x200, 0x9B);
    emu.write_memory(0x201, 0xC0);

    emu.set_register(0xB, 0x21);
    emu.set_register(0xC, 0x21);

    emu.tick().unwrap();

    assert_eq!(emu.program_counter(), 0x200 + 2);
}

#[test]
fn test_opcode_9xy0_skip_when_vx_not_equal_vy() {
    let mut emu = Emu::new();
    emu.set_program_counter(0x200);

    emu.write_memory(0x200, 0x99);
    emu.write_memory(0x201, 0x80);

    emu.set_register(0x9, 0x21);
    emu.set_register(0x8, 0x37);

    emu.tick().unwrap();

    assert_eq!(emu.program_counter(), 0x200 + 4);
}

#[test]
fn test_opcode_ex9e_skip_when_key_pressed() {
    let mut emu = Emu::new();
    emu.set_program_counter(0x400);

    emu.write_memory(0x400, 0xE4);
    emu.write_memory(0x401, 0x9E);

    emu.set_register(0x4, 0x9);
    emu.set_key(9, true);

    emu.tick().unwrap();

    assert_eq!(emu.program_counter(), 0x400 + 4);
}

#[test]
fn test_opcode_ex9e_no_skip_when_key_not_pressed() {
    let mut emu = Emu::new();
    emu.set_program_counter(0x300);

    emu.write_memory(0x300, 0xED);
    emu.write_memory(0x301, 0x9E);

    emu.set_register(0xD, 0x2);
    emu.set_key(2, false);

    emu.tick().unwrap();

    assert_eq!(emu.program_counter(), 0x300 + 2);
}

#[test]
fn test_opcode_ex9e_no_skip_when_key_value_out_of_range() {
    let mut emu = Emu::new();
    emu.set_program_counter(0x400);

    emu.write_memory(0x400, 0xE1);
    emu.write_memory(0x401, 0x9E);

    emu.set_register(0x1, 0xFF); // out of range 0-15

    emu.tick().unwrap();

    assert_eq!(emu.program_counter(), 0x400 + 2);
}

#[test]
fn test_opcode_fx0a_stores_key_when_pressed() {
    let mut emu = Emu::new();
    emu.set_program_counter(0x200);

    emu.write_memory(0x200, 0xF3);
    emu.write_memory(0x201, 0x0A);

    emu.set_key(0xC, true);

    emu.tick().unwrap();

    assert_eq!(emu.registers()[0x3], 0xC);
    assert_eq!(emu.program_counter(), 0x200 + 2);
}

#[test]
fn test_opcode_fx0a_repeats_when_no_key_pressed() {
    let mut emu = Emu::new();
    emu.set_program_counter(0x200);

    emu.write_memory(0x200, 0xF8);
    emu.write_memory(0x201, 0x0A);

    emu.tick().unwrap();

    assert_eq!(emu.program_counter(), 0x200); // reversed by 2
}

#[test]
fn test_opcode_fx0a_takes_first_pressed_key() {
    let mut emu = Emu::new();
    emu.set_key(5, true);
    emu.set_key(11, true);

    emu.execute(0xFE0A).unwrap(); // store to V14

    assert_eq!(emu.registers()[0xE], 5); // takes key with lowest index
}
