// These tests cover more than the processor alone: they run it together with
// the memory, the display and the keypad.

use chip8::cpu::{Cpu, CpuTrait, FONT};
use chip8::display::{Display, DisplayDebugTrait, DISPLAY_HEIGHT, DISPLAY_WIDTH};
use chip8::keypad::{Keycode, Keypad, KeypadTrait};
use chip8::memory::{Memory, MemoryTrait};

const PROGRAM_START_ADDRESS: usize = 0x200;

fn instantiate_cpu(memory: &mut Memory) -> Cpu {
    instantiate_cpu_with_program(memory, vec![0x1200]) // Filler instruction
}

fn instantiate_cpu_with_program(memory: &mut Memory, instructions: Vec<u16>) -> Cpu {
    let mut instructions_bytes: Vec<u8> = Vec::new();
    for instruction in instructions {
        instructions_bytes.extend(instruction.to_be_bytes().to_vec().into_iter());
    }

    let mut cpu = Cpu::new(600, false, PROGRAM_START_ADDRESS);
    cpu.load_rom(memory, &instructions_bytes).unwrap();
    cpu
}

fn instantiate_memory() -> Memory {
    Memory::new()
}

fn instantiate_display() -> Display {
    Display::new(1)
}

fn instantiate_keypad() -> Keypad {
    Keypad::new()
}

fn execute_instruction(cpu: &mut Cpu, memory: &mut Memory, opcode: u16) {
    let mut keypad = instantiate_keypad();
    let mut display = instantiate_display();

    cpu.opcode = opcode;
    cpu.execute_instruction(memory, &mut keypad, &mut display).unwrap();
}

fn execute_instruction_with_display(
    cpu: &mut Cpu,
    memory: &mut Memory,
    display: &mut Display,
    opcode: u16,
) {
    let mut keypad = instantiate_keypad();

    cpu.opcode = opcode;
    cpu.execute_instruction(memory, &mut keypad, display).unwrap();
}

fn execute_instruction_with_keypad(
    cpu: &mut Cpu,
    memory: &mut Memory,
    keypad: &mut Keypad,
    opcode: u16,
) {
    let mut display = instantiate_display();

    cpu.opcode = opcode;
    cpu.execute_instruction(memory, keypad, &mut display).unwrap();
}

fn test_math(v1: u8, v2: u8, operation: u16, expected_result: u8, expected_vf: u8) {
    let mut memory = instantiate_memory();
    let mut cpu = instantiate_cpu(&mut memory);
    cpu.v[0x0] = v1;
    cpu.v[0x1] = v2;
    cpu.v[0xf] = 0;
    execute_instruction(&mut cpu, &mut memory, 0x8010 + operation);

    assert_eq!(cpu.pc, PROGRAM_START_ADDRESS + 2);
    assert_eq!(cpu.v[0x0], expected_result);
    assert_eq!(cpu.v[0xf], expected_vf);
}

#[test]
fn test_initialize() {
    let mut memory = instantiate_memory();
    let cpu = instantiate_cpu(&mut memory);

    assert_eq!(cpu.pc, PROGRAM_START_ADDRESS);
    assert_eq!(cpu.sp, 0);
    assert_eq!(cpu.stack, [0; 16]);
    assert_eq!(cpu.i, 0);

    // First char in font: 0
    assert_eq!(memory.get_cells()[0..5], [0xF0, 0x90, 0x90, 0x90, 0xF0]);

    // Last char in font: F
    assert_eq!(
        memory.get_cells()[FONT.len() - 5..FONT.len()],
        [0xF0, 0x80, 0xF0, 0x80, 0x80]
    );
}

#[test]
fn test_load_rom() {
    let mut memory = instantiate_memory();
    let _ = instantiate_cpu_with_program(&mut memory, vec![0x1234, 0x5678]);

    assert_eq!(memory.read(PROGRAM_START_ADDRESS + 0x0), 0x12);
    assert_eq!(memory.read(PROGRAM_START_ADDRESS + 0x1), 0x34);
    assert_eq!(memory.read(PROGRAM_START_ADDRESS + 0x2), 0x56);
    assert_eq!(memory.read(PROGRAM_START_ADDRESS + 0x3), 0x78);
    assert_eq!(memory.read(PROGRAM_START_ADDRESS + 0x4), 0x00);
}

#[test]
fn test_call_and_ret() {
    let mut memory = instantiate_memory();
    let mut cpu = instantiate_cpu(&mut memory);
    cpu.sp = 10;

    execute_instruction(&mut cpu, &mut memory, 0x2DAD);
    execute_instruction(&mut cpu, &mut memory, 0x00EE);

    assert_eq!(cpu.pc, PROGRAM_START_ADDRESS + 2);
    assert_eq!(cpu.sp, 10);
    assert_eq!(cpu.stack[11], PROGRAM_START_ADDRESS);
}

#[test]
fn test_op_00ee_ret() {
    let mut memory = instantiate_memory();
    let mut cpu = instantiate_cpu(&mut memory);
    cpu.sp = 10;
    cpu.stack[10] = 0xBEEF;

    execute_instruction(&mut cpu, &mut memory, 0x00ee);

    assert_eq!(cpu.pc, 0xBEEF + 2);
    assert_eq!(cpu.sp, 9);
}

#[test]
fn test_op_1nnn_jp() {
    let mut memory = instantiate_memory();
    let mut cpu = instantiate_cpu(&mut memory);

    execute_instruction(&mut cpu, &mut memory, 0x1DAD);

    assert_eq!(cpu.pc, 0x0DAD);
}

#[test]
fn test_op_2nnn_call() {
    let mut memory = instantiate_memory();
    let mut cpu = instantiate_cpu(&mut memory);
    cpu.sp = 10;

    execute_instruction(&mut cpu, &mut memory, 0x2DAD);

    assert_eq!(cpu.pc, 0x0DAD);
    assert_eq!(cpu.sp, 11);
    assert_eq!(cpu.stack[11], PROGRAM_START_ADDRESS);
}

#[test]
fn test_op_3xkk_sevx() {
    let mut memory = instantiate_memory();
    let mut cpu = instantiate_cpu(&mut memory);
    cpu.v[0xA] = 0x07;
    execute_instruction(&mut cpu, &mut memory, 0x3A06);
    assert_eq!(cpu.pc, PROGRAM_START_ADDRESS + 2 * 1);

    let mut memory = instantiate_memory();
    let mut cpu = instantiate_cpu(&mut memory);
    cpu.v[0xA] = 0x07;
    execute_instruction(&mut cpu, &mut memory, 0x3A07);
    assert_eq!(cpu.pc, PROGRAM_START_ADDRESS + 2 * 2);
}

#[test]
fn test_op_4xkk_snevx() {
    let mut memory = instantiate_memory();
    let mut cpu = instantiate_cpu(&mut memory);
    cpu.v[0xA] = 0x07;
    execute_instruction(&mut cpu, &mut memory, 0x4A06);
    assert_eq!(cpu.pc, PROGRAM_START_ADDRESS + 2 * 2);

    let mut memory = instantiate_memory();
    let mut cpu = instantiate_cpu(&mut memory);
    cpu.v[0xA] = 0x07;
    execute_instruction(&mut cpu, &mut memory, 0x4A07);
    assert_eq!(cpu.pc, PROGRAM_START_ADDRESS + 2 * 1);
}

#[test]
fn test_op_5xy0_sevxvy() {
    let mut memory = instantiate_memory();
    let mut cpu = instantiate_cpu(&mut memory);
    cpu.v[0xA] = 0x07;
    cpu.v[0xB] = 0x06;
    execute_instruction(&mut cpu, &mut memory, 0x5AB0);
    assert_eq!(cpu.pc, PROGRAM_START_ADDRESS + 2 * 1);

    let mut memory = instantiate_memory();
    let mut cpu = instantiate_cpu(&mut memory);
    cpu.v[0xA] = 0x07;
    cpu.v[0xB] = 0x07;
    execute_instruction(&mut cpu, &mut memory, 0x5AB0);
    assert_eq!(cpu.pc, PROGRAM_START_ADDRESS + 2 * 2);
}

#[test]
fn test_op_6xkk_ldvx() {
    let mut memory = instantiate_memory();
    let mut cpu = instantiate_cpu(&mut memory);
    cpu.v[0xA] = 0x06;

    execute_instruction(&mut cpu, &mut memory, 0x6A07);

    assert_eq!(cpu.pc, PROGRAM_START_ADDRESS + 2);
    assert_eq!(cpu.v[0xA], 0x07);
}

#[test]
fn test_op_7xkk_addvx() {
    let mut memory = instantiate_memory();
    let mut cpu = instantiate_cpu(&mut memory);
    cpu.v[0xA] = 0x06;
    execute_instruction(&mut cpu, &mut memory, 0x7A01);
    assert_eq!(cpu.pc, PROGRAM_START_ADDRESS + 2);
    assert_eq!(cpu.v[0xA], 0x07);

    let mut memory = instantiate_memory();
    let mut cpu = instantiate_cpu(&mut memory);
    cpu.v[0xA] = 0xFF;
    execute_instruction(&mut cpu, &mut memory, 0x7A01);
    assert_eq!(cpu.pc, PROGRAM_START_ADDRESS + 2);
    assert_eq!(cpu.v[0xA], 0x00);
}

#[test]
fn test_op_8xy0() {
    let mut memory = instantiate_memory();
    let mut cpu = instantiate_cpu(&mut memory);
    cpu.v[0xA] = 0x00;
    cpu.v[0xB] = 0x07;
    execute_instruction(&mut cpu, &mut memory, 0x8AB0);

    assert_eq!(cpu.pc, PROGRAM_START_ADDRESS + 2);
    assert_eq!(cpu.v[0xA], 0x07);
    assert_eq!(cpu.v[0xB], 0x07);
}

#[test]
fn test_op_8xy1_orvxvy() {
    // 0x0F or 0xF0 == 0xFF
    test_math(0x0F, 0xF0, 1, 0xFF, 0);
}

#[test]
fn test_op_8xy2_andvxvy() {
    // 0x0F and 0xFF == 0x0F
    test_math(0x0F, 0xFF, 2, 0x0F, 0);
}

#[test]
fn test_op_8xy3_xorvxvy() {
    // 0x0F xor 0xFF == 0xF0
    test_math(0x0F, 0xFF, 3, 0xF0, 0);
}

#[test]
fn test_op_8xy4_addvxvy() {
    test_math(0x0F, 0x0F, 4, 0x1E, 0);
    test_math(0xFF, 0xFF, 4, 0xFE, 1);
}

#[test]
fn test_op_8xy5_subvxvy() {
    test_math(0x0F, 0x01, 5, 0x0E, 1);
    test_math(0x0F, 0xFF, 5, 0x10, 0);
}

#[test]
fn test_op_8x06_shrvx() {
    // 4 >> 1 == 2
    test_math(0x04, 0, 6, 0x02, 0);
    // 5 >> 1 == 2 with carry
    test_math(0x05, 0, 6, 0x02, 1);
}

#[test]
fn test_op_8xy7_subnvxvy() {
    test_math(0x01, 0x0F, 7, 0x0E, 1);
    test_math(0xFF, 0x0F, 7, 0x10, 0);
}

#[test]
fn test_op_8x0e_shlvx() {
    test_math(0b11000000, 0, 0x0e, 0b10000000, 1);
    test_math(0b00000111, 0, 0x0e, 0b00001110, 0);
}

#[test]
fn test_op_9xy0_snevxvy() {
    let mut memory = instantiate_memory();
    let mut cpu = instantiate_cpu(&mut memory);
    cpu.v[0xA] = 0x07;
    cpu.v[0xB] = 0x06;
    execute_instruction(&mut cpu, &mut memory, 0x9AB0);
    assert_eq!(cpu.pc, PROGRAM_START_ADDRESS + 2 * 2);

    let mut memory = instantiate_memory();
    let mut cpu = instantiate_cpu(&mut memory);
    cpu.v[0xA] = 0x07;
    cpu.v[0xB] = 0x07;
    execute_instruction(&mut cpu, &mut memory, 0x9AB0);
    assert_eq!(cpu.pc, PROGRAM_START_ADDRESS + 2);
}

#[test]
fn test_op_annn_ldi() {
    let mut memory = instantiate_memory();
    let mut cpu = instantiate_cpu(&mut memory);

    execute_instruction(&mut cpu, &mut memory, 0xaDAD);

    assert_eq!(cpu.pc, PROGRAM_START_ADDRESS + 2);
    assert_eq!(cpu.i, 0xDAD);
}

#[test]
fn test_op_bnnn_jpv0() {
    let mut memory = instantiate_memory();
    let mut cpu = instantiate_cpu(&mut memory);
    cpu.v[0x0] = 0x07;

    execute_instruction(&mut cpu, &mut memory, 0xbDAD);

    assert_eq!(cpu.pc, 0xDAD + 0x07);
}

#[test]
fn test_op_cxkk_randvx() {
    let mut memory = instantiate_memory();
    let mut cpu = instantiate_cpu(&mut memory);

    execute_instruction(&mut cpu, &mut memory, 0xcA00);

    assert_eq!(cpu.pc, PROGRAM_START_ADDRESS + 2);
    assert_eq!(cpu.v[0xA], 0);
}

#[test]
fn test_op_dxyn_drwvxvyn() {
    let mut memory = instantiate_memory();
    let mut cpu = instantiate_cpu(&mut memory);
    cpu.v[0x8] = 0xA; // Set X position for drawing
    cpu.v[0x9] = 0xB; // Set Y position for drawing
    cpu.i = (PROGRAM_START_ADDRESS + 6) as u16;

    // Sprites to draw
    memory.write(PROGRAM_START_ADDRESS + 6, 0b11010000);
    memory.write(PROGRAM_START_ADDRESS + 7, 0b10100000);

    let mut display = instantiate_display();
    execute_instruction_with_display(&mut cpu, &mut memory, &mut display, 0xD892);

    assert_eq!(cpu.pc, PROGRAM_START_ADDRESS + 2);
    assert_eq!(cpu.v[0xF], 0);

    assert_eq!(display.read_pixel(0xA + 0, 0xB + 0), true);
    assert_eq!(display.read_pixel(0xA + 1, 0xB + 0), true);
    assert_eq!(display.read_pixel(0xA + 2, 0xB + 0), false);
    assert_eq!(display.read_pixel(0xA + 3, 0xB + 0), true);
    assert_eq!(display.read_pixel(0xA + 4, 0xB + 0), false);
    assert_eq!(display.read_pixel(0xA + 5, 0xB + 0), false);
    assert_eq!(display.read_pixel(0xA + 6, 0xB + 0), false);
    assert_eq!(display.read_pixel(0xA + 8, 0xB + 0), false);
    assert_eq!(display.read_pixel(0xA + 8, 0xB + 0), false);

    assert_eq!(display.read_pixel(0xA + 0, 0xB + 1), true);
    assert_eq!(display.read_pixel(0xA + 1, 0xB + 1), false);
    assert_eq!(display.read_pixel(0xA + 2, 0xB + 1), true);
    assert_eq!(display.read_pixel(0xA + 3, 0xB + 1), false);
    assert_eq!(display.read_pixel(0xA + 4, 0xB + 1), false);
    assert_eq!(display.read_pixel(0xA + 5, 0xB + 1), false);
    assert_eq!(display.read_pixel(0xA + 6, 0xB + 1), false);
    assert_eq!(display.read_pixel(0xA + 8, 0xB + 1), false);
    assert_eq!(display.read_pixel(0xA + 8, 0xB + 1), false);
}

#[test]
fn test_op_dxyn_drwvxvyn_erase() {
    let mut memory = instantiate_memory();
    let mut cpu = instantiate_cpu(&mut memory);
    cpu.v[0x8] = 0xA; // Set X position for drawing
    cpu.v[0x9] = 0xB; // Set Y position for drawing
    cpu.i = (PROGRAM_START_ADDRESS + 6) as u16;

    // Sprites to draw
    memory.write(PROGRAM_START_ADDRESS + 6, 0b11010000);
    memory.write(PROGRAM_START_ADDRESS + 7, 0b10100000);

    // Initial display state
    let mut display = instantiate_display();
    display.write_pixel(0xA + 0, 0xB + 1, true);

    execute_instruction_with_display(&mut cpu, &mut memory, &mut display, 0xD892);

    assert_eq!(cpu.pc, PROGRAM_START_ADDRESS + 2);
    assert_eq!(cpu.v[0xF], 1);

    assert_eq!(display.read_pixel(0xA + 0, 0xB + 0), true);
    assert_eq!(display.read_pixel(0xA + 1, 0xB + 0), true);
    assert_eq!(display.read_pixel(0xA + 2, 0xB + 0), false);
    assert_eq!(display.read_pixel(0xA + 3, 0xB + 0), true);
    assert_eq!(display.read_pixel(0xA + 4, 0xB + 0), false);
    assert_eq!(display.read_pixel(0xA + 5, 0xB + 0), false);
    assert_eq!(display.read_pixel(0xA + 6, 0xB + 0), false);
    assert_eq!(display.read_pixel(0xA + 7, 0xB + 0), false);

    assert_eq!(display.read_pixel(0xA + 0, 0xB + 1), false);
    assert_eq!(display.read_pixel(0xA + 1, 0xB + 1), false);
    assert_eq!(display.read_pixel(0xA + 2, 0xB + 1), true);
    assert_eq!(display.read_pixel(0xA + 3, 0xB + 1), false);
    assert_eq!(display.read_pixel(0xA + 4, 0xB + 1), false);
    assert_eq!(display.read_pixel(0xA + 5, 0xB + 1), false);
    assert_eq!(display.read_pixel(0xA + 6, 0xB + 1), false);
    assert_eq!(display.read_pixel(0xA + 7, 0xB + 1), false);
}

#[test]
fn test_op_dxyn_drwvxvyn_wrap_horizontal() {
    let mut memory = instantiate_memory();
    let mut cpu = instantiate_cpu(&mut memory);
    let x_position = DISPLAY_WIDTH - 4;
    cpu.v[0x8] = x_position as u8; // Set X position for drawing
    cpu.v[0x9] = 0xB; // Set Y position for drawing
    cpu.i = (PROGRAM_START_ADDRESS + 6) as u16;

    // Sprites to draw
    memory.write(PROGRAM_START_ADDRESS + 6, 0b00101011);

    let mut display = instantiate_display();
    execute_instruction_with_display(&mut cpu, &mut memory, &mut display, 0xD891);

    assert_eq!(cpu.pc, PROGRAM_START_ADDRESS + 2);
    assert_eq!(cpu.v[0xF], 0);

    assert_eq!(display.read_pixel(x_position + 0, 0xB), false);
    assert_eq!(display.read_pixel(x_position + 1, 0xB), false);
    assert_eq!(display.read_pixel(x_position + 2, 0xB), true);
    assert_eq!(display.read_pixel(x_position + 3, 0xB), false);
    assert_eq!(display.read_pixel(0 + 0, 0xB), true);
    assert_eq!(display.read_pixel(0 + 1, 0xB), false);
    assert_eq!(display.read_pixel(0 + 2, 0xB), true);
    assert_eq!(display.read_pixel(0 + 3, 0xB), true);
}

#[test]
fn test_op_dxyn_drwvxvyn_wrap_vertical() {
    let mut memory = instantiate_memory();
    let mut cpu = instantiate_cpu(&mut memory);
    let y_position = DISPLAY_HEIGHT - 1;
    cpu.v[0x8] = 0xA; // Set X position for drawing
    cpu.v[0x9] = y_position as u8; // Set Y position for drawing
    cpu.i = (PROGRAM_START_ADDRESS + 6) as u16;

    // Sprites to draw
    memory.write(PROGRAM_START_ADDRESS + 6, 0b00101011);
    memory.write(PROGRAM_START_ADDRESS + 7, 0b10100000);

    let mut display = instantiate_display();
    execute_instruction_with_display(&mut cpu, &mut memory, &mut display, 0xD892);

    assert_eq!(cpu.pc, PROGRAM_START_ADDRESS + 2);
    assert_eq!(cpu.v[0xF], 0);

    assert_eq!(display.read_pixel(0xA + 0, y_position), false);
    assert_eq!(display.read_pixel(0xA + 1, y_position), false);
    assert_eq!(display.read_pixel(0xA + 2, y_position), true);
    assert_eq!(display.read_pixel(0xA + 3, y_position), false);
    assert_eq!(display.read_pixel(0xA + 4, y_position), true);
    assert_eq!(display.read_pixel(0xA + 5, y_position), false);
    assert_eq!(display.read_pixel(0xA + 6, y_position), true);
    assert_eq!(display.read_pixel(0xA + 7, y_position), true);

    assert_eq!(display.read_pixel(0xA + 0, 0), true);
    assert_eq!(display.read_pixel(0xA + 1, 0), false);
    assert_eq!(display.read_pixel(0xA + 2, 0), true);
    assert_eq!(display.read_pixel(0xA + 3, 0), false);
    assert_eq!(display.read_pixel(0xA + 4, 0), false);
    assert_eq!(display.read_pixel(0xA + 5, 0), false);
    assert_eq!(display.read_pixel(0xA + 6, 0), false);
    assert_eq!(display.read_pixel(0xA + 7, 0), false);
}

#[test]
fn test_op_ex9e_skpvx() {
    // Note: Keycode A is mapped to hex 0x7

    let mut memory = instantiate_memory();
    let mut cpu = instantiate_cpu(&mut memory);
    let mut keypad = instantiate_keypad();
    execute_instruction_with_keypad(&mut cpu, &mut memory, &mut keypad, 0xE79E);
    assert_eq!(cpu.pc, PROGRAM_START_ADDRESS + 2 * 1);
    keypad.key_down(Keycode::S);
    execute_instruction_with_keypad(&mut cpu, &mut memory, &mut keypad, 0xE79E);
    assert_eq!(cpu.pc, PROGRAM_START_ADDRESS + 2 * 1 + 2 * 1);

    let mut memory = instantiate_memory();
    let mut cpu = instantiate_cpu(&mut memory);
    let mut keypad = instantiate_keypad();
    keypad.key_down(Keycode::A);
    keypad.key_down(Keycode::X);
    keypad.key_up(Keycode::S);
    keypad.key_down(Keycode::A);
    execute_instruction_with_keypad(&mut cpu, &mut memory, &mut keypad, 0xE79E);
    assert_eq!(cpu.pc, PROGRAM_START_ADDRESS + 2 * 2);
}

#[test]
fn test_op_exa1_sknpvx() {
    // Note: Keycode A is mapped to hex 0x7

    let mut memory = instantiate_memory();
    let mut cpu = instantiate_cpu(&mut memory);
    let mut keypad = instantiate_keypad();
    execute_instruction_with_keypad(&mut cpu, &mut memory, &mut keypad, 0xE7A1);
    assert_eq!(cpu.pc, PROGRAM_START_ADDRESS + 2 * 2);
    keypad.key_down(Keycode::S);
    execute_instruction_with_keypad(&mut cpu, &mut memory, &mut keypad, 0xE7A1);
    assert_eq!(cpu.pc, PROGRAM_START_ADDRESS + 2 * 2 + 2 * 2);

    let mut memory = instantiate_memory();
    let mut cpu = instantiate_cpu(&mut memory);
    let mut keypad = instantiate_keypad();
    keypad.key_down(Keycode::A);
    keypad.key_down(Keycode::X);
    keypad.key_up(Keycode::S);
    keypad.key_down(Keycode::A);
    execute_instruction_with_keypad(&mut cpu, &mut memory, &mut keypad, 0xE7A1);
    assert_eq!(cpu.pc, PROGRAM_START_ADDRESS + 2 * 1);
}
