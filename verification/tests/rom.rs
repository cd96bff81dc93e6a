// Loading programs.

use chip8::cpu::{Cpu, CpuTrait, RomError, FONT};
use chip8::memory::{Memory, MemoryTrait, MEMORY_SIZE};

fn holds_only_the_font(memory: &Memory) -> bool {
    (0..MEMORY_SIZE).all(|address| {
        memory.read(address) == if address < FONT.len() { FONT[address] } else { 0 }
    })
}

#[test]
fn an_empty_rom_is_too_short() {
    let mut memory = Memory::new();
    memory.write(0x300, 0x55);
    let mut cpu = Cpu::new(600, false, 0x200);
    cpu.pc = 0x123;
    assert_eq!(cpu.load_rom(&mut memory, &[]), Err(RomError::TooShort { rom_size: 0 }));
    assert!(holds_only_the_font(&memory));
    assert_eq!(cpu.pc, 0x123);
}

#[test]
fn a_rom_of_one_byte_is_too_short() {
    let mut memory = Memory::new();
    let mut cpu = Cpu::new(600, false, 0x200);
    assert_eq!(cpu.load_rom(&mut memory, &[0x12]), Err(RomError::TooShort { rom_size: 1 }));
    assert!(holds_only_the_font(&memory));
    assert_eq!(cpu.pc, 0);
}

#[test]
fn a_rom_beyond_the_end_of_memory_is_too_large() {
    let mut memory = Memory::new();
    let mut cpu = Cpu::new(600, false, 0x200);
    let rom = vec![0xAB; MEMORY_SIZE - 0x200 + 1];
    assert_eq!(
        cpu.load_rom(&mut memory, &rom),
        Err(RomError::TooLarge { rom_size: 3585, available: 3584 })
    );
    assert!(holds_only_the_font(&memory));
    assert_eq!(cpu.pc, 0);
}

#[test]
fn a_rom_up_to_the_end_of_memory_fits() {
    let mut memory = Memory::new();
    let mut cpu = Cpu::new(600, false, 0x200);
    let rom: Vec<u8> = (0..MEMORY_SIZE - 0x200).map(|index| (index % 251) as u8 + 1).collect();
    assert_eq!(cpu.load_rom(&mut memory, &rom), Ok(3584));
    assert_eq!(cpu.pc, 0x200);
    for address in 0..MEMORY_SIZE {
        let expected = if address < FONT.len() {
            FONT[address]
        } else if address < 0x200 {
            0
        } else {
            rom[address - 0x200]
        };
        assert_eq!(memory.read(address), expected);
    }
}

#[test]
fn a_program_address_beyond_memory_leaves_no_room() {
    let mut memory = Memory::new();
    let mut cpu = Cpu::new(600, false, MEMORY_SIZE + 10);
    assert_eq!(
        cpu.load_rom(&mut memory, &[0x12, 0x00]),
        Err(RomError::TooLarge { rom_size: 2, available: 0 })
    );
    assert!(holds_only_the_font(&memory));
    let mut cpu = Cpu::new(600, false, MEMORY_SIZE - 1);
    assert_eq!(
        cpu.load_rom(&mut memory, &[0x12, 0x00]),
        Err(RomError::TooLarge { rom_size: 2, available: 1 })
    );
    let mut cpu = Cpu::new(600, false, MEMORY_SIZE - 2);
    assert_eq!(cpu.load_rom(&mut memory, &[0x12, 0x34]), Ok(2));
    assert_eq!(memory.read(MEMORY_SIZE - 2), 0x12);
    assert_eq!(memory.read(MEMORY_SIZE - 1), 0x34);
}

#[test]
fn loading_clears_what_was_there() {
    let mut memory = Memory::new();
    let mut cpu = Cpu::new(600, false, 0x200);
    cpu.load_rom(&mut memory, &[1, 2, 3, 4, 5, 6]).unwrap();
    memory.write(0x0, 0x99);
    memory.write(0x900, 0x99);
    assert_eq!(cpu.load_rom(&mut memory, &[7, 8]), Ok(2));
    assert_eq!(memory.read(0x0), 0xF0);
    assert_eq!(memory.read(0x200), 7);
    assert_eq!(memory.read(0x201), 8);
    assert_eq!(memory.read(0x202), 0);
    assert_eq!(memory.read(0x900), 0);
}

#[test]
fn a_program_may_lie_over_the_font() {
    let mut memory = Memory::new();
    let mut cpu = Cpu::new(600, false, 78);
    assert_eq!(cpu.load_rom(&mut memory, &[0xAA, 0xBB, 0xCC]), Ok(3));
    assert_eq!(memory.read(77), FONT[77]);
    assert_eq!(memory.read(78), 0xAA);
    assert_eq!(memory.read(79), 0xBB);
    assert_eq!(memory.read(80), 0xCC);
    assert_eq!(cpu.pc, 78);
}

#[test]
fn the_font_has_sixteen_glyphs_of_five_rows() {
    assert_eq!(FONT.len(), 80);
    assert_eq!(FONT[0..5], [0xF0, 0x90, 0x90, 0x90, 0xF0]);
    assert_eq!(FONT[5 * 0xA..5 * 0xA + 5], [0xF0, 0x90, 0xF0, 0x90, 0x90]);
    // Every glyph is four pixels wide.
    assert!(FONT.iter().all(|row| row & 0x0F == 0));
}
