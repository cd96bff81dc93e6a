// The memory, the display, the keypad and the speaker on their own.

use chip8::display::{
    Display, DisplayDebugTrait, DisplayTrait, DISPLAY_HEIGHT, DISPLAY_WIDTH, SPRITE_WIDTH,
};
use chip8::keypad::{Keycode, Keypad, KeypadTrait, KEY_COUNT};
use chip8::memory::{Memory, MemoryTrait, DUMP_ROW_BYTES, MEMORY_SIZE};
use chip8::speaker::{Speaker, SpeakerTrait};

fn lit(display: &Display) -> Vec<(usize, usize)> {
    let mut pixels = Vec::new();
    for x in 0..DISPLAY_WIDTH {
        for y in 0..DISPLAY_HEIGHT {
            if display.read_pixel(x, y) {
                pixels.push((x, y));
            }
        }
    }
    pixels
}

#[test]
fn memory_starts_out_zeroed() {
    let memory = Memory::new();
    assert_eq!(memory.get_size(), 4096);
    assert_eq!(MEMORY_SIZE, 4096);
    assert!((0..MEMORY_SIZE).all(|address| memory.read(address) == 0));
}

#[test]
fn memory_write_changes_one_byte() {
    let mut memory = Memory::new();
    memory.write(0, 1);
    memory.write(100, 2);
    memory.write(MEMORY_SIZE - 1, 3);
    memory.write(100, 4);
    assert_eq!(memory.read(0), 1);
    assert_eq!(memory.read(100), 4);
    assert_eq!(memory.read(MEMORY_SIZE - 1), 3);
    assert_eq!((0..MEMORY_SIZE).filter(|&address| memory.read(address) != 0).count(), 3);
}

#[test]
fn memory_clear_zeroes_every_byte() {
    let mut memory = Memory::new();
    memory.write(7, 7);
    memory.write(4000, 9);
    memory.clear();
    assert!((0..MEMORY_SIZE).all(|address| memory.read(address) == 0));
    assert_eq!(memory.get_size(), 4096);
}

#[test]
fn memory_cells_are_the_memory() {
    let mut memory = Memory::new();
    memory.write(10, 0xAB);
    {
        let cells = memory.get_cells();
        assert_eq!(cells.len(), MEMORY_SIZE);
        assert_eq!(cells[10], 0xAB);
        cells[11] = 0xCD;
        cells[4095] = 0xEF;
    }
    assert_eq!(memory.read(10), 0xAB);
    assert_eq!(memory.read(11), 0xCD);
    assert_eq!(memory.read(4095), 0xEF);
}

#[test]
fn modulo_is_the_remainder() {
    assert_eq!(Memory::modulo(0, 16), 0);
    assert_eq!(Memory::modulo(15, 16), 15);
    assert_eq!(Memory::modulo(16, 16), 0);
    assert_eq!(Memory::modulo(4095, 16), 15);
    assert_eq!(Memory::modulo(7, 1), 0);
    assert_eq!(Memory::modulo(7, 9), 7);
    assert_eq!(Memory::modulo(usize::MAX, 10), usize::MAX % 10);
    assert_eq!(Memory::modulo(usize::MAX, usize::MAX), 0);
    assert_eq!(Memory::modulo(usize::MAX - 1, usize::MAX), usize::MAX - 1);
}

#[test]
fn a_dump_row_holds_sixteen_bytes() {
    assert_eq!(DUMP_ROW_BYTES, 16);
    for index in 0..64 {
        assert_eq!(Memory::starts_dump_row(index), index % 16 == 0);
        assert_eq!(Memory::ends_dump_row(index), index % 16 == 15);
    }
    assert_eq!(Memory::starts_dump_row(4080), true);
    assert_eq!(Memory::ends_dump_row(4095), true);
    assert_eq!(Memory::ends_dump_row(usize::MAX), true);
    assert_eq!(Memory::starts_dump_row(usize::MAX), false);
}

#[test]
fn a_new_display_is_blank() {
    let display = Display::new(7);
    assert_eq!(lit(&display), vec![]);
    assert_eq!(display.needs_redraw(), false);
    assert_eq!(display.display_scale(), 7);
}

#[test]
fn draw_sprite_puts_the_high_bit_left() {
    let mut display = Display::new(1);
    assert_eq!(display.draw_sprite(10, 20, &[0b1000_0001, 0b0100_0010]), 0);
    assert_eq!(lit(&display), vec![(10, 20), (11, 21), (16, 21), (17, 20)]);
    assert_eq!(display.needs_redraw(), true);
}

#[test]
fn draw_sprite_flips_pixels_and_reports_the_ones_it_turns_off() {
    let mut display = Display::new(1);
    display.write_pixel(1, 0, true);
    display.write_pixel(40, 9, true);
    assert_eq!(display.draw_sprite(0, 0, &[0b1100_0000]), 1);
    assert_eq!(lit(&display), vec![(0, 0), (40, 9)]);
    // Turning pixels on is no collision.
    assert_eq!(display.draw_sprite(2, 0, &[0b1100_0000]), 0);
    assert_eq!(lit(&display), vec![(0, 0), (2, 0), (3, 0), (40, 9)]);
}

#[test]
fn draw_sprite_wraps_at_both_edges() {
    let mut display = Display::new(1);
    assert_eq!(display.draw_sprite(DISPLAY_WIDTH - 4, DISPLAY_HEIGHT - 1, &[0xFF, 0x81]), 0);
    assert_eq!(
        lit(&display),
        vec![
            (0, 31),
            (1, 31),
            (2, 31),
            (3, 0),
            (3, 31),
            (60, 0),
            (60, 31),
            (61, 31),
            (62, 31),
            (63, 31)
        ]
    );
}

#[test]
fn draw_sprite_wraps_the_corner_it_is_given() {
    let mut first = Display::new(1);
    let mut second = Display::new(1);
    assert_eq!(first.draw_sprite(5, 6, &[0xA5, 0x3C, 0xFF]), 0);
    assert_eq!(second.draw_sprite(5 + 64 * 3, 6 + 32 * 5, &[0xA5, 0x3C, 0xFF]), 0);
    assert_eq!(lit(&first), lit(&second));
    let mut third = Display::new(1);
    assert_eq!(third.draw_sprite(usize::MAX, usize::MAX, &[0xC0, 0xC0]), 0);
    // usize::MAX is 63 modulo 64 and 31 modulo 32.
    assert_eq!(lit(&third), vec![(0, 0), (0, 31), (63, 0), (63, 31)]);
}

#[test]
fn a_sprite_taller_than_the_screen_laps_over_itself() {
    let mut display = Display::new(1);
    let mut sprite = vec![0u8; 33];
    sprite[0] = 0x80;
    sprite[32] = 0x80;
    // Row 32 lands on row 0 again and turns its pixel off.
    assert_eq!(display.draw_sprite(0, 0, &sprite), 1);
    assert_eq!(lit(&display), vec![]);
}

#[test]
fn an_empty_sprite_draws_nothing() {
    let mut display = Display::new(1);
    display.write_pixel(3, 3, true);
    assert_eq!(display.draw_sprite(3, 3, &[]), 0);
    assert_eq!(lit(&display), vec![(3, 3)]);
    assert_eq!(display.needs_redraw(), true);
}

#[test]
fn clear_turns_every_pixel_off() {
    let mut display = Display::new(1);
    display.draw_sprite(0, 0, &[0xFF; 15]);
    display.clear();
    assert_eq!(lit(&display), vec![]);
    assert_eq!(display.needs_redraw(), true);
    display.mark_drawn();
    assert_eq!(display.needs_redraw(), false);
    display.clear();
    assert_eq!(display.needs_redraw(), false);
}

#[test]
fn write_pixel_sets_one_pixel() {
    let mut display = Display::new(1);
    display.write_pixel(63, 31, true);
    display.write_pixel(0, 0, true);
    display.write_pixel(0, 0, false);
    assert_eq!(lit(&display), vec![(63, 31)]);
    assert_eq!(display.needs_redraw(), false);
}

#[test]
fn the_window_is_the_screen_scaled() {
    assert_eq!(SPRITE_WIDTH, 8);
    assert_eq!(Display::new(1).window_size(), (64, 32));
    assert_eq!(Display::new(10).window_size(), (640, 320));
    assert_eq!(Display::new(255).window_size(), (16320, 8160));
    assert_eq!(Display::new(0).window_size(), (0, 0));
    let display = Display::new(10);
    assert_eq!(display.pixel_rect(0, 0), (0, 0, 10));
    assert_eq!(display.pixel_rect(3, 5), (30, 50, 10));
    assert_eq!(display.pixel_rect(63, 31), (630, 310, 10));
    assert_eq!(Display::new(255).pixel_rect(63, 31), (16065, 7905, 255));
}

#[test]
fn the_keyboard_block_is_laid_out_like_the_keypad() {
    let keys: [(Keycode, Option<u8>); 18] = [
        (Keycode::Num1, Some(0x1)),
        (Keycode::Num2, Some(0x2)),
        (Keycode::Num3, Some(0x3)),
        (Keycode::Num4, Some(0xC)),
        (Keycode::Q, Some(0x4)),
        (Keycode::W, Some(0x5)),
        (Keycode::E, Some(0x6)),
        (Keycode::R, Some(0xD)),
        (Keycode::A, Some(0x7)),
        (Keycode::S, Some(0x8)),
        (Keycode::D, Some(0x9)),
        (Keycode::F, Some(0xE)),
        (Keycode::Y, Some(0xA)),
        (Keycode::Z, Some(0xA)),
        (Keycode::X, Some(0x0)),
        (Keycode::C, Some(0xB)),
        (Keycode::V, Some(0xF)),
        (Keycode::Other, None),
    ];
    for (keycode, key) in keys {
        assert_eq!(Keypad::map_key(keycode), key);
    }
}

#[test]
fn keys_go_down_and_up() {
    let mut keypad = Keypad::new();
    assert_eq!(KEY_COUNT, 16);
    for key in 0..16 {
        assert_eq!(keypad.get_key(key), false);
    }
    keypad.key_down(Keycode::Q);
    keypad.key_down(Keycode::V);
    keypad.key_down(Keycode::Other);
    for key in 0..16 {
        assert_eq!(keypad.get_key(key), key == 0x4 || key == 0xF);
    }
    keypad.key_down(Keycode::Q);
    keypad.key_up(Keycode::Q);
    keypad.key_up(Keycode::Other);
    keypad.key_up(Keycode::C);
    for key in 0..16 {
        assert_eq!(keypad.get_key(key), key == 0xF);
    }
}

#[test]
fn y_and_z_are_the_same_key() {
    let mut keypad = Keypad::new();
    keypad.key_down(Keycode::Y);
    assert_eq!(keypad.get_key(0xA), true);
    keypad.key_up(Keycode::Z);
    assert_eq!(keypad.get_key(0xA), false);
}

#[test]
fn reset_releases_every_key() {
    let mut keypad = Keypad::new();
    keypad.key_down(Keycode::Num1);
    keypad.key_down(Keycode::X);
    keypad.reset();
    for key in 0..16 {
        assert_eq!(keypad.get_key(key), false);
    }
}

#[test]
fn the_speaker_holds_one_beep() {
    let mut speaker = Speaker::new();
    assert_eq!(speaker.flush_queue(), false);
    speaker.queue_beep();
    speaker.queue_beep();
    assert_eq!(speaker.flush_queue(), true);
    assert_eq!(speaker.flush_queue(), false);
    speaker.queue_beep();
    speaker.clear_queue();
    assert_eq!(speaker.flush_queue(), false);
}
