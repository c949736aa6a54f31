use chip8::display::{Display, PIXELS};

fn lit_pixels(display: &Display) -> Vec<(u8, u8)> {
    let mut lit = Vec::new();
    for y in 0..32u8 {
        for x in 0..64u8 {
            if display.get(x, y) {
                lit.push((x, y));
            }
        }
    }
    lit
}

#[test]
fn new_display_is_blank() {
    let display = Display::new();
    assert_eq!(PIXELS, 2048);
    assert_eq!(Display::WIDTH, 64);
    assert_eq!(Display::HEIGHT, 32);
    assert_eq!(display.buffer().len(), 2048);
    assert!(display.buffer().iter().all(|p| !*p));
}

#[test]
fn index_is_row_major() {
    assert_eq!(Display::i(0, 0), 0);
    assert_eq!(Display::i(63, 0), 63);
    assert_eq!(Display::i(0, 1), 64);
    assert_eq!(Display::i(5, 3), 197);
    assert_eq!(Display::i(63, 31), 2047);
}

#[test]
fn index_wraps_both_ways() {
    assert_eq!(Display::i(64, 0), 0);
    assert_eq!(Display::i(0, 32), 0);
    assert_eq!(Display::i(65, 33), 65);
    assert_eq!(Display::i(255, 255), 63 + 64 * 31);
}

#[test]
fn set_past_the_right_edge_is_set_at_the_left() {
    let mut display = Display::new();
    display.set(64, 0, true);
    assert!(display.get(0, 0));
    assert!(display.buffer()[0]);
    assert_eq!(lit_pixels(&display), vec![(0, 0)]);
}

#[test]
fn set_past_the_bottom_edge_is_set_at_the_top() {
    let mut display = Display::new();
    display.set(0, 32, true);
    assert!(display.get(0, 0));
    assert_eq!(lit_pixels(&display), vec![(0, 0)]);
    display.set(0, 0, false);
    assert!(!display.get(0, 32));
}

#[test]
fn get_u8_is_one_for_lit() {
    let mut display = Display::new();
    display.set(3, 4, true);
    assert_eq!(display.get_u8(3, 4), 1);
    assert_eq!(display.get_u8(4, 3), 0);
    assert_eq!(display.get_u8(67, 36), 1);
}

#[test]
fn clear_turns_everything_off() {
    let mut display = Display::new();
    display.set(1, 1, true);
    display.set(63, 31, true);
    display.clear();
    assert!(lit_pixels(&display).is_empty());
}

#[test]
fn blit_row_draws_most_significant_bit_first() {
    let mut display = Display::new();
    let collision = display.blit_row(10, 5, 0b1010_0001);
    assert!(!collision);
    assert_eq!(lit_pixels(&display), vec![(10, 5), (12, 5), (17, 5)]);
}

#[test]
fn blit_row_wraps_to_the_left_edge_of_the_same_row() {
    let mut display = Display::new();
    let collision = display.blit_row(60, 2, 0xFF);
    assert!(!collision);
    assert_eq!(
        lit_pixels(&display),
        vec![(0, 2), (1, 2), (2, 2), (3, 2), (60, 2), (61, 2), (62, 2), (63, 2)]
    );
}

#[test]
fn blit_row_reports_collision_only_for_lit_pixels() {
    let mut display = Display::new();
    display.set(8, 0, true);
    assert!(!display.blit_row(0, 0, 0xFF));
    assert!(display.get(8, 0));
    assert!(display.blit_row(8, 0, 0x80));
    assert!(!display.get(8, 0));
    assert!(!display.blit_row(20, 0, 0x00));
}

#[test]
fn blit_sprite_advances_one_row_per_byte() {
    let mut display = Display::new();
    let collision = display.blit_sprite(2, 3, &[0x80, 0x40, 0x20]);
    assert!(!collision);
    assert_eq!(lit_pixels(&display), vec![(2, 3), (3, 4), (4, 5)]);
}

#[test]
fn blit_sprite_wraps_past_the_bottom() {
    let mut display = Display::new();
    display.blit_sprite(0, 31, &[0x80, 0x80]);
    assert_eq!(lit_pixels(&display), vec![(0, 0), (0, 31)]);
}

#[test]
fn blit_sprite_wraps_each_row_on_its_own() {
    let mut display = Display::new();
    display.blit_sprite(63, 0, &[0xC0, 0xC0]);
    assert_eq!(lit_pixels(&display), vec![(0, 0), (63, 0), (0, 1), (63, 1)]);
}

#[test]
fn blit_sprite_with_out_of_range_origin_wraps() {
    let mut display = Display::new();
    display.blit_sprite(64 + 5, 32 + 6, &[0x80]);
    assert_eq!(lit_pixels(&display), vec![(5, 6)]);
}

#[test]
fn drawing_twice_restores_the_display() {
    let mut display = Display::new();
    display.set(1, 1, true);
    display.set(40, 20, true);
    let before = *display.buffer();
    let sprite = [0xF0, 0x90, 0x90, 0x90, 0xF0];
    let first = display.blit_sprite(38, 18, &sprite);
    assert!(!first);
    assert!(*display.buffer() != before);
    let second = display.blit_sprite(38, 18, &sprite);
    assert!(second);
    assert!(*display.buffer() == before);
}

#[test]
fn second_drawing_collides_when_the_first_lit_a_pixel() {
    let mut display = Display::new();
    assert!(!display.blit_sprite(0, 0, &[0x01]));
    assert!(display.blit_sprite(0, 0, &[0x01]));
    assert!(lit_pixels(&display).is_empty());
    assert!(!display.blit_sprite(0, 0, &[0x00]));
    assert!(!display.blit_sprite(0, 0, &[0x00]));
}

#[test]
fn a_sprite_taller_than_the_display_overlaps_itself() {
    let mut display = Display::new();
    let mut rows = vec![0u8; 33];
    rows[0] = 0x80;
    rows[32] = 0x80;
    let collision = display.blit_sprite(0, 0, &rows);
    assert!(collision);
    assert!(lit_pixels(&display).is_empty());
}

#[test]
fn empty_sprite_draws_nothing() {
    let mut display = Display::new();
    display.set(0, 0, true);
    assert!(!display.blit_sprite(0, 0, &[]));
    assert_eq!(lit_pixels(&display), vec![(0, 0)]);
}
