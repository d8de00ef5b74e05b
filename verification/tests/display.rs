use chip8::display::{byte_to_bools, Framebuffer, HEIGHT, PIXELS, WIDTH};

fn lit_pixels(display: &Framebuffer) -> Vec<(usize, usize)> {
    let mut on = Vec::new();
    for y in 0..HEIGHT {
        for x in 0..WIDTH {
            if display.get(x, y) {
                on.push((x, y));
            }
        }
    }
    on
}

#[test]
fn bits_come_highest_first() {
    assert_eq!(
        byte_to_bools(0b1010_0001),
        [true, false, true, false, false, false, false, true]
    );
    assert_eq!(byte_to_bools(0x00), [false; 8]);
    assert_eq!(byte_to_bools(0xFF), [true; 8]);
    assert_eq!(
        byte_to_bools(0x80),
        [true, false, false, false, false, false, false, false]
    );
    for byte in 0..=255u8 {
        let bools = byte_to_bools(byte);
        for i in 0..8 {
            assert_eq!(bools[i], (byte >> (7 - i)) & 1 == 1);
        }
    }
}

#[test]
fn a_new_display_is_blank() {
    let display = Framebuffer::new();
    assert!(display.is_blank());
    assert_eq!(lit_pixels(&display), vec![]);
}

#[test]
fn flip_toggles_and_returns_the_new_state() {
    let mut display = Framebuffer::new();
    assert!(display.flip(3, 4));
    assert!(display.get(3, 4));
    assert!(!display.is_blank());
    assert_eq!(lit_pixels(&display), vec![(3, 4)]);
    assert!(!display.flip(3, 4));
    assert!(!display.get(3, 4));
    assert!(display.is_blank());
}

#[test]
fn flip_wraps_both_coordinates() {
    let mut display = Framebuffer::new();
    assert!(display.flip(64 + 5, 32 + 6));
    assert_eq!(lit_pixels(&display), vec![(5, 6)]);
    assert!(display.flip(63, 31));
    assert!(display.flip(128, 64));
    assert_eq!(lit_pixels(&display), vec![(0, 0), (5, 6), (63, 31)]);
}

#[test]
fn clear_turns_everything_off() {
    let mut display = Framebuffer::new();
    display.flip(0, 0);
    display.flip(63, 31);
    display.flip(10, 20);
    display.clear();
    assert!(display.is_blank());
    assert_eq!(lit_pixels(&display), vec![]);
}

#[test]
fn drawing_twice_collides_and_restores() {
    let mut display = Framebuffer::new();
    assert!(!display.draw(10, 5, &[0xFF]));
    assert_eq!(
        lit_pixels(&display),
        vec![(10, 5), (11, 5), (12, 5), (13, 5), (14, 5), (15, 5), (16, 5), (17, 5)]
    );
    assert!(display.draw(10, 5, &[0xFF]));
    assert!(display.is_blank());
}

#[test]
fn a_sprite_without_pixels_never_collides() {
    let mut display = Framebuffer::new();
    display.draw(0, 0, &[0xFF, 0xFF]);
    assert!(!display.draw(0, 0, &[0x00, 0x00]));
    assert!(!display.draw(0, 0, &[]));
    assert_eq!(lit_pixels(&display).len(), 16);
}

#[test]
fn a_row_wraps_at_the_right_edge() {
    let mut display = Framebuffer::new();
    assert!(!display.draw(60, 0, &[0b1010_0110]));
    // left bits at columns 60 to 63, right bits at columns 0 to 3
    assert_eq!(lit_pixels(&display), vec![(1, 0), (2, 0), (60, 0), (62, 0)]);
    let mut display = Framebuffer::new();
    display.draw(60, 7, &[0xFF]);
    assert_eq!(
        lit_pixels(&display),
        vec![(0, 7), (1, 7), (2, 7), (3, 7), (60, 7), (61, 7), (62, 7), (63, 7)]
    );
}

#[test]
fn rows_wrap_at_the_bottom_edge() {
    let mut display = Framebuffer::new();
    display.draw(0, 30, &[0x80, 0x40, 0x20, 0x10]);
    assert_eq!(lit_pixels(&display), vec![(2, 0), (3, 1), (0, 30), (1, 31)]);
}

#[test]
fn coordinates_are_taken_around_the_edges() {
    let mut far = Framebuffer::new();
    let mut near = Framebuffer::new();
    far.draw(64 + 3, 32 * 3 + 2, &[0xC3, 0x18]);
    near.draw(3, 2, &[0xC3, 0x18]);
    assert_eq!(lit_pixels(&far), lit_pixels(&near));
    assert_eq!(lit_pixels(&near), vec![(3, 2), (4, 2), (9, 2), (10, 2), (6, 3), (7, 3)]);
}

#[test]
fn a_collision_is_any_pixel_that_goes_off() {
    let mut display = Framebuffer::new();
    display.draw(0, 0, &[0b1000_0000]);
    // overlaps in no pixel
    assert!(!display.draw(0, 0, &[0b0100_0000]));
    // overlaps in the first pixel only
    assert!(display.draw(0, 0, &[0b1000_0001]));
    assert_eq!(lit_pixels(&display), vec![(1, 0), (7, 0)]);
}

#[test]
fn draw_row_is_a_sprite_of_one_row() {
    let mut by_row = Framebuffer::new();
    let mut whole = Framebuffer::new();
    assert!(!by_row.draw_row(62, 33, 0xF0));
    assert!(!whole.draw(62, 33, &[0xF0]));
    assert_eq!(lit_pixels(&by_row), lit_pixels(&whole));
    assert_eq!(lit_pixels(&whole), vec![(0, 1), (1, 1), (62, 1), (63, 1)]);
    assert!(by_row.draw_row(0, 1, 0x80));
}

#[test]
fn render_into_hands_over_the_rows() {
    let mut display = Framebuffer::new();
    display.draw(1, 2, &[0x80]);
    display.draw(63, 31, &[0x80]);
    let mut buffer = vec![true; 5];
    display.render_into(&mut buffer);
    assert_eq!(buffer.len(), PIXELS);
    for (k, on) in buffer.iter().enumerate() {
        assert_eq!(*on, k == 2 * 64 + 1 || k == 31 * 64 + 63);
    }
    assert_eq!(lit_pixels(&display), vec![(1, 2), (63, 31)]);
}
