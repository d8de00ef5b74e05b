use chip8::input::InputLatch;

#[test]
fn a_new_latch_holds_nothing() {
    let latch = InputLatch::new();
    assert_eq!(latch.keys, [false; 16]);
    assert_eq!(latch.blocked, None);
    assert_eq!(latch.first_held(), None);
    for key in 0..=255u8 {
        assert!(!latch.is_held(key));
    }
}

#[test]
fn the_lowest_held_key_is_found() {
    let mut latch = InputLatch::new();
    for lowest in (0..16usize).rev() {
        let mut keys = latch.keys;
        keys[lowest] = true;
        latch.set_keys(keys);
        assert_eq!(latch.first_held(), Some(lowest as u8));
        assert!(latch.is_held(lowest as u8));
    }
    latch.set_keys([false; 16]);
    assert_eq!(latch.first_held(), None);
}

#[test]
fn keys_past_the_sixteenth_are_never_held() {
    let mut latch = InputLatch::new();
    latch.set_keys([true; 16]);
    for key in 0..16u8 {
        assert!(latch.is_held(key));
    }
    for key in 16..=255u8 {
        assert!(!latch.is_held(key));
    }
}

#[test]
fn block_and_release() {
    let mut latch = InputLatch::new();
    let mut keys = [false; 16];
    keys[4] = true;
    latch.set_keys(keys);
    latch.block(0xE);
    assert_eq!(latch.blocked, Some(0xE));
    assert_eq!(latch.keys, keys);
    latch.set_keys([false; 16]);
    assert_eq!(latch.blocked, Some(0xE));
    latch.release();
    assert_eq!(latch.blocked, None);
    latch.release();
    assert_eq!(latch.blocked, None);
}
