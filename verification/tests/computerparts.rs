use chip8::computerparts::{Instruction, Registers, Stack, Timers, PROGRAM_START, RAM};
use chip8::error::Error;
use chip8::font::FONT;

#[test]
fn big_ram_starts_empty() {
    let ram = RAM::empty();
    assert_eq!(ram.range, 4096);
    for i in 0..4096u16 {
        assert_eq!(ram.get(i), 0);
    }
}

#[test]
fn big_ram_init_default_loads_the_glyphs() {
    let mut ram = RAM::empty();
    ram.set(80, 0x77);
    ram.init_default();
    for i in 0..80u16 {
        assert_eq!(ram.get(i), FONT[i as usize]);
    }
    assert_eq!(ram.get(0), 0xF0);
    assert_eq!(ram.get(5), 0x20);
    assert_eq!(ram.get(79), 0x80);
    assert_eq!(ram.get(80), 0x77);
    assert_eq!(ram.get(81), 0);
}

#[test]
fn big_ram_set_then_get() {
    let mut ram = RAM::empty();
    ram.set(0x0ABC, 0x12);
    assert_eq!(ram.get(0x0ABC), 0x12);
    assert_eq!(ram.get(0x0ABB), 0);
    assert_eq!(ram.get(0x0ABD), 0);
}

#[test]
fn big_ram_load_from_rom_checks_the_end() {
    let mut ram = RAM::empty();
    assert_eq!(ram.load_from_rom(&[9, 8, 7], 0x0FFD), Ok(()));
    assert_eq!(ram.get(0x0FFC), 0);
    assert_eq!(ram.get(0x0FFD), 9);
    assert_eq!(ram.get(0x0FFF), 7);
    assert_eq!(ram.load_from_rom(&[1, 2, 3], 0x0FFE), Err(Error::OutOfBounds));
    assert_eq!(ram.get(0x0FFE), 8);
    assert_eq!(ram.get(0x0FFF), 7);
}

#[test]
fn stack_is_last_in_first_out() {
    let mut stack = Stack::empty();
    stack.push(0x202);
    stack.push(0x304);
    stack.push(0x406);
    assert_eq!(stack.pointers, vec![0x202, 0x304, 0x406]);
    assert_eq!(stack.size, 3);
    assert_eq!(stack.pop(), Ok(0x406));
    assert_eq!(stack.pop(), Ok(0x304));
    assert_eq!(stack.size, 1);
    stack.push(0x500);
    assert_eq!(stack.pop(), Ok(0x500));
    assert_eq!(stack.pop(), Ok(0x202));
    assert_eq!(stack.size, 0);
}

#[test]
fn stack_pop_on_empty_is_an_underflow() {
    let mut stack = Stack::empty();
    assert_eq!(stack.pop(), Err(Error::StackUnderflow));
    assert_eq!(stack.size, 0);
    stack.push(1);
    assert_eq!(stack.pop(), Ok(1));
    assert_eq!(stack.pop(), Err(Error::StackUnderflow));
    assert_eq!(stack.pop(), Err(Error::StackUnderflow));
}

#[test]
fn from_bytes_splits_the_word() {
    let i = Instruction::from_bytes(0xD1, 0x25);
    assert_eq!(
        i,
        Instruction { opcode: 0xD, x: 0x1, y: 0x2, n: 0x5, nn: 0x25, nnn: 0x125 }
    );
    let i = Instruction::from_bytes(0x00, 0xE0);
    assert_eq!(i, Instruction { opcode: 0, x: 0, y: 0xE, n: 0, nn: 0xE0, nnn: 0x0E0 });
    let i = Instruction::from_bytes(0xFF, 0xFF);
    assert_eq!(
        i,
        Instruction { opcode: 0xF, x: 0xF, y: 0xF, n: 0xF, nn: 0xFF, nnn: 0xFFF }
    );
}

#[test]
fn from_bytes_loses_nothing() {
    for high in 0..=255u8 {
        for low in 0..=255u8 {
            let i = Instruction::from_bytes(high, low);
            let word = (high as u16) << 8 | low as u16;
            assert!(i.opcode < 16 && i.x < 16 && i.y < 16 && i.n < 16);
            assert_eq!(
                (i.opcode as u16) << 12 | (i.x as u16) << 8 | (i.y as u16) << 4 | i.n as u16,
                word
            );
            assert_eq!((i.opcode as u16) << 12 | i.nnn, word);
            assert_eq!(i.nn, low);
        }
    }
}

#[test]
fn register_file_starts_at_the_program_start() {
    let registers = Registers::new();
    assert_eq!(registers.p_c, 0x0200);
    assert_eq!(registers.p_c, PROGRAM_START);
    assert_eq!(registers.ind, 0);
    for r in 0..16u8 {
        assert_eq!(registers.get(r), 0);
    }
}

#[test]
fn register_file_set_touches_one_register() {
    let mut registers = Registers::new();
    registers.p_c = 0x300;
    registers.ind = 0x123;
    registers.set(4, 0x44);
    registers.set(4, 0x44);
    for r in 0..16u8 {
        assert_eq!(registers.get(r), if r == 4 { 0x44 } else { 0 });
    }
    assert_eq!(registers.p_c, 0x300);
    assert_eq!(registers.ind, 0x123);
}

#[test]
fn set_flag_writes_the_last_register() {
    let mut registers = Registers::new();
    registers.set(0xE, 5);
    registers.set_flag(1);
    assert_eq!(registers.get(0xF), 1);
    assert_eq!(registers.get(0xE), 5);
    registers.set_flag(0);
    assert_eq!(registers.get(0xF), 0);
}

#[test]
fn timers_start_at_zero() {
    let timers = Timers::new();
    assert_eq!(timers, Timers { delay: 0, sound: 0, delta: 0 });
    assert!(!timers.sound_active());
}

#[test]
fn one_tick_takes_one_off_each_timer() {
    let mut timers = Timers::new();
    timers.set_delay(10);
    timers.set_sound(3);
    timers.decrement(33_333_333);
    assert_eq!(timers, Timers { delay: 9, sound: 2, delta: 999_999_980 });
    // with 40 sixtieths of a nanosecond carried over, pieces of 16 666 666
    // nanoseconds in all make exactly one tick
    let mut timers = Timers { delay: 10, sound: 3, delta: 40 };
    timers.decrement(6_666_666);
    assert_eq!((timers.delay, timers.sound), (10, 3));
    timers.decrement(5_000_000);
    assert_eq!((timers.delay, timers.sound), (10, 3));
    timers.decrement(5_000_000);
    assert_eq!(timers, Timers { delay: 9, sound: 2, delta: 0 });
}

#[test]
fn timers_wait_for_a_whole_tick() {
    let mut timers = Timers::new();
    timers.set_delay(2);
    timers.decrement(16_666_666);
    assert_eq!(timers.get_delay(), 2);
    assert_eq!(timers.delta, 999_999_960);
    timers.decrement(1);
    assert_eq!(timers.get_delay(), 1);
    assert_eq!(timers.delta, 20);
}

#[test]
fn timers_never_go_below_zero() {
    let mut timers = Timers::new();
    timers.set_delay(1);
    timers.decrement(1_000_000_000);
    assert_eq!(timers, Timers { delay: 0, sound: 0, delta: 0 });
    timers.decrement(u64::MAX);
    assert_eq!((timers.delay, timers.sound), (0, 0));
    assert!(timers.delta < 1_000_000_000);
}

#[test]
fn a_second_is_sixty_ticks() {
    let mut timers = Timers::new();
    timers.set_delay(200);
    timers.set_sound(61);
    timers.decrement(1_000_000_000);
    assert_eq!(timers, Timers { delay: 140, sound: 1, delta: 0 });
    assert!(timers.sound_active());
    timers.decrement(16_666_667);
    assert_eq!((timers.delay, timers.sound), (139, 0));
    assert!(!timers.sound_active());
}

#[test]
fn pieces_of_time_add_up() {
    let pieces: [u64; 6] = [1, 16_000_000, 700_000, 40_000_000, 3, 123_456_789];
    let mut piecewise = Timers { delay: 255, sound: 7, delta: 17 };
    let mut whole = piecewise;
    let mut sum = 0u64;
    for p in pieces {
        piecewise.decrement(p);
        sum += p;
    }
    whole.decrement(sum);
    assert_eq!(piecewise, whole);
    assert_eq!(whole.delay, 255 - ((17 + 60 * sum as u128) / 1_000_000_000) as u8);
    assert_eq!(whole.sound, 0);
}

#[test]
fn setters_touch_one_timer() {
    let mut timers = Timers { delay: 1, sound: 2, delta: 3 };
    timers.set_delay(9);
    assert_eq!(timers, Timers { delay: 9, sound: 2, delta: 3 });
    timers.set_sound(8);
    assert_eq!(timers, Timers { delay: 9, sound: 8, delta: 3 });
    assert_eq!(timers.get_delay(), 9);
}
