use chip8::components::{Ram, Registers, RAM_SIZE};
use chip8::error::Error;

#[test]
fn ram_starts_at_zero() {
    let ram = Ram::new();
    for addr in 0..RAM_SIZE {
        assert_eq!(ram.get(addr as u16), 0);
    }
}

#[test]
fn ram_set_then_get() {
    let mut ram = Ram::new();
    ram.set(0x200, 0xAB);
    ram.set(0xFFF, 0x01);
    assert_eq!(ram.get(0x200), 0xAB);
    assert_eq!(ram.get(0xFFF), 0x01);
    assert_eq!(ram.get(0x201), 0x00);
    assert_eq!(ram.get(0x1FF), 0x00);
}

#[test]
fn ram_read_and_write_check_the_address() {
    let mut ram = Ram::new();
    assert_eq!(ram.write(0x0FFF, 7), Ok(()));
    assert_eq!(ram.read(0x0FFF), Ok(7));
    assert_eq!(ram.write(0x1000, 7), Err(Error::OutOfBounds));
    assert_eq!(ram.read(0x1000), Err(Error::OutOfBounds));
    assert_eq!(ram.read(0xFFFF), Err(Error::OutOfBounds));
}

#[test]
fn ram_load_from_rom_copies_from_the_offset() {
    let mut ram = Ram::new();
    assert_eq!(ram.load_from_rom(0x200, &[1, 2, 3]), Ok(()));
    assert_eq!(ram.get(0x1FF), 0);
    assert_eq!(ram.get(0x200), 1);
    assert_eq!(ram.get(0x201), 2);
    assert_eq!(ram.get(0x202), 3);
    assert_eq!(ram.get(0x203), 0);
}

#[test]
fn ram_load_from_rom_fills_up_to_the_last_byte() {
    let mut ram = Ram::new();
    let rom = vec![0x5A; RAM_SIZE - 0x200];
    assert_eq!(ram.load_from_rom(0x200, &rom), Ok(()));
    assert_eq!(ram.get(0xFFF), 0x5A);
    assert_eq!(ram.load_from_rom(0x1000, &[]), Ok(()));
}

#[test]
fn ram_load_from_rom_refuses_what_does_not_fit() {
    let mut ram = Ram::new();
    ram.set(0xFFF, 9);
    let rom = vec![0x5A; RAM_SIZE - 0x200 + 1];
    assert_eq!(ram.load_from_rom(0x200, &rom), Err(Error::OutOfBounds));
    assert_eq!(ram.get(0x200), 0);
    assert_eq!(ram.get(0xFFF), 9);
    assert_eq!(ram.load_from_rom(0xFFF, &[1, 2]), Err(Error::OutOfBounds));
    assert_eq!(ram.get(0xFFF), 9);
    assert_eq!(ram.load_from_rom(0xFFFF, &[1]), Err(Error::OutOfBounds));
}

#[test]
fn dump_of_one_row() {
    let mut ram = Ram::new();
    ram.set(0, 0xF0);
    ram.set(1, 0x09);
    assert_eq!(ram.generate_dump(0, 3), "  0x0 => 0xF0  0x9  0x0");
    assert_eq!(ram.generate_dump(1, 2), "  0x9");
    assert_eq!(ram.generate_dump(5, 5), "");
    assert_eq!(ram.generate_dump(9, 3), "");
}

#[test]
fn dump_breaks_the_line_before_the_last_byte_of_a_row() {
    let mut ram = Ram::new();
    ram.set(0x20F, 0xAA);
    ram.set(0x210, 0xBB);
    assert_eq!(ram.generate_dump(0x20E, 0x211), "  0x0\n 0xAA0x210 => 0xBB");
}

#[test]
fn dump_of_all_memory() {
    let mut ram = Ram::new();
    for addr in 0..RAM_SIZE {
        ram.set(addr as u16, (addr * 7 % 256) as u8);
    }
    let mut expected = String::new();
    for i in 0..RAM_SIZE {
        if i % 16 == 0 {
            expected += format!("{:#5X} =>", i).as_str();
        }
        if i % 16 == 15 {
            expected += "\n";
        }
        expected += format!(" {:#4X}", ram.get(i as u16)).as_str();
    }
    assert_eq!(ram.generate_dump(0, 4096), expected);
}

#[test]
fn registers_start_at_zero() {
    let registers = Registers::new();
    for r in 0..16u8 {
        assert_eq!(registers.get(r), 0);
    }
}

#[test]
fn register_writes_are_isolated() {
    for i in 0..16u8 {
        let mut registers = Registers::new();
        for r in 0..16u8 {
            registers.set(r, 0x10 + r);
        }
        registers.set(i, 0xEE);
        for j in 0..16u8 {
            if j == i {
                assert_eq!(registers.get(j), 0xEE);
            } else {
                assert_eq!(registers.get(j), 0x10 + j);
            }
        }
    }
}

#[test]
fn register_writes_are_idempotent() {
    let mut once = Registers::new();
    let mut twice = Registers::new();
    once.set(3, 0x42);
    twice.set(3, 0x42);
    twice.set(3, 0x42);
    for r in 0..16u8 {
        assert_eq!(once.get(r), twice.get(r));
    }
}

#[test]
fn registers_read_and_write_check_the_index() {
    let mut registers = Registers::new();
    assert_eq!(registers.write(0xF, 1), Ok(()));
    assert_eq!(registers.read(0xF), Ok(1));
    assert_eq!(registers.write(0x10, 1), Err(Error::OutOfBounds));
    assert_eq!(registers.read(0x10), Err(Error::OutOfBounds));
    assert_eq!(registers.read(0xFF), Err(Error::OutOfBounds));
    assert_eq!(registers.read(0xF), Ok(1));
}
