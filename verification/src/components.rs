//! The two fixed-size stores of the machine: its memory and its general
//! registers.

use vstd::prelude::*;
use crate::error::Error;
use crate::text::{hex_prefixed, push_hex};

verus! {

/// Number of bytes of memory.
pub const RAM_SIZE: usize = 4096;

/// Number of general registers.
pub const NUM_REGISTERS: usize = 0x10;

/// Memory after `bytes` were copied into `mem` from address `offset` on.
pub open spec fn loaded(mem: Seq<u8>, offset: int, bytes: Seq<u8>) -> Seq<u8> {
    Seq::new(
        mem.len(),
        |i: int|
            if offset <= i < offset + bytes.len() {
                bytes[i - offset]
            } else {
                mem[i]
            },
    )
}

/// The text that a dump gives for the byte at address `i`: at the start of a
/// row of sixteen the address and an arrow, before the last byte of a row a
/// line break, then a space and the byte.
pub open spec fn dump_cell(mem: Seq<u8>, i: int) -> Seq<char> {
    let head: Seq<char> = if i % 16 == 0 {
        hex_prefixed(i as nat, 5) + seq![' ', '=', '>']
    } else {
        Seq::<char>::empty()
    };
    let turn: Seq<char> = if i % 16 == 15 {
        seq!['\n']
    } else {
        Seq::<char>::empty()
    };
    head + turn + seq![' '] + hex_prefixed(mem[i] as nat, 4)
}

/// The dump of the bytes at the addresses from `start` up to, not including,
/// `end`.
pub open spec fn dump_text(mem: Seq<u8>, start: int, end: int) -> Seq<char>
    decreases end - start,
{
    if start >= end {
        Seq::<char>::empty()
    } else {
        dump_text(mem, start, end - 1) + dump_cell(mem, end - 1)
    }
}

/// The machine's memory: 4096 bytes, addressed from zero.
pub struct Ram {
    pub space: [u8; RAM_SIZE],
}

impl View for Ram {
    type V = Seq<u8>;

    open spec fn view(&self) -> Seq<u8> {
        self.space@
    }
}

impl Ram {
    /// Memory that holds zero at every address.
    pub fn new() -> (ram: Ram)
        ensures
            ram@ == Seq::new(RAM_SIZE as nat, |i: int| 0u8),
    {
        let ram = Ram { space: [0u8; 4096] };
        assert(ram@ =~= Seq::new(RAM_SIZE as nat, |i: int| 0u8));
        ram
    }

    /// The byte at `addr`.
    pub fn get(&self, addr: u16) -> (val: u8)
        requires
            addr < RAM_SIZE,
        ensures
            val == self@[addr as int],
    {
        self.space[addr as usize]
    }

    /// Stores `val` at `addr`; every other address keeps its byte.
    pub fn set(&mut self, addr: u16, val: u8)
        requires
            addr < RAM_SIZE,
        ensures
            final(self)@ == old(self)@.update(addr as int, val),
    {
        self.space[addr as usize] = val;
    }

    /// The byte at `addr`, or `OutOfBounds` where `addr` lies past the end of
    /// memory.
    pub fn read(&self, addr: u16) -> (r: Result<u8, Error>)
        ensures
            match r {
                Ok(val) => addr < RAM_SIZE && val == self@[addr as int],
                Err(e) => addr >= RAM_SIZE && e == Error::OutOfBounds,
            },
    {
        if (addr as usize) < RAM_SIZE {
            Ok(self.get(addr))
        } else {
            Err(Error::OutOfBounds)
        }
    }

    /// Stores `val` at `addr`, or reports `OutOfBounds` and changes nothing
    /// where `addr` lies past the end of memory.
    pub fn write(&mut self, addr: u16, val: u8) -> (r: Result<(), Error>)
        ensures
            match r {
                Ok(()) => addr < RAM_SIZE && final(self)@ == old(self)@.update(addr as int, val),
                Err(e) => addr >= RAM_SIZE && e == Error::OutOfBounds && final(self)@ == old(self)@,
            },
    {
        if (addr as usize) < RAM_SIZE {
            self.set(addr, val);
            Ok(())
        } else {
            Err(Error::OutOfBounds)
        }
    }

    /// Copies `bytes`, the content of a ROM, into memory from address `loc`
    /// on. Where they do not fit below the end of memory nothing is copied
    /// and `OutOfBounds` is reported.
    pub fn load_from_rom(&mut self, loc: u16, bytes: &[u8]) -> (r: Result<(), Error>)
        ensures
            match r {
                Ok(()) => loc + bytes@.len() <= RAM_SIZE && final(self)@ == loaded(
                    old(self)@,
                    loc as int,
                    bytes@,
                ),
                Err(e) => loc + bytes@.len() > RAM_SIZE && e == Error::OutOfBounds
                    && final(self)@ == old(self)@,
            },
    {
        let start: usize = loc as usize;
        if start > RAM_SIZE || bytes.len() > RAM_SIZE - start {
            return Err(Error::OutOfBounds);
        }
        let mut i: usize = 0;
        while i < bytes.len()
            invariant
                start == loc,
                start + bytes@.len() <= RAM_SIZE,
                i <= bytes@.len(),
                self@ == loaded(old(self)@, loc as int, bytes@.take(i as int)),
            decreases bytes@.len() - i,
        {
            self.space[start + i] = bytes[i];
            i = i + 1;
            assert(self@ =~= loaded(old(self)@, loc as int, bytes@.take(i as int)));
        }
        assert(bytes@.take(i as int) =~= bytes@);
        Ok(())
    }

    /// A dump of the bytes from `start_loc` up to, not including, `end_loc`,
    /// sixteen to a row.
    pub fn generate_dump(&self, start_loc: u16, end_loc: u16) -> (dump: String)
        requires
            start_loc < end_loc ==> end_loc <= RAM_SIZE,
        ensures
            dump@ == dump_text(self@, start_loc as int, end_loc as int),
    {
        let mut dump: String = String::new();
        let mut i: u16 = start_loc;
        while i < end_loc
            invariant
                start_loc < end_loc ==> end_loc <= RAM_SIZE,
                start_loc <= i,
                i <= end_loc || i == start_loc,
                dump@ == dump_text(self@, start_loc as int, i as int),
            decreases end_loc - i,
        {
            let ghost before: Seq<char> = dump@;
            if i % 16 == 0 {
                push_hex(&mut dump, i, 5);
                proof {
                    reveal_strlit(" =>");
                    assert(" =>"@ =~= seq![' ', '=', '>']);
                }
                dump.append(" =>");
            }
            if i % 16 == 15 {
                proof {
                    reveal_strlit("\n");
                    assert("\n"@ =~= seq!['\n']);
                }
                dump.append("\n");
            }
            proof {
                reveal_strlit(" ");
                assert(" "@ =~= seq![' ']);
            }
            dump.append(" ");
            push_hex(&mut dump, self.get(i) as u16, 4);
            assert(dump@ =~= before + dump_cell(self@, i as int));
            i = i + 1;
        }
        dump
    }
}

/// The sixteen general registers, one byte each.
pub struct Registers {
    pub space: [u8; NUM_REGISTERS],
}

impl View for Registers {
    type V = Seq<u8>;

    open spec fn view(&self) -> Seq<u8> {
        self.space@
    }
}

impl Registers {
    /// Sixteen registers that hold zero.
    pub fn new() -> (registers: Registers)
        ensures
            registers@ == Seq::new(NUM_REGISTERS as nat, |i: int| 0u8),
    {
        let registers = Registers { space: [0u8; 16] };
        assert(registers@ =~= Seq::new(NUM_REGISTERS as nat, |i: int| 0u8));
        registers
    }

    /// What register `addr` holds.
    pub fn get(&self, addr: u8) -> (val: u8)
        requires
            addr < NUM_REGISTERS,
        ensures
            val == self@[addr as int],
    {
        self.space[addr as usize]
    }

    /// Puts `val` into register `addr`; every other register keeps its value.
    pub fn set(&mut self, addr: u8, val: u8)
        requires
            addr < NUM_REGISTERS,
        ensures
            final(self)@ == old(self)@.update(addr as int, val),
    {
        self.space[addr as usize] = val;
    }

    /// What register `addr` holds, or `OutOfBounds` where there is no such
    /// register.
    pub fn read(&self, addr: u8) -> (r: Result<u8, Error>)
        ensures
            match r {
                Ok(val) => addr < NUM_REGISTERS && val == self@[addr as int],
                Err(e) => addr >= NUM_REGISTERS && e == Error::OutOfBounds,
            },
    {
        if (addr as usize) < NUM_REGISTERS {
            Ok(self.get(addr))
        } else {
            Err(Error::OutOfBounds)
        }
    }

    /// Puts `val` into register `addr`, or reports `OutOfBounds` and changes
    /// nothing where there is no such register.
    pub fn write(&mut self, addr: u8, val: u8) -> (r: Result<(), Error>)
        ensures
            match r {
                Ok(()) => addr < NUM_REGISTERS && final(self)@ == old(self)@.update(
                    addr as int,
                    val,
                ),
                Err(e) => addr >= NUM_REGISTERS && e == Error::OutOfBounds
                    && final(self)@ == old(self)@,
            },
    {
        if (addr as usize) < NUM_REGISTERS {
            self.set(addr, val);
            Ok(())
        } else {
            Err(Error::OutOfBounds)
        }
    }
}

/// Writing a register twice with one value leaves what a single write leaves.
pub proof fn lemma_write_idempotent(registers: Seq<u8>, i: int, val: u8)
    requires
        0 <= i < registers.len(),
    ensures
        registers.update(i, val).update(i, val) == registers.update(i, val),
{
    assert(registers.update(i, val).update(i, val) =~= registers.update(i, val));
}

/// Writing register `i` changes no other register, and register `i` then
/// holds what was written.
pub proof fn lemma_write_isolated(registers: Seq<u8>, i: int, j: int, val: u8)
    requires
        0 <= i < registers.len(),
        0 <= j < registers.len(),
    ensures
        registers.update(i, val).len() == registers.len(),
        registers.update(i, val)[i] == val,
        j != i ==> registers.update(i, val)[j] == registers[j],
{
}

} // verus!
