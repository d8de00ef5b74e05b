//! Parts of the machine that do not depend on one another: a memory whose
//! size is a field, the call stack, the decoder, the register file with its
//! two wide registers, and the pair of timers.

use vstd::prelude::*;
use crate::components::loaded;
use crate::error::Error;
use crate::font::FONT;

verus! {

/// Where a program starts: the address below which the glyphs and other
/// reserved bytes lie.
pub const PROGRAM_START: u16 = 0x0200;

/// How many times a second the timers count down.
pub const TICKS_PER_SECOND: u128 = 60;

/// Nanoseconds in a second, and at once the length of one tick in
/// sixtieths of a nanosecond, the unit in which a timer pair keeps time.
pub const NANOS_PER_SECOND: u128 = 1_000_000_000;

/// Memory of `range` bytes.
pub struct RAM {
    pub range: u16,
    pub space: Vec<u8>,
}

impl View for RAM {
    type V = Seq<u8>;

    open spec fn view(&self) -> Seq<u8> {
        self.space@
    }
}

impl RAM {
    /// The memory holds as many bytes as `range` says.
    pub open spec fn wf(&self) -> bool {
        self@.len() == self.range
    }

    /// Memory of 4096 bytes that holds zero at every address.
    pub fn empty() -> (ram: RAM)
        ensures
            ram.wf(),
            ram.range == 4096,
            ram@ == Seq::new(4096, |i: int| 0u8),
    {
        let ram = RAM { range: 4096u16, space: vec![0u8; 4096] };
        assert(ram@ =~= Seq::new(4096, |i: int| 0u8));
        ram
    }

    /// Puts the built-in glyphs at the bottom of memory.
    pub fn init_default(&mut self)
        requires
            old(self).wf(),
            old(self).range >= FONT@.len(),
        ensures
            final(self).wf(),
            final(self).range == old(self).range,
            final(self)@ == loaded(old(self)@, 0, FONT@),
    {
        let mut i: usize = 0;
        while i < 80
            invariant
                i <= 80,
                self.wf(),
                self.range == old(self).range,
                self.range >= 80,
                self@ == loaded(old(self)@, 0, FONT@.take(i as int)),
            decreases 80 - i,
        {
            self.space.set(i, FONT[i]);
            i = i + 1;
            assert(self@ =~= loaded(old(self)@, 0, FONT@.take(i as int)));
        }
        assert(FONT@.take(80) =~= FONT@);
    }

    /// Copies `bytes`, the content of a ROM, into memory from address
    /// `start_index` on. Where they do not fit below the end of memory
    /// nothing is copied and `OutOfBounds` is reported.
    pub fn load_from_rom(&mut self, bytes: &[u8], start_index: u16) -> (r: Result<(), Error>)
        requires
            old(self).wf(),
        ensures
            final(self).wf(),
            final(self).range == old(self).range,
            match r {
                Ok(()) => start_index + bytes@.len() <= old(self).range && final(self)@ == loaded(
                    old(self)@,
                    start_index as int,
                    bytes@,
                ),
                Err(e) => start_index + bytes@.len() > old(self).range && e == Error::OutOfBounds
                    && final(self)@ == old(self)@,
            },
    {
        let start: usize = start_index as usize;
        let range: usize = self.range as usize;
        if start > range || bytes.len() > range - start {
            return Err(Error::OutOfBounds);
        }
        let mut i: usize = 0;
        while i < bytes.len()
            invariant
                start == start_index,
                range == self.range,
                start + bytes@.len() <= range,
                i <= bytes@.len(),
                self.wf(),
                self.range == old(self).range,
                self@ == loaded(old(self)@, start_index as int, bytes@.take(i as int)),
            decreases bytes@.len() - i,
        {
            self.space.set(start + i, bytes[i]);
            i = i + 1;
            assert(self@ =~= loaded(old(self)@, start_index as int, bytes@.take(i as int)));
        }
        assert(bytes@.take(i as int) =~= bytes@);
        Ok(())
    }

    /// The byte at `index`.
    pub fn get(&self, index: u16) -> (val: u8)
        requires
            self.wf(),
            index < self.range,
        ensures
            val == self@[index as int],
    {
        self.space[index as usize]
    }

    /// Stores `value` at `index`; every other address keeps its byte.
    pub fn set(&mut self, index: u16, value: u8)
        requires
            old(self).wf(),
            index < old(self).range,
        ensures
            final(self).wf(),
            final(self).range == old(self).range,
            final(self)@ == old(self)@.update(index as int, value),
    {
        self.space.set(index as usize, value);
    }
}

/// The return addresses of the calls that have not returned yet, the latest
/// last.
pub struct Stack {
    pub pointers: Vec<u16>,
    pub size: usize,
}

impl View for Stack {
    type V = Seq<u16>;

    open spec fn view(&self) -> Seq<u16> {
        self.pointers@
    }
}

impl Stack {
    /// `size` counts the addresses held.
    pub open spec fn wf(&self) -> bool {
        self.size == self@.len()
    }

    /// A stack that holds no address.
    pub fn empty() -> (stack: Stack)
        ensures
            stack.wf(),
            stack@ == Seq::<u16>::empty(),
    {
        Stack { pointers: Vec::new(), size: 0 }
    }

    /// Puts `pointer` on top.
    pub fn push(&mut self, pointer: u16)
        requires
            old(self).wf(),
        ensures
            final(self).wf(),
            final(self)@ == old(self)@.push(pointer),
    {
        self.pointers.push(pointer);
        self.size = self.pointers.len();
    }

    /// Takes the top address off and returns it; `StackUnderflow` where the
    /// stack holds none.
    pub fn pop(&mut self) -> (r: Result<u16, Error>)
        requires
            old(self).wf(),
        ensures
            final(self).wf(),
            match r {
                Ok(pointer) => old(self)@.len() > 0 && pointer == old(self)@.last()
                    && final(self)@ == old(self)@.drop_last(),
                Err(e) => old(self)@.len() == 0 && e == Error::StackUnderflow && final(self)@
                    == old(self)@,
            },
    {
        match self.pointers.pop() {
            Some(pointer) => {
                self.size = self.pointers.len();
                Ok(pointer)
            },
            None => Err(Error::StackUnderflow),
        }
    }
}

/// The fields of one instruction word.
#[derive(Clone, Copy, Debug, PartialEq, Eq, Structural)]
pub struct Instruction {
    /// The top four bits, which select the family of operations.
    pub opcode: u8,
    /// The second group of four bits: a register.
    pub x: u8,
    /// The third group of four bits: a register.
    pub y: u8,
    /// The lowest four bits.
    pub n: u8,
    /// The low byte.
    pub nn: u8,
    /// The low twelve bits: an address.
    pub nnn: u16,
}

impl Instruction {
    /// The fields of the word whose high byte is `highbyte` and whose low
    /// byte is `lowbyte`.
    pub open spec fn decoded(highbyte: u8, lowbyte: u8) -> Instruction {
        Instruction {
            opcode: highbyte / 16,
            x: highbyte % 16,
            y: lowbyte / 16,
            n: lowbyte % 16,
            nn: lowbyte,
            nnn: ((highbyte % 16) * 256 + lowbyte) as u16,
        }
    }

    /// The word that the four groups of four bits make up, highest first.
    pub open spec fn word(opcode: u8, x: u8, y: u8, n: u8) -> int {
        opcode * 4096 + x * 256 + y * 16 + n
    }

    /// Splits an instruction word, given as its two bytes, into its fields.
    pub fn from_bytes(highbyte: u8, lowbyte: u8) -> (instruction: Instruction)
        ensures
            instruction == Self::decoded(highbyte, lowbyte),
    {
        assert((highbyte & 0xF0) >> 4 == highbyte / 16) by (bit_vector);
        assert(highbyte & 0x0F == highbyte % 16) by (bit_vector);
        assert((lowbyte & 0xF0) >> 4 == lowbyte / 16) by (bit_vector);
        assert(lowbyte & 0x0F == lowbyte % 16) by (bit_vector);
        assert((((highbyte as u16) << 8) | lowbyte as u16) & 0x0FFF == (highbyte % 16) * 256
            + lowbyte) by (bit_vector);
        Instruction {
            opcode: (highbyte & 0xF0) >> 4,
            x: highbyte & 0x0F,
            y: (lowbyte & 0xF0) >> 4,
            n: lowbyte & 0x0F,
            nn: lowbyte,
            nnn: (((highbyte as u16) << 8) | lowbyte as u16) & 0x0FFF,
        }
    }

    /// Decoding loses nothing: each field is in its range, and the fields put
    /// together again give the two bytes that were decoded.
    pub proof fn lemma_decode_is_exact(highbyte: u8, lowbyte: u8)
        ensures
            ({
                let i = Self::decoded(highbyte, lowbyte);
                &&& i.opcode < 16 && i.x < 16 && i.y < 16 && i.n < 16 && i.nnn < 4096
                &&& Self::word(i.opcode, i.x, i.y, i.n) == highbyte * 256 + lowbyte
                &&& i.opcode * 4096 + i.nnn == highbyte * 256 + lowbyte
                &&& i.nnn == i.x * 256 + i.y * 16 + i.n
                &&& i.nn == i.y * 16 + i.n
            }),
    {
    }
}

/// The register file: sixteen general registers of one byte, the program
/// counter and the address register.
pub struct Registers {
    /// The program counter.
    pub p_c: u16,
    /// The address register.
    pub ind: u16,
    pub gen: Vec<u8>,
}

impl View for Registers {
    type V = Seq<u8>;

    open spec fn view(&self) -> Seq<u8> {
        self.gen@
    }
}

impl Registers {
    /// There are sixteen general registers.
    pub open spec fn wf(&self) -> bool {
        self@.len() == 0x10
    }

    /// Registers as they are when the machine starts: the general registers
    /// and the address register hold zero, the program counter the address
    /// at which programs start.
    pub fn new() -> (registers: Registers)
        ensures
            registers.wf(),
            registers.p_c == PROGRAM_START,
            registers.ind == 0,
            registers@ == Seq::new(0x10, |i: int| 0u8),
    {
        let registers = Registers { p_c: 0x0200, ind: 0x0000, gen: vec![0u8; 0x10] };
        assert(registers@ =~= Seq::new(0x10, |i: int| 0u8));
        registers
    }

    /// What general register `reg` holds.
    pub fn get(&self, reg: u8) -> (val: u8)
        requires
            self.wf(),
            reg < 0x10,
        ensures
            val == self@[reg as int],
    {
        self.gen[reg as usize]
    }

    /// Puts `val` into general register `reg`; nothing else changes.
    pub fn set(&mut self, reg: u8, val: u8)
        requires
            old(self).wf(),
            reg < 0x10,
        ensures
            final(self).wf(),
            final(self).p_c == old(self).p_c,
            final(self).ind == old(self).ind,
            final(self)@ == old(self)@.update(reg as int, val),
    {
        self.gen.set(reg as usize, val);
    }

    /// Puts `val` into the flag register, the last of the general registers;
    /// nothing else changes.
    pub fn set_flag(&mut self, val: u8)
        requires
            old(self).wf(),
        ensures
            final(self).wf(),
            final(self).p_c == old(self).p_c,
            final(self).ind == old(self).ind,
            final(self)@ == old(self)@.update(0xF, val),
    {
        self.gen.set(0xF, val);
    }
}

/// A counter after `ticks` ticks: one less for each, but never below zero.
pub open spec fn counted_down(counter: u8, ticks: nat) -> u8 {
    if ticks >= counter {
        0
    } else {
        (counter - ticks) as u8
    }
}

/// The delay timer and the sound timer, which count down sixty times a
/// second, and the time that has passed since their last tick.
#[derive(Clone, Copy, Debug, PartialEq, Eq, Structural)]
pub struct Timers {
    pub delay: u8,
    pub sound: u8,
    /// Time since the last tick, in sixtieths of a nanosecond.
    pub delta: u128,
}

impl Timers {
    /// Less than one tick is carried over.
    pub open spec fn wf(&self) -> bool {
        self.delta < NANOS_PER_SECOND
    }

    /// The time carried over and `elapsed_nanos` more, in sixtieths of a
    /// nanosecond.
    pub open spec fn accumulated(self, elapsed_nanos: nat) -> nat {
        self.delta as nat + TICKS_PER_SECOND as nat * elapsed_nanos
    }

    /// The timers after `elapsed_nanos` more nanoseconds: each whole tick in
    /// the accumulated time has counted both down by one, and what remains
    /// of the time is carried over.
    pub open spec fn after(self, elapsed_nanos: nat) -> Timers {
        let ticks: nat = self.accumulated(elapsed_nanos) / (NANOS_PER_SECOND as nat);
        Timers {
            delay: counted_down(self.delay, ticks),
            sound: counted_down(self.sound, ticks),
            delta: (self.accumulated(elapsed_nanos) % (NANOS_PER_SECOND as nat)) as u128,
        }
    }

    /// The timers after the stretches of time in `increments` have passed one
    /// after the other.
    pub open spec fn after_all(self, increments: Seq<u64>) -> Timers
        decreases increments.len(),
    {
        if increments.len() == 0 {
            self
        } else {
            self.after_all(increments.drop_last()).after(increments.last() as nat)
        }
    }

    /// The sum of the stretches of time in `increments`.
    pub open spec fn total(increments: Seq<u64>) -> nat
        decreases increments.len(),
    {
        if increments.len() == 0 {
            0
        } else {
            Self::total(increments.drop_last()) + increments.last() as nat
        }
    }

    /// Timers at zero, with no time carried over.
    pub fn new() -> (timers: Timers)
        ensures
            timers == (Timers { delay: 0, sound: 0, delta: 0 }),
            timers.wf(),
    {
        Timers { delay: 0u8, sound: 0u8, delta: 0 }
    }

    /// Lets `elapsed_nanos` nanoseconds pass.
    pub fn decrement(&mut self, elapsed_nanos: u64)
        requires
            old(self).wf(),
        ensures
            *final(self) == old(self).after(elapsed_nanos as nat),
            final(self).wf(),
    {
        let total: u128 = self.delta + TICKS_PER_SECOND * (elapsed_nanos as u128);
        let ticks: u128 = total / NANOS_PER_SECOND;
        self.delay = if ticks >= self.delay as u128 {
            0
        } else {
            self.delay - ticks as u8
        };
        self.sound = if ticks >= self.sound as u128 {
            0
        } else {
            self.sound - ticks as u8
        };
        self.delta = total % NANOS_PER_SECOND;
    }

    /// Sets the delay timer.
    pub fn set_delay(&mut self, value: u8)
        ensures
            *final(self) == (Timers { delay: value, ..*old(self) }),
    {
        self.delay = value;
    }

    /// Sets the sound timer.
    pub fn set_sound(&mut self, value: u8)
        ensures
            *final(self) == (Timers { sound: value, ..*old(self) }),
    {
        self.sound = value;
    }

    /// What the delay timer holds.
    pub fn get_delay(&self) -> (value: u8)
        ensures
            value == self.delay,
    {
        self.delay
    }

    /// Whether a tone is due: the sound timer has not run out.
    pub fn sound_active(&self) -> (active: bool)
        ensures
            active == (self.sound > 0),
    {
        self.sound > 0
    }

    /// Time may be fed in one piece or in two: what comes of it is the same.
    pub proof fn lemma_after_adds(self, first: nat, second: nat)
        requires
            self.wf(),
        ensures
            self.after(first).wf(),
            self.after(first).after(second) == self.after(first + second),
    {
        let n: nat = NANOS_PER_SECOND as nat;
        let a: nat = self.accumulated(first);
        let b: nat = TICKS_PER_SECOND as nat * second;
        assert(self.accumulated(first + second) == a + b) by (nonlinear_arith)
            requires
                a == self.delta as nat + 60 * first,
                b == 60 * second,
                self.accumulated(first + second) == self.delta as nat + 60 * (first + second),
        ;
        assert(self.after(first).accumulated(second) == a % n + b);
        assert((a % n + b) / n + a / n == (a + b) / n && (a % n + b) % n == (a + b) % n)
            by (nonlinear_arith)
            requires
                n == 1_000_000_000,
        ;
    }

    /// However a stretch of time is cut into pieces, feeding the pieces one
    /// after the other leaves the timers as feeding the whole at once does.
    pub proof fn lemma_pieces_add_up(self, increments: Seq<u64>)
        requires
            self.wf(),
        ensures
            self.after_all(increments).wf(),
            self.after_all(increments) == self.after(Self::total(increments)),
        decreases increments.len(),
    {
        if increments.len() == 0 {
            assert(self.after(0) == self);
        } else {
            self.lemma_pieces_add_up(increments.drop_last());
            self.lemma_after_adds(Self::total(increments.drop_last()), increments.last() as nat);
        }
    }

    /// Where the pieces of time fed, together with what was carried over,
    /// come to exactly one tick, each timer has lost exactly one, unless it
    /// was at zero and stays there, and nothing is carried over.
    pub proof fn lemma_one_tick(self, increments: Seq<u64>)
        requires
            self.wf(),
            self.accumulated(Self::total(increments)) == NANOS_PER_SECOND,
        ensures
            self.after_all(increments).delay == if self.delay == 0 {
                0
            } else {
                self.delay - 1
            },
            self.after_all(increments).sound == if self.sound == 0 {
                0
            } else {
                self.sound - 1
            },
            self.after_all(increments).delta == 0,
    {
        self.lemma_pieces_add_up(increments);
    }
}

} // verus!
