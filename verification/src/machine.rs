//! What the machine is and what one cycle makes of it, as mathematics: the
//! interpreter is proved to do exactly this.

use vstd::prelude::*;
use crate::components::loaded;
use crate::computerparts::{Timers, PROGRAM_START};
use crate::display::{blank, collides, drawn};
use crate::error::Error;
use crate::font::FONT;
use crate::input::{first_held, held};
use crate::instructions::{Instruction, Operation};
use crate::quirks::Quirks;
use crate::text::{decimal_digits, hex_digits, hex_prefixed};

verus! {

/// All that the machine holds.
#[verifier::ext_equal]
pub struct Machine {
    /// The 4096 bytes of memory.
    pub memory: Seq<u8>,
    /// The sixteen general registers; the last one is the flag.
    pub registers: Seq<u8>,
    /// The program counter: the address of the next instruction.
    pub pc: u16,
    /// The address register.
    pub address: u16,
    /// The return addresses of the calls that have not returned, latest last.
    pub stack: Seq<u16>,
    /// The delay and the sound timer.
    pub timers: Timers,
    /// The 2048 pixels, row by row.
    pub display: Seq<bool>,
    /// Which of the sixteen keys are held.
    pub keys: Seq<bool>,
    /// The register that waits for a key, if one does.
    pub blocked: Option<u8>,
    /// The settings that the machine was made with.
    pub quirks: Quirks,
}

impl Machine {
    /// Every part has its size, and a register that waits is one of the
    /// sixteen.
    pub open spec fn wf(self) -> bool {
        &&& self.memory.len() == 4096
        &&& self.registers.len() == 16
        &&& self.display.len() == 2048
        &&& self.keys.len() == 16
        &&& self.timers.wf()
        &&& (self.blocked matches Some(register) ==> register < 16)
    }

    /// The machine as it is switched on: the glyphs at the bottom of a
    /// memory that is zero elsewhere, the program counter at the start of
    /// programs, everything else zero, off or empty.
    pub open spec fn initial(quirks: Quirks) -> Machine {
        Machine {
            memory: loaded(Seq::new(4096, |i: int| 0u8), 0, FONT@),
            registers: Seq::new(16, |i: int| 0u8),
            pc: PROGRAM_START,
            address: 0,
            stack: Seq::empty(),
            timers: Timers { delay: 0, sound: 0, delta: 0 },
            display: blank(),
            keys: Seq::new(16, |i: int| false),
            blocked: None,
            quirks,
        }
    }

    /// The machine with `val` in register `x`.
    pub open spec fn set(self, x: u8, val: u8) -> Machine {
        Machine { registers: self.registers.update(x as int, val), ..self }
    }

    /// The machine with the flag register at 1 if `on`, else at 0.
    pub open spec fn flag(self, on: bool) -> Machine {
        self.set(
            0xF,
            if on {
                1u8
            } else {
                0u8
            },
        )
    }

    /// The machine with the program counter past one more instruction if
    /// `cond`.
    pub open spec fn skip_if(self, cond: bool) -> Machine {
        if cond {
            Machine { pc: (self.pc + 2) as u16, ..self }
        } else {
            self
        }
    }

    /// The instruction that the program counter points to.
    pub open spec fn instruction(self) -> Instruction {
        Instruction::decoded(self.memory[self.pc as int], self.memory[self.pc + 1])
    }

    /// What the machine is once it has performed `op`; the program counter
    /// is taken to be past the instruction already. `random` is the byte
    /// that chance gave.
    pub open spec fn perform(self, op: Operation, random: u8) -> Result<Machine, Error> {
        let reg = self.registers;
        match op {
            Operation::ClearScreen => Ok(Machine { display: blank(), ..self }),
            Operation::Return => if self.stack.len() == 0 {
                Err(Error::StackUnderflow)
            } else {
                Ok(Machine { pc: self.stack.last(), stack: self.stack.drop_last(), ..self })
            },
            Operation::Jump { addr } => Ok(Machine { pc: addr, ..self }),
            Operation::Call { addr } => Ok(
                Machine { pc: addr, stack: self.stack.push(self.pc), ..self },
            ),
            Operation::SkipIfEqual { x, byte } => Ok(self.skip_if(reg[x as int] == byte)),
            Operation::SkipIfNotEqual { x, byte } => Ok(self.skip_if(reg[x as int] != byte)),
            Operation::SkipIfRegistersEqual { x, y } => Ok(
                self.skip_if(reg[x as int] == reg[y as int]),
            ),
            Operation::Load { x, byte } => Ok(self.set(x, byte)),
            Operation::AddImmediate { x, byte } => Ok(
                self.set(x, ((reg[x as int] + byte) % 256) as u8),
            ),
            Operation::Copy { x, y } => Ok(self.set(x, reg[y as int])),
            Operation::Or { x, y } => Ok(self.set(x, reg[x as int] | reg[y as int])),
            Operation::And { x, y } => Ok(self.set(x, reg[x as int] & reg[y as int])),
            Operation::Xor { x, y } => Ok(self.set(x, reg[x as int] ^ reg[y as int])),
            Operation::Add { x, y } => Ok(
                self.set(x, ((reg[x as int] + reg[y as int]) % 256) as u8).flag(
                    reg[x as int] + reg[y as int] > 255,
                ),
            ),
            Operation::Subtract { x, y } => Ok(
                self.set(x, ((reg[x as int] - reg[y as int]) % 256) as u8).flag(
                    reg[x as int] >= reg[y as int],
                ),
            ),
            Operation::ShiftRight { x, source } => Ok(
                self.set(x, reg[source as int] / 2).flag(reg[source as int] % 2 == 1),
            ),
            Operation::SubtractFrom { x, y } => Ok(
                self.set(x, ((reg[y as int] - reg[x as int]) % 256) as u8).flag(
                    reg[y as int] >= reg[x as int],
                ),
            ),
            Operation::ShiftLeft { x, source } => Ok(
                self.set(x, ((reg[source as int] * 2) % 256) as u8).flag(
                    reg[source as int] >= 128,
                ),
            ),
            Operation::SkipIfRegistersDiffer { x, y } => Ok(
                self.skip_if(reg[x as int] != reg[y as int]),
            ),
            Operation::SetAddress { addr } => Ok(Machine { address: addr, ..self }),
            Operation::JumpOffset { register, addr } => Ok(
                Machine { pc: (addr + reg[register as int]) as u16, ..self },
            ),
            Operation::Random { x, byte } => Ok(self.set(x, random & byte)),
            Operation::Draw { x, y, n } => if self.address + n > 4096 {
                Err(Error::OutOfBounds)
            } else {
                let rows = self.memory.subrange(self.address as int, self.address + n);
                let col = reg[x as int] as int;
                let row = reg[y as int] as int;
                Ok(
                    Machine { display: drawn(self.display, col, row, rows), ..self }.flag(
                        collides(self.display, col, row, rows),
                    ),
                )
            },
            Operation::SkipIfKeyHeld { x } => Ok(
                self.skip_if(held(self.keys, reg[x as int] as int)),
            ),
            Operation::SkipIfKeyReleased { x } => Ok(
                self.skip_if(!held(self.keys, reg[x as int] as int)),
            ),
            Operation::ReadDelay { x } => Ok(self.set(x, self.timers.delay)),
            Operation::WaitForKey { x } => Ok(Machine { blocked: Some(x), ..self }),
            Operation::SetDelay { x } => Ok(
                Machine { timers: Timers { delay: reg[x as int], ..self.timers }, ..self },
            ),
            Operation::SetSound { x } => Ok(
                Machine { timers: Timers { sound: reg[x as int], ..self.timers }, ..self },
            ),
            Operation::AddToAddress { x } => Ok(
                Machine { address: ((self.address + reg[x as int]) % 0x10000) as u16, ..self },
            ),
            Operation::Glyph { x } => Ok(Machine { address: (reg[x as int] * 5) as u16, ..self }),
            Operation::StoreDecimal { x } => if self.address + 3 > 4096 {
                Err(Error::OutOfBounds)
            } else {
                let v = reg[x as int];
                Ok(
                    Machine {
                        memory: loaded(
                            self.memory,
                            self.address as int,
                            seq![v / 100, v / 10 % 10, v % 10],
                        ),
                        ..self
                    },
                )
            },
            Operation::StoreRegisters { x, advance } => if self.address + x + 1 > 4096 {
                Err(Error::OutOfBounds)
            } else {
                Ok(
                    Machine {
                        memory: loaded(self.memory, self.address as int, reg.take(x + 1)),
                        address: if advance {
                            (self.address + x + 1) as u16
                        } else {
                            self.address
                        },
                        ..self
                    },
                )
            },
            Operation::LoadRegisters { x, advance } => if self.address + x + 1 > 4096 {
                Err(Error::OutOfBounds)
            } else {
                Ok(
                    Machine {
                        registers: loaded(
                            reg,
                            0,
                            self.memory.subrange(self.address as int, self.address + x + 1),
                        ),
                        address: if advance {
                            (self.address + x + 1) as u16
                        } else {
                            self.address
                        },
                        ..self
                    },
                )
            },
        }
    }

    /// What one cycle makes of the machine. A register that waits for a key
    /// takes the whole cycle: it gets the lowest key that is held and stops
    /// waiting, or nothing happens at all. Otherwise the instruction at the
    /// program counter is fetched, the program counter moves past it, and the
    /// instruction is performed; one that stands for no operation does
    /// nothing more.
    pub open spec fn step(self, random: u8) -> Result<Machine, Error> {
        match self.blocked {
            Some(register) => match first_held(self.keys) {
                Some(key) => Ok(Machine { blocked: None, ..self }.set(register, key)),
                None => Ok(self),
            },
            None => if self.pc + 1 >= 4096 {
                Err(Error::OutOfBounds)
            } else {
                let advanced = Machine { pc: (self.pc + 2) as u16, ..self };
                match self.instruction().operation_of(self.quirks) {
                    Ok(op) => advanced.perform(op, random),
                    Err(_) => Ok(advanced),
                }
            },
        }
    }

    /// What as many cycles as `randoms` is long make of the machine, the
    /// cycles taking their random bytes from `randoms` in turn; the first
    /// error ends the run.
    pub open spec fn run(self, randoms: Seq<u8>) -> Result<Machine, Error>
        decreases randoms.len(),
    {
        if randoms.len() == 0 {
            Ok(self)
        } else {
            match self.run(randoms.drop_last()) {
                Ok(before) => before.step(randoms.last()),
                Err(e) => Err(e),
            }
        }
    }

    /// Whether the next cycle draws on chance.
    pub open spec fn takes_chance(self) -> bool {
        self.blocked is None && self.pc + 1 < 4096 && self.instruction().opcode == 0xC
    }

    /// How the trace shows register `x`.
    pub open spec fn register_name(x: u8) -> Seq<char> {
        "R"@ + hex_digits(x as nat)
    }

    /// How the trace shows `op`, which the machine is about to perform. The
    /// address register goes by the name of stack pointer there, `STKP` for
    /// short.
    pub open spec fn summary(self, op: Operation) -> Seq<char> {
        match op {
            Operation::ClearScreen => "CLS"@,
            Operation::Return => if self.stack.len() == 0 {
                "RET"@
            } else {
                "RET "@ + hex_prefixed(self.stack.last() as nat, 5)
            },
            Operation::Jump { addr } => "JMP "@ + hex_prefixed(addr as nat, 5),
            Operation::Call { addr } => "CALL "@ + hex_prefixed(addr as nat, 5),
            Operation::SkipIfEqual { x, byte } => "SKIPIF "@ + Self::register_name(x) + " == "@
                + hex_prefixed(byte as nat, 4),
            Operation::SkipIfNotEqual { x, byte } => "SKIPIF "@ + Self::register_name(x) + " != "@
                + hex_prefixed(byte as nat, 4),
            Operation::SkipIfRegistersEqual { x, y } => "SKIPIF "@ + Self::register_name(x)
                + " == "@ + Self::register_name(y),
            Operation::Load { x, byte } => "IMM "@ + hex_prefixed(byte as nat, 4) + " => "@
                + Self::register_name(x),
            Operation::AddImmediate { x, byte } => "IMM ADD "@ + Self::register_name(x) + " + "@
                + hex_prefixed(byte as nat, 4) + " => "@ + Self::register_name(x),
            Operation::Copy { x, y } => "COPY "@ + Self::register_name(y) + " => "@
                + Self::register_name(x),
            Operation::Or { x, y } => "OR "@ + Self::register_name(x) + " | "@
                + Self::register_name(y) + " => "@ + Self::register_name(x),
            Operation::And { x, y } => "AND "@ + Self::register_name(x) + " & "@
                + Self::register_name(y) + " => "@ + Self::register_name(x),
            Operation::Xor { x, y } => "XOR "@ + Self::register_name(x) + " ^ "@
                + Self::register_name(y) + " => "@ + Self::register_name(x),
            Operation::Add { x, y } => "ADD "@ + Self::register_name(x) + " + "@
                + Self::register_name(y) + " => "@ + Self::register_name(x),
            Operation::Subtract { x, y } => "SUB "@ + Self::register_name(x) + " - "@
                + Self::register_name(y) + " => "@ + Self::register_name(x),
            Operation::ShiftRight { x, source } => "SHR "@ + Self::register_name(source)
                + " >> 1 => "@ + Self::register_name(x),
            Operation::SubtractFrom { x, y } => "SUB "@ + Self::register_name(y) + " - "@
                + Self::register_name(x) + " => "@ + Self::register_name(x),
            Operation::ShiftLeft { x, source } => "SHL "@ + Self::register_name(source)
                + " << 1 => "@ + Self::register_name(x),
            Operation::SkipIfRegistersDiffer { x, y } => "SKIPIF "@ + Self::register_name(x)
                + " != "@ + Self::register_name(y),
            Operation::SetAddress { addr } => "Set stack pointer to "@ + hex_prefixed(
                addr as nat,
                5,
            ),
            Operation::JumpOffset { register, addr } => "JMPP "@ + hex_prefixed(addr as nat, 5)
                + " + "@ + Self::register_name(register),
            Operation::Random { x, byte } => "RAND & "@ + hex_prefixed(byte as nat, 4) + " => "@
                + Self::register_name(x),
            Operation::Draw { x, y, n } => "DRAW "@ + decimal_digits(n as nat) + " bytes @ ("@
                + decimal_digits(self.registers[x as int] as nat) + ", "@ + decimal_digits(
                self.registers[y as int] as nat,
            ) + ")"@,
            Operation::SkipIfKeyHeld { x } => "SKIPIF KEY == "@ + Self::register_name(x),
            Operation::SkipIfKeyReleased { x } => "SKIPIF KEY != "@ + Self::register_name(x),
            Operation::ReadDelay { x } => "TIMER => "@ + Self::register_name(x),
            Operation::WaitForKey { x } => "KEYBLOCK => "@ + Self::register_name(x),
            Operation::SetDelay { x } => Self::register_name(x) + " => TIMER"@,
            Operation::SetSound { x } => Self::register_name(x) + " => SOUND"@,
            Operation::AddToAddress { x } => "STKP += "@ + Self::register_name(x),
            Operation::Glyph { x } => "STKP = DGT("@ + Self::register_name(x) + ")"@,
            Operation::StoreDecimal { x } => "STORE DEC("@ + Self::register_name(x) + ")"@,
            Operation::StoreRegisters { x, .. } => "STORE R0.."@ + Self::register_name(x),
            Operation::LoadRegisters { x, .. } => "LOAD R0.."@ + Self::register_name(x),
        }
    }

    /// The trace of the cycle that the machine is about to go through: for
    /// an instruction its word, an arrow and what it does, `???` where it
    /// stands for no operation; for a cycle spent on a waiting register the
    /// key that it got, or that it waits.
    pub open spec fn trace(self) -> Seq<char> {
        match self.blocked {
            Some(register) => match first_held(self.keys) {
                Some(key) => "KEYBLOCK => KEY "@ + hex_digits(key as nat) + " => "@
                    + Self::register_name(register),
                None => "KEYBLOCK => WAIT "@ + Self::register_name(register),
            },
            None => hex_prefixed(self.instruction().full as nat, 6) + " => "@ + (
            match self.instruction().operation_of(self.quirks) {
                Ok(op) => self.summary(op),
                Err(_) => "???"@,
            }),
        }
    }

    /// Whether `after` and `result` are what one cycle, with `random` for the
    /// byte that chance gave, makes of the machine and reports: on success
    /// the next state, whether the display changed, and the trace; on
    /// failure the error, with the machine left as it was.
    pub open spec fn cycles_to(
        self,
        random: u8,
        after: Machine,
        result: Result<(bool, String), Error>,
    ) -> bool {
        match self.step(random) {
            Ok(next) => after == next && (result matches Ok((dirty, trace)) && dirty == (
            next.display != self.display) && trace@ == self.trace()),
            Err(e) => after == self && result == Err::<(bool, String), Error>(e),
        }
    }

    /// A register that waits while no key is held keeps the machine as it
    /// is: no cycle moves the program counter or performs an instruction.
    pub proof fn lemma_blocked_waits(self, random: u8)
        requires
            self.blocked is Some,
            forall|key: int| !held(self.keys, key),
        ensures
            self.step(random) == Ok::<Machine, Error>(self),
    {
        crate::input::lemma_first_held(self.keys);
    }

    /// However many cycles pass while a register waits and no key is held,
    /// the machine stays as it is.
    pub proof fn lemma_blocked_waits_on(self, randoms: Seq<u8>)
        requires
            self.blocked is Some,
            forall|key: int| !held(self.keys, key),
        ensures
            self.run(randoms) == Ok::<Machine, Error>(self),
        decreases randoms.len(),
    {
        if randoms.len() > 0 {
            self.lemma_blocked_waits_on(randoms.drop_last());
            self.lemma_blocked_waits(randoms.last());
        }
    }

    /// Chance matters only to a cycle that draws on it.
    pub proof fn lemma_chance_only_where_asked(self, one: u8, other: u8)
        requires
            !self.takes_chance(),
        ensures
            self.step(one) == self.step(other),
    {
    }

    /// A register that waits gets, in one cycle, the lowest key that is
    /// held; the wait is then over, and nothing else has changed: the
    /// program counter stands where it stood.
    pub proof fn lemma_blocked_latches(self, random: u8, key: u8)
        requires
            self.wf(),
            self.blocked is Some,
            held(self.keys, key as int),
            forall|j: int| 0 <= j < key ==> !held(self.keys, j),
        ensures
            self.step(random) == Ok::<Machine, Error>(
                Machine { blocked: None, ..self }.set(self.blocked->0, key),
            ),
            self.step(random)->Ok_0.pc == self.pc,
            self.step(random)->Ok_0.registers[self.blocked->0 as int] == key,
    {
        crate::input::lemma_first_held(self.keys);
        match first_held(self.keys) {
            Some(found) => {
                assert(held(self.keys, found as int));
                if found < key {
                    assert(!held(self.keys, found as int));
                }
                if key < found {
                    assert(!held(self.keys, key as int));
                }
            },
            None => {
                assert(!held(self.keys, key as int));
            },
        }
    }

    /// The instruction that waits for a key leaves its register waiting.
    pub proof fn lemma_wait_blocks(self, x: u8, random: u8)
        ensures
            self.perform(Operation::WaitForKey { x }, random) matches Ok(next) && next.blocked
                == Some(x),
    {
    }

    /// A return with no call to return from fails with `StackUnderflow`:
    /// the cycle that meets one goes nowhere.
    pub proof fn lemma_return_needs_call(self, random: u8)
        requires
            self.blocked is None,
            self.pc + 1 < 4096,
            self.instruction().operation_of(self.quirks) == Ok::<Operation, Error>(
                Operation::Return,
            ),
            self.stack.len() == 0,
        ensures
            self.step(random) == Err::<Machine, Error>(Error::StackUnderflow),
    {
    }

    /// The word `00EE` is a return, whatever the settings.
    pub proof fn lemma_return_word(self)
        requires
            self.pc + 1 < 4096,
            self.memory[self.pc as int] == 0x00,
            self.memory[self.pc + 1] == 0xEE,
        ensures
            self.instruction().operation_of(self.quirks) == Ok::<Operation, Error>(
                Operation::Return,
            ),
    {
    }

    /// Performing an operation keeps every part at its size.
    pub proof fn lemma_perform_wf(self, op: Operation, random: u8)
        requires
            self.wf(),
            op.wf(),
        ensures
            self.perform(op, random) matches Ok(next) ==> next.wf(),
    {
    }

    /// A cycle keeps every part at its size.
    pub proof fn lemma_step_wf(self, random: u8)
        requires
            self.wf(),
        ensures
            self.step(random) matches Ok(next) ==> next.wf(),
    {
        if self.blocked is None && self.pc + 1 < 4096 {
            Instruction::lemma_decode_is_exact(
                self.memory[self.pc as int],
                self.memory[self.pc + 1],
            );
            let advanced = Machine { pc: (self.pc + 2) as u16, ..self };
            match self.instruction().operation_of(self.quirks) {
                Ok(op) => {
                    advanced.lemma_perform_wf(op, random);
                },
                Err(_) => {},
            }
        }
    }

    /// An instruction that stands for no operation moves the program counter
    /// past itself and does nothing else.
    pub proof fn lemma_unknown_does_nothing(self, random: u8)
        requires
            self.blocked is None,
            self.pc + 1 < 4096,
            self.instruction().operation_of(self.quirks) is Err,
        ensures
            self.step(random) == Ok::<Machine, Error>(
                Machine { pc: (self.pc + 2) as u16, ..self },
            ),
    {
    }

    /// The operations that define a flag leave it in the flag register, as 1
    /// or 0, also where the flag register is the one that took the result.
    pub proof fn lemma_flag_defined(self, op: Operation, random: u8)
        requires
            self.wf(),
            op.wf(),
            op.defines_flag(),
        ensures
            self.perform(op, random) matches Ok(next) ==> next.registers[0xF] == 0
                || next.registers[0xF] == 1,
    {
    }

    /// Only the operations that say so touch the flag register.
    pub proof fn lemma_flag_untouched(self, op: Operation, random: u8)
        requires
            self.wf(),
            op.wf(),
            !op.writes(0xF),
        ensures
            self.perform(op, random) matches Ok(next) ==> next.registers[0xF]
                == self.registers[0xF],
    {
    }
}

impl Operation {
    /// Whether the operation is one that defines a flag: an addition or a
    /// subtraction of registers, a shift, or a draw.
    pub open spec fn defines_flag(self) -> bool {
        match self {
            Operation::Add { .. }
            | Operation::Subtract { .. }
            | Operation::SubtractFrom { .. }
            | Operation::ShiftRight { .. }
            | Operation::ShiftLeft { .. }
            | Operation::Draw { .. } => true,
            _ => false,
        }
    }

    /// Whether the operation may put a value into register `r`: a result
    /// into the register that it names, a flag into the last register, or
    /// memory into the registers up to the one it names.
    pub open spec fn writes(self, r: u8) -> bool {
        match self {
            Operation::Load { x, .. }
            | Operation::AddImmediate { x, .. }
            | Operation::Copy { x, .. }
            | Operation::Or { x, .. }
            | Operation::And { x, .. }
            | Operation::Xor { x, .. }
            | Operation::Random { x, .. }
            | Operation::ReadDelay { x } => r == x,
            Operation::Add { x, .. }
            | Operation::Subtract { x, .. }
            | Operation::SubtractFrom { x, .. }
            | Operation::ShiftRight { x, .. }
            | Operation::ShiftLeft { x, .. } => r == x || r == 0xF,
            Operation::Draw { .. } => r == 0xF,
            Operation::LoadRegisters { x, .. } => r <= x,
            _ => false,
        }
    }
}

} // verus!
