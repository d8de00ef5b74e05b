//! The interpreter: the machine's parts in one place, and the cycle that
//! fetches, decodes and performs one instruction.

use vstd::prelude::*;
use crate::alu::{add_with_carry, shift_left, shift_right, subtract_with_borrow};
use crate::components::{loaded, Ram, Registers, RAM_SIZE};
use crate::computerparts::{Stack, Timers, PROGRAM_START};
use crate::display::{any_bit, lemma_draw_changes, Framebuffer};
use crate::error::Error;
use crate::font::FONT;
use crate::input::{lemma_first_held_from, InputLatch, NUM_KEYS};
use crate::instructions::{Instruction, Operation};
use crate::machine::Machine;
use crate::quirks::Quirks;
use crate::text::{push_decimal, push_hex, push_hex_digits};

verus! {

/// A byte from the random number generator of the current thread, which
/// `rand::random` draws on. Any byte may come back, and nothing is claimed
/// of it.
#[verifier::external_body]
fn random_byte() -> (byte: u8) {
    rand::random::<u8>()
}

/// Appends the name of register `x` to `out`.
fn push_register(out: &mut String, x: u8)
    ensures
        final(out)@ == old(out)@ + Machine::register_name(x),
{
    out.append("R");
    push_hex_digits(out, x as u16);
    assert(out@ =~= old(out)@ + Machine::register_name(x));
}

/// The name of register `x`.
fn register_string(x: u8) -> (out: String)
    ensures
        out@ == Machine::register_name(x),
{
    let mut out: String = String::from_str("R");
    push_hex_digits(&mut out, x as u16);
    out
}

/// The machine.
pub struct Emulator {
    pub ram: Ram,
    pub registers: Registers,
    pub program_counter: u16,
    pub address: u16,
    pub call_stack: Stack,
    pub timers: Timers,
    pub display: Framebuffer,
    pub input: InputLatch,
    pub quirks: Quirks,
}

impl View for Emulator {
    type V = Machine;

    open spec fn view(&self) -> Machine {
        Machine {
            memory: self.ram@,
            registers: self.registers@,
            pc: self.program_counter,
            address: self.address,
            stack: self.call_stack@,
            timers: self.timers,
            display: self.display@,
            keys: self.input.keys@,
            blocked: self.input.blocked,
            quirks: self.quirks,
        }
    }
}

impl Emulator {
    /// The parts are each in order.
    pub open spec fn wf(&self) -> bool {
        self.call_stack.wf() && self.timers.wf() && self.input.wf()
    }

    /// A machine just switched on, which behaves as `quirks` says.
    pub fn new(quirks: Quirks) -> (emulator: Emulator)
        ensures
            emulator.wf(),
            emulator@ == Machine::initial(quirks),
    {
        let mut ram: Ram = Ram::new();
        match ram.load_from_rom(0, FONT.as_slice()) {
            Ok(()) => {},
            Err(_) => {},
        }
        let emulator = Emulator {
            ram,
            registers: Registers::new(),
            program_counter: PROGRAM_START,
            address: 0,
            call_stack: Stack::empty(),
            timers: Timers::new(),
            display: Framebuffer::new(),
            input: InputLatch::new(),
            quirks,
        };
        assert(emulator@ =~= Machine::initial(quirks));
        emulator
    }

    /// Copies `bytes` into memory from address `offset` on: a program, or
    /// glyphs other than the built-in ones. Bytes that do not fit below the
    /// end of memory are refused with `OutOfBounds`, and nothing is changed.
    pub fn load(&mut self, offset: u16, bytes: &[u8]) -> (r: Result<(), Error>)
        ensures
            final(self).wf() == old(self).wf(),
            match r {
                Ok(()) => offset + bytes@.len() <= RAM_SIZE && final(self)@ == (Machine {
                    memory: loaded(old(self)@.memory, offset as int, bytes@),
                    ..old(self)@
                }),
                Err(e) => offset + bytes@.len() > RAM_SIZE && e == Error::OutOfBounds
                    && final(self)@ == old(self)@,
            },
    {
        self.ram.load_from_rom(offset, bytes)
    }

    /// Puts the program `rom` into memory, from the address at which
    /// programs start. A program too long for the memory above that address
    /// is refused with `OutOfBounds`, and nothing is changed.
    pub fn load_rom(&mut self, rom: &[u8]) -> (r: Result<(), Error>)
        ensures
            final(self).wf() == old(self).wf(),
            match r {
                Ok(()) => PROGRAM_START + rom@.len() <= RAM_SIZE && final(self)@ == (Machine {
                    memory: loaded(old(self)@.memory, PROGRAM_START as int, rom@),
                    ..old(self)@
                }),
                Err(e) => PROGRAM_START + rom@.len() > RAM_SIZE && e == Error::OutOfBounds
                    && final(self)@ == old(self)@,
            },
    {
        self.load(PROGRAM_START, rom)
    }

    /// Takes over which keys are held now.
    pub fn set_keys(&mut self, keys: [bool; NUM_KEYS])
        ensures
            final(self).wf() == old(self).wf(),
            final(self)@ == (Machine { keys: keys@, ..old(self)@ }),
    {
        self.input.set_keys(keys);
    }

    /// Lets `elapsed_nanos` nanoseconds pass for the two timers.
    pub fn tick(&mut self, elapsed_nanos: u64)
        requires
            old(self).wf(),
        ensures
            final(self).wf(),
            final(self)@ == (Machine {
                timers: old(self)@.timers.after(elapsed_nanos as nat),
                ..old(self)@
            }),
    {
        self.timers.decrement(elapsed_nanos);
    }

    /// Whether a tone is due: the sound timer has not run out.
    pub fn sound_active(&self) -> (active: bool)
        ensures
            active == (self@.timers.sound > 0),
    {
        self.timers.sound_active()
    }

    /// Whether the next cycle draws on chance.
    pub fn takes_chance(&self) -> (b: bool)
        ensures
            b == self@.takes_chance(),
    {
        let pc: u16 = self.program_counter;
        if self.input.blocked.is_some() || pc as usize + 1 >= RAM_SIZE {
            return false;
        }
        let instruction: Instruction = Instruction::from(self.ram.get(pc), self.ram.get(pc + 1));
        instruction.opcode == 0xC
    }

    /// How the trace shows `op`, which the machine is about to perform.
    fn summarize(&self, op: Operation) -> (out: String)
        requires
            self.wf(),
            op.wf(),
        ensures
            out@ == self@.summary(op),
    {
        match op {
            Operation::ClearScreen => {
                String::from_str("CLS")
            },
            Operation::Return => {
                let depth: usize = self.call_stack.pointers.len();
                if depth == 0 {
                    String::from_str("RET")
                } else {
                    let mut out: String = String::from_str("RET ");
                    push_hex(&mut out, self.call_stack.pointers[depth - 1], 5);
                    out
                }
            },
            Operation::Jump { addr } => {
                let mut out: String = String::from_str("JMP ");
                push_hex(&mut out, addr, 5);
                out
            },
            Operation::Call { addr } => {
                let mut out: String = String::from_str("CALL ");
                push_hex(&mut out, addr, 5);
                out
            },
            Operation::SkipIfEqual { x, byte } => {
                let mut out: String = String::from_str("SKIPIF ");
                push_register(&mut out, x);
                out.append(" == ");
                push_hex(&mut out, byte as u16, 4);
                out
            },
            Operation::SkipIfNotEqual { x, byte } => {
                let mut out: String = String::from_str("SKIPIF ");
                push_register(&mut out, x);
                out.append(" != ");
                push_hex(&mut out, byte as u16, 4);
                out
            },
            Operation::SkipIfRegistersEqual { x, y } => {
                let mut out: String = String::from_str("SKIPIF ");
                push_register(&mut out, x);
                out.append(" == ");
                push_register(&mut out, y);
                out
            },
            Operation::Load { x, byte } => {
                let mut out: String = String::from_str("IMM ");
                push_hex(&mut out, byte as u16, 4);
                out.append(" => ");
                push_register(&mut out, x);
                out
            },
            Operation::AddImmediate { x, byte } => {
                let mut out: String = String::from_str("IMM ADD ");
                push_register(&mut out, x);
                out.append(" + ");
                push_hex(&mut out, byte as u16, 4);
                out.append(" => ");
                push_register(&mut out, x);
                out
            },
            Operation::Copy { x, y } => {
                let mut out: String = String::from_str("COPY ");
                push_register(&mut out, y);
                out.append(" => ");
                push_register(&mut out, x);
                out
            },
            Operation::Or { x, y } => {
                let mut out: String = String::from_str("OR ");
                push_register(&mut out, x);
                out.append(" | ");
                push_register(&mut out, y);
                out.append(" => ");
                push_register(&mut out, x);
                out
            },
            Operation::And { x, y } => {
                let mut out: String = String::from_str("AND ");
                push_register(&mut out, x);
                out.append(" & ");
                push_register(&mut out, y);
                out.append(" => ");
                push_register(&mut out, x);
                out
            },
            Operation::Xor { x, y } => {
                let mut out: String = String::from_str("XOR ");
                push_register(&mut out, x);
                out.append(" ^ ");
                push_register(&mut out, y);
                out.append(" => ");
                push_register(&mut out, x);
                out
            },
            Operation::Add { x, y } => {
                let mut out: String = String::from_str("ADD ");
                push_register(&mut out, x);
                out.append(" + ");
                push_register(&mut out, y);
                out.append(" => ");
                push_register(&mut out, x);
                out
            },
            Operation::Subtract { x, y } => {
                let mut out: String = String::from_str("SUB ");
                push_register(&mut out, x);
                out.append(" - ");
                push_register(&mut out, y);
                out.append(" => ");
                push_register(&mut out, x);
                out
            },
            Operation::ShiftRight { x, source } => {
                let mut out: String = String::from_str("SHR ");
                push_register(&mut out, source);
                out.append(" >> 1 => ");
                push_register(&mut out, x);
                out
            },
            Operation::SubtractFrom { x, y } => {
                let mut out: String = String::from_str("SUB ");
                push_register(&mut out, y);
                out.append(" - ");
                push_register(&mut out, x);
                out.append(" => ");
                push_register(&mut out, x);
                out
            },
            Operation::ShiftLeft { x, source } => {
                let mut out: String = String::from_str("SHL ");
                push_register(&mut out, source);
                out.append(" << 1 => ");
                push_register(&mut out, x);
                out
            },
            Operation::SkipIfRegistersDiffer { x, y } => {
                let mut out: String = String::from_str("SKIPIF ");
                push_register(&mut out, x);
                out.append(" != ");
                push_register(&mut out, y);
                out
            },
            Operation::SetAddress { addr } => {
                let mut out: String = String::from_str("Set stack pointer to ");
                push_hex(&mut out, addr, 5);
                out
            },
            Operation::JumpOffset { register, addr } => {
                let mut out: String = String::from_str("JMPP ");
                push_hex(&mut out, addr, 5);
                out.append(" + ");
                push_register(&mut out, register);
                out
            },
            Operation::Random { x, byte } => {
                let mut out: String = String::from_str("RAND & ");
                push_hex(&mut out, byte as u16, 4);
                out.append(" => ");
                push_register(&mut out, x);
                out
            },
            Operation::Draw { x, y, n } => {
                let mut out: String = String::from_str("DRAW ");
                push_decimal(&mut out, n);
                out.append(" bytes @ (");
                push_decimal(&mut out, self.registers.get(x));
                out.append(", ");
                push_decimal(&mut out, self.registers.get(y));
                out.append(")");
                out
            },
            Operation::SkipIfKeyHeld { x } => {
                let mut out: String = String::from_str("SKIPIF KEY == ");
                push_register(&mut out, x);
                out
            },
            Operation::SkipIfKeyReleased { x } => {
                let mut out: String = String::from_str("SKIPIF KEY != ");
                push_register(&mut out, x);
                out
            },
            Operation::ReadDelay { x } => {
                let mut out: String = String::from_str("TIMER => ");
                push_register(&mut out, x);
                out
            },
            Operation::WaitForKey { x } => {
                let mut out: String = String::from_str("KEYBLOCK => ");
                push_register(&mut out, x);
                out
            },
            Operation::SetDelay { x } => {
                let mut out: String = register_string(x);
                out.append(" => TIMER");
                out
            },
            Operation::SetSound { x } => {
                let mut out: String = register_string(x);
                out.append(" => SOUND");
                out
            },
            Operation::AddToAddress { x } => {
                let mut out: String = String::from_str("STKP += ");
                push_register(&mut out, x);
                out
            },
            Operation::Glyph { x } => {
                let mut out: String = String::from_str("STKP = DGT(");
                push_register(&mut out, x);
                out.append(")");
                out
            },
            Operation::StoreDecimal { x } => {
                let mut out: String = String::from_str("STORE DEC(");
                push_register(&mut out, x);
                out.append(")");
                out
            },
            Operation::StoreRegisters { x, .. } => {
                let mut out: String = String::from_str("STORE R0..");
                push_register(&mut out, x);
                out
            },
            Operation::LoadRegisters { x, .. } => {
                let mut out: String = String::from_str("LOAD R0..");
                push_register(&mut out, x);
                out
            },
        }
    }

    /// The `n` bytes that the address register points to, and whether any
    /// of them is not zero.
    fn sprite_rows(&self, n: u8) -> (r: (Vec<u8>, bool))
        requires
            self.address + n <= RAM_SIZE,
        ensures
            r.0@ == self@.memory.subrange(self.address as int, self.address + n),
            r.1 == any_bit(r.0@),
    {
        let mut rows: Vec<u8> = Vec::new();
        let mut any: bool = false;
        let mut i: u8 = 0;
        while i < n
            invariant
                i <= n,
                self.address + n <= RAM_SIZE,
                rows@ == self@.memory.subrange(self.address as int, self.address + i),
                any == any_bit(rows@),
            decreases n - i,
        {
            let ghost before: Seq<u8> = rows@;
            let byte: u8 = self.ram.get(self.address + i as u16);
            rows.push(byte);
            proof {
                if any {
                    let r = choose|r: int| 0 <= r < before.len() && #[trigger] before[r] != 0;
                    assert(rows@[r] != 0);
                }
                if byte != 0 {
                    assert(rows@[i as int] != 0);
                }
                if any_bit(rows@) {
                    let r = choose|r: int| 0 <= r < rows@.len() && #[trigger] rows@[r] != 0;
                    if r < i {
                        assert(before[r] != 0);
                    }
                }
            }
            if byte != 0 {
                any = true;
            }
            i = i + 1;
            assert(rows@ =~= self@.memory.subrange(self.address as int, self.address + i));
        }
        (rows, any)
    }

    /// Stores registers 0 to `x` where the address register points to.
    fn store_registers(&mut self, x: u8)
        requires
            old(self).wf(),
            x < 16,
            old(self).address + x + 1 <= RAM_SIZE,
        ensures
            final(self).wf(),
            final(self)@ == (Machine {
                memory: loaded(
                    old(self)@.memory,
                    old(self).address as int,
                    old(self)@.registers.take(x + 1),
                ),
                ..old(self)@
            }),
    {
        let mut i: u8 = 0;
        while i <= x
            invariant
                i <= x + 1,
                x < 16,
                self.address + x + 1 <= RAM_SIZE,
                self.wf(),
                self@ == (Machine {
                    memory: loaded(
                        old(self)@.memory,
                        old(self).address as int,
                        old(self)@.registers.take(i as int),
                    ),
                    ..old(self)@
                }),
            decreases x + 1 - i,
        {
            self.ram.set(self.address + i as u16, self.registers.get(i));
            i = i + 1;
            assert(self@.memory =~= loaded(
                old(self)@.memory,
                old(self).address as int,
                old(self)@.registers.take(i as int),
            ));
        }
    }

    /// Loads registers 0 to `x` from where the address register points to.
    fn load_registers(&mut self, x: u8)
        requires
            old(self).wf(),
            x < 16,
            old(self).address + x + 1 <= RAM_SIZE,
        ensures
            final(self).wf(),
            final(self)@ == (Machine {
                registers: loaded(
                    old(self)@.registers,
                    0,
                    old(self)@.memory.subrange(
                        old(self).address as int,
                        old(self).address + x + 1,
                    ),
                ),
                ..old(self)@
            }),
    {
        let mut i: u8 = 0;
        while i <= x
            invariant
                i <= x + 1,
                x < 16,
                self.address + x + 1 <= RAM_SIZE,
                self.wf(),
                self@ == (Machine {
                    registers: loaded(
                        old(self)@.registers,
                        0,
                        old(self)@.memory.subrange(
                            old(self).address as int,
                            old(self).address + i,
                        ),
                    ),
                    ..old(self)@
                }),
            decreases x + 1 - i,
        {
            self.registers.set(i, self.ram.get(self.address + i as u16));
            i = i + 1;
            assert(self@.registers =~= loaded(
                old(self)@.registers,
                0,
                old(self)@.memory.subrange(old(self).address as int, old(self).address + i),
            ));
        }
    }

    /// Moves the program counter past one more instruction if `cond`.
    fn skip_if(&mut self, cond: bool)
        requires
            old(self).wf(),
            old(self).program_counter <= RAM_SIZE,
        ensures
            final(self).wf(),
            final(self)@ == old(self)@.skip_if(cond),
    {
        if cond {
            self.program_counter = self.program_counter + 2;
        }
    }

    /// Puts `val` into register `x`.
    fn set(&mut self, x: u8, val: u8)
        requires
            old(self).wf(),
            x < 16,
        ensures
            final(self).wf(),
            final(self)@ == old(self)@.set(x, val),
    {
        self.registers.set(x, val);
    }

    /// Puts `val` into register `x`, and then 1 into the flag register if
    /// `on`, else 0.
    fn set_with_flag(&mut self, x: u8, val: u8, on: bool)
        requires
            old(self).wf(),
            x < 16,
        ensures
            final(self).wf(),
            final(self)@ == old(self)@.set(x, val).flag(on),
    {
        self.registers.set(x, val);
        self.registers.set(
            0xF,
            if on {
                1
            } else {
                0
            },
        );
    }

    /// Performs `op`, which decides where the program goes on.
    fn branch(&mut self, op: Operation) -> (result: Result<bool, Error>)
        requires
            old(self).wf(),
            op.wf(),
            op.is_branch(),
            old(self).program_counter <= RAM_SIZE,
        ensures
            final(self).wf(),
            match old(self)@.perform(op, 0) {
                Ok(next) => final(self)@ == next && result == Ok::<bool, Error>(
                    next.display != old(self)@.display,
                ),
                Err(e) => final(self)@ == old(self)@ && result == Err::<bool, Error>(e),
            },
    {
        match op {
            Operation::Return => {
                match self.call_stack.pop() {
                    Ok(target) => {
                        self.program_counter = target;
                    },
                    Err(e) => {
                        return Err(e);
                    },
                }
            },
            Operation::Jump { addr } => {
                self.program_counter = addr;
            },
            Operation::Call { addr } => {
                self.call_stack.push(self.program_counter);
                self.program_counter = addr;
            },
            Operation::SkipIfEqual { x, byte } => {
                let vx: u8 = self.registers.get(x);
                self.skip_if(vx == byte);
            },
            Operation::SkipIfNotEqual { x, byte } => {
                let vx: u8 = self.registers.get(x);
                self.skip_if(vx != byte);
            },
            Operation::SkipIfRegistersEqual { x, y } => {
                let vx: u8 = self.registers.get(x);
                let vy: u8 = self.registers.get(y);
                self.skip_if(vx == vy);
            },
            Operation::SkipIfRegistersDiffer { x, y } => {
                let vx: u8 = self.registers.get(x);
                let vy: u8 = self.registers.get(y);
                self.skip_if(vx != vy);
            },
            Operation::JumpOffset { register, addr } => {
                self.program_counter = addr + self.registers.get(register) as u16;
            },
            Operation::SkipIfKeyHeld { x } => {
                let held: bool = self.input.is_held(self.registers.get(x));
                self.skip_if(held);
            },
            Operation::SkipIfKeyReleased { x } => {
                let held: bool = self.input.is_held(self.registers.get(x));
                self.skip_if(!held);
            },
            _ => {},
        }
        Ok(false)
    }

    /// Performs `op`, which computes a value into a register; `random` is
    /// the byte that chance gave.
    fn compute(&mut self, op: Operation, random: u8) -> (result: Result<bool, Error>)
        requires
            old(self).wf(),
            op.wf(),
            op.is_computation(),
        ensures
            final(self).wf(),
            match old(self)@.perform(op, random) {
                Ok(next) => final(self)@ == next && result == Ok::<bool, Error>(
                    next.display != old(self)@.display,
                ),
                Err(e) => final(self)@ == old(self)@ && result == Err::<bool, Error>(e),
            },
    {
        match op {
            Operation::Load { x, byte } => {
                self.set(x, byte);
            },
            Operation::AddImmediate { x, byte } => {
                let (sum, _) = add_with_carry(self.registers.get(x), byte);
                self.set(x, sum);
            },
            Operation::Copy { x, y } => {
                let vy: u8 = self.registers.get(y);
                self.set(x, vy);
            },
            Operation::Or { x, y } => {
                let vx: u8 = self.registers.get(x);
                let vy: u8 = self.registers.get(y);
                self.set(x, vx | vy);
            },
            Operation::And { x, y } => {
                let vx: u8 = self.registers.get(x);
                let vy: u8 = self.registers.get(y);
                self.set(x, vx & vy);
            },
            Operation::Xor { x, y } => {
                let vx: u8 = self.registers.get(x);
                let vy: u8 = self.registers.get(y);
                self.set(x, vx ^ vy);
            },
            Operation::Add { x, y } => {
                let (sum, carry) = add_with_carry(self.registers.get(x), self.registers.get(y));
                self.set_with_flag(x, sum, carry);
            },
            Operation::Subtract { x, y } => {
                let (difference, kept) = subtract_with_borrow(
                    self.registers.get(x),
                    self.registers.get(y),
                );
                self.set_with_flag(x, difference, kept);
            },
            Operation::ShiftRight { x, source } => {
                let (shifted, out) = shift_right(self.registers.get(source));
                self.set_with_flag(x, shifted, out);
            },
            Operation::SubtractFrom { x, y } => {
                let (difference, kept) = subtract_with_borrow(
                    self.registers.get(y),
                    self.registers.get(x),
                );
                self.set_with_flag(x, difference, kept);
            },
            Operation::ShiftLeft { x, source } => {
                let (shifted, out) = shift_left(self.registers.get(source));
                self.set_with_flag(x, shifted, out);
            },
            Operation::Random { x, byte } => {
                self.set(x, random & byte);
            },
            Operation::ReadDelay { x } => {
                let delay: u8 = self.timers.get_delay();
                self.set(x, delay);
            },
            _ => {},
        }
        Ok(false)
    }

    /// Draws the sprite of `n` rows that the address register points to, at
    /// the column that register `x` and the row that register `y` holds.
    fn draw(&mut self, x: u8, y: u8, n: u8) -> (result: Result<bool, Error>)
        requires
            old(self).wf(),
            x < 16,
            y < 16,
            n < 16,
        ensures
            final(self).wf(),
            match old(self)@.perform(Operation::Draw { x, y, n }, 0) {
                Ok(next) => final(self)@ == next && result == Ok::<bool, Error>(
                    next.display != old(self)@.display,
                ),
                Err(e) => final(self)@ == old(self)@ && result == Err::<bool, Error>(e),
            },
    {
        if self.address as usize + n as usize > RAM_SIZE {
            return Err(Error::OutOfBounds);
        }
        let (rows, dirty) = self.sprite_rows(n);
        let vx: u8 = self.registers.get(x);
        let vy: u8 = self.registers.get(y);
        proof {
            lemma_draw_changes(self.display@, vx as int, vy as int, rows@);
        }
        let collision: bool = self.display.draw(vx, vy, rows.as_slice());
        self.registers.set(
            0xF,
            if collision {
                1
            } else {
                0
            },
        );
        Ok(dirty)
    }

    /// Stores the three decimal digits of register `x` where the address
    /// register points to.
    fn store_decimal(&mut self, x: u8) -> (result: Result<bool, Error>)
        requires
            old(self).wf(),
            x < 16,
        ensures
            final(self).wf(),
            match old(self)@.perform(Operation::StoreDecimal { x }, 0) {
                Ok(next) => final(self)@ == next && result == Ok::<bool, Error>(false),
                Err(e) => final(self)@ == old(self)@ && result == Err::<bool, Error>(e),
            },
    {
        if self.address as usize + 3 > RAM_SIZE {
            return Err(Error::OutOfBounds);
        }
        let v: u8 = self.registers.get(x);
        let at: u16 = self.address;
        self.ram.set(at, v / 100);
        self.ram.set(at + 1, (v / 10) % 10);
        self.ram.set(at + 2, v % 10);
        assert(self@.memory =~= loaded(
            old(self)@.memory,
            at as int,
            seq![v / 100, v / 10 % 10, v % 10],
        ));
        Ok(false)
    }

    /// Performs `op`, with `random` for the byte that chance gave, and tells
    /// whether the display changed. On an error the machine is left as it
    /// was.
    fn execute(&mut self, op: Operation, random: u8) -> (result: Result<bool, Error>)
        requires
            old(self).wf(),
            op.wf(),
            old(self).program_counter <= RAM_SIZE,
        ensures
            final(self).wf(),
            match old(self)@.perform(op, random) {
                Ok(next) => final(self)@ == next && result == Ok::<bool, Error>(
                    next.display != old(self)@.display,
                ),
                Err(e) => final(self)@ == old(self)@ && result == Err::<bool, Error>(e),
            },
    {
        match op {
            Operation::Return
            | Operation::Jump { .. }
            | Operation::Call { .. }
            | Operation::SkipIfEqual { .. }
            | Operation::SkipIfNotEqual { .. }
            | Operation::SkipIfRegistersEqual { .. }
            | Operation::SkipIfRegistersDiffer { .. }
            | Operation::JumpOffset { .. }
            | Operation::SkipIfKeyHeld { .. }
            | Operation::SkipIfKeyReleased { .. } => self.branch(op),
            Operation::Load { .. }
            | Operation::AddImmediate { .. }
            | Operation::Copy { .. }
            | Operation::Or { .. }
            | Operation::And { .. }
            | Operation::Xor { .. }
            | Operation::Add { .. }
            | Operation::Subtract { .. }
            | Operation::ShiftRight { .. }
            | Operation::SubtractFrom { .. }
            | Operation::ShiftLeft { .. }
            | Operation::Random { .. }
            | Operation::ReadDelay { .. } => self.compute(op, random),
            Operation::ClearScreen => {
                let dirty: bool = !self.display.is_blank();
                self.display.clear();
                Ok(dirty)
            },
            Operation::SetAddress { addr } => {
                self.address = addr;
                Ok(false)
            },
            Operation::Draw { x, y, n } => self.draw(x, y, n),
            Operation::WaitForKey { x } => {
                self.input.block(x);
                Ok(false)
            },
            Operation::SetDelay { x } => {
                let vx: u8 = self.registers.get(x);
                self.timers.set_delay(vx);
                Ok(false)
            },
            Operation::SetSound { x } => {
                let vx: u8 = self.registers.get(x);
                self.timers.set_sound(vx);
                Ok(false)
            },
            Operation::AddToAddress { x } => {
                let sum: u32 = self.address as u32 + self.registers.get(x) as u32;
                self.address = (sum % 0x10000) as u16;
                Ok(false)
            },
            Operation::Glyph { x } => {
                self.address = self.registers.get(x) as u16 * 5;
                Ok(false)
            },
            Operation::StoreDecimal { x } => self.store_decimal(x),
            Operation::StoreRegisters { x, advance } => {
                if self.address as usize + x as usize + 1 > RAM_SIZE {
                    return Err(Error::OutOfBounds);
                }
                self.store_registers(x);
                if advance {
                    self.address = self.address + x as u16 + 1;
                }
                Ok(false)
            },
            Operation::LoadRegisters { x, advance } => {
                if self.address as usize + x as usize + 1 > RAM_SIZE {
                    return Err(Error::OutOfBounds);
                }
                self.load_registers(x);
                if advance {
                    self.address = self.address + x as u16 + 1;
                }
                Ok(false)
            },
        }
    }

    /// One cycle, with `random` for the byte that chance gives to an
    /// instruction that asks for one. Returns whether the display changed,
    /// and a trace of what was done; on an error the machine is left as it
    /// was.
    pub fn cycle_with(&mut self, random: u8) -> (result: Result<(bool, String), Error>)
        requires
            old(self).wf(),
        ensures
            final(self).wf(),
            old(self)@.cycles_to(random, final(self)@, result),
    {
        let mut trace: String = String::new();
        match self.input.blocked {
            Some(register) => {
                proof {
                    lemma_first_held_from(self.input.keys@, 0);
                }
                match self.input.first_held() {
                    Some(key) => {
                        trace.append("KEYBLOCK => KEY ");
                        push_hex_digits(&mut trace, key as u16);
                        trace.append(" => ");
                        push_register(&mut trace, register);
                        self.registers.set(register, key);
                        self.input.release();
                    },
                    None => {
                        trace.append("KEYBLOCK => WAIT ");
                        push_register(&mut trace, register);
                    },
                }
                assert(trace@ =~= old(self)@.trace());
                return Ok((false, trace));
            },
            None => {},
        }
        let pc: u16 = self.program_counter;
        if pc as usize + 1 >= RAM_SIZE {
            return Err(Error::OutOfBounds);
        }
        let instruction: Instruction = Instruction::from(self.ram.get(pc), self.ram.get(pc + 1));
        push_hex(&mut trace, instruction.full, 6);
        trace.append(" => ");
        match instruction.operation(self.quirks) {
            Ok(op) => {
                let summary: String = self.summarize(op);
                trace.append(summary.as_str());
                assert(trace@ =~= old(self)@.trace());
                self.program_counter = pc + 2;
                match self.execute(op, random) {
                    Ok(dirty) => Ok((dirty, trace)),
                    Err(e) => {
                        self.program_counter = pc;
                        Err(e)
                    },
                }
            },
            Err(_) => {
                trace.append("???");
                assert(trace@ =~= old(self)@.trace());
                self.program_counter = pc + 2;
                Ok((false, trace))
            },
        }
    }

    /// One cycle: a register that waits for a key gets the lowest key held,
    /// or goes on waiting; otherwise the instruction at the program counter
    /// is performed. Returns whether the display changed, and a trace of what
    /// was done; on an error the machine is left as it was. Where the
    /// instruction asks for a random byte, any byte may be the one it gets.
    pub fn cycle(&mut self) -> (result: Result<(bool, String), Error>)
        requires
            old(self).wf(),
        ensures
            final(self).wf(),
            exists|random: u8| #[trigger] old(self)@.cycles_to(random, final(self)@, result),
            !old(self)@.takes_chance() ==> old(self)@.cycles_to(0, final(self)@, result),
    {
        let random: u8 = if self.takes_chance() {
            random_byte()
        } else {
            0
        };
        self.cycle_with(random)
    }
}

} // verus!
