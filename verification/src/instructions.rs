//! Instruction words: their fields, and the operations that they stand for.

use vstd::prelude::*;
use crate::error::Error;
use crate::quirks::{JumpOffset, Quirks, ShiftSource};

verus! {

/// The fields of one instruction word.
#[derive(Clone, Copy, Debug, PartialEq, Eq, Structural)]
pub struct Instruction {
    /// The top four bits, which select the family of operations.
    pub opcode: u8,
    /// The second group of four bits: a register.
    pub x: u8,
    /// The third group of four bits: a register.
    pub y: u8,
    /// The lowest four bits.
    pub n: u8,
    /// The low byte.
    pub byte: u8,
    /// The low twelve bits: an address.
    pub addr: u16,
    /// The whole word.
    pub full: u16,
}

/// What one instruction does. A variant names the registers by their
/// numbers, `x` being the register that takes a result.
#[derive(Clone, Copy, Debug, PartialEq, Eq, Structural)]
pub enum Operation {
    /// Turn every pixel off.
    ClearScreen,
    /// Go back to where the latest call came from.
    Return,
    /// Go on at `addr`.
    Jump { addr: u16 },
    /// Remember where to come back to, and go on at `addr`.
    Call { addr: u16 },
    /// Skip the next instruction if register `x` holds `byte`.
    SkipIfEqual { x: u8, byte: u8 },
    /// Skip the next instruction if register `x` does not hold `byte`.
    SkipIfNotEqual { x: u8, byte: u8 },
    /// Skip the next instruction if registers `x` and `y` hold the same.
    SkipIfRegistersEqual { x: u8, y: u8 },
    /// Put `byte` into register `x`.
    Load { x: u8, byte: u8 },
    /// Add `byte` to register `x`; the flag is left alone.
    AddImmediate { x: u8, byte: u8 },
    /// Copy register `y` into register `x`.
    Copy { x: u8, y: u8 },
    /// Register `x` becomes the bitwise or of registers `x` and `y`.
    Or { x: u8, y: u8 },
    /// Register `x` becomes the bitwise and of registers `x` and `y`.
    And { x: u8, y: u8 },
    /// Register `x` becomes the bitwise exclusive or of registers `x` and `y`.
    Xor { x: u8, y: u8 },
    /// Add register `y` to register `x`; the flag tells of a carry.
    Add { x: u8, y: u8 },
    /// Subtract register `y` from register `x`; the flag tells that nothing
    /// was borrowed.
    Subtract { x: u8, y: u8 },
    /// Register `x` becomes register `source` shifted right by one; the flag
    /// takes the bit that fell out.
    ShiftRight { x: u8, source: u8 },
    /// Register `x` becomes register `y` less register `x`; the flag tells
    /// that nothing was borrowed.
    SubtractFrom { x: u8, y: u8 },
    /// Register `x` becomes register `source` shifted left by one; the flag
    /// takes the bit that fell out.
    ShiftLeft { x: u8, source: u8 },
    /// Skip the next instruction if registers `x` and `y` differ.
    SkipIfRegistersDiffer { x: u8, y: u8 },
    /// Put `addr` into the address register.
    SetAddress { addr: u16 },
    /// Go on at `addr` plus what register `register` holds.
    JumpOffset { register: u8, addr: u16 },
    /// Put a random byte, masked with `byte`, into register `x`.
    Random { x: u8, byte: u8 },
    /// Draw the sprite of `n` rows that the address register points to, at
    /// the column that register `x` and the row that register `y` holds.
    Draw { x: u8, y: u8, n: u8 },
    /// Skip the next instruction if the key that register `x` names is held.
    SkipIfKeyHeld { x: u8 },
    /// Skip the next instruction if the key that register `x` names is not
    /// held.
    SkipIfKeyReleased { x: u8 },
    /// Copy the delay timer into register `x`.
    ReadDelay { x: u8 },
    /// Wait until a key is held, and put its number into register `x`.
    WaitForKey { x: u8 },
    /// Copy register `x` into the delay timer.
    SetDelay { x: u8 },
    /// Copy register `x` into the sound timer.
    SetSound { x: u8 },
    /// Add register `x` to the address register.
    AddToAddress { x: u8 },
    /// Point the address register to the glyph of the digit in register `x`.
    Glyph { x: u8 },
    /// Store the three decimal digits of register `x` where the address
    /// register points to.
    StoreDecimal { x: u8 },
    /// Store registers 0 to `x` where the address register points to.
    StoreRegisters { x: u8, advance: bool },
    /// Load registers 0 to `x` from where the address register points to.
    LoadRegisters { x: u8, advance: bool },
}

impl Operation {
    /// Every register number is below sixteen, a sprite has fewer than
    /// sixteen rows, and an address fits in twelve bits.
    pub open spec fn wf(self) -> bool {
        match self {
            Operation::ClearScreen | Operation::Return => true,
            Operation::Jump { addr } | Operation::Call { addr } | Operation::SetAddress {
                addr,
            } => addr < 0x1000,
            Operation::SkipIfEqual { x, .. }
            | Operation::SkipIfNotEqual { x, .. }
            | Operation::Load { x, .. }
            | Operation::AddImmediate { x, .. }
            | Operation::Random { x, .. } => x < 16,
            Operation::SkipIfRegistersEqual { x, y }
            | Operation::Copy { x, y }
            | Operation::Or { x, y }
            | Operation::And { x, y }
            | Operation::Xor { x, y }
            | Operation::Add { x, y }
            | Operation::Subtract { x, y }
            | Operation::SubtractFrom { x, y }
            | Operation::SkipIfRegistersDiffer { x, y } => x < 16 && y < 16,
            Operation::ShiftRight { x, source } | Operation::ShiftLeft { x, source } => x < 16
                && source < 16,
            Operation::JumpOffset { register, addr } => register < 16 && addr < 0x1000,
            Operation::Draw { x, y, n } => x < 16 && y < 16 && n < 16,
            Operation::SkipIfKeyHeld { x }
            | Operation::SkipIfKeyReleased { x }
            | Operation::ReadDelay { x }
            | Operation::WaitForKey { x }
            | Operation::SetDelay { x }
            | Operation::SetSound { x }
            | Operation::AddToAddress { x }
            | Operation::Glyph { x }
            | Operation::StoreDecimal { x } => x < 16,
            Operation::StoreRegisters { x, .. } | Operation::LoadRegisters { x, .. } => x < 16,
        }
    }
}

impl Operation {
    /// Whether the operation is one that decides where the program goes on:
    /// a jump, a call, a return or a skip.
    pub open spec fn is_branch(self) -> bool {
        match self {
            Operation::Return
            | Operation::Jump { .. }
            | Operation::Call { .. }
            | Operation::SkipIfEqual { .. }
            | Operation::SkipIfNotEqual { .. }
            | Operation::SkipIfRegistersEqual { .. }
            | Operation::SkipIfRegistersDiffer { .. }
            | Operation::JumpOffset { .. }
            | Operation::SkipIfKeyHeld { .. }
            | Operation::SkipIfKeyReleased { .. } => true,
            _ => false,
        }
    }

    /// Whether the operation is one that computes a value into a general
    /// register and does nothing else.
    pub open spec fn is_computation(self) -> bool {
        match self {
            Operation::Load { .. }
            | Operation::AddImmediate { .. }
            | Operation::Copy { .. }
            | Operation::Or { .. }
            | Operation::And { .. }
            | Operation::Xor { .. }
            | Operation::Add { .. }
            | Operation::Subtract { .. }
            | Operation::ShiftRight { .. }
            | Operation::SubtractFrom { .. }
            | Operation::ShiftLeft { .. }
            | Operation::Random { .. }
            | Operation::ReadDelay { .. } => true,
            _ => false,
        }
    }
}

impl Instruction {
    /// The fields of the word whose high byte is `msb` and whose low byte is
    /// `lsb`.
    pub open spec fn decoded(msb: u8, lsb: u8) -> Instruction {
        Instruction {
            opcode: msb / 16,
            x: msb % 16,
            y: lsb / 16,
            n: lsb % 16,
            byte: lsb,
            addr: ((msb % 16) * 256 + lsb) as u16,
            full: (msb * 256 + lsb) as u16,
        }
    }

    /// The fields are those of the word `full`.
    pub open spec fn wf(self) -> bool {
        self == Self::decoded((self.full / 256) as u8, (self.full % 256) as u8)
    }

    /// The operation that the instruction stands for under `quirks`, or
    /// `UnknownOpcode` where it stands for none.
    pub open spec fn operation_of(self, quirks: Quirks) -> Result<Operation, Error> {
        let x = self.x;
        let y = self.y;
        let byte = self.byte;
        let addr = self.addr;
        let source = match quirks.shift_source {
            ShiftSource::X => x,
            ShiftSource::Y => y,
        };
        let register = match quirks.jump_offset {
            JumpOffset::Register0 => 0u8,
            JumpOffset::RegisterX => x,
        };
        let advance = quirks.advance_address;
        if self.opcode == 0x0 {
            if byte == 0xE0 {
                Ok(Operation::ClearScreen)
            } else if byte == 0xEE {
                Ok(Operation::Return)
            } else {
                Err(Error::UnknownOpcode)
            }
        } else if self.opcode == 0x1 {
            Ok(Operation::Jump { addr })
        } else if self.opcode == 0x2 {
            Ok(Operation::Call { addr })
        } else if self.opcode == 0x3 {
            Ok(Operation::SkipIfEqual { x, byte })
        } else if self.opcode == 0x4 {
            Ok(Operation::SkipIfNotEqual { x, byte })
        } else if self.opcode == 0x5 {
            Ok(Operation::SkipIfRegistersEqual { x, y })
        } else if self.opcode == 0x6 {
            Ok(Operation::Load { x, byte })
        } else if self.opcode == 0x7 {
            Ok(Operation::AddImmediate { x, byte })
        } else if self.opcode == 0x8 {
            if self.n == 0x0 {
                Ok(Operation::Copy { x, y })
            } else if self.n == 0x1 {
                Ok(Operation::Or { x, y })
            } else if self.n == 0x2 {
                Ok(Operation::And { x, y })
            } else if self.n == 0x3 {
                Ok(Operation::Xor { x, y })
            } else if self.n == 0x4 {
                Ok(Operation::Add { x, y })
            } else if self.n == 0x5 {
                Ok(Operation::Subtract { x, y })
            } else if self.n == 0x6 {
                Ok(Operation::ShiftRight { x, source })
            } else if self.n == 0x7 {
                Ok(Operation::SubtractFrom { x, y })
            } else if self.n == 0xE {
                Ok(Operation::ShiftLeft { x, source })
            } else {
                Err(Error::UnknownOpcode)
            }
        } else if self.opcode == 0x9 {
            Ok(Operation::SkipIfRegistersDiffer { x, y })
        } else if self.opcode == 0xA {
            Ok(Operation::SetAddress { addr })
        } else if self.opcode == 0xB {
            Ok(Operation::JumpOffset { register, addr })
        } else if self.opcode == 0xC {
            Ok(Operation::Random { x, byte })
        } else if self.opcode == 0xD {
            Ok(Operation::Draw { x, y, n: self.n })
        } else if self.opcode == 0xE {
            if byte == 0x9E {
                Ok(Operation::SkipIfKeyHeld { x })
            } else if byte == 0xA1 {
                Ok(Operation::SkipIfKeyReleased { x })
            } else {
                Err(Error::UnknownOpcode)
            }
        } else if self.opcode == 0xF {
            if byte == 0x07 {
                Ok(Operation::ReadDelay { x })
            } else if byte == 0x0A {
                Ok(Operation::WaitForKey { x })
            } else if byte == 0x15 {
                Ok(Operation::SetDelay { x })
            } else if byte == 0x18 {
                Ok(Operation::SetSound { x })
            } else if byte == 0x1E {
                Ok(Operation::AddToAddress { x })
            } else if byte == 0x29 {
                Ok(Operation::Glyph { x })
            } else if byte == 0x33 {
                Ok(Operation::StoreDecimal { x })
            } else if byte == 0x55 {
                Ok(Operation::StoreRegisters { x, advance })
            } else if byte == 0x65 {
                Ok(Operation::LoadRegisters { x, advance })
            } else {
                Err(Error::UnknownOpcode)
            }
        } else {
            Err(Error::UnknownOpcode)
        }
    }

    /// Splits an instruction word, given as its two bytes, into its fields.
    pub fn from(msb: u8, lsb: u8) -> (instruction: Instruction)
        ensures
            instruction == Self::decoded(msb, lsb),
            instruction.wf(),
    {
        let combined: u16 = ((msb as u16) << 8) | lsb as u16;
        assert(combined == msb * 256 + lsb && combined / 256 == msb && combined % 256 == lsb
            && ((combined & 0xF000) >> 12) == msb / 16 && ((combined & 0x0F00) >> 8) == msb % 16
            && ((combined & 0x00F0) >> 4) == lsb / 16 && (combined & 0x000F) == lsb % 16 && (
        combined & 0x0FFF) == (msb % 16) * 256 + lsb) by (bit_vector)
            requires
                combined == ((msb as u16) << 8) | lsb as u16,
        ;
        Instruction {
            full: combined,
            opcode: ((combined & 0xF000) >> 12) as u8,
            x: ((combined & 0x0F00) >> 8) as u8,
            y: ((combined & 0x00F0) >> 4) as u8,
            n: (combined & 0x000F) as u8,
            byte: lsb,
            addr: (combined & 0x0FFF),
        }
    }

    /// The operation that the instruction stands for under `quirks`, or
    /// `UnknownOpcode` where it stands for none.
    pub fn operation(&self, quirks: Quirks) -> (r: Result<Operation, Error>)
        requires
            self.wf(),
        ensures
            r == self.operation_of(quirks),
            r matches Ok(op) ==> op.wf(),
    {
        let x: u8 = self.x;
        let y: u8 = self.y;
        let byte: u8 = self.byte;
        let addr: u16 = self.addr;
        match self.opcode {
            0x0 => match byte {
                0xE0 => Ok(Operation::ClearScreen),
                0xEE => Ok(Operation::Return),
                _ => Err(Error::UnknownOpcode),
            },
            0x1 => Ok(Operation::Jump { addr }),
            0x2 => Ok(Operation::Call { addr }),
            0x3 => Ok(Operation::SkipIfEqual { x, byte }),
            0x4 => Ok(Operation::SkipIfNotEqual { x, byte }),
            0x5 => Ok(Operation::SkipIfRegistersEqual { x, y }),
            0x6 => Ok(Operation::Load { x, byte }),
            0x7 => Ok(Operation::AddImmediate { x, byte }),
            0x8 => {
                let source: u8 = match quirks.shift_source {
                    ShiftSource::X => x,
                    ShiftSource::Y => y,
                };
                match self.n {
                    0x0 => Ok(Operation::Copy { x, y }),
                    0x1 => Ok(Operation::Or { x, y }),
                    0x2 => Ok(Operation::And { x, y }),
                    0x3 => Ok(Operation::Xor { x, y }),
                    0x4 => Ok(Operation::Add { x, y }),
                    0x5 => Ok(Operation::Subtract { x, y }),
                    0x6 => Ok(Operation::ShiftRight { x, source }),
                    0x7 => Ok(Operation::SubtractFrom { x, y }),
                    0xE => Ok(Operation::ShiftLeft { x, source }),
                    _ => Err(Error::UnknownOpcode),
                }
            },
            0x9 => Ok(Operation::SkipIfRegistersDiffer { x, y }),
            0xA => Ok(Operation::SetAddress { addr }),
            0xB => {
                let register: u8 = match quirks.jump_offset {
                    JumpOffset::Register0 => 0,
                    JumpOffset::RegisterX => x,
                };
                Ok(Operation::JumpOffset { register, addr })
            },
            0xC => Ok(Operation::Random { x, byte }),
            0xD => Ok(Operation::Draw { x, y, n: self.n }),
            0xE => match byte {
                0x9E => Ok(Operation::SkipIfKeyHeld { x }),
                0xA1 => Ok(Operation::SkipIfKeyReleased { x }),
                _ => Err(Error::UnknownOpcode),
            },
            0xF => {
                let advance: bool = quirks.advance_address;
                match byte {
                    0x07 => Ok(Operation::ReadDelay { x }),
                    0x0A => Ok(Operation::WaitForKey { x }),
                    0x15 => Ok(Operation::SetDelay { x }),
                    0x18 => Ok(Operation::SetSound { x }),
                    0x1E => Ok(Operation::AddToAddress { x }),
                    0x29 => Ok(Operation::Glyph { x }),
                    0x33 => Ok(Operation::StoreDecimal { x }),
                    0x55 => Ok(Operation::StoreRegisters { x, advance }),
                    0x65 => Ok(Operation::LoadRegisters { x, advance }),
                    _ => Err(Error::UnknownOpcode),
                }
            },
            _ => Err(Error::UnknownOpcode),
        }
    }

    /// Decoding loses nothing: each field is in its range, and the fields put
    /// together again give the word that was decoded.
    pub proof fn lemma_decode_is_exact(msb: u8, lsb: u8)
        ensures
            ({
                let i = Self::decoded(msb, lsb);
                &&& i.opcode < 16 && i.x < 16 && i.y < 16 && i.n < 16 && i.addr < 4096
                &&& i.opcode * 4096 + i.x * 256 + i.y * 16 + i.n == i.full
                &&& i.opcode * 4096 + i.addr == i.full
                &&& i.addr == i.x * 256 + i.y * 16 + i.n
                &&& i.byte == i.y * 16 + i.n
                &&& i.full == msb * 256 + lsb
                &&& i.opcode * 16 + i.x == msb
                &&& i.byte == lsb
                &&& i.wf()
            }),
    {
    }
}

} // verus!
