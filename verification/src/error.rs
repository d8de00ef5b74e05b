//! The conditions under which the machine refuses to go on.

use vstd::prelude::*;

verus! {

/// What can go wrong while the machine runs.
#[derive(Clone, Copy, Debug, PartialEq, Eq, Structural)]
pub enum Error {
    /// A return was executed while the call stack was empty.
    StackUnderflow,
    /// A memory address or a register index lay outside the valid range.
    OutOfBounds,
    /// The instruction word matches no known operation.
    UnknownOpcode,
}

} // verus!
