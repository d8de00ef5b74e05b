//! The points on which revisions of the machine differ, as settings.

use vstd::prelude::*;

verus! {

/// The register that a shift reads.
#[derive(Clone, Copy, Debug, PartialEq, Eq, Structural)]
pub enum ShiftSource {
    /// The register that also takes the result.
    X,
    /// The second register that the instruction names.
    Y,
}

/// The register whose value a jump with offset adds to the address.
#[derive(Clone, Copy, Debug, PartialEq, Eq, Structural)]
pub enum JumpOffset {
    /// Always register 0.
    Register0,
    /// The register that the instruction names.
    RegisterX,
}

/// How the machine behaves where revisions of it differ.
#[derive(Clone, Copy, Debug, PartialEq, Eq, Structural)]
pub struct Quirks {
    /// Which register the two shifts read.
    pub shift_source: ShiftSource,
    /// Which register a jump with offset adds.
    pub jump_offset: JumpOffset,
    /// Whether storing and loading a run of registers leaves the address
    /// register behind the last byte used.
    pub advance_address: bool,
}

} // verus!
