//! Storage core of a Game Boy–class CPU: a register file whose named
//! registers share a 12-byte backing store, and a 64KB address space split
//! into fixed segments with an echo-RAM mirror and a standalone
//! interrupt-enable byte.

use vstd::prelude::*;

pub mod memory;
pub mod register;

verus! {

/// The ways an accessor call can be rejected. All three mark a misuse at the
/// call site rather than a recoverable runtime condition; they are surfaced
/// as values so that a caller (or a test) can assert on the exact kind.
#[derive(Clone, Copy, PartialEq, Eq, Structural, Debug)]
pub enum EmuError {
    /// A word operation was applied to a double-word register, a double-word
    /// operation to a word register, or a copy was attempted across the two
    /// size classes.
    SizeMismatch,
    /// The low nibble of the F register was non-zero when the status flags
    /// were read.
    InvalidFlagState,
    /// The address falls in a gap of the memory map with no backing storage.
    UnmappedAddress,
}

} // verus!
