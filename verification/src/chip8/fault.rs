//! Fatal conditions. The machine has no recoverable runtime fault: each of
//! these halts execution and is handed to the driver, which decides whether
//! to start over with a fresh machine.

use vstd::prelude::*;

verus! {

/// What went wrong.
#[derive(Debug, Clone, Copy, PartialEq, Eq, Structural)]
pub enum FaultKind {
    /// The word lies in a known family but matches none of its instructions.
    UnknownInstruction,
    /// A call with all sixteen stack slots in use.
    StackOverflow,
    /// A return with no call outstanding.
    StackUnderflow,
    /// A key instruction whose register holds more than `0xF`.
    KeyOutOfRange,
    /// A glyph lookup whose register holds more than `0xF`.
    DigitOutOfRange,
    /// A draw instruction that asks for a sprite of no rows.
    BadSpriteHeight,
    /// An access that would leave the 4096 bytes of memory.
    AddressOutOfBounds,
    /// A program that does not fit between `0x200` and the end of memory.
    RomTooLarge,
}

/// A fatal condition together with the instruction word that raised it and
/// the address that the program counter held when it was raised. Where no
/// instruction word is involved (a failed fetch, a failed load) `instr` is 0.
#[derive(Debug, Clone, Copy, PartialEq, Eq, Structural)]
pub struct Fault {
    pub kind: FaultKind,
    pub instr: u16,
    pub pc: u16,
}

} // verus!
