//! The register file.

use vstd::prelude::*;

verus! {

/// Number of general-purpose registers.
pub const NUM_REGS: usize = 16;

/// Number of call-stack slots.
pub const STACK_SIZE: usize = 16;

/// Address at which programs are loaded and execution begins.
pub const PROGRAM_START: u16 = 0x200;

pub struct Registers {
    /// General-purpose registers `V0` to `VF`; `VF` doubles as the flag.
    pub v: Vec<u8>,
    /// Index register, an address into memory.
    pub i: u16,
    /// Program counter.
    pub pc: u16,
    /// Stack depth: the number of return addresses held.
    pub sp: u8,
    /// Return addresses; slots at and above `sp` are vacant.
    pub stack: Vec<u16>,
    /// delay timer
    pub dt: u8,
    /// sound timer
    pub st: u8,
}

impl Registers {
    /// Sixteen registers, sixteen stack slots, and a depth within them.
    pub open spec fn wf(&self) -> bool {
        &&& self.v@.len() == NUM_REGS
        &&& self.stack@.len() == STACK_SIZE
        &&& self.sp <= STACK_SIZE
    }

    /// The register file at power-on: everything zero, the program counter
    /// at the start of program memory.
    pub fn new() -> (regs: Registers)
        ensures
            regs.wf(),
            regs.v@ == Seq::new(NUM_REGS as nat, |k: int| 0u8),
            regs.stack@ == Seq::new(STACK_SIZE as nat, |k: int| 0u16),
            regs.i == 0,
            regs.pc == PROGRAM_START,
            regs.sp == 0,
            regs.dt == 0,
            regs.st == 0,
    {
        Registers { v: vec![0; 16], i: 0, pc: 0x200, sp: 0, stack: vec![0; 16], dt: 0, st: 0 }
    }
}

} // verus!
