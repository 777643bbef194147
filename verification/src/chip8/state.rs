//! The mathematical model of the machine: its state as plain sequences and
//! numbers, and the effect of each instruction as a function from state to
//! state. The interpreter's contracts are stated over this model.

use vstd::prelude::*;
use crate::chip8::display::{blank_grid, drawn, erases, grid_wf};
use crate::chip8::fault::{Fault, FaultKind};
use crate::chip8::opcode::{decode, Opcode};
use crate::chip8::registers::{NUM_REGS, PROGRAM_START, STACK_SIZE};
use crate::chip8::{Progress, KBD_SIZE, MAX_ROM_SIZE, MEM_SIZE};

verus! {

/// Index of the flag register `VF`.
pub const FLAG: usize = 0xF;

/// Bytes per font glyph.
pub const GLYPH_SIZE: usize = 5;

/// Everything the machine holds.
#[verifier::ext_equal]
pub struct State {
    /// The 4096 bytes of memory.
    pub memory: Seq<u8>,
    /// The registers `V0` to `VF`.
    pub v: Seq<u8>,
    /// The index register.
    pub i: u16,
    /// The program counter.
    pub pc: u16,
    /// The stack depth.
    pub sp: u8,
    /// The sixteen stack slots.
    pub stack: Seq<u16>,
    /// The delay timer.
    pub dt: u8,
    /// The sound timer.
    pub st: u8,
    /// The display, row by row; `true` is lit.
    pub screen: Seq<Seq<bool>>,
    /// The keypad; `true` is pressed.
    pub keys: Seq<bool>,
    /// Whether the older behaviour of shifts and bulk load/store is selected.
    pub legacy: bool,
    /// Whether the clock is running.
    pub running: bool,
}

/// Sum of two bytes, modulo 256.
pub open spec fn add8(a: u8, b: u8) -> u8 {
    ((a + b) % 0x100) as u8
}

/// Difference of two bytes, modulo 256.
pub open spec fn sub8(a: u8, b: u8) -> u8 {
    ((a - b) % 0x100) as u8
}

/// Twice a byte, modulo 256.
pub open spec fn double8(a: u8) -> u8 {
    ((a * 2) % 0x100) as u8
}

/// Sum of two 16-bit values, modulo 65536.
pub open spec fn add16(a: u16, b: u16) -> u16 {
    ((a + b) % 0x10000) as u16
}

/// A flag as a register value.
pub open spec fn flag_byte(flag: bool) -> u8 {
    if flag {
        1
    } else {
        0
    }
}

/// Whether some key is pressed.
pub open spec fn any_pressed(keys: Seq<bool>) -> bool {
    exists|k: int| 0 <= k < keys.len() && keys[k]
}

/// The lowest index at or above `from` whose key is pressed, or the
/// number of keys where there is none.
pub open spec fn first_pressed_from(keys: Seq<bool>, from: int) -> int
    decreases keys.len() - from,
{
    if from < 0 || from >= keys.len() {
        keys.len() as int
    } else if keys[from] {
        from
    } else {
        first_pressed_from(keys, from + 1)
    }
}

/// The lowest-numbered pressed key, or the number of keys where none is
/// pressed.
pub open spec fn first_pressed(keys: Seq<bool>) -> int {
    first_pressed_from(keys, 0)
}

/// `first_pressed_from` finds the first pressed key at or above `from`:
/// every key from `from` up to the result is released, and the result is a
/// pressed key unless it is the number of keys.
pub proof fn lemma_first_pressed_from(keys: Seq<bool>, from: int)
    requires
        0 <= from <= keys.len(),
    ensures
        from <= first_pressed_from(keys, from) <= keys.len(),
        forall|k: int| from <= k < first_pressed_from(keys, from) ==> !keys[k],
        first_pressed_from(keys, from) < keys.len() ==> keys[first_pressed_from(keys, from)],
    decreases keys.len() - from,
{
    if from < keys.len() && !keys[from] {
        lemma_first_pressed_from(keys, from + 1);
    }
}

/// `first_pressed` is the lowest-numbered pressed key: it is pressed, no
/// key below it is, and it exists exactly when some key is pressed.
pub proof fn lemma_first_pressed(keys: Seq<bool>)
    ensures
        0 <= first_pressed(keys) <= keys.len(),
        first_pressed(keys) < keys.len() <==> any_pressed(keys),
        any_pressed(keys) ==> keys[first_pressed(keys)],
        forall|k: int| 0 <= k < first_pressed(keys) ==> !keys[k],
{
    lemma_first_pressed_from(keys, 0);
    if any_pressed(keys) {
        let k = choose|k: int| 0 <= k < keys.len() && keys[k];
        assert(first_pressed(keys) <= k);
    }
}

/// The big-endian 16-bit word at `addr`.
pub open spec fn word_at(memory: Seq<u8>, addr: int) -> u16 {
    (memory[addr] * 0x100 + memory[addr + 1]) as u16
}

/// Memory after a program has been copied to `0x200` and the addresses
/// that follow.
pub open spec fn with_program(memory: Seq<u8>, rom: Seq<u8>) -> Seq<u8> {
    Seq::new(
        memory.len(),
        |k: int|
            if PROGRAM_START <= k < PROGRAM_START + rom.len() {
                rom[k - PROGRAM_START]
            } else {
                memory[k]
            },
    )
}

/// Memory after the registers `V0` to `Vx` have been stored from `base` on.
pub open spec fn stored(memory: Seq<u8>, v: Seq<u8>, base: int, x: int) -> Seq<u8> {
    Seq::new(
        memory.len(),
        |k: int|
            if base <= k <= base + x {
                v[k - base]
            } else {
                memory[k]
            },
    )
}

/// The registers after `V0` to `Vx` have been loaded from `base` on.
pub open spec fn loaded(memory: Seq<u8>, v: Seq<u8>, base: int, x: int) -> Seq<u8> {
    Seq::new(
        v.len(),
        |k: int|
            if k <= x {
                memory[base + k]
            } else {
                v[k]
            },
    )
}

/// Memory after the three decimal digits of `value` have been stored at
/// `base`, hundreds first.
pub open spec fn with_digits(memory: Seq<u8>, base: int, value: u8) -> Seq<u8> {
    memory.update(base, value / 100).update(base + 1, (value / 10) % 10).update(
        base + 2,
        value % 10,
    )
}

impl State {
    /// The sizes that every machine state has.
    pub open spec fn wf(self) -> bool {
        &&& self.memory.len() == MEM_SIZE
        &&& self.v.len() == NUM_REGS
        &&& self.stack.len() == STACK_SIZE
        &&& self.sp <= STACK_SIZE
        &&& self.keys.len() == KBD_SIZE
        &&& grid_wf(self.screen)
    }

    /// The state with the program counter moved past one instruction.
    pub open spec fn advance(self) -> State {
        State { pc: add16(self.pc, 2), ..self }
    }

    /// Skips the next instruction if `cond` holds.
    pub open spec fn skip_if(self, cond: bool) -> State {
        if cond {
            self.advance()
        } else {
            self
        }
    }

    /// The state with register `x` set to `value`.
    pub open spec fn set_v(self, x: int, value: u8) -> State {
        State { v: self.v.update(x, value), ..self }
    }

    /// The state with `VF` set to 1 or 0.
    pub open spec fn set_flag(self, flag: bool) -> State {
        self.set_v(FLAG as int, flag_byte(flag))
    }

    /// The source of a shift: `Vy` in legacy mode, else `Vx`.
    pub open spec fn shift_source(self, x: int, y: int) -> u8 {
        if self.legacy {
            self.v[y]
        } else {
            self.v[x]
        }
    }

    /// The index register after a bulk store or load through `Vx`: moved
    /// past the bytes in legacy mode, else kept.
    pub open spec fn index_after_bulk(self, x: int) -> u16 {
        if self.legacy {
            (self.i + x + 1) as u16
        } else {
            self.i
        }
    }

    /// The sprite rows that a draw of `n` rows reads.
    pub open spec fn sprite_rows(self, n: int) -> Seq<u8> {
        self.memory.subrange(self.i as int, self.i + n)
    }

    /// The state after the sprite of `n` rows at the index register has
    /// been drawn at column `x`, row `y`: the display changed, and the flag
    /// set to whether a lit pixel went dark.
    pub open spec fn draw(self, x: int, y: int, n: int) -> State {
        State { screen: drawn(self.screen, self.sprite_rows(n), x, y), ..self }.set_flag(
            erases(self.screen, self.sprite_rows(n), x, y),
        )
    }

    /// The state after the timers have counted down one frame.
    pub open spec fn tick(self) -> State {
        State {
            dt: if self.dt > 0 {
                (self.dt - 1) as u8
            } else {
                0
            },
            st: if self.st > 0 {
                (self.st - 1) as u8
            } else {
                0
            },
            ..self
        }
    }
}

/// The fatal condition, if any, of an instruction with a 12-bit immediate.
pub open spec fn fault_imm(s: State, op: u8, nnn: u16) -> Option<FaultKind> {
    if op == 0 {
        if nnn == 0xE0 {
            None
        } else if nnn == 0xEE {
            if s.sp == 0 {
                Some(FaultKind::StackUnderflow)
            } else {
                None
            }
        } else {
            Some(FaultKind::UnknownInstruction)
        }
    } else if op == 2 {
        if s.sp >= STACK_SIZE {
            Some(FaultKind::StackOverflow)
        } else {
            None
        }
    } else {
        None
    }
}

/// The fatal condition, if any, of an instruction with a register and a
/// byte.
pub open spec fn fault_reg_imm(s: State, op: u8, x: int, kk: u8) -> Option<FaultKind> {
    if op == 0xE {
        if kk == 0x9E || kk == 0xA1 {
            if s.v[x] > 0xF {
                Some(FaultKind::KeyOutOfRange)
            } else {
                None
            }
        } else {
            Some(FaultKind::UnknownInstruction)
        }
    } else if op == 0xF {
        if kk == 0x07 || kk == 0x0A || kk == 0x15 || kk == 0x18 || kk == 0x1E {
            None
        } else if kk == 0x29 {
            if s.v[x] > 0xF {
                Some(FaultKind::DigitOutOfRange)
            } else {
                None
            }
        } else if kk == 0x33 {
            if s.i + 2 >= MEM_SIZE {
                Some(FaultKind::AddressOutOfBounds)
            } else {
                None
            }
        } else if kk == 0x55 || kk == 0x65 {
            if s.i + x >= MEM_SIZE {
                Some(FaultKind::AddressOutOfBounds)
            } else {
                None
            }
        } else {
            Some(FaultKind::UnknownInstruction)
        }
    } else {
        None
    }
}

/// The fatal condition, if any, of an instruction with two registers.
pub open spec fn fault_reg_reg(s: State, op: u8, op2: u8) -> Option<FaultKind> {
    if op == 0xD {
        if op2 == 0 {
            Some(FaultKind::BadSpriteHeight)
        } else if s.i + op2 > MEM_SIZE {
            Some(FaultKind::AddressOutOfBounds)
        } else {
            None
        }
    } else if op == 8 {
        if op2 <= 7 || op2 == 0xE {
            None
        } else {
            Some(FaultKind::UnknownInstruction)
        }
    } else {
        if op2 == 0 {
            None
        } else {
            Some(FaultKind::UnknownInstruction)
        }
    }
}

/// The fatal condition, if any, that executing `instr` in state `s` raises.
pub open spec fn fault_of(s: State, instr: u16) -> Option<FaultKind> {
    match decode(instr) {
        Opcode::Imm { op, nnn } => fault_imm(s, op, nnn),
        Opcode::RegImm { op, x, kk } => fault_reg_imm(s, op, x as int, kk),
        Opcode::RegReg { op, x, y, op2 } => fault_reg_reg(s, op, op2),
    }
}

/// Whether the instruction with a register and a byte is the wait for a
/// key and finds no key pressed.
pub open spec fn blocks_reg_imm(s: State, op: u8, kk: u8) -> bool {
    op == 0xF && kk == 0x0A && !any_pressed(s.keys)
}

/// Whether `instr` is the wait for a key and finds no key pressed.
pub open spec fn blocks(s: State, instr: u16) -> bool {
    decode(instr) matches Opcode::RegImm { op, x, kk } && blocks_reg_imm(s, op, kk)
}

/// The effect of a faultless instruction with a 12-bit immediate on a
/// state whose program counter has already moved past it.
pub open spec fn effect_imm(a: State, op: u8, nnn: u16) -> State {
    if op == 0 {
        if nnn == 0xE0 {
            State { screen: blank_grid(), ..a }
        } else {
            State {
                sp: (a.sp - 1) as u8,
                pc: a.stack[a.sp - 1],
                stack: a.stack.update(a.sp - 1, 0),
                ..a
            }
        }
    } else if op == 1 {
        State { pc: nnn, ..a }
    } else if op == 2 {
        State { stack: a.stack.update(a.sp as int, a.pc), sp: (a.sp + 1) as u8, pc: nnn, ..a }
    } else if op == 0xA {
        State { i: nnn, ..a }
    } else {
        State { pc: (nnn + a.v[0]) as u16, ..a }
    }
}

/// The effect of a faultless, unblocked instruction with a register and
/// a byte on a state whose program counter has already moved past it.
pub open spec fn effect_reg_imm(a: State, op: u8, x: int, kk: u8, random: u8) -> State {
    if op == 3 {
        a.skip_if(a.v[x] == kk)
    } else if op == 4 {
        a.skip_if(a.v[x] != kk)
    } else if op == 6 {
        a.set_v(x, kk)
    } else if op == 7 {
        a.set_v(x, add8(a.v[x], kk))
    } else if op == 0xC {
        a.set_v(x, random & kk)
    } else if op == 0xE {
        if kk == 0x9E {
            a.skip_if(a.keys[a.v[x] as int])
        } else {
            a.skip_if(!a.keys[a.v[x] as int])
        }
    } else {
        if kk == 0x07 {
            a.set_v(x, a.dt)
        } else if kk == 0x0A {
            a.set_v(x, first_pressed(a.keys) as u8)
        } else if kk == 0x15 {
            State { dt: a.v[x], ..a }
        } else if kk == 0x18 {
            State { st: a.v[x], ..a }
        } else if kk == 0x1E {
            State { i: add16(a.i, a.v[x] as u16), ..a }
        } else if kk == 0x29 {
            State { i: (a.v[x] * GLYPH_SIZE) as u16, ..a }
        } else if kk == 0x33 {
            State { memory: with_digits(a.memory, a.i as int, a.v[x]), ..a }
        } else if kk == 0x55 {
            State { memory: stored(a.memory, a.v, a.i as int, x), i: a.index_after_bulk(x), ..a }
        } else {
            State { v: loaded(a.memory, a.v, a.i as int, x), i: a.index_after_bulk(x), ..a }
        }
    }
}

/// The effect of a faultless instruction with two registers on a state
/// whose program counter has already moved past it. Where an instruction
/// writes both `Vx` and the flag, the flag is written last.
pub open spec fn effect_reg_reg(a: State, op: u8, x: int, y: int, op2: u8) -> State {
    if op == 5 {
        a.skip_if(a.v[x] == a.v[y])
    } else if op == 9 {
        a.skip_if(a.v[x] != a.v[y])
    } else if op == 8 {
        if op2 == 0 {
            a.set_v(x, a.v[y])
        } else if op2 == 1 {
            a.set_v(x, a.v[x] | a.v[y])
        } else if op2 == 2 {
            a.set_v(x, a.v[x] & a.v[y])
        } else if op2 == 3 {
            a.set_v(x, a.v[x] ^ a.v[y])
        } else if op2 == 4 {
            a.set_v(x, add8(a.v[x], a.v[y])).set_flag(a.v[x] + a.v[y] > 0xFF)
        } else if op2 == 5 {
            a.set_v(x, sub8(a.v[x], a.v[y])).set_flag(a.v[x] >= a.v[y])
        } else if op2 == 6 {
            a.set_v(x, a.shift_source(x, y) / 2).set_flag(a.shift_source(x, y) % 2 == 1)
        } else if op2 == 7 {
            a.set_v(x, sub8(a.v[y], a.v[x])).set_flag(a.v[y] >= a.v[x])
        } else {
            a.set_v(x, double8(a.shift_source(x, y))).set_flag(a.shift_source(x, y) >= 0x80)
        }
    } else {
        a.draw(a.v[x] as int, a.v[y] as int, op2 as int)
    }
}

/// The state that follows `s` when `instr` executes to its end, `random`
/// being the byte that the random source yields.
pub open spec fn effect_of(s: State, instr: u16, random: u8) -> State {
    match decode(instr) {
        Opcode::Imm { op, nnn } => effect_imm(s.advance(), op, nnn),
        Opcode::RegImm { op, x, kk } => effect_reg_imm(s.advance(), op, x as int, kk, random),
        Opcode::RegReg { op, x, y, op2 } => {
            effect_reg_reg(s.advance(), op, x as int, y as int, op2)
        },
    }
}

/// The report of an instruction that ran to its end.
pub open spec fn completed() -> Result<Progress, Fault> {
    Ok(Progress::Completed)
}

/// The report of an instruction that waits for a key.
pub open spec fn awaiting_key() -> Result<Progress, Fault> {
    Ok(Progress::AwaitingKey)
}

/// The report of a fatal condition.
pub open spec fn fatal(kind: FaultKind, instr: u16, pc: u16) -> Result<Progress, Fault> {
    Err(Fault { kind, instr, pc })
}

/// What executing `instr` in state `s` reports: the fault it raises, or
/// else whether it ran to its end.
pub open spec fn exec_result(s: State, instr: u16) -> Result<Progress, Fault> {
    match fault_of(s, instr) {
        Some(kind) => fatal(kind, instr, s.pc),
        None => if blocks(s, instr) {
            awaiting_key()
        } else {
            completed()
        },
    }
}

/// The state in which executing `instr` in state `s` leaves the machine.
/// A fault commits nothing but the move of the program counter past the
/// instruction; a wait for a key that finds none commits nothing at all.
pub open spec fn exec_state(s: State, instr: u16, random: u8) -> State {
    match exec_result(s, instr) {
        Err(_) => s.advance(),
        Ok(Progress::AwaitingKey) => s,
        Ok(Progress::Completed) => effect_of(s, instr, random),
    }
}

/// The instruction word at the program counter, if memory holds a whole
/// one there.
pub open spec fn fetch(s: State) -> Option<u16> {
    if s.pc + 1 < MEM_SIZE {
        Some(word_at(s.memory, s.pc as int))
    } else {
        None
    }
}

/// What a step of the machine reports: what the instruction at the
/// program counter reports, or a fault if none can be read there.
pub open spec fn step_result(s: State) -> Result<Progress, Fault> {
    match fetch(s) {
        Some(instr) => exec_result(s, instr),
        None => fatal(FaultKind::AddressOutOfBounds, 0, s.pc),
    }
}

/// The state in which a step leaves the machine. A failed fetch changes
/// nothing.
pub open spec fn step_state(s: State, random: u8) -> State {
    match fetch(s) {
        Some(instr) => exec_state(s, instr, random),
        None => s,
    }
}

/// What loading a program reports: a fault if it does not fit.
pub open spec fn load_result(s: State, rom: Seq<u8>) -> Result<(), Fault> {
    if rom.len() > MAX_ROM_SIZE {
        Err(Fault { kind: FaultKind::RomTooLarge, instr: 0, pc: s.pc })
    } else {
        Ok(())
    }
}

/// The state after a program has been loaded. One that does not fit
/// changes nothing.
pub open spec fn load_state(s: State, rom: Seq<u8>) -> State {
    if rom.len() > MAX_ROM_SIZE {
        s
    } else {
        State { memory: with_program(s.memory, rom), ..s }
    }
}

} // verus!
