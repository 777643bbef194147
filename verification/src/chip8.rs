//! The machine: memory, registers, display and keypad under one owner, and
//! the interpreter that executes instructions against them.
//!
//! The machine does no input or output of its own and never waits. A driver
//! owns the clock: while the machine is running it calls [`Chip8::step`]
//! for as long as [`Chip8::frame_open`] allows, pausing [`INSTR_MILLIS`]
//! after each instruction, then calls [`Chip8::end_frame`], sounds the tone
//! if that is due, shows [`Chip8::pixels`] and reports the keypad through
//! [`Chip8::set_key`].

use vstd::prelude::*;
use crate::chip8::display::{blank_grid, on_display, Display, Sprite, FONT};
use crate::chip8::fault::{Fault, FaultKind};
use crate::chip8::opcode::{
    family, is_imm_family, is_reg_imm_family, is_reg_reg_family, lemma_decode_shape, Opcode,
};
use crate::chip8::registers::{Registers, NUM_REGS, PROGRAM_START, STACK_SIZE};
use crate::chip8::state::{
    any_pressed, blocks_reg_imm, effect_imm, effect_reg_imm, effect_reg_reg, exec_result,
    exec_state, fault_imm, fault_reg_imm, fault_reg_reg, first_pressed, first_pressed_from,
    flag_byte, load_result, load_state, step_result, step_state, State, FLAG, GLYPH_SIZE,
};

pub mod display;
pub mod fault;
pub mod laws;
pub mod opcode;
pub mod registers;
pub mod state;

verus! {

/// Number of pixel columns.
pub const DISPLAY_WIDTH: usize = 64;

/// Number of pixel rows.
pub const DISPLAY_HEIGHT: usize = 32;

/// Bytes of memory.
pub const MEM_SIZE: usize = 4 * 1024;

/// Keys on the keypad.
pub const KBD_SIZE: usize = 16;

/// Bytes that a program may occupy: from `0x200` to the end of memory.
pub const MAX_ROM_SIZE: usize = 0xE00;

/// Length of one frame of the 60 Hz clock, in whole milliseconds.
pub const FRAME_MILLIS: u64 = 1000 / 60;

/// Pause after each instruction, in milliseconds: 500 instructions a second.
pub const INSTR_MILLIS: u64 = 1000 / 500;

const INSTR_SIZE: u16 = 2;

/// Whether an instruction ran to its end.
#[derive(Debug, Clone, Copy, PartialEq, Eq, Structural)]
pub enum Progress {
    /// The instruction took effect.
    Completed,
    /// The instruction waits for a key and none is pressed: nothing has
    /// changed, and the instruction is still the next to execute.
    AwaitingKey,
}

pub struct Chip8 {
    running: bool,
    memory: Vec<u8>,
    regs: Registers,
    display: Display,
    keyboard: Vec<bool>,
    /// legacy mode:
    /// SHR Vx, Vy => VF = Vy & 1; Vx = Vy >> 1;
    /// SHL Vx, Vy => VF = Vy >> 7; Vx = Vy << 1;
    ///
    /// Non-legacy-mode:
    /// SHR Vx, Vy => VF = Vx & 1; Vx = Vx >> 1
    /// SHL Vx, Vy => VF = Vx >> 7; Vx = Vx << 1;
    legacy_mode: bool,
}

/// Memory at power-on: the font glyphs at address 0, zero elsewhere.
pub open spec fn initial_memory() -> Seq<u8> {
    Seq::new(
        MEM_SIZE as nat,
        |k: int|
            if k < FONT@.len() {
                FONT@[k]
            } else {
                0u8
            },
    )
}

/// The machine at power-on. Every key reads as pressed until the keypad is
/// first reported.
pub open spec fn initial_state(legacy: bool) -> State {
    State {
        memory: initial_memory(),
        v: Seq::new(NUM_REGS as nat, |k: int| 0u8),
        i: 0,
        pc: PROGRAM_START,
        sp: 0,
        stack: Seq::new(STACK_SIZE as nat, |k: int| 0u16),
        dt: 0,
        st: 0,
        screen: blank_grid(),
        keys: Seq::new(KBD_SIZE as nat, |k: int| true),
        legacy,
        running: false,
    }
}

/// What the implementation of an opcode family reports: the family's
/// fault, or else whether the instruction ran to its end.
spec fn family_result(fault: Option<FaultKind>, blocked: bool) -> Result<Progress, FaultKind> {
    match fault {
        Some(kind) => Err(kind),
        None => if blocked {
            Ok(Progress::AwaitingKey)
        } else {
            Ok(Progress::Completed)
        },
    }
}

/// The state in which the implementation of an opcode family leaves the
/// machine: as it found it on a fault or a wait, else with the family's
/// effect.
spec fn family_state(
    fault: Option<FaultKind>,
    blocked: bool,
    before: State,
    effect: State,
) -> State {
    if fault is Some || blocked {
        before
    } else {
        effect
    }
}

impl View for Chip8 {
    type V = State;

    closed spec fn view(&self) -> State {
        State {
            memory: self.memory@,
            v: self.regs.v@,
            i: self.regs.i,
            pc: self.regs.pc,
            sp: self.regs.sp,
            stack: self.regs.stack@,
            dt: self.regs.dt,
            st: self.regs.st,
            screen: self.display@,
            keys: self.keyboard@,
            legacy: self.legacy_mode,
            running: self.running,
        }
    }
}

impl Chip8 {
    /// The parts have their sizes.
    pub closed spec fn wf(&self) -> bool {
        &&& self.memory@.len() == MEM_SIZE
        &&& self.regs.wf()
        &&& self.display.wf()
        &&& self.keyboard@.len() == KBD_SIZE
    }

    /// A well-formed machine is in a well-formed state.
    pub proof fn lemma_view_wf(&self)
        requires
            self.wf(),
        ensures
            self@.wf(),
    {
        self.display.lemma_view_wf();
    }

    /// A machine at power-on, with the current behaviour of shifts and
    /// bulk load/store.
    pub fn new() -> (chip8: Chip8)
        ensures
            chip8.wf(),
            chip8@ == initial_state(false),
    {
        Chip8::with_legacy_mode(false)
    }

    /// A machine at power-on, with the older behaviour of shifts and bulk
    /// load/store if `legacy_mode` is set.
    pub fn with_legacy_mode(legacy_mode: bool) -> (chip8: Chip8)
        ensures
            chip8.wf(),
            chip8@ == initial_state(legacy_mode),
    {
        let mut chip8 = Chip8 {
            running: false,
            memory: vec![0; MEM_SIZE],
            regs: Registers::new(),
            display: Display::new(),
            keyboard: vec![true; KBD_SIZE],
            legacy_mode,
        };

        // store font data
        for i in 0..FONT.len()
            invariant
                chip8.wf(),
                chip8@ == (State { memory: chip8@.memory, ..initial_state(legacy_mode) }),
                forall|k: int| 0 <= k < i ==> chip8@.memory[k] == FONT@[k],
                forall|k: int| i <= k < MEM_SIZE ==> chip8@.memory[k] == 0,
        {
            chip8.memory[i] = FONT[i];
        }

        chip8
    }

    /// Enters the running state.
    pub fn start(&mut self)
        ensures
            final(self).wf() == old(self).wf(),
            final(self)@ == (State { running: true, ..old(self)@ }),
    {
        self.running = true;
    }

    /// Leaves the running state. Nothing else does: no instruction stops
    /// the clock.
    pub fn stop(&mut self)
        ensures
            final(self).wf() == old(self).wf(),
            final(self)@ == (State { running: false, ..old(self)@ }),
    {
        self.running = false;
    }

    /// Whether the clock is running.
    pub fn is_running(&self) -> (running: bool)
        ensures
            running == self@.running,
    {
        self.running
    }

    /// Whether a frame that began `elapsed_millis` ago still has time for
    /// another instruction.
    pub fn frame_open(elapsed_millis: u64) -> (open: bool)
        ensures
            open == (elapsed_millis < FRAME_MILLIS),
    {
        elapsed_millis < FRAME_MILLIS
    }

    /// The display as rows of cells, each cell 1 where the pixel is lit
    /// and 0 where it is dark.
    pub fn pixels(&self) -> (grid: &Vec<Vec<u8>>)
        requires
            self.wf(),
        ensures
            grid@.len() == DISPLAY_HEIGHT,
            forall|row: int|
                0 <= row < DISPLAY_HEIGHT ==> (#[trigger] grid@[row])@.len() == DISPLAY_WIDTH,
            forall|row: int, col: int|
                on_display(row, col) ==> #[trigger] grid@[row]@[col] == flag_byte(
                    self@.screen[row][col],
                ),
    {
        self.display.pixels()
    }

    /// The register file.
    pub fn regs(&self) -> (regs: &Registers)
        ensures
            regs.v@ == self@.v,
            regs.i == self@.i,
            regs.pc == self@.pc,
            regs.sp == self@.sp,
            regs.stack@ == self@.stack,
            regs.dt == self@.dt,
            regs.st == self@.st,
            self.wf() ==> regs.wf(),
    {
        &self.regs
    }

    /// The bytes of memory.
    pub fn memory(&self) -> (memory: &Vec<u8>)
        ensures
            memory@ == self@.memory,
    {
        &self.memory
    }

    /// The keypad: one entry for each key, `true` while it is pressed.
    pub fn keyboard(&self) -> (keys: &Vec<bool>)
        ensures
            keys@ == self@.keys,
    {
        &self.keyboard
    }

    /// Sets the register `Vx`.
    pub fn set_v(&mut self, x: usize, value: u8)
        requires
            old(self).wf(),
            x < NUM_REGS,
        ensures
            final(self).wf(),
            final(self)@ == old(self)@.set_v(x as int, value),
    {
        self.regs.v[x] = value;
    }

    /// Sets the index register.
    pub fn set_i(&mut self, i: u16)
        ensures
            final(self).wf() == old(self).wf(),
            final(self)@ == (State { i, ..old(self)@ }),
    {
        self.regs.i = i;
    }

    /// Records that a key is now pressed, or now released.
    pub fn set_key(&mut self, key: usize, pressed: bool)
        requires
            old(self).wf(),
            key < KBD_SIZE,
        ensures
            final(self).wf(),
            final(self)@ == (State {
                keys: old(self)@.keys.update(key as int, pressed),
                ..old(self)@
            }),
    {
        self.keyboard[key] = pressed;
    }

    /// Copies a program into memory from address `0x200` on. A program
    /// that does not fit is rejected, and memory is left as it was.
    pub fn load_rom(&mut self, rom: Vec<u8>) -> (loaded: Result<(), Fault>)
        requires
            old(self).wf(),
        ensures
            final(self).wf(),
            loaded == load_result(old(self)@, rom@),
            final(self)@ == load_state(old(self)@, rom@),
    {
        if rom.len() > MAX_ROM_SIZE {
            return Err(Fault { kind: FaultKind::RomTooLarge, instr: 0, pc: self.regs.pc });
        }
        let ghost before = self@;
        let start: usize = PROGRAM_START as usize;
        for k in 0..rom.len()
            invariant
                self.wf(),
                rom@.len() <= MAX_ROM_SIZE,
                start == PROGRAM_START,
                self@ == (State { memory: self@.memory, ..before }),
                before.memory.len() == MEM_SIZE,
                forall|j: int|
                    0 <= j < MEM_SIZE ==> self@.memory[j] == (if start <= j < start + k {
                        rom@[j - start]
                    } else {
                        before.memory[j]
                    }),
        {
            self.memory[start + k] = rom[k];
        }
        Ok(())
    }

    /// Executes the instruction at the program counter. A program counter
    /// from which no whole instruction can be read is fatal and changes
    /// nothing.
    pub fn step(&mut self) -> (progress: Result<Progress, Fault>)
        requires
            old(self).wf(),
        ensures
            final(self).wf(),
            progress == step_result(old(self)@),
            exists|random: u8| final(self)@ == step_state(old(self)@, random),
    {
        let pc: usize = self.regs.pc as usize;
        if pc + 1 >= MEM_SIZE {
            assert(self@ == step_state(self@, 0));
            return Err(Fault { kind: FaultKind::AddressOutOfBounds, instr: 0, pc: self.regs.pc });
        }
        let high: u8 = self.memory[pc];
        let low: u8 = self.memory[pc + 1];
        let instr: u16 = ((high as u16) << 8) | (low as u16);
        assert((((high as u16) << 8) | (low as u16)) == high * 0x100 + low) by (bit_vector);
        let ghost before = self@;
        let progress = self.exec_instr(instr);
        proof {
            let random = choose|random: u8| self@ == exec_state(before, instr, random);
            assert(self@ == step_state(before, random));
        }
        progress
    }

    /// Executes one instruction, drawing a byte from the random source
    /// where the instruction asks for one.
    pub fn exec_instr(&mut self, instr: u16) -> (progress: Result<Progress, Fault>)
        requires
            old(self).wf(),
        ensures
            final(self).wf(),
            progress == exec_result(old(self)@, instr),
            exists|random: u8| final(self)@ == exec_state(old(self)@, instr, random),
            family(instr) != 0xC ==> final(self)@ == exec_state(old(self)@, instr, 0),
    {
        let random: u8 = if instr >> 12 == 0xC {
            random_byte()
        } else {
            0
        };
        assert(family(instr) == 0xC <==> instr >> 12 == 0xC) by (bit_vector)
            requires
                family(instr) == (instr >> 12) as u8,
        ;
        self.exec_instr_with(instr, random)
    }

    /// Executes one instruction, with `random` as the byte that the random
    /// source yields. The program counter moves past the instruction
    /// first; the instruction's own effect follows.
    pub fn exec_instr_with(&mut self, instr: u16, random: u8) -> (progress: Result<Progress, Fault>)
        requires
            old(self).wf(),
        ensures
            final(self).wf(),
            progress == exec_result(old(self)@, instr),
            final(self)@ == exec_state(old(self)@, instr, random),
    {
        let pc: u16 = self.regs.pc;
        proof {
            lemma_decode_shape(instr);
        }
        // pc now points to next instruction
        self.regs.pc = pc.wrapping_add(INSTR_SIZE);

        let outcome = match Opcode::from(instr) {
            Opcode::Imm { op, nnn } => self.exec_imm(op, nnn),
            Opcode::RegImm { op, x, kk } => self.exec_reg_imm(op, x, kk, random),
            Opcode::RegReg { op, x, y, op2 } => self.exec_reg_reg(op, x, y, op2),
        };
        match outcome {
            Ok(Progress::Completed) => Ok(Progress::Completed),
            Ok(Progress::AwaitingKey) => {
                self.regs.pc = pc;
                Ok(Progress::AwaitingKey)
            },
            Err(kind) => Err(Fault { kind, instr, pc }),
        }
    }

    /// The instructions with a 12-bit immediate: clear, return, jump, call,
    /// load index, jump with offset.
    fn exec_imm(&mut self, op: u8, nnn: u16) -> (outcome: Result<Progress, FaultKind>)
        requires
            old(self).wf(),
            nnn <= 0xFFF,
            is_imm_family(op),
        ensures
            final(self).wf(),
            outcome == family_result(fault_imm(old(self)@, op, nnn), false),
            final(self)@ == family_state(
                fault_imm(old(self)@, op, nnn),
                false,
                old(self)@,
                effect_imm(old(self)@, op, nnn),
            ),
    {
        if op == 0 {
            if nnn == 0xE0 {
                // 00E0 - CLS - Clear the display
                self.display.clear();
            } else if nnn == 0xEE {
                // 00EE - RET - Return from a subroutine
                if self.regs.sp == 0 {
                    return Err(FaultKind::StackUnderflow);
                }
                self.regs.sp -= 1;
                let top: usize = self.regs.sp as usize;
                self.regs.pc = self.regs.stack[top];
                self.regs.stack[top] = 0;  // clear stack
            } else {
                return Err(FaultKind::UnknownInstruction);
            }
        } else if op == 1 {
            // 1nnn - JP addr - Jump to location nnn
            self.regs.pc = nnn;
        } else if op == 2 {
            // 2nnn - CALL addr - Call subroutine at nnn
            if self.regs.sp as usize >= STACK_SIZE {
                return Err(FaultKind::StackOverflow);
            }
            let top: usize = self.regs.sp as usize;
            self.regs.stack[top] = self.regs.pc;
            self.regs.sp += 1;
            self.regs.pc = nnn;
        } else if op == 0xA {
            // Annn - LD I, addr - Set I = nnn
            self.regs.i = nnn;
        } else {
            // Bnnn - JP V0, addr - Jump to location nnn + V0
            self.regs.pc = nnn + self.regs.v[0] as u16;
        }
        Ok(Progress::Completed)
    }

    /// Moves the program counter past the next instruction if `cond` holds.
    fn skip_if(&mut self, cond: bool)
        ensures
            final(self).wf() == old(self).wf(),
            final(self)@ == old(self)@.skip_if(cond),
    {
        if cond {
            self.regs.pc = self.regs.pc.wrapping_add(INSTR_SIZE);
        }
    }

    /// The lowest-numbered pressed key, or `KBD_SIZE` if none is pressed.
    fn first_pressed_key(&self) -> (key: usize)
        requires
            self.wf(),
        ensures
            key == first_pressed(self@.keys),
            key <= KBD_SIZE,
            key < KBD_SIZE <==> any_pressed(self@.keys),
    {
        let mut key: usize = 0;
        while key < KBD_SIZE && !self.keyboard[key]
            invariant
                self.wf(),
                key <= KBD_SIZE,
                first_pressed(self@.keys) == first_pressed_from(self@.keys, key as int),
                forall|k: int| 0 <= k < key ==> !self@.keys[k],
            decreases KBD_SIZE - key,
        {
            key += 1;
        }
        key
    }

    /// The instructions with a register and a byte: skips on a value or a
    /// key, load, add, random, and the family `F`.
    fn exec_reg_imm(&mut self, op: u8, x: usize, kk: u8, random: u8) -> (outcome: Result<
        Progress,
        FaultKind,
    >)
        requires
            old(self).wf(),
            x < NUM_REGS,
            is_reg_imm_family(op),
        ensures
            final(self).wf(),
            outcome == family_result(
                fault_reg_imm(old(self)@, op, x as int, kk),
                blocks_reg_imm(old(self)@, op, kk),
            ),
            final(self)@ == family_state(
                fault_reg_imm(old(self)@, op, x as int, kk),
                blocks_reg_imm(old(self)@, op, kk),
                old(self)@,
                effect_reg_imm(old(self)@, op, x as int, kk, random),
            ),
    {
        let vx: u8 = self.regs.v[x];
        if op == 3 {
            // 3xkk - SE Vx, byte - Skip next instruction if Vx = kk
            self.skip_if(vx == kk);
        } else if op == 4 {
            // 4xkk - SNE Vx, byte - Skip next instruction if Vx != kk
            self.skip_if(vx != kk);
        } else if op == 6 {
            // 6xkk - LD Vx, byte - Set Vx = kk
            self.regs.v[x] = kk;
        } else if op == 7 {
            // 7xkk - ADD Vx, byte - Set Vx = Vx + kk
            self.regs.v[x] = vx.wrapping_add(kk);
        } else if op == 0xC {
            // Cxkk - RND Vx, byte - Set Vx = random byte AND kk
            self.regs.v[x] = random & kk;
        } else if op == 0xE {
            // Ex9E - SKP Vx - Skip next instruction if key with the value of Vx is pressed
            // ExA1 - SKNP Vx - Skip next instruction if key with the value of Vx is not pressed
            if kk != 0x9E && kk != 0xA1 {
                return Err(FaultKind::UnknownInstruction);
            }
            let key: usize = vx as usize;
            if key > 0xF {
                return Err(FaultKind::KeyOutOfRange);
            }
            let pressed: bool = self.keyboard[key];
            self.skip_if((kk == 0x9E && pressed) || (kk == 0xA1 && !pressed));
        } else {
            return self.exec_misc(x, kk);
        }
        Ok(Progress::Completed)
    }

    /// The instructions of family `F`: timers, wait for a key, index
    /// arithmetic, glyph lookup, decimal digits, bulk store and load.
    fn exec_misc(&mut self, x: usize, kk: u8) -> (outcome: Result<Progress, FaultKind>)
        requires
            old(self).wf(),
            x < NUM_REGS,
        ensures
            final(self).wf(),
            outcome == family_result(
                fault_reg_imm(old(self)@, 0xF, x as int, kk),
                blocks_reg_imm(old(self)@, 0xF, kk),
            ),
            final(self)@ == family_state(
                fault_reg_imm(old(self)@, 0xF, x as int, kk),
                blocks_reg_imm(old(self)@, 0xF, kk),
                old(self)@,
                effect_reg_imm(old(self)@, 0xF, x as int, kk, 0),
            ),
    {
        let vx: u8 = self.regs.v[x];
        let base: usize = self.regs.i as usize;
        let ghost before = self@;
        proof {
            self.lemma_view_wf();
        }
        if kk == 0x07 {
            // Fx07 - LD Vx, DT - Set Vx = delay timer value
            self.regs.v[x] = self.regs.dt;
        } else if kk == 0x0A {
            // Fx0A - LD Vx, K - Wait for a key press, store the value of the key in Vx
            let key: usize = self.first_pressed_key();
            if key >= KBD_SIZE {
                return Ok(Progress::AwaitingKey);
            }
            self.regs.v[x] = key as u8;
        } else if kk == 0x15 {
            // Fx15 - LD DT, Vx - Set delay timer = Vx
            self.regs.dt = vx;
        } else if kk == 0x18 {
            // Fx18 - LD ST, Vx - Set sound timer = Vx
            self.regs.st = vx;
        } else if kk == 0x1E {
            // Fx1E - ADD I, Vx => Set I = I + Vx
            self.regs.i = self.regs.i.wrapping_add(vx as u16);
        } else if kk == 0x29 {
            // Fx29 - LD F, Vx - Set I = location of sprite for digit Vx
            if vx > 0xF {
                return Err(FaultKind::DigitOutOfRange);
            }
            self.regs.i = (vx as u16) * (GLYPH_SIZE as u16);
        } else if kk == 0x33 {
            // Fx33 - LD B, Vx - Store BCD representation of Vx in memory locations I, I+1, and I+2
            if base + 2 >= MEM_SIZE {
                return Err(FaultKind::AddressOutOfBounds);
            }
            self.memory[base] = (vx / 100) % 10;
            self.memory[base + 1] = (vx / 10) % 10;
            self.memory[base + 2] = vx % 10;
        } else if kk == 0x55 {
            // Fx55 - LD [I], Vx - Store registers V0 through Vx in memory starting at location I
            if base + x >= MEM_SIZE {
                return Err(FaultKind::AddressOutOfBounds);
            }
            for k in 0..(x + 1)
                invariant
                    self.wf(),
                    before.wf(),
                    x < NUM_REGS,
                    base == before.i,
                    base + x < MEM_SIZE,
                    self@ == (State { memory: self@.memory, ..before }),
                    forall|j: int|
                        0 <= j < MEM_SIZE ==> self@.memory[j] == (if base <= j < base + k {
                            before.v[j - base]
                        } else {
                            before.memory[j]
                        }),
            {
                self.memory[base + k] = self.regs.v[k];
            }
            if self.legacy_mode {
                self.regs.i += x as u16 + 1;
            }
        } else if kk == 0x65 {
            // Fx65 - LD Vx, [I] - Read registers V0 through Vx from memory starting at location I
            if base + x >= MEM_SIZE {
                return Err(FaultKind::AddressOutOfBounds);
            }
            for k in 0..(x + 1)
                invariant
                    self.wf(),
                    before.wf(),
                    x < NUM_REGS,
                    base == before.i,
                    base + x < MEM_SIZE,
                    self@ == (State { v: self@.v, ..before }),
                    forall|j: int|
                        0 <= j < NUM_REGS ==> self@.v[j] == (if j < k {
                            before.memory[base + j]
                        } else {
                            before.v[j]
                        }),
            {
                self.regs.v[k] = self.memory[base + k];
            }
            if self.legacy_mode {
                self.regs.i += x as u16 + 1;
            }
        } else {
            return Err(FaultKind::UnknownInstruction);
        }
        Ok(Progress::Completed)
    }

    /// Writes the flag register.
    fn set_flag(&mut self, flag: bool)
        requires
            old(self).wf(),
        ensures
            final(self).wf(),
            final(self)@ == old(self)@.set_flag(flag),
    {
        self.regs.v[FLAG] = if flag {
            1
        } else {
            0
        };
    }

    /// The instructions with two registers: skips on equality, register
    /// arithmetic and logic, draw.
    fn exec_reg_reg(&mut self, op: u8, x: usize, y: usize, op2: u8) -> (outcome: Result<
        Progress,
        FaultKind,
    >)
        requires
            old(self).wf(),
            x < NUM_REGS,
            y < NUM_REGS,
            op2 <= 0xF,
            is_reg_reg_family(op),
        ensures
            final(self).wf(),
            outcome == family_result(fault_reg_reg(old(self)@, op, op2), false),
            final(self)@ == family_state(
                fault_reg_reg(old(self)@, op, op2),
                false,
                old(self)@,
                effect_reg_reg(old(self)@, op, x as int, y as int, op2),
            ),
    {
        let vx: u8 = self.regs.v[x];
        let vy: u8 = self.regs.v[y];
        if op == 0xD {
            // Dxyn - DRW Vx, Vy, nibble
            // Display n-byte sprite starting at memory location I at (Vx, Vy), set VF = collision
            return self.exec_draw(vx, vy, op2);
        }
        if op == 8 {
            return self.exec_alu(x, y, op2);
        }
        if op2 != 0 {
            return Err(FaultKind::UnknownInstruction);
        }
        if op == 5 {
            // 5xy0 - SE Vx, Vy - Skip next instruction if Vx = Vy
            self.skip_if(vx == vy);
        } else {
            // 9xy0 - SNE Vx, Vy - Skip next instruction if Vx != Vy
            self.skip_if(vx != vy);
        }
        Ok(Progress::Completed)
    }

    /// The instructions of family `8`: copy, or, and, xor, add, subtract
    /// both ways, shift both ways.
    fn exec_alu(&mut self, x: usize, y: usize, op2: u8) -> (outcome: Result<Progress, FaultKind>)
        requires
            old(self).wf(),
            x < NUM_REGS,
            y < NUM_REGS,
        ensures
            final(self).wf(),
            outcome == family_result(fault_reg_reg(old(self)@, 8, op2), false),
            final(self)@ == family_state(
                fault_reg_reg(old(self)@, 8, op2),
                false,
                old(self)@,
                effect_reg_reg(old(self)@, 8, x as int, y as int, op2),
            ),
    {
        let vx: u8 = self.regs.v[x];
        let vy: u8 = self.regs.v[y];
        let source: u8 = if self.legacy_mode {
            vy
        } else {
            vx
        };
        if op2 == 0 {
            // 8xy0 - LD Vx, Vy  - Set Vx = Vy
            self.regs.v[x] = vy;
        } else if op2 == 1 {
            // 8xy1 - OR Vx, Vy  - Set Vx = Vx OR Vy
            self.regs.v[x] = vx | vy;
        } else if op2 == 2 {
            // 8xy2 - AND Vx, Vy - Set Vx = Vx AND Vy
            self.regs.v[x] = vx & vy;
        } else if op2 == 3 {
            // 8xy3 - XOR Vx, Vy - Set Vx = Vx XOR Vy
            self.regs.v[x] = vx ^ vy;
        } else if op2 == 4 {
            // 8xy4 - ADD Vx, Vy - Set Vx = Vx + Vy - set VF = carry
            self.regs.v[x] = vx.wrapping_add(vy);
            self.set_flag(vx > 0xFF - vy);
        } else if op2 == 5 {
            // 8xy5 - SUB Vx, Vy - Set Vx = Vx - Vy, set VF = NOT borrow
            self.regs.v[x] = vx.wrapping_sub(vy);
            self.set_flag(vx >= vy);
        } else if op2 == 6 {
            // 8xy6 - SHR Vx {, Vy} - Set Vx = Vx SHR 1
            assert(source >> 1 == source / 2 && (source & 1 == 1) == (source % 2 == 1))
                by (bit_vector);
            self.regs.v[x] = source >> 1;
            self.set_flag(source & 1 == 1);
        } else if op2 == 7 {
            // 8xy7 - SUBN Vx, Vy - Set Vx = Vy - Vx, set VF = NOT borrow
            self.regs.v[x] = vy.wrapping_sub(vx);
            self.set_flag(vy >= vx);
        } else if op2 == 0xE {
            // 8xyE - SHL Vx {, Vy} - Set Vx = Vx SHL 1
            assert(source << 1 == (source * 2) % 0x100 && ((source >> 7) & 1 == 1) == (source
                >= 0x80)) by (bit_vector);
            self.regs.v[x] = source << 1;
            self.set_flag((source >> 7) & 1 == 1);
        } else {
            return Err(FaultKind::UnknownInstruction);
        }
        Ok(Progress::Completed)
    }

    /// Draws the sprite of `n` rows that memory holds at the index
    /// register, with its corner at column `vx`, row `vy`, and sets the
    /// flag to whether a lit pixel went dark.
    fn exec_draw(&mut self, vx: u8, vy: u8, n: u8) -> (outcome: Result<Progress, FaultKind>)
        requires
            old(self).wf(),
            n <= 0xF,
        ensures
            final(self).wf(),
            outcome == family_result(fault_reg_reg(old(self)@, 0xD, n), false),
            final(self)@ == family_state(
                fault_reg_reg(old(self)@, 0xD, n),
                false,
                old(self)@,
                old(self)@.draw(vx as int, vy as int, n as int),
            ),
    {
        if n == 0 {
            return Err(FaultKind::BadSpriteHeight);
        }
        let base: usize = self.regs.i as usize;
        if base + n as usize > MEM_SIZE {
            return Err(FaultKind::AddressOutOfBounds);
        }
        let mut sprite_bytes: Vec<u8> = Vec::new();
        for k in 0..n
            invariant
                self.wf(),
                base + n <= MEM_SIZE,
                sprite_bytes@ == self.memory@.subrange(base as int, base + k),
        {
            let byte: u8 = self.memory[base + k as usize];
            sprite_bytes.push(byte);
        }

        let sprite = Sprite::new(sprite_bytes);
        let collision = self.display.draw_sprite(&sprite, vx as usize, vy as usize);
        self.set_flag(collision);
        Ok(Progress::Completed)
    }

    /// Ends a frame of the 60 Hz clock: each timer that is not zero counts
    /// down by one. Reports whether the tone is due, which it is while the
    /// sound timer has not run out; the delay timer has no part in that.
    pub fn end_frame(&mut self) -> (sound: bool)
        ensures
            final(self).wf() == old(self).wf(),
            final(self)@ == old(self)@.tick(),
            sound == (old(self)@.st > 0),
    {
        let sound = self.regs.st > 0;
        if self.regs.st > 0 {
            self.regs.st -= 1;
        }
        if self.regs.dt > 0 {
            self.regs.dt -= 1;
        }
        sound
    }
}

/// One byte from the `rand` crate's thread-local generator, as
/// `rand::random::<u8>()` yields it. The byte depends on the generator's
/// hidden state, so nothing is claimed of it beyond its type.
#[verifier::external_body]
fn random_byte() -> (byte: u8) {
    rand::random::<u8>()
}

} // verus!
