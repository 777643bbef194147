//! Laws of the instruction set, proved over the model of the machine.

use vstd::prelude::*;
use crate::chip8::display::{lemma_drawn_wf, sprite_rows_ok};
use crate::chip8::fault::FaultKind;
use crate::chip8::opcode::{
    decode, family, field_kk, field_nnn, field_op2, field_x, field_y, lemma_decode_shape, Opcode,
};
use crate::chip8::registers::{PROGRAM_START, STACK_SIZE};
use crate::chip8::state::{
    add16, add8, any_pressed, awaiting_key, completed, exec_result, exec_state, fatal, fetch,
    lemma_first_pressed, load_result, load_state, State, FLAG,
};
use crate::chip8::{MAX_ROM_SIZE, MEM_SIZE};

verus! {

/// The return instruction.
pub const RET: u16 = 0x00EE;

/// Executing an instruction keeps the machine's sizes: sixteen registers,
/// sixteen stack slots with a depth between 0 and 16, 4096 bytes of memory,
/// sixteen keys and a display of 32 by 64 pixels.
pub proof fn lemma_exec_keeps_wf(s: State, instr: u16, random: u8)
    requires
        s.wf(),
    ensures
        exec_state(s, instr, random).wf(),
{
    lemma_decode_shape(instr);
    if let Opcode::RegReg { op, x, y, op2 } = decode(instr) {
        if op == 0xD && exec_result(s, instr) is Ok {
            let a = s.advance();
            let rows = a.sprite_rows(op2 as int);
            assert(sprite_rows_ok(rows));
            lemma_drawn_wf(a.screen, rows, a.v[x as int] as int, a.v[y as int] as int);
        }
    }
}

/// Only the random instruction (family `C`) looks at the random byte.
pub proof fn lemma_random_byte_unused(s: State, instr: u16, random: u8, other: u8)
    requires
        family(instr) != 0xC,
    ensures
        exec_state(s, instr, random) == exec_state(s, instr, other),
{
    lemma_decode_shape(instr);
}

/// A call with room on the stack followed by a return brings the machine
/// back to the instruction after the call, at the depth it had before.
/// The call goes to its target one level deeper and leaves the address of
/// the instruction after it on the stack; the return succeeds, and the
/// state after it is the state before the call with the program counter
/// moved past the call and the stack slot that was used cleared.
pub proof fn lemma_call_then_return(s: State, call: u16, random: u8)
    requires
        s.wf(),
        s.sp < STACK_SIZE,
        family(call) == 2,
    ensures
        exec_result(s, call) == completed(),
        ({
            let called = exec_state(s, call, random);
            let returned = exec_state(called, RET, random);
            &&& called.pc == field_nnn(call)
            &&& called.sp == s.sp + 1
            &&& called.stack[s.sp as int] == add16(s.pc, 2)
            &&& exec_result(called, RET) == completed()
            &&& returned.pc == add16(s.pc, 2)
            &&& returned.sp == s.sp
            &&& returned == (State { stack: s.stack.update(s.sp as int, 0), ..s.advance() })
        }),
{
    lemma_decode_shape(call);
    lemma_decode_ret();
    let called = exec_state(s, call, random);
    let returned = exec_state(called, RET, random);
    assert(returned.stack =~= s.stack.update(s.sp as int, 0));
}

/// The stack has sixteen slots and the machine never goes beyond them: a
/// call is fatal exactly when all sixteen are in use, a return exactly when
/// none is. Either fault commits nothing but the move of the program
/// counter past the instruction.
pub proof fn lemma_stack_bounds(s: State, call: u16, random: u8)
    requires
        s.wf(),
        family(call) == 2,
    ensures
        s.sp == STACK_SIZE <==> exec_result(s, call) == fatal(
            FaultKind::StackOverflow,
            call,
            s.pc,
        ),
        s.sp < STACK_SIZE <==> exec_result(s, call) == completed(),
        s.sp == STACK_SIZE ==> exec_state(s, call, random) == s.advance(),
        s.sp == 0 <==> exec_result(s, RET) == fatal(FaultKind::StackUnderflow, RET, s.pc),
        s.sp > 0 <==> exec_result(s, RET) == completed(),
        s.sp == 0 ==> exec_state(s, RET, random) == s.advance(),
{
    lemma_decode_shape(call);
    lemma_decode_ret();
}

/// The right shift `8xy6` takes its source from `Vx`, or in legacy mode
/// from `Vy`. It leaves half the source in `Vx` and the source's low bit,
/// as it was before the shift, in `VF`. The flag is written last, so with
/// `x = 0xF` it is the flag that `VF` holds. No other register changes.
pub proof fn lemma_shift_right_quirk(s: State, instr: u16, random: u8)
    requires
        s.wf(),
        family(instr) == 8,
        field_op2(instr) == 6,
    ensures
        exec_result(s, instr) == completed(),
        ({
            let x = field_x(instr) as int;
            let y = field_y(instr) as int;
            let source = if s.legacy {
                s.v[y]
            } else {
                s.v[x]
            };
            let after = exec_state(s, instr, random);
            &&& after.v[FLAG as int] == source % 2
            &&& after.v[FLAG as int] == source & 1
            &&& x != FLAG ==> after.v[x] == source / 2
            &&& x != FLAG ==> after.v[x] == source >> 1
            &&& forall|k: int| 0 <= k < s.v.len() && k != x && k != FLAG ==> after.v[k] == s.v[k]
        }),
{
    lemma_decode_shape(instr);
    let source = s.shift_source(field_x(instr) as int, field_y(instr) as int);
    assert(source & 1 == source % 2 && source >> 1 == source / 2) by (bit_vector);
}

/// Register arithmetic wraps and is never fatal: the add-immediate `7xkk`
/// leaves in `Vx` the sum of `Vx` and `kk` modulo 256, so that `0xFF` plus 1
/// is 0, and changes no other register, the flag included.
pub proof fn lemma_add_byte_wraps(s: State, instr: u16, random: u8)
    requires
        s.wf(),
        family(instr) == 7,
    ensures
        exec_result(s, instr) == completed(),
        ({
            let x = field_x(instr) as int;
            let sum = add8(s.v[x], field_kk(instr));
            &&& exec_state(s, instr, random) == s.advance().set_v(x, sum)
            &&& sum == (s.v[x] + field_kk(instr)) % 256
            &&& s.v[x] == 0xFF && field_kk(instr) == 1 ==> sum == 0
        }),
{
    lemma_decode_shape(instr);
}

/// The skip `3xkk` leaves the program counter two past the instruction
/// when `Vx` differs from `kk` and four past it when they are equal, and
/// changes nothing else.
pub proof fn lemma_skip_if_equal(s: State, instr: u16, random: u8)
    requires
        s.wf(),
        family(instr) == 3,
    ensures
        exec_result(s, instr) == completed(),
        ({
            let after = exec_state(s, instr, random);
            let equal = s.v[field_x(instr) as int] == field_kk(instr);
            &&& !equal ==> after == (State { pc: add16(s.pc, 2), ..s })
            &&& equal ==> after == (State { pc: add16(s.pc, 4), ..s })
        }),
{
    lemma_decode_shape(instr);
}

/// The decimal store `Fx33` writes three digits, each at most 9, that read
/// as a decimal number give back `Vx`: hundreds at the index register,
/// tens after them, ones last. It is fatal exactly when the third digit
/// would fall outside memory.
pub proof fn lemma_decimal_digits(s: State, instr: u16, random: u8)
    requires
        s.wf(),
        family(instr) == 0xF,
        field_kk(instr) == 0x33,
    ensures
        s.i + 2 < MEM_SIZE <==> exec_result(s, instr) == completed(),
        s.i + 2 >= MEM_SIZE <==> exec_result(s, instr) == fatal(
            FaultKind::AddressOutOfBounds,
            instr,
            s.pc,
        ),
        s.i + 2 < MEM_SIZE ==> ({
            let after = exec_state(s, instr, random);
            let value = s.v[field_x(instr) as int];
            let at = s.i as int;
            &&& after.memory[at] <= 9
            &&& after.memory[at + 1] <= 9
            &&& after.memory[at + 2] <= 9
            &&& 100 * after.memory[at] + 10 * after.memory[at + 1] + after.memory[at + 2] == value
            &&& forall|k: int|
                0 <= k < MEM_SIZE && !(at <= k <= at + 2) ==> after.memory[k] == s.memory[k]
        }),
{
    lemma_decode_shape(instr);
}

/// The wait for a key `Fx0A` is never fatal. While no key is pressed it
/// changes nothing, the program counter included, so that it is still the
/// next instruction to execute. As soon as a key is pressed it runs to its
/// end and leaves in `Vx` the index of the lowest-numbered pressed key.
pub proof fn lemma_wait_for_key(s: State, instr: u16, random: u8)
    requires
        s.wf(),
        family(instr) == 0xF,
        field_kk(instr) == 0x0A,
    ensures
        !any_pressed(s.keys) ==> exec_result(s, instr) == awaiting_key() && exec_state(
            s,
            instr,
            random,
        ) == s,
        any_pressed(s.keys) ==> exec_result(s, instr) == completed() && ({
            let after = exec_state(s, instr, random);
            let key = after.v[field_x(instr) as int] as int;
            &&& 0 <= key < s.keys.len()
            &&& s.keys[key]
            &&& forall|k: int| 0 <= k < key ==> !s.keys[k]
            &&& after == s.advance().set_v(field_x(instr) as int, key as u8)
        }),
{
    lemma_decode_shape(instr);
    lemma_first_pressed(s.keys);
}

/// A loaded program is found where the machine looks for it: with the
/// program counter at the `k`-th instruction after `0x200`, the word
/// fetched is made of the program's bytes `2k` and `2k + 1`, high byte
/// first.
pub proof fn lemma_program_is_fetched(s: State, rom: Seq<u8>, k: int)
    requires
        s.wf(),
        rom.len() <= MAX_ROM_SIZE,
        0 <= k,
        2 * k + 1 < rom.len(),
    ensures
        load_result(s, rom) is Ok,
        fetch(State { pc: (PROGRAM_START + 2 * k) as u16, ..load_state(s, rom) }) == Some(
            (rom[2 * k] * 0x100 + rom[2 * k + 1]) as u16,
        ),
{
}

/// The return instruction decodes to family 0 with the immediate `0xEE`.
proof fn lemma_decode_ret()
    ensures
        decode(RET) == (Opcode::Imm { op: 0, nnn: 0xEE }),
{
    lemma_decode_shape(RET);
    assert(0x00EEu16 >> 12 == 0 && 0x00EEu16 & 0xFFF == 0xEE) by (bit_vector);
}

} // verus!
