//! The instruction decoder: a pure classification of 16-bit instruction
//! words into three shapes, selected by the word's high nibble.

use vstd::prelude::*;

verus! {

/// A decoded instruction word.
#[derive(Debug, Clone, Copy)]
pub enum Opcode {
    /// A family nibble and a 12-bit immediate (usually an address).
    Imm { op: u8, nnn: u16 },
    /// A family nibble, one register index and an 8-bit immediate.
    RegImm { op: u8, x: usize, kk: u8 },
    /// A family nibble, two register indices and a 4-bit sub-operation.
    RegReg { op: u8, x: usize, y: usize, op2: u8 },
}

/// The opcode family of a word: its high nibble.
pub open spec fn family(word: u16) -> u8 {
    (word >> 12) as u8
}

/// The families whose words carry a 12-bit immediate.
pub open spec fn is_imm_family(op: u8) -> bool {
    op == 0 || op == 1 || op == 2 || op == 0xA || op == 0xB
}

/// The families whose words carry a register index and a byte.
pub open spec fn is_reg_imm_family(op: u8) -> bool {
    op == 3 || op == 4 || op == 6 || op == 7 || op == 0xC || op == 0xE || op == 0xF
}

/// The families whose words carry two register indices and a nibble.
pub open spec fn is_reg_reg_family(op: u8) -> bool {
    op == 5 || op == 8 || op == 9 || op == 0xD
}

/// The low twelve bits of a word.
pub open spec fn field_nnn(word: u16) -> u16 {
    word & 0xFFF
}

/// Bits 8 to 11 of a word.
pub open spec fn field_x(word: u16) -> usize {
    ((word >> 8) & 0xF) as usize
}

/// Bits 4 to 7 of a word.
pub open spec fn field_y(word: u16) -> usize {
    ((word >> 4) & 0xF) as usize
}

/// The low byte of a word.
pub open spec fn field_kk(word: u16) -> u8 {
    (word & 0xFF) as u8
}

/// The low nibble of a word.
pub open spec fn field_op2(word: u16) -> u8 {
    (word & 0xF) as u8
}

/// The decoding of an instruction word. Every word has one.
pub open spec fn decode(word: u16) -> Opcode {
    let op = family(word);
    if is_imm_family(op) {
        Opcode::Imm { op, nnn: field_nnn(word) }
    } else if is_reg_reg_family(op) {
        Opcode::RegReg { op, x: field_x(word), y: field_y(word), op2: field_op2(word) }
    } else {
        Opcode::RegImm { op, x: field_x(word), kk: field_kk(word) }
    }
}

/// Every instruction word falls into exactly one of the three families of
/// shapes, the decoder produces the shape of that family, and each field
/// is the stated slice of the word's bits, so that register indices and
/// the sub-operation are at most `0xF` and the immediate at most `0xFFF`.
pub proof fn lemma_decode_shape(word: u16)
    ensures
        family(word) == word >> 12,
        family(word) == word / 0x1000,
        is_imm_family(family(word)) <==> decode(word) is Imm,
        is_reg_imm_family(family(word)) <==> decode(word) is RegImm,
        is_reg_reg_family(family(word)) <==> decode(word) is RegReg,
        decode(word) matches Opcode::Imm { op, nnn } ==> {
            &&& op == family(word)
            &&& nnn == word & 0xFFF
            &&& nnn == word % 0x1000
        },
        decode(word) matches Opcode::RegImm { op, x, kk } ==> {
            &&& op == family(word)
            &&& x == (word >> 8) & 0xF
            &&& x == (word / 0x100) % 0x10
            &&& kk == word & 0xFF
            &&& kk == word % 0x100
        },
        decode(word) matches Opcode::RegReg { op, x, y, op2 } ==> {
            &&& op == family(word)
            &&& x == (word >> 8) & 0xF
            &&& x == (word / 0x100) % 0x10
            &&& y == (word >> 4) & 0xF
            &&& y == (word / 0x10) % 0x10
            &&& op2 == word & 0xF
            &&& op2 == word % 0x10
        },
{
    assert((word >> 12) == word / 0x1000) by (bit_vector);
    assert((word & 0xFFF) == word % 0x1000) by (bit_vector);
    assert(((word >> 8) & 0xF) == (word / 0x100) % 0x10) by (bit_vector);
    assert(((word >> 4) & 0xF) == (word / 0x10) % 0x10) by (bit_vector);
    assert((word & 0xFF) == word % 0x100) by (bit_vector);
    assert((word & 0xF) == word % 0x10) by (bit_vector);
}

impl From<u16> for Opcode {
    /// Decodes an instruction word.
    fn from(opcode: u16) -> (decoded: Opcode)
        ensures
            decoded == decode(opcode),
    {
        let op: u8 = (opcode >> 12) as u8;
        let nnn: u16 = opcode & 0xFFF;
        let x: usize = ((opcode >> 8) & 0xF) as usize;
        let kk: u8 = (opcode & 0xFF) as u8;
        let y: usize = ((opcode >> 4) & 0xF) as usize;
        let op2: u8 = (opcode & 0xF) as u8;

        match op {
            0 | 1 | 2 | 0xA | 0xB => Opcode::Imm { op, nnn },
            5 | 8 | 9 | 0xD => Opcode::RegReg { op, x, y, op2 },
            _ => Opcode::RegImm { op, x, kk },
        }
    }
}

impl vstd::std_specs::convert::FromSpecImpl<u16> for Opcode {
    open spec fn obeys_from_spec() -> bool {
        true
    }

    open spec fn from_spec(opcode: u16) -> Opcode {
        decode(opcode)
    }
}

} // verus!
