use chip8_core::chip8::fault::{Fault, FaultKind};
use chip8_core::chip8::display::Sprite;
use chip8_core::chip8::registers::Registers;
use chip8_core::chip8::{Chip8, Progress, FRAME_MILLIS, INSTR_MILLIS};

#[test]
fn chip8_jmp_addr() {
    let mut chip8 = Chip8::new();
    chip8.exec_instr(0x1555).unwrap();
    assert_eq!(chip8.regs().pc, 0x555);
}

#[test]
fn chip8_call_ret() {
    let mut chip8 = Chip8::new();
    chip8.exec_instr(0x2555).unwrap();
    assert_eq!(chip8.regs().pc, 0x555);
    assert_eq!(chip8.regs().sp, 1);
    assert_eq!(chip8.regs().stack[0], 0x202);
    chip8.exec_instr(0x2777).unwrap();
    assert_eq!(chip8.regs().pc, 0x777);
    assert_eq!(chip8.regs().sp, 2);
    assert_eq!(chip8.regs().stack[1], 0x557);
    chip8.exec_instr(0x00EE).unwrap();
    assert_eq!(chip8.regs().pc, 0x557);
    assert_eq!(chip8.regs().sp, 1);
    chip8.exec_instr(0x00EE).unwrap();
    assert_eq!(chip8.regs().pc, 0x202);
    assert_eq!(chip8.regs().sp, 0);
}

#[test]
#[should_panic]
fn chip8_ret_stack_overflow() {
    let mut chip8 = Chip8::new();
    assert_eq!(chip8.regs().sp, 0);
    chip8.exec_instr(0x00EE).unwrap();
}

#[test]
fn chip8_skip_instr() {
    let mut chip8 = Chip8::new();
    assert_eq!(chip8.regs().pc, 0x200);
    chip8.exec_instr(0x3455).unwrap();
    assert_eq!(chip8.regs().pc, 0x202);
    chip8.set_v(4, 0x55);
    chip8.exec_instr(0x3455).unwrap();
    assert_eq!(chip8.regs().pc, 0x206);
    chip8.exec_instr(0x4400).unwrap();
    assert_eq!(chip8.regs().pc, 0x20A);
    chip8.exec_instr(0x4455).unwrap();
    assert_eq!(chip8.regs().pc, 0x20C);
    chip8.exec_instr(0x5450).unwrap();
    assert_eq!(chip8.regs().pc, 0x20E);
    chip8.set_v(5, 0x55);
    chip8.exec_instr(0x5450).unwrap();
    assert_eq!(chip8.regs().pc, 0x212);
}

#[test]
fn chip8_add_byte() {
    let mut chip8 = Chip8::new();
    chip8.exec_instr(0x70FF).unwrap();
    assert_eq!(chip8.regs().v[0], 0xFF);
    chip8.exec_instr(0x7020).unwrap();
    assert_eq!(chip8.regs().v[0], 0x1F);
    chip8.exec_instr(0x7A25).unwrap();
    assert_eq!(chip8.regs().v[10], 0x25);
}

#[test]
fn chip8_load_instr() {
    let mut chip8 = Chip8::new();
    assert_eq!(chip8.regs().v[4], 0x00);
    chip8.exec_instr(0x6455).unwrap();
    assert_eq!(chip8.regs().v[4], 0x55);
    chip8.exec_instr(0x8540).unwrap();
    assert_eq!(chip8.regs().v[5], 0x55);
}

#[test]
fn chip8_arithmetic_logic() {
    let mut chip8 = Chip8::new();
    chip8.set_v(1, 0b0011_1010);
    chip8.set_v(2, 0b0111_1111);
    chip8.exec_instr(0x8121).unwrap(); // OR
    assert_eq!(chip8.regs().v[1], 0b0111_1111);
    assert_eq!(chip8.regs().v[2], 0b0111_1111);

    chip8.set_v(1, 0b0011_1010);
    chip8.exec_instr(0x8122).unwrap(); // AND
    assert_eq!(chip8.regs().v[1], 0b0011_1010);

    chip8.set_v(1, 0b0011_1010);
    chip8.exec_instr(0x8123).unwrap(); // XOR
    assert_eq!(chip8.regs().v[1], 0b0100_0101);

    chip8.set_v(1, 0x20);
    chip8.set_v(2, 0x10);
    chip8.exec_instr(0x8124).unwrap(); // ADD
    assert_eq!(chip8.regs().v[1], 0x30);
    assert_eq!(chip8.regs().v[0xF], 0);

    chip8.set_v(1, 0xFF);
    chip8.set_v(2, 0x10);
    chip8.exec_instr(0x8124).unwrap(); // ADD
    assert_eq!(chip8.regs().v[1], 0x0F);
    assert_eq!(chip8.regs().v[0xF], 1);

    chip8.set_v(1, 0x80);
    chip8.exec_instr(0x812E).unwrap(); // SHL
    assert_eq!(chip8.regs().v[1], 0x0);
    assert_eq!(chip8.regs().v[0xF], 1);

    chip8.set_v(1, 10);
    chip8.exec_instr(0x812E).unwrap(); // SHL
    assert_eq!(chip8.regs().v[1], 20);
    assert_eq!(chip8.regs().v[0xF], 0);
}

#[test]
fn chip8_bcd() {
    let mut chip8 = Chip8::new();
    chip8.set_i(0x400);
    chip8.set_v(3, 197);

    chip8.exec_instr(0xF333).unwrap();
    assert_eq!(chip8.memory()[0x400], 1);
    assert_eq!(chip8.memory()[0x401], 9);
    assert_eq!(chip8.memory()[0x402], 7);
}

fn fault(kind: FaultKind, instr: u16, pc: u16) -> Result<Progress, Fault> {
    Err(Fault { kind, instr, pc })
}

#[test]
fn power_on_state() {
    let chip8 = Chip8::new();
    assert_eq!(chip8.regs().v, vec![0u8; 16]);
    assert_eq!(chip8.regs().stack, vec![0u16; 16]);
    assert_eq!(chip8.regs().i, 0);
    assert_eq!(chip8.regs().pc, 0x200);
    assert_eq!(chip8.regs().sp, 0);
    assert_eq!(chip8.regs().dt, 0);
    assert_eq!(chip8.regs().st, 0);
    assert!(!chip8.is_running());
    assert_eq!(chip8.memory().len(), 4096);
    assert_eq!(chip8.pixels().len(), 32);
    for row in chip8.pixels() {
        assert_eq!(row, &vec![0u8; 64]);
    }
}

#[test]
fn font_sits_at_address_zero() {
    let chip8 = Chip8::new();
    let memory = chip8.memory();
    assert_eq!(&memory[0..5], &[0xF0, 0x90, 0x90, 0x90, 0xF0]);
    assert_eq!(&memory[5..10], &[0x20, 0x60, 0x20, 0x20, 0x70]);
    assert_eq!(&memory[0x4B..0x50], &[0xF0, 0x80, 0xF0, 0x80, 0x80]);
    assert!(memory[0x50..].iter().all(|byte| *byte == 0));
}

#[test]
fn add_byte_wraps_to_zero() {
    let mut chip8 = Chip8::new();
    chip8.set_v(7, 0xFF);
    assert_eq!(chip8.exec_instr(0x7701), Ok(Progress::Completed));
    assert_eq!(chip8.regs().v[7], 0x00);
    // the flag is not touched by the immediate add
    assert_eq!(chip8.regs().v[0xF], 0);
}

#[test]
fn call_then_return_restores_pc_and_depth() {
    let mut chip8 = Chip8::new();
    chip8.exec_instr(0x1ABC).unwrap();
    chip8.exec_instr(0x2111).unwrap();
    chip8.exec_instr(0x2222).unwrap();
    let depth: u8 = chip8.regs().sp;
    let pc: u16 = chip8.regs().pc;
    assert_eq!(depth, 2);
    assert_eq!(pc, 0x222);
    chip8.exec_instr(0x2555).unwrap();
    assert_eq!(chip8.regs().pc, 0x555);
    assert_eq!(chip8.regs().sp, 3);
    assert_eq!(chip8.regs().stack[2], pc + 2);
    chip8.exec_instr(0x00EE).unwrap();
    assert_eq!(chip8.regs().pc, pc + 2);
    assert_eq!(chip8.regs().sp, depth);
    // the vacated slot is cleared
    assert_eq!(chip8.regs().stack[2], 0);
    assert_eq!(chip8.regs().stack[1], 0x113);
}

#[test]
fn call_with_full_stack_is_fatal() {
    let mut chip8 = Chip8::new();
    for depth in 0..16u8 {
        assert_eq!(chip8.regs().sp, depth);
        assert_eq!(chip8.exec_instr(0x2300), Ok(Progress::Completed));
    }
    assert_eq!(chip8.regs().sp, 16);
    assert_eq!(chip8.regs().pc, 0x300);
    let stack = chip8.regs().stack.clone();
    assert_eq!(chip8.exec_instr(0x2555), fault(FaultKind::StackOverflow, 0x2555, 0x300));
    // nothing is committed but the move past the instruction
    assert_eq!(chip8.regs().sp, 16);
    assert_eq!(chip8.regs().pc, 0x302);
    assert_eq!(chip8.regs().stack, stack);
}

#[test]
fn return_with_empty_stack_is_fatal() {
    let mut chip8 = Chip8::new();
    assert_eq!(chip8.exec_instr(0x00EE), fault(FaultKind::StackUnderflow, 0x00EE, 0x200));
    assert_eq!(chip8.regs().sp, 0);
    assert_eq!(chip8.regs().pc, 0x202);
}

#[test]
fn sixteen_returns_unwind_a_full_stack() {
    let mut chip8 = Chip8::new();
    for _ in 0..16 {
        chip8.exec_instr(0x2300).unwrap();
    }
    for _ in 0..15 {
        chip8.exec_instr(0x00EE).unwrap();
        assert_eq!(chip8.regs().pc, 0x302);
    }
    chip8.exec_instr(0x00EE).unwrap();
    assert_eq!(chip8.regs().pc, 0x202);
    assert_eq!(chip8.regs().sp, 0);
    assert_eq!(chip8.regs().stack, vec![0u16; 16]);
}

#[test]
fn skip_if_equal_byte() {
    let mut chip8 = Chip8::new();
    chip8.set_v(4, 0x54);
    chip8.exec_instr(0x3455).unwrap();
    assert_eq!(chip8.regs().pc, 0x202);

    let mut chip8 = Chip8::new();
    chip8.set_v(4, 0x55);
    chip8.exec_instr(0x3455).unwrap();
    assert_eq!(chip8.regs().pc, 0x204);
}

#[test]
fn skip_if_registers_differ() {
    let mut chip8 = Chip8::new();
    chip8.set_v(1, 3);
    chip8.set_v(2, 3);
    chip8.exec_instr(0x9120).unwrap();
    assert_eq!(chip8.regs().pc, 0x202);
    chip8.set_v(2, 4);
    chip8.exec_instr(0x9120).unwrap();
    assert_eq!(chip8.regs().pc, 0x206);
}

#[test]
fn program_counter_wraps_at_sixteen_bits() {
    let mut chip8 = Chip8::new();
    chip8.set_v(0, 0xFF);
    chip8.exec_instr(0xBFFF).unwrap();
    assert_eq!(chip8.regs().pc, 0x10FE);
    // only a jump can move it this far; from there each instruction adds 2
    for _ in 0..((0x10000 - 0x10FE) / 2 - 1) {
        chip8.exec_instr(0x6000).unwrap();
    }
    assert_eq!(chip8.regs().pc, 0xFFFE);
    chip8.exec_instr(0x6000).unwrap();
    assert_eq!(chip8.regs().pc, 0x0000);
}

#[test]
fn jump_with_offset_adds_v0() {
    let mut chip8 = Chip8::new();
    chip8.set_v(0, 0x12);
    chip8.exec_instr(0xB300).unwrap();
    assert_eq!(chip8.regs().pc, 0x312);
}

#[test]
fn load_index() {
    let mut chip8 = Chip8::new();
    chip8.exec_instr(0xAFED).unwrap();
    assert_eq!(chip8.regs().i, 0xFED);
    assert_eq!(chip8.regs().pc, 0x202);
}

#[test]
fn subtract_sets_flag_when_no_borrow() {
    let mut chip8 = Chip8::new();
    chip8.set_v(1, 0x30);
    chip8.set_v(2, 0x10);
    chip8.exec_instr(0x8125).unwrap();
    assert_eq!(chip8.regs().v[1], 0x20);
    assert_eq!(chip8.regs().v[0xF], 1);

    chip8.set_v(1, 0x10);
    chip8.set_v(2, 0x30);
    chip8.exec_instr(0x8125).unwrap();
    assert_eq!(chip8.regs().v[1], 0xE0);
    assert_eq!(chip8.regs().v[0xF], 0);

    chip8.set_v(1, 0x42);
    chip8.set_v(2, 0x42);
    chip8.exec_instr(0x8125).unwrap();
    assert_eq!(chip8.regs().v[1], 0x00);
    assert_eq!(chip8.regs().v[0xF], 1);
}

#[test]
fn reverse_subtract_sets_flag_when_no_borrow() {
    let mut chip8 = Chip8::new();
    chip8.set_v(1, 0x10);
    chip8.set_v(2, 0x30);
    chip8.exec_instr(0x8127).unwrap();
    assert_eq!(chip8.regs().v[1], 0x20);
    assert_eq!(chip8.regs().v[2], 0x30);
    assert_eq!(chip8.regs().v[0xF], 1);

    chip8.set_v(1, 0x31);
    chip8.set_v(2, 0x30);
    chip8.exec_instr(0x8127).unwrap();
    assert_eq!(chip8.regs().v[1], 0xFF);
    assert_eq!(chip8.regs().v[0xF], 0);
}

#[test]
fn flag_is_written_last() {
    let mut chip8 = Chip8::new();
    chip8.set_v(0xF, 0xF0);
    chip8.set_v(1, 0x20);
    chip8.exec_instr(0x8F14).unwrap();
    assert_eq!(chip8.regs().v[0xF], 1);

    chip8.set_v(0xF, 0x07);
    chip8.exec_instr(0x8F06).unwrap();
    assert_eq!(chip8.regs().v[0xF], 1);

    chip8.set_v(0xF, 0x06);
    chip8.exec_instr(0x8F06).unwrap();
    assert_eq!(chip8.regs().v[0xF], 0);
}

#[test]
fn shift_right_uses_vx_by_default() {
    let mut chip8 = Chip8::new();
    chip8.set_v(1, 0b0000_0101);
    chip8.set_v(2, 0b1111_0000);
    assert_eq!(chip8.exec_instr(0x8126), Ok(Progress::Completed));
    assert_eq!(chip8.regs().v[1], 0b0000_0010);
    assert_eq!(chip8.regs().v[2], 0b1111_0000);
    assert_eq!(chip8.regs().v[0xF], 1);

    chip8.exec_instr(0x8126).unwrap();
    assert_eq!(chip8.regs().v[1], 0b0000_0001);
    assert_eq!(chip8.regs().v[0xF], 0);
}

#[test]
fn shift_right_uses_vy_in_legacy_mode() {
    let mut chip8 = Chip8::with_legacy_mode(true);
    chip8.set_v(1, 0b0000_0101);
    chip8.set_v(2, 0b1111_0000);
    assert_eq!(chip8.exec_instr(0x8126), Ok(Progress::Completed));
    assert_eq!(chip8.regs().v[1], 0b0111_1000);
    assert_eq!(chip8.regs().v[2], 0b1111_0000);
    assert_eq!(chip8.regs().v[0xF], 0);

    chip8.set_v(2, 0b0000_0111);
    chip8.exec_instr(0x8126).unwrap();
    assert_eq!(chip8.regs().v[1], 0b0000_0011);
    assert_eq!(chip8.regs().v[0xF], 1);
}

#[test]
fn shift_left_uses_vy_in_legacy_mode() {
    let mut chip8 = Chip8::with_legacy_mode(true);
    chip8.set_v(1, 0x01);
    chip8.set_v(2, 0xC1);
    chip8.exec_instr(0x812E).unwrap();
    assert_eq!(chip8.regs().v[1], 0x82);
    assert_eq!(chip8.regs().v[2], 0xC1);
    assert_eq!(chip8.regs().v[0xF], 1);
}

#[test]
fn bcd_of_small_and_large_values() {
    let mut chip8 = Chip8::new();
    chip8.set_i(0x300);
    chip8.set_v(0, 255);
    chip8.exec_instr(0xF033).unwrap();
    assert_eq!(&chip8.memory()[0x300..0x303], &[2, 5, 5]);
    chip8.set_v(0, 7);
    chip8.exec_instr(0xF033).unwrap();
    assert_eq!(&chip8.memory()[0x300..0x303], &[0, 0, 7]);
    chip8.set_v(0, 40);
    chip8.exec_instr(0xF033).unwrap();
    assert_eq!(&chip8.memory()[0x300..0x303], &[0, 4, 0]);
}

#[test]
fn bcd_at_the_end_of_memory() {
    let mut chip8 = Chip8::new();
    chip8.set_v(0, 123);
    chip8.set_i(0xFFD);
    assert_eq!(chip8.exec_instr(0xF033), Ok(Progress::Completed));
    assert_eq!(&chip8.memory()[0xFFD..], &[1, 2, 3]);
    chip8.set_i(0xFFE);
    let memory = chip8.memory().clone();
    assert_eq!(chip8.exec_instr(0xF033), fault(FaultKind::AddressOutOfBounds, 0xF033, 0x202));
    assert_eq!(chip8.memory(), &memory);
    assert_eq!(chip8.regs().pc, 0x204);
}

#[test]
fn end_to_end_load_and_copy() {
    let mut chip8 = Chip8::new();
    chip8.load_rom(vec![0x64, 0x55, 0x85, 0x40]).unwrap();
    assert_eq!(chip8.step(), Ok(Progress::Completed));
    assert_eq!(chip8.step(), Ok(Progress::Completed));
    assert_eq!(chip8.regs().v[4], 0x55);
    assert_eq!(chip8.regs().v[5], 0x55);
    assert_eq!(chip8.regs().pc, 0x204);
}

#[test]
fn load_rom_copies_verbatim() {
    let mut chip8 = Chip8::new();
    let rom: Vec<u8> = (0..=255u8).collect();
    assert_eq!(chip8.load_rom(rom.clone()), Ok(()));
    assert_eq!(&chip8.memory()[0x200..0x300], &rom[..]);
    assert_eq!(chip8.memory()[0x1FF], 0);
    assert_eq!(chip8.memory()[0x300], 0);
    assert_eq!(chip8.memory()[0], 0xF0);
    assert_eq!(chip8.regs().pc, 0x200);
}

#[test]
fn load_rom_fills_memory_to_the_end() {
    let mut chip8 = Chip8::new();
    assert_eq!(chip8.load_rom(vec![0xAB; 0xE00]), Ok(()));
    assert_eq!(chip8.memory()[0x200], 0xAB);
    assert_eq!(chip8.memory()[0xFFF], 0xAB);
    assert_eq!(chip8.memory().len(), 4096);
}

#[test]
fn load_rom_rejects_what_does_not_fit() {
    let mut chip8 = Chip8::new();
    let before = chip8.memory().clone();
    assert_eq!(
        chip8.load_rom(vec![0xAB; 0xE01]),
        Err(Fault { kind: FaultKind::RomTooLarge, instr: 0, pc: 0x200 })
    );
    assert_eq!(chip8.memory(), &before);
}

#[test]
fn step_reads_big_endian_words() {
    let mut chip8 = Chip8::new();
    chip8.load_rom(vec![0x12, 0x34]).unwrap();
    chip8.step().unwrap();
    assert_eq!(chip8.regs().pc, 0x234);
}

#[test]
fn step_outside_memory_is_fatal() {
    let mut chip8 = Chip8::new();
    chip8.exec_instr(0x1FFF).unwrap();
    assert_eq!(chip8.step(), fault(FaultKind::AddressOutOfBounds, 0, 0xFFF));
    assert_eq!(chip8.regs().pc, 0xFFF);

    let mut chip8 = Chip8::new();
    chip8.exec_instr(0x1FFE).unwrap();
    // memory is zero there, and 0x0000 is no instruction
    assert_eq!(chip8.step(), fault(FaultKind::UnknownInstruction, 0x0000, 0xFFE));
    assert_eq!(chip8.regs().pc, 0x1000);
}

#[test]
fn unknown_instructions_are_fatal() {
    for instr in [0x0000u16, 0x0123, 0x00E1, 0x5121, 0x8128, 0x812D, 0x812F, 0x9121, 0xE100, 0xE19F, 0xF100, 0xF1FF, 0xF156] {
        let mut chip8 = Chip8::new();
        chip8.set_v(1, 0x03);
        let regs_v = chip8.regs().v.clone();
        assert_eq!(chip8.exec_instr(instr), fault(FaultKind::UnknownInstruction, instr, 0x200));
        assert_eq!(chip8.regs().pc, 0x202);
        assert_eq!(chip8.regs().v, regs_v);
        assert_eq!(chip8.regs().sp, 0);
        assert_eq!(chip8.regs().i, 0);
    }
}

#[test]
fn key_register_out_of_range_is_fatal() {
    let mut chip8 = Chip8::new();
    chip8.set_v(1, 0x10);
    assert_eq!(chip8.exec_instr(0xE19E), fault(FaultKind::KeyOutOfRange, 0xE19E, 0x200));
    assert_eq!(chip8.exec_instr(0xE1A1), fault(FaultKind::KeyOutOfRange, 0xE1A1, 0x202));
    assert_eq!(chip8.regs().pc, 0x204);
}

#[test]
fn skip_on_key_state() {
    let mut chip8 = Chip8::new();
    for key in 0..16usize {
        chip8.set_key(key, false);
    }
    chip8.set_key(0xF, true);
    chip8.set_v(1, 0xF);
    chip8.set_v(2, 0x3);
    chip8.exec_instr(0xE19E).unwrap(); // pressed: skip
    assert_eq!(chip8.regs().pc, 0x204);
    chip8.exec_instr(0xE1A1).unwrap(); // pressed: no skip
    assert_eq!(chip8.regs().pc, 0x206);
    chip8.exec_instr(0xE29E).unwrap(); // released: no skip
    assert_eq!(chip8.regs().pc, 0x208);
    chip8.exec_instr(0xE2A1).unwrap(); // released: skip
    assert_eq!(chip8.regs().pc, 0x20C);
}

#[test]
fn every_key_reads_pressed_at_power_on() {
    for key in 0..16u8 {
        let mut chip8 = Chip8::new();
        chip8.set_v(0, key);
        chip8.exec_instr(0xE09E).unwrap();
        assert_eq!(chip8.regs().pc, 0x204);
    }
}

#[test]
fn wait_for_key_takes_the_lowest_pressed_key() {
    let mut chip8 = Chip8::new();
    for key in 0..16usize {
        chip8.set_key(key, false);
    }
    chip8.set_key(0xB, true);
    chip8.set_key(0x7, true);
    chip8.set_v(3, 0xEE);
    assert_eq!(chip8.exec_instr(0xF30A), Ok(Progress::Completed));
    assert_eq!(chip8.regs().v[3], 0x7);
    assert_eq!(chip8.regs().pc, 0x202);
}

#[test]
fn wait_for_key_blocks_until_a_key_is_pressed() {
    let mut chip8 = Chip8::new();
    chip8.load_rom(vec![0xF3, 0x0A, 0x64, 0x55]).unwrap();
    for key in 0..16usize {
        chip8.set_key(key, false);
    }
    chip8.set_v(3, 0xEE);
    for _ in 0..5 {
        assert_eq!(chip8.step(), Ok(Progress::AwaitingKey));
        assert_eq!(chip8.regs().pc, 0x200);
        assert_eq!(chip8.regs().v[3], 0xEE);
        assert_eq!(chip8.regs().v[4], 0x00);
    }
    chip8.set_key(0xC, true);
    assert_eq!(chip8.step(), Ok(Progress::Completed));
    assert_eq!(chip8.regs().pc, 0x202);
    assert_eq!(chip8.regs().v[3], 0xC);
    assert_eq!(chip8.step(), Ok(Progress::Completed));
    assert_eq!(chip8.regs().v[4], 0x55);
}

#[test]
fn digit_out_of_range_is_fatal() {
    let mut chip8 = Chip8::new();
    chip8.set_i(0x123);
    chip8.set_v(1, 0x10);
    assert_eq!(chip8.exec_instr(0xF129), fault(FaultKind::DigitOutOfRange, 0xF129, 0x200));
    assert_eq!(chip8.regs().i, 0x123);
}

#[test]
fn glyph_lookup_points_into_the_font() {
    let mut chip8 = Chip8::new();
    chip8.set_v(1, 0x0);
    chip8.exec_instr(0xF129).unwrap();
    assert_eq!(chip8.regs().i, 0);
    chip8.set_v(1, 0xA);
    chip8.exec_instr(0xF129).unwrap();
    assert_eq!(chip8.regs().i, 50);
    chip8.set_v(1, 0xF);
    chip8.exec_instr(0xF129).unwrap();
    assert_eq!(chip8.regs().i, 75);
}

#[test]
fn add_to_index_wraps_at_sixteen_bits() {
    let mut chip8 = Chip8::new();
    chip8.set_i(0x0FF0);
    chip8.set_v(1, 0x20);
    chip8.exec_instr(0xF11E).unwrap();
    assert_eq!(chip8.regs().i, 0x1010);
    chip8.set_i(0xFFFF);
    chip8.set_v(1, 0x02);
    chip8.exec_instr(0xF11E).unwrap();
    assert_eq!(chip8.regs().i, 0x0001);
}

#[test]
fn timers_are_read_and_written() {
    let mut chip8 = Chip8::new();
    chip8.set_v(1, 0x42);
    chip8.exec_instr(0xF115).unwrap();
    assert_eq!(chip8.regs().dt, 0x42);
    assert_eq!(chip8.regs().st, 0);
    chip8.set_v(2, 0x17);
    chip8.exec_instr(0xF218).unwrap();
    assert_eq!(chip8.regs().st, 0x17);
    chip8.exec_instr(0xF307).unwrap();
    assert_eq!(chip8.regs().v[3], 0x42);
}

#[test]
fn end_frame_counts_timers_down_to_zero() {
    let mut chip8 = Chip8::new();
    assert!(!chip8.end_frame());
    assert_eq!(chip8.regs().dt, 0);
    assert_eq!(chip8.regs().st, 0);

    chip8.set_v(1, 3);
    chip8.exec_instr(0xF115).unwrap();
    chip8.set_v(1, 2);
    chip8.exec_instr(0xF118).unwrap();
    assert!(chip8.end_frame());
    assert_eq!((chip8.regs().dt, chip8.regs().st), (2, 1));
    assert!(chip8.end_frame());
    assert_eq!((chip8.regs().dt, chip8.regs().st), (1, 0));
    assert!(!chip8.end_frame());
    assert_eq!((chip8.regs().dt, chip8.regs().st), (0, 0));
    assert!(!chip8.end_frame());
    assert_eq!((chip8.regs().dt, chip8.regs().st), (0, 0));
}

#[test]
fn end_frame_touches_only_the_timers() {
    let mut chip8 = Chip8::new();
    chip8.set_v(1, 9);
    chip8.exec_instr(0xF115).unwrap();
    let pc: u16 = chip8.regs().pc;
    let v = chip8.regs().v.clone();
    chip8.end_frame();
    assert_eq!(chip8.regs().pc, pc);
    assert_eq!(chip8.regs().v, v);
}

#[test]
fn bulk_store_and_load() {
    let mut chip8 = Chip8::new();
    for x in 0..16usize {
        chip8.set_v(x, 0xA0 + x as u8);
    }
    chip8.set_i(0x400);
    chip8.exec_instr(0xF355).unwrap();
    assert_eq!(&chip8.memory()[0x400..0x405], &[0xA0, 0xA1, 0xA2, 0xA3, 0x00]);
    assert_eq!(chip8.regs().i, 0x400);

    for x in 0..16usize {
        chip8.set_v(x, 0);
    }
    chip8.exec_instr(0xF265).unwrap();
    assert_eq!(&chip8.regs().v[0..4], &[0xA0, 0xA1, 0xA2, 0x00]);
    assert_eq!(chip8.regs().i, 0x400);
}

#[test]
fn bulk_store_and_load_advance_index_in_legacy_mode() {
    let mut chip8 = Chip8::with_legacy_mode(true);
    chip8.set_v(0, 1);
    chip8.set_v(1, 2);
    chip8.set_i(0x400);
    chip8.exec_instr(0xF155).unwrap();
    assert_eq!(&chip8.memory()[0x400..0x403], &[1, 2, 0]);
    assert_eq!(chip8.regs().i, 0x402);

    chip8.set_i(0x400);
    chip8.exec_instr(0xF065).unwrap();
    assert_eq!(chip8.regs().i, 0x401);
}

#[test]
fn bulk_store_of_all_registers_at_the_end_of_memory() {
    let mut chip8 = Chip8::with_legacy_mode(true);
    for x in 0..16usize {
        chip8.set_v(x, x as u8 + 1);
    }
    chip8.set_i(0xFF0);
    assert_eq!(chip8.exec_instr(0xFF55), Ok(Progress::Completed));
    assert_eq!(chip8.memory()[0xFF0], 1);
    assert_eq!(chip8.memory()[0xFFF], 16);
    assert_eq!(chip8.regs().i, 0x1000);

    // one byte further and the last register would fall off the end
    let mut chip8 = Chip8::new();
    chip8.set_i(0xFF1);
    let memory = chip8.memory().clone();
    assert_eq!(chip8.exec_instr(0xFF55), fault(FaultKind::AddressOutOfBounds, 0xFF55, 0x200));
    assert_eq!(chip8.memory(), &memory);
    assert_eq!(chip8.exec_instr(0xFF65), fault(FaultKind::AddressOutOfBounds, 0xFF65, 0x202));
    assert_eq!(chip8.regs().v, vec![0u8; 16]);
}

#[test]
fn random_byte_is_masked() {
    let mut chip8 = Chip8::new();
    assert_eq!(chip8.exec_instr_with(0xC1FF, 0xAB), Ok(Progress::Completed));
    assert_eq!(chip8.regs().v[1], 0xAB);
    chip8.exec_instr_with(0xC10F, 0xAB).unwrap();
    assert_eq!(chip8.regs().v[1], 0x0B);
    chip8.exec_instr_with(0xC2F0, 0xAB).unwrap();
    assert_eq!(chip8.regs().v[2], 0xA0);

    for _ in 0..64 {
        chip8.set_v(3, 0xFF);
        chip8.exec_instr(0xC300).unwrap();
        assert_eq!(chip8.regs().v[3], 0);
        chip8.exec_instr(0xC43C).unwrap();
        assert_eq!(chip8.regs().v[4] & !0x3C, 0);
    }
}

#[test]
fn random_byte_is_ignored_elsewhere() {
    let mut one = Chip8::new();
    let mut other = Chip8::new();
    one.exec_instr_with(0x6455, 0x00).unwrap();
    other.exec_instr_with(0x6455, 0xFF).unwrap();
    assert_eq!(one.regs().v, other.regs().v);
    assert_eq!(one.regs().pc, other.regs().pc);
}

#[test]
fn draw_instruction_uses_register_values_as_coordinates() {
    let mut chip8 = Chip8::new();
    chip8.set_v(1, 10);
    chip8.set_v(2, 20);
    chip8.set_v(3, 0xA);
    chip8.exec_instr(0xF329).unwrap(); // I = glyph A
    assert_eq!(chip8.exec_instr(0xD125), Ok(Progress::Completed));
    assert_eq!(chip8.regs().v[0xF], 0);
    // glyph A is F0 90 F0 90 90
    let expected: [[u8; 4]; 5] = [[1, 1, 1, 1], [1, 0, 0, 1], [1, 1, 1, 1], [1, 0, 0, 1], [1, 0, 0, 1]];
    for r in 0..5usize {
        assert_eq!(&chip8.pixels()[20 + r][10..14], &expected[r]);
        assert_eq!(&chip8.pixels()[20 + r][14..18], &[0, 0, 0, 0]);
    }
    let lit: usize = chip8.pixels().iter().flatten().filter(|cell| **cell == 1).count();
    assert_eq!(lit, 14);

    // drawn again, every pixel is erased and the flag says so
    chip8.exec_instr(0xD125).unwrap();
    assert_eq!(chip8.regs().v[0xF], 1);
    assert!(chip8.pixels().iter().flatten().all(|cell| *cell == 0));
}

#[test]
fn draw_instruction_wraps() {
    let mut chip8 = Chip8::new();
    chip8.load_rom(vec![0xFF, 0xFF]).unwrap();
    chip8.set_i(0x200);
    chip8.set_v(0, 63);
    chip8.set_v(1, 31);
    chip8.exec_instr(0xD012).unwrap();
    let pixels = chip8.pixels();
    assert_eq!(pixels[31][63], 1);
    assert_eq!(&pixels[31][0..8], &[1, 1, 1, 1, 1, 1, 1, 0]);
    assert_eq!(pixels[0][63], 1);
    assert_eq!(&pixels[0][0..8], &[1, 1, 1, 1, 1, 1, 1, 0]);
    assert_eq!(pixels[1][0], 0);
    assert_eq!(pixels[30][0], 0);
}

#[test]
fn draw_of_no_rows_is_fatal() {
    let mut chip8 = Chip8::new();
    chip8.set_v(0xF, 7);
    assert_eq!(chip8.exec_instr(0xD120), fault(FaultKind::BadSpriteHeight, 0xD120, 0x200));
    assert_eq!(chip8.regs().v[0xF], 7);
    assert_eq!(chip8.regs().pc, 0x202);
}

#[test]
fn draw_beyond_memory_is_fatal() {
    let mut chip8 = Chip8::new();
    chip8.set_i(0xFFF);
    assert_eq!(chip8.exec_instr(0xD121), Ok(Progress::Completed));
    assert_eq!(chip8.exec_instr(0xD122), fault(FaultKind::AddressOutOfBounds, 0xD122, 0x202));
    chip8.set_i(0xFF1);
    assert_eq!(chip8.exec_instr(0xD12F), Ok(Progress::Completed));
    chip8.set_i(0xFF2);
    assert_eq!(chip8.exec_instr(0xD12F), fault(FaultKind::AddressOutOfBounds, 0xD12F, 0x206));
    assert!(chip8.pixels().iter().flatten().all(|cell| *cell == 0));
}

#[test]
fn clear_screen_instruction() {
    let mut chip8 = Chip8::new();
    chip8.exec_instr(0xD125).unwrap();
    assert!(chip8.pixels().iter().flatten().any(|cell| *cell == 1));
    assert_eq!(chip8.exec_instr(0x00E0), Ok(Progress::Completed));
    assert!(chip8.pixels().iter().flatten().all(|cell| *cell == 0));
    assert_eq!(chip8.regs().pc, 0x204);
}

#[test]
fn clock_starts_and_stops() {
    let mut chip8 = Chip8::new();
    assert!(!chip8.is_running());
    chip8.start();
    assert!(chip8.is_running());
    // no instruction stops the clock
    chip8.exec_instr(0x1200).unwrap();
    let _ = chip8.exec_instr(0x0000);
    chip8.end_frame();
    assert!(chip8.is_running());
    chip8.stop();
    assert!(!chip8.is_running());
    chip8.stop();
    assert!(!chip8.is_running());
}

#[test]
fn frame_lasts_a_sixtieth_of_a_second() {
    assert!(Chip8::frame_open(0));
    assert!(Chip8::frame_open(15));
    assert!(!Chip8::frame_open(16));
    assert!(!Chip8::frame_open(u64::MAX));
}

#[test]
fn set_key_changes_one_key() {
    let mut chip8 = Chip8::new();
    chip8.set_key(5, false);
    chip8.set_v(0, 5);
    chip8.set_v(1, 4);
    chip8.set_v(2, 6);
    chip8.exec_instr(0xE0A1).unwrap(); // 5 released: skip
    assert_eq!(chip8.regs().pc, 0x204);
    chip8.exec_instr(0xE19E).unwrap(); // 4 pressed: skip
    assert_eq!(chip8.regs().pc, 0x208);
    chip8.exec_instr(0xE29E).unwrap(); // 6 pressed: skip
    assert_eq!(chip8.regs().pc, 0x20C);
}

#[test]
fn keyboard_shows_what_was_reported() {
    let mut chip8 = Chip8::new();
    assert_eq!(chip8.keyboard(), &vec![true; 16]);
    chip8.set_key(0, false);
    chip8.set_key(15, false);
    let mut expected = vec![true; 16];
    expected[0] = false;
    expected[15] = false;
    assert_eq!(chip8.keyboard(), &expected);
    chip8.set_key(0, true);
    expected[0] = true;
    assert_eq!(chip8.keyboard(), &expected);
}

#[test]
fn registers_at_power_on() {
    let regs = Registers::new();
    assert_eq!(regs.v, vec![0u8; 16]);
    assert_eq!(regs.stack, vec![0u16; 16]);
    assert_eq!(regs.i, 0);
    assert_eq!(regs.pc, 0x200);
    assert_eq!(regs.sp, 0);
    assert_eq!(regs.dt, 0);
    assert_eq!(regs.st, 0);
}

#[test]
fn clock_constants() {
    assert_eq!(FRAME_MILLIS, 16);
    assert_eq!(INSTR_MILLIS, 2);
}

#[test]
fn legacy_mode_changes_nothing_at_power_on() {
    let plain = Chip8::new();
    let legacy = Chip8::with_legacy_mode(true);
    assert_eq!(plain.memory(), legacy.memory());
    assert_eq!(plain.regs().v, legacy.regs().v);
    assert_eq!(plain.regs().pc, legacy.regs().pc);
    assert_eq!(plain.pixels(), legacy.pixels());
    let same = Chip8::with_legacy_mode(false);
    let mut one = plain;
    let mut other = same;
    one.set_v(2, 0x81);
    other.set_v(2, 0x81);
    one.exec_instr(0x8126).unwrap();
    other.exec_instr(0x8126).unwrap();
    assert_eq!(one.regs().v, other.regs().v);
}

#[test]
fn draw_instruction_matches_a_direct_draw() {
    let mut chip8 = Chip8::new();
    chip8.load_rom(vec![0x3C, 0x42, 0x81, 0x42, 0x3C]).unwrap();
    chip8.set_i(0x200);
    chip8.set_v(4, 60);
    chip8.set_v(5, 30);
    chip8.exec_instr(0xD455).unwrap();

    let mut display = chip8_core::chip8::display::Display::new();
    let collision = display.draw_sprite(&Sprite::new(vec![0x3C, 0x42, 0x81, 0x42, 0x3C]), 60, 30);
    assert_eq!(chip8.pixels(), display.pixels());
    assert_eq!(chip8.regs().v[0xF], collision as u8);
}

#[test]
fn store_digits_then_load_them_back() {
    let mut chip8 = Chip8::new();
    chip8.set_v(9, 203);
    chip8.set_i(0x500);
    chip8.exec_instr(0xF933).unwrap();
    chip8.exec_instr(0xF265).unwrap();
    assert_eq!(&chip8.regs().v[0..3], &[2, 0, 3]);
}

#[test]
fn faults_leave_all_but_the_program_counter() {
    for (instr, v1) in [(0x00EEu16, 0u8), (0xE19E, 0x20), (0xF129, 0x20), (0xD120, 0), (0x8129, 0)] {
        let mut chip8 = Chip8::new();
        chip8.set_v(1, v1);
        chip8.set_i(0x321);
        let memory = chip8.memory().clone();
        let v = chip8.regs().v.clone();
        let stack = chip8.regs().stack.clone();
        let pixels = chip8.pixels().clone();
        assert!(chip8.exec_instr(instr).is_err());
        assert_eq!(chip8.regs().pc, 0x202);
        assert_eq!(chip8.regs().sp, 0);
        assert_eq!(chip8.regs().i, 0x321);
        assert_eq!(chip8.regs().v, v);
        assert_eq!(chip8.regs().stack, stack);
        assert_eq!(chip8.memory(), &memory);
        assert_eq!(chip8.pixels(), &pixels);
    }
}
