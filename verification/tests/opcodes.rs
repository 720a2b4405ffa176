use chip8::error::VmError;
use chip8::vm::VM;

fn fresh() -> VM {
    let mut vm = VM::new();
    vm.init_font_set();
    vm
}

#[test]
fn load_immediate_all_registers_all_values() {
    for r in 0..16u8 {
        for kk in 0..=255u8 {
            let mut vm = fresh();
            let pc0 = vm.pc;
            vm._6xkk(r, kk);
            assert_eq!(vm.v[r as usize], kk);
            assert_eq!(vm.pc, pc0 + 2);
        }
    }
}

#[test]
fn add_with_carry_overflow() {
    let mut vm = fresh();
    vm._6xkk(0, 200);
    vm._6xkk(1, 100);
    vm._8xy4(0, 1);
    assert_eq!(vm.v[0], 44);
    assert_eq!(vm.v[0xF], 1);
}

#[test]
fn add_without_carry() {
    let mut vm = fresh();
    vm._6xkk(0, 20);
    vm._6xkk(1, 30);
    vm._8xy4(0, 1);
    assert_eq!(vm.v[0], 50);
    assert_eq!(vm.v[0xF], 0);
}

#[test]
fn sub_without_borrow() {
    let mut vm = fresh();
    vm._6xkk(0, 10);
    vm._6xkk(1, 3);
    vm._8xy5(0, 1);
    assert_eq!(vm.v[0], 7);
    assert_eq!(vm.v[0xF], 1);
}

#[test]
fn sub_with_borrow() {
    let mut vm = fresh();
    vm._6xkk(0, 3);
    vm._6xkk(1, 10);
    vm._8xy5(0, 1);
    assert_eq!(vm.v[0], 249);
    assert_eq!(vm.v[0xF], 0);
}

#[test]
fn sub_from_other_direction() {
    let mut vm = fresh();
    vm._6xkk(0, 3);
    vm._6xkk(1, 10);
    vm._8xy7(0, 1);
    assert_eq!(vm.v[0], 7);
    assert_eq!(vm.v[0xF], 1);
    let mut vm = fresh();
    vm._6xkk(0, 10);
    vm._6xkk(1, 3);
    vm._8xy7(0, 1);
    assert_eq!(vm.v[0], 249);
    assert_eq!(vm.v[0xF], 0);
}

#[test]
fn add_immediate_wraps_without_flag() {
    let mut vm = fresh();
    vm._6xkk(0, 250);
    vm._6xkk(0xF, 9);
    vm._7xkk(0, 10);
    assert_eq!(vm.v[0], 4);
    assert_eq!(vm.v[0xF], 9);
}

#[test]
fn bitwise_ops() {
    let mut vm = fresh();
    vm._6xkk(0, 0b1100);
    vm._6xkk(1, 0b1010);
    vm._8xy1(0, 1);
    assert_eq!(vm.v[0], 0b1110);
    vm._6xkk(0, 0b1100);
    vm._8xy2(0, 1);
    assert_eq!(vm.v[0], 0b1000);
    vm._6xkk(0, 0b1100);
    vm._8xy3(0, 1);
    assert_eq!(vm.v[0], 0b0110);
    vm._8xy0(0, 1);
    assert_eq!(vm.v[0], 0b1010);
}

#[test]
fn shift_right_takes_low_bit_of_source() {
    let mut vm = fresh();
    vm._6xkk(1, 5);
    vm._8xy6(0, 1);
    assert_eq!(vm.v[0], 2);
    assert_eq!(vm.v[0xF], 1);
    vm._6xkk(1, 4);
    vm._8xy6(0, 1);
    assert_eq!(vm.v[0], 2);
    assert_eq!(vm.v[0xF], 0);
}

#[test]
fn shift_left_takes_high_bit_of_source() {
    let mut vm = fresh();
    vm._6xkk(1, 0x81);
    vm._8xye(0, 1);
    assert_eq!(vm.v[0], 0x02);
    assert_eq!(vm.v[0xF], 0x80);
    vm._6xkk(1, 0x41);
    vm._8xye(0, 1);
    assert_eq!(vm.v[0], 0x82);
    assert_eq!(vm.v[0xF], 0);
}

#[test]
fn skip_instructions() {
    let mut vm = fresh();
    let pc0 = vm.pc;
    vm._6xkk(0, 7);
    vm._6xkk(1, 7);
    vm._6xkk(2, 9);
    let pc1 = vm.pc;
    assert_eq!(pc1, pc0 + 6);
    vm._3xkk(0, 7);
    assert_eq!(vm.pc, pc1 + 4);
    vm._3xkk(0, 8);
    assert_eq!(vm.pc, pc1 + 6);
    vm._4xkk(0, 8);
    assert_eq!(vm.pc, pc1 + 10);
    vm._4xkk(0, 7);
    assert_eq!(vm.pc, pc1 + 12);
    vm._5xy0(0, 1);
    assert_eq!(vm.pc, pc1 + 16);
    vm._5xy0(0, 2);
    assert_eq!(vm.pc, pc1 + 18);
    vm._9xy0(0, 2);
    assert_eq!(vm.pc, pc1 + 22);
    vm._9xy0(0, 1);
    assert_eq!(vm.pc, pc1 + 24);
}

#[test]
fn skip_compares_register_values_not_indices() {
    let mut vm = fresh();
    vm._6xkk(3, 5);
    vm._6xkk(4, 5);
    let pc0 = vm.pc;
    vm._5xy0(3, 4);
    assert_eq!(vm.pc, pc0 + 4);
}

#[test]
fn jumps_and_index() {
    let mut vm = fresh();
    vm._1nnn(0x456);
    assert_eq!(vm.pc, 0x456);
    vm._annn(0x321);
    assert_eq!(vm.i, 0x321);
    assert_eq!(vm.pc, 0x458);
    vm._6xkk(0, 4);
    vm._bnnn(0x300);
    assert_eq!(vm.pc, 0x300 + 4 + 2);
}

#[test]
fn bcd_conversion() {
    let mut vm = fresh();
    vm._6xkk(2, 255);
    vm._annn(0x300);
    assert_eq!(vm._fx33(2), Ok(()));
    assert_eq!(&vm.memory[0x300..0x303], &[2, 5, 5]);
    vm._6xkk(2, 7);
    vm._annn(0x310);
    assert_eq!(vm._fx33(2), Ok(()));
    assert_eq!(&vm.memory[0x310..0x313], &[0, 0, 7]);
}

#[test]
fn store_load_round_trip_excludes_boundary_register() {
    let mut vm = fresh();
    vm._6xkk(0, 11);
    vm._6xkk(1, 22);
    vm._6xkk(2, 33);
    vm._6xkk(3, 99);
    vm._annn(0x300);
    assert_eq!(vm.memory[0x303], 0);
    assert_eq!(vm._fx55(3), Ok(()));
    assert_eq!(&vm.memory[0x300..0x303], &[11, 22, 33]);
    assert_eq!(vm.memory[0x303], 0, "register 3 itself is outside the stored span");
    vm._6xkk(0, 1);
    vm._6xkk(1, 2);
    vm._6xkk(2, 3);
    assert_eq!(vm._fx65(3), Ok(()));
    assert_eq!(&vm.v[0..4], &[11, 22, 33, 99]);
}

#[test]
fn glyph_address_and_index_add() {
    let mut vm = fresh();
    vm._6xkk(0, 0xA);
    vm._fx29(0);
    assert_eq!(vm.i, 50);
    vm._6xkk(1, 7);
    vm._fx1e(1);
    assert_eq!(vm.i, 57);
}

#[test]
fn index_add_wraps() {
    let mut vm = fresh();
    vm.i = 0xFFFF;
    vm._6xkk(0, 3);
    vm._fx1e(0);
    assert_eq!(vm.i, 2);
}

#[test]
fn timer_transfers() {
    let mut vm = fresh();
    vm._6xkk(0, 42);
    vm._fx15(0);
    assert_eq!(vm.delay, 42);
    vm._6xkk(1, 17);
    vm._fx18(1);
    assert_eq!(vm.sound, 17);
    vm._fx07(2);
    assert_eq!(vm.v[2], 42);
}

#[test]
fn random_is_masked() {
    for _ in 0..32 {
        let mut vm = fresh();
        vm._cxkk(0, 0x0F);
        assert!(vm.v[0] < 16);
        let mut vm = fresh();
        vm._6xkk(0, 123);
        vm._cxkk(0, 0);
        assert_eq!(vm.v[0], 0);
    }
}

#[test]
fn key_skips() {
    let mut vm = fresh();
    vm._6xkk(0, 5);
    vm.keypad[5] = true;
    let pc0 = vm.pc;
    assert_eq!(vm._ex9e(0), Ok(()));
    assert_eq!(vm.pc, pc0 + 4);
    assert!(vm.keypad[5], "skip-if-pressed leaves the latch alone");
    assert_eq!(vm._exa1(0), Ok(()));
    assert_eq!(vm.pc, pc0 + 6);
    assert!(!vm.keypad[5], "skip-if-not-pressed consumes a pressed key");
    assert_eq!(vm._exa1(0), Ok(()));
    assert_eq!(vm.pc, pc0 + 10);
    assert_eq!(vm._ex9e(0), Ok(()));
    assert_eq!(vm.pc, pc0 + 12);
}

#[test]
fn key_skip_rejects_out_of_range_key() {
    let mut vm = fresh();
    vm._6xkk(0, 16);
    let pc0 = vm.pc;
    assert_eq!(vm._ex9e(0), Err(VmError::KeyOutOfRange(16)));
    assert_eq!(vm._exa1(0), Err(VmError::KeyOutOfRange(16)));
    assert_eq!(vm.pc, pc0);
}

#[test]
fn wait_for_key_blocks_and_resumes() {
    let mut vm = fresh();
    let pc0 = vm.pc;
    vm._fx0a(0);
    assert_eq!(vm.pc, pc0, "no key pressed: the program counter stalls");
    vm.keypad[9] = true;
    vm._fx0a(0);
    assert_eq!(vm.pc, pc0 + 2);
    assert_eq!(vm.v[0], 1);
}

#[test]
fn stack_calls_and_returns() {
    let mut vm = fresh();
    let pc0 = vm.pc;
    assert_eq!(vm._2nnn(0x400), Ok(()));
    assert_eq!(vm.pc, 0x400);
    assert_eq!(vm.sp, 1);
    assert_eq!(vm._0x00ee(), Ok(()));
    assert_eq!(vm.pc, pc0 + 2);
    assert_eq!(vm.sp, 0);
}

#[test]
fn stack_underflow_and_overflow_are_errors() {
    let mut vm = fresh();
    assert_eq!(vm._0x00ee(), Err(VmError::StackUnderflow));
    for _ in 0..15 {
        assert_eq!(vm._2nnn(0x400), Ok(()));
    }
    assert_eq!(vm.sp, 15);
    assert_eq!(vm._2nnn(0x400), Err(VmError::StackOverflow));
    assert_eq!(vm.sp, 15);
}

#[test]
fn memory_bounds_errors() {
    let mut vm = fresh();
    vm.i = 4094;
    assert_eq!(vm._fx33(0), Err(VmError::MemoryOutOfBounds(4097)));
    assert_eq!(vm._fx55(2), Ok(()), "a store ending exactly at the memory edge fits");
    assert_eq!(vm._fx55(3), Err(VmError::MemoryOutOfBounds(4097)));
    assert_eq!(vm._fx65(3), Err(VmError::MemoryOutOfBounds(4097)));
    assert_eq!(vm._dxyn(0, 0, 3), Err(VmError::MemoryOutOfBounds(4097)));
    assert_eq!(vm._fx55(0), Ok(()), "an empty store touches nothing");
    assert_eq!(vm._fx65(0), Ok(()), "an empty load touches nothing");
}
