use chip8::error::VmError;
use chip8::vm::VM;

fn boot(rom: &[u8]) -> VM {
    let mut vm = VM::new();
    vm.init_font_set();
    let image: Vec<u8> = rom.to_vec();
    vm.load_rom(&image).expect("rom fits");
    vm
}

#[test]
fn font_is_installed_once_and_where_expected() {
    let mut vm = VM::new();
    vm.memory[80] = 0xAB;
    vm.init_font_set();
    assert_eq!(vm.memory[0], 0xF0);
    assert_eq!(vm.memory[5], 0x20, "glyph 1 starts at byte 5");
    assert_eq!(vm.memory[79], 0x80);
    assert_eq!(vm.memory[80], 0xAB, "bytes past the font are untouched");
}

#[test]
fn new_machine_starts_at_program_region() {
    let vm = VM::new();
    assert_eq!(vm.pc, 0x200);
    assert_eq!(vm.sp, 0);
    assert!(vm.v.iter().all(|&b| b == 0));
    assert!(vm.display.iter().all(|&c| c == 0));
    assert!(vm.keypad.iter().all(|&k| !k));
}

#[test]
fn rom_is_copied_verbatim_at_the_program_start() {
    let vm = boot(&[1, 2, 3, 4]);
    assert_eq!(&vm.memory[0x200..0x204], &[1, 2, 3, 4]);
    assert_eq!(vm.memory[0x204], 0);
}

#[test]
fn rom_of_maximal_size_fits() {
    let mut vm = VM::new();
    let image = vec![7u8; 3584];
    assert_eq!(vm.load_rom(&image), Ok(()));
    assert_eq!(vm.memory[4095], 7);
}

#[test]
fn oversized_rom_is_rejected_untouched() {
    let mut vm = VM::new();
    let image = vec![7u8; 3585];
    assert_eq!(vm.load_rom(&image), Err(VmError::RomTooLarge(3585)));
    assert!(vm.memory.iter().all(|&b| b == 0));
}

#[test]
fn cycle_executes_load_immediate() {
    let mut vm = boot(&[0x60, 0x2A]);
    assert_eq!(vm.emulate_cycle(), Ok(()));
    assert_eq!(vm.v[0], 42);
    assert_eq!(vm.pc, 0x202);
    assert_eq!(vm.op, 0x602A);
}

#[test]
fn cycle_rejects_unknown_opcodes() {
    let mut vm = boot(&[0xF0, 0xFF]);
    assert_eq!(vm.emulate_cycle(), Err(VmError::UnknownOpcode(0xF0FF)));
    let mut vm = boot(&[0x00, 0x00]);
    assert_eq!(vm.emulate_cycle(), Err(VmError::UnknownOpcode(0x0000)));
    let mut vm = boot(&[0x80, 0x19]);
    assert_eq!(vm.emulate_cycle(), Err(VmError::UnknownOpcode(0x8019)));
    let mut vm = boot(&[0xE0, 0x00]);
    assert_eq!(vm.emulate_cycle(), Err(VmError::UnknownOpcode(0xE000)));
}

#[test]
fn cycle_rejects_out_of_bounds_program_counter() {
    let mut vm = boot(&[]);
    vm.pc = 0x1FF;
    assert_eq!(vm.emulate_cycle(), Err(VmError::PcOutOfBounds(0x1FF)));
    vm.pc = 4095;
    assert_eq!(vm.emulate_cycle(), Err(VmError::PcOutOfBounds(4095)));
    vm.pc = 4094;
    assert_eq!(vm.emulate_cycle(), Err(VmError::UnknownOpcode(0)), "the last full word is fetchable");
}

#[test]
fn clear_screen_zeroes_framebuffer_and_keeps_registers() {
    let mut vm = boot(&[0x00, 0xE0]);
    for k in (0..2048).step_by(3) {
        vm.display[k] = 1;
    }
    for r in 0..16 {
        vm.v[r] = r as u8 + 1;
    }
    assert_eq!(vm.emulate_cycle(), Ok(()));
    assert!(vm.display.iter().all(|&c| c == 0));
    for r in 0..16 {
        assert_eq!(vm.v[r], r as u8 + 1);
    }
    assert_eq!(vm.pc, 0x202);
}

#[test]
fn draw_lights_pixels_and_reports_no_collision() {
    let mut vm = boot(&[0xD0, 0x11]);
    vm.memory[0x300] = 0xFF;
    vm.i = 0x300;
    assert_eq!(vm.emulate_cycle(), Ok(()));
    for col in 0..8 {
        assert_eq!(vm.display[col], 1);
    }
    assert_eq!(vm.display[8], 0);
    assert_eq!(vm.v[0xF], 0);
    assert!(vm.drawflag);
}

#[test]
fn drawing_twice_self_cancels_and_collides() {
    let mut vm = boot(&[0xD0, 0x11, 0xD0, 0x11]);
    vm.memory[0x300] = 0xFF;
    vm.i = 0x300;
    assert_eq!(vm.emulate_cycle(), Ok(()));
    assert_eq!(vm.v[0xF], 0);
    assert_eq!(vm.emulate_cycle(), Ok(()));
    for col in 0..8 {
        assert_eq!(vm.display[col], 0, "the second draw XORs the row away");
    }
    assert_eq!(vm.v[0xF], 1, "turning a lit cell off is a collision");
}

#[test]
fn draw_wraps_around_both_edges() {
    let mut vm = boot(&[0xD0, 0x12]);
    vm.memory[0x300] = 0xFF;
    vm.memory[0x301] = 0xFF;
    vm.i = 0x300;
    vm.v[0] = 63;
    vm.v[1] = 31;
    assert_eq!(vm.emulate_cycle(), Ok(()));
    assert_eq!(vm.display[31 * 64 + 63], 1);
    for col in 0..7 {
        assert_eq!(vm.display[31 * 64 + col], 1, "columns wrap into x = 0..6");
    }
    assert_eq!(vm.display[31 * 64 + 7], 0);
    assert_eq!(vm.display[63], 1, "the second sprite row wraps into y = 0");
    for col in 0..7 {
        assert_eq!(vm.display[col], 1);
    }
    assert_eq!(vm.display[7], 0);
    assert_eq!(vm.v[0xF], 0);
}

#[test]
fn call_and_return_restore_flow() {
    let mut vm = boot(&[0x23, 0x00]);
    let mut image = vec![0u8; 0x102];
    image[0x100] = 0x00;
    image[0x101] = 0xEE;
    vm.load_rom(&image).expect("rom fits");
    vm.memory[0x200] = 0x23;
    vm.memory[0x201] = 0x00;
    let sp0 = vm.sp;
    assert_eq!(vm.emulate_cycle(), Ok(()));
    assert_eq!(vm.pc, 0x300);
    assert_eq!(vm.sp, sp0 + 1);
    assert_eq!(vm.emulate_cycle(), Ok(()));
    assert_eq!(vm.pc, 0x202, "return lands just past the call");
    assert_eq!(vm.sp, sp0);
}

#[test]
fn cycle_surfaces_stack_errors() {
    let mut vm = boot(&[0x00, 0xEE]);
    assert_eq!(vm.emulate_cycle(), Err(VmError::StackUnderflow));
    let mut vm = boot(&[0x23, 0x00]);
    vm.sp = 15;
    assert_eq!(vm.emulate_cycle(), Err(VmError::StackOverflow));
    assert_eq!(vm.pc, 0x200, "nothing moves when the call fails");
}

#[test]
fn random_through_the_cycle_is_masked() {
    let mut vm = boot(&[0xC0, 0x0F]);
    vm.v[0] = 0xFF;
    assert_eq!(vm.emulate_cycle(), Ok(()));
    assert!(vm.v[0] < 16);
    assert_eq!(vm.pc, 0x202);
}

#[test]
fn timers_tick_down_to_zero_floor() {
    let mut vm = boot(&[]);
    vm.delay = 2;
    vm.sound = 1;
    vm.tick_timers();
    assert_eq!((vm.delay, vm.sound), (1, 0));
    vm.tick_timers();
    assert_eq!((vm.delay, vm.sound), (0, 0));
    vm.tick_timers();
    assert_eq!((vm.delay, vm.sound), (0, 0), "timers floor at zero");
}

#[test]
fn timer_rate_is_independent_of_instruction_rate() {
    // A driver simulated over a 16 ms wall-clock window: instructions run
    // every 16 us (62500 Hz), the timer ticks every 16000 us (close to
    // 60 Hz). The delay timer must fall by exactly 1, not by one per cycle.
    let mut vm = boot(&[0x12, 0x00]);
    vm.delay = 5;
    let mut last_tick_us: u64 = 0;
    let mut cycles = 0;
    for now_us in (16..=16000u64).step_by(16) {
        assert_eq!(vm.emulate_cycle(), Ok(()));
        cycles += 1;
        if now_us - last_tick_us >= 16000 {
            vm.tick_timers();
            last_tick_us = now_us;
        }
    }
    assert_eq!(cycles, 1000);
    assert_eq!(vm.delay, 4, "1000 cycles in one timer period cost exactly one tick");
}

#[test]
fn store_then_load_restores_registers_after_mutation() {
    let mut vm = boot(&[]);
    vm.v[0] = 11;
    vm.v[1] = 22;
    vm.v[2] = 33;
    vm.v[3] = 44;
    vm.i = 0x320;
    assert_eq!(vm._fx55(3), Ok(()));
    vm.v[0] = 91;
    vm.v[1] = 92;
    vm.v[2] = 93;
    assert_eq!(vm._fx65(3), Ok(()));
    assert_eq!(&vm.v[0..4], &[11, 22, 33, 44]);
}

#[test]
fn rgb_frame_expands_cells_to_pixels() {
    let mut vm = boot(&[]);
    vm.display[0] = 1;
    vm.display[64 + 2] = 1;
    let frame = vm.rgb_frame();
    assert_eq!(frame.len(), 6144);
    assert_eq!(&frame[0..6], &[0xFF, 0xFF, 0xFF, 0, 0, 0]);
    assert_eq!(&frame[192 + 6..192 + 9], &[0xFF, 0xFF, 0xFF]);
    assert!(frame[9..192].iter().all(|&b| b == 0));
}

#[test]
fn jump_with_offset_through_the_cycle() {
    let mut vm = boot(&[0xB3, 0x00]);
    vm.v[0] = 8;
    assert_eq!(vm.emulate_cycle(), Ok(()));
    assert_eq!(vm.pc, 0x300 + 8 + 2);
}

#[test]
fn glyph_pointer_draws_a_digit() {
    // Point the index at the glyph for 0 and draw it: the top row of the
    // glyph is 0xF0, so the first four pixels light up.
    let mut vm = boot(&[0xF0, 0x29, 0xD1, 0x15]);
    vm.v[0] = 0;
    vm.v[1] = 0;
    assert_eq!(vm.emulate_cycle(), Ok(()));
    assert_eq!(vm.i, 0);
    assert_eq!(vm.emulate_cycle(), Ok(()));
    assert_eq!(&vm.display[0..5], &[1, 1, 1, 1, 0]);
    assert_eq!(vm.v[0xF], 0);
}
