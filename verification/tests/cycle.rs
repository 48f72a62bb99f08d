use chip8::fault::Fault;
use chip8::font::FONTS_SPRITES;
use chip8::interpreter::Interpreter;

fn machine_with(program: &[u8]) -> Interpreter {
    let mut machine = Interpreter::new();
    machine.init();
    machine.load_program(program).unwrap();
    machine
}

#[test]
fn new_machine_is_all_zero() {
    let machine = Interpreter::new();
    assert_eq!(machine.memory, [0; 4096]);
    assert_eq!(machine.v, [0; 16]);
    assert_eq!(machine.i, 0);
    assert_eq!(machine.pc, 0);
    assert_eq!(machine.stack, [0; 16]);
    assert_eq!(machine.sp, 0);
    assert_eq!(machine.dtimer, 0);
    assert_eq!(machine.stimer, 0);
    assert_eq!(machine.screen.pixels, [0; 2048]);
    assert_eq!(machine.keypad.keys, [false; 16]);
}

#[test]
fn init_loads_font_and_resets() {
    let mut machine = Interpreter::new();
    machine.memory[0x300] = 0x42;
    machine.memory[3] = 0x99;
    machine.v = [7; 16];
    machine.i = 0x123;
    machine.pc = 0x456;
    machine.stack = [9; 16];
    machine.sp = 5;
    machine.dtimer = 10;
    machine.stimer = 11;
    machine.screen.pixels = [1; 2048];
    machine.keypad.set_down(4);
    machine.seed(77);

    machine.init();

    assert_eq!(&machine.memory[..80], &FONTS_SPRITES[..]);
    assert_eq!(machine.memory[0], 0xF0);
    assert_eq!(machine.memory[79], 0x80);
    assert_eq!(machine.memory[80], 0);
    assert_eq!(machine.memory[0x300], 0x42);
    assert_eq!(machine.v, [0; 16]);
    assert_eq!(machine.i, 0);
    assert_eq!(machine.pc, 0x200);
    assert_eq!(machine.stack, [0; 16]);
    assert_eq!(machine.sp, 0);
    assert_eq!(machine.dtimer, 0);
    assert_eq!(machine.stimer, 0);
    assert_eq!(machine.screen.pixels, [0; 2048]);
    assert!(machine.keypad.is_pressed(4));
    assert_eq!(machine.rng, 77);
}

#[test]
fn init_twice_runs_a_second_program() {
    let mut machine = machine_with(&[0x61, 0x11]);
    machine.step().unwrap();
    assert_eq!(machine.v[1], 0x11);
    machine.init();
    assert_eq!(machine.v[1], 0);
    machine.load_program(&[0x62, 0x22]).unwrap();
    machine.step().unwrap();
    assert_eq!(machine.v[2], 0x22);
    assert_eq!(machine.pc, 0x202);
}

#[test]
fn load_program_copies_to_0x200() {
    let mut machine = Interpreter::new();
    machine.init();
    machine.load_program(&[0xAA, 0xBB, 0xCC]).unwrap();
    assert_eq!(machine.memory[0x1FF], 0);
    assert_eq!(machine.memory[0x200], 0xAA);
    assert_eq!(machine.memory[0x201], 0xBB);
    assert_eq!(machine.memory[0x202], 0xCC);
    assert_eq!(machine.memory[0x203], 0);
    assert_eq!(machine.read_memory()[0x201], 0xBB);
    assert_eq!(machine.memory[0], 0xF0);
}

#[test]
fn load_program_accepts_a_program_that_just_fits() {
    let mut machine = Interpreter::new();
    let program = vec![0x5A; 4096 - 0x200];
    assert_eq!(machine.load_program(&program), Ok(()));
    assert_eq!(machine.memory[0x200], 0x5A);
    assert_eq!(machine.memory[4095], 0x5A);
    assert_eq!(machine.memory[0x1FF], 0);
}

#[test]
fn load_program_refuses_a_program_one_byte_too_long() {
    let mut machine = Interpreter::new();
    let program = vec![0x5A; 4096 - 0x200 + 1];
    assert_eq!(machine.load_program(&program), Err(Fault::MemoryOutOfBounds));
    assert_eq!(machine.memory, [0; 4096]);
}

#[test]
fn load_program_accepts_an_empty_program() {
    let mut machine = Interpreter::new();
    assert_eq!(machine.load_program(&[]), Ok(()));
    assert_eq!(machine.memory, [0; 4096]);
}

#[test]
fn fetch_reads_big_endian_and_advances() {
    let mut machine = machine_with(&[0x12, 0x34, 0xAB, 0xCD]);
    assert_eq!(machine.fetch(), Ok(0x1234));
    assert_eq!(machine.pc, 0x202);
    assert_eq!(machine.fetch(), Ok(0xABCD));
    assert_eq!(machine.pc, 0x204);
}

#[test]
fn fetch_of_last_word_succeeds() {
    let mut machine = Interpreter::new();
    machine.memory[4094] = 0xDE;
    machine.memory[4095] = 0xAD;
    machine.pc = 4094;
    assert_eq!(machine.fetch(), Ok(0xDEAD));
    assert_eq!(machine.pc, 4096);
}

#[test]
fn fetch_past_the_end_is_refused() {
    let mut machine = Interpreter::new();
    machine.pc = 4095;
    assert_eq!(machine.fetch(), Err(Fault::MemoryOutOfBounds));
    assert_eq!(machine.pc, 4095);
    machine.pc = 4096;
    assert_eq!(machine.fetch(), Err(Fault::MemoryOutOfBounds));
    assert_eq!(machine.pc, 4096);
    machine.pc = 0xFFFF;
    assert_eq!(machine.fetch(), Err(Fault::MemoryOutOfBounds));
    assert_eq!(machine.pc, 0xFFFF);
}

#[test]
fn step_past_the_end_is_refused_and_changes_nothing() {
    let mut machine = Interpreter::new();
    machine.pc = 4095;
    machine.v[2] = 9;
    assert_eq!(machine.step(), Err(Fault::MemoryOutOfBounds));
    assert_eq!(machine.pc, 4095);
    assert_eq!(machine.v[2], 9);
}

#[test]
fn clear_then_timer_round_trip() {
    let mut machine = machine_with(&[0x00, 0xE0, 0x6A, 0x3C, 0xFA, 0x15, 0xFA, 0x07]);
    machine.screen.pixels = [1; 2048];

    machine.step().unwrap();
    assert_eq!(*machine.read_framebuffer(), [0; 2048]);

    machine.step().unwrap();
    assert_eq!(machine.v[0xA], 0x3C);

    machine.step().unwrap();
    assert_eq!(machine.dtimer, 0x3C);

    machine.tick();
    assert_eq!(machine.dtimer, 0x3B);

    machine.step().unwrap();
    assert_eq!(machine.v[0xA], 0x3B);
    assert_eq!(machine.pc, 0x208);
}

#[test]
fn add_immediate_wraps_and_leaves_flag() {
    let mut machine = machine_with(&[0x71, 0x05]);
    machine.v[1] = 0xFF;
    machine.v[0xF] = 0x77;
    machine.step().unwrap();
    assert_eq!(machine.v[1], 0x04);
    assert_eq!(machine.v[0xF], 0x77);
}

#[test]
fn load_immediate_changes_one_register() {
    for x in 0..16u16 {
        let mut machine = Interpreter::new();
        machine.v = [0x11; 16];
        machine.decode(0x6000 | (x << 8) | 0xC3).unwrap();
        for r in 0..16 {
            let expected = if r == x as usize { 0xC3 } else { 0x11 };
            assert_eq!(machine.v[r], expected);
        }
    }
}

#[test]
fn add_registers_sets_carry_exactly_on_overflow() {
    for (a, b) in [(0u8, 0u8), (1, 254), (1, 255), (255, 255), (128, 128), (127, 128), (200, 55), (200, 56)] {
        let mut machine = Interpreter::new();
        machine.v[3] = a;
        machine.v[4] = b;
        machine.v[0xF] = 9;
        machine.decode(0x8344).unwrap();
        let sum = a as u16 + b as u16;
        assert_eq!(machine.v[3], (sum % 256) as u8);
        assert_eq!(machine.v[0xF], if sum >= 256 { 1 } else { 0 });
        assert_eq!(machine.v[4], b);
    }
}

#[test]
fn add_registers_into_flag_register_keeps_the_carry() {
    let mut machine = Interpreter::new();
    machine.v[0xF] = 0xF0;
    machine.v[1] = 0x20;
    machine.decode(0x8F14).unwrap();
    assert_eq!(machine.v[0xF], 1);

    machine.v[0xF] = 0x10;
    machine.v[1] = 0x20;
    machine.decode(0x8F14).unwrap();
    assert_eq!(machine.v[0xF], 0);
}

#[test]
fn shift_right_reports_the_low_bit() {
    for a in [0u8, 1, 2, 3, 0x80, 0xFE, 0xFF] {
        let mut machine = Interpreter::new();
        machine.v[6] = a;
        machine.decode(0x8606).unwrap();
        assert_eq!(machine.v[6], a >> 1);
        assert_eq!(machine.v[0xF], a & 1);
    }
}

#[test]
fn shift_right_of_flag_register_keeps_the_flag() {
    let mut machine = Interpreter::new();
    machine.v[0xF] = 0x07;
    machine.decode(0x8F06).unwrap();
    assert_eq!(machine.v[0xF], 1);
}

#[test]
fn shift_left_reports_the_high_bit() {
    for a in [0u8, 1, 0x40, 0x7F, 0x80, 0x81, 0xFF] {
        let mut machine = Interpreter::new();
        machine.v[6] = a;
        machine.decode(0x860E).unwrap();
        assert_eq!(machine.v[6], a.wrapping_shl(1));
        assert_eq!(machine.v[0xF], a >> 7);
    }
}

#[test]
fn subtract_of_equal_values_clears_the_flag() {
    let mut machine = Interpreter::new();
    machine.v[1] = 0x33;
    machine.v[2] = 0x33;
    machine.v[0xF] = 1;
    machine.decode(0x8125).unwrap();
    assert_eq!(machine.v[1], 0);
    assert_eq!(machine.v[0xF], 0);

    machine.v[1] = 0x33;
    machine.v[0xF] = 1;
    machine.decode(0x8127).unwrap();
    assert_eq!(machine.v[1], 0);
    assert_eq!(machine.v[0xF], 0);
}

#[test]
fn subtract_wraps_below_zero() {
    let mut machine = Interpreter::new();
    machine.v[1] = 0x00;
    machine.v[2] = 0x01;
    machine.decode(0x8125).unwrap();
    assert_eq!(machine.v[1], 0xFF);
    assert_eq!(machine.v[0xF], 0);
}

#[test]
fn add_to_index_is_not_masked_to_twelve_bits() {
    let mut machine = Interpreter::new();
    machine.i = 0x0FFF;
    machine.v[1] = 0x02;
    machine.decode(0xF11E).unwrap();
    assert_eq!(machine.i, 0x1001);
}

#[test]
fn add_to_index_wraps_at_sixteen_bits() {
    let mut machine = Interpreter::new();
    machine.i = 0xFFFF;
    machine.v[1] = 0x02;
    machine.decode(0xF11E).unwrap();
    assert_eq!(machine.i, 0x0001);
}

#[test]
fn jump_with_offset_may_leave_memory_and_the_next_fetch_faults() {
    let mut machine = Interpreter::new();
    machine.v[0] = 0xFF;
    machine.decode(0xBFFF).unwrap();
    assert_eq!(machine.pc, 0x10FE);
    assert_eq!(machine.step(), Err(Fault::MemoryOutOfBounds));
    assert_eq!(machine.pc, 0x10FE);
}

#[test]
fn unknown_word_only_consumes_the_fetch() {
    let mut machine = machine_with(&[0x00, 0x00, 0xF1, 0x29, 0x51, 0x21, 0xE1, 0x00]);
    machine.v = [3; 16];
    machine.i = 0x222;
    let memory = machine.memory;
    for k in 1..=4u16 {
        machine.step().unwrap();
        assert_eq!(machine.pc, 0x200 + 2 * k);
        assert_eq!(machine.v, [3; 16]);
        assert_eq!(machine.i, 0x222);
        assert_eq!(machine.sp, 0);
        assert_eq!(machine.memory, memory);
        assert_eq!(machine.screen.pixels, [0; 2048]);
    }
}

#[test]
fn skip_on_key_ignores_values_that_name_no_key() {
    let mut machine = Interpreter::new();
    machine.pc = 0x200;
    machine.keypad.keys = [true; 16];
    machine.v[1] = 16;
    machine.decode(0xE19E).unwrap();
    assert_eq!(machine.pc, 0x200);
    machine.decode(0xE1A1).unwrap();
    assert_eq!(machine.pc, 0x202);
    machine.v[1] = 15;
    machine.decode(0xE19E).unwrap();
    assert_eq!(machine.pc, 0x204);
}

#[test]
fn tick_counts_both_timers_down_to_zero() {
    let mut machine = Interpreter::new();
    machine.dtimer = 2;
    machine.stimer = 1;
    assert!(machine.sound_active());
    machine.tick();
    assert_eq!((machine.dtimer, machine.stimer), (1, 0));
    assert!(!machine.sound_active());
    machine.tick();
    assert_eq!((machine.dtimer, machine.stimer), (0, 0));
    machine.tick();
    assert_eq!((machine.dtimer, machine.stimer), (0, 0));
}

#[test]
fn sound_timer_is_set_from_a_register() {
    let mut machine = machine_with(&[0x63, 0x02, 0xF3, 0x18]);
    machine.step().unwrap();
    machine.step().unwrap();
    assert_eq!(machine.stimer, 2);
    assert!(machine.sound_active());
}

#[test]
fn keys_are_forwarded_to_the_keypad() {
    let mut machine = Interpreter::new();
    machine.set_key_down(0xC);
    assert!(machine.keypad.is_pressed(0xC));
    assert_eq!(machine.keypad.get_key_pressed(), Some(0xC));
    machine.set_key_up(0xC);
    assert!(!machine.keypad.is_pressed(0xC));
    assert_eq!(machine.keypad.get_key_pressed(), None);
}

#[test]
fn load_at_another_address() {
    let mut machine = Interpreter::new();
    assert_eq!(machine.load_program_at(&[1, 2, 3], 0x0FFD), Ok(()));
    assert_eq!(machine.memory[0x0FFC], 0);
    assert_eq!(&machine.memory[0x0FFD..], &[1, 2, 3]);
    assert_eq!(machine.load_program_at(&[9], 0), Ok(()));
    assert_eq!(machine.memory[0], 9);
    assert_eq!(machine.memory[1], 0);
}

#[test]
fn load_at_refuses_what_reaches_past_the_end() {
    let mut machine = Interpreter::new();
    assert_eq!(machine.load_program_at(&[1, 2, 3], 0x0FFE), Err(Fault::MemoryOutOfBounds));
    assert_eq!(machine.load_program_at(&[1], 0x1000), Err(Fault::MemoryOutOfBounds));
    assert_eq!(machine.load_program_at(&[], 0x1001), Err(Fault::MemoryOutOfBounds));
    assert_eq!(machine.load_program_at(&[1], 0xFFFF), Err(Fault::MemoryOutOfBounds));
    assert_eq!(machine.memory, [0; 4096]);
    assert_eq!(machine.load_program_at(&[], 0x1000), Ok(()));
    assert_eq!(machine.memory, [0; 4096]);
}
