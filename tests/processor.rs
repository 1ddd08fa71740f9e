use chip8::machine::{Fault, FrameReport, LoadError, FONT_SPRITES, PROGRAM_START, SPRITE_START};
use chip8::processor::Processor;

const PONG_START: [u8; 16] = [
    0x6a, 0x02, 0x6b, 0x0c, 0x6c, 0x3f, 0x6d, 0x0c, 0xa2, 0xea, 0xda, 0xb6, 0xdc, 0xd6, 0x6e, 0x00,
];

fn run(vm: &mut Processor, words: &[u16]) {
    for &w in words {
        vm.execute_instruction(w).unwrap();
    }
}

fn with_program(words: &[u16]) -> Processor {
    let mut rom = Vec::new();
    for &w in words {
        rom.push((w >> 8) as u8);
        rom.push(w as u8);
    }
    let mut vm = Processor::new();
    vm.load_program(&rom).unwrap();
    vm
}

#[test]
fn test_load_program() {
    let mut vm = Processor::new();
    assert_eq!(vm.memory()[PROGRAM_START as usize], 0x0000);
    vm.load_program(&PONG_START).unwrap();
    assert_eq!(vm.memory()[PROGRAM_START as usize], 0x6a);
}

#[test]
fn test_display() {
    let mut vm = Processor::new();
    // I = glyph of 0, draw it at (0, 0)
    run(&mut vm, &[0x6000, 0xF029, 0xD005]);
    assert!(vm.display_changed());
    assert_eq!(vm.register(0xF), 0);
    // first row 0xF0: four pixels on, then off
    for x in 0..4 {
        assert!(vm.pixel(x, 0));
    }
    for x in 4..8 {
        assert!(!vm.pixel(x, 0));
    }
    // second row 0x90
    assert!(vm.pixel(0, 1));
    assert!(!vm.pixel(1, 1));
    assert!(!vm.pixel(2, 1));
    assert!(vm.pixel(3, 1));
    assert!(!vm.pixel(0, 5));
}

#[test]
fn new_machine_holds_the_font() {
    let vm = Processor::new();
    let mem = vm.memory();
    assert_eq!(mem.len(), 4096);
    for k in 0..80 {
        assert_eq!(mem[SPRITE_START as usize + k], FONT_SPRITES[k]);
    }
    assert_eq!(mem[SPRITE_START as usize + 80], 0);
    assert_eq!(vm.pc(), 0x200);
    assert_eq!(vm.stack_depth(), 0);
    assert!(vm.framebuffer().iter().all(|&p| !p));
}

#[test]
fn loading_places_every_byte_and_resets() {
    let mut vm = Processor::new();
    run(&mut vm, &[0x6305, 0x1400]);
    vm.load_program(&PONG_START).unwrap();
    for (k, b) in PONG_START.iter().enumerate() {
        assert_eq!(vm.memory()[0x200 + k], *b);
    }
    assert_eq!(vm.pc(), 0x200);
    assert_eq!(vm.register(3), 0);
}

#[test]
fn loading_largest_program_fits() {
    let mut vm = Processor::new();
    let rom = vec![0xAB; 4096 - 0x200];
    assert_eq!(vm.load_program(&rom), Ok(()));
    assert_eq!(vm.memory()[4095], 0xAB);
}

#[test]
fn loading_oversized_program_is_refused() {
    let mut vm = Processor::new();
    run(&mut vm, &[0x6305]);
    let rom = vec![0xAB; 4096 - 0x200 + 1];
    assert_eq!(vm.load_program(&rom), Err(LoadError::RomTooLarge));
    assert_eq!(vm.register(3), 5);
    assert_eq!(vm.memory()[0x200], 0);
}

#[test]
fn add_immediate_wraps_and_keeps_flag() {
    let mut vm = Processor::new();
    run(&mut vm, &[0x60FF, 0x6F07, 0x7002]);
    assert_eq!(vm.register(0), 0x01);
    assert_eq!(vm.register(0xF), 0x07);
}

#[test]
fn add_registers_sets_carry() {
    let mut vm = Processor::new();
    run(&mut vm, &[0x60FF, 0x6101, 0x8014]);
    assert_eq!(vm.register(0), 0x00);
    assert_eq!(vm.register(0xF), 1);
    run(&mut vm, &[0x6010, 0x6120, 0x8014]);
    assert_eq!(vm.register(0), 0x30);
    assert_eq!(vm.register(0xF), 0);
}

#[test]
fn subtract_sets_no_borrow_flag() {
    let mut vm = Processor::new();
    run(&mut vm, &[0x6005, 0x6103, 0x8015]);
    assert_eq!(vm.register(0), 2);
    assert_eq!(vm.register(0xF), 1);
    run(&mut vm, &[0x6003, 0x6105, 0x8015]);
    assert_eq!(vm.register(0), 0xFE);
    assert_eq!(vm.register(0xF), 0);
    run(&mut vm, &[0x6003, 0x6105, 0x8017]);
    assert_eq!(vm.register(0), 2);
    assert_eq!(vm.register(0xF), 1);
    run(&mut vm, &[0x6005, 0x6103, 0x8017]);
    assert_eq!(vm.register(0), 0xFE);
    assert_eq!(vm.register(0xF), 0);
}

#[test]
fn shift_right_moves_low_bit_to_flag() {
    let mut vm = Processor::new();
    run(&mut vm, &[0x6003, 0x8006]);
    assert_eq!(vm.register(0xF), 1);
    assert_eq!(vm.register(0), 0b0000_0001);
}

#[test]
fn shift_left_moves_high_bit_to_flag() {
    let mut vm = Processor::new();
    run(&mut vm, &[0x6081, 0x800E]);
    assert_eq!(vm.register(0xF), 1);
    assert_eq!(vm.register(0), 0b0000_0010);
}

#[test]
fn bitwise_operations() {
    let mut vm = Processor::new();
    run(&mut vm, &[0x60F0, 0x613C, 0x8011]);
    assert_eq!(vm.register(0), 0xFC);
    run(&mut vm, &[0x60F0, 0x8012]);
    assert_eq!(vm.register(0), 0x30);
    run(&mut vm, &[0x60F0, 0x8013]);
    assert_eq!(vm.register(0), 0xCC);
    run(&mut vm, &[0x8210]);
    assert_eq!(vm.register(2), 0x3C);
}

#[test]
fn drawing_twice_clears_and_collides() {
    let mut vm = Processor::new();
    run(&mut vm, &[0x6A3E, 0x6B1E, 0xA050, 0xDAB5]);
    assert_eq!(vm.register(0xF), 0);
    assert!(vm.framebuffer().iter().any(|&p| p));
    run(&mut vm, &[0xDAB5]);
    assert_eq!(vm.register(0xF), 1);
    assert!(vm.framebuffer().iter().all(|&p| !p));
}

#[test]
fn sprites_wrap_around_the_edges() {
    let mut vm = Processor::new();
    // glyph of 0 at (62, 30): columns 62, 63, 0, 1 and rows 30, 31, 0, 1, 2
    run(&mut vm, &[0x603E, 0x611E, 0xA050, 0xD015]);
    assert!(vm.pixel(62, 30));
    assert!(vm.pixel(63, 30));
    assert!(vm.pixel(0, 30));
    assert!(vm.pixel(1, 30));
    assert!(!vm.pixel(2, 30));
    assert!(vm.pixel(62, 2));
    assert!(vm.pixel(1, 0));
    assert!(!vm.pixel(0, 31));
}

#[test]
fn clear_screen_blanks_and_marks_dirty() {
    let mut vm = Processor::new();
    run(&mut vm, &[0xA050, 0xD005, 0x00E0]);
    assert!(vm.framebuffer().iter().all(|&p| !p));
    assert!(vm.display_changed());
    assert_eq!(vm.pc(), 0x206);
}

#[test]
fn call_then_return_resumes_after_call() {
    let mut vm = with_program(&[0x2300]);
    let mut rom = vec![0u8; 0x102];
    rom[0] = 0x23;
    rom[1] = 0x00;
    rom[0x100] = 0x00;
    rom[0x101] = 0xEE;
    vm.load_program(&rom).unwrap();
    vm.step().unwrap();
    assert_eq!(vm.pc(), 0x300);
    assert_eq!(vm.stack_depth(), 1);
    vm.step().unwrap();
    assert_eq!(vm.pc(), 0x202);
    assert_eq!(vm.stack_depth(), 0);
}

#[test]
fn return_without_call_underflows() {
    let mut vm = Processor::new();
    assert_eq!(vm.execute_instruction(0x00EE), Err(Fault::StackUnderflow));
    assert_eq!(vm.pc(), 0x200);
}

#[test]
fn seventeenth_nested_call_overflows() {
    let mut vm = Processor::new();
    for _ in 0..16 {
        assert_eq!(vm.execute_instruction(0x2200), Ok(()));
    }
    assert_eq!(vm.stack_depth(), 16);
    assert_eq!(vm.execute_instruction(0x2200), Err(Fault::StackOverflow));
    assert_eq!(vm.stack_depth(), 16);
}

#[test]
fn store_then_load_restores_registers() {
    let mut vm = Processor::new();
    run(&mut vm, &[0x6011, 0x6122, 0x6233, 0x6344, 0x6455, 0xA400, 0xF355]);
    assert_eq!(vm.index_register(), 0x400);
    assert_eq!(&vm.memory()[0x400..0x405], &[0x11, 0x22, 0x33, 0x44, 0x00]);
    run(&mut vm, &[0x6000, 0x6100, 0x6200, 0x6300, 0x6499, 0xF365]);
    assert_eq!(vm.register(0), 0x11);
    assert_eq!(vm.register(1), 0x22);
    assert_eq!(vm.register(2), 0x33);
    assert_eq!(vm.register(3), 0x44);
    assert_eq!(vm.register(4), 0x99);
}

#[test]
fn register_store_past_memory_end_faults() {
    let mut vm = Processor::new();
    run(&mut vm, &[0xAFFE]);
    assert_eq!(vm.execute_instruction(0xF155), Ok(()));
    assert_eq!(vm.execute_instruction(0xF255), Err(Fault::AddressOutOfRange));
    assert_eq!(vm.execute_instruction(0xF265), Err(Fault::AddressOutOfRange));
    assert_eq!(vm.execute_instruction(0xF033), Err(Fault::AddressOutOfRange));
    assert_eq!(vm.execute_instruction(0xD003), Err(Fault::AddressOutOfRange));
}

#[test]
fn fetch_past_memory_end_faults() {
    let mut vm = Processor::new();
    run(&mut vm, &[0x1FFF]);
    assert_eq!(vm.step(), Err(Fault::AddressOutOfRange));
    assert_eq!(vm.pc(), 0xFFF);
}

#[test]
fn delay_timer_reaches_zero_after_five_ticks() {
    let mut vm = Processor::new();
    run(&mut vm, &[0x6005, 0xF015]);
    assert_eq!(vm.delay_timer(), 5);
    for left in (0..5).rev() {
        vm.tick_timers();
        assert_eq!(vm.delay_timer(), left);
    }
    vm.tick_timers();
    assert_eq!(vm.delay_timer(), 0);
    run(&mut vm, &[0xF107]);
    assert_eq!(vm.register(1), 0);
}

#[test]
fn wait_for_key_holds_until_a_key_is_pressed() {
    let mut vm = with_program(&[0xF30A]);
    vm.step().unwrap();
    assert_eq!(vm.pc(), 0x200);
    vm.step().unwrap();
    assert_eq!(vm.pc(), 0x200);
    vm.press_key(0xC);
    vm.press_key(7);
    vm.step().unwrap();
    assert_eq!(vm.pc(), 0x202);
    assert_eq!(vm.register(3), 7);
}

#[test]
fn key_skips_follow_the_keypad() {
    let mut vm = Processor::new();
    run(&mut vm, &[0x6105, 0xE19E]);
    assert_eq!(vm.pc(), 0x204);
    run(&mut vm, &[0xE1A1]);
    assert_eq!(vm.pc(), 0x208);
    vm.press_key(5);
    assert!(vm.is_key_pressed(5));
    run(&mut vm, &[0xE19E]);
    assert_eq!(vm.pc(), 0x20C);
    run(&mut vm, &[0xE1A1]);
    assert_eq!(vm.pc(), 0x20E);
    vm.release_key(5);
    assert!(!vm.is_key_pressed(5));
    // a register value beyond the keypad is never pressed
    run(&mut vm, &[0x6120, 0xE19E]);
    assert_eq!(vm.pc(), 0x212);
}

#[test]
fn conditional_skips() {
    let mut vm = Processor::new();
    run(&mut vm, &[0x6042, 0x3042]);
    assert_eq!(vm.pc(), 0x206);
    run(&mut vm, &[0x3043]);
    assert_eq!(vm.pc(), 0x208);
    run(&mut vm, &[0x4043]);
    assert_eq!(vm.pc(), 0x20C);
    run(&mut vm, &[0x6142, 0x5010]);
    assert_eq!(vm.pc(), 0x212);
    run(&mut vm, &[0x9010]);
    assert_eq!(vm.pc(), 0x214);
}

#[test]
fn jumps() {
    let mut vm = Processor::new();
    run(&mut vm, &[0x1234]);
    assert_eq!(vm.pc(), 0x234);
    run(&mut vm, &[0x6010, 0xB300]);
    assert_eq!(vm.pc(), 0x310);
}

#[test]
fn index_register_operations() {
    let mut vm = Processor::new();
    run(&mut vm, &[0xA123, 0x6010, 0xF01E]);
    assert_eq!(vm.index_register(), 0x133);
    run(&mut vm, &[0x600A, 0xF029]);
    assert_eq!(vm.index_register(), 0x50 + 50);
}

#[test]
fn decimal_digits_are_stored() {
    let mut vm = Processor::new();
    run(&mut vm, &[0x60EA, 0xA300, 0xF033]);
    assert_eq!(&vm.memory()[0x300..0x303], &[2, 3, 4]);
}

#[test]
fn timers_load_from_registers() {
    let mut vm = Processor::new();
    run(&mut vm, &[0x6009, 0xF018, 0xF015]);
    assert_eq!(vm.sound_timer(), 9);
    assert_eq!(vm.delay_timer(), 9);
}

#[test]
fn random_byte_is_masked() {
    let mut vm = Processor::new();
    run(&mut vm, &[0x60FF, 0xC000]);
    assert_eq!(vm.register(0), 0);
    run(&mut vm, &[0xC10F]);
    assert!(vm.register(1) <= 0x0F);
    vm.execute_op(chip8::opcode::Instruction::Rnd { x: 2, kk: 0x3C }, 0xF5).unwrap();
    assert_eq!(vm.register(2), 0x34);
}

#[test]
fn unknown_and_system_words_only_advance() {
    let mut vm = Processor::new();
    run(&mut vm, &[0x6007, 0x8008, 0x0123]);
    assert_eq!(vm.pc(), 0x206);
    assert_eq!(vm.register(0), 7);
}

#[test]
fn frame_reports_redraw_once_and_sound() {
    let mut vm = with_program(&[0x6003, 0xF018, 0xA050, 0xD005, 0x1208]);
    assert_eq!(vm.run_frame(0), Ok(FrameReport { redraw: false, sound_active: false }));
    assert_eq!(vm.run_frame(1), Ok(FrameReport { redraw: false, sound_active: true }));
    assert_eq!(vm.sound_timer(), 2);
    assert_eq!(vm.run_frame(1), Ok(FrameReport { redraw: false, sound_active: true }));
    assert_eq!(vm.run_frame(0), Ok(FrameReport { redraw: true, sound_active: true }));
    assert!(!vm.display_changed());
    assert_eq!(vm.run_frame(5), Ok(FrameReport { redraw: false, sound_active: false }));
    assert_eq!(vm.sound_timer(), 0);
}

#[test]
fn frame_fault_leaves_machine_unchanged() {
    let mut vm = with_program(&[0x00EE]);
    assert_eq!(vm.run_frame(3), Err(Fault::StackUnderflow));
    assert_eq!(vm.pc(), 0x200);
}
