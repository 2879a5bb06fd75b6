use chip8::bus::Bus;
use chip8::cpu::Cpu;
use chip8::fault::Fault;
use chip8::instruction::{decode, Instruction};

/// A machine with `program` loaded at the program origin.
fn machine(program: &[u8]) -> (Cpu, Bus) {
    let mut bus = Bus::new();
    bus.load_program(program).unwrap();
    (Cpu::new(), bus)
}

/// Runs `steps` instructions, each of which must succeed.
fn run(cpu: &mut Cpu, bus: &mut Bus, steps: usize) {
    for _ in 0..steps {
        cpu.run_instruction(bus).unwrap();
    }
}

#[test]
fn set_then_skip_equal_advances_by_four() {
    let (mut cpu, mut bus) = machine(&[0x63, 0x42, 0x33, 0x42]);
    run(&mut cpu, &mut bus, 1);
    assert_eq!(cpu.pc(), 0x202);
    run(&mut cpu, &mut bus, 1);
    assert_eq!(cpu.pc(), 0x206);
}

#[test]
fn set_then_skip_different_advances_by_two() {
    let (mut cpu, mut bus) = machine(&[0x63, 0x42, 0x33, 0x43]);
    run(&mut cpu, &mut bus, 2);
    assert_eq!(cpu.pc(), 0x204);
}

#[test]
fn skip_not_equal_immediate() {
    let (mut cpu, mut bus) = machine(&[0x63, 0x42, 0x43, 0x43]);
    run(&mut cpu, &mut bus, 2);
    assert_eq!(cpu.pc(), 0x206);
    let (mut cpu, mut bus) = machine(&[0x63, 0x42, 0x43, 0x42]);
    run(&mut cpu, &mut bus, 2);
    assert_eq!(cpu.pc(), 0x204);
}

/// Sets V1 and V2, then runs `op` (an 8XY_ instruction on V1 and V2).
fn alu(v1: u8, v2: u8, op: u8) -> Cpu {
    let (mut cpu, mut bus) = machine(&[0x61, v1, 0x62, v2, 0x81, 0x20 | op]);
    run(&mut cpu, &mut bus, 3);
    assert_eq!(cpu.pc(), 0x206);
    cpu
}

#[test]
fn reg_add_with_carry() {
    let cpu = alu(0xFF, 0x01, 0x4);
    assert_eq!(cpu.read_reg_vx(1), 0x00);
    assert_eq!(cpu.read_reg_vx(0xF), 1);
}

#[test]
fn reg_add_without_carry() {
    let cpu = alu(0x01, 0x01, 0x4);
    assert_eq!(cpu.read_reg_vx(1), 0x02);
    assert_eq!(cpu.read_reg_vx(0xF), 0);
}

#[test]
fn reg_add_commutes() {
    let a = alu(0xC8, 0x64, 0x4);
    let b = alu(0x64, 0xC8, 0x4);
    assert_eq!(a.read_reg_vx(1), b.read_reg_vx(1));
    assert_eq!(a.read_reg_vx(1), 0x2C);
    assert_eq!(a.read_reg_vx(0xF), b.read_reg_vx(0xF));
    assert_eq!(a.read_reg_vx(0xF), 1);
}

#[test]
fn reg_add_clears_a_stale_flag() {
    let (mut cpu, mut bus) = machine(&[0x6F, 0x01, 0x61, 0x01, 0x62, 0x01, 0x81, 0x24]);
    run(&mut cpu, &mut bus, 4);
    assert_eq!(cpu.read_reg_vx(1), 2);
    assert_eq!(cpu.read_reg_vx(0xF), 0);
}

#[test]
fn reg_subn_without_borrow() {
    let cpu = alu(0x05, 0x0A, 0x7);
    assert_eq!(cpu.read_reg_vx(1), 0x05);
    assert_eq!(cpu.read_reg_vx(0xF), 1);
}

#[test]
fn reg_sub_with_borrow() {
    let cpu = alu(0x05, 0x0A, 0x5);
    assert_eq!(cpu.read_reg_vx(1), 0xFB);
    assert_eq!(cpu.read_reg_vx(0xF), 0);
}

#[test]
fn reg_sub_equal_operands_has_no_borrow() {
    let cpu = alu(0x80, 0x80, 0x5);
    assert_eq!(cpu.read_reg_vx(1), 0x00);
    assert_eq!(cpu.read_reg_vx(0xF), 1);
}

#[test]
fn reg_assign_and_xor() {
    assert_eq!(alu(0x12, 0x34, 0x0).read_reg_vx(1), 0x34);
    assert_eq!(alu(0b1100, 0b1010, 0x2).read_reg_vx(1), 0b1000);
    assert_eq!(alu(0b1100, 0b1010, 0x3).read_reg_vx(1), 0b0110);
}

#[test]
fn shifts_set_the_flag_from_the_lost_bit() {
    let cpu = alu(0x81, 0x00, 0x6);
    assert_eq!(cpu.read_reg_vx(1), 0x40);
    assert_eq!(cpu.read_reg_vx(0xF), 1);
    let cpu = alu(0x81, 0x00, 0xE);
    assert_eq!(cpu.read_reg_vx(1), 0x02);
    assert_eq!(cpu.read_reg_vx(0xF), 1);
    let cpu = alu(0x42, 0x00, 0xE);
    assert_eq!(cpu.read_reg_vx(1), 0x84);
    assert_eq!(cpu.read_reg_vx(0xF), 0);
}

#[test]
fn add_immediate_wraps_without_flag() {
    let (mut cpu, mut bus) = machine(&[0x61, 0xF0, 0x71, 0x20]);
    run(&mut cpu, &mut bus, 2);
    assert_eq!(cpu.read_reg_vx(1), 0x10);
    assert_eq!(cpu.read_reg_vx(0xF), 0);
}

#[test]
fn draw_twice_collides_and_restores() {
    // I = font glyph of 0; draw it at (V0, V1) = (10, 5) twice.
    let (mut cpu, mut bus) = machine(&[0x60, 10, 0x61, 5, 0xA0, 0x00, 0xD0, 0x15, 0xD0, 0x15]);
    run(&mut cpu, &mut bus, 4);
    assert_eq!(cpu.read_reg_vx(0xF), 0);
    assert!(bus.pixel(10, 5));
    assert!(bus.pixel(13, 5));
    assert!(!bus.pixel(14, 5));
    assert!(bus.pixel(10, 6));
    assert!(!bus.pixel(11, 6));
    assert!(bus.take_present_request());
    run(&mut cpu, &mut bus, 1);
    assert_eq!(cpu.read_reg_vx(0xF), 1);
    for y in 0..32 {
        for x in 0..64 {
            assert!(!bus.pixel(x, y));
        }
    }
}

#[test]
fn draw_wraps_around_both_edges() {
    let mut bus = Bus::new();
    assert!(!bus.draw_sprite(62, 31, &[0xFF, 0x80]));
    assert!(bus.pixel(62, 31));
    assert!(bus.pixel(63, 31));
    assert!(bus.pixel(0, 31));
    assert!(bus.pixel(5, 31));
    assert!(!bus.pixel(6, 31));
    assert!(bus.pixel(62, 0));
    assert!(!bus.pixel(63, 0));
}

#[test]
fn draw_row_reports_collision() {
    let mut bus = Bus::new();
    assert!(!bus.debug_draw_byte(0b1010_0000, 3, 4));
    assert!(bus.pixel(3, 4));
    assert!(!bus.pixel(4, 4));
    assert!(bus.pixel(5, 4));
    assert!(bus.debug_draw_byte(0b0010_0000, 3, 4));
    assert!(!bus.pixel(5, 4));
    assert!(bus.pixel(3, 4));
}

#[test]
fn clear_screen_blanks_and_moves_on() {
    let (mut cpu, mut bus) = machine(&[0x00, 0xE0]);
    bus.draw_sprite(0, 0, &[0xFF]);
    run(&mut cpu, &mut bus, 1);
    assert!(!bus.pixel(0, 0));
    assert_eq!(cpu.pc(), 0x202);
    assert!(bus.take_present_request());
    assert!(!bus.take_present_request());
}

#[test]
fn store_then_load_block_round_trips() {
    let program = [
        0x60, 0x11, 0x61, 0x22, 0x62, 0x33, // V0..V2
        0xA3, 0x00, // I = 0x300
        0xF2, 0x55, // store V0..V2
        0x60, 0x00, 0x61, 0x00, 0x62, 0x00, // clobber
        0xA3, 0x00, // I = 0x300 again
        0xF2, 0x65, // load V0..V2
    ];
    let (mut cpu, mut bus) = machine(&program);
    run(&mut cpu, &mut bus, 5);
    assert_eq!(cpu.index(), 0x303);
    assert_eq!(bus.ram_read_byte(0x300), 0x11);
    assert_eq!(bus.ram_read_byte(0x302), 0x33);
    assert_eq!(bus.ram_read_byte(0x303), 0x00);
    run(&mut cpu, &mut bus, 5);
    assert_eq!(cpu.read_reg_vx(0), 0x11);
    assert_eq!(cpu.read_reg_vx(1), 0x22);
    assert_eq!(cpu.read_reg_vx(2), 0x33);
    assert_eq!(cpu.index(), 0x303);
}

#[test]
fn call_then_return() {
    // 0x200: call 0x206; 0x202: (next) ; 0x206: return
    let (mut cpu, mut bus) = machine(&[0x22, 0x06, 0x00, 0x00, 0x00, 0x00, 0x00, 0xEE]);
    run(&mut cpu, &mut bus, 1);
    assert_eq!(cpu.pc(), 0x206);
    assert_eq!(cpu.stack_depth(), 1);
    run(&mut cpu, &mut bus, 1);
    assert_eq!(cpu.pc(), 0x202);
    assert_eq!(cpu.stack_depth(), 0);
}

#[test]
fn return_with_empty_stack_faults() {
    let (mut cpu, mut bus) = machine(&[0x00, 0xEE]);
    assert_eq!(cpu.run_instruction(&mut bus), Err(Fault::StackUnderflow));
    assert_eq!(cpu.pc(), 0x200);
}

#[test]
fn deep_calls_overflow_the_stack() {
    // Each instruction calls the next one.
    let mut program = Vec::new();
    for k in 0..17u16 {
        let target = 0x202 + 2 * k;
        program.push(0x20 | (target >> 8) as u8);
        program.push(target as u8);
    }
    let (mut cpu, mut bus) = machine(&program);
    run(&mut cpu, &mut bus, 16);
    assert_eq!(cpu.stack_depth(), 16);
    assert_eq!(cpu.run_instruction(&mut bus), Err(Fault::StackOverflow));
    assert_eq!(cpu.stack_depth(), 16);
}

#[test]
fn undefined_words_fault() {
    for word in [0x5120u16, 0x9120, 0xB123, 0xC1FF, 0x0123, 0x8121, 0x8128, 0xE1FF, 0xF1FF] {
        let (mut cpu, mut bus) = machine(&[(word >> 8) as u8, word as u8]);
        assert_eq!(cpu.run_instruction(&mut bus), Err(Fault::UnknownInstruction { word }));
        assert_eq!(cpu.pc(), 0x200);
    }
}

#[test]
fn wait_key_holds_until_a_key_is_pressed() {
    let (mut cpu, mut bus) = machine(&[0x63, 0x07, 0xF3, 0x0A]);
    run(&mut cpu, &mut bus, 1);
    for _ in 0..3 {
        run(&mut cpu, &mut bus, 1);
        assert_eq!(cpu.pc(), 0x202);
        assert_eq!(cpu.read_reg_vx(3), 0x07);
    }
    bus.set_key_state(0xB, true);
    run(&mut cpu, &mut bus, 1);
    assert_eq!(cpu.read_reg_vx(3), 0xB);
    assert_eq!(cpu.pc(), 0x204);
}

#[test]
fn skip_on_key_state() {
    let program = [0x65, 0x04, 0xE5, 0x9E];
    let (mut cpu, mut bus) = machine(&program);
    run(&mut cpu, &mut bus, 2);
    assert_eq!(cpu.pc(), 0x204);
    let (mut cpu, mut bus) = machine(&program);
    bus.set_key_state(4, true);
    assert!(bus.is_key_pressed(4));
    run(&mut cpu, &mut bus, 2);
    assert_eq!(cpu.pc(), 0x206);
    let (mut cpu, mut bus) = machine(&[0x65, 0x04, 0xE5, 0xA1]);
    run(&mut cpu, &mut bus, 2);
    assert_eq!(cpu.pc(), 0x206);
}

#[test]
fn keys_outside_the_keypad_are_never_pressed() {
    let bus = Bus::new();
    assert!(!bus.is_key_pressed(16));
    assert!(!bus.is_key_pressed(0xFF));
    assert_eq!(bus.first_pressed_key(), None);
}

#[test]
fn timers_are_set_read_and_ticked() {
    let (mut cpu, mut bus) = machine(&[0x61, 0x03, 0xF1, 0x15, 0xF1, 0x18, 0xF2, 0x07]);
    run(&mut cpu, &mut bus, 3);
    assert_eq!(bus.get_delay_timer(), 3);
    assert_eq!(bus.get_sound_timer(), 3);
    bus.tick();
    run(&mut cpu, &mut bus, 1);
    assert_eq!(cpu.read_reg_vx(2), 2);
    bus.tick();
    bus.tick();
    bus.tick();
    assert_eq!(bus.get_delay_timer(), 0);
    assert_eq!(bus.get_sound_timer(), 0);
}

#[test]
fn store_bcd_writes_three_digits() {
    let (mut cpu, mut bus) = machine(&[0x64, 254, 0xA4, 0x00, 0xF4, 0x33]);
    run(&mut cpu, &mut bus, 3);
    assert_eq!(bus.ram_read_byte(0x400), 2);
    assert_eq!(bus.ram_read_byte(0x401), 5);
    assert_eq!(bus.ram_read_byte(0x402), 4);
    assert_eq!(cpu.index(), 0x400);
}

#[test]
fn font_address_and_add_index() {
    let (mut cpu, mut bus) = machine(&[0x6A, 0x0C, 0xFA, 0x29, 0xFA, 0x1E]);
    run(&mut cpu, &mut bus, 2);
    assert_eq!(cpu.index(), 60);
    assert_eq!(bus.ram_read_byte(60), 0xF0);
    assert_eq!(bus.ram_read_byte(61), 0x80);
    run(&mut cpu, &mut bus, 1);
    assert_eq!(cpu.index(), 72);
}

#[test]
fn jump_to_itself_is_a_no_progress_fault() {
    let (mut cpu, mut bus) = machine(&[0x12, 0x00]);
    run(&mut cpu, &mut bus, 1);
    assert_eq!(cpu.pc(), 0x200);
    assert_eq!(cpu.run_instruction(&mut bus), Err(Fault::NoProgress { pc: 0x200 }));
}

#[test]
fn fetch_past_memory_faults() {
    let (mut cpu, mut bus) = machine(&[0x1F, 0xFF]);
    run(&mut cpu, &mut bus, 1);
    assert_eq!(cpu.pc(), 0xFFF);
    assert_eq!(cpu.run_instruction(&mut bus), Err(Fault::AddressOutOfRange { address: 0x1000 }));
}

#[test]
fn block_store_past_memory_faults() {
    let (mut cpu, mut bus) = machine(&[0xAF, 0xFE, 0xF2, 0x55]);
    run(&mut cpu, &mut bus, 1);
    assert_eq!(cpu.run_instruction(&mut bus), Err(Fault::AddressOutOfRange { address: 0x1000 }));
    assert_eq!(bus.ram_read_byte(0xFFE), 0);
    assert_eq!(cpu.index(), 0xFFE);
}

#[test]
fn draw_past_memory_faults() {
    let (mut cpu, mut bus) = machine(&[0xAF, 0xFE, 0xD0, 0x03]);
    run(&mut cpu, &mut bus, 1);
    assert_eq!(cpu.run_instruction(&mut bus), Err(Fault::AddressOutOfRange { address: 0x1000 }));
}

#[test]
fn oversized_image_is_refused() {
    let mut bus = Bus::new();
    let image = vec![0xAAu8; 4096 - 0x200 + 1];
    assert_eq!(bus.load_program(&image), Err(Fault::ImageTooLarge { len: 3585 }));
    assert_eq!(bus.ram_read_byte(0x200), 0);
    let image = vec![0xAAu8; 4096 - 0x200];
    assert_eq!(bus.load_program(&image), Ok(()));
    assert_eq!(bus.ram_read_byte(0xFFF), 0xAA);
}

#[test]
fn new_machine_state() {
    let mut cpu = Cpu::new();
    let bus = Bus::new();
    assert_eq!(cpu.pc(), 0x200);
    assert_eq!(cpu.index(), 0);
    assert_eq!(cpu.stack_depth(), 0);
    assert_eq!(bus.ram_read_byte(0), 0xF0);
    assert_eq!(bus.ram_read_byte(79), 0x80);
    assert_eq!(bus.ram_read_byte(80), 0);
    cpu.write_reg_vx(7, 9);
    assert_eq!(cpu.read_reg_vx(7), 9);
}

#[test]
fn execute_a_decoded_instruction() {
    assert_eq!(decode(0x8AB4), Some(Instruction::Add { x: 0xA, y: 0xB }));
    assert_eq!(decode(0xD12F), Some(Instruction::Draw { x: 1, y: 2, n: 0xF }));
    assert_eq!(decode(0x2ABC), Some(Instruction::Call { addr: 0xABC }));
    assert_eq!(decode(0x5000), None);
    let mut cpu = Cpu::new();
    let mut bus = Bus::new();
    cpu.execute(&mut bus, Instruction::SetImm { x: 2, byte: 0x99 }).unwrap();
    assert_eq!(cpu.read_reg_vx(2), 0x99);
    assert_eq!(cpu.pc(), 0x202);
}
