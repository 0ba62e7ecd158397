use chip8::{Fault, Opcode, Status, CPU};

fn pixel_count(cpu: &CPU) -> usize {
    cpu.screen.iter().filter(|&&p| p != 0).count()
}

#[test]
fn reset_state() {
    let cpu = CPU::new();
    assert_eq!(cpu.memory.len(), 4096);
    assert_eq!(&cpu.memory[0..5], &[0xF0, 0x90, 0x90, 0x90, 0xF0]);
    assert_eq!(&cpu.memory[75..80], &[0xF0, 0x80, 0xF0, 0x80, 0x80]);
    assert!(cpu.memory[80..].iter().all(|&b| b == 0));
    assert_eq!(cpu.registers, vec![0u8; 16]);
    assert_eq!(cpu.index_register, 0);
    assert_eq!(cpu.program_counter, 0x200);
    assert_eq!(cpu.screen, vec![0u8; 64 * 32]);
    assert_eq!(cpu.delay_timer, 0);
    assert_eq!(cpu.sound_timer, 0);
    assert_eq!(cpu.stack.len(), 16);
    assert_eq!(cpu.stack_ptr, 0);
    assert_eq!(cpu.keypad, vec![false; 16]);
    assert!(!cpu.draw_flag);
    assert!(!cpu.tone_active());
}

#[test]
fn add_with_carry_wraps_and_sets_flag() {
    let mut cpu = CPU::new();
    cpu.registers[3] = 0xFF;
    cpu.registers[4] = 0x01;
    assert_eq!(cpu.execute(Opcode::_8XY4(3, 4), 0), Ok(Status::Running));
    assert_eq!(cpu.registers[3], 0x00);
    assert_eq!(cpu.registers[0xF], 1);
    assert_eq!(cpu.program_counter, 0x202);
}

#[test]
fn add_without_carry_clears_flag() {
    let mut cpu = CPU::new();
    cpu.registers[3] = 0x10;
    cpu.registers[4] = 0x22;
    cpu.registers[0xF] = 1;
    assert_eq!(cpu.execute(Opcode::_8XY4(3, 4), 0), Ok(Status::Running));
    assert_eq!(cpu.registers[3], 0x32);
    assert_eq!(cpu.registers[0xF], 0);
}

#[test]
fn sub_with_borrow_wraps_and_clears_flag() {
    let mut cpu = CPU::new();
    cpu.registers[1] = 0x01;
    cpu.registers[2] = 0x02;
    cpu.registers[0xF] = 1;
    assert_eq!(cpu.execute(Opcode::_8XY5(1, 2), 0), Ok(Status::Running));
    assert_eq!(cpu.registers[1], 0xFF);
    assert_eq!(cpu.registers[0xF], 0);
}

#[test]
fn sub_without_borrow_sets_flag() {
    let mut cpu = CPU::new();
    cpu.registers[1] = 0x07;
    cpu.registers[2] = 0x07;
    assert_eq!(cpu.execute(Opcode::_8XY5(1, 2), 0), Ok(Status::Running));
    assert_eq!(cpu.registers[1], 0x00);
    assert_eq!(cpu.registers[0xF], 1);
}

#[test]
fn subn_subtracts_the_other_way() {
    let mut cpu = CPU::new();
    cpu.registers[1] = 0x02;
    cpu.registers[2] = 0x0A;
    assert_eq!(cpu.execute(Opcode::_8XY7(1, 2), 0), Ok(Status::Running));
    assert_eq!(cpu.registers[1], 0x08);
    assert_eq!(cpu.registers[0xF], 1);
    cpu.registers[1] = 0x0B;
    assert_eq!(cpu.execute(Opcode::_8XY7(1, 2), 0), Ok(Status::Running));
    assert_eq!(cpu.registers[1], 0xFF);
    assert_eq!(cpu.registers[0xF], 0);
}

#[test]
fn flag_is_written_last_when_the_target_is_vf() {
    let mut cpu = CPU::new();
    cpu.registers[0xF] = 0xF0;
    cpu.registers[1] = 0x20;
    assert_eq!(cpu.execute(Opcode::_8XY4(0xF, 1), 0), Ok(Status::Running));
    assert_eq!(cpu.registers[0xF], 1);
    cpu.registers[0xF] = 0x05;
    assert_eq!(cpu.execute(Opcode::_8XY5(0xF, 1), 0), Ok(Status::Running));
    assert_eq!(cpu.registers[0xF], 0);
}

#[test]
fn vf_as_operand_is_read_before_the_flag_is_written() {
    let mut cpu = CPU::new();
    cpu.registers[0xF] = 0x03;
    cpu.registers[2] = 0xFE;
    assert_eq!(cpu.execute(Opcode::_8XY4(2, 0xF), 0), Ok(Status::Running));
    assert_eq!(cpu.registers[2], 0x01);
    assert_eq!(cpu.registers[0xF], 1);
}

#[test]
fn shifts_take_their_source_from_vy() {
    let mut cpu = CPU::new();
    cpu.registers[1] = 0xAA;
    cpu.registers[2] = 0x05;
    assert_eq!(cpu.execute(Opcode::_8XY6(1, 2), 0), Ok(Status::Running));
    assert_eq!(cpu.registers[1], 0x02);
    assert_eq!(cpu.registers[2], 0x05);
    assert_eq!(cpu.registers[0xF], 1);
    cpu.registers[2] = 0x81;
    assert_eq!(cpu.execute(Opcode::_8XYE(1, 2), 0), Ok(Status::Running));
    assert_eq!(cpu.registers[1], 0x02);
    assert_eq!(cpu.registers[0xF], 1);
    cpu.registers[2] = 0x40;
    assert_eq!(cpu.execute(Opcode::_8XYE(1, 2), 0), Ok(Status::Running));
    assert_eq!(cpu.registers[1], 0x80);
    assert_eq!(cpu.registers[0xF], 0);
    cpu.registers[2] = 0x04;
    assert_eq!(cpu.execute(Opcode::_8XY6(1, 2), 0), Ok(Status::Running));
    assert_eq!(cpu.registers[1], 0x02);
    assert_eq!(cpu.registers[0xF], 0);
}

#[test]
fn loads_and_bitwise_operations() {
    let mut cpu = CPU::new();
    assert_eq!(cpu.execute(Opcode::_6XNN(1, 0xCC), 0), Ok(Status::Running));
    assert_eq!(cpu.execute(Opcode::_6XNN(2, 0xAA), 0), Ok(Status::Running));
    assert_eq!(cpu.execute(Opcode::_8XY0(3, 1), 0), Ok(Status::Running));
    assert_eq!(cpu.registers[3], 0xCC);
    assert_eq!(cpu.execute(Opcode::_8XY1(3, 2), 0), Ok(Status::Running));
    assert_eq!(cpu.registers[3], 0xEE);
    assert_eq!(cpu.execute(Opcode::_8XY2(3, 2), 0), Ok(Status::Running));
    assert_eq!(cpu.registers[3], 0xAA);
    assert_eq!(cpu.execute(Opcode::_8XY3(3, 1), 0), Ok(Status::Running));
    assert_eq!(cpu.registers[3], 0x66);
    assert_eq!(cpu.registers[0xF], 0);
    assert_eq!(cpu.program_counter, 0x200 + 2 * 6);
}

#[test]
fn add_immediate_wraps_and_leaves_the_flag() {
    let mut cpu = CPU::new();
    cpu.registers[5] = 0xFE;
    cpu.registers[0xF] = 7;
    assert_eq!(cpu.execute(Opcode::_7XNN(5, 0x03), 0), Ok(Status::Running));
    assert_eq!(cpu.registers[5], 0x01);
    assert_eq!(cpu.registers[0xF], 7);
}

#[test]
fn random_is_masked_by_the_immediate() {
    let mut cpu = CPU::new();
    assert_eq!(cpu.execute(Opcode::_CXNN(4, 0x0F), 0xA7), Ok(Status::Running));
    assert_eq!(cpu.registers[4], 0x07);
    assert_eq!(cpu.execute(Opcode::_CXNN(4, 0xF0), 0xA7), Ok(Status::Running));
    assert_eq!(cpu.registers[4], 0xA0);
    assert_eq!(cpu.execute(Opcode::_CXNN(4, 0xFF), 0x5A), Ok(Status::Running));
    assert_eq!(cpu.registers[4], 0x5A);
}

#[test]
fn call_then_return_restores_the_call_site_plus_two() {
    let mut cpu = CPU::new();
    assert_eq!(cpu.program_counter, 0x200);
    let depth = cpu.stack_ptr;
    assert_eq!(cpu.execute(Opcode::_2NNN(0x300), 0), Ok(Status::Running));
    assert_eq!(cpu.program_counter, 0x300);
    assert_eq!(cpu.stack_ptr, depth + 1);
    assert_eq!(cpu.stack[0], 0x202);
    assert_eq!(cpu.execute(Opcode::RET, 0), Ok(Status::Running));
    assert_eq!(cpu.program_counter, 0x202);
    assert_eq!(cpu.stack_ptr, depth);
}

#[test]
fn seventeenth_nested_call_overflows() {
    let mut cpu = CPU::new();
    for depth in 0..16u16 {
        assert_eq!(cpu.execute(Opcode::_2NNN(0x300 + 2 * depth), 0), Ok(Status::Running));
    }
    assert_eq!(cpu.stack_ptr, 16);
    let before = cpu.clone();
    assert_eq!(cpu.execute(Opcode::_2NNN(0x400), 0), Err(Fault::StackOverflow(0x31E)));
    assert_eq!(cpu, before);
}

#[test]
fn return_on_an_empty_stack_underflows() {
    let mut cpu = CPU::new();
    let before = cpu.clone();
    assert_eq!(cpu.execute(Opcode::RET, 0), Err(Fault::StackUnderflow(0x200)));
    assert_eq!(cpu, before);
}

#[test]
fn jumps_set_the_program_counter_without_advancing() {
    let mut cpu = CPU::new();
    assert_eq!(cpu.execute(Opcode::JP(0x456), 0), Ok(Status::Running));
    assert_eq!(cpu.program_counter, 0x456);
    cpu.registers[0] = 0x10;
    assert_eq!(cpu.execute(Opcode::_BNNN(0x300), 0), Ok(Status::Running));
    assert_eq!(cpu.program_counter, 0x310);
    cpu.registers[0] = 0xFF;
    assert_eq!(cpu.execute(Opcode::_BNNN(0xFFF), 0), Ok(Status::Running));
    assert_eq!(cpu.program_counter, 0x10FE);
}

#[test]
fn sys_only_advances() {
    let mut cpu = CPU::new();
    let mut expected = cpu.clone();
    expected.program_counter = 0x202;
    assert_eq!(cpu.execute(Opcode::SYS(0x123), 0), Ok(Status::Running));
    assert_eq!(cpu, expected);
}

#[test]
fn skips_advance_by_four_when_taken_and_two_otherwise() {
    let mut cpu = CPU::new();
    cpu.registers[1] = 0x42;
    cpu.registers[2] = 0x42;
    cpu.registers[3] = 0x43;
    assert_eq!(cpu.execute(Opcode::_3XNN(1, 0x42), 0), Ok(Status::Running));
    assert_eq!(cpu.program_counter, 0x204);
    assert_eq!(cpu.execute(Opcode::_3XNN(1, 0x41), 0), Ok(Status::Running));
    assert_eq!(cpu.program_counter, 0x206);
    assert_eq!(cpu.execute(Opcode::_4XNN(1, 0x41), 0), Ok(Status::Running));
    assert_eq!(cpu.program_counter, 0x20A);
    assert_eq!(cpu.execute(Opcode::_4XNN(1, 0x42), 0), Ok(Status::Running));
    assert_eq!(cpu.program_counter, 0x20C);
    assert_eq!(cpu.execute(Opcode::_5XY0(1, 2), 0), Ok(Status::Running));
    assert_eq!(cpu.program_counter, 0x210);
    assert_eq!(cpu.execute(Opcode::_5XY0(1, 3), 0), Ok(Status::Running));
    assert_eq!(cpu.program_counter, 0x212);
    assert_eq!(cpu.execute(Opcode::_9XY0(1, 3), 0), Ok(Status::Running));
    assert_eq!(cpu.program_counter, 0x216);
    assert_eq!(cpu.execute(Opcode::_9XY0(1, 2), 0), Ok(Status::Running));
    assert_eq!(cpu.program_counter, 0x218);
}

#[test]
fn key_skips_test_the_key_named_by_the_register() {
    let mut cpu = CPU::new();
    cpu.registers[1] = 0x0A;
    assert_eq!(cpu.execute(Opcode::_EX9E(1), 0), Ok(Status::Running));
    assert_eq!(cpu.program_counter, 0x202);
    assert_eq!(cpu.execute(Opcode::_EXA1(1), 0), Ok(Status::Running));
    assert_eq!(cpu.program_counter, 0x206);
    cpu.set_key(0x0A, true);
    assert_eq!(cpu.execute(Opcode::_EX9E(1), 0), Ok(Status::Running));
    assert_eq!(cpu.program_counter, 0x20A);
    assert_eq!(cpu.execute(Opcode::_EXA1(1), 0), Ok(Status::Running));
    assert_eq!(cpu.program_counter, 0x20C);
    cpu.registers[1] = 0x3A;
    assert_eq!(cpu.execute(Opcode::_EX9E(1), 0), Ok(Status::Running));
    assert_eq!(cpu.program_counter, 0x210);
}

#[test]
fn set_key_records_presses_and_ignores_keys_that_do_not_exist() {
    let mut cpu = CPU::new();
    cpu.set_key(3, true);
    assert!(cpu.keypad[3]);
    cpu.set_key(3, false);
    assert!(!cpu.keypad[3]);
    let before = cpu.clone();
    cpu.set_key(16, true);
    cpu.set_key(255, true);
    assert_eq!(cpu, before);
}

#[test]
fn key_wait_reports_waiting_until_a_key_is_down() {
    let mut cpu = CPU::new();
    let before = cpu.clone();
    assert_eq!(cpu.execute(Opcode::_FX0A(6), 0), Ok(Status::AwaitingKey(6)));
    assert_eq!(cpu, before);
    assert_eq!(cpu.execute(Opcode::_FX0A(6), 0), Ok(Status::AwaitingKey(6)));
    assert_eq!(cpu, before);
    cpu.set_key(0xC, true);
    cpu.set_key(0x9, true);
    assert_eq!(cpu.execute(Opcode::_FX0A(6), 0), Ok(Status::Running));
    assert_eq!(cpu.registers[6], 0x9);
    assert_eq!(cpu.program_counter, 0x202);
}

#[test]
fn key_wait_takes_key_zero() {
    let mut cpu = CPU::new();
    cpu.registers[2] = 0x77;
    cpu.set_key(0, true);
    assert_eq!(cpu.execute(Opcode::_FX0A(2), 0), Ok(Status::Running));
    assert_eq!(cpu.registers[2], 0);
}

#[test]
fn timers_are_read_and_written_through_registers() {
    let mut cpu = CPU::new();
    cpu.registers[1] = 0x33;
    cpu.registers[2] = 0x44;
    assert_eq!(cpu.execute(Opcode::_FX15(1), 0), Ok(Status::Running));
    assert_eq!(cpu.execute(Opcode::_FX18(2), 0), Ok(Status::Running));
    assert_eq!(cpu.delay_timer, 0x33);
    assert_eq!(cpu.sound_timer, 0x44);
    assert!(cpu.tone_active());
    assert_eq!(cpu.execute(Opcode::_FX07(5), 0), Ok(Status::Running));
    assert_eq!(cpu.registers[5], 0x33);
    assert_eq!(cpu.program_counter, 0x206);
}

#[test]
fn index_instructions() {
    let mut cpu = CPU::new();
    assert_eq!(cpu.execute(Opcode::LD_I(0xABC), 0), Ok(Status::Running));
    assert_eq!(cpu.index_register, 0xABC);
    cpu.registers[1] = 0x10;
    cpu.registers[0xF] = 9;
    assert_eq!(cpu.execute(Opcode::_FX1E(1), 0), Ok(Status::Running));
    assert_eq!(cpu.index_register, 0xACC);
    assert_eq!(cpu.registers[0xF], 9);
    cpu.index_register = 0xFFFF;
    assert_eq!(cpu.execute(Opcode::_FX1E(1), 0), Ok(Status::Running));
    assert_eq!(cpu.index_register, 0x000F);
    cpu.registers[2] = 0x0A;
    assert_eq!(cpu.execute(Opcode::_FX29(2), 0), Ok(Status::Running));
    assert_eq!(cpu.index_register, 50);
    cpu.registers[2] = 0xFF;
    assert_eq!(cpu.execute(Opcode::_FX29(2), 0), Ok(Status::Running));
    assert_eq!(cpu.index_register, 75);
    cpu.registers[2] = 0x00;
    assert_eq!(cpu.execute(Opcode::_FX29(2), 0), Ok(Status::Running));
    assert_eq!(cpu.index_register, 0);
}

#[test]
fn decimal_digits_are_stored_without_moving_the_index() {
    let mut cpu = CPU::new();
    cpu.registers[4] = 254;
    cpu.index_register = 0x300;
    assert_eq!(cpu.execute(Opcode::_FX33(4), 0), Ok(Status::Running));
    assert_eq!(&cpu.memory[0x300..0x303], &[2, 5, 4]);
    assert_eq!(cpu.index_register, 0x300);
    cpu.registers[4] = 7;
    cpu.index_register = 4093;
    assert_eq!(cpu.execute(Opcode::_FX33(4), 0), Ok(Status::Running));
    assert_eq!(&cpu.memory[4093..4096], &[0, 0, 7]);
}

#[test]
fn decimal_digits_past_the_end_of_memory_fault() {
    let mut cpu = CPU::new();
    cpu.registers[4] = 123;
    cpu.index_register = 4094;
    let before = cpu.clone();
    assert_eq!(cpu.execute(Opcode::_FX33(4), 0), Err(Fault::MemoryOutOfBounds(0x200)));
    assert_eq!(cpu, before);
}

#[test]
fn registers_are_stored_and_loaded_inclusively() {
    let mut cpu = CPU::new();
    for r in 0..16usize {
        cpu.registers[r] = 0x10 + r as u8;
    }
    cpu.index_register = 0x400;
    assert_eq!(cpu.execute(Opcode::_FX55(3), 0), Ok(Status::Running));
    assert_eq!(&cpu.memory[0x400..0x405], &[0x10, 0x11, 0x12, 0x13, 0x00]);
    assert_eq!(cpu.index_register, 0x400);
    cpu.memory[0x500] = 0xA0;
    cpu.memory[0x501] = 0xA1;
    cpu.memory[0x502] = 0xA2;
    cpu.index_register = 0x500;
    assert_eq!(cpu.execute(Opcode::_FX65(1), 0), Ok(Status::Running));
    assert_eq!(&cpu.registers[0..4], &[0xA0, 0xA1, 0x12, 0x13]);
    assert_eq!(cpu.index_register, 0x500);
    cpu.index_register = 4080;
    assert_eq!(cpu.execute(Opcode::_FX55(0xF), 0), Ok(Status::Running));
    assert_eq!(cpu.memory[4080], 0xA0);
    assert_eq!(cpu.memory[4095], 0x1F);
}

#[test]
fn register_blocks_past_the_end_of_memory_fault() {
    let mut cpu = CPU::new();
    cpu.index_register = 4090;
    let before = cpu.clone();
    assert_eq!(cpu.execute(Opcode::_FX55(6), 0), Err(Fault::MemoryOutOfBounds(0x200)));
    assert_eq!(cpu, before);
    assert_eq!(cpu.execute(Opcode::_FX65(6), 0), Err(Fault::MemoryOutOfBounds(0x200)));
    assert_eq!(cpu, before);
    assert_eq!(cpu.execute(Opcode::_FX55(5), 0), Ok(Status::Running));
    assert_eq!(cpu.execute(Opcode::_FX65(5), 0), Ok(Status::Running));
}

#[test]
fn drawing_glyph_zero_twice_clears_it_and_collides() {
    let mut cpu = CPU::new();
    cpu.registers[1] = 10;
    cpu.registers[2] = 7;
    cpu.index_register = 0;
    assert_eq!(cpu.execute(Opcode::_DXYN(1, 2, 5), 0), Ok(Status::Running));
    assert_eq!(cpu.registers[0xF], 0);
    assert!(cpu.draw_flag);
    let rows: [u8; 5] = [0xF0, 0x90, 0x90, 0x90, 0xF0];
    for (row, bits) in rows.iter().enumerate() {
        for col in 0..8usize {
            let on = bits & (0x80 >> col) != 0;
            assert_eq!(cpu.pixel(10 + col, 7 + row), on);
        }
    }
    assert_eq!(pixel_count(&cpu), 14);
    assert!(cpu.take_draw_flag());
    assert!(!cpu.draw_flag);
    assert_eq!(cpu.execute(Opcode::_DXYN(1, 2, 5), 0), Ok(Status::Running));
    assert_eq!(cpu.registers[0xF], 1);
    assert_eq!(cpu.screen, vec![0u8; 64 * 32]);
    assert!(cpu.draw_flag);
    assert_eq!(cpu.program_counter, 0x204);
}

#[test]
fn drawing_wraps_the_origin_and_the_edges() {
    let mut cpu = CPU::new();
    cpu.memory[0x300] = 0xFF;
    cpu.memory[0x301] = 0x81;
    cpu.index_register = 0x300;
    cpu.registers[0] = 64 + 60;
    cpu.registers[1] = 32 + 31;
    assert_eq!(cpu.execute(Opcode::_DXYN(0, 1, 2), 0), Ok(Status::Running));
    assert_eq!(cpu.registers[0xF], 0);
    for x in [60usize, 61, 62, 63, 0, 1, 2, 3] {
        assert!(cpu.pixel(x, 31));
    }
    assert!(cpu.pixel(60, 0));
    assert!(cpu.pixel(3, 0));
    assert!(!cpu.pixel(61, 0));
    assert!(!cpu.pixel(0, 0));
    assert_eq!(pixel_count(&cpu), 10);
}

#[test]
fn partial_overlap_collides_and_xors() {
    let mut cpu = CPU::new();
    cpu.memory[0x300] = 0b1100_0000;
    cpu.memory[0x301] = 0b0110_0000;
    cpu.index_register = 0x300;
    assert_eq!(cpu.execute(Opcode::_DXYN(0, 0, 1), 0), Ok(Status::Running));
    assert_eq!(cpu.registers[0xF], 0);
    cpu.index_register = 0x301;
    assert_eq!(cpu.execute(Opcode::_DXYN(0, 0, 1), 0), Ok(Status::Running));
    assert_eq!(cpu.registers[0xF], 1);
    assert!(cpu.pixel(0, 0));
    assert!(!cpu.pixel(1, 0));
    assert!(cpu.pixel(2, 0));
    cpu.memory[0x302] = 0b0001_0000;
    cpu.index_register = 0x302;
    assert_eq!(cpu.execute(Opcode::_DXYN(0, 0, 1), 0), Ok(Status::Running));
    assert_eq!(cpu.registers[0xF], 0);
    assert_eq!(pixel_count(&cpu), 3);
}

#[test]
fn drawing_no_rows_paints_nothing_but_flags_redraw() {
    let mut cpu = CPU::new();
    cpu.registers[0xF] = 1;
    cpu.index_register = 0xFFFF;
    assert_eq!(cpu.execute(Opcode::_DXYN(0, 0, 0), 0), Ok(Status::Running));
    assert_eq!(cpu.registers[0xF], 0);
    assert_eq!(cpu.screen, vec![0u8; 64 * 32]);
    assert!(cpu.draw_flag);
}

#[test]
fn sprite_past_the_end_of_memory_faults() {
    let mut cpu = CPU::new();
    cpu.index_register = 4092;
    let before = cpu.clone();
    assert_eq!(cpu.execute(Opcode::_DXYN(0, 0, 5), 0), Err(Fault::MemoryOutOfBounds(0x200)));
    assert_eq!(cpu, before);
    assert_eq!(cpu.execute(Opcode::_DXYN(0, 0, 4), 0), Ok(Status::Running));
}

#[test]
fn clear_blanks_the_screen_and_flags_redraw() {
    let mut cpu = CPU::new();
    cpu.index_register = 5;
    assert_eq!(cpu.execute(Opcode::_DXYN(0, 0, 5), 0), Ok(Status::Running));
    assert!(pixel_count(&cpu) > 0);
    assert!(cpu.take_draw_flag());
    assert_eq!(cpu.execute(Opcode::CLS, 0), Ok(Status::Running));
    assert_eq!(cpu.screen, vec![0u8; 64 * 32]);
    assert!(cpu.draw_flag);
    assert_eq!(cpu.program_counter, 0x204);
}

#[test]
fn program_counter_wraps_in_sixteen_bits() {
    let mut cpu = CPU::new();
    cpu.program_counter = 0xFFFE;
    assert_eq!(cpu.execute(Opcode::_6XNN(0, 1), 0), Ok(Status::Running));
    assert_eq!(cpu.program_counter, 0x0000);
    cpu.program_counter = 0xFFFE;
    assert_eq!(cpu.execute(Opcode::_3XNN(0, 1), 0), Ok(Status::Running));
    assert_eq!(cpu.program_counter, 0x0002);
}

#[test]
fn draw_sprite_flips_pixels_and_reports_collision() {
    let mut screen = vec![0u8; 64 * 32];
    let mut memory = vec![0u8; 4096];
    memory[0x210] = 0b1010_0000;
    memory[0x211] = 0b0000_0001;
    screen[3 * 64 + 5] = 1;
    assert!(!chip8::display::draw_sprite(&mut screen, &memory, 0x210, 2, 6, 3));
    let mut expected = vec![0u8; 64 * 32];
    expected[3 * 64 + 5] = 1;
    expected[3 * 64 + 6] = 1;
    expected[3 * 64 + 8] = 1;
    expected[4 * 64 + 13] = 1;
    assert_eq!(screen, expected);
    assert!(chip8::display::draw_sprite(&mut screen, &memory, 0x210, 1, 4, 3));
    expected[3 * 64 + 4] = 1;
    expected[3 * 64 + 6] = 0;
    assert_eq!(screen, expected);
    assert!(!chip8::display::draw_sprite(&mut screen, &memory, 0x300, 15, 0, 0));
    assert_eq!(screen, expected);
}
