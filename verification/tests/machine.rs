use chip8::{CapacityExceeded, Fault, Interpreter};

fn machine_with(opcodes: &[u16]) -> Interpreter {
    let mut interpreter = Interpreter::new();
    let mut program: Vec<u8> = Vec::new();
    for opcode in opcodes {
        program.push((opcode >> 8) as u8);
        program.push((opcode & 0xFF) as u8);
    }
    interpreter.load_program(&program).unwrap();
    interpreter
}

fn framebuffer(interpreter: &Interpreter) -> Vec<u8> {
    interpreter.memory[0xF00..0x1000].to_vec()
}

#[test]
fn new_machine_is_zeroed_behind_the_font() {
    let interpreter = Interpreter::new();
    assert_eq!(interpreter.memory[0], 0xF0);
    assert_eq!(interpreter.memory[79], 0x80);
    assert!(interpreter.memory[80..].iter().all(|&b| b == 0));
    assert_eq!(interpreter.registers, [0u8; 16]);
    assert_eq!(interpreter.index_register, 0);
    assert_eq!(interpreter.program_counter, 0x200);
}

#[test]
fn loaded_program_reads_back_verbatim() {
    let mut interpreter = Interpreter::new();
    let program: Vec<u8> = (0..300u32).map(|i| (i % 251) as u8 + 1).collect();
    let before = interpreter;
    assert_eq!(interpreter.load_program(&program), Ok(()));
    assert_eq!(&interpreter.memory[0x200..0x200 + 300], &program[..]);
    assert_eq!(&interpreter.memory[..0x200], &before.memory[..0x200]);
    assert_eq!(&interpreter.memory[0x200 + 300..], &before.memory[0x200 + 300..]);
    assert_eq!(interpreter.registers, before.registers);
    assert_eq!(interpreter.index_register, before.index_register);
    assert_eq!(interpreter.program_counter, 0x200);
}

#[test]
fn empty_program_loads_and_changes_nothing() {
    let mut interpreter = Interpreter::new();
    let before = interpreter;
    assert_eq!(interpreter.load_program(&[]), Ok(()));
    assert_eq!(interpreter.memory, before.memory);
}

#[test]
fn full_size_program_fills_the_region_to_the_end() {
    let mut interpreter = Interpreter::new();
    let program = vec![0xABu8; 3584];
    assert_eq!(interpreter.load_program(&program), Ok(()));
    assert_eq!(interpreter.memory[0x200], 0xAB);
    assert_eq!(interpreter.memory[0xFFF], 0xAB);
    assert_eq!(interpreter.memory[0x1FF], 0x00);
}

#[test]
fn oversized_program_is_refused_and_leaves_state_unchanged() {
    let mut interpreter = machine_with(&[0x6012]);
    interpreter.registers[3] = 7;
    let before = interpreter;
    let program = vec![0xFFu8; 3585];
    assert_eq!(
        interpreter.load_program(&program),
        Err(CapacityExceeded { requested: 3585, available: 3584 })
    );
    assert_eq!(interpreter.memory, before.memory);
    assert_eq!(interpreter.registers, before.registers);
    assert_eq!(interpreter.index_register, before.index_register);
    assert_eq!(interpreter.program_counter, before.program_counter);
}

#[test]
fn clear_screen_touches_only_the_framebuffer() {
    let mut interpreter = machine_with(&[0x00E0]);
    for i in 0xF00..0x1000 {
        interpreter.memory[i] = (i % 256) as u8 | 1;
    }
    interpreter.registers[5] = 0x55;
    interpreter.index_register = 0x123;
    let before = interpreter;
    interpreter.execute_cycle();
    assert_eq!(framebuffer(&interpreter), vec![0u8; 256]);
    assert_eq!(&interpreter.memory[..0xF00], &before.memory[..0xF00]);
    assert_eq!(interpreter.registers, before.registers);
    assert_eq!(interpreter.index_register, 0x123);
    assert_eq!(interpreter.program_counter, 0x202);
}

#[test]
fn jump_changes_only_the_program_counter() {
    let mut interpreter = machine_with(&[0x1ABC]);
    interpreter.registers[2] = 9;
    let before = interpreter;
    interpreter.execute_cycle();
    assert_eq!(interpreter.program_counter, 0x0ABC);
    assert_eq!(interpreter.memory, before.memory);
    assert_eq!(interpreter.registers, before.registers);
    assert_eq!(interpreter.index_register, before.index_register);
}

#[test]
fn skips_compare_registers_without_changing_them() {
    let cases: [(u16, u8, u8, u16); 6] = [
        (0x3A42, 0x42, 0x00, 0x204),
        (0x3A42, 0x41, 0x00, 0x202),
        (0x4A42, 0x41, 0x00, 0x204),
        (0x4A42, 0x42, 0x00, 0x202),
        (0x5AB0, 0x17, 0x17, 0x204),
        (0x5AB0, 0x17, 0x18, 0x202),
    ];
    for (opcode, va, vb, expected) in cases {
        let mut interpreter = machine_with(&[opcode]);
        interpreter.registers[0xA] = va;
        interpreter.registers[0xB] = vb;
        let before = interpreter;
        interpreter.execute_cycle();
        assert_eq!(interpreter.program_counter, expected);
        assert_eq!(interpreter.registers, before.registers);
        assert_eq!(interpreter.memory, before.memory);
    }
}

#[test]
fn load_immediate_changes_exactly_one_register() {
    let mut interpreter = machine_with(&[0x67FE]);
    for r in 0..16 {
        interpreter.registers[r] = r as u8 + 1;
    }
    let before = interpreter;
    interpreter.execute_cycle();
    for r in 0..16 {
        if r == 7 {
            assert_eq!(interpreter.registers[r], 0xFE);
        } else {
            assert_eq!(interpreter.registers[r], before.registers[r]);
        }
    }
    assert_eq!(interpreter.memory, before.memory);
    assert_eq!(interpreter.program_counter, 0x202);
}

#[test]
fn add_immediate_wraps_at_256() {
    let mut interpreter = machine_with(&[0x7102, 0x71FF]);
    interpreter.registers[1] = 0xFF;
    interpreter.execute_cycle();
    assert_eq!(interpreter.registers[1], 0x01);
    assert_eq!(interpreter.program_counter, 0x202);
    interpreter.execute_cycle();
    assert_eq!(interpreter.registers[1], 0x00);
    assert_eq!(interpreter.program_counter, 0x204);
}

#[test]
fn bitwise_instructions_leave_vy_alone() {
    let cases: [(u16, u8); 3] = [(0x8121, 0xFC), (0x8122, 0xC0), (0x8123, 0x3C)];
    for (opcode, expected) in cases {
        let mut interpreter = machine_with(&[opcode]);
        interpreter.registers[1] = 0xCC;
        interpreter.registers[2] = 0xF0;
        interpreter.execute_cycle();
        assert_eq!(interpreter.registers[1], expected);
        assert_eq!(interpreter.registers[2], 0xF0);
        assert_eq!(interpreter.program_counter, 0x202);
    }
}

#[test]
fn xor_of_a_register_with_itself_clears_it() {
    let mut interpreter = machine_with(&[0x8443]);
    interpreter.registers[4] = 0x5A;
    interpreter.execute_cycle();
    assert_eq!(interpreter.registers[4], 0x00);
}

#[test]
fn set_index_keeps_twelve_bits() {
    let mut interpreter = machine_with(&[0xAFFF]);
    interpreter.execute_cycle();
    assert_eq!(interpreter.index_register, 0x0FFF);
    assert_eq!(interpreter.program_counter, 0x202);
}

#[test]
fn drawing_glyph_zero_sets_no_collision() {
    let mut interpreter = machine_with(&[0xD015]);
    interpreter.registers[0xF] = 0x77;
    interpreter.execute_cycle();
    let screen = framebuffer(&interpreter);
    assert_eq!(screen[0], 0xF0);
    assert_eq!(screen[8], 0x90);
    assert_eq!(screen[16], 0x90);
    assert_eq!(screen[24], 0x90);
    assert_eq!(screen[32], 0xF0);
    assert_eq!(screen.iter().filter(|&&b| b != 0).count(), 5);
    assert_eq!(interpreter.registers[0xF], 0);
    assert_eq!(interpreter.program_counter, 0x202);
}

#[test]
fn drawing_at_column_four_shifts_within_the_byte() {
    let mut interpreter = machine_with(&[0xD015]);
    interpreter.registers[0] = 4;
    interpreter.execute_cycle();
    let screen = framebuffer(&interpreter);
    for (row, expected) in [0x0Fu8, 0x09, 0x09, 0x09, 0x0F].iter().enumerate() {
        assert_eq!(screen[row * 8], *expected);
        assert_eq!(screen[row * 8 + 1], 0x00);
    }
}

#[test]
fn drawing_at_column_six_straddles_two_bytes() {
    let mut interpreter = machine_with(&[0xD015]);
    interpreter.registers[0] = 6;
    interpreter.execute_cycle();
    let screen = framebuffer(&interpreter);
    for (row, expected) in [(0x03u8, 0xC0u8), (0x02, 0x40), (0x02, 0x40), (0x02, 0x40), (0x03, 0xC0)]
        .iter()
        .enumerate()
    {
        assert_eq!(screen[row * 8], expected.0);
        assert_eq!(screen[row * 8 + 1], expected.1);
    }
    assert_eq!(interpreter.registers[0xF], 0);
}

#[test]
fn drawing_twice_restores_the_framebuffer_and_reports_collision() {
    let mut interpreter = machine_with(&[0xD125, 0xD125]);
    interpreter.registers[1] = 13;
    interpreter.registers[2] = 7;
    interpreter.memory[0xF40] = 0x01;
    let before = framebuffer(&interpreter);
    interpreter.execute_cycle();
    assert_ne!(framebuffer(&interpreter), before);
    assert_eq!(interpreter.registers[0xF], 0);
    interpreter.execute_cycle();
    assert_eq!(framebuffer(&interpreter), before);
    assert_ne!(interpreter.registers[0xF], 0);
    assert_eq!(interpreter.program_counter, 0x204);
}

#[test]
fn collision_flag_holds_the_overlapping_bits() {
    let mut interpreter = machine_with(&[0xD015]);
    interpreter.memory[0xF00] = 0x80;
    interpreter.memory[0xF08] = 0x10;
    interpreter.execute_cycle();
    assert_eq!(interpreter.registers[0xF], 0x90);
    assert_eq!(interpreter.memory[0xF00], 0x70);
    assert_eq!(interpreter.memory[0xF08], 0x80);
}

#[test]
fn rows_wrap_from_the_bottom_to_the_top() {
    let mut interpreter = machine_with(&[0xD125]);
    interpreter.registers[1] = 0;
    interpreter.registers[2] = 30;
    assert_eq!(interpreter.fault(), None);
    interpreter.execute_cycle();
    let screen = framebuffer(&interpreter);
    assert_eq!(screen[30 * 8], 0xF0);
    assert_eq!(screen[31 * 8], 0x90);
    assert_eq!(screen[0], 0x90);
    assert_eq!(screen[8], 0x90);
    assert_eq!(screen[16], 0xF0);
    assert_eq!(screen.iter().filter(|&&b| b != 0).count(), 5);
    assert_eq!(interpreter.registers[0xF], 0);
}

#[test]
fn coordinates_wrap_at_the_start_of_the_sprite() {
    let mut interpreter = machine_with(&[0xD125]);
    interpreter.registers[1] = 64 + 8;
    interpreter.registers[2] = 32 + 1;
    interpreter.execute_cycle();
    let screen = framebuffer(&interpreter);
    assert_eq!(screen[8 + 1], 0xF0);
    assert_eq!(screen[16 + 1], 0x90);
    assert_eq!(screen[40 + 1], 0xF0);
}

#[test]
fn straddling_byte_in_the_last_column_lands_in_the_next_row() {
    let mut interpreter = machine_with(&[0xD121]);
    interpreter.index_register = 0x300;
    interpreter.memory[0x300] = 0xFF;
    interpreter.registers[1] = 60;
    interpreter.registers[2] = 0;
    interpreter.execute_cycle();
    assert_eq!(interpreter.memory[0xF07], 0x0F);
    assert_eq!(interpreter.memory[0xF08], 0xF0);
}

#[test]
fn empty_low_part_is_not_written_at_the_end_of_memory() {
    let mut interpreter = machine_with(&[0xD121]);
    interpreter.index_register = 0x300;
    interpreter.memory[0x300] = 0xF0;
    interpreter.registers[1] = 60;
    interpreter.registers[2] = 31;
    assert_eq!(interpreter.fault(), None);
    interpreter.execute_cycle();
    assert_eq!(interpreter.memory[0xFFF], 0x0F);
    assert_eq!(interpreter.registers[0xF], 0);
    assert_eq!(interpreter.program_counter, 0x202);
}

#[test]
fn low_part_past_the_end_of_memory_is_a_fault() {
    let mut interpreter = machine_with(&[0xD121]);
    interpreter.index_register = 0x300;
    interpreter.memory[0x300] = 0xFF;
    interpreter.registers[1] = 60;
    interpreter.registers[2] = 31;
    let before = interpreter;
    assert_eq!(interpreter.fault(), Some(Fault::DrawOutOfBounds));
    assert_eq!(interpreter.memory, before.memory);
    assert_eq!(interpreter.registers, before.registers);
}

#[test]
fn sprite_source_past_the_end_of_memory_is_a_fault() {
    let mut interpreter = machine_with(&[0xD005]);
    interpreter.index_register = 0xFFC;
    assert_eq!(interpreter.fault(), Some(Fault::DrawOutOfBounds));
    interpreter.index_register = 0xFFB;
    assert_eq!(interpreter.fault(), None);
}

#[test]
fn sprite_of_no_rows_only_resets_the_flag() {
    let mut interpreter = machine_with(&[0xD120]);
    interpreter.registers[0xF] = 1;
    interpreter.index_register = 0xFFFF;
    let before = interpreter;
    assert_eq!(interpreter.fault(), None);
    interpreter.execute_cycle();
    assert_eq!(interpreter.memory, before.memory);
    assert_eq!(interpreter.registers[0xF], 0);
    assert_eq!(interpreter.program_counter, 0x202);
}

#[test]
fn unsupported_opcodes_are_faults() {
    for opcode in [0x0000u16, 0x00EE, 0x2123, 0x5121, 0x8124, 0x812E, 0x9120, 0xB123, 0xC1FF, 0xE19E, 0xF107] {
        let interpreter = machine_with(&[opcode]);
        assert_eq!(interpreter.fault(), Some(Fault::UnsupportedOpcode(opcode)));
    }
}

#[test]
fn supported_opcodes_are_no_faults() {
    for opcode in [0x00E0u16, 0x1200, 0x3000, 0x4000, 0x5120, 0x6000, 0x7000, 0x8120, 0x8121, 0x8122, 0x8123, 0xA000, 0xD005] {
        let interpreter = machine_with(&[opcode]);
        assert_eq!(interpreter.fault(), None);
    }
}

#[test]
fn program_counter_at_the_last_byte_is_a_fault() {
    let mut interpreter = machine_with(&[0x1FFF]);
    interpreter.execute_cycle();
    assert_eq!(interpreter.program_counter, 0xFFF);
    assert_eq!(interpreter.fault(), Some(Fault::FetchOutOfBounds));
    interpreter.program_counter = 0xFFE;
    interpreter.memory[0xFFE] = 0x12;
    interpreter.memory[0xFFF] = 0x00;
    assert_eq!(interpreter.fault(), None);
    interpreter.execute_cycle();
    assert_eq!(interpreter.program_counter, 0x200);
}

#[test]
fn sprite_drawn_from_the_framebuffer_reads_what_earlier_rows_left() {
    let mut interpreter = machine_with(&[0xD002]);
    interpreter.index_register = 0xF00;
    interpreter.memory[0xF00] = 0xAA;
    interpreter.memory[0xF01] = 0x55;
    interpreter.execute_cycle();
    assert_eq!(interpreter.memory[0xF00], 0x00);
    assert_eq!(interpreter.memory[0xF08], 0x55);
    assert_eq!(interpreter.registers[0xF], 0xAA);
}

#[test]
fn drawing_glyph_zero_twice_clears_it_and_sets_the_flag() {
    let mut interpreter = machine_with(&[0xD015, 0xD015]);
    interpreter.execute_cycle();
    assert_eq!(interpreter.registers[0xF], 0);
    assert_eq!(&interpreter.memory[0xF00..0xF01], &[0xF0]);
    interpreter.execute_cycle();
    assert_eq!(framebuffer(&interpreter), vec![0u8; 256]);
    assert_ne!(interpreter.registers[0xF], 0);
    assert_eq!(interpreter.program_counter, 0x204);
}

#[test]
fn collision_flag_is_overwritten_by_each_draw() {
    let mut interpreter = machine_with(&[0xD015, 0xD015, 0xD015]);
    interpreter.execute_cycle();
    interpreter.execute_cycle();
    assert_eq!(interpreter.registers[0xF], 0xF0);
    interpreter.execute_cycle();
    assert_eq!(interpreter.registers[0xF], 0);
}
