use rum::instructions;
use rum::parser::parse;
use rum::um::Fault;
use rum::um::StepEffect;
use rum::um::UniversalMachine;

/// Encodes a register-operand instruction word.
fn word_r(opcode: u32, a: u32, b: u32, c: u32) -> u32 {
    (opcode << 28) | (a << 6) | (b << 3) | c
}

/// Encodes an immediate-load instruction word.
fn word_lv(reg: u32, value: u32) -> u32 {
    (13 << 28) | (reg << 25) | value
}

#[test]
fn new_machine_is_fresh() {
    let um = UniversalMachine::new();
    assert_eq!(um.program_counter, 0);
    assert_eq!(um.registers, vec![0; 8]);
    assert_eq!(um.mem_segs, vec![Vec::<u32>::new()]);
    assert_eq!(um.unmap_segs, Vec::<u32>::new());
    assert_eq!(um.mapped, vec![true]);
}

#[test]
fn load_val_sets_registers() {
    let mut um = UniversalMachine::new();
    instructions::load_val(&mut um, 0b_0000_0000_0000_0000_0000_0000_0000_0001);
    instructions::load_val(&mut um, 0b_0000_0110_0000_0000_0000_0000_0000_0011);
    instructions::load_val(&mut um, 0b_0000_1100_1111_1111_1111_1111_1111_1111);
    instructions::load_val(&mut um, 0b_0000_1111_1111_1111_1111_1111_1111_1111);
    assert_eq!(um.registers[0], 1);
    assert_eq!(um.registers[3], 3);
    assert_eq!(um.registers[6], 16777215);
    assert_eq!(um.registers[7], 33554431);
}

#[test]
fn cmov_moves_only_on_nonzero() {
    let mut um = UniversalMachine::new();
    um.registers[2] = 3;
    um.registers[3] = 1;
    instructions::cmov(&mut um, &1, &2, &3);
    assert_eq!(um.registers[1], 3);
    um.registers[4] = 0;
    um.registers[5] = 9;
    instructions::cmov(&mut um, &6, &5, &4);
    assert_eq!(um.registers[6], 0);
}

#[test]
fn add_wraps_modulo_2_32() {
    let mut um = UniversalMachine::new();
    um.registers[1] = u32::MAX;
    um.registers[2] = 1;
    instructions::add(&mut um, &0, &1, &2);
    assert_eq!(um.registers[0], 0);
}

#[test]
fn add_small_values() {
    let mut um = UniversalMachine::new();
    um.registers[1] = 1;
    um.registers[2] = 2;
    instructions::add(&mut um, &0, &1, &2);
    assert_eq!(um.registers[0], 3);
}

#[test]
fn mul_wraps_modulo_2_32() {
    let mut um = UniversalMachine::new();
    um.registers[1] = 0x10000;
    um.registers[2] = 0x10000;
    instructions::mul(&mut um, &0, &1, &2);
    assert_eq!(um.registers[0], 0);
}

#[test]
fn mul_small_values() {
    let mut um = UniversalMachine::new();
    um.registers[1] = 15;
    um.registers[2] = 15;
    instructions::mul(&mut um, &0, &1, &2);
    assert_eq!(um.registers[0], 225);
}

#[test]
fn div_computes_quotient() {
    let mut um = UniversalMachine::new();
    um.registers[1] = 15;
    um.registers[2] = 5;
    assert_eq!(instructions::div(&mut um, &0, &1, &2), Ok(()));
    assert_eq!(um.registers[0], 3);
}

#[test]
fn div_by_zero_is_fatal() {
    let mut um = UniversalMachine::new();
    um.registers[1] = 15;
    assert_eq!(instructions::div(&mut um, &0, &1, &2), Err(Fault::DivideByZero));
    assert_eq!(um.registers[0], 0);
}

#[test]
fn nand_bitwise() {
    let mut um = UniversalMachine::new();
    um.registers[1] = 0b1100;
    um.registers[2] = 0b1010;
    instructions::nand(&mut um, &0, &1, &2);
    assert_eq!(um.registers[0], !0b1000u32);
}

#[test]
fn allocate_returns_distinct_handles() {
    let mut um = UniversalMachine::new();
    um.registers[0] = 3;
    instructions::map_seg(&mut um, &1, &0);
    instructions::map_seg(&mut um, &2, &0);
    assert_ne!(um.registers[1], um.registers[2]);
    assert_eq!(um.mem_segs[um.registers[1] as usize].len(), 3);
    assert_eq!(um.mem_segs[um.registers[2] as usize].len(), 3);
}

#[test]
fn reuse_after_deallocate() {
    let mut um = UniversalMachine::new();
    um.registers[0] = 3;
    instructions::map_seg(&mut um, &1, &0);
    let h = um.registers[1];
    assert_eq!(instructions::unmap_seg(&mut um, &1), Ok(()));
    um.registers[0] = 5;
    instructions::map_seg(&mut um, &2, &0);
    assert_eq!(um.registers[2], h);
    assert_eq!(um.mem_segs[h as usize], vec![0; 5]);
}

#[test]
fn unmap_dead_handle_is_fatal() {
    let mut um = UniversalMachine::new();
    um.registers[0] = 5;
    assert_eq!(instructions::unmap_seg(&mut um, &0), Err(Fault::InvalidUnmap));
    um.registers[1] = 2;
    instructions::map_seg(&mut um, &2, &1);
    assert_eq!(instructions::unmap_seg(&mut um, &2), Ok(()));
    assert_eq!(instructions::unmap_seg(&mut um, &2), Err(Fault::InvalidUnmap));
}

#[test]
fn write_then_read_round_trip() {
    let mut um = UniversalMachine::new();
    um.registers[0] = 4;
    instructions::map_seg(&mut um, &1, &0);
    um.registers[2] = 3; // offset
    um.registers[3] = 77; // value
    assert_eq!(instructions::seg_store(&mut um, &1, &2, &3), Ok(()));
    assert_eq!(instructions::seg_load(&mut um, &4, &1, &2), Ok(()));
    assert_eq!(um.registers[4], 77);
}

#[test]
fn seg_load_dead_handle_is_fatal() {
    let mut um = UniversalMachine::new();
    um.registers[1] = 9;
    assert_eq!(instructions::seg_load(&mut um, &0, &1, &2), Err(Fault::OutOfRangeAccess));
}

#[test]
fn seg_load_out_of_range_offset_is_fatal() {
    let mut um = UniversalMachine::new();
    // handle 0 is live but empty, so offset 0 is already out of range
    assert_eq!(instructions::seg_load(&mut um, &0, &1, &2), Err(Fault::OutOfRangeAccess));
}

#[test]
fn seg_store_dead_handle_is_fatal() {
    let mut um = UniversalMachine::new();
    um.registers[1] = 9;
    assert_eq!(instructions::seg_store(&mut um, &1, &2, &3), Err(Fault::OutOfRangeAccess));
}

#[test]
fn output_returns_byte() {
    let mut um = UniversalMachine::new();
    um.registers[5] = 65;
    assert_eq!(instructions::output(&um, &5), Ok(65));
}

#[test]
fn output_over_255_is_fatal() {
    let mut um = UniversalMachine::new();
    um.registers[5] = 256;
    assert_eq!(instructions::output(&um, &5), Err(Fault::OutputOutOfRange));
}

#[test]
fn input_delivers_byte() {
    let mut um = UniversalMachine::new();
    instructions::input(&mut um, &4, Some(7));
    assert_eq!(um.registers[4], 7);
}

#[test]
fn input_end_of_stream_sets_all_ones() {
    let mut um = UniversalMachine::new();
    instructions::input(&mut um, &4, None);
    assert_eq!(um.registers[4], 0xFFFF_FFFF);
}

#[test]
fn immediate_load_then_output_prints_a() {
    let mut um = UniversalMachine::new();
    instructions::load_val(&mut um, 0b_0000_0000_0000_0000_0000_0000_0100_0001);
    let byte = instructions::output(&um, &0).unwrap();
    assert_eq!(byte as char, 'A');
}

#[test]
fn engine_outputs_a() {
    let mut um = UniversalMachine::new();
    um.mem_segs[0] = vec![word_lv(0, 65), word_r(10, 0, 0, 0), word_r(7, 0, 0, 0)];
    assert_eq!(parse(&mut um), Ok(StepEffect::Continue));
    assert_eq!(parse(&mut um), Ok(StepEffect::Output(65)));
    assert_eq!(parse(&mut um), Ok(StepEffect::Halted));
}

#[test]
fn engine_scenario_map_store_load() {
    let mut um = UniversalMachine::new();
    um.mem_segs[0] = vec![
        word_lv(1, 3),        // R1 := 3
        word_r(8, 0, 2, 1),   // map segment of R1 words, handle into R2
        word_r(2, 2, 0, 1),   // mem[R2][R0] := R1
        word_r(1, 3, 2, 0),   // R3 := mem[R2][R0]
        word_r(7, 0, 0, 0),   // halt
    ];
    for _ in 0..4 {
        assert_eq!(parse(&mut um), Ok(StepEffect::Continue));
    }
    assert_eq!(um.registers[3], 3);
    assert_eq!(parse(&mut um), Ok(StepEffect::Halted));
}

#[test]
fn load_prog_zero_is_plain_jump() {
    let mut um = UniversalMachine::new();
    let prog = vec![word_lv(2, 5), word_r(12, 0, 1, 2)]; // R1 == 0: jump to R2 == 5
    um.mem_segs[0] = prog.clone();
    assert_eq!(parse(&mut um), Ok(StepEffect::Continue));
    assert_eq!(parse(&mut um), Ok(StepEffect::Continue));
    assert_eq!(um.program_counter, 5);
    assert_eq!(um.mem_segs[0], prog);
}

#[test]
fn load_prog_copies_segment() {
    let mut um = UniversalMachine::new();
    um.mem_segs[0] = vec![word_r(7, 0, 0, 0)];
    um.registers[0] = 2;
    instructions::map_seg(&mut um, &1, &0); // two-word segment, handle in R1
    um.registers[2] = 0; // offset
    um.registers[3] = word_r(7, 0, 0, 0); // halt instruction
    assert_eq!(instructions::seg_store(&mut um, &1, &2, &3), Ok(()));
    um.registers[4] = 1; // new program counter
    assert_eq!(instructions::load_prog(&mut um, &1, &4), Ok(()));
    assert_eq!(um.mem_segs[0], vec![word_r(7, 0, 0, 0), 0]);
    assert_eq!(um.program_counter, 1);
    // the source segment is untouched
    assert_eq!(um.mem_segs[um.registers[1] as usize], vec![word_r(7, 0, 0, 0), 0]);
}

#[test]
fn load_prog_dead_handle_is_fatal() {
    let mut um = UniversalMachine::new();
    um.registers[1] = 9;
    assert_eq!(instructions::load_prog(&mut um, &1, &2), Err(Fault::OutOfRangeAccess));
}

#[test]
fn engine_input_at_end_of_stream() {
    let mut um = UniversalMachine::new();
    um.mem_segs[0] = vec![word_r(11, 0, 0, 4)];
    assert_eq!(parse(&mut um), Ok(StepEffect::AwaitInput(4)));
    // the driving loop saw end of stream
    instructions::input(&mut um, &4, None);
    assert_eq!(um.registers[4], 0xFFFF_FFFF);
}

#[test]
fn engine_unknown_opcode_is_fatal() {
    let mut um = UniversalMachine::new();
    um.mem_segs[0] = vec![word_r(14, 0, 0, 0)];
    assert_eq!(parse(&mut um), Err(Fault::UnknownOpcode));
}

#[test]
fn engine_pc_out_of_range_is_fatal() {
    let mut um = UniversalMachine::new();
    assert_eq!(parse(&mut um), Err(Fault::OutOfRangeAccess));
}

#[test]
fn engine_divide_by_zero_is_fatal() {
    let mut um = UniversalMachine::new();
    um.mem_segs[0] = vec![word_lv(1, 8), word_r(5, 0, 1, 2)];
    assert_eq!(parse(&mut um), Ok(StepEffect::Continue));
    assert_eq!(parse(&mut um), Err(Fault::DivideByZero));
}
