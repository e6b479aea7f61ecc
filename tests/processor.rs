use whip8::bcd::to_bcd;
use whip8::processor::{Processor, ProcessorError, HEX_SPRITE_STRIDE};
use whip8::registers::Flag;
use whip8::types::{Address, GeneralRegister};

const BCD_INPUT_BYTES: [u8; 12] = [0, 1, 9, 10, 42, 99, 100, 101, 128, 199, 200, 255];
const BCD_OUTPUT_DIGITS: [[u8; 3]; 12] = [
    [0, 0, 0],
    [0, 0, 1],
    [0, 0, 9],
    [0, 1, 0],
    [0, 4, 2],
    [0, 9, 9],
    [1, 0, 0],
    [1, 0, 1],
    [1, 2, 8],
    [1, 9, 9],
    [2, 0, 0],
    [2, 5, 5],
];

fn all_registers() -> Vec<GeneralRegister> {
    (0..16u8).map(GeneralRegister::from_index).collect()
}


#[test]
fn test_to_bcd() {
    for (test_byte, expected_bytes) in BCD_INPUT_BYTES
        .into_iter()
        .zip(BCD_OUTPUT_DIGITS.into_iter())
    {
        assert_eq!(to_bcd(test_byte), expected_bytes);
    }
}

#[test]
fn test_pc_advances() {
    let mut proc = Processor::new(vec![]).unwrap();
    let initial_pc = proc.program_counter;
    let num_cycles = 3;
    for _ in 0..num_cycles {
        proc.step().unwrap();
    }

    assert_eq!(
        proc.program_counter,
        Address::from((num_cycles * 2) + u16::from(initial_pc))
    );
}

#[test]
fn test_invalid_instruction() {
    let mut proc = Processor::new(vec![0xF0_u8, 0x01_u8]).unwrap();
    assert!(matches!(
        proc.step(),
        Err(ProcessorError::DecodeFailure { .. })
    ));
}

#[test]
fn processor_test_sys() {
    // The SYS instruction is 0x0nnn, and should be ignored
    let mut proc = Processor::new(vec![0x00, 0x00]).unwrap();
    proc.step().unwrap();
}

#[test]
fn test_return() {
    let mut proc = Processor::new(vec![
        0x00, 0x00, // empty      : addr 0x200
        0x22, 0x06, // call 0x206 : addr 0x202
        0x00, 0x00, // empty      : addr 0x204
        0x00, 0xEE, // return     : addr 0x206
    ])
    .unwrap();

    // step once so we get a nonzero pc
    proc.step().unwrap();

    // execute the call
    proc.step().unwrap();

    assert_eq!(proc.program_counter, Address::from(0x206));
    assert_eq!(proc.stack_pointer, 1);

    // execute the return
    proc.step().unwrap();

    assert_eq!(proc.program_counter, Address::from(0x204)); // one past call site
    assert_eq!(proc.stack_pointer, 0);
}

#[test]
fn test_stack_underflow() {
    let mut proc = Processor::new(vec![
        0x00, 0x00, // empty      : addr 0x200
        0x00, 0xEE, // return     : addr 0x202
    ])
    .unwrap();

    // step once so we get a nonzero pc
    proc.step().unwrap();

    // return with empty call stack
    let result = proc.step();

    assert_eq!(
        result,
        Err(ProcessorError::StackUnderflow {
            address: Address::from(0x202)
        })
    );
}

#[test]
fn test_jump() {
    let mut proc = Processor::new(vec![0x1A, 0xAA]).unwrap();
    proc.step().unwrap();
    assert_eq!(proc.program_counter, Address::from(0xAAA));
    assert_eq!(proc.stack_pointer, 0);
}

#[test]
fn processor_test_call() {
    // call 0xAAA
    let mut proc = Processor::new(vec![0x00, 0x00, 0x2A, 0xAA]).unwrap();

    // step once so we get a nonzero pc
    proc.step().unwrap();

    // save off the current pc, which should end up on the top of the stack
    let old_pc = proc.program_counter;

    // execute the call
    proc.step().unwrap();

    assert_eq!(proc.program_counter, Address::from(0xAAA));
    assert_eq!(proc.stack_pointer, 1);
    assert_eq!(proc.stack[proc.stack_pointer], old_pc);
}

#[test]
fn test_stack_overflow() {
    let mut proc = Processor::new(vec![
        0x22, 0x00, // call 0x200 : addr 0x200
    ])
    .unwrap();

    for _ in 0..15 {
        // fill up the call stack
        proc.step().unwrap();
    }

    // call again to overflow
    let result = proc.step();

    assert_eq!(
        result,
        Err(ProcessorError::StackOverflow {
            address: Address::from(0x200)
        })
    );
}

#[test]
fn test_skip_if_eq_byte_false() {
    let mut proc = Processor::new(vec![
        0x32, 0x10, // SE V2, 0x10 : addr 0x200
        0x00, 0x00, // empty       : addr 0x202
        0x00, 0x00, // empty       : addr 0x204
    ])
    .unwrap();
    assert_eq!(proc.registers.get_general(GeneralRegister::V2), 0x00_u8);

    proc.step().unwrap();

    // The register holds 0x00, so we should not have skipped
    assert_eq!(proc.program_counter, Address::from(0x202));
}

#[test]
fn test_skip_if_eq_byte_true() {
    let mut proc = Processor::new(vec![
        0x32, 0x10, // SE V2, 0x10 : addr 0x200
        0x00, 0x00, // empty       : addr 0x202
        0x00, 0x00, // empty       : addr 0x204
    ])
    .unwrap();

    // manually tinker with the register to have the equality high
    proc.registers.set_general(GeneralRegister::V2, 0x10_u8);

    proc.step().unwrap();

    // took the true branch this time, so we should have skipped 0x202
    assert_eq!(proc.program_counter, Address::from(0x204));
}

#[test]
fn test_skip_if_neq_byte_false() {
    let mut proc = Processor::new(vec![
        0x42, 0x10, // SNE V2, 0x10 : addr 0x200
        0x00, 0x00, // empty        : addr 0x202
        0x00, 0x00, // empty        : addr 0x204
    ])
    .unwrap();

    proc.registers.set_general(GeneralRegister::V2, 0x10_u8);
    assert_eq!(proc.registers.get_general(GeneralRegister::V2), 0x10_u8);

    proc.step().unwrap();

    // The register holds 0x10, so we should not have skipped
    assert_eq!(proc.program_counter, Address::from(0x202));
}

#[test]
fn test_skip_if_neq_byte_true() {
    let mut proc = Processor::new(vec![
        0x42, 0x10, // SNE V2, 0x10 : addr 0x200
        0x00, 0x00, // empty        : addr 0x202
        0x00, 0x00, // empty        : addr 0x204
    ])
    .unwrap();

    // manually tinker with the register to have the equality high
    proc.registers.set_general(GeneralRegister::V2, 0x00_u8);
    assert_eq!(proc.registers.get_general(GeneralRegister::V2), 0x00_u8);

    proc.step().unwrap();

    // took the true branch this time, so we should have skipped 0x202
    assert_eq!(proc.program_counter, Address::from(0x204));
}

#[test]
fn test_skip_if_eq_reg_false() {
    let mut proc = Processor::new(vec![
        0x51, 0x20, // SE V1, V2 : addr 0x200
        0x00, 0x00, // empty     : addr 0x202
        0x00, 0x00, // empty     : addr 0x204
    ])
    .unwrap();

    // manually offset the registers V1 and V2
    proc.registers.set_general(GeneralRegister::V1, 102_u8);
    proc.registers.set_general(GeneralRegister::V2, 201_u8);

    proc.step().unwrap();

    // we should not have skipped, and so landed on 0x202
    assert_eq!(proc.program_counter, Address::from(0x202));
}

#[test]
fn test_skip_if_eq_reg_true() {
    let mut proc = Processor::new(vec![
        0x51, 0x20, // SE V1, V2 : addr 0x200
        0x00, 0x00, // empty     : addr 0x202
        0x00, 0x00, // empty     : addr 0x204
    ])
    .unwrap();

    // manually align the registers V1 and V2
    proc.registers.set_general(GeneralRegister::V1, 123_u8);
    proc.registers.set_general(GeneralRegister::V2, 123_u8);

    proc.step().unwrap();

    // we should have skipped, and so landed on 0x204
    assert_eq!(proc.program_counter, Address::from(0x204));
}

#[test]
fn test_load_value() {
    let mut proc = Processor::new(vec![
        0x67, 0x89, // LD V7, 0x89 : addr 0x200
    ])
    .unwrap();

    proc.step().unwrap();

    assert_eq!(proc.registers.get_general(GeneralRegister::V7), 0x89_u8);
}

#[test]
fn test_add_value() {
    let init = 0x12_u8;

    let mut proc = Processor::new(vec![
        0x70, init, // ADD V0, 0x34
    ])
    .unwrap();

    let summand = 0x34_u8;
    proc.registers.set_general(GeneralRegister::V0, summand);

    proc.step().unwrap();

    assert_eq!(
        proc.registers.get_general(GeneralRegister::V0),
        init + summand
    );
}

#[test]
fn test_add_value_overflow() {
    let init = 0xEE_u8;

    let mut proc = Processor::new(vec![
        0x70, init, // ADD V0, 0x34
    ])
    .unwrap();

    let summand = 0xCC_u8;
    proc.registers.set_general(GeneralRegister::V0, summand);

    let initial_vf = 0x56_u8;
    proc.registers.set_general(GeneralRegister::VF, initial_vf);

    // should wrap on overflow
    let expected = ((init as u16 + summand as u16) % (u8::MAX as u16 + 1)) as u8;

    proc.step().unwrap();

    assert_eq!(proc.registers.get_general(GeneralRegister::V0), expected);

    // this instruction does not affect the overflow flag
    assert_eq!(proc.registers.get_general(GeneralRegister::VF), initial_vf);
}

#[test]
fn test_load_register() {
    let mut proc = Processor::new(vec![
        0x81, 0x20, // LD V1, V2
    ])
    .unwrap();

    proc.registers.set_general(GeneralRegister::V1, 0x01_u8);
    proc.registers.set_general(GeneralRegister::V2, 0x02_u8);

    proc.step().unwrap();

    assert_eq!(proc.registers.get_general(GeneralRegister::V1), 0x02_u8);
}

#[test]
fn test_or() {
    let mut proc = Processor::new(vec![
        0x81, 0x21, // OR V1, V2
    ])
    .unwrap();

    let lhs = 0xF0_u8;
    let rhs = 0xAA_u8;
    let expected = lhs | rhs;

    proc.registers.set_general(GeneralRegister::V1, lhs);
    proc.registers.set_general(GeneralRegister::V2, rhs);

    proc.step().unwrap();

    assert_eq!(proc.registers.get_general(GeneralRegister::V1), expected);
}

#[test]
fn test_and() {
    let mut proc = Processor::new(vec![
        0x81, 0x22, // AND V1, V2
    ])
    .unwrap();

    let lhs = 0xF0_u8;
    let rhs = 0xAA_u8;
    let expected = lhs & rhs;

    proc.registers.set_general(GeneralRegister::V1, lhs);
    proc.registers.set_general(GeneralRegister::V2, rhs);

    proc.step().unwrap();

    assert_eq!(proc.registers.get_general(GeneralRegister::V1), expected);
}

#[test]
fn test_xor() {
    let mut proc = Processor::new(vec![
        0x81, 0x23, // AND V1, V2
    ])
    .unwrap();

    let lhs = 0xF0_u8;
    let rhs = 0xAA_u8;
    let expected = lhs ^ rhs;

    proc.registers.set_general(GeneralRegister::V1, lhs);
    proc.registers.set_general(GeneralRegister::V2, rhs);

    proc.step().unwrap();

    assert_eq!(proc.registers.get_general(GeneralRegister::V1), expected);
}

#[test]
fn test_add_register() {
    let mut proc = Processor::new(vec![
        0x81, 0x24, // ADD V1, V2
    ])
    .unwrap();

    // set vf to some value so we can check this instruction has affected the overflow flag
    let initial_vf = 0x56_u8;
    proc.registers.set_general(GeneralRegister::VF, initial_vf);
    assert_eq!(proc.registers.get_vf_flag(), None);

    let lhs = 0x12_u8;
    let rhs = 0x34_u8;
    proc.registers.set_general(GeneralRegister::V1, lhs);
    proc.registers.set_general(GeneralRegister::V2, rhs);

    proc.step().unwrap();

    assert_eq!(proc.registers.get_general(GeneralRegister::V1), lhs + rhs);

    // should not have overflowed
    assert_eq!(proc.registers.get_vf_flag(), Some(Flag::Low));
}

#[test]
fn test_add_register_overflow() {
    let mut proc = Processor::new(vec![
        0x81, 0x24, // ADD V1, V2
    ])
    .unwrap();

    // set vf to some value so we can check this instruction has affected the overflow flag
    let initial_vf = 0x56_u8;
    proc.registers.set_general(GeneralRegister::VF, initial_vf);
    assert_eq!(proc.registers.get_vf_flag(), None);

    let lhs = 0xEE_u8;
    let rhs = 0xCC_u8;
    proc.registers.set_general(GeneralRegister::V1, lhs);
    proc.registers.set_general(GeneralRegister::V2, rhs);

    // should wrap on overflow
    let expected = ((lhs as u16 + rhs as u16) % (u8::MAX as u16 + 1)) as u8;

    proc.step().unwrap();

    assert_eq!(proc.registers.get_general(GeneralRegister::V1), expected);

    // should not have overflowed
    assert_eq!(proc.registers.get_vf_flag(), Some(Flag::High));
}

#[test]
fn test_subtract() {
    let mut proc = Processor::new(vec![
        0x81, 0x25, // SUB V1, V2
    ])
    .unwrap();

    // set vf to some value so we can check this instruction has affected the overflow flag
    let initial_vf = 0x56_u8;
    proc.registers.set_general(GeneralRegister::VF, initial_vf);
    assert_eq!(proc.registers.get_vf_flag(), None);

    let lhs = 0x43_u8;
    let rhs = 0x21_u8;
    proc.registers.set_general(GeneralRegister::V1, lhs);
    proc.registers.set_general(GeneralRegister::V2, rhs);

    proc.step().unwrap();

    assert_eq!(proc.registers.get_general(GeneralRegister::V1), lhs - rhs);

    // should not have underflowed
    assert_eq!(proc.registers.get_vf_flag(), Some(Flag::High));
}

#[test]
fn test_subtract_underflow() {
    let mut proc = Processor::new(vec![
        0x81, 0x25, // SUB V1, V2
    ])
    .unwrap();

    // set vf to some value so we can check this instruction has affected the overflow flag
    let initial_vf = 0x56_u8;
    proc.registers.set_general(GeneralRegister::VF, initial_vf);
    assert_eq!(proc.registers.get_vf_flag(), None);

    let lhs = 0x12_u8;
    let rhs = 0x34_u8;
    proc.registers.set_general(GeneralRegister::V1, lhs);
    proc.registers.set_general(GeneralRegister::V2, rhs);

    // should wrap on overflow
    let expected = (lhs as i16 - rhs as i16) as u8;

    proc.step().unwrap();

    assert_eq!(proc.registers.get_general(GeneralRegister::V1), expected);

    // should have underflowed
    assert_eq!(proc.registers.get_vf_flag(), Some(Flag::Low));
}

#[test]
fn test_shift_right_lsb_high() {
    let mut proc = Processor::new(vec![
        0x81, 0x26, // SHR V1 {, V2}
    ])
    .unwrap();

    let initial_value = 0b01010101_u8;
    proc.registers
        .set_general(GeneralRegister::V1, initial_value);

    proc.step().unwrap();

    assert_eq!(
        proc.registers.get_general(GeneralRegister::V1),
        initial_value >> 1
    );

    assert_eq!(proc.registers.get_vf_flag(), Some(Flag::High));
}

#[test]
fn test_shift_right_lsb_low() {
    let mut proc = Processor::new(vec![
        0x81, 0x26, // SHR V1 {, V2}
    ])
    .unwrap();

    let initial_value = 0b10101010_u8;
    proc.registers
        .set_general(GeneralRegister::V1, initial_value);

    proc.step().unwrap();

    assert_eq!(
        proc.registers.get_general(GeneralRegister::V1),
        initial_value >> 1
    );

    assert_eq!(proc.registers.get_vf_flag(), Some(Flag::Low));
}

#[test]
fn test_subtract_negate() {
    let mut proc = Processor::new(vec![
        0x81, 0x27, // SUBN V1, V2
    ])
    .unwrap();

    // set vf to some value so we can check this instruction has affected the overflow flag
    let initial_vf = 0x56_u8;
    proc.registers.set_general(GeneralRegister::VF, initial_vf);
    assert_eq!(proc.registers.get_vf_flag(), None);

    let rhs = 0x43_u8;
    let lhs = 0x21_u8;
    proc.registers.set_general(GeneralRegister::V1, lhs);
    proc.registers.set_general(GeneralRegister::V2, rhs);

    proc.step().unwrap();

    assert_eq!(proc.registers.get_general(GeneralRegister::V1), rhs - lhs);

    // should not have underflowed
    assert_eq!(proc.registers.get_vf_flag(), Some(Flag::High));
}

#[test]
fn test_subtract_negate_underflow() {
    let mut proc = Processor::new(vec![
        0x81, 0x27, // SUBN V1, V2
    ])
    .unwrap();

    // set vf to some value so we can check this instruction has affected the overflow flag
    let initial_vf = 0x56_u8;
    proc.registers.set_general(GeneralRegister::VF, initial_vf);
    assert_eq!(proc.registers.get_vf_flag(), None);

    let rhs = 0x12_u8;
    let lhs = 0x34_u8;
    proc.registers.set_general(GeneralRegister::V1, lhs);
    proc.registers.set_general(GeneralRegister::V2, rhs);

    // should wrap on overflow
    let expected = (rhs as i16 - lhs as i16) as u8;

    proc.step().unwrap();

    assert_eq!(proc.registers.get_general(GeneralRegister::V1), expected);

    // should have underflowed
    assert_eq!(proc.registers.get_vf_flag(), Some(Flag::Low));
}

#[test]
fn test_shift_left_msb_high() {
    let mut proc = Processor::new(vec![
        0x81, 0x2E, // SHL V1 {, V2}
    ])
    .unwrap();

    let initial_value = 0b10101010_u8;
    proc.registers
        .set_general(GeneralRegister::V1, initial_value);

    proc.step().unwrap();

    assert_eq!(
        proc.registers.get_general(GeneralRegister::V1),
        initial_value << 1
    );

    assert_eq!(proc.registers.get_vf_flag(), Some(Flag::High));
}

#[test]
fn test_shift_left_msb_low() {
    let mut proc = Processor::new(vec![
        0x81, 0x2E, // SHL V1 {, V2}
    ])
    .unwrap();

    let initial_value = 0b01010101_u8;
    proc.registers
        .set_general(GeneralRegister::V1, initial_value);

    proc.step().unwrap();

    assert_eq!(
        proc.registers.get_general(GeneralRegister::V1),
        initial_value << 1
    );

    assert_eq!(proc.registers.get_vf_flag(), Some(Flag::Low));
}

#[test]
fn test_skip_if_neq_reg_false() {
    let mut proc = Processor::new(vec![
        0x91, 0x20, // SNE V1, V2 : addr 0x200
        0x00, 0x00, // empty      : addr 0x202
        0x00, 0x00, // empty      : addr 0x204
    ])
    .unwrap();

    // manually align the registers V1 and V2
    proc.registers.set_general(GeneralRegister::V1, 123_u8);
    proc.registers.set_general(GeneralRegister::V2, 123_u8);

    proc.step().unwrap();

    // we should not have skipped, and so landed on 0x202
    assert_eq!(proc.program_counter, Address::from(0x202));
}

#[test]
fn test_skip_if_neq_reg_true() {
    let mut proc = Processor::new(vec![
        0x91, 0x20, // SE V1, V2 : addr 0x200
        0x00, 0x00, // empty     : addr 0x202
        0x00, 0x00, // empty     : addr 0x204
    ])
    .unwrap();

    // manually offset the registers V1 and V2
    proc.registers.set_general(GeneralRegister::V1, 102_u8);
    proc.registers.set_general(GeneralRegister::V2, 201_u8);

    proc.step().unwrap();

    // we should have skipped, and so landed on 0x204
    assert_eq!(proc.program_counter, Address::from(0x204));
}

#[test]
fn test_load_i() {
    let mut proc = Processor::new(vec![
        0xA1, 0x23, // LD I, 0x123
    ])
    .unwrap();

    proc.step().unwrap();

    assert_eq!(proc.registers.i, Address::from(0x123));
}

#[test]
fn test_jump_plus_v0() {
    let mut proc = Processor::new(vec![
        0xB3, 0x01, // JP V0, 0x301 : addr 0x200
    ])
    .unwrap();

    proc.registers.set_general(GeneralRegister::V0, 0x20_u8);

    proc.step().unwrap();

    assert_eq!(proc.program_counter, Address::from(0x321));
}

#[test]
fn test_load_from_delay_timer() {
    let mut proc = Processor::new(vec![
        0xFA, 0x07, // LD VA, DT
    ])
    .unwrap();

    proc.registers.delay = 0xBC;

    proc.step().unwrap();

    assert_eq!(proc.registers.get_general(GeneralRegister::VA), 0xBC);
}

#[test]
fn test_set_delay_timer() {
    let mut proc = Processor::new(vec![
        0xFB, 0x15, // LD DT, VB
    ])
    .unwrap();

    proc.registers.set_general(GeneralRegister::VB, 0xBC);

    proc.step().unwrap();

    assert_eq!(proc.registers.delay, 0xBC);
}

#[test]
fn test_set_sound_timer() {
    let mut proc = Processor::new(vec![
        0xFB, 0x18, // LD ST, VB
    ])
    .unwrap();

    proc.registers.set_general(GeneralRegister::VB, 0xBC);

    proc.step().unwrap();

    assert_eq!(proc.registers.sound, 0xBC);
}

#[test]
fn test_add_i() {
    let mut proc = Processor::new(vec![
        0xF4, 0x1E, // ADD I, V4
    ])
    .unwrap();

    let initial = Address::from(0x300);
    let offset = 0x21_u8;

    proc.registers.i = initial;
    proc.registers.set_general(GeneralRegister::V4, offset);

    proc.step().unwrap();

    assert_eq!(
        proc.registers.i,
        Address::from(u16::from(initial) + offset as u16)
    );
}

#[test]
fn test_load_sprite_location() {
    for sprite_idx in 0..16_u8 {
        let mut proc = Processor::new(vec![
            0xF0, 0x29, // LD F, V0
        ])
        .unwrap();

        proc.registers.set_general(GeneralRegister::V0, sprite_idx);

        proc.step().unwrap();

        assert_eq!(
            proc.registers.i,
            Address::from(sprite_idx as u16 * HEX_SPRITE_STRIDE as u16)
        );
    }
}

#[test]
fn test_load_bcd() {
    for (test_byte, expected_digits) in BCD_INPUT_BYTES
        .into_iter()
        .zip(BCD_OUTPUT_DIGITS.into_iter())
    {
        let mut proc = Processor::new(vec![
            0xF8, 0x33, // LD B, V8
        ])
        .unwrap();

        proc.registers.set_general(GeneralRegister::V8, test_byte);
        proc.registers.i = Address::from(0x400);

        proc.step().unwrap();

        let target_idx = u16::from(proc.registers.i) as usize;

        assert_eq!(expected_digits, proc.memory[target_idx..target_idx + 3]);
    }
}

#[test]
fn test_store_register_range_at_i() {
    for reg_end in 0..16_u8 {
        let ld_i_vx = 0xF0_u8 | reg_end;
        let mut proc = Processor::new(vec![
            ld_i_vx, 0x55, // LD [I], VX
        ])
        .unwrap();

        for (idx, reg) in all_registers().into_iter().enumerate() {
            proc.registers.set_general(reg, idx as u8);
        }

        let target_addr = Address::from(0x400);

        proc.registers.i = target_addr;

        proc.step().unwrap();

        // V0 to VX inclusive have been written to the target address
        for idx in 0..=reg_end as usize {
            assert_eq!(
                proc.memory[u16::from(target_addr) as usize + idx],
                idx as u8
            );
        }

        // the remaining have not
        for idx in reg_end as usize + 1..16 {
            assert_eq!(proc.memory[u16::from(target_addr) as usize + idx], 0x00_u8);
        }
    }
}

#[test]
fn test_load_register_range_from_i() {
    for reg_end in 0..16_u8 {
        let ld_i_vx = 0xF0_u8 | reg_end;
        let mut proc = Processor::new(vec![
            ld_i_vx, 0x65, // LD VX, [I]
        ])
        .unwrap();

        let target_addr = Address::from(0x400);
        proc.registers.i = target_addr;
        for idx in 0..16 {
            proc.memory[idx + u16::from(target_addr) as usize] = idx as u8;
        }

        proc.step().unwrap();

        // V0 to VX inclusive have been set
        for (val, reg) in all_registers().into_iter()
            .enumerate()
            .take(reg_end as usize + 1)
        {
            assert_eq!(proc.registers.get_general(reg), val as u8);
        }

        // the remaining have not
        for reg in all_registers().into_iter().skip(reg_end as usize + 1) {
            assert_eq!(proc.registers.get_general(reg), 0x00_u8);
        }
    }
}
