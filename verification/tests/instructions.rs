use lp55231::{
    Channel, Direction, Instruction, PreScale, RangeError, Variable, INSTRUCTIONS_PER_PAGE,
    MAX_INSTRUCTIONS, MAX_PAGES, MAX_VARS,
};

fn word(instruction: Instruction) -> u16 {
    instruction.as_u16()
}

#[test]
fn program_memory_has_six_pages_of_sixteen() {
    assert_eq!(MAX_INSTRUCTIONS, 96);
    assert_eq!(INSTRUCTIONS_PER_PAGE, 16);
    assert_eq!(MAX_PAGES, 6);
    assert_eq!(MAX_VARS, 4);
    assert_eq!(MAX_INSTRUCTIONS, INSTRUCTIONS_PER_PAGE * MAX_PAGES);
}

#[test]
fn an_instruction_is_its_two_bytes_high_byte_first() {
    assert_eq!(Instruction { msb: 0x12, lsb: 0x34 }.as_u16(), 0x1234);
    assert_eq!(Instruction { msb: 0xFF, lsb: 0x00 }.as_u16(), 0xFF00);
    assert_eq!(Instruction::from(0x1234), Instruction { msb: 0x12, lsb: 0x34 });
    assert_eq!(Instruction::from(0x00FF), Instruction { msb: 0x00, lsb: 0xFF });
}

#[test]
fn every_word_comes_back_from_its_instruction() {
    for w in 0..=0xFFFFu16 {
        assert_eq!(Instruction::from(w).as_u16(), w);
    }
}

#[test]
fn every_instruction_comes_back_from_its_word() {
    for msb in 0..=255u8 {
        for lsb in 0..=255u8 {
            let instruction = Instruction { msb, lsb };
            assert_eq!(Instruction::from(instruction.as_u16()), instruction);
        }
    }
}

#[test]
fn the_variables_count_from_zero() {
    assert_eq!(Variable::A.index(), 0);
    assert_eq!(Variable::B.index(), 1);
    assert_eq!(Variable::C.index(), 2);
    assert_eq!(Variable::D.index(), 3);
    assert_eq!(PreScale::CT0_488.bits(), 0);
    assert_eq!(PreScale::CT15_625.bits(), 1);
    assert_eq!(Direction::Up.bits(), 0);
    assert_eq!(Direction::Down.bits(), 1);
}

#[test]
fn ramp_packs_cycles_prescale_and_direction() {
    assert_eq!(
        Instruction::ramp(PreScale::CT15_625, 5, Direction::Down, 200),
        Ok(Instruction { msb: 0b0100_1011, lsb: 200 })
    );
    assert_eq!(
        Instruction::ramp(PreScale::CT0_488, 1, Direction::Up, 255),
        Ok(Instruction { msb: 0b0000_0010, lsb: 255 })
    );
    assert_eq!(
        Instruction::ramp(PreScale::CT0_488, 63, Direction::Up, 0),
        Ok(Instruction { msb: 0b0111_1110, lsb: 0 })
    );
    assert_eq!(
        Instruction::ramp(PreScale::CT0_488, 0, Direction::Down, 7),
        Ok(Instruction { msb: 0b0000_0001, lsb: 7 })
    );
}

#[test]
fn ramp_refuses_more_than_six_bits_of_cycles() {
    assert_eq!(
        Instruction::ramp(PreScale::CT0_488, 64, Direction::Up, 0),
        Err(RangeError { value: 64, max: 63 })
    );
    assert_eq!(
        Instruction::ramp(PreScale::CT15_625, 255, Direction::Down, 9),
        Err(RangeError { value: 255, max: 63 })
    );
}

#[test]
fn ramp_from_vars_packs_flags_and_variables() {
    assert_eq!(
        Instruction::ramp_from_vars(true, false, Variable::C, Variable::B),
        Instruction { msb: 0x84, lsb: 0b0100_1001 }
    );
    assert_eq!(
        Instruction::ramp_from_vars(false, true, Variable::A, Variable::D),
        Instruction { msb: 0x84, lsb: 0b0010_0011 }
    );
    assert_eq!(
        Instruction::ramp_from_vars(true, true, Variable::D, Variable::D),
        Instruction { msb: 0x84, lsb: 0b0110_1111 }
    );
    assert_eq!(
        Instruction::ramp_from_vars(false, false, Variable::A, Variable::A),
        Instruction { msb: 0x84, lsb: 0 }
    );
}

#[test]
fn set_pwm_carries_the_value() {
    assert_eq!(Instruction::set_pwm(0x7F), Instruction { msb: 0x40, lsb: 0x7F });
    assert_eq!(Instruction::set_pwm(0), Instruction { msb: 0x40, lsb: 0 });
    assert_eq!(Instruction::set_pwm(255), Instruction { msb: 0x40, lsb: 255 });
}

#[test]
fn set_pwm_from_var_names_the_variable() {
    assert_eq!(Instruction::set_pwm_from_var(Variable::A), Instruction { msb: 0x84, lsb: 0x60 });
    assert_eq!(Instruction::set_pwm_from_var(Variable::C), Instruction { msb: 0x84, lsb: 0x62 });
    assert_eq!(Instruction::set_pwm_from_var(Variable::D), Instruction { msb: 0x84, lsb: 0x63 });
}

#[test]
fn wait_packs_cycles_and_prescale() {
    let wait = Instruction::wait(PreScale::CT0_488, 10).unwrap();
    assert_eq!(wait.msb, 0b0001_0100);
    assert_eq!(wait.msb, 10 << 1);
    assert_eq!(wait.lsb, 0);
    assert_eq!(
        Instruction::wait(PreScale::CT15_625, 31),
        Ok(Instruction { msb: 0b0111_1110, lsb: 0 })
    );
    assert_eq!(
        Instruction::wait(PreScale::CT0_488, 127),
        Ok(Instruction { msb: 0b1111_1110, lsb: 0 })
    );
    assert_eq!(Instruction::wait(PreScale::CT0_488, 0), Ok(Instruction { msb: 0, lsb: 0 }));
}

#[test]
fn wait_refuses_more_than_seven_bits_of_cycles() {
    assert_eq!(
        Instruction::wait(PreScale::CT0_488, 128),
        Err(RangeError { value: 128, max: 127 })
    );
}

#[test]
fn map_channels_sets_one_bit_for_each_channel() {
    assert_eq!(word(Instruction::map_channels(&[Channel::D1, Channel::D9])), 0x0101);
    assert_eq!(word(Instruction::map_channels(&[])), 0x0000);
    assert_eq!(word(Instruction::map_channels(&[Channel::D3, Channel::D3])), 0x0004);
    assert_eq!(word(Instruction::map_channels(&[Channel::D8])), 0x0080);
    assert_eq!(
        word(Instruction::map_channels(&[Channel::D9, Channel::D2, Channel::D5])),
        0x0112
    );
    let all = [
        Channel::D1,
        Channel::D2,
        Channel::D3,
        Channel::D4,
        Channel::D5,
        Channel::D6,
        Channel::D7,
        Channel::D8,
        Channel::D9,
    ];
    assert_eq!(word(Instruction::map_channels(&all)), 0x01FF);
    for channel in all {
        assert_eq!(word(Instruction::map_channels(&[channel])), 1 << channel.index());
    }
}

#[test]
fn the_mux_instructions_with_an_address() {
    assert_eq!(Instruction::mux_ld_start(5), Ok(Instruction { msb: 0x9E, lsb: 5 }));
    assert_eq!(Instruction::mux_map_start(5), Ok(Instruction { msb: 0x9C, lsb: 5 }));
    assert_eq!(Instruction::mux_ld_end(5), Ok(Instruction { msb: 0x9C, lsb: 0x85 }));
    assert_eq!(Instruction::mux_ld_addr(96), Ok(Instruction { msb: 0x9F, lsb: 96 }));
    assert_eq!(Instruction::mux_map_addr(96), Ok(Instruction { msb: 0x9F, lsb: 0xE0 }));
    assert_eq!(Instruction::mux_map_addr(0), Ok(Instruction { msb: 0x9F, lsb: 0x80 }));
    assert_eq!(Instruction::mux_ld_start(0), Ok(Instruction { msb: 0x9E, lsb: 0 }));
}

#[test]
fn the_mux_instructions_refuse_an_address_beyond_program_memory() {
    let refused = Err(RangeError { value: 97, max: 96 });
    assert_eq!(Instruction::mux_ld_start(97), refused);
    assert_eq!(Instruction::mux_map_start(97), refused);
    assert_eq!(Instruction::mux_ld_end(97), refused);
    assert_eq!(Instruction::mux_ld_addr(97), refused);
    assert_eq!(Instruction::mux_map_addr(97), refused);
    assert_eq!(Instruction::mux_ld_end(255), Err(RangeError { value: 255, max: 96 }));
}

#[test]
fn the_mux_instructions_without_an_address() {
    assert_eq!(Instruction::mux_sel(9), Instruction { msb: 0x9D, lsb: 9 });
    assert_eq!(Instruction::mux_sel(0), Instruction { msb: 0x9D, lsb: 0 });
    assert_eq!(Instruction::mux_clr(), Instruction { msb: 0x9D, lsb: 0x00 });
    assert_eq!(Instruction::mux_map_next(), Instruction { msb: 0x9D, lsb: 0x80 });
    assert_eq!(Instruction::mux_map_prev(), Instruction { msb: 0x9D, lsb: 0xC0 });
    assert_eq!(Instruction::mux_ld_next(), Instruction { msb: 0x9D, lsb: 0x81 });
    assert_eq!(Instruction::mux_ld_prev(), Instruction { msb: 0x9D, lsb: 0xC1 });
}

#[test]
fn rst_is_all_zero() {
    assert_eq!(Instruction::rst(), Instruction { msb: 0, lsb: 0 });
}

#[test]
fn branch_packs_step_and_loop_count() {
    assert_eq!(word(Instruction::branch(3, 2).unwrap()), 0xA103);
    assert_eq!(word(Instruction::branch(0, 0).unwrap()), 0xA000);
    assert_eq!(word(Instruction::branch(127, 63).unwrap()), 0xBFFF);
    assert_eq!(Instruction::branch(1, 1), Ok(Instruction { msb: 0xA0, lsb: 0x81 }));
    assert_eq!(Instruction::branch(0, 62), Ok(Instruction { msb: 0xBF, lsb: 0x00 }));
}

#[test]
fn branch_refuses_operands_that_do_not_fit() {
    assert_eq!(Instruction::branch(128, 0), Err(RangeError { value: 128, max: 127 }));
    assert_eq!(Instruction::branch(0, 64), Err(RangeError { value: 64, max: 63 }));
    assert_eq!(Instruction::branch(200, 100), Err(RangeError { value: 200, max: 127 }));
}

#[test]
fn branch_vars_packs_step_and_variable() {
    assert_eq!(word(Instruction::branch_vars(5, Variable::C).unwrap()), 0x8616);
    assert_eq!(word(Instruction::branch_vars(0, Variable::A).unwrap()), 0x8600);
    assert_eq!(word(Instruction::branch_vars(127, Variable::D).unwrap()), 0x87FF);
    assert_eq!(
        Instruction::branch_vars(64, Variable::B),
        Ok(Instruction { msb: 0x87, lsb: 0x01 })
    );
}

#[test]
fn branch_vars_refuses_a_step_that_does_not_fit() {
    assert_eq!(
        Instruction::branch_vars(128, Variable::A),
        Err(RangeError { value: 128, max: 127 })
    );
}

#[test]
fn interrupt_is_fixed() {
    let int = Instruction::interrupt();
    assert_eq!(int.msb, 0xC4);
    assert_eq!(int.lsb, 0);
}

#[test]
fn end_sets_its_two_flags() {
    let end = Instruction::end(false, false);
    assert_eq!(end.msb, 0xC0);
    assert_eq!(end.lsb, 0);
    assert_eq!(Instruction::end(true, false), Instruction { msb: 0xD0, lsb: 0 });
    assert_eq!(Instruction::end(false, true), Instruction { msb: 0xC8, lsb: 0 });
    assert_eq!(Instruction::end(true, true), Instruction { msb: 0xD8, lsb: 0 });
}

#[test]
fn jne_has_the_first_variable_in_the_low_bits() {
    assert_eq!(word(Instruction::jne(3, Variable::B, Variable::D).unwrap()), 0x883D);
    assert_eq!(word(Instruction::jne(0, Variable::A, Variable::A).unwrap()), 0x8800);
    assert_eq!(word(Instruction::jne(15, Variable::A, Variable::A).unwrap()), 0x88F0);
    assert_eq!(word(Instruction::jne(0, Variable::D, Variable::A).unwrap()), 0x8803);
}

#[test]
fn the_other_jumps_have_the_first_variable_in_the_high_bits() {
    assert_eq!(word(Instruction::jl(3, Variable::B, Variable::D).unwrap()), 0x8A37);
    assert_eq!(word(Instruction::jge(3, Variable::B, Variable::D).unwrap()), 0x8C37);
    assert_eq!(word(Instruction::je(3, Variable::B, Variable::D).unwrap()), 0x8E37);
    assert_eq!(word(Instruction::jl(0, Variable::D, Variable::A).unwrap()), 0x8A0C);
    assert_eq!(word(Instruction::jge(15, Variable::A, Variable::D).unwrap()), 0x8CF3);
    assert_eq!(word(Instruction::je(1, Variable::C, Variable::C).unwrap()), 0x8E1A);
}

#[test]
fn the_jumps_refuse_more_than_four_bits_of_skip() {
    let refused = Err(RangeError { value: 16, max: 15 });
    assert_eq!(Instruction::jne(16, Variable::A, Variable::B), refused);
    assert_eq!(Instruction::jl(16, Variable::A, Variable::B), refused);
    assert_eq!(Instruction::jge(16, Variable::A, Variable::B), refused);
    assert_eq!(Instruction::je(16, Variable::A, Variable::B), refused);
}

#[test]
fn the_arithmetic_instructions_with_a_number() {
    assert_eq!(Instruction::ld(Variable::C, 0x55), Instruction { msb: 0x98, lsb: 0x55 });
    assert_eq!(Instruction::ld(Variable::A, 0), Instruction { msb: 0x90, lsb: 0 });
    assert_eq!(Instruction::add_numerical(Variable::B, 7), Instruction { msb: 0x95, lsb: 7 });
    assert_eq!(Instruction::add_numerical(Variable::D, 255), Instruction { msb: 0x9D, lsb: 255 });
    assert_eq!(Instruction::sub_numerical(Variable::A, 9), Instruction { msb: 0x92, lsb: 9 });
    assert_eq!(Instruction::sub_numerical(Variable::D, 1), Instruction { msb: 0x9E, lsb: 1 });
}

#[test]
fn the_arithmetic_instructions_with_variables() {
    assert_eq!(
        Instruction::add_vars(Variable::D, Variable::A, Variable::B),
        Instruction { msb: 0x9F, lsb: 0x01 }
    );
    assert_eq!(
        Instruction::add_vars(Variable::A, Variable::D, Variable::C),
        Instruction { msb: 0x93, lsb: 0x0E }
    );
    assert_eq!(
        Instruction::sub_vars(Variable::B, Variable::C, Variable::D),
        Instruction { msb: 0x97, lsb: 0x1B }
    );
    assert_eq!(
        Instruction::sub_vars(Variable::A, Variable::A, Variable::A),
        Instruction { msb: 0x93, lsb: 0x10 }
    );
}
