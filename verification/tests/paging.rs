use lp55231::{
    decode_instructions, instruction_address, page_bytes, pages, validate_instruction_index,
    validate_page, validate_per_page_instruction_count, validate_program_counter,
    validate_total_instruction_count, ChargePumpMode, ClockSelection, EngineExec, EngineMode,
    Error, Instruction, Misc, RangeError, ValidationError,
};

fn program(len: usize) -> Vec<Instruction> {
    (0..len).map(|i| Instruction::from(0x4000 + i as u16)).collect()
}

#[test]
fn twenty_instructions_take_a_full_page_and_four() {
    let program = program(20);
    let split = pages(&program);
    assert_eq!(split.len(), 2);
    assert_eq!(split[0].len(), 16);
    assert_eq!(split[1].len(), 4);
    assert_eq!(split[0], program[..16].to_vec());
    assert_eq!(split[1], program[16..].to_vec());
}

#[test]
fn the_pages_put_together_are_the_program() {
    for len in 0..=96 {
        let program = program(len);
        let split = pages(&program);
        assert_eq!(split.len(), (len + 15) / 16);
        assert!(split.len() <= 6);
        for (number, page) in split.iter().enumerate() {
            assert!(!page.is_empty());
            assert!(page.len() <= 16);
            if number + 1 < split.len() {
                assert_eq!(page.len(), 16);
            }
        }
        assert_eq!(split.concat(), program);
    }
}

#[test]
fn the_longest_program_takes_six_full_pages() {
    let split = pages(&program(96));
    assert_eq!(split.len(), 6);
    assert!(split.iter().all(|page| page.len() == 16));
}

#[test]
fn no_instructions_take_no_page() {
    assert!(pages(&[]).is_empty());
    assert_eq!(pages(&program(1)).len(), 1);
    assert_eq!(pages(&program(16)).len(), 1);
    assert_eq!(pages(&program(17)).len(), 2);
}

#[test]
fn pages_zero_to_five_are_valid() {
    for page in 0..6 {
        assert_eq!(validate_page(page), Ok(()));
    }
    assert_eq!(validate_page(6), Err(ValidationError::PageIndex { page: 6 }));
    assert_eq!(validate_page(255), Err(ValidationError::PageIndex { page: 255 }));
}

#[test]
fn slots_zero_to_fifteen_are_valid() {
    for index in 0..16 {
        assert_eq!(validate_instruction_index(index), Ok(()));
    }
    assert_eq!(
        validate_instruction_index(16),
        Err(ValidationError::InstructionIndex { index: 16 })
    );
}

#[test]
fn a_page_takes_up_to_sixteen_instructions() {
    assert_eq!(validate_per_page_instruction_count(&program(0)), Ok(()));
    assert_eq!(validate_per_page_instruction_count(&program(16)), Ok(()));
    assert_eq!(
        validate_per_page_instruction_count(&program(17)),
        Err(ValidationError::PageLength { len: 17 })
    );
}

#[test]
fn a_program_takes_up_to_ninety_six_instructions() {
    assert_eq!(validate_total_instruction_count(&program(0)), Ok(()));
    assert_eq!(validate_total_instruction_count(&program(96)), Ok(()));
    assert_eq!(
        validate_total_instruction_count(&program(97)),
        Err(ValidationError::ProgramLength { len: 97 })
    );
}

#[test]
fn a_program_counter_points_into_program_memory() {
    assert_eq!(validate_program_counter(0), Ok(()));
    assert_eq!(validate_program_counter(95), Ok(()));
    assert_eq!(
        validate_program_counter(96),
        Err(ValidationError::ProgramCounter { counter: 96 })
    );
}

#[test]
fn a_slot_takes_two_addresses_from_the_base_on() {
    assert_eq!(instruction_address(0), Ok(0x50));
    assert_eq!(instruction_address(1), Ok(0x52));
    assert_eq!(instruction_address(15), Ok(0x6E));
    assert_eq!(
        instruction_address(16),
        Err(ValidationError::InstructionIndex { index: 16 })
    );
}

#[test]
fn the_bytes_of_a_page_are_high_byte_then_low_byte() {
    let bytes = page_bytes(&[
        Instruction { msb: 0x12, lsb: 0x34 },
        Instruction { msb: 0xAB, lsb: 0xCD },
    ]);
    assert_eq!(bytes, vec![0x12, 0x34, 0xAB, 0xCD]);
    assert!(page_bytes(&[]).is_empty());
}

#[test]
fn bytes_read_back_are_the_instructions_written() {
    let program = program(16);
    assert_eq!(decode_instructions(&page_bytes(&program)), program);
    assert_eq!(
        decode_instructions(&[0x9D, 0x80, 0xC0, 0x00]),
        vec![Instruction::mux_map_next(), Instruction::end(false, false)]
    );
}

#[test]
fn a_byte_without_a_partner_is_left_out() {
    assert_eq!(
        decode_instructions(&[0x40, 0x7F, 0x99]),
        vec![Instruction { msb: 0x40, lsb: 0x7F }]
    );
    assert!(decode_instructions(&[0x40]).is_empty());
    assert!(decode_instructions(&[]).is_empty());
}

#[test]
fn two_bit_patterns_name_the_modes() {
    assert_eq!(EngineMode::from_bits(0), Ok(EngineMode::Disabled));
    assert_eq!(EngineMode::from_bits(1), Ok(EngineMode::LoadProgram));
    assert_eq!(EngineMode::from_bits(2), Ok(EngineMode::RunProgram));
    assert_eq!(EngineMode::from_bits(3), Ok(EngineMode::Halt));
    assert_eq!(EngineExec::from_bits(0), Ok(EngineExec::Hold));
    assert_eq!(EngineExec::from_bits(1), Ok(EngineExec::Step));
    assert_eq!(EngineExec::from_bits(2), Ok(EngineExec::Free));
    assert_eq!(EngineExec::from_bits(3), Ok(EngineExec::ExecuteOnce));
    assert_eq!(ChargePumpMode::from_bits(0), Ok(ChargePumpMode::Off));
    assert_eq!(ChargePumpMode::from_bits(1), Ok(ChargePumpMode::Bypass));
    assert_eq!(ChargePumpMode::from_bits(2), Ok(ChargePumpMode::Boosted));
    assert_eq!(ChargePumpMode::from_bits(3), Ok(ChargePumpMode::Auto));
    assert_eq!(ClockSelection::from_bits(0), Ok(ClockSelection::ForceExternal));
    assert_eq!(ClockSelection::from_bits(1), Ok(ClockSelection::ForceInternal));
    assert_eq!(ClockSelection::from_bits(2), Ok(ClockSelection::Automatic));
    assert_eq!(ClockSelection::from_bits(3), Ok(ClockSelection::PreferInternal));
    for value in 0..4 {
        assert_eq!(EngineMode::from_bits(value).unwrap().bits(), value);
        assert_eq!(EngineExec::from_bits(value).unwrap().bits(), value);
        assert_eq!(ChargePumpMode::from_bits(value).unwrap().bits(), value);
        assert_eq!(ClockSelection::from_bits(value).unwrap().bits(), value);
    }
}

#[test]
fn other_bit_patterns_name_no_mode() {
    for value in 4..=255u8 {
        let refused = ValidationError::RawBits { value };
        assert_eq!(EngineMode::from_bits(value), Err(refused));
        assert_eq!(EngineExec::from_bits(value), Err(refused));
        assert_eq!(ChargePumpMode::from_bits(value), Err(refused));
        assert_eq!(ClockSelection::from_bits(value), Err(refused));
    }
}

#[test]
fn the_misc_register_holds_each_setting_in_its_field() {
    let misc = Misc {
        auto_increment_enabled: true,
        powersave_enabled: false,
        charge_pump_mode: ChargePumpMode::Auto,
        pwm_powersave_enabled: true,
        clock_selection: ClockSelection::ForceInternal,
    };
    assert_eq!(misc.to_register(), 0b0101_1101);
    assert_eq!(Misc::from_register(0b0101_1101), misc);
    let other = Misc {
        auto_increment_enabled: false,
        powersave_enabled: true,
        charge_pump_mode: ChargePumpMode::Bypass,
        pwm_powersave_enabled: false,
        clock_selection: ClockSelection::Automatic,
    };
    assert_eq!(other.to_register(), 0b0010_1010);
    assert_eq!(Misc::from_register(0b1010_1010), other);
}

#[test]
fn misc_settings_written_are_the_settings_read_back() {
    let pumps = [
        ChargePumpMode::Off,
        ChargePumpMode::Bypass,
        ChargePumpMode::Boosted,
        ChargePumpMode::Auto,
    ];
    let clocks = [
        ClockSelection::ForceExternal,
        ClockSelection::ForceInternal,
        ClockSelection::Automatic,
        ClockSelection::PreferInternal,
    ];
    for flags in 0..8u8 {
        for charge_pump_mode in pumps {
            for clock_selection in clocks {
                let misc = Misc {
                    auto_increment_enabled: flags & 1 != 0,
                    powersave_enabled: flags & 2 != 0,
                    charge_pump_mode,
                    pwm_powersave_enabled: flags & 4 != 0,
                    clock_selection,
                };
                assert_eq!(Misc::from_register(misc.to_register()), misc);
                assert_eq!(misc.to_register() & 0b1000_0000, 0);
            }
        }
    }
}

#[test]
fn an_operand_out_of_range_is_a_rejected_argument() {
    let range = RangeError { value: 64, max: 63 };
    assert_eq!(ValidationError::from(range), ValidationError::Operand(range));
    let error: Error<()> = Error::from(ValidationError::PageIndex { page: 9 });
    assert_eq!(error, Error::Validation(ValidationError::PageIndex { page: 9 }));
}
