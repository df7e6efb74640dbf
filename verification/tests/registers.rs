use lp55231::{Channel, Engine, Fader, Register, PROG_MEM_BASE};

fn channels() -> [Channel; 9] {
    [
        Channel::D1,
        Channel::D2,
        Channel::D3,
        Channel::D4,
        Channel::D5,
        Channel::D6,
        Channel::D7,
        Channel::D8,
        Channel::D9,
    ]
}

#[test]
fn every_register_has_the_address_of_the_data_sheet() {
    let registers = vec![
        (Register::ENABLE_ENGINE_CNTRL1, 0x00),
        (Register::ENGINE_CNTRL_2, 0x01),
        (Register::OUTPUT_DIRECT_RATIOMETRIC_MSB, 0x02),
        (Register::OUTPUT_DIRECT_RATIOMETRIC_LSB, 0x03),
        (Register::OUTPUT_ON_OFF_CONTROL_MSB, 0x04),
        (Register::OUTPUT_ON_OFF_CONTROL_LSB, 0x05),
        (Register::D1_CONTROL, 0x06),
        (Register::D2_CONTROL, 0x07),
        (Register::D3_CONTROL, 0x08),
        (Register::D4_CONTROL, 0x09),
        (Register::D5_CONTROL, 0x0A),
        (Register::D6_CONTROL, 0x0B),
        (Register::D7_CONTROL, 0x0C),
        (Register::D8_CONTROL, 0x0D),
        (Register::D9_CONTROL, 0x0E),
        (Register::D1_PWM, 0x16),
        (Register::D2_PWM, 0x17),
        (Register::D3_PWM, 0x18),
        (Register::D4_PWM, 0x19),
        (Register::D5_PWM, 0x1A),
        (Register::D6_PWM, 0x1B),
        (Register::D7_PWM, 0x1C),
        (Register::D8_PWM, 0x1D),
        (Register::D9_PWM, 0x1E),
        (Register::D1_CURRENT_CONTROL, 0x26),
        (Register::D2_CURRENT_CONTROL, 0x27),
        (Register::D3_CURRENT_CONTROL, 0x28),
        (Register::D4_CURRENT_CONTROL, 0x29),
        (Register::D5_CURRENT_CONTROL, 0x2A),
        (Register::D6_CURRENT_CONTROL, 0x2B),
        (Register::D7_CURRENT_CONTROL, 0x2C),
        (Register::D8_CURRENT_CONTROL, 0x2D),
        (Register::D9_CURRENT_CONTROL, 0x2E),
        (Register::MISC, 0x36),
        (Register::ENGINE1_PC, 0x37),
        (Register::ENGINE2_PC, 0x38),
        (Register::ENGINE3_PC, 0x39),
        (Register::STATUS_INTERRUPT, 0x3A),
        (Register::INT_GPO, 0x3B),
        (Register::VARIABLE, 0x3C),
        (Register::RESET, 0x3D),
        (Register::TEMP_ADC_CONTROL, 0x3E),
        (Register::TEMPERATURE_READ, 0x3F),
        (Register::TEMPERATURE_WRITE, 0x40),
        (Register::LED_TEST_CONTROL, 0x41),
        (Register::LED_TEST_ADC, 0x42),
        (Register::ENGINE1_VARIABLE_A, 0x45),
        (Register::ENGINE1_VARIABLE_B, 0x46),
        (Register::ENGINE1_VARIABLE_C, 0x47),
        (Register::MASTER_FADER1, 0x48),
        (Register::MASTER_FADER2, 0x49),
        (Register::MASTER_FADER3, 0x4A),
        (Register::ENG1_PROG_START_ADDR, 0x4C),
        (Register::ENG2_PROG_START_ADDR, 0x4D),
        (Register::ENG3_PROG_START_ADDR, 0x4E),
        (Register::PROG_MEM_PAGE_SEL, 0x4F),
        (Register::PROG_MEM_BASE, 0x50),
    ];
    assert_eq!(registers.len(), 57);
    for (register, address) in registers {
        assert_eq!(register.address(), address, "{:?}", register);
    }
}

#[test]
fn program_memory_begins_at_its_base_register() {
    assert_eq!(Register::PROG_MEM_BASE.address(), PROG_MEM_BASE);
    assert_eq!(PROG_MEM_BASE, 0x50);
}

#[test]
fn the_channels_count_from_zero() {
    for (position, channel) in channels().iter().enumerate() {
        assert_eq!(channel.index() as usize, position);
    }
    assert_eq!(Fader::F1.index(), 0);
    assert_eq!(Fader::F2.index(), 1);
    assert_eq!(Fader::F3.index(), 2);
    assert_eq!(Engine::E1.index(), 0);
    assert_eq!(Engine::E2.index(), 1);
    assert_eq!(Engine::E3.index(), 2);
}

#[test]
fn each_channel_has_its_control_register() {
    assert_eq!(Register::control_for(Channel::D1), Register::D1_CONTROL);
    assert_eq!(Register::control_for(Channel::D5), Register::D5_CONTROL);
    assert_eq!(Register::control_for(Channel::D9), Register::D9_CONTROL);
    for channel in channels() {
        assert_eq!(Register::control_for(channel).address(), 0x06 + channel.index());
    }
}

#[test]
fn each_channel_has_its_pwm_register() {
    assert_eq!(Register::pwm_for(Channel::D1), Register::D1_PWM);
    assert_eq!(Register::pwm_for(Channel::D9), Register::D9_PWM);
    for channel in channels() {
        assert_eq!(Register::pwm_for(channel).address(), 0x16 + channel.index());
    }
}

#[test]
fn each_channel_has_its_current_control_register() {
    assert_eq!(Register::current_control_for(Channel::D1), Register::D1_CURRENT_CONTROL);
    assert_eq!(Register::current_control_for(Channel::D9), Register::D9_CURRENT_CONTROL);
    for channel in channels() {
        assert_eq!(Register::current_control_for(channel).address(), 0x26 + channel.index());
    }
}

#[test]
fn each_fader_has_its_intensity_register() {
    assert_eq!(Register::intensity_for(Fader::F1), Register::MASTER_FADER1);
    assert_eq!(Register::intensity_for(Fader::F2), Register::MASTER_FADER2);
    assert_eq!(Register::intensity_for(Fader::F3), Register::MASTER_FADER3);
    assert_eq!(Register::intensity_for(Fader::F3).address(), 0x4A);
}

#[test]
fn each_engine_has_its_registers() {
    assert_eq!(Register::program_start_for(Engine::E1), Register::ENG1_PROG_START_ADDR);
    assert_eq!(Register::program_start_for(Engine::E2), Register::ENG2_PROG_START_ADDR);
    assert_eq!(Register::program_start_for(Engine::E3), Register::ENG3_PROG_START_ADDR);
    assert_eq!(Register::program_counter_for(Engine::E1), Register::ENGINE1_PC);
    assert_eq!(Register::program_counter_for(Engine::E2), Register::ENGINE2_PC);
    assert_eq!(Register::program_counter_for(Engine::E3), Register::ENGINE3_PC);
    assert_eq!(Register::program_start_for(Engine::E2).address(), 0x4D);
    assert_eq!(Register::program_counter_for(Engine::E3).address(), 0x39);
}
