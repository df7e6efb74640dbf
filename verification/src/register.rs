//! The register map of the chip.

use vstd::prelude::*;
use crate::types::{Channel, Engine, Fader};

verus! {

/// The registers of the chip, by the names of its data sheet. Addresses
/// 0x0F to 0x15, 0x1F to 0x25, 0x2F to 0x35, 0x43, 0x44 and 0x4B are reserved.
/// Program memory takes the 32 addresses from `PROG_MEM_BASE` on.
#[allow(non_camel_case_types)]
#[derive(Copy, Clone, Debug, PartialEq, Eq, Structural)]
pub enum Register {
    ENABLE_ENGINE_CNTRL1,
    ENGINE_CNTRL_2,
    OUTPUT_DIRECT_RATIOMETRIC_MSB,
    OUTPUT_DIRECT_RATIOMETRIC_LSB,
    OUTPUT_ON_OFF_CONTROL_MSB,
    OUTPUT_ON_OFF_CONTROL_LSB,
    D1_CONTROL,
    D2_CONTROL,
    D3_CONTROL,
    D4_CONTROL,
    D5_CONTROL,
    D6_CONTROL,
    D7_CONTROL,
    D8_CONTROL,
    D9_CONTROL,
    D1_PWM,
    D2_PWM,
    D3_PWM,
    D4_PWM,
    D5_PWM,
    D6_PWM,
    D7_PWM,
    D8_PWM,
    D9_PWM,
    D1_CURRENT_CONTROL,
    D2_CURRENT_CONTROL,
    D3_CURRENT_CONTROL,
    D4_CURRENT_CONTROL,
    D5_CURRENT_CONTROL,
    D6_CURRENT_CONTROL,
    D7_CURRENT_CONTROL,
    D8_CURRENT_CONTROL,
    D9_CURRENT_CONTROL,
    MISC,
    ENGINE1_PC,
    ENGINE2_PC,
    ENGINE3_PC,
    STATUS_INTERRUPT,
    INT_GPO,
    VARIABLE,
    RESET,
    TEMP_ADC_CONTROL,
    TEMPERATURE_READ,
    TEMPERATURE_WRITE,
    LED_TEST_CONTROL,
    LED_TEST_ADC,
    ENGINE1_VARIABLE_A,
    ENGINE1_VARIABLE_B,
    ENGINE1_VARIABLE_C,
    MASTER_FADER1,
    MASTER_FADER2,
    MASTER_FADER3,
    ENG1_PROG_START_ADDR,
    ENG2_PROG_START_ADDR,
    ENG3_PROG_START_ADDR,
    PROG_MEM_PAGE_SEL,
    PROG_MEM_BASE,
}

impl Register {
    /// The address of the register on the bus.
    pub open spec fn spec_address(self) -> u8 {
        match self {
            Register::ENABLE_ENGINE_CNTRL1 => 0x00,
            Register::ENGINE_CNTRL_2 => 0x01,
            Register::OUTPUT_DIRECT_RATIOMETRIC_MSB => 0x02,
            Register::OUTPUT_DIRECT_RATIOMETRIC_LSB => 0x03,
            Register::OUTPUT_ON_OFF_CONTROL_MSB => 0x04,
            Register::OUTPUT_ON_OFF_CONTROL_LSB => 0x05,
            Register::D1_CONTROL => 0x06,
            Register::D2_CONTROL => 0x07,
            Register::D3_CONTROL => 0x08,
            Register::D4_CONTROL => 0x09,
            Register::D5_CONTROL => 0x0A,
            Register::D6_CONTROL => 0x0B,
            Register::D7_CONTROL => 0x0C,
            Register::D8_CONTROL => 0x0D,
            Register::D9_CONTROL => 0x0E,
            Register::D1_PWM => 0x16,
            Register::D2_PWM => 0x17,
            Register::D3_PWM => 0x18,
            Register::D4_PWM => 0x19,
            Register::D5_PWM => 0x1A,
            Register::D6_PWM => 0x1B,
            Register::D7_PWM => 0x1C,
            Register::D8_PWM => 0x1D,
            Register::D9_PWM => 0x1E,
            Register::D1_CURRENT_CONTROL => 0x26,
            Register::D2_CURRENT_CONTROL => 0x27,
            Register::D3_CURRENT_CONTROL => 0x28,
            Register::D4_CURRENT_CONTROL => 0x29,
            Register::D5_CURRENT_CONTROL => 0x2A,
            Register::D6_CURRENT_CONTROL => 0x2B,
            Register::D7_CURRENT_CONTROL => 0x2C,
            Register::D8_CURRENT_CONTROL => 0x2D,
            Register::D9_CURRENT_CONTROL => 0x2E,
            Register::MISC => 0x36,
            Register::ENGINE1_PC => 0x37,
            Register::ENGINE2_PC => 0x38,
            Register::ENGINE3_PC => 0x39,
            Register::STATUS_INTERRUPT => 0x3A,
            Register::INT_GPO => 0x3B,
            Register::VARIABLE => 0x3C,
            Register::RESET => 0x3D,
            Register::TEMP_ADC_CONTROL => 0x3E,
            Register::TEMPERATURE_READ => 0x3F,
            Register::TEMPERATURE_WRITE => 0x40,
            Register::LED_TEST_CONTROL => 0x41,
            Register::LED_TEST_ADC => 0x42,
            Register::ENGINE1_VARIABLE_A => 0x45,
            Register::ENGINE1_VARIABLE_B => 0x46,
            Register::ENGINE1_VARIABLE_C => 0x47,
            Register::MASTER_FADER1 => 0x48,
            Register::MASTER_FADER2 => 0x49,
            Register::MASTER_FADER3 => 0x4A,
            Register::ENG1_PROG_START_ADDR => 0x4C,
            Register::ENG2_PROG_START_ADDR => 0x4D,
            Register::ENG3_PROG_START_ADDR => 0x4E,
            Register::PROG_MEM_PAGE_SEL => 0x4F,
            Register::PROG_MEM_BASE => 0x50,
        }
    }

    /// The address of the register on the bus.
    #[verifier::when_used_as_spec(spec_address)]
    pub fn address(self) -> (r: u8)
        ensures
            r == self.spec_address(),
            r <= 0x50,
    {
        match self {
            Register::ENABLE_ENGINE_CNTRL1 => 0x00,
            Register::ENGINE_CNTRL_2 => 0x01,
            Register::OUTPUT_DIRECT_RATIOMETRIC_MSB => 0x02,
            Register::OUTPUT_DIRECT_RATIOMETRIC_LSB => 0x03,
            Register::OUTPUT_ON_OFF_CONTROL_MSB => 0x04,
            Register::OUTPUT_ON_OFF_CONTROL_LSB => 0x05,
            Register::D1_CONTROL => 0x06,
            Register::D2_CONTROL => 0x07,
            Register::D3_CONTROL => 0x08,
            Register::D4_CONTROL => 0x09,
            Register::D5_CONTROL => 0x0A,
            Register::D6_CONTROL => 0x0B,
            Register::D7_CONTROL => 0x0C,
            Register::D8_CONTROL => 0x0D,
            Register::D9_CONTROL => 0x0E,
            Register::D1_PWM => 0x16,
            Register::D2_PWM => 0x17,
            Register::D3_PWM => 0x18,
            Register::D4_PWM => 0x19,
            Register::D5_PWM => 0x1A,
            Register::D6_PWM => 0x1B,
            Register::D7_PWM => 0x1C,
            Register::D8_PWM => 0x1D,
            Register::D9_PWM => 0x1E,
            Register::D1_CURRENT_CONTROL => 0x26,
            Register::D2_CURRENT_CONTROL => 0x27,
            Register::D3_CURRENT_CONTROL => 0x28,
            Register::D4_CURRENT_CONTROL => 0x29,
            Register::D5_CURRENT_CONTROL => 0x2A,
            Register::D6_CURRENT_CONTROL => 0x2B,
            Register::D7_CURRENT_CONTROL => 0x2C,
            Register::D8_CURRENT_CONTROL => 0x2D,
            Register::D9_CURRENT_CONTROL => 0x2E,
            Register::MISC => 0x36,
            Register::ENGINE1_PC => 0x37,
            Register::ENGINE2_PC => 0x38,
            Register::ENGINE3_PC => 0x39,
            Register::STATUS_INTERRUPT => 0x3A,
            Register::INT_GPO => 0x3B,
            Register::VARIABLE => 0x3C,
            Register::RESET => 0x3D,
            Register::TEMP_ADC_CONTROL => 0x3E,
            Register::TEMPERATURE_READ => 0x3F,
            Register::TEMPERATURE_WRITE => 0x40,
            Register::LED_TEST_CONTROL => 0x41,
            Register::LED_TEST_ADC => 0x42,
            Register::ENGINE1_VARIABLE_A => 0x45,
            Register::ENGINE1_VARIABLE_B => 0x46,
            Register::ENGINE1_VARIABLE_C => 0x47,
            Register::MASTER_FADER1 => 0x48,
            Register::MASTER_FADER2 => 0x49,
            Register::MASTER_FADER3 => 0x4A,
            Register::ENG1_PROG_START_ADDR => 0x4C,
            Register::ENG2_PROG_START_ADDR => 0x4D,
            Register::ENG3_PROG_START_ADDR => 0x4E,
            Register::PROG_MEM_PAGE_SEL => 0x4F,
            Register::PROG_MEM_BASE => 0x50,
        }
    }

    /// The control register of `channel`.
    pub open spec fn spec_control_for(channel: Channel) -> Register {
        match channel {
            Channel::D1 => Register::D1_CONTROL,
            Channel::D2 => Register::D2_CONTROL,
            Channel::D3 => Register::D3_CONTROL,
            Channel::D4 => Register::D4_CONTROL,
            Channel::D5 => Register::D5_CONTROL,
            Channel::D6 => Register::D6_CONTROL,
            Channel::D7 => Register::D7_CONTROL,
            Channel::D8 => Register::D8_CONTROL,
            Channel::D9 => Register::D9_CONTROL,
        }
    }

    /// The control register of `channel`.
    #[verifier::when_used_as_spec(spec_control_for)]
    pub fn control_for(channel: Channel) -> (r: Register)
        ensures
            r == Register::spec_control_for(channel),
            r.spec_address() == 0x06 + channel.spec_index(),
    {
        match channel {
            Channel::D1 => Register::D1_CONTROL,
            Channel::D2 => Register::D2_CONTROL,
            Channel::D3 => Register::D3_CONTROL,
            Channel::D4 => Register::D4_CONTROL,
            Channel::D5 => Register::D5_CONTROL,
            Channel::D6 => Register::D6_CONTROL,
            Channel::D7 => Register::D7_CONTROL,
            Channel::D8 => Register::D8_CONTROL,
            Channel::D9 => Register::D9_CONTROL,
        }
    }

    /// The PWM register of `channel`.
    pub open spec fn spec_pwm_for(channel: Channel) -> Register {
        match channel {
            Channel::D1 => Register::D1_PWM,
            Channel::D2 => Register::D2_PWM,
            Channel::D3 => Register::D3_PWM,
            Channel::D4 => Register::D4_PWM,
            Channel::D5 => Register::D5_PWM,
            Channel::D6 => Register::D6_PWM,
            Channel::D7 => Register::D7_PWM,
            Channel::D8 => Register::D8_PWM,
            Channel::D9 => Register::D9_PWM,
        }
    }

    /// The PWM register of `channel`.
    #[verifier::when_used_as_spec(spec_pwm_for)]
    pub fn pwm_for(channel: Channel) -> (r: Register)
        ensures
            r == Register::spec_pwm_for(channel),
            r.spec_address() == 0x16 + channel.spec_index(),
    {
        match channel {
            Channel::D1 => Register::D1_PWM,
            Channel::D2 => Register::D2_PWM,
            Channel::D3 => Register::D3_PWM,
            Channel::D4 => Register::D4_PWM,
            Channel::D5 => Register::D5_PWM,
            Channel::D6 => Register::D6_PWM,
            Channel::D7 => Register::D7_PWM,
            Channel::D8 => Register::D8_PWM,
            Channel::D9 => Register::D9_PWM,
        }
    }

    /// The current control register of `channel`.
    pub open spec fn spec_current_control_for(channel: Channel) -> Register {
        match channel {
            Channel::D1 => Register::D1_CURRENT_CONTROL,
            Channel::D2 => Register::D2_CURRENT_CONTROL,
            Channel::D3 => Register::D3_CURRENT_CONTROL,
            Channel::D4 => Register::D4_CURRENT_CONTROL,
            Channel::D5 => Register::D5_CURRENT_CONTROL,
            Channel::D6 => Register::D6_CURRENT_CONTROL,
            Channel::D7 => Register::D7_CURRENT_CONTROL,
            Channel::D8 => Register::D8_CURRENT_CONTROL,
            Channel::D9 => Register::D9_CURRENT_CONTROL,
        }
    }

    /// The current control register of `channel`.
    #[verifier::when_used_as_spec(spec_current_control_for)]
    pub fn current_control_for(channel: Channel) -> (r: Register)
        ensures
            r == Register::spec_current_control_for(channel),
            r.spec_address() == 0x26 + channel.spec_index(),
    {
        match channel {
            Channel::D1 => Register::D1_CURRENT_CONTROL,
            Channel::D2 => Register::D2_CURRENT_CONTROL,
            Channel::D3 => Register::D3_CURRENT_CONTROL,
            Channel::D4 => Register::D4_CURRENT_CONTROL,
            Channel::D5 => Register::D5_CURRENT_CONTROL,
            Channel::D6 => Register::D6_CURRENT_CONTROL,
            Channel::D7 => Register::D7_CURRENT_CONTROL,
            Channel::D8 => Register::D8_CURRENT_CONTROL,
            Channel::D9 => Register::D9_CURRENT_CONTROL,
        }
    }

    /// The intensity register of `fader`.
    pub open spec fn spec_intensity_for(fader: Fader) -> Register {
        match fader {
            Fader::F1 => Register::MASTER_FADER1,
            Fader::F2 => Register::MASTER_FADER2,
            Fader::F3 => Register::MASTER_FADER3,
        }
    }

    /// The intensity register of `fader`.
    #[verifier::when_used_as_spec(spec_intensity_for)]
    pub fn intensity_for(fader: Fader) -> (r: Register)
        ensures
            r == Register::spec_intensity_for(fader),
            r.spec_address() == 0x48 + fader.spec_index(),
    {
        match fader {
            Fader::F1 => Register::MASTER_FADER1,
            Fader::F2 => Register::MASTER_FADER2,
            Fader::F3 => Register::MASTER_FADER3,
        }
    }

    /// The register that holds where the program of `engine` starts.
    pub open spec fn spec_program_start_for(engine: Engine) -> Register {
        match engine {
            Engine::E1 => Register::ENG1_PROG_START_ADDR,
            Engine::E2 => Register::ENG2_PROG_START_ADDR,
            Engine::E3 => Register::ENG3_PROG_START_ADDR,
        }
    }

    /// The register that holds where the program of `engine` starts.
    #[verifier::when_used_as_spec(spec_program_start_for)]
    pub fn program_start_for(engine: Engine) -> (r: Register)
        ensures
            r == Register::spec_program_start_for(engine),
            r.spec_address() == 0x4C + engine.spec_index(),
    {
        match engine {
            Engine::E1 => Register::ENG1_PROG_START_ADDR,
            Engine::E2 => Register::ENG2_PROG_START_ADDR,
            Engine::E3 => Register::ENG3_PROG_START_ADDR,
        }
    }

    /// The program counter register of `engine`.
    pub open spec fn spec_program_counter_for(engine: Engine) -> Register {
        match engine {
            Engine::E1 => Register::ENGINE1_PC,
            Engine::E2 => Register::ENGINE2_PC,
            Engine::E3 => Register::ENGINE3_PC,
        }
    }

    /// The program counter register of `engine`.
    #[verifier::when_used_as_spec(spec_program_counter_for)]
    pub fn program_counter_for(engine: Engine) -> (r: Register)
        ensures
            r == Register::spec_program_counter_for(engine),
            r.spec_address() == 0x37 + engine.spec_index(),
    {
        match engine {
            Engine::E1 => Register::ENGINE1_PC,
            Engine::E2 => Register::ENGINE2_PC,
            Engine::E3 => Register::ENGINE3_PC,
        }
    }
}

} // verus!
