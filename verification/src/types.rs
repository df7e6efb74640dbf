//! Identifiers of the chip's outputs, faders and engines, and the settings
//! that its control registers hold.

use vstd::prelude::*;
use crate::error::ValidationError;
use crate::mask::{lemma_field_shapes, Mask};

verus! {

/// Output channels.
#[derive(Copy, Clone, Debug, PartialEq, Eq, Structural)]
pub enum Channel {
    D1,
    D2,
    D3,
    D4,
    D5,
    D6,
    D7,
    D8,
    D9,
}

impl Channel {
    /// Position of the channel, counted from 0 for `D1`.
    pub open spec fn spec_index(self) -> u8 {
        match self {
            Channel::D1 => 0,
            Channel::D2 => 1,
            Channel::D3 => 2,
            Channel::D4 => 3,
            Channel::D5 => 4,
            Channel::D6 => 5,
            Channel::D7 => 6,
            Channel::D8 => 7,
            Channel::D9 => 8,
        }
    }

    /// Position of the channel, counted from 0 for `D1`.
    #[verifier::when_used_as_spec(spec_index)]
    pub fn index(self) -> (r: u8)
        ensures
            r == self.spec_index(),
            r < 9,
    {
        match self {
            Channel::D1 => 0,
            Channel::D2 => 1,
            Channel::D3 => 2,
            Channel::D4 => 3,
            Channel::D5 => 4,
            Channel::D6 => 5,
            Channel::D7 => 6,
            Channel::D8 => 7,
            Channel::D9 => 8,
        }
    }
}

/// Master faders.
#[derive(Copy, Clone, Debug, PartialEq, Eq, Structural)]
pub enum Fader {
    F1,
    F2,
    F3,
}

impl Fader {
    /// Position of the fader, counted from 0 for `F1`.
    pub open spec fn spec_index(self) -> u8 {
        match self {
            Fader::F1 => 0,
            Fader::F2 => 1,
            Fader::F3 => 2,
        }
    }

    /// Position of the fader, counted from 0 for `F1`.
    #[verifier::when_used_as_spec(spec_index)]
    pub fn index(self) -> (r: u8)
        ensures
            r == self.spec_index(),
            r < 3,
    {
        match self {
            Fader::F1 => 0,
            Fader::F2 => 1,
            Fader::F3 => 2,
        }
    }
}

/// Programming engines.
#[derive(Copy, Clone, Debug, PartialEq, Eq, Structural)]
pub enum Engine {
    E1,
    E2,
    E3,
}

impl Engine {
    /// Position of the engine, counted from 0 for `E1`.
    pub open spec fn spec_index(self) -> u8 {
        match self {
            Engine::E1 => 0,
            Engine::E2 => 1,
            Engine::E3 => 2,
        }
    }

    /// Position of the engine, counted from 0 for `E1`.
    #[verifier::when_used_as_spec(spec_index)]
    pub fn index(self) -> (r: u8)
        ensures
            r == self.spec_index(),
            r < 3,
    {
        match self {
            Engine::E1 => 0,
            Engine::E2 => 1,
            Engine::E3 => 2,
        }
    }
}

/// Engine execution control modes.
#[derive(Copy, Clone, Debug, PartialEq, Eq, Structural)]
pub enum EngineExec {
    Hold,
    Step,
    Free,
    ExecuteOnce,
}

impl EngineExec {
    /// The two bits that stand for the mode in its register field.
    pub open spec fn spec_bits(self) -> u8 {
        match self {
            EngineExec::Hold => 0,
            EngineExec::Step => 1,
            EngineExec::Free => 2,
            EngineExec::ExecuteOnce => 3,
        }
    }

    /// The two bits that stand for the mode in its register field.
    #[verifier::when_used_as_spec(spec_bits)]
    pub fn bits(self) -> (r: u8)
        ensures
            r == self.spec_bits(),
            r < 4,
    {
        match self {
            EngineExec::Hold => 0,
            EngineExec::Step => 1,
            EngineExec::Free => 2,
            EngineExec::ExecuteOnce => 3,
        }
    }

    /// The mode that `value` stands for; values above 3 stand for none.
    pub open spec fn spec_from_bits(value: u8) -> Option<EngineExec> {
        match value {
            0 => Some(EngineExec::Hold),
            1 => Some(EngineExec::Step),
            2 => Some(EngineExec::Free),
            3 => Some(EngineExec::ExecuteOnce),
            _ => None,
        }
    }

    /// The mode that `value` stands for; values above 3 stand for none.
    pub fn from_bits(value: u8) -> (r: Result<EngineExec, ValidationError>)
        ensures
            r == (match EngineExec::spec_from_bits(value) {
                Some(found) => Ok::<EngineExec, ValidationError>(found),
                None => Err::<EngineExec, ValidationError>(ValidationError::RawBits { value }),
            }),
            r is Ok <==> value < 4,
            r matches Ok(found) ==> found.spec_bits() == value,
    {
        match value {
            0 => Ok(EngineExec::Hold),
            1 => Ok(EngineExec::Step),
            2 => Ok(EngineExec::Free),
            3 => Ok(EngineExec::ExecuteOnce),
            _ => Err(ValidationError::RawBits { value }),
        }
    }
}

/// Engine modes: the state an engine is in.
#[derive(Copy, Clone, Debug, PartialEq, Eq, Structural)]
pub enum EngineMode {
    Disabled,
    LoadProgram,
    RunProgram,
    Halt,
}

impl EngineMode {
    /// The two bits that stand for the mode in its register field.
    pub open spec fn spec_bits(self) -> u8 {
        match self {
            EngineMode::Disabled => 0,
            EngineMode::LoadProgram => 1,
            EngineMode::RunProgram => 2,
            EngineMode::Halt => 3,
        }
    }

    /// The two bits that stand for the mode in its register field.
    #[verifier::when_used_as_spec(spec_bits)]
    pub fn bits(self) -> (r: u8)
        ensures
            r == self.spec_bits(),
            r < 4,
    {
        match self {
            EngineMode::Disabled => 0,
            EngineMode::LoadProgram => 1,
            EngineMode::RunProgram => 2,
            EngineMode::Halt => 3,
        }
    }

    /// The mode that `value` stands for; values above 3 stand for none.
    pub open spec fn spec_from_bits(value: u8) -> Option<EngineMode> {
        match value {
            0 => Some(EngineMode::Disabled),
            1 => Some(EngineMode::LoadProgram),
            2 => Some(EngineMode::RunProgram),
            3 => Some(EngineMode::Halt),
            _ => None,
        }
    }

    /// The mode that `value` stands for; values above 3 stand for none.
    pub fn from_bits(value: u8) -> (r: Result<EngineMode, ValidationError>)
        ensures
            r == (match EngineMode::spec_from_bits(value) {
                Some(found) => Ok::<EngineMode, ValidationError>(found),
                None => Err::<EngineMode, ValidationError>(ValidationError::RawBits { value }),
            }),
            r is Ok <==> value < 4,
            r matches Ok(found) ==> found.spec_bits() == value,
    {
        match value {
            0 => Ok(EngineMode::Disabled),
            1 => Ok(EngineMode::LoadProgram),
            2 => Ok(EngineMode::RunProgram),
            3 => Ok(EngineMode::Halt),
            _ => Err(ValidationError::RawBits { value }),
        }
    }
}

/// Charge pump modes.
#[derive(Copy, Clone, Debug, PartialEq, Eq, Structural)]
pub enum ChargePumpMode {
    Off,
    Bypass,
    Boosted,
    Auto,
}

impl ChargePumpMode {
    /// The two bits that stand for the mode in its register field.
    pub open spec fn spec_bits(self) -> u8 {
        match self {
            ChargePumpMode::Off => 0,
            ChargePumpMode::Bypass => 1,
            ChargePumpMode::Boosted => 2,
            ChargePumpMode::Auto => 3,
        }
    }

    /// The two bits that stand for the mode in its register field.
    #[verifier::when_used_as_spec(spec_bits)]
    pub fn bits(self) -> (r: u8)
        ensures
            r == self.spec_bits(),
            r < 4,
    {
        match self {
            ChargePumpMode::Off => 0,
            ChargePumpMode::Bypass => 1,
            ChargePumpMode::Boosted => 2,
            ChargePumpMode::Auto => 3,
        }
    }

    /// The mode that `value` stands for; values above 3 stand for none.
    pub open spec fn spec_from_bits(value: u8) -> Option<ChargePumpMode> {
        match value {
            0 => Some(ChargePumpMode::Off),
            1 => Some(ChargePumpMode::Bypass),
            2 => Some(ChargePumpMode::Boosted),
            3 => Some(ChargePumpMode::Auto),
            _ => None,
        }
    }

    /// The mode that `value` stands for; values above 3 stand for none.
    pub fn from_bits(value: u8) -> (r: Result<ChargePumpMode, ValidationError>)
        ensures
            r == (match ChargePumpMode::spec_from_bits(value) {
                Some(found) => Ok::<ChargePumpMode, ValidationError>(found),
                None => Err::<ChargePumpMode, ValidationError>(ValidationError::RawBits { value }),
            }),
            r is Ok <==> value < 4,
            r matches Ok(found) ==> found.spec_bits() == value,
    {
        match value {
            0 => Ok(ChargePumpMode::Off),
            1 => Ok(ChargePumpMode::Bypass),
            2 => Ok(ChargePumpMode::Boosted),
            3 => Ok(ChargePumpMode::Auto),
            _ => Err(ValidationError::RawBits { value }),
        }
    }
}

/// Clock selection.
#[derive(Copy, Clone, Debug, PartialEq, Eq, Structural)]
pub enum ClockSelection {
    ForceExternal,
    ForceInternal,
    Automatic,
    PreferInternal,
}

impl ClockSelection {
    /// The two bits that stand for the selection in its register field.
    pub open spec fn spec_bits(self) -> u8 {
        match self {
            ClockSelection::ForceExternal => 0,
            ClockSelection::ForceInternal => 1,
            ClockSelection::Automatic => 2,
            ClockSelection::PreferInternal => 3,
        }
    }

    /// The two bits that stand for the selection in its register field.
    #[verifier::when_used_as_spec(spec_bits)]
    pub fn bits(self) -> (r: u8)
        ensures
            r == self.spec_bits(),
            r < 4,
    {
        match self {
            ClockSelection::ForceExternal => 0,
            ClockSelection::ForceInternal => 1,
            ClockSelection::Automatic => 2,
            ClockSelection::PreferInternal => 3,
        }
    }

    /// The selection that `value` stands for; values above 3 stand for none.
    pub open spec fn spec_from_bits(value: u8) -> Option<ClockSelection> {
        match value {
            0 => Some(ClockSelection::ForceExternal),
            1 => Some(ClockSelection::ForceInternal),
            2 => Some(ClockSelection::Automatic),
            3 => Some(ClockSelection::PreferInternal),
            _ => None,
        }
    }

    /// The selection that `value` stands for; values above 3 stand for none.
    pub fn from_bits(value: u8) -> (r: Result<ClockSelection, ValidationError>)
        ensures
            r == (match ClockSelection::spec_from_bits(value) {
                Some(found) => Ok::<ClockSelection, ValidationError>(found),
                None => Err::<ClockSelection, ValidationError>(ValidationError::RawBits { value }),
            }),
            r is Ok <==> value < 4,
            r matches Ok(found) ==> found.spec_bits() == value,
    {
        match value {
            0 => Ok(ClockSelection::ForceExternal),
            1 => Ok(ClockSelection::ForceInternal),
            2 => Ok(ClockSelection::Automatic),
            3 => Ok(ClockSelection::PreferInternal),
            _ => Err(ValidationError::RawBits { value }),
        }
    }
}

/// Miscellaneous settings.
#[derive(Copy, Clone, Debug, PartialEq, Eq, Structural)]
pub struct Misc {
    /// Register addresses advance by themselves within one bus transfer.
    pub auto_increment_enabled: bool,
    /// The chip saves power while no engine runs.
    pub powersave_enabled: bool,
    /// How the charge pump is operated.
    pub charge_pump_mode: ChargePumpMode,
    /// The PWM outputs save power.
    pub pwm_powersave_enabled: bool,
    /// Which clock the chip runs on.
    pub clock_selection: ClockSelection,
}

/// The bit that stands for a switch: 1 for on, 0 for off.
pub open spec fn spec_flag(on: bool) -> u8 {
    if on {
        1
    } else {
        0
    }
}

/// The bit that stands for a switch: 1 for on, 0 for off.
#[verifier::when_used_as_spec(spec_flag)]
pub fn flag(on: bool) -> (r: u8)
    ensures
        r == spec_flag(on),
{
    if on {
        1
    } else {
        0
    }
}

impl Misc {
    /// The byte of the MISC register that holds the settings: each in its
    /// field, all other bits zero.
    pub open spec fn spec_to_register(self) -> u8 {
        (spec_flag(self.auto_increment_enabled) << Mask::EN_AUTO_INCR.shift()) | (spec_flag(
            self.powersave_enabled,
        ) << Mask::POWERSAVE_EN.shift()) | (self.charge_pump_mode.spec_bits()
            << Mask::CP_MODE.shift()) | (spec_flag(self.pwm_powersave_enabled)
            << Mask::PWM_PS_EN.shift()) | (self.clock_selection.spec_bits()
            << Mask::CLK_DET_EN.shift())
    }

    /// The settings that a byte of the MISC register holds.
    pub open spec fn spec_from_register(value: u8) -> Misc {
        Misc {
            auto_increment_enabled: Mask::EN_AUTO_INCR.spec_value(value) != 0,
            powersave_enabled: Mask::POWERSAVE_EN.spec_value(value) != 0,
            charge_pump_mode: ChargePumpMode::spec_from_bits(
                Mask::CP_MODE.spec_value(value),
            ).unwrap(),
            pwm_powersave_enabled: Mask::PWM_PS_EN.spec_value(value) != 0,
            clock_selection: ClockSelection::spec_from_bits(
                Mask::CLK_DET_EN.spec_value(value),
            ).unwrap(),
        }
    }

    /// The byte of the MISC register that holds the settings.
    pub fn to_register(&self) -> (r: u8)
        ensures
            r == self.spec_to_register(),
    {
        proof {
            lemma_field_shapes();
        }
        let en_auto_incr = Mask::EN_AUTO_INCR.with(flag(self.auto_increment_enabled)).unwrap();
        let powersave_en = Mask::POWERSAVE_EN.with(flag(self.powersave_enabled)).unwrap();
        let cp_mode = Mask::CP_MODE.with(self.charge_pump_mode.bits()).unwrap();
        let pwm_ps_en = Mask::PWM_PS_EN.with(flag(self.pwm_powersave_enabled)).unwrap();
        let clk_det_en = Mask::CLK_DET_EN.with(self.clock_selection.bits()).unwrap();
        en_auto_incr | powersave_en | cp_mode | pwm_ps_en | clk_det_en
    }

    /// The settings that a byte of the MISC register holds.
    pub fn from_register(value: u8) -> (r: Misc)
        ensures
            r == Misc::spec_from_register(value),
    {
        proof {
            lemma_field_shapes();
        }
        Misc {
            auto_increment_enabled: Mask::EN_AUTO_INCR.is_set(value),
            powersave_enabled: Mask::POWERSAVE_EN.is_set(value),
            charge_pump_mode: ChargePumpMode::from_bits(Mask::CP_MODE.value(value)).unwrap(),
            pwm_powersave_enabled: Mask::PWM_PS_EN.is_set(value),
            clock_selection: ClockSelection::from_bits(Mask::CLK_DET_EN.value(value)).unwrap(),
        }
    }
}

/// Settings written to the MISC register and read back are the settings
/// that were written.
pub proof fn lemma_misc_round_trip(misc: Misc)
    ensures
        Misc::spec_from_register(misc.spec_to_register()) == misc,
{
    lemma_field_shapes();
    let a = spec_flag(misc.auto_increment_enabled);
    let b = spec_flag(misc.powersave_enabled);
    let c = misc.charge_pump_mode.spec_bits();
    let d = spec_flag(misc.pwm_powersave_enabled);
    let e = misc.clock_selection.spec_bits();
    assert({
        let byte = (a << 6u8) | (b << 5u8) | (c << 3u8) | (d << 2u8) | (e << 0u8);
        &&& (byte & 0b0100_0000) >> 6u8 == a
        &&& (byte & 0b0010_0000) >> 5u8 == b
        &&& (byte & 0b0001_1000) >> 3u8 == c
        &&& (byte & 0b0000_0100) >> 2u8 == d
        &&& (byte & 0b0000_0011) >> 0u8 == e
    }) by (bit_vector)
        requires
            a < 2,
            b < 2,
            c < 4,
            d < 2,
            e < 4,
    ;
}

} // verus!
