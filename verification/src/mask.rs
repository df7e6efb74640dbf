//! The named bit fields of the control and status registers.

use vstd::prelude::*;
use crate::error::RangeError;
use crate::field::{
    field_apply,
    field_extract,
    field_insert,
    field_max,
    field_shift,
    is_contiguous,
    lemma_insert_keeps_other_bits,
    lemma_insert_then_extract,
    lemma_shift,
    BitField,
};
use crate::types::{Channel, Engine};

verus! {

/// If `shift` is the position of the lowest set bit of `mask`, then `mask` is
/// one unbroken run of bits.
spec fn run_from(mask: u8, shift: u8) -> bool {
    (mask >> shift) & 1 == 1 && mask << ((8 - shift) as u8) == 0 ==> (mask >> shift) & (((mask
        >> shift) + 1) as u8) == 0
}

/// Every bit pattern that a named field has is one unbroken run of bits.
proof fn lemma_named_runs(shift: u8)
    by (bit_vector)
    requires
        shift < 8,
    ensures
        run_from(0b0000_0001, shift),
        run_from(0b0000_0010, shift),
        run_from(0b0000_0011, shift),
        run_from(0b0000_0100, shift),
        run_from(0b0000_0111, shift),
        run_from(0b0000_1000, shift),
        run_from(0b0000_1100, shift),
        run_from(0b0001_0000, shift),
        run_from(0b0001_1000, shift),
        run_from(0b0010_0000, shift),
        run_from(0b0011_0000, shift),
        run_from(0b0100_0000, shift),
        run_from(0b1000_0000, shift),
        run_from(0b1100_0000, shift),
        run_from(0b1111_1111, shift),
{
}

/// The named bit fields of the chip's registers, sorted by the register they
/// belong to. Two names may stand for the same bits in different registers.
#[allow(non_camel_case_types)]
#[derive(Clone, Copy, Debug, PartialEq, Eq, Hash, Structural)]
pub enum Mask {
    /// 00 ENABLE / ENGINE CNTRL1: chip enable.
    CHIP_EN,
    /// 00 ENABLE / ENGINE CNTRL1: execution control of engine 1.
    ENGINE1_EXEC,
    /// 00 ENABLE / ENGINE CNTRL1: execution control of engine 2.
    ENGINE2_EXEC,
    /// 00 ENABLE / ENGINE CNTRL1: execution control of engine 3.
    ENGINE3_EXEC,
    /// 01 ENGINE CNTRL2: mode of engine 1.
    ENGINE1_MODE,
    /// 01 ENGINE CNTRL2: mode of engine 2.
    ENGINE2_MODE,
    /// 01 ENGINE CNTRL2: mode of engine 3.
    ENGINE3_MODE,
    /// 02 OUTPUT DIRECT/RATIOMETRIC MSB: channel D9.
    D9_RATIO_EN,
    /// 03 OUTPUT DIRECT/RATIOMETRIC LSB: channel D8.
    D8_RATIO_EN,
    /// 03 OUTPUT DIRECT/RATIOMETRIC LSB: channel D7.
    D7_RATIO_EN,
    /// 03 OUTPUT DIRECT/RATIOMETRIC LSB: channel D6.
    D6_RATIO_EN,
    /// 03 OUTPUT DIRECT/RATIOMETRIC LSB: channel D5.
    D5_RATIO_EN,
    /// 03 OUTPUT DIRECT/RATIOMETRIC LSB: channel D4.
    D4_RATIO_EN,
    /// 03 OUTPUT DIRECT/RATIOMETRIC LSB: channel D3.
    D3_RATIO_EN,
    /// 03 OUTPUT DIRECT/RATIOMETRIC LSB: channel D2.
    D2_RATIO_EN,
    /// 03 OUTPUT DIRECT/RATIOMETRIC LSB: channel D1.
    D1_RATIO_EN,
    /// 04 OUTPUT ON/OFF CONTROL MSB: channel D9.
    D9_ON,
    /// 05 OUTPUT ON/OFF CONTROL LSB: channel D8.
    D8_ON,
    /// 05 OUTPUT ON/OFF CONTROL LSB: channel D7.
    D7_ON,
    /// 05 OUTPUT ON/OFF CONTROL LSB: channel D6.
    D6_ON,
    /// 05 OUTPUT ON/OFF CONTROL LSB: channel D5.
    D5_ON,
    /// 05 OUTPUT ON/OFF CONTROL LSB: channel D4.
    D4_ON,
    /// 05 OUTPUT ON/OFF CONTROL LSB: channel D3.
    D3_ON,
    /// 05 OUTPUT ON/OFF CONTROL LSB: channel D2.
    D2_ON,
    /// 05 OUTPUT ON/OFF CONTROL LSB: channel D1.
    D1_ON,
    /// 06-0E D1-D9 CONTROL: logarithmic dimming.
    LOG_EN,
    /// 06-0E D1-D9 CONTROL: master fader assignment.
    MAPPING,
    /// 36 MISC: register address auto-increment.
    EN_AUTO_INCR,
    /// 36 MISC: power save.
    POWERSAVE_EN,
    /// 36 MISC: charge pump mode.
    CP_MODE,
    /// 36 MISC: PWM power save.
    PWM_PS_EN,
    /// 36 MISC: clock selection.
    CLK_DET_EN,
    /// 3A STATUS/INTERRUPT: LED test measurement done.
    LEDTEST_MEAS_DONE,
    /// 3A STATUS/INTERRUPT: mask busy.
    MASK_BUSY,
    /// 3A STATUS/INTERRUPT: start-up sequence running.
    STARTUP_BUSY,
    /// 3A STATUS/INTERRUPT: an engine is busy.
    ENGINE_BUSY,
    /// 3A STATUS/INTERRUPT: external clock in use.
    EXT_CLK_USED,
    /// 3A STATUS/INTERRUPT: interrupt of engine 1.
    ENG1_INT,
    /// 3A STATUS/INTERRUPT: interrupt of engine 2.
    ENG2_INT,
    /// 3A STATUS/INTERRUPT: interrupt of engine 3.
    ENG3_INT,
    /// 3D RESET: the whole register.
    RESET,
    /// 4F PROG MEM PAGE SELECT: page number.
    PAGE_SEL,
}

impl View for Mask {
    type V = u8;

    /// The bits of the register that belong to the field.
    open spec fn view(&self) -> u8 {
        match self {
            Mask::CHIP_EN => 0b0100_0000,
            Mask::ENGINE1_EXEC => 0b0011_0000,
            Mask::ENGINE2_EXEC => 0b0000_1100,
            Mask::ENGINE3_EXEC => 0b0000_0011,
            Mask::ENGINE1_MODE => 0b0011_0000,
            Mask::ENGINE2_MODE => 0b0000_1100,
            Mask::ENGINE3_MODE => 0b0000_0011,
            Mask::D9_RATIO_EN => 0b0000_0001,
            Mask::D8_RATIO_EN => 0b1000_0000,
            Mask::D7_RATIO_EN => 0b0100_0000,
            Mask::D6_RATIO_EN => 0b0010_0000,
            Mask::D5_RATIO_EN => 0b0001_0000,
            Mask::D4_RATIO_EN => 0b0000_1000,
            Mask::D3_RATIO_EN => 0b0000_0100,
            Mask::D2_RATIO_EN => 0b0000_0010,
            Mask::D1_RATIO_EN => 0b0000_0001,
            Mask::D9_ON => 0b0000_0001,
            Mask::D8_ON => 0b1000_0000,
            Mask::D7_ON => 0b0100_0000,
            Mask::D6_ON => 0b0010_0000,
            Mask::D5_ON => 0b0001_0000,
            Mask::D4_ON => 0b0000_1000,
            Mask::D3_ON => 0b0000_0100,
            Mask::D2_ON => 0b0000_0010,
            Mask::D1_ON => 0b0000_0001,
            Mask::LOG_EN => 0b0010_0000,
            Mask::MAPPING => 0b1100_0000,
            Mask::EN_AUTO_INCR => 0b0100_0000,
            Mask::POWERSAVE_EN => 0b0010_0000,
            Mask::CP_MODE => 0b0001_1000,
            Mask::PWM_PS_EN => 0b0000_0100,
            Mask::CLK_DET_EN => 0b0000_0011,
            Mask::LEDTEST_MEAS_DONE => 0b1000_0000,
            Mask::MASK_BUSY => 0b0100_0000,
            Mask::STARTUP_BUSY => 0b0010_0000,
            Mask::ENGINE_BUSY => 0b0001_0000,
            Mask::EXT_CLK_USED => 0b0000_1000,
            Mask::ENG1_INT => 0b0000_0100,
            Mask::ENG2_INT => 0b0000_0010,
            Mask::ENG3_INT => 0b0000_0001,
            Mask::RESET => 0b1111_1111,
            Mask::PAGE_SEL => 0b0000_0111,
        }
    }
}

impl Mask {
    /// Number of bit positions below the field.
    pub open spec fn shift(self) -> u8 {
        field_shift(self@)
    }

    /// The largest value the field can hold.
    pub open spec fn max_value(self) -> u8 {
        field_max(self@)
    }

    /// What `apply` returns: the byte with the field replaced, or the value
    /// that did not fit together with the largest one that does.
    pub open spec fn spec_apply(self, value: u8, to_byte: u8) -> Result<u8, RangeError> {
        field_apply(self@, value, to_byte)
    }

    /// What `value` returns: the content of the field.
    pub open spec fn spec_value(self, byte: u8) -> u8 {
        field_extract(self@, byte)
    }

    /// The bits of the register that belong to the field.
    pub fn bits(&self) -> (r: u8)
        ensures
            r == self@,
            r != 0,
    {
        match self {
            Mask::CHIP_EN => 0b0100_0000,
            Mask::ENGINE1_EXEC => 0b0011_0000,
            Mask::ENGINE2_EXEC => 0b0000_1100,
            Mask::ENGINE3_EXEC => 0b0000_0011,
            Mask::ENGINE1_MODE => 0b0011_0000,
            Mask::ENGINE2_MODE => 0b0000_1100,
            Mask::ENGINE3_MODE => 0b0000_0011,
            Mask::D9_RATIO_EN => 0b0000_0001,
            Mask::D8_RATIO_EN => 0b1000_0000,
            Mask::D7_RATIO_EN => 0b0100_0000,
            Mask::D6_RATIO_EN => 0b0010_0000,
            Mask::D5_RATIO_EN => 0b0001_0000,
            Mask::D4_RATIO_EN => 0b0000_1000,
            Mask::D3_RATIO_EN => 0b0000_0100,
            Mask::D2_RATIO_EN => 0b0000_0010,
            Mask::D1_RATIO_EN => 0b0000_0001,
            Mask::D9_ON => 0b0000_0001,
            Mask::D8_ON => 0b1000_0000,
            Mask::D7_ON => 0b0100_0000,
            Mask::D6_ON => 0b0010_0000,
            Mask::D5_ON => 0b0001_0000,
            Mask::D4_ON => 0b0000_1000,
            Mask::D3_ON => 0b0000_0100,
            Mask::D2_ON => 0b0000_0010,
            Mask::D1_ON => 0b0000_0001,
            Mask::LOG_EN => 0b0010_0000,
            Mask::MAPPING => 0b1100_0000,
            Mask::EN_AUTO_INCR => 0b0100_0000,
            Mask::POWERSAVE_EN => 0b0010_0000,
            Mask::CP_MODE => 0b0001_1000,
            Mask::PWM_PS_EN => 0b0000_0100,
            Mask::CLK_DET_EN => 0b0000_0011,
            Mask::LEDTEST_MEAS_DONE => 0b1000_0000,
            Mask::MASK_BUSY => 0b0100_0000,
            Mask::STARTUP_BUSY => 0b0010_0000,
            Mask::ENGINE_BUSY => 0b0001_0000,
            Mask::EXT_CLK_USED => 0b0000_1000,
            Mask::ENG1_INT => 0b0000_0100,
            Mask::ENG2_INT => 0b0000_0010,
            Mask::ENG3_INT => 0b0000_0001,
            Mask::RESET => 0b1111_1111,
            Mask::PAGE_SEL => 0b0000_0111,
        }
    }

    /// The field as a run of bits.
    pub fn field(&self) -> (r: BitField)
        ensures
            r@ == self@,
    {
        proof {
            lemma_named_fields_contiguous(*self);
        }
        BitField::new(self.bits()).unwrap()
    }

    /// Replaces the field in `to_byte` by `value` and leaves the other bits
    /// alone. A value too large for the field is refused.
    ///
    /// For `ENGINE2_MODE`, the value `0b10` and the byte `0b1111_1111` the
    /// result is `0b1111_1011`.
    pub fn apply(&self, value: u8, to_byte: u8) -> (r: Result<u8, RangeError>)
        ensures
            r == self.spec_apply(value, to_byte),
    {
        self.field().apply(value, to_byte)
    }

    /// Moves `value` to the position of the field, all other bits zero. A
    /// value too large for the field is refused.
    pub fn with(&self, value: u8) -> (r: Result<u8, RangeError>)
        ensures
            r == self.spec_apply(value, 0),
            r matches Ok(byte) ==> byte == value << self.shift(),
    {
        self.field().with(value)
    }

    /// The value that `byte` holds in the field: its bits under the mask,
    /// moved down to bit 0.
    ///
    /// For `ENGINE2_MODE` and the byte `0b1100_1100` the result is `0b11`.
    pub fn value(&self, byte: u8) -> (r: u8)
        ensures
            r == self.spec_value(byte),
            r <= self.max_value(),
    {
        self.field().value(byte)
    }

    /// Whether any bit of the field is set in `byte`.
    pub fn is_set(&self, byte: u8) -> (r: bool)
        ensures
            r == (self.spec_value(byte) != 0),
            r == (byte & self@ != 0),
    {
        self.field().is_set(byte)
    }

    /// The execution control field of `engine`.
    pub open spec fn spec_exec_for(engine: Engine) -> Mask {
        match engine {
            Engine::E1 => Mask::ENGINE1_EXEC,
            Engine::E2 => Mask::ENGINE2_EXEC,
            Engine::E3 => Mask::ENGINE3_EXEC,
        }
    }

    /// The execution control field of `engine`.
    #[verifier::when_used_as_spec(spec_exec_for)]
    pub fn exec_for(engine: Engine) -> (r: Mask)
        ensures
            r == Mask::spec_exec_for(engine),
    {
        match engine {
            Engine::E1 => Mask::ENGINE1_EXEC,
            Engine::E2 => Mask::ENGINE2_EXEC,
            Engine::E3 => Mask::ENGINE3_EXEC,
        }
    }

    /// The mode field of `engine`.
    pub open spec fn spec_mode_for(engine: Engine) -> Mask {
        match engine {
            Engine::E1 => Mask::ENGINE1_MODE,
            Engine::E2 => Mask::ENGINE2_MODE,
            Engine::E3 => Mask::ENGINE3_MODE,
        }
    }

    /// The mode field of `engine`.
    #[verifier::when_used_as_spec(spec_mode_for)]
    pub fn mode_for(engine: Engine) -> (r: Mask)
        ensures
            r == Mask::spec_mode_for(engine),
    {
        match engine {
            Engine::E1 => Mask::ENGINE1_MODE,
            Engine::E2 => Mask::ENGINE2_MODE,
            Engine::E3 => Mask::ENGINE3_MODE,
        }
    }

    /// The bit that switches `channel` between direct and ratiometric
    /// dimming. `D9` has a register of its own, `D1` to `D8` share one.
    pub open spec fn spec_ratiometric_dimming_for(channel: Channel) -> Mask {
        match channel {
            Channel::D1 => Mask::D1_RATIO_EN,
            Channel::D2 => Mask::D2_RATIO_EN,
            Channel::D3 => Mask::D3_RATIO_EN,
            Channel::D4 => Mask::D4_RATIO_EN,
            Channel::D5 => Mask::D5_RATIO_EN,
            Channel::D6 => Mask::D6_RATIO_EN,
            Channel::D7 => Mask::D7_RATIO_EN,
            Channel::D8 => Mask::D8_RATIO_EN,
            Channel::D9 => Mask::D9_RATIO_EN,
        }
    }

    /// The bit that switches `channel` between direct and ratiometric
    /// dimming. `D9` has a register of its own, `D1` to `D8` share one.
    #[verifier::when_used_as_spec(spec_ratiometric_dimming_for)]
    pub fn ratiometric_dimming_for(channel: Channel) -> (r: Mask)
        ensures
            r == Mask::spec_ratiometric_dimming_for(channel),
    {
        match channel {
            Channel::D1 => Mask::D1_RATIO_EN,
            Channel::D2 => Mask::D2_RATIO_EN,
            Channel::D3 => Mask::D3_RATIO_EN,
            Channel::D4 => Mask::D4_RATIO_EN,
            Channel::D5 => Mask::D5_RATIO_EN,
            Channel::D6 => Mask::D6_RATIO_EN,
            Channel::D7 => Mask::D7_RATIO_EN,
            Channel::D8 => Mask::D8_RATIO_EN,
            Channel::D9 => Mask::D9_RATIO_EN,
        }
    }

    /// The bit that switches `channel` on or off. `D9` has a register of its
    /// own, `D1` to `D8` share one.
    pub open spec fn spec_on_off_for(channel: Channel) -> Mask {
        match channel {
            Channel::D1 => Mask::D1_ON,
            Channel::D2 => Mask::D2_ON,
            Channel::D3 => Mask::D3_ON,
            Channel::D4 => Mask::D4_ON,
            Channel::D5 => Mask::D5_ON,
            Channel::D6 => Mask::D6_ON,
            Channel::D7 => Mask::D7_ON,
            Channel::D8 => Mask::D8_ON,
            Channel::D9 => Mask::D9_ON,
        }
    }

    /// The bit that switches `channel` on or off. `D9` has a register of its
    /// own, `D1` to `D8` share one.
    #[verifier::when_used_as_spec(spec_on_off_for)]
    pub fn on_off_for(channel: Channel) -> (r: Mask)
        ensures
            r == Mask::spec_on_off_for(channel),
    {
        match channel {
            Channel::D1 => Mask::D1_ON,
            Channel::D2 => Mask::D2_ON,
            Channel::D3 => Mask::D3_ON,
            Channel::D4 => Mask::D4_ON,
            Channel::D5 => Mask::D5_ON,
            Channel::D6 => Mask::D6_ON,
            Channel::D7 => Mask::D7_ON,
            Channel::D8 => Mask::D8_ON,
            Channel::D9 => Mask::D9_ON,
        }
    }
}

/// The bit patterns of one and of two bits at the places where the named
/// fields of channels and engines lie.
proof fn lemma_single_bits()
    by (bit_vector)
    ensures
        1u8 << 0u8 == 0b0000_0001,
        1u8 << 1u8 == 0b0000_0010,
        1u8 << 2u8 == 0b0000_0100,
        1u8 << 3u8 == 0b0000_1000,
        1u8 << 4u8 == 0b0001_0000,
        1u8 << 5u8 == 0b0010_0000,
        1u8 << 6u8 == 0b0100_0000,
        1u8 << 7u8 == 0b1000_0000,
        3u8 << 0u8 == 0b0000_0011,
        3u8 << 2u8 == 0b0000_1100,
        3u8 << 4u8 == 0b0011_0000,
{
}

/// Every named field is one unbroken run of bits.
pub proof fn lemma_named_fields_contiguous(mask: Mask)
    ensures
        is_contiguous(mask@),
{
    lemma_shift(mask@);
    lemma_named_runs(field_shift(mask@));
}

/// A value written to a named field is the value read back from it, whatever
/// the byte held before.
pub proof fn lemma_apply_then_value(mask: Mask, value: u8, byte: u8)
    ensures
        mask.spec_apply(value, byte) matches Ok(written) ==> mask.spec_value(written) == value,
{
    lemma_named_fields_contiguous(mask);
    if value <= mask.max_value() {
        lemma_insert_then_extract(mask@, value, byte);
    }
}

/// Writing a named field changes no bit outside it.
pub proof fn lemma_apply_keeps_other_bits(mask: Mask, value: u8, byte: u8)
    ensures
        mask.spec_apply(value, byte) matches Ok(written) ==> written & !mask@ == byte & !mask@,
{
    lemma_named_fields_contiguous(mask);
    if value <= mask.max_value() {
        lemma_insert_keeps_other_bits(mask@, value, byte);
    }
}

/// The fields of the three engines lie two bits apart, engine 1 highest, in
/// both engine control registers.
pub proof fn lemma_engine_fields(engine: Engine)
    ensures
        Mask::spec_exec_for(engine)@ == 3u8 << ((4 - 2 * engine.spec_index()) as u8),
        Mask::spec_mode_for(engine)@ == 3u8 << ((4 - 2 * engine.spec_index()) as u8),
{
    lemma_single_bits();
}

/// In the registers that `D1` to `D8` share, a channel's bit is at the
/// channel's position.
pub proof fn lemma_channel_bits(channel: Channel)
    requires
        channel != Channel::D9,
    ensures
        Mask::spec_on_off_for(channel)@ == 1u8 << channel.spec_index(),
        Mask::spec_ratiometric_dimming_for(channel)@ == 1u8 << channel.spec_index(),
{
    lemma_single_bits();
}

/// If `shift` is the position of the lowest set bit of `mask`, then it is
/// `offset`, and the mask moved down to bit 0 is `max`.
spec fn shape_from(mask: u8, shift: u8, offset: u8, max: u8) -> bool {
    (mask >> shift) & 1 == 1 && mask << ((8 - shift) as u8) == 0 ==> shift == offset && mask
        >> shift == max
}

/// Where each bit pattern that a named field has begins, and what it holds
/// at most.
proof fn lemma_named_shapes(shift: u8)
    by (bit_vector)
    requires
        shift < 8,
    ensures
        shape_from(0b0000_0001, shift, 0, 1),
        shape_from(0b0000_0010, shift, 1, 1),
        shape_from(0b0000_0100, shift, 2, 1),
        shape_from(0b0000_1000, shift, 3, 1),
        shape_from(0b0001_0000, shift, 4, 1),
        shape_from(0b0010_0000, shift, 5, 1),
        shape_from(0b0100_0000, shift, 6, 1),
        shape_from(0b1000_0000, shift, 7, 1),
        shape_from(0b0000_0011, shift, 0, 3),
        shape_from(0b0000_1100, shift, 2, 3),
        shape_from(0b0011_0000, shift, 4, 3),
        shape_from(0b1100_0000, shift, 6, 3),
        shape_from(0b0001_1000, shift, 3, 3),
        shape_from(0b0000_0111, shift, 0, 7),
        shape_from(0b1111_1111, shift, 0, 255),
{
}

/// Where the fields begin and what they hold at most, for every bit pattern
/// that a named field has.
pub proof fn lemma_field_shapes()
    ensures
        field_shift(0b0000_0001) == 0 && field_max(0b0000_0001) == 1,
        field_shift(0b0000_0010) == 1 && field_max(0b0000_0010) == 1,
        field_shift(0b0000_0100) == 2 && field_max(0b0000_0100) == 1,
        field_shift(0b0000_1000) == 3 && field_max(0b0000_1000) == 1,
        field_shift(0b0001_0000) == 4 && field_max(0b0001_0000) == 1,
        field_shift(0b0010_0000) == 5 && field_max(0b0010_0000) == 1,
        field_shift(0b0100_0000) == 6 && field_max(0b0100_0000) == 1,
        field_shift(0b1000_0000) == 7 && field_max(0b1000_0000) == 1,
        field_shift(0b0000_0011) == 0 && field_max(0b0000_0011) == 3,
        field_shift(0b0000_1100) == 2 && field_max(0b0000_1100) == 3,
        field_shift(0b0011_0000) == 4 && field_max(0b0011_0000) == 3,
        field_shift(0b1100_0000) == 6 && field_max(0b1100_0000) == 3,
        field_shift(0b0001_1000) == 3 && field_max(0b0001_1000) == 3,
        field_shift(0b0000_0111) == 0 && field_max(0b0000_0111) == 7,
        field_shift(0b1111_1111) == 0 && field_max(0b1111_1111) == 255,
{
    lemma_shift(0b0000_0001);
    lemma_named_shapes(field_shift(0b0000_0001));
    lemma_shift(0b0000_0010);
    lemma_named_shapes(field_shift(0b0000_0010));
    lemma_shift(0b0000_0100);
    lemma_named_shapes(field_shift(0b0000_0100));
    lemma_shift(0b0000_1000);
    lemma_named_shapes(field_shift(0b0000_1000));
    lemma_shift(0b0001_0000);
    lemma_named_shapes(field_shift(0b0001_0000));
    lemma_shift(0b0010_0000);
    lemma_named_shapes(field_shift(0b0010_0000));
    lemma_shift(0b0100_0000);
    lemma_named_shapes(field_shift(0b0100_0000));
    lemma_shift(0b1000_0000);
    lemma_named_shapes(field_shift(0b1000_0000));
    lemma_shift(0b0000_0011);
    lemma_named_shapes(field_shift(0b0000_0011));
    lemma_shift(0b0000_1100);
    lemma_named_shapes(field_shift(0b0000_1100));
    lemma_shift(0b0011_0000);
    lemma_named_shapes(field_shift(0b0011_0000));
    lemma_shift(0b1100_0000);
    lemma_named_shapes(field_shift(0b1100_0000));
    lemma_shift(0b0001_1000);
    lemma_named_shapes(field_shift(0b0001_1000));
    lemma_shift(0b0000_0111);
    lemma_named_shapes(field_shift(0b0000_0111));
    lemma_shift(0b1111_1111);
    lemma_named_shapes(field_shift(0b1111_1111));
}

} // verus!
