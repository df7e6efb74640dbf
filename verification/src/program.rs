//! The instruction set of the lighting engines.
//!
//! An engine executes 16-bit instructions from program memory. Each
//! constructor below builds one instruction, bit for bit as the chip expects
//! it, and refuses an operand that does not fit its field.

use vstd::prelude::*;
use vstd::std_specs::convert::FromSpecImpl;
use crate::error::RangeError;
use crate::types::Channel;

verus! {

/// Number of instructions that program memory holds: 6 pages of 16.
pub const MAX_INSTRUCTIONS: u8 = 96;

/// Number of instructions in one page of program memory.
pub const INSTRUCTIONS_PER_PAGE: u8 = 16;

/// Number of pages of program memory.
pub const MAX_PAGES: u8 = 6;

/// Number of variables that an instruction can name.
pub const MAX_VARS: u8 = 4;

/// The variables of an engine.
#[derive(Copy, Clone, Debug, PartialEq, Eq, Structural)]
pub enum Variable {
    A,
    B,
    C,
    D,
}

impl Variable {
    /// The two bits by which an instruction names the variable.
    pub open spec fn spec_index(self) -> u8 {
        match self {
            Variable::A => 0,
            Variable::B => 1,
            Variable::C => 2,
            Variable::D => 3,
        }
    }

    /// The two bits by which an instruction names the variable.
    #[verifier::when_used_as_spec(spec_index)]
    pub fn index(self) -> (r: u8)
        ensures
            r == self.spec_index(),
            r < MAX_VARS,
    {
        match self {
            Variable::A => 0,
            Variable::B => 1,
            Variable::C => 2,
            Variable::D => 3,
        }
    }
}

/// Length of one cycle of a ramp or wait.
#[allow(non_camel_case_types)]
#[derive(Copy, Clone, Debug, PartialEq, Eq, Structural)]
pub enum PreScale {
    /// Cycle time of 0.488 ms.
    CT0_488,
    /// Cycle time of 15.625 ms.
    CT15_625,
}

impl PreScale {
    /// The bit that stands for the cycle time in an instruction.
    pub open spec fn spec_bits(self) -> u8 {
        match self {
            PreScale::CT0_488 => 0,
            PreScale::CT15_625 => 1,
        }
    }

    /// The bit that stands for the cycle time in an instruction.
    #[verifier::when_used_as_spec(spec_bits)]
    pub fn bits(self) -> (r: u8)
        ensures
            r == self.spec_bits(),
            r < 2,
    {
        match self {
            PreScale::CT0_488 => 0,
            PreScale::CT15_625 => 1,
        }
    }
}

/// Ramp direction.
#[derive(Copy, Clone, Debug, PartialEq, Eq, Structural)]
pub enum Direction {
    Up,
    Down,
}

impl Direction {
    /// The bit that stands for the direction in an instruction.
    pub open spec fn spec_bits(self) -> u8 {
        match self {
            Direction::Up => 0,
            Direction::Down => 1,
        }
    }

    /// The bit that stands for the direction in an instruction.
    #[verifier::when_used_as_spec(spec_bits)]
    pub fn bits(self) -> (r: u8)
        ensures
            r == self.spec_bits(),
            r < 2,
    {
        match self {
            Direction::Up => 0,
            Direction::Down => 1,
        }
    }
}

/// One instruction of an engine: a 16-bit word, high byte first.
#[derive(Copy, Clone, Debug, PartialEq, Eq, Structural)]
pub struct Instruction {
    /// The high byte of the word.
    pub msb: u8,
    /// The low byte of the word.
    pub lsb: u8,
}

impl Instruction {
    /// The instruction that the word `value` stands for: its high byte and
    /// its low byte.
    pub open spec fn spec_from(value: u16) -> Instruction {
        Instruction { msb: ((value >> 8) & 0xFF) as u8, lsb: (value & 0xFF) as u8 }
    }

    /// The instruction as one word.
    pub open spec fn spec_as_u16(&self) -> u16 {
        (self.msb as u16) << 8 | self.lsb as u16
    }

    /// The instruction as one word.
    #[verifier::when_used_as_spec(spec_as_u16)]
    pub fn as_u16(&self) -> (r: u16)
        ensures
            r == self.spec_as_u16(),
    {
        (self.msb as u16) << 8 | self.lsb as u16
    }
}

impl From<u16> for Instruction {
    /// The instruction that the word `value` stands for.
    fn from(value: u16) -> (r: Instruction) {
        Instruction { msb: ((value >> 8) & 0xFF) as u8, lsb: (value & 0xFF) as u8 }
    }
}

impl FromSpecImpl<u16> for Instruction {
    open spec fn obeys_from_spec() -> bool {
        true
    }

    open spec fn from_spec(value: u16) -> Instruction {
        Instruction::spec_from(value)
    }
}

/// The largest number of cycles per step that a ramp takes: six bits.
pub const MAX_RAMP_CYCLES: u8 = 63;

/// The largest number of cycles that a wait takes: seven bits.
pub const MAX_WAIT_CYCLES: u8 = 127;

/// The largest step number that a branch takes: seven bits.
pub const MAX_BRANCH_STEP: u8 = 127;

/// The largest loop count that a branch takes: six bits.
pub const MAX_LOOP_COUNT: u8 = 63;

/// The largest number of instructions that a conditional jump skips: four
/// bits.
pub const MAX_SKIP: u8 = 15;

/// The mapping word of a list of channels: bit `n` is set for the channel at
/// position `n`, `D1` at bit 0 and `D9` at bit 8.
pub open spec fn channel_map(channels: Seq<Channel>) -> u16
    decreases channels.len(),
{
    if channels.len() == 0 {
        0
    } else {
        channel_map(channels.drop_last()) | (1u16 << channels.last().spec_index())
    }
}

/// The word of a conditional jump: the opcode, the variable `low` in bits 0
/// and 1, the variable `high` in bits 2 and 3, and the number of
/// instructions to skip from bit 4 on.
pub open spec fn jump_word(opcode: u16, skip: u8, low: Variable, high: Variable) -> u16 {
    opcode | (low.spec_index() as u16) | ((high.spec_index() as u16) << 2) | ((skip as u16) << 4)
}

/// A conditional jump, refused when it is to skip more than fits.
fn jump(opcode: u16, skip: u8, low: Variable, high: Variable) -> (r: Result<
    Instruction,
    RangeError,
>)
    ensures
        skip <= MAX_SKIP ==> r == Ok::<Instruction, RangeError>(
            Instruction::spec_from(jump_word(opcode, skip, low, high)),
        ),
        skip > MAX_SKIP ==> r == Err::<Instruction, RangeError>(
            RangeError { value: skip, max: MAX_SKIP },
        ),
{
    if skip > MAX_SKIP {
        return Err(RangeError { value: skip, max: MAX_SKIP });
    }
    let word: u16 = opcode | (low.index() as u16) | ((high.index() as u16) << 2) | ((skip as u16)
        << 4);
    Ok(Instruction::from(word))
}

/// An SRAM address, refused when it lies beyond program memory.
fn check_addr(addr: u8) -> (r: Result<u8, RangeError>)
    ensures
        addr <= MAX_INSTRUCTIONS ==> r == Ok::<u8, RangeError>(addr),
        addr > MAX_INSTRUCTIONS ==> r == Err::<u8, RangeError>(
            RangeError { value: addr, max: MAX_INSTRUCTIONS },
        ),
{
    if addr > MAX_INSTRUCTIONS {
        return Err(RangeError { value: addr, max: MAX_INSTRUCTIONS });
    }
    Ok(addr)
}

impl Instruction {
    // Driver instructions

    /// Ramps the output up or down in `number_of_steps` steps, each taking
    /// `cycles_per_step` cycles of `cycle_time`.
    pub fn ramp(
        cycle_time: PreScale,
        cycles_per_step: u8,
        direction: Direction,
        number_of_steps: u8,
    ) -> (r: Result<Instruction, RangeError>)
        ensures
            cycles_per_step <= MAX_RAMP_CYCLES ==> r == Ok::<Instruction, RangeError>(
                Instruction {
                    msb: (cycles_per_step << 1) | (cycle_time.spec_bits() << 6)
                        | direction.spec_bits(),
                    lsb: number_of_steps,
                },
            ),
            cycles_per_step > MAX_RAMP_CYCLES ==> r == Err::<Instruction, RangeError>(
                RangeError { value: cycles_per_step, max: MAX_RAMP_CYCLES },
            ),
    {
        if cycles_per_step > MAX_RAMP_CYCLES {
            return Err(RangeError { value: cycles_per_step, max: MAX_RAMP_CYCLES });
        }
        let msb = (cycles_per_step << 1) | (cycle_time.bits() << 6) | direction.bits();
        Ok(Instruction { msb, lsb: number_of_steps })
    }

    /// A ramp whose step time and number of steps come from variables.
    pub fn ramp_from_vars(
        pre_scale: bool,
        ascending: bool,
        step_time_var: Variable,
        increments_var: Variable,
    ) -> (r: Instruction)
        ensures
            r.msb == 0b1000_0100,
            r.lsb == (step_time_var.spec_index() << 2) | increments_var.spec_index()
                | (if pre_scale {
                0b0100_0000u8
            } else {
                0u8
            }) | (if ascending {
                0b0010_0000u8
            } else {
                0u8
            }),
    {
        let scale: u8 = if pre_scale {
            0b0100_0000
        } else {
            0
        };
        let up: u8 = if ascending {
            0b0010_0000
        } else {
            0
        };
        Instruction {
            msb: 0b1000_0100,
            lsb: (step_time_var.index() << 2) | increments_var.index() | scale | up,
        }
    }

    /// Sets the PWM value of the output.
    pub fn set_pwm(value: u8) -> (r: Instruction)
        ensures
            r == (Instruction { msb: 0b0100_0000, lsb: value }),
    {
        Instruction { msb: 0b0100_0000, lsb: value }
    }

    /// Sets the PWM value of the output from a variable.
    pub fn set_pwm_from_var(var: Variable) -> (r: Instruction)
        ensures
            r == (Instruction { msb: 0b1000_0100, lsb: 0b0110_0000 | var.spec_index() }),
    {
        Instruction { msb: 0b1000_0100, lsb: 0b0110_0000 | var.index() }
    }

    /// Waits for `cycles` cycles of `cycle_time`.
    pub fn wait(cycle_time: PreScale, cycles: u8) -> (r: Result<Instruction, RangeError>)
        ensures
            cycles <= MAX_WAIT_CYCLES ==> r == Ok::<Instruction, RangeError>(
                Instruction { msb: (cycles << 1) | (cycle_time.spec_bits() << 6), lsb: 0 },
            ),
            cycles > MAX_WAIT_CYCLES ==> r == Err::<Instruction, RangeError>(
                RangeError { value: cycles, max: MAX_WAIT_CYCLES },
            ),
    {
        if cycles > MAX_WAIT_CYCLES {
            return Err(RangeError { value: cycles, max: MAX_WAIT_CYCLES });
        }
        let msb = (cycles << 1) | (cycle_time.bits() << 6);
        Ok(Instruction { msb, lsb: 0b0000_0000 })
    }

    // Mapping instructions

    /// One row of a mapping table: the channels that an engine drives while
    /// the row is active.
    ///
    /// |Bit    |15|14|13|12|11|10|09|08|07|06|05|04|03|02|01|00|
    /// |-------|--|--|--|--|--|--|--|--|--|--|--|--|--|--|--|--|
    /// |Channel| -| -| -| -| -| -| -|D9|D8|D7|D6|D5|D4|D3|D2|D1|
    pub fn map_channels(channels: &[Channel]) -> (r: Instruction)
        ensures
            r == Instruction::spec_from(channel_map(channels@)),
    {
        let mut map_bits: u16 = 0b0000_0000_0000_0000;
        let mut i: usize = 0;
        while i < channels.len()
            invariant
                i <= channels.len(),
                map_bits == channel_map(channels@.subrange(0, i as int)),
            decreases channels.len() - i,
        {
            proof {
                assert(channels@.subrange(0, i + 1).drop_last() == channels@.subrange(0, i as int));
            }
            map_bits = map_bits | (1u16 << channels[i].index());
            i += 1;
        }
        proof {
            assert(channels@.subrange(0, i as int) == channels@);
        }
        Instruction::from(map_bits)
    }

    /// Sets the first row of the mapping table to the row at `sram_address`.
    pub fn mux_ld_start(sram_address: u8) -> (r: Result<Instruction, RangeError>)
        ensures
            sram_address <= MAX_INSTRUCTIONS ==> r == Ok::<Instruction, RangeError>(
                Instruction { msb: 0b1001_1110, lsb: sram_address },
            ),
            sram_address > MAX_INSTRUCTIONS ==> r == Err::<Instruction, RangeError>(
                RangeError { value: sram_address, max: MAX_INSTRUCTIONS },
            ),
    {
        match check_addr(sram_address) {
            Ok(address) => Ok(Instruction { msb: 0b1001_1110, lsb: address }),
            Err(e) => Err(e),
        }
    }

    /// Sets the first row of the mapping table to the row at `sram_address` and
    /// makes it the active row.
    pub fn mux_map_start(sram_address: u8) -> (r: Result<Instruction, RangeError>)
        ensures
            sram_address <= MAX_INSTRUCTIONS ==> r == Ok::<Instruction, RangeError>(
                Instruction { msb: 0b1001_1100, lsb: sram_address },
            ),
            sram_address > MAX_INSTRUCTIONS ==> r == Err::<Instruction, RangeError>(
                RangeError { value: sram_address, max: MAX_INSTRUCTIONS },
            ),
    {
        match check_addr(sram_address) {
            Ok(address) => Ok(Instruction { msb: 0b1001_1100, lsb: address }),
            Err(e) => Err(e),
        }
    }

    /// Sets the last row of the mapping table to the row at `sram_address`.
    pub fn mux_ld_end(sram_address: u8) -> (r: Result<Instruction, RangeError>)
        ensures
            sram_address <= MAX_INSTRUCTIONS ==> r == Ok::<Instruction, RangeError>(
                Instruction { msb: 0b1001_1100, lsb: 0b1000_0000 | sram_address },
            ),
            sram_address > MAX_INSTRUCTIONS ==> r == Err::<Instruction, RangeError>(
                RangeError { value: sram_address, max: MAX_INSTRUCTIONS },
            ),
    {
        match check_addr(sram_address) {
            Ok(address) => Ok(Instruction { msb: 0b1001_1100, lsb: 0b1000_0000 | address }),
            Err(e) => Err(e),
        }
    }

    /// Connects the engine to the one output that `led_select` names, 0 for
    /// none.
    pub fn mux_sel(led_select: u8) -> (r: Instruction)
        ensures
            r == (Instruction { msb: 0b1001_1101, lsb: led_select }),
    {
        Instruction { msb: 0b1001_1101, lsb: led_select }
    }

    /// Disconnects the engine from all outputs.
    pub fn mux_clr() -> (r: Instruction)
        ensures
            r == (Instruction { msb: 0b1001_1101, lsb: 0b0000_0000 }),
    {
        Instruction { msb: 0b1001_1101, lsb: 0b0000_0000 }
    }

    /// Makes the next row of the mapping table the active row.
    pub fn mux_map_next() -> (r: Instruction)
        ensures
            r == (Instruction { msb: 0b1001_1101, lsb: 0b1000_0000 }),
    {
        Instruction { msb: 0b1001_1101, lsb: 0b1000_0000 }
    }

    /// Makes the previous row of the mapping table the active row.
    pub fn mux_map_prev() -> (r: Instruction)
        ensures
            r == (Instruction { msb: 0b1001_1101, lsb: 0b1100_0000 }),
    {
        Instruction { msb: 0b1001_1101, lsb: 0b1100_0000 }
    }

    /// Moves the index to the next row of the mapping table; the active row
    /// stays.
    pub fn mux_ld_next() -> (r: Instruction)
        ensures
            r == (Instruction { msb: 0b1001_1101, lsb: 0b1000_0001 }),
    {
        Instruction { msb: 0b1001_1101, lsb: 0b1000_0001 }
    }

    /// Moves the index to the previous row of the mapping table; the active row
    /// stays.
    pub fn mux_ld_prev() -> (r: Instruction)
        ensures
            r == (Instruction { msb: 0b1001_1101, lsb: 0b1100_0001 }),
    {
        Instruction { msb: 0b1001_1101, lsb: 0b1100_0001 }
    }

    /// Moves the index to the row at `sram_address`; the active row stays.
    pub fn mux_ld_addr(sram_address: u8) -> (r: Result<Instruction, RangeError>)
        ensures
            sram_address <= MAX_INSTRUCTIONS ==> r == Ok::<Instruction, RangeError>(
                Instruction { msb: 0b1001_1111, lsb: sram_address },
            ),
            sram_address > MAX_INSTRUCTIONS ==> r == Err::<Instruction, RangeError>(
                RangeError { value: sram_address, max: MAX_INSTRUCTIONS },
            ),
    {
        match check_addr(sram_address) {
            Ok(address) => Ok(Instruction { msb: 0b1001_1111, lsb: address }),
            Err(e) => Err(e),
        }
    }

    /// Makes the row at `sram_address` the active row.
    pub fn mux_map_addr(sram_address: u8) -> (r: Result<Instruction, RangeError>)
        ensures
            sram_address <= MAX_INSTRUCTIONS ==> r == Ok::<Instruction, RangeError>(
                Instruction { msb: 0b1001_1111, lsb: 0b1000_0000 | sram_address },
            ),
            sram_address > MAX_INSTRUCTIONS ==> r == Err::<Instruction, RangeError>(
                RangeError { value: sram_address, max: MAX_INSTRUCTIONS },
            ),
    {
        match check_addr(sram_address) {
            Ok(address) => Ok(Instruction { msb: 0b1001_1111, lsb: 0b1000_0000 | address }),
            Err(e) => Err(e),
        }
    }

    // Branch instructions

    /// Resets the program counter and starts the program again.
    pub fn rst() -> (r: Instruction)
        ensures
            r == (Instruction { msb: 0b0000_0000, lsb: 0b0000_0000 }),
    {
        Instruction { msb: 0b0000_0000, lsb: 0b0000_0000 }
    }

    /// Jumps to `step_number` and repeats the loop `loop_count` times; a
    /// count of 0 loops for ever.
    pub fn branch(step_number: u8, loop_count: u8) -> (r: Result<Instruction, RangeError>)
        ensures
            step_number <= MAX_BRANCH_STEP && loop_count <= MAX_LOOP_COUNT ==> r == Ok::<
                Instruction,
                RangeError,
            >(
                Instruction::spec_from(
                    0b1010_0000_0000_0000u16 | (step_number as u16) | ((loop_count as u16) << 7),
                ),
            ),
            step_number > MAX_BRANCH_STEP ==> r == Err::<Instruction, RangeError>(
                RangeError { value: step_number, max: MAX_BRANCH_STEP },
            ),
            step_number <= MAX_BRANCH_STEP && loop_count > MAX_LOOP_COUNT ==> r == Err::<
                Instruction,
                RangeError,
            >(RangeError { value: loop_count, max: MAX_LOOP_COUNT }),
    {
        if step_number > MAX_BRANCH_STEP {
            return Err(RangeError { value: step_number, max: MAX_BRANCH_STEP });
        }
        if loop_count > MAX_LOOP_COUNT {
            return Err(RangeError { value: loop_count, max: MAX_LOOP_COUNT });
        }
        let bits: u16 = 0b1010_0000_0000_0000u16 | (step_number as u16) | ((loop_count as u16)
            << 7);
        Ok(Instruction::from(bits))
    }

    /// Jumps to `step_number` and repeats the loop as often as
    /// `loop_count_var` says.
    pub fn branch_vars(step_number: u8, loop_count_var: Variable) -> (r: Result<
        Instruction,
        RangeError,
    >)
        ensures
            step_number <= MAX_BRANCH_STEP ==> r == Ok::<Instruction, RangeError>(
                Instruction::spec_from(
                    0b1000_0110_0000_0000u16 | (loop_count_var.spec_index() as u16) | ((
                    step_number as u16) << 2),
                ),
            ),
            step_number > MAX_BRANCH_STEP ==> r == Err::<Instruction, RangeError>(
                RangeError { value: step_number, max: MAX_BRANCH_STEP },
            ),
    {
        if step_number > MAX_BRANCH_STEP {
            return Err(RangeError { value: step_number, max: MAX_BRANCH_STEP });
        }
        let bits: u16 = 0b1000_0110_0000_0000u16 | (loop_count_var.index() as u16) | ((
        step_number as u16) << 2);
        Ok(Instruction::from(bits))
    }

    /// Raises an interrupt.
    pub fn interrupt() -> (r: Instruction)
        ensures
            r == (Instruction { msb: 0b1100_0100, lsb: 0b0000_0000 }),
    {
        Instruction { msb: 0b1100_0100, lsb: 0b0000_0000 }
    }

    /// Ends the program; optionally raises an interrupt and resets the
    /// program counter.
    pub fn end(interrupt: bool, reset_program_counter: bool) -> (r: Instruction)
        ensures
            r.msb == 0b1100_0000u8 | (if interrupt {
                0b0001_0000u8
            } else {
                0u8
            }) | (if reset_program_counter {
                0b0000_1000u8
            } else {
                0u8
            }),
            r.lsb == 0,
    {
        let raise: u8 = if interrupt {
            0b0001_0000
        } else {
            0
        };
        let reset: u8 = if reset_program_counter {
            0b0000_1000
        } else {
            0
        };
        Instruction { msb: 0b1100_0000u8 | raise | reset, lsb: 0b0000_0000 }
    }

    /// Skips the next instructions if `var_1` and `var_2` differ.
    pub fn jne(num_instructions_to_skip: u8, var_1: Variable, var_2: Variable) -> (r: Result<
        Instruction,
        RangeError,
    >)
        ensures
            num_instructions_to_skip <= MAX_SKIP ==> r == Ok::<Instruction, RangeError>(
                Instruction::spec_from(
                    jump_word(0b1000_1000_0000_0000, num_instructions_to_skip, var_1, var_2),
                ),
            ),
            num_instructions_to_skip > MAX_SKIP ==> r == Err::<Instruction, RangeError>(
                RangeError { value: num_instructions_to_skip, max: MAX_SKIP },
            ),
    {
        jump(0b1000_1000_0000_0000, num_instructions_to_skip, var_1, var_2)
    }

    /// Skips the next instructions if `var_1` is less than `var_2`.
    pub fn jl(num_instructions_to_skip: u8, var_1: Variable, var_2: Variable) -> (r: Result<
        Instruction,
        RangeError,
    >)
        ensures
            num_instructions_to_skip <= MAX_SKIP ==> r == Ok::<Instruction, RangeError>(
                Instruction::spec_from(
                    jump_word(0b1000_1010_0000_0000, num_instructions_to_skip, var_2, var_1),
                ),
            ),
            num_instructions_to_skip > MAX_SKIP ==> r == Err::<Instruction, RangeError>(
                RangeError { value: num_instructions_to_skip, max: MAX_SKIP },
            ),
    {
        jump(0b1000_1010_0000_0000, num_instructions_to_skip, var_2, var_1)
    }

    /// Skips the next instructions if `var_1` is greater than or equal to
    /// `var_2`.
    pub fn jge(num_instructions_to_skip: u8, var_1: Variable, var_2: Variable) -> (r: Result<
        Instruction,
        RangeError,
    >)
        ensures
            num_instructions_to_skip <= MAX_SKIP ==> r == Ok::<Instruction, RangeError>(
                Instruction::spec_from(
                    jump_word(0b1000_1100_0000_0000, num_instructions_to_skip, var_2, var_1),
                ),
            ),
            num_instructions_to_skip > MAX_SKIP ==> r == Err::<Instruction, RangeError>(
                RangeError { value: num_instructions_to_skip, max: MAX_SKIP },
            ),
    {
        jump(0b1000_1100_0000_0000, num_instructions_to_skip, var_2, var_1)
    }

    /// Skips the next instructions if `var_1` equals `var_2`.
    pub fn je(num_instructions_to_skip: u8, var_1: Variable, var_2: Variable) -> (r: Result<
        Instruction,
        RangeError,
    >)
        ensures
            num_instructions_to_skip <= MAX_SKIP ==> r == Ok::<Instruction, RangeError>(
                Instruction::spec_from(
                    jump_word(0b1000_1110_0000_0000, num_instructions_to_skip, var_2, var_1),
                ),
            ),
            num_instructions_to_skip > MAX_SKIP ==> r == Err::<Instruction, RangeError>(
                RangeError { value: num_instructions_to_skip, max: MAX_SKIP },
            ),
    {
        jump(0b1000_1110_0000_0000, num_instructions_to_skip, var_2, var_1)
    }

    // Arithmetic instructions

    /// Loads `value` into `target_var`.
    pub fn ld(target_var: Variable, value: u8) -> (r: Instruction)
        ensures
            r == (Instruction { msb: 0b1001_0000 | (target_var.spec_index() << 2), lsb: value }),
    {
        Instruction { msb: 0b1001_0000 | (target_var.index() << 2), lsb: value }
    }

    /// Adds `value` to `target_var`.
    pub fn add_numerical(target_var: Variable, value: u8) -> (r: Instruction)
        ensures
            r == (Instruction { msb: 0b1001_0001 | (target_var.spec_index() << 2), lsb: value }),
    {
        Instruction { msb: 0b1001_0001 | (target_var.index() << 2), lsb: value }
    }

    /// Stores the sum of `var_1` and `var_2` in `target_var`.
    pub fn add_vars(target_var: Variable, var_1: Variable, var_2: Variable) -> (r: Instruction)
        ensures
            r == (Instruction {
                msb: 0b1001_0011 | (target_var.spec_index() << 2),
                lsb: (var_1.spec_index() << 2) | var_2.spec_index(),
            }),
    {
        Instruction {
            msb: 0b1001_0011 | (target_var.index() << 2),
            lsb: (var_1.index() << 2) | var_2.index(),
        }
    }

    /// Subtracts `value` from `target_var`.
    pub fn sub_numerical(target_var: Variable, value: u8) -> (r: Instruction)
        ensures
            r == (Instruction { msb: 0b1001_0010 | (target_var.spec_index() << 2), lsb: value }),
    {
        Instruction { msb: 0b1001_0010 | (target_var.index() << 2), lsb: value }
    }

    /// Stores the difference of `var_1` and `var_2` in `target_var`.
    pub fn sub_vars(target_var: Variable, var_1: Variable, var_2: Variable) -> (r: Instruction)
        ensures
            r == (Instruction {
                msb: 0b1001_0011 | (target_var.spec_index() << 2),
                lsb: 0b0001_0000 | (var_1.spec_index() << 2) | var_2.spec_index(),
            }),
    {
        Instruction {
            msb: 0b1001_0011 | (target_var.index() << 2),
            lsb: 0b0001_0000 | (var_1.index() << 2) | var_2.index(),
        }
    }
}

/// A word and the instruction made from it stand for each other: the
/// instruction made from a word gives that word back.
pub proof fn lemma_word_round_trip(word: u16)
    ensures
        Instruction::spec_from(word).spec_as_u16() == word,
{
    assert(((((word >> 8) & 0xFF) as u8) as u16) << 8 | ((word & 0xFF) as u8) as u16 == word)
        by (bit_vector);
}

/// The word of an instruction gives that instruction back.
pub proof fn lemma_instruction_round_trip(instruction: Instruction)
    ensures
        Instruction::spec_from(instruction.spec_as_u16()) == instruction,
{
    let msb = instruction.msb;
    let lsb = instruction.lsb;
    assert(((((msb as u16) << 8 | lsb as u16) >> 8) & 0xFF) as u8 == msb && (((msb as u16) << 8
        | lsb as u16) & 0xFF) as u8 == lsb) by (bit_vector);
}

/// A channel's bit is set in the mapping word of a list exactly if the list
/// names the channel, and no bit above that of `D9` is ever set.
pub proof fn lemma_channel_map_bits(channels: Seq<Channel>, channel: Channel)
    ensures
        (channel_map(channels) >> channel.spec_index()) & 1 == 1 <==> channels.contains(channel),
        channel_map(channels) < 512,
    decreases channels.len(),
{
    let n = channel.spec_index();
    if channels.len() == 0 {
        assert((0u16 >> n) & 1 == 0) by (bit_vector);
    } else {
        let rest = channels.drop_last();
        let last = channels.last().spec_index();
        let word = channel_map(rest);
        lemma_channel_map_bits(rest, channel);
        assert(((word | (1u16 << last)) >> n) & 1 == (if last == n {
            1u16
        } else {
            (word >> n) & 1
        }) && (word | (1u16 << last)) < 512) by (bit_vector)
            requires
                last < 9,
                n < 9,
                word < 512,
        ;
        if rest.contains(channel) {
            let i = choose|i: int| 0 <= i < rest.len() && rest[i] == channel;
            assert(channels[i] == channel);
        }
        if channels.contains(channel) {
            let i = choose|i: int| 0 <= i < channels.len() && channels[i] == channel;
            if i < rest.len() {
                assert(rest[i] == channel);
            }
        }
    }
}

/// The two bytes of a conditional jump: the opcode in the high byte, the
/// operands in the low byte.
pub proof fn lemma_jump_bytes(opcode: u16, skip: u8, low: Variable, high: Variable)
    requires
        skip <= MAX_SKIP,
        opcode & 0x00FF == 0,
    ensures
        Instruction::spec_from(jump_word(opcode, skip, low, high)) == (Instruction {
            msb: (opcode >> 8) as u8,
            lsb: low.spec_index() | (high.spec_index() << 2) | (skip << 4),
        }),
{
    let a = low.spec_index();
    let b = high.spec_index();
    let word = jump_word(opcode, skip, low, high);
    assert(((word >> 8) & 0xFF) as u8 == (opcode >> 8) as u8 && (word & 0xFF) as u8 == a | (b
        << 2) | (skip << 4)) by (bit_vector)
        requires
            a < 4,
            b < 4,
            skip <= 15,
            opcode & 0x00FF == 0,
            word == opcode | (a as u16) | ((b as u16) << 2) | ((skip as u16) << 4),
    ;
}

/// The two bytes of a branch: the loop count lies across both, its lowest
/// bit at the top of the low byte.
pub proof fn lemma_branch_bytes(step_number: u8, loop_count: u8)
    requires
        step_number <= MAX_BRANCH_STEP,
        loop_count <= MAX_LOOP_COUNT,
    ensures
        Instruction::spec_from(
            0b1010_0000_0000_0000u16 | (step_number as u16) | ((loop_count as u16) << 7),
        ) == (Instruction {
            msb: 0b1010_0000u8 | (loop_count >> 1),
            lsb: step_number | (loop_count << 7),
        }),
{
    let word = 0b1010_0000_0000_0000u16 | (step_number as u16) | ((loop_count as u16) << 7);
    assert(((word >> 8) & 0xFF) as u8 == 0b1010_0000u8 | (loop_count >> 1) && (word & 0xFF) as u8
        == step_number | (loop_count << 7)) by (bit_vector)
        requires
            step_number <= 127,
            loop_count <= 63,
            word == 0b1010_0000_0000_0000u16 | (step_number as u16) | ((loop_count as u16) << 7),
    ;
}

/// The two bytes of a branch whose loop count comes from a variable: the
/// step number lies across both, its highest bit at the bottom of the high
/// byte.
pub proof fn lemma_branch_vars_bytes(step_number: u8, loop_count_var: Variable)
    requires
        step_number <= MAX_BRANCH_STEP,
    ensures
        Instruction::spec_from(
            0b1000_0110_0000_0000u16 | (loop_count_var.spec_index() as u16) | ((step_number as u16)
                << 2),
        ) == (Instruction {
            msb: 0b1000_0110u8 | (step_number >> 6),
            lsb: loop_count_var.spec_index() | (step_number << 2),
        }),
{
    let v = loop_count_var.spec_index();
    let word = 0b1000_0110_0000_0000u16 | (v as u16) | ((step_number as u16) << 2);
    assert(((word >> 8) & 0xFF) as u8 == 0b1000_0110u8 | (step_number >> 6) && (word & 0xFF) as u8
        == v | (step_number << 2)) by (bit_vector)
        requires
            step_number <= 127,
            v < 4,
            word == 0b1000_0110_0000_0000u16 | (v as u16) | ((step_number as u16) << 2),
    ;
}

} // verus!
