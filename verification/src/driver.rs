//! The operations of the driver, each as a transaction.
//!
//! Every method of [`LP55231`] that stands for an operation on the chip
//! returns the transaction that carries the operation out; the host runs it
//! against the bus. Operations that read something leave the bytes read in
//! the transaction; `enabled`, `Misc::from_register` and
//! `decode_instructions` say what the bytes mean.

use vstd::prelude::*;
use crate::error::ValidationError;
use crate::loader::{
    all_engines_step,
    await_idle_step,
    engine_modes,
    engine_modes_byte,
    load_machine,
    load_program_steps,
    page_steps,
    write_page_steps,
    LOAD_CLOSING_STEPS,
};
use crate::mask::{lemma_field_shapes, Mask};
use crate::paging::{
    instruction_address,
    validate_page,
    validate_program_counter,
    PAGE_BYTES,
    PROG_MEM_BASE,
};
use crate::program::{Instruction, INSTRUCTIONS_PER_PAGE, MAX_INSTRUCTIONS, MAX_PAGES};
use crate::register::Register;
use crate::transaction::{Machine, Step, Transaction};
use crate::types::{flag, spec_flag, Channel, Engine, EngineExec, EngineMode, Fader, Misc};

verus! {

/// Number of busy answers in a row after which a driver made by
/// [`LP55231::new`] gives up waiting.
pub const DEFAULT_MAX_BUSY_POLLS: u32 = 1000;

/// The step that writes `value` to `register`.
pub open spec fn write_step(register: Register, value: u8) -> Step {
    Step::Write { address: register.spec_address(), value }
}

/// The step that reads `register`.
pub open spec fn read_step(register: Register) -> Step {
    Step::Read { address: register.spec_address() }
}

/// The step that sets the field `mask` of `register` to `value` and leaves
/// the other bits of the register as they are.
pub open spec fn update_step(register: Register, mask: Mask, value: u8, always: bool) -> Step {
    Step::Update {
        address: register.spec_address(),
        mask: mask@,
        bits: value << mask.shift(),
        always,
    }
}

/// The bits of the fader assignment field: 0 for no fader, else the
/// position of the fader plus one.
pub open spec fn fader_bits(fader: Option<Fader>) -> u8 {
    match fader {
        Some(f) => (f.spec_index() + 1) as u8,
        None => 0,
    }
}

/// The steps that read all 16 instructions of page `page`.
pub open spec fn read_page_steps(page: u8) -> Seq<Step> {
    seq![write_step(Register::PROG_MEM_PAGE_SEL, page)] + Seq::new(
        PAGE_BYTES as nat,
        |i: int| Step::Read { address: (PROG_MEM_BASE + i) as u8 },
    )
}

/// The step that sets the field `mask` of `register` to `value`, for a value
/// that fits the field.
fn update(register: Register, mask: Mask, value: u8, always: bool) -> (r: Step)
    requires
        value <= mask.max_value(),
    ensures
        r == update_step(register, mask, value, always),
{
    Step::Update {
        address: register.address(),
        mask: mask.bits(),
        bits: mask.with(value).unwrap(),
        always,
    }
}

/// The driver of one chip: what is settled about it before any operation.
#[derive(Clone, Copy, Debug, PartialEq, Eq, Structural)]
pub struct LP55231 {
    /// Read every register back after writing it, and fail the operation if
    /// it does not hold what was written.
    pub verify_writes: bool,
    /// Number of busy answers in a row after which waiting for the engines
    /// is given up.
    pub max_busy_polls: u32,
}

impl LP55231 {
    /// A driver that does not read back what it writes and gives up waiting
    /// after `DEFAULT_MAX_BUSY_POLLS` busy answers.
    pub fn new() -> (r: LP55231)
        ensures
            r == (LP55231 { verify_writes: false, max_busy_polls: DEFAULT_MAX_BUSY_POLLS }),
    {
        LP55231 { verify_writes: false, max_busy_polls: DEFAULT_MAX_BUSY_POLLS }
    }

    /// The transaction of this driver that has the given steps before it
    /// and ends at once when it is cancelled.
    pub open spec fn begins(self, steps: Seq<Step>) -> Machine {
        Machine::fresh(steps, self.verify_writes, self.max_busy_polls as nat, 0)
    }

    /// The transaction of this driver that does `steps`.
    fn transaction(&self, steps: Vec<Step>) -> (r: Transaction)
        ensures
            r@ == self.begins(steps@),
    {
        Transaction::new(steps, self.verify_writes, self.max_busy_polls, 0)
    }

    /// The transaction of this driver that does the one step `step`.
    fn single(&self, step: Step) -> (r: Transaction)
        ensures
            r@ == self.begins(seq![step]),
    {
        let mut steps: Vec<Step> = Vec::new();
        steps.push(step);
        self.transaction(steps)
    }

    /// Resets the chip: writes all ones to the reset register.
    pub fn reset(&self) -> (r: Transaction)
        ensures
            r@ == self.begins(seq![write_step(Register::RESET, 0b1111_1111)]),
    {
        self.write_register(Register::RESET, 0b1111_1111)
    }

    /// Reads the register that says whether the chip is enabled; `enabled`
    /// tells it from the byte read.
    pub fn is_enabled(&self) -> (r: Transaction)
        ensures
            r@ == self.begins(seq![read_step(Register::ENABLE_ENGINE_CNTRL1)]),
    {
        self.read_register(Register::ENABLE_ENGINE_CNTRL1)
    }

    /// Enables or disables the chip. The register is written in any case.
    pub fn set_enabled(&self, enabled: bool) -> (r: Transaction)
        ensures
            r@ == self.begins(
                seq![
                    update_step(
                        Register::ENABLE_ENGINE_CNTRL1,
                        Mask::CHIP_EN,
                        spec_flag(enabled),
                        true,
                    ),
                ],
            ),
    {
        proof {
            lemma_field_shapes();
        }
        self.single(update(Register::ENABLE_ENGINE_CNTRL1, Mask::CHIP_EN, flag(enabled), true))
    }

    /// Reads the miscellaneous settings; `Misc::from_register` tells them
    /// from the byte read.
    pub fn get_misc_settings(&self) -> (r: Transaction)
        ensures
            r@ == self.begins(seq![read_step(Register::MISC)]),
    {
        self.read_register(Register::MISC)
    }

    /// Writes the miscellaneous settings, all of them.
    pub fn set_misc_settings(&self, misc: Misc) -> (r: Transaction)
        ensures
            r@ == self.begins(seq![write_step(Register::MISC, misc.spec_to_register())]),
    {
        self.write_register(Register::MISC, misc.to_register())
    }

    /// Sets the PWM value of `channel`, which controls its luminance.
    pub fn set_channel_pwm(&self, channel: Channel, pwm: u8) -> (r: Transaction)
        ensures
            r@ == self.begins(seq![write_step(Register::spec_pwm_for(channel), pwm)]),
    {
        self.write_register(Register::pwm_for(channel), pwm)
    }

    /// Sets the current of `channel`, which controls its brightness.
    pub fn set_channel_current(&self, channel: Channel, current: u8) -> (r: Transaction)
        ensures
            r@ == self.begins(
                seq![write_step(Register::spec_current_control_for(channel), current)],
            ),
    {
        self.write_register(Register::current_control_for(channel), current)
    }

    /// Switches logarithmic dimming of `channel` on or off. The register is
    /// written only if it changes.
    pub fn set_log_brightness(&self, channel: Channel, enabled: bool) -> (r: Transaction)
        ensures
            r@ == self.begins(
                seq![
                    update_step(
                        Register::spec_control_for(channel),
                        Mask::LOG_EN,
                        spec_flag(enabled),
                        false,
                    ),
                ],
            ),
    {
        proof {
            lemma_field_shapes();
        }
        self.single(update(Register::control_for(channel), Mask::LOG_EN, flag(enabled), false))
    }

    /// Switches ratiometric dimming of `channel` on or off. `D9` has a
    /// register of its own, which is written as a whole; the register that
    /// `D1` to `D8` share is written only if it changes.
    pub fn set_ratiometric_dimming(&self, channel: Channel, enabled: bool) -> (r: Transaction)
        ensures
            channel == Channel::D9 ==> r@ == self.begins(
                seq![write_step(Register::OUTPUT_DIRECT_RATIOMETRIC_MSB, spec_flag(enabled))],
            ),
            channel != Channel::D9 ==> r@ == self.begins(
                seq![
                    update_step(
                        Register::OUTPUT_DIRECT_RATIOMETRIC_LSB,
                        Mask::spec_ratiometric_dimming_for(channel),
                        spec_flag(enabled),
                        false,
                    ),
                ],
            ),
    {
        if channel == Channel::D9 {
            return self.write_register(Register::OUTPUT_DIRECT_RATIOMETRIC_MSB, flag(enabled));
        }
        proof {
            lemma_field_shapes();
        }
        self.single(
            update(
                Register::OUTPUT_DIRECT_RATIOMETRIC_LSB,
                Mask::ratiometric_dimming_for(channel),
                flag(enabled),
                false,
            ),
        )
    }

    /// Switches `channel` on or off. `D9` has a register of its own, which
    /// is written as a whole; the register that `D1` to `D8` share is
    /// written only if it changes.
    pub fn set_channel_enabled(&self, channel: Channel, enabled: bool) -> (r: Transaction)
        ensures
            channel == Channel::D9 ==> r@ == self.begins(
                seq![write_step(Register::OUTPUT_ON_OFF_CONTROL_MSB, spec_flag(enabled))],
            ),
            channel != Channel::D9 ==> r@ == self.begins(
                seq![
                    update_step(
                        Register::OUTPUT_ON_OFF_CONTROL_LSB,
                        Mask::spec_on_off_for(channel),
                        spec_flag(enabled),
                        false,
                    ),
                ],
            ),
    {
        if channel == Channel::D9 {
            return self.write_register(Register::OUTPUT_ON_OFF_CONTROL_MSB, flag(enabled));
        }
        proof {
            lemma_field_shapes();
        }
        self.single(
            update(
                Register::OUTPUT_ON_OFF_CONTROL_LSB,
                Mask::on_off_for(channel),
                flag(enabled),
                false,
            ),
        )
    }

    /// Assigns `channel` to `fader`, or to no fader. A fader moves the
    /// intensity of all channels assigned to it. The register is written
    /// only if it changes.
    pub fn assign_to_fader(&self, channel: Channel, fader: Option<Fader>) -> (r: Transaction)
        ensures
            r@ == self.begins(
                seq![
                    update_step(
                        Register::spec_control_for(channel),
                        Mask::MAPPING,
                        fader_bits(fader),
                        false,
                    ),
                ],
            ),
    {
        // 00 - none, 01 - F1, 10 - F2, 11 - F3
        let fader_assignment_bits: u8 = match fader {
            Some(f) => f.index() + 1,
            None => 0b00,
        };
        proof {
            lemma_field_shapes();
        }
        self.single(
            update(Register::control_for(channel), Mask::MAPPING, fader_assignment_bits, false),
        )
    }

    /// Sets the intensity of `fader`, and with it that of every channel
    /// assigned to the fader.
    pub fn set_fader_intensity(&self, fader: Fader, intensity: u8) -> (r: Transaction)
        ensures
            r@ == self.begins(seq![write_step(Register::spec_intensity_for(fader), intensity)]),
    {
        self.write_register(Register::intensity_for(fader), intensity)
    }

    /// Clears the interrupts: reads the status register.
    pub fn clear_interrupt(&self) -> (r: Transaction)
        ensures
            r@ == self.begins(seq![read_step(Register::STATUS_INTERRUPT)]),
    {
        self.read_register(Register::STATUS_INTERRUPT)
    }

    /// Loads a program of up to `MAX_INSTRUCTIONS` instructions, over as
    /// many pages as it takes. A longer program is refused, and no
    /// transaction is made.
    ///
    /// The transaction disables all engines, puts all of them in load mode,
    /// waits until the busy bit is clear and `SETTLE_INTERVAL_MS` longer,
    /// writes the program page by page, and disables all engines again.
    /// Loading resets the start addresses of the engines; they and the modes
    /// of the engines are the caller's to set afterwards.
    ///
    /// A load that is cancelled still disables all engines before it ends;
    /// program memory then holds as much of the program as was written.
    pub fn load_program(&self, instructions: &[Instruction]) -> (r: Result<
        Transaction,
        ValidationError,
    >)
        ensures
            instructions@.len() <= MAX_INSTRUCTIONS ==> r is Ok && r->Ok_0@ == load_machine(
                instructions@,
                self.verify_writes,
                self.max_busy_polls as nat,
            ),
            instructions@.len() > MAX_INSTRUCTIONS ==> r is Err && r->Err_0
                == (ValidationError::ProgramLength { len: instructions@.len() as usize }),
    {
        match load_program_steps(instructions) {
            Ok(steps) => Ok(
                Transaction::new(
                    steps,
                    self.verify_writes,
                    self.max_busy_polls,
                    LOAD_CLOSING_STEPS,
                ),
            ),
            Err(e) => Err(e),
        }
    }

    /// Reads the instruction in slot `index` of the selected page;
    /// `decode_instructions` tells it from the two bytes read.
    pub fn read_program_instruction(&self, index: u8) -> (r: Result<Transaction, ValidationError>)
        ensures
            index < INSTRUCTIONS_PER_PAGE ==> r is Ok && r->Ok_0@ == self.begins(
                seq![
                    Step::Read { address: (PROG_MEM_BASE + 2 * index) as u8 },
                    Step::Read { address: (PROG_MEM_BASE + 2 * index + 1) as u8 },
                ],
            ),
            index >= INSTRUCTIONS_PER_PAGE ==> r is Err && r->Err_0
                == (ValidationError::InstructionIndex { index }),
    {
        let register = match instruction_address(index) {
            Ok(address) => address,
            Err(e) => { return Err(e); },
        };
        let mut steps: Vec<Step> = Vec::new();
        steps.push(Step::Read { address: register });
        steps.push(Step::Read { address: register + 1 });
        proof {
            assert(steps@ == seq![
                Step::Read { address: (PROG_MEM_BASE + 2 * index) as u8 },
                Step::Read { address: (PROG_MEM_BASE + 2 * index + 1) as u8 },
            ]);
        }
        Ok(self.transaction(steps))
    }

    /// Writes up to `INSTRUCTIONS_PER_PAGE` instructions to page `page`,
    /// from its first slot on, byte by byte. A page number above 5 and more
    /// instructions than a page holds are refused, the page number first.
    pub fn write_program_page(&self, page: u8, instructions: &[Instruction]) -> (r: Result<
        Transaction,
        ValidationError,
    >)
        ensures
            page < MAX_PAGES && instructions@.len() <= INSTRUCTIONS_PER_PAGE ==> r is Ok
                && r->Ok_0@ == self.begins(page_steps(page, instructions@)),
            page >= MAX_PAGES ==> r is Err && r->Err_0 == (ValidationError::PageIndex { page }),
            page < MAX_PAGES && instructions@.len() > INSTRUCTIONS_PER_PAGE ==> r is Err
                && r->Err_0 == (ValidationError::PageLength {
                len: instructions@.len() as usize,
            }),
    {
        match write_page_steps(page, instructions) {
            Ok(steps) => Ok(self.transaction(steps)),
            Err(e) => Err(e),
        }
    }

    /// Writes `instr` to slot `index` of the selected page, high byte
    /// first.
    pub fn write_program_instruction(&self, index: u8, instr: &Instruction) -> (r: Result<
        Transaction,
        ValidationError,
    >)
        ensures
            index < INSTRUCTIONS_PER_PAGE ==> r is Ok && r->Ok_0@ == self.begins(
                seq![
                    Step::Write { address: (PROG_MEM_BASE + 2 * index) as u8, value: instr.msb },
                    Step::Write {
                        address: (PROG_MEM_BASE + 2 * index + 1) as u8,
                        value: instr.lsb,
                    },
                ],
            ),
            index >= INSTRUCTIONS_PER_PAGE ==> r is Err && r->Err_0
                == (ValidationError::InstructionIndex { index }),
    {
        let register = match instruction_address(index) {
            Ok(address) => address,
            Err(e) => { return Err(e); },
        };
        let mut steps: Vec<Step> = Vec::new();
        steps.push(Step::Write { address: register, value: instr.msb });
        steps.push(Step::Write { address: register + 1, value: instr.lsb });
        proof {
            assert(steps@ == seq![
                Step::Write { address: (PROG_MEM_BASE + 2 * index) as u8, value: instr.msb },
                Step::Write { address: (PROG_MEM_BASE + 2 * index + 1) as u8, value: instr.lsb },
            ]);
        }
        Ok(self.transaction(steps))
    }

    /// Reads the 16 instructions of page `page`; `decode_instructions`
    /// tells them from the 32 bytes read.
    pub fn read_program_page(&self, page: u8) -> (r: Result<Transaction, ValidationError>)
        ensures
            page < MAX_PAGES ==> r is Ok && r->Ok_0@ == self.begins(read_page_steps(page)),
            page >= MAX_PAGES ==> r is Err && r->Err_0 == (ValidationError::PageIndex { page }),
    {
        match validate_page(page) {
            Err(e) => { return Err(e); },
            Ok(()) => {},
        }
        let mut steps: Vec<Step> = Vec::new();
        steps.push(Step::Write { address: Register::PROG_MEM_PAGE_SEL.address(), value: page });
        let mut i: u8 = 0;
        while i < PAGE_BYTES
            invariant
                i <= PAGE_BYTES,
                steps@ == read_page_steps(page).subrange(0, i + 1),
            decreases PAGE_BYTES - i,
        {
            steps.push(Step::Read { address: PROG_MEM_BASE + i });
            i += 1;
        }
        proof {
            assert(read_page_steps(page).subrange(0, PAGE_BYTES + 1) == read_page_steps(page));
        }
        Ok(self.transaction(steps))
    }

    /// Sets the address at which the program of `engine` starts. After a
    /// reset and after each load the engines start at 0, 8 and 16.
    pub fn set_engine_entry_point(&self, engine: Engine, entry_point: u8) -> (r: Transaction)
        ensures
            r@ == self.begins(
                seq![write_step(Register::spec_program_start_for(engine), entry_point)],
            ),
    {
        self.write_register(Register::program_start_for(engine), entry_point)
    }

    /// Sets the program counter of `engine`, which the chip accepts only
    /// while the engine does not run. A counter that points outside program
    /// memory is refused.
    pub fn set_engine_program_counter(&self, engine: Engine, pc: u8) -> (r: Result<
        Transaction,
        ValidationError,
    >)
        ensures
            pc < MAX_INSTRUCTIONS ==> r is Ok && r->Ok_0@ == self.begins(
                seq![write_step(Register::spec_program_counter_for(engine), pc)],
            ),
            pc >= MAX_INSTRUCTIONS ==> r is Err && r->Err_0 == (ValidationError::ProgramCounter {
                counter: pc,
            }),
    {
        match validate_program_counter(pc) {
            Err(e) => { return Err(e); },
            Ok(()) => {},
        }
        let register = Register::program_counter_for(engine);
        Ok(self.write_register(register, pc))
    }

    /// Sets how `engine` executes its program. The register is written only
    /// if it changes.
    pub fn set_engine_exec(&self, engine: Engine, exec_mode: EngineExec) -> (r: Transaction)
        ensures
            r@ == self.begins(
                seq![
                    update_step(
                        Register::ENABLE_ENGINE_CNTRL1,
                        Mask::spec_exec_for(engine),
                        exec_mode.spec_bits(),
                        false,
                    ),
                ],
            ),
    {
        proof {
            lemma_field_shapes();
        }
        self.single(
            update(
                Register::ENABLE_ENGINE_CNTRL1,
                Mask::exec_for(engine),
                exec_mode.bits(),
                false,
            ),
        )
    }

    /// Gives all three engines the mode `op_mode`.
    pub fn set_all_engines_mode(&self, op_mode: EngineMode) -> (r: Transaction)
        ensures
            r@ == self.begins(seq![all_engines_step(op_mode)]),
    {
        self.set_engine_modes(op_mode, op_mode, op_mode)
    }

    /// Gives each engine a mode, all in one write.
    pub fn set_engine_modes(
        &self,
        engine1: EngineMode,
        engine2: EngineMode,
        engine3: EngineMode,
    ) -> (r: Transaction)
        ensures
            r@ == self.begins(
                seq![write_step(Register::ENGINE_CNTRL_2, engine_modes(engine1, engine2, engine3))],
            ),
    {
        let value = engine_modes_byte(engine1, engine2, engine3);
        self.write_register(Register::ENGINE_CNTRL_2, value)
    }

    /// Gives `engine` the mode `op_mode` and leaves the other engines as
    /// they are. The register is written only if it changes.
    pub fn set_engine_mode(&self, engine: Engine, op_mode: EngineMode) -> (r: Transaction)
        ensures
            r@ == self.begins(
                seq![
                    update_step(
                        Register::ENGINE_CNTRL_2,
                        Mask::spec_mode_for(engine),
                        op_mode.spec_bits(),
                        false,
                    ),
                ],
            ),
    {
        proof {
            lemma_field_shapes();
        }
        self.single(
            update(Register::ENGINE_CNTRL_2, Mask::mode_for(engine), op_mode.bits(), false),
        )
    }

    /// Reads the byte that `register` holds.
    pub fn read_register(&self, register: Register) -> (r: Transaction)
        ensures
            r@ == self.begins(seq![read_step(register)]),
    {
        self.single(Step::Read { address: register.address() })
    }

    /// Writes `value` to `register`. With `verify_writes` the register is
    /// read back, and the transaction fails if it does not hold `value`.
    pub fn write_register(&self, register: Register, value: u8) -> (r: Transaction)
        ensures
            r@ == self.begins(seq![write_step(register, value)]),
    {
        self.single(Step::Write { address: register.address(), value })
    }

    /// Waits until the engines are no longer busy, with a look at the busy
    /// bit every `poll_interval` milliseconds, and gives up after
    /// `max_busy_polls` busy answers. If the bit is clear at the first look,
    /// nothing is waited for.
    pub fn wait_while_engine_busy(&self, poll_interval: u64) -> (r: Transaction)
        ensures
            r@ == self.begins(seq![await_idle_step(poll_interval)]),
    {
        self.single(
            Step::AwaitClear {
                address: Register::STATUS_INTERRUPT.address(),
                mask: Mask::ENGINE_BUSY.bits(),
                interval: poll_interval,
            },
        )
    }
}

impl Default for LP55231 {
    /// The driver that `new` makes.
    fn default() -> (r: LP55231)
        ensures
            r == (LP55231 { verify_writes: false, max_busy_polls: DEFAULT_MAX_BUSY_POLLS }),
    {
        LP55231::new()
    }
}

/// Whether the chip is enabled, from the byte of the first engine control
/// register.
pub fn enabled(value: u8) -> (r: bool)
    ensures
        r == (value & Mask::CHIP_EN@ != 0),
{
    Mask::CHIP_EN.is_set(value)
}

} // verus!
