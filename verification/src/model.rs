//! What a load achieves, said of a chip that does as it is told.
//!
//! The chip of this file exists in proofs only. It keeps what is written to
//! its registers, shows one page of program memory at a time, and never
//! fails. Run against it, a load ends with success and leaves every
//! instruction of the program in its slot.

use vstd::prelude::*;
use crate::loader::{
    engine_modes,
    lemma_load_steps,
    lemma_program_step_at,
    load_machine,
    load_steps,
    program_steps,
};
use crate::driver::update_step;
use crate::field::field_insert;
use crate::mask::{lemma_apply_keeps_other_bits, lemma_apply_then_value, Mask};
use crate::paging::{instruction_bytes, program_page, PAGE_BYTES, PROG_MEM_BASE};
use crate::program::{Instruction, MAX_INSTRUCTIONS};
use crate::register::Register;
use crate::error::Error;
use crate::transaction::{lemma_next, Action, Event, Machine, Stage, Step};
use crate::types::EngineMode;

verus! {

/// A chip that does as it is told.
pub struct Chip {
    /// What each register holds, by its address. The addresses of program
    /// memory are not looked up here.
    pub registers: spec_fn(u8) -> u8,
    /// What each byte of program memory holds, by its page and its place in
    /// the page.
    pub memory: spec_fn(u8, u8) -> u8,
}

impl Chip {
    /// Whether `address` is one of the 32 addresses of program memory.
    pub open spec fn in_memory(address: u8) -> bool {
        PROG_MEM_BASE <= address < PROG_MEM_BASE + PAGE_BYTES
    }

    /// The page of program memory that is selected.
    pub open spec fn page(self) -> u8 {
        (self.registers)(Register::PROG_MEM_PAGE_SEL.spec_address())
    }

    /// What a read at `address` returns.
    pub open spec fn read(self, address: u8) -> u8 {
        if Chip::in_memory(address) {
            (self.memory)(self.page(), (address - PROG_MEM_BASE) as u8)
        } else {
            (self.registers)(address)
        }
    }

    /// The chip after `value` was written at `address`.
    pub open spec fn write(self, address: u8, value: u8) -> Chip {
        if Chip::in_memory(address) {
            Chip {
                memory: |page: u8, place: u8|
                    if page == self.page() && place == address - PROG_MEM_BASE {
                        value
                    } else {
                        (self.memory)(page, place)
                    },
                ..self
            }
        } else {
            Chip {
                registers: |other: u8|
                    if other == address {
                        value
                    } else {
                        (self.registers)(other)
                    },
                ..self
            }
        }
    }

    /// Whether the status register shows the engines as not busy.
    pub open spec fn idle(self) -> bool {
        self.read(Register::STATUS_INTERRUPT.spec_address()) & Mask::ENGINE_BUSY@ == 0
    }

    /// The chip after it has done what `action` asks for, and its answer.
    pub open spec fn serve<E>(self, action: Action<E>) -> (Chip, Event<E>) {
        match action {
            Action::Read { address } => (self, Event::Value(self.read(address))),
            Action::Write { address, value } => (self.write(address, value), Event::Written),
            _ => (self, Event::Slept),
        }
    }

    /// The chip after `step` was done on it: after the write, if the step is
    /// one.
    pub open spec fn done(self, step: Step) -> Chip {
        match step {
            Step::Write { address, value } => self.write(address, value),
            _ => self,
        }
    }

    /// The chip after the first `count` of `steps` were done on it.
    pub open spec fn applied(self, steps: Seq<Step>, count: nat) -> Chip
        decreases count,
    {
        if count == 0 {
            self
        } else {
            self.applied(steps, (count - 1) as nat).done(steps[count - 1])
        }
    }
}

/// A transaction run against the chip: the event is taken in, what the
/// answer asks for is done on the chip, and so on, until the transaction is
/// over or `fuel` exchanges were made. The result is the state of both and
/// the last action.
pub open spec fn run<E>(machine: Machine, chip: Chip, event: Event<E>, fuel: nat) -> (
    Machine,
    Chip,
    Action<E>,
)
    decreases fuel,
{
    let (next, action) = machine.next(event);
    if fuel == 0 || action is Done || action is Fail {
        (next, chip, action)
    } else {
        let (served, answer) = chip.serve(action);
        run(next, served, answer, (fuel - 1) as nat)
    }
}

/// Whether `steps` are writes outside the status register, sleeps, and
/// waits for the busy bit only.
spec fn plain(steps: Seq<Step>) -> bool {
    forall|at: int|
        0 <= at < steps.len() ==> match #[trigger] steps[at] {
            Step::Write { address, .. } => address != Register::STATUS_INTERRUPT.spec_address(),
            Step::AwaitClear { address, mask, .. } => address
                == Register::STATUS_INTERRUPT.spec_address() && mask == Mask::ENGINE_BUSY@,
            Step::Sleep { .. } => true,
            _ => false,
        }
}

/// Whether `event` is what makes `machine` take up the step at `position`.
spec fn ready<E>(machine: Machine, event: Event<E>, position: nat) -> bool {
    &&& machine.consistent()
    &&& !machine.cancelled
    &&& if machine.stage == Stage::Idle {
        event == Event::<E>::Begin && position == 0
    } else {
        machine.active() && machine.position + 1 == position && machine.completes(event)
    }
}

/// Plain steps leave the status register alone.
proof fn lemma_applied_idle(chip: Chip, steps: Seq<Step>, count: nat)
    requires
        plain(steps),
        count <= steps.len(),
    ensures
        chip.applied(steps, count).read(Register::STATUS_INTERRUPT.spec_address()) == chip.read(
            Register::STATUS_INTERRUPT.spec_address(),
        ),
    decreases count,
{
    if count > 0 {
        lemma_applied_idle(chip, steps, (count - 1) as nat);
    }
}

/// One plain step, run against the chip, is done in at most two exchanges
/// and leaves the chip as the step asks.
proof fn lemma_run_step<E>(
    machine: Machine,
    chip: Chip,
    event: Event<E>,
    position: nat,
    fuel: nat,
) -> (r: (Machine, Event<E>, nat))
    requires
        ready(machine, event, position),
        position < machine.steps.len(),
        plain(machine.steps),
        machine.steps[position as int] is AwaitClear ==> chip.idle(),
        fuel >= 2,
    ensures
        1 <= r.2 <= 2,
        run(machine, chip, event, fuel) == run(
            r.0,
            chip.done(machine.steps[position as int]),
            r.1,
            (fuel - r.2) as nat,
        ),
        ready(r.0, r.1, position + 1),
        r.0.steps == machine.steps,
        r.0.verify == machine.verify,
        r.0.max_polls == machine.max_polls,
{
    reveal_with_fuel(run, 3);
    lemma_next(machine, event);
    let (first, asked) = machine.next(event);
    let (served, answer) = chip.serve(asked);
    lemma_next(first, answer);
    if machine.steps[position as int] is Write && machine.verify {
        let (second, check) = first.next(answer);
        let value = served.serve(check).1;
        lemma_next(second, value);
        (second, value, 2)
    } else {
        (first, answer, 1)
    }
}

/// Plain steps, run against an idle chip with two exchanges for each step
/// that is left, end with success and leave the chip as the steps ask.
proof fn lemma_run_rest<E>(
    machine: Machine,
    chip: Chip,
    event: Event<E>,
    position: nat,
    fuel: nat,
)
    requires
        ready(machine, event, position),
        position <= machine.steps.len(),
        plain(machine.steps),
        chip.idle(),
        fuel >= 2 * (machine.steps.len() - position),
    ensures
        run(machine, chip.applied(machine.steps, position), event, fuel).2 is Done,
        run(machine, chip.applied(machine.steps, position), event, fuel).1 == chip.applied(
            machine.steps,
            machine.steps.len(),
        ),
    decreases machine.steps.len() - position,
{
    lemma_applied_idle(chip, machine.steps, position);
    if position == machine.steps.len() {
        lemma_next(machine, event);
    } else {
        let now = chip.applied(machine.steps, position);
        let r = lemma_run_step(machine, now, event, position, fuel);
        lemma_run_rest(r.0, chip, r.1, position + 1, (fuel - r.2) as nat);
    }
}

/// What the steps of a load have left in program memory after the first
/// `count` of them: the page selected last is the page of the last step, and
/// every byte whose write is among the steps done is in its place.
proof fn lemma_applied_program(
    program: Seq<Instruction>,
    chip: Chip,
    count: nat,
    page: u8,
    place: u8,
)
    requires
        program.len() <= MAX_INSTRUCTIONS,
        4 <= count <= load_steps(program).len() - 1,
        place < 32,
    ensures
        count > 4 ==> chip.applied(load_steps(program), count).page() == ((count - 5) / 33) as u8,
        33 * page + 1 + place < count - 4 ==> (chip.applied(load_steps(program), count).memory)(
            page,
            place,
        ) == instruction_bytes(program_page(program, page as nat))[place as int],
    decreases count,
{
    if count > 4 {
        let at = count - 5;
        lemma_load_steps(program);
        lemma_program_step_at(program, at);
        lemma_applied_program(program, chip, (count - 1) as nat, page, place);
        let before = chip.applied(load_steps(program), (count - 1) as nat);
        assert(load_steps(program)[count - 1] == program_steps(program)[at]);
        if at % 33 != 0 {
            assert(before.page() == (at / 33) as u8);
            assert(Chip::in_memory((PROG_MEM_BASE + at % 33 - 1) as u8));
        }
    }
}

/// A load, run against a chip that does as it is told and is not busy, ends
/// with success within two exchanges for each of its steps. It leaves every
/// instruction of the program in program memory, the instruction at
/// `position` in page `position / 16` at the two places of slot
/// `position % 16`, high byte first, and it leaves all engines disabled.
pub proof fn lemma_load_fills_memory<E>(
    program: Seq<Instruction>,
    verify: bool,
    max_polls: nat,
    chip: Chip,
    position: int,
)
    requires
        program.len() <= MAX_INSTRUCTIONS,
        chip.idle(),
        0 <= position < program.len(),
    ensures
        ({
            let end = run::<E>(
                load_machine(program, verify, max_polls),
                chip,
                Event::Begin,
                2 * load_steps(program).len(),
            );
            &&& end.2 is Done
            &&& (end.1.memory)((position / 16) as u8, (2 * (position % 16)) as u8)
                == program[position].msb
            &&& (end.1.memory)((position / 16) as u8, (2 * (position % 16) + 1) as u8)
                == program[position].lsb
            &&& (end.1.registers)(Register::ENGINE_CNTRL_2.spec_address()) == engine_modes(
                EngineMode::Disabled,
                EngineMode::Disabled,
                EngineMode::Disabled,
            )
        }),
{
    let steps = load_steps(program);
    let start = load_machine(program, verify, max_polls);
    lemma_load_steps(program);
    lemma_load_plain(program);
    lemma_run_rest(start, chip, Event::<E>::Begin, 0, 2 * steps.len());
    crate::loader::lemma_program_step(program, position);
    crate::paging::lemma_pages_cover(program, position as nat);
    let page = (position / 16) as u8;
    let place = (2 * (position % 16)) as u8;
    lemma_applied_program(program, chip, (steps.len() - 1) as nat, page, place);
    lemma_applied_program(program, chip, (steps.len() - 1) as nat, page, (place + 1) as u8);
}

/// An update, run against a chip that does as it is told, ends with success
/// and leaves the register with `value` in the field and all other bits as
/// they were, whether or not the register had to be written for it.
pub proof fn lemma_update_sets_field<E>(
    register: Register,
    mask: Mask,
    value: u8,
    always: bool,
    verify: bool,
    max_polls: nat,
    chip: Chip,
)
    requires
        value <= mask.max_value(),
    ensures
        ({
            let address = register.spec_address();
            let end = run::<E>(
                Machine::fresh(
                    seq![update_step(register, mask, value, always)],
                    verify,
                    max_polls,
                    0,
                ),
                chip,
                Event::Begin,
                4,
            );
            &&& end.2 is Done
            &&& end.1.read(address) == field_insert(mask@, value, chip.read(address))
            &&& mask.spec_value(end.1.read(address)) == value
            &&& end.1.read(address) & !mask@ == chip.read(address) & !mask@
        }),
{
    reveal_with_fuel(run, 5);
    let address = register.spec_address();
    lemma_apply_then_value(mask, value, chip.read(address));
    lemma_apply_keeps_other_bits(mask, value, chip.read(address));
}

/// A wait for the busy bit, run against a chip that stays busy, gives up:
/// from any look at the busy bit on, it ends with a timeout within two
/// exchanges for each busy answer that it may still take, and it does
/// nothing to the chip.
proof fn lemma_busy_wait<E>(machine: Machine, chip: Chip, fuel: nat)
    requires
        machine.consistent(),
        !machine.cancelled,
        machine.stage == Stage::Reading,
        machine.current() is AwaitClear,
        plain(machine.steps),
        !chip.idle(),
        fuel >= 2 * (machine.max_polls - machine.polls),
    ensures
        run(
            machine,
            chip,
            Event::<E>::Value(chip.read(Register::STATUS_INTERRUPT.spec_address())),
            fuel,
        ).2 == Action::<E>::Fail(Error::BusyTimeout),
        run(
            machine,
            chip,
            Event::<E>::Value(chip.read(Register::STATUS_INTERRUPT.spec_address())),
            fuel,
        ).1 == chip,
    decreases machine.max_polls - machine.polls,
{
    reveal_with_fuel(run, 3);
    let busy = Event::<E>::Value(chip.read(Register::STATUS_INTERRUPT.spec_address()));
    lemma_next(machine, busy);
    assert(machine.steps[machine.position as int] is AwaitClear);
    if machine.polls + 1 < machine.max_polls {
        let paused = machine.next(busy).0;
        lemma_next(paused, Event::<E>::Slept);
        let reading = paused.next(Event::<E>::Slept).0;
        lemma_busy_wait::<E>(reading, chip, (fuel - 2) as nat);
    }
}

/// A load, run against a chip that stays busy, gives up waiting: it ends
/// with a timeout, after it has put the engines in load mode, and it writes
/// nothing to program memory.
pub proof fn lemma_busy_load_times_out<E>(
    program: Seq<Instruction>,
    verify: bool,
    max_polls: nat,
    chip: Chip,
)
    requires
        !chip.idle(),
    ensures
        ({
            let end = run::<E>(
                load_machine(program, verify, max_polls),
                chip,
                Event::Begin,
                2 * max_polls + 6,
            );
            &&& end.2 == Action::<E>::Fail(Error::BusyTimeout)
            &&& end.1.memory == chip.memory
            &&& end.1.read(Register::ENGINE_CNTRL_2.spec_address()) == engine_modes(
                EngineMode::LoadProgram,
                EngineMode::LoadProgram,
                EngineMode::LoadProgram,
            )
        }),
{
    reveal_with_fuel(run, 2);
    let steps = load_steps(program);
    let start = load_machine(program, verify, max_polls);
    let fuel = 2 * max_polls + 6;
    lemma_load_plain(program);
    lemma_load_steps(program);
    let first = lemma_run_step(start, chip, Event::<E>::Begin, 0, fuel);
    let disabled = chip.done(steps[0]);
    let second = lemma_run_step(first.0, disabled, first.1, 1, (fuel - first.2) as nat);
    let loading = disabled.done(steps[1]);
    lemma_next(second.0, second.1);
    let waiting = second.0.next(second.1).0;
    assert(waiting.stage == Stage::Reading && waiting.polls == 0);
    lemma_busy_wait::<E>(waiting, loading, (fuel - first.2 - second.2 - 1) as nat);
}

/// The steps of a load are plain.
proof fn lemma_load_plain(program: Seq<Instruction>)
    ensures
        plain(load_steps(program)),
{
    let steps = load_steps(program);
    lemma_load_steps(program);
    assert forall|at: int| 0 <= at < steps.len() implies match #[trigger] steps[at] {
        Step::Write { address, .. } => address != Register::STATUS_INTERRUPT.spec_address(),
        Step::AwaitClear { address, mask, .. } => address
            == Register::STATUS_INTERRUPT.spec_address() && mask == Mask::ENGINE_BUSY@,
        Step::Sleep { .. } => true,
        _ => false,
    } by {
        if 4 <= at < steps.len() - 1 {
            lemma_program_step_at(program, at - 4);
        }
    }
}

} // verus!
