//! Loading a program into the chip.
//!
//! Program memory can be written only while the engines are in load mode,
//! and load mode can be entered only from the disabled mode. So a load
//! disables all engines, puts all of them in load mode, waits until the chip
//! is no longer busy and a little longer, writes the program page by page,
//! and disables the engines again.

use vstd::prelude::*;
use crate::error::ValidationError;
use crate::mask::{lemma_field_shapes, Mask};
use crate::paging::{
    instruction_bytes,
    page_count,
    pages,
    program_page,
    validate_page,
    validate_per_page_instruction_count,
    validate_total_instruction_count,
    PROG_MEM_BASE,
};
use crate::program::{Instruction, INSTRUCTIONS_PER_PAGE, MAX_INSTRUCTIONS, MAX_PAGES};
use crate::register::Register;
use crate::transaction::{
    lemma_after,
    lemma_after_take,
    lemma_next,
    lemma_position_grows,
    lemma_sleep_done_at_once,
    Action,
    Event,
    Machine,
    Stage,
    Step,
};
use crate::types::EngineMode;

verus! {

/// Milliseconds between two looks at the busy bit during a load.
pub const POLL_INTERVAL_MS: u64 = 1;

/// Milliseconds that a load lets pass after the busy bit has cleared, before
/// it writes to program memory.
pub const SETTLE_INTERVAL_MS: u64 = 10;

/// The byte of the second engine control register in which the three
/// engines have the given modes.
pub open spec fn engine_modes(engine1: EngineMode, engine2: EngineMode, engine3: EngineMode) -> u8 {
    (engine1.spec_bits() << Mask::ENGINE1_MODE.shift()) | (engine2.spec_bits()
        << Mask::ENGINE2_MODE.shift()) | (engine3.spec_bits() << Mask::ENGINE3_MODE.shift())
}

/// The byte of the second engine control register in which the three
/// engines have the given modes.
pub fn engine_modes_byte(engine1: EngineMode, engine2: EngineMode, engine3: EngineMode) -> (r: u8)
    ensures
        r == engine_modes(engine1, engine2, engine3),
{
    proof {
        lemma_field_shapes();
    }
    let e1_bits = Mask::ENGINE1_MODE.with(engine1.bits()).unwrap();
    let e2_bits = Mask::ENGINE2_MODE.with(engine2.bits()).unwrap();
    let e3_bits = Mask::ENGINE3_MODE.with(engine3.bits()).unwrap();
    e1_bits | e2_bits | e3_bits
}

/// The step that gives all three engines the mode `mode`.
pub open spec fn all_engines_step(mode: EngineMode) -> Step {
    Step::Write {
        address: Register::ENGINE_CNTRL_2.spec_address(),
        value: engine_modes(mode, mode, mode),
    }
}

/// The step that waits for the engines to be no longer busy.
pub open spec fn await_idle_step(interval: u64) -> Step {
    Step::AwaitClear {
        address: Register::STATUS_INTERRUPT.spec_address(),
        mask: Mask::ENGINE_BUSY@,
        interval,
    }
}

/// The steps that write a run of instructions to the selected page, from
/// its first slot on: byte after byte at rising addresses.
pub open spec fn instruction_steps(instructions: Seq<Instruction>) -> Seq<Step> {
    Seq::new(
        2 * instructions.len(),
        |i: int|
            Step::Write {
                address: (PROG_MEM_BASE + i) as u8,
                value: instruction_bytes(instructions)[i],
            },
    )
}

/// The steps that write one page: select it, then write its instructions.
pub open spec fn page_steps(page: u8, instructions: Seq<Instruction>) -> Seq<Step> {
    seq![Step::Write { address: Register::PROG_MEM_PAGE_SEL.spec_address(), value: page }]
        + instruction_steps(instructions)
}

/// The steps that write the first `count` pages of `program`, in order.
pub open spec fn pages_steps(program: Seq<Instruction>, count: nat) -> Seq<Step>
    decreases count,
{
    if count == 0 {
        Seq::empty()
    } else {
        pages_steps(program, (count - 1) as nat) + page_steps(
            (count - 1) as u8,
            program_page(program, (count - 1) as nat),
        )
    }
}

/// The steps that write all of `program` to program memory.
pub open spec fn program_steps(program: Seq<Instruction>) -> Seq<Step> {
    pages_steps(program, page_count(program.len()))
}

/// The steps of a load, from the first disabling of the engines to the last.
pub open spec fn load_steps(program: Seq<Instruction>) -> Seq<Step> {
    seq![
        all_engines_step(EngineMode::Disabled),
        all_engines_step(EngineMode::LoadProgram),
        await_idle_step(POLL_INTERVAL_MS),
        Step::Sleep { millis: SETTLE_INTERVAL_MS },
    ] + program_steps(program) + seq![all_engines_step(EngineMode::Disabled)]
}

/// Number of steps at the end of a load that are done even when the load is
/// cancelled: the last write of the engine modes.
pub const LOAD_CLOSING_STEPS: usize = 1;

/// A load of `program` that has not begun.
pub open spec fn load_machine(program: Seq<Instruction>, verify: bool, max_polls: nat) -> Machine {
    Machine::fresh(load_steps(program), verify, max_polls, LOAD_CLOSING_STEPS as nat)
}

/// Appends the steps that write `instructions` to the selected page.
fn push_instructions(steps: &mut Vec<Step>, instructions: &[Instruction])
    requires
        instructions@.len() <= INSTRUCTIONS_PER_PAGE,
    ensures
        final(steps)@ == old(steps)@ + instruction_steps(instructions@),
{
    let ghost before = steps@;
    let mut i: usize = 0;
    while i < instructions.len()
        invariant
            i <= instructions@.len() <= INSTRUCTIONS_PER_PAGE,
            steps@ == before + instruction_steps(instructions@).subrange(0, 2 * i),
        decreases instructions@.len() - i,
    {
        let address: u8 = PROG_MEM_BASE + 2 * (i as u8);
        steps.push(Step::Write { address, value: instructions[i].msb });
        steps.push(Step::Write { address: address + 1, value: instructions[i].lsb });
        i += 1;
    }
}

/// Appends the steps that write one page.
fn push_page(steps: &mut Vec<Step>, page: u8, instructions: &[Instruction])
    requires
        instructions@.len() <= INSTRUCTIONS_PER_PAGE,
    ensures
        final(steps)@ == old(steps)@ + page_steps(page, instructions@),
{
    steps.push(Step::Write { address: Register::PROG_MEM_PAGE_SEL.address(), value: page });
    push_instructions(steps, instructions);
}

/// The steps that write `instructions` to page `page`, from its first slot
/// on. A page number above 5 and more than 16 instructions are refused, the
/// page number first.
pub fn write_page_steps(page: u8, instructions: &[Instruction]) -> (r: Result<
    Vec<Step>,
    ValidationError,
>)
    ensures
        page < MAX_PAGES && instructions@.len() <= INSTRUCTIONS_PER_PAGE ==> r is Ok && r->Ok_0@
            == page_steps(page, instructions@),
        page >= MAX_PAGES ==> r is Err && r->Err_0 == (ValidationError::PageIndex { page }),
        page < MAX_PAGES && instructions@.len() > INSTRUCTIONS_PER_PAGE ==> r is Err && r->Err_0
            == (ValidationError::PageLength { len: instructions@.len() as usize }),
{
    match validate_page(page) {
        Err(e) => { return Err(e); },
        Ok(()) => {},
    }
    match validate_per_page_instruction_count(instructions) {
        Err(e) => { return Err(e); },
        Ok(()) => {},
    }
    let mut steps: Vec<Step> = Vec::new();
    push_page(&mut steps, page, instructions);
    Ok(steps)
}

/// The steps of a load of `instructions`. A program of more than 96
/// instructions is refused.
pub fn load_program_steps(instructions: &[Instruction]) -> (r: Result<Vec<Step>, ValidationError>)
    ensures
        instructions@.len() <= MAX_INSTRUCTIONS ==> r is Ok && r->Ok_0@ == load_steps(
            instructions@,
        ),
        instructions@.len() > MAX_INSTRUCTIONS ==> r is Err && r->Err_0
            == (ValidationError::ProgramLength { len: instructions@.len() as usize }),
{
    match validate_total_instruction_count(instructions) {
        Err(e) => { return Err(e); },
        Ok(()) => {},
    }
    let disabled = engine_modes_byte(
        EngineMode::Disabled,
        EngineMode::Disabled,
        EngineMode::Disabled,
    );
    let load = engine_modes_byte(
        EngineMode::LoadProgram,
        EngineMode::LoadProgram,
        EngineMode::LoadProgram,
    );
    let control = Register::ENGINE_CNTRL_2.address();
    let mut steps: Vec<Step> = Vec::new();
    steps.push(Step::Write { address: control, value: disabled });
    steps.push(Step::Write { address: control, value: load });
    steps.push(
        Step::AwaitClear {
            address: Register::STATUS_INTERRUPT.address(),
            mask: Mask::ENGINE_BUSY.bits(),
            interval: POLL_INTERVAL_MS,
        },
    );
    steps.push(Step::Sleep { millis: SETTLE_INTERVAL_MS });
    let ghost head = steps@;
    let chunks = pages(instructions);
    let mut page: usize = 0;
    while page < chunks.len()
        invariant
            page <= chunks@.len() == page_count(instructions@.len()),
            instructions@.len() <= MAX_INSTRUCTIONS,
            forall|p: int|
                0 <= p < chunks@.len() ==> (#[trigger] chunks@[p])@ == program_page(
                    instructions@,
                    p as nat,
                ),
            steps@ == head + pages_steps(instructions@, page as nat),
        decreases chunks@.len() - page,
    {
        push_page(&mut steps, page as u8, chunks[page].as_slice());
        page += 1;
    }
    steps.push(Step::Write { address: control, value: disabled });
    proof {
        assert(steps@ == load_steps(instructions@));
    }
    Ok(steps)
}

/// The byte of the engine modes holds each mode in the field of its engine,
/// engine 1 in bits 4 and 5, engine 2 in bits 2 and 3, engine 3 in bits 0
/// and 1, and nothing else.
pub proof fn lemma_engine_modes(engine1: EngineMode, engine2: EngineMode, engine3: EngineMode)
    ensures
        Mask::ENGINE1_MODE.spec_value(engine_modes(engine1, engine2, engine3))
            == engine1.spec_bits(),
        Mask::ENGINE2_MODE.spec_value(engine_modes(engine1, engine2, engine3))
            == engine2.spec_bits(),
        Mask::ENGINE3_MODE.spec_value(engine_modes(engine1, engine2, engine3))
            == engine3.spec_bits(),
        engine_modes(engine1, engine2, engine3) == 16 * engine1.spec_bits() + 4
            * engine2.spec_bits() + engine3.spec_bits(),
{
    lemma_field_shapes();
    let a = engine1.spec_bits();
    let b = engine2.spec_bits();
    let c = engine3.spec_bits();
    assert({
        let byte = (a << 4u8) | (b << 2u8) | (c << 0u8);
        &&& (byte & 0b0011_0000) >> 4u8 == a
        &&& (byte & 0b0000_1100) >> 2u8 == b
        &&& (byte & 0b0000_0011) >> 0u8 == c
        &&& byte == 16 * a + 4 * b + c
    }) by (bit_vector)
        requires
            a < 4,
            b < 4,
            c < 4,
    ;
}

/// How many steps it takes to write the first `count` pages of a program.
proof fn lemma_pages_steps_len(program: Seq<Instruction>, count: nat)
    requires
        count <= page_count(program.len()),
    ensures
        count < page_count(program.len()) ==> pages_steps(program, count).len() == 33 * count,
        count == page_count(program.len()) ==> pages_steps(program, count).len() == count + 2
            * program.len(),
    decreases count,
{
    if count > 0 {
        lemma_pages_steps_len(program, (count - 1) as nat);
    }
}

/// A step of the first `count` pages is the step of its page.
proof fn lemma_pages_step(program: Seq<Instruction>, count: nat, page: nat, offset: int)
    requires
        page < count <= page_count(program.len()),
        0 <= offset < 1 + 2 * program_page(program, page).len(),
    ensures
        33 * page + offset < pages_steps(program, count).len(),
        pages_steps(program, count)[33 * page + offset] == page_steps(
            page as u8,
            program_page(program, page),
        )[offset],
    decreases count,
{
    lemma_pages_steps_len(program, (count - 1) as nat);
    lemma_pages_steps_len(program, count);
    if page + 1 < count {
        lemma_pages_step(program, (count - 1) as nat, page, offset);
    }
}

/// Where the bytes of a program go: the instruction at `position` goes to
/// page `position / 16`, slot `position % 16`. The page is selected 33 steps
/// after the page before it, and the two bytes of the instruction follow at
/// the addresses of its slot, high byte first.
pub proof fn lemma_program_step(program: Seq<Instruction>, position: int)
    requires
        0 <= position < program.len() <= MAX_INSTRUCTIONS,
    ensures
        program_steps(program).len() == page_count(program.len()) + 2 * program.len(),
        33 * (position / 16) + 2 * (position % 16) + 2 < program_steps(program).len(),
        program_steps(program)[33 * (position / 16)] == (Step::Write {
            address: Register::PROG_MEM_PAGE_SEL.spec_address(),
            value: (position / 16) as u8,
        }),
        program_steps(program)[33 * (position / 16) + 2 * (position % 16) + 1] == (Step::Write {
            address: (PROG_MEM_BASE + 2 * (position % 16)) as u8,
            value: program[position].msb,
        }),
        program_steps(program)[33 * (position / 16) + 2 * (position % 16) + 2] == (Step::Write {
            address: (PROG_MEM_BASE + 2 * (position % 16) + 1) as u8,
            value: program[position].lsb,
        }),
{
    let page = (position / 16) as nat;
    let slot = position % 16;
    let count = page_count(program.len());
    lemma_pages_steps_len(program, count);
    lemma_pages_step(program, count, page, 0);
    lemma_pages_step(program, count, page, 2 * slot + 1);
    lemma_pages_step(program, count, page, 2 * slot + 2);
}

/// Every step that writes a program writes to the page select register or
/// to program memory.
pub proof fn lemma_program_steps_addresses(program: Seq<Instruction>, count: nat, at: int)
    requires
        count <= page_count(program.len()),
        0 <= at < pages_steps(program, count).len(),
    ensures
        pages_steps(program, count)[at] is Write,
        Register::PROG_MEM_PAGE_SEL.spec_address() <= pages_steps(program, count)[at].spec_address()
            < PROG_MEM_BASE + 32,
    decreases count,
{
    if count > 0 {
        let before = pages_steps(program, (count - 1) as nat);
        if at < before.len() {
            lemma_program_steps_addresses(program, (count - 1) as nat, at);
        }
    }
}

/// The steps of a load, one by one: the two writes of the engine modes, the
/// wait for the busy bit, the pause after it, the writes of the program,
/// and the last write of the engine modes.
pub proof fn lemma_load_steps(program: Seq<Instruction>)
    ensures
        load_steps(program).len() == 5 + program_steps(program).len(),
        load_steps(program)[0] == all_engines_step(EngineMode::Disabled),
        load_steps(program)[1] == all_engines_step(EngineMode::LoadProgram),
        load_steps(program)[2] == await_idle_step(POLL_INTERVAL_MS),
        load_steps(program)[3] == (Step::Sleep { millis: SETTLE_INTERVAL_MS }),
        forall|at: int|
            4 <= at < load_steps(program).len() - 1 ==> #[trigger] load_steps(program)[at]
                == program_steps(program)[at - 4],
        load_steps(program).last() == all_engines_step(EngineMode::Disabled),
{
}

/// A load puts the engines in load mode only in answer to the news that
/// they are disabled. Whatever the events: if the action that answers the
/// last of them is the write of the load mode, then the first action asked
/// for was the write of the disabled mode, nothing else was done since, and
/// the last event is the news that this write went through, or, where writes
/// are read back, the byte read back with all engines disabled in it.
pub proof fn lemma_load_mode_follows_disabled<E>(
    program: Seq<Instruction>,
    verify: bool,
    max_polls: nat,
    events: Seq<Event<E>>,
)
    requires
        events.len() > 0,
        load_machine(program, verify, max_polls).reply(events) == (Action::<
            E,
        >::Write {
            address: Register::ENGINE_CNTRL_2.spec_address(),
            value: engine_modes(
                EngineMode::LoadProgram,
                EngineMode::LoadProgram,
                EngineMode::LoadProgram,
            ),
        }),
    ensures
        events.len() >= 2,
        events[0] == Event::<E>::Begin,
        load_machine(program, verify, max_polls).reply(events.take(1)) == (Action::<
            E,
        >::Write {
            address: Register::ENGINE_CNTRL_2.spec_address(),
            value: engine_modes(
                EngineMode::Disabled,
                EngineMode::Disabled,
                EngineMode::Disabled,
            ),
        }),
        load_machine(program, verify, max_polls).after(
            events.drop_last(),
        ).position == 0,
        events.last() == (if verify {
            Event::<E>::Value(
                engine_modes(EngineMode::Disabled, EngineMode::Disabled, EngineMode::Disabled),
            )
        } else {
            Event::<E>::Written
        }),
{
    let start = load_machine(program, verify, max_polls);
    let before = start.after(events.drop_last());
    let after = before.next(events.last()).0;
    lemma_load_steps(program);
    lemma_engine_modes(EngineMode::Disabled, EngineMode::Disabled, EngineMode::Disabled);
    lemma_engine_modes(EngineMode::LoadProgram, EngineMode::LoadProgram, EngineMode::LoadProgram);
    lemma_after(start, events.drop_last());
    lemma_next(before, events.last());
    assert(after.stage == Stage::Writing);
    if 4 <= after.position < load_steps(program).len() - 1 {
        lemma_program_steps_addresses(
            program,
            page_count(program.len()),
            after.position - 4,
        );
    }
    // Only the second step writes the load mode, and the step before it is
    // left behind by nothing but the news of its write.
    assert(after.position == 1);
    assert(before.position == 0);
    // The first event began the load: had it ended it, nothing would be
    // under way now.
    assert(events.drop_last().len() > 0);
    lemma_after_take(start, events, 0);
    assert(events.take(0).len() == 0);
    lemma_next(start, events[0]);
    assert(events.drop_last().take(1) == events.take(1));
    lemma_position_grows(start, events.drop_last(), 1);
}

/// A write to the page select register or to program memory comes from one
/// of the steps that write the program, and from a load that was not
/// cancelled.
proof fn lemma_memory_write_position<E>(
    program: Seq<Instruction>,
    verify: bool,
    max_polls: nat,
    events: Seq<Event<E>>,
)
    requires
        events.len() > 0,
        load_machine(program, verify, max_polls).reply(events) is Write,
        load_machine(program, verify, max_polls).reply(events)->Write_address
            >= Register::PROG_MEM_PAGE_SEL.spec_address(),
    ensures
        4 <= load_machine(program, verify, max_polls).after(events).position,
        !load_machine(program, verify, max_polls).after(events).cancelled,
{
    let start = load_machine(program, verify, max_polls);
    let before = start.after(events.drop_last());
    let after = before.next(events.last()).0;
    lemma_load_steps(program);
    lemma_after(start, events.drop_last());
    lemma_next(before, events.last());
    assert(after == start.after(events));
    assert(after.stage == Stage::Writing);
    assert(after.current().spec_address() >= Register::PROG_MEM_PAGE_SEL.spec_address());
}

/// A load writes to program memory only after it has seen the busy bit
/// clear and has let the pause after it pass. Whatever the events: if the
/// action that answers the last of them is a write to the page select
/// register or to program memory, then one of the events before, the one at
/// `at`, was a byte of the status register with the busy bit clear, the
/// action that answered it was the pause, and the next event was the news
/// that the pause had passed.
pub proof fn lemma_memory_written_after_settle<E>(
    program: Seq<Instruction>,
    verify: bool,
    max_polls: nat,
    events: Seq<Event<E>>,
) -> (at: int)
    requires
        events.len() > 0,
        load_machine(program, verify, max_polls).reply(events) is Write,
        load_machine(program, verify, max_polls).reply(events)->Write_address
            >= Register::PROG_MEM_PAGE_SEL.spec_address(),
    ensures
        0 <= at,
        at + 1 < events.len(),
        events[at] is Value,
        events[at]->Value_0 & Mask::ENGINE_BUSY@ == 0,
        load_machine(program, verify, max_polls).reply(events.take(at + 1)) == (Action::<
            E,
        >::Sleep { millis: SETTLE_INTERVAL_MS }),
        events[at + 1] == Event::<E>::Slept,
{
    let start = load_machine(program, verify, max_polls);
    lemma_memory_write_position(program, verify, max_polls, events);
    lemma_load_steps(program);
    // The pause is the fourth step, and the wait for the busy bit the
    // third: the event that completed the wait is the one that the pause
    // was asked for in answer to.
    let at = lemma_sleep_done_at_once(start, events, 3);
    lemma_after(start, events.take(at));
    at
}

/// A load that is cancelled disables the engines before it ends. Whatever
/// went before: if a load is under way and was not cancelled yet, then the
/// action that answers a cancellation is the write of the disabled mode;
/// and when that write has gone through, or, where writes are read back, was
/// read back as written, the load ends as cancelled.
pub proof fn lemma_cancelled_load_disables<E>(
    program: Seq<Instruction>,
    verify: bool,
    max_polls: nat,
    events: Seq<Event<E>>,
)
    requires
        load_machine(program, verify, max_polls).after(events).active(),
        !load_machine(program, verify, max_polls).after(events).cancelled,
    ensures
        ({
            let cancelled = load_machine(program, verify, max_polls).after(events).next(
                Event::<E>::Cancel,
            );
            let disabled = engine_modes(
                EngineMode::Disabled,
                EngineMode::Disabled,
                EngineMode::Disabled,
            );
            &&& cancelled.1 == (Action::<E>::Write {
                address: Register::ENGINE_CNTRL_2.spec_address(),
                value: disabled,
            })
            &&& !verify ==> cancelled.0.next(Event::<E>::Written).1 == Action::<E>::Fail(
                crate::error::Error::Cancelled,
            )
            &&& verify ==> cancelled.0.next(Event::<E>::Written).0.next(
                Event::<E>::Value(disabled),
            ).1 == Action::<E>::Fail(crate::error::Error::Cancelled)
        }),
{
    lemma_load_steps(program);
    lemma_after(load_machine(program, verify, max_polls), events);
}

/// The steps that write a program, one by one: every 33 steps a page is
/// selected, and the steps between write the bytes of that page at rising
/// addresses.
pub proof fn lemma_program_step_at(program: Seq<Instruction>, at: int)
    requires
        0 <= at < program_steps(program).len(),
    ensures
        program_steps(program).len() == page_count(program.len()) + 2 * program.len(),
        at / 33 < page_count(program.len()),
        at % 33 < 1 + 2 * program_page(program, (at / 33) as nat).len(),
        at % 33 == 0 ==> program_steps(program)[at] == (Step::Write {
            address: Register::PROG_MEM_PAGE_SEL.spec_address(),
            value: (at / 33) as u8,
        }),
        at % 33 != 0 ==> program_steps(program)[at] == (Step::Write {
            address: (PROG_MEM_BASE + at % 33 - 1) as u8,
            value: instruction_bytes(program_page(program, (at / 33) as nat))[at % 33 - 1],
        }),
{
    let count = page_count(program.len());
    lemma_pages_steps_len(program, count);
    lemma_pages_step(program, count, (at / 33) as nat, at % 33);
}

} // verus!
