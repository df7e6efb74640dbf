//! Transactions: the exchanges with the chip that make up one operation.
//!
//! A transaction is a list of steps and a place in it. It performs nothing
//! itself. The host hands it an event, what the bus answered last, and gets
//! back an action, what to do on the bus next, until the action says that the
//! transaction is over. All that is decided on the way is decided here: what
//! is written after what was read, how long a busy chip is waited for, and
//! when a write counts as failed.

use vstd::prelude::*;
use crate::error::Error;

verus! {

/// One step of a transaction.
#[derive(Clone, Copy, Debug, PartialEq, Eq, Structural)]
pub enum Step {
    /// Write `value` to the register at `address`.
    Write { address: u8, value: u8 },
    /// Read the register at `address` and keep what it holds.
    Read { address: u8 },
    /// Read the register at `address`, replace the bits under `mask` by
    /// `bits`, and write the result back: in any case if `always` is set,
    /// else only if it differs from what was read.
    Update { address: u8, mask: u8, bits: u8, always: bool },
    /// Read the register at `address` until no bit under `mask` is set,
    /// pausing for `interval` milliseconds between two reads.
    AwaitClear { address: u8, mask: u8, interval: u64 },
    /// Let `millis` milliseconds pass.
    Sleep { millis: u64 },
}

impl Step {
    /// The register that the step reads or writes; 0 for a step that does
    /// neither.
    pub open spec fn spec_address(self) -> u8 {
        match self {
            Step::Write { address, .. } => address,
            Step::Read { address } => address,
            Step::Update { address, .. } => address,
            Step::AwaitClear { address, .. } => address,
            Step::Sleep { .. } => 0,
        }
    }

    /// The register that the step reads or writes; 0 for a step that does
    /// neither.
    #[verifier::when_used_as_spec(spec_address)]
    pub fn address(self) -> (r: u8)
        ensures
            r == self.spec_address(),
    {
        match self {
            Step::Write { address, .. } => address,
            Step::Read { address } => address,
            Step::Update { address, .. } => address,
            Step::AwaitClear { address, .. } => address,
            Step::Sleep { .. } => 0,
        }
    }
}

/// What a transaction asks the host to do next.
#[derive(Debug, PartialEq, Eq)]
pub enum Action<E> {
    /// Read the register at `address` and answer with `Event::Value`.
    Read { address: u8 },
    /// Write `value` to the register at `address` and answer with
    /// `Event::Written`.
    Write { address: u8, value: u8 },
    /// Let `millis` milliseconds pass and answer with `Event::Slept`.
    Sleep { millis: u64 },
    /// Nothing: the transaction is over and has done all its steps.
    Done,
    /// Nothing: the transaction is over and has failed.
    Fail(Error<E>),
}

/// What the host reports to a transaction.
#[derive(Debug, PartialEq, Eq)]
pub enum Event<E> {
    /// The transaction may start.
    Begin,
    /// The read that was asked for returned this byte.
    Value(u8),
    /// The write that was asked for went through.
    Written,
    /// The time that was asked for has passed.
    Slept,
    /// The bus failed to do what was asked for.
    Failed(E),
    /// What was asked for was not done, and the transaction is to end as
    /// soon as it can.
    Cancel,
}

/// What a transaction is waiting for.
#[derive(Clone, Copy, Debug, PartialEq, Eq, Structural)]
pub enum Stage {
    /// For the host to begin.
    Idle,
    /// For the byte of a read that the current step asked for.
    Reading,
    /// For a write of the current step to go through.
    Writing,
    /// For the byte read back after a write.
    Checking,
    /// For the pause between two reads of a busy register to pass.
    Pausing,
    /// For the time of a sleep step to pass.
    Sleeping,
    /// For nothing: the transaction is over.
    Closed,
}

/// A transaction as a mathematical value: its steps and how far it has come.
pub struct Machine {
    /// The steps, in the order in which they are done.
    pub steps: Seq<Step>,
    /// Whether every write is read back and compared.
    pub verify: bool,
    /// How many busy answers in a row end the transaction.
    pub max_polls: nat,
    /// Number of steps that are done; the current step is the one at this
    /// position.
    pub position: nat,
    /// What the transaction is waiting for.
    pub stage: Stage,
    /// Number of busy answers that the current step has had.
    pub polls: nat,
    /// The byte of the write in flight.
    pub written: u8,
    /// The bytes that the `Read` steps done so far have read, in order.
    pub data: Seq<u8>,
    /// Number of steps at the end that are done even when the transaction is
    /// cancelled.
    pub closing: nat,
    /// Whether the transaction was cancelled.
    pub cancelled: bool,
}

impl Machine {
    /// A transaction that has not begun.
    pub open spec fn fresh(
        steps: Seq<Step>,
        verify: bool,
        max_polls: nat,
        closing: nat,
    ) -> Machine {
        Machine {
            steps,
            verify,
            max_polls,
            position: 0,
            stage: Stage::Idle,
            polls: 0,
            written: 0,
            data: Seq::empty(),
            closing,
            cancelled: false,
        }
    }

    /// Position of the first of the closing steps.
    pub open spec fn tail(self) -> nat {
        if self.closing <= self.steps.len() {
            (self.steps.len() - self.closing) as nat
        } else {
            0
        }
    }

    /// The step that the transaction is at.
    pub open spec fn current(self) -> Step {
        self.steps[self.position as int]
    }

    /// Whether a step is under way.
    pub open spec fn active(self) -> bool {
        self.stage != Stage::Idle && self.stage != Stage::Closed
    }

    /// Takes the step at `position` up: asks for its first action, or ends
    /// the transaction if no step is left, with success unless it was
    /// cancelled.
    pub open spec fn start<E>(self) -> (Machine, Action<E>) {
        if self.position >= self.steps.len() {
            (
                Machine { stage: Stage::Closed, ..self },
                if self.cancelled {
                    Action::Fail(Error::Cancelled)
                } else {
                    Action::Done
                },
            )
        } else {
            match self.current() {
                Step::Write { address, value } => (
                    Machine { stage: Stage::Writing, written: value, ..self },
                    Action::Write { address, value },
                ),
                Step::Read { address } => (
                    Machine { stage: Stage::Reading, ..self },
                    Action::Read { address },
                ),
                Step::Update { address, .. } => (
                    Machine { stage: Stage::Reading, ..self },
                    Action::Read { address },
                ),
                Step::AwaitClear { address, .. } => (
                    Machine { stage: Stage::Reading, polls: 0, ..self },
                    Action::Read { address },
                ),
                Step::Sleep { millis } => (
                    Machine { stage: Stage::Sleeping, ..self },
                    Action::Sleep { millis },
                ),
            }
        }
    }

    /// Counts the current step as done and takes the next one up.
    pub open spec fn advance<E>(self) -> (Machine, Action<E>) {
        Machine { position: self.position + 1, ..self }.start()
    }

    /// Ends the transaction with `error`.
    pub open spec fn fail<E>(self, error: Error<E>) -> (Machine, Action<E>) {
        (Machine { stage: Stage::Closed, ..self }, Action::Fail(error))
    }

    /// What follows when the read of the current step returns `value`.
    pub open spec fn receive<E>(self, value: u8) -> (Machine, Action<E>) {
        match self.current() {
            Step::Read { .. } => Machine { data: self.data.push(value), ..self }.advance(),
            Step::Update { address, mask, bits, always } => {
                let updated = (value & !mask) | bits;
                if always || updated != value {
                    (
                        Machine { stage: Stage::Writing, written: updated, ..self },
                        Action::Write { address, value: updated },
                    )
                } else {
                    self.advance()
                }
            },
            Step::AwaitClear { mask, interval, .. } => {
                if value & mask == 0 {
                    self.advance()
                } else if self.polls + 1 >= self.max_polls {
                    self.fail(Error::BusyTimeout)
                } else {
                    (
                        Machine { stage: Stage::Pausing, polls: self.polls + 1, ..self },
                        Action::Sleep { millis: interval },
                    )
                }
            },
            _ => self.fail(Error::Protocol),
        }
    }

    /// What follows when the transaction is cancelled. Before it began it
    /// just ends. While it runs it leaves out what is left of its steps but
    /// for the closing ones, does those, and then ends as cancelled; a
    /// closing step that was under way is taken up again. Cancelled a second
    /// time it ends at once.
    pub open spec fn cancel<E>(self) -> (Machine, Action<E>) {
        if self.stage == Stage::Closed {
            self.fail(Error::Protocol)
        } else if self.stage == Stage::Idle || self.cancelled {
            Machine { cancelled: true, ..self }.fail(Error::Cancelled)
        } else {
            Machine {
                cancelled: true,
                position: if self.position < self.tail() {
                    self.tail()
                } else {
                    self.position
                },
                ..self
            }.start()
        }
    }

    /// The transition of a transaction: the state after `event` and the
    /// action that answers it.
    ///
    /// A failure of the bus ends the transaction at once, with the failure as
    /// it came. An event that does not answer the action in flight, or any
    /// event after the end, ends it with `Error::Protocol`. A cancellation
    /// is taken as `cancel` says.
    pub open spec fn next<E>(self, event: Event<E>) -> (Machine, Action<E>) {
        if event is Cancel {
            self.cancel()
        } else {
            self.react(event)
        }
    }

    /// The transition on an event other than a cancellation.
    pub open spec fn react<E>(self, event: Event<E>) -> (Machine, Action<E>) {
        match self.stage {
            Stage::Idle => match event {
                Event::Begin => self.start(),
                _ => self.fail(Error::Protocol),
            },
            Stage::Closed => self.fail(Error::Protocol),
            Stage::Writing => match event {
                Event::Written => if self.verify {
                    (
                        Machine { stage: Stage::Checking, ..self },
                        Action::Read { address: self.current().spec_address() },
                    )
                } else {
                    self.advance()
                },
                Event::Failed(e) => self.fail(Error::Transport(e)),
                _ => self.fail(Error::Protocol),
            },
            Stage::Checking => match event {
                Event::Value(observed) => if observed == self.written {
                    self.advance()
                } else {
                    self.fail(
                        Error::Verification {
                            address: self.current().spec_address(),
                            expected: self.written,
                            observed,
                        },
                    )
                },
                Event::Failed(e) => self.fail(Error::Transport(e)),
                _ => self.fail(Error::Protocol),
            },
            Stage::Reading => match event {
                Event::Value(value) => self.receive(value),
                Event::Failed(e) => self.fail(Error::Transport(e)),
                _ => self.fail(Error::Protocol),
            },
            Stage::Pausing => match event {
                Event::Slept => (
                    Machine { stage: Stage::Reading, ..self },
                    Action::Read { address: self.current().spec_address() },
                ),
                Event::Failed(e) => self.fail(Error::Transport(e)),
                _ => self.fail(Error::Protocol),
            },
            Stage::Sleeping => match event {
                Event::Slept => self.advance(),
                Event::Failed(e) => self.fail(Error::Transport(e)),
                _ => self.fail(Error::Protocol),
            },
        }
    }
}

impl Machine {
    /// The state after a run of events, the first taken in first.
    pub open spec fn after<E>(self, events: Seq<Event<E>>) -> Machine
        decreases events.len(),
    {
        if events.len() == 0 {
            self
        } else {
            self.after(events.drop_last()).next(events.last()).0
        }
    }

    /// The action that answers the last of a run of events.
    pub open spec fn reply<E>(self, events: Seq<Event<E>>) -> Action<E>
        recommends
            events.len() > 0,
    {
        self.after(events.drop_last()).next(events.last()).1
    }

    /// The action that the transaction is waiting to hear of.
    pub open spec fn in_flight<E>(self) -> Action<E>
        recommends
            self.active(),
    {
        match self.stage {
            Stage::Writing => Action::Write {
                address: self.current().spec_address(),
                value: self.written,
            },
            Stage::Pausing => match self.current() {
                Step::AwaitClear { interval, .. } => Action::Sleep { millis: interval },
                _ => Action::Done,
            },
            Stage::Sleeping => match self.current() {
                Step::Sleep { millis } => Action::Sleep { millis },
                _ => Action::Done,
            },
            _ => Action::Read { address: self.current().spec_address() },
        }
    }

    /// What holds of every transaction that began fresh: it has not done
    /// more steps than it has, and what it waits for is something that its
    /// current step asks for.
    pub open spec fn consistent(self) -> bool {
        &&& self.position <= self.steps.len()
        &&& self.cancelled ==> self.stage != Stage::Idle && (self.active() ==> self.position
            >= self.tail())
        &&& self.stage == Stage::Idle ==> self.position == 0
        &&& self.stage == Stage::Checking ==> self.verify
        &&& self.active() ==> self.position < self.steps.len() && match self.current() {
            Step::Write { value, .. } => (self.stage == Stage::Writing || self.stage
                == Stage::Checking) && self.written == value,
            Step::Read { .. } => self.stage == Stage::Reading,
            Step::Update { .. } => self.stage == Stage::Reading || self.stage == Stage::Writing
                || self.stage == Stage::Checking,
            Step::AwaitClear { .. } => self.stage == Stage::Reading || self.stage
                == Stage::Pausing,
            Step::Sleep { .. } => self.stage == Stage::Sleeping,
        }
    }

    /// Whether `event` is what brings the current step to its end.
    pub open spec fn completes<E>(self, event: Event<E>) -> bool {
        match self.current() {
            Step::Write { .. } => if self.verify {
                self.stage == Stage::Checking && event == Event::<E>::Value(self.written)
            } else {
                self.stage == Stage::Writing && event == Event::<E>::Written
            },
            Step::Read { .. } => self.stage == Stage::Reading && event is Value,
            Step::Update { mask, bits, always, .. } => {
                ||| self.stage == Stage::Reading && !always && event is Value && (event->Value_0
                    & !mask) | bits == event->Value_0
                ||| self.verify && self.stage == Stage::Checking && event == Event::<E>::Value(
                    self.written,
                )
                ||| !self.verify && self.stage == Stage::Writing && event == Event::<E>::Written
            },
            Step::AwaitClear { mask, .. } => self.stage == Stage::Reading && event is Value
                && event->Value_0 & mask == 0,
            Step::Sleep { .. } => self.stage == Stage::Sleeping && event == Event::<E>::Slept,
        }
    }
}

/// One event moves a transaction by at most one step, unless it cancels it,
/// and changes nothing of what it was made with. A step is left behind only
/// by the event that completes it or by a cancellation. While the
/// transaction goes on, the action returned is the one it then waits to hear
/// of; when it ends, the action says so, and says success only if all steps
/// are done and it was not cancelled; and once ended it stays where it is.
pub proof fn lemma_next<E>(machine: Machine, event: Event<E>)
    requires
        machine.consistent(),
    ensures
        machine.next(event).0.consistent(),
        machine.next(event).0.steps == machine.steps,
        machine.next(event).0.verify == machine.verify,
        machine.next(event).0.max_polls == machine.max_polls,
        machine.next(event).0.closing == machine.closing,
        machine.next(event).0.position >= machine.position,
        machine.cancelled ==> machine.next(event).0.cancelled,
        !machine.next(event).0.cancelled ==> machine.next(event).0.position == machine.position
            || machine.next(event).0.position == machine.position + 1,
        !machine.next(event).0.cancelled && machine.next(event).0.position == machine.position
            + 1 ==> machine.active() && machine.completes(event),
        machine.active() && machine.completes(event) ==> machine.next(event)
            == machine.advance::<E>() || (machine.current() is Read && machine.next(event)
            == (Machine { data: machine.data.push(event->Value_0), ..machine }).advance::<E>()),
        machine.next(event).0.active() ==> machine.next(event).1 == machine.next(
            event,
        ).0.in_flight::<E>(),
        !machine.next(event).0.active() ==> machine.next(event).0.stage == Stage::Closed && (
        machine.next(event).1 is Done || machine.next(event).1 is Fail),
        machine.next(event).1 is Done ==> machine.next(event).0.position == machine.steps.len()
            && !machine.next(event).0.cancelled,
        machine.stage == Stage::Closed ==> machine.next(event).0 == machine && machine.next(
            event,
        ).1 == Action::<E>::Fail(Error::Protocol),
        event is Failed && machine.active() ==> machine.next(event).0.stage == Stage::Closed
            && machine.next(event).1 == Action::<E>::Fail(Error::Transport(event->Failed_0)),
{
}

/// The state after one more event comes from the state before by the
/// transition, and so does the action that answers the event.
pub proof fn lemma_after_take<E>(machine: Machine, events: Seq<Event<E>>, count: int)
    requires
        0 <= count < events.len(),
    ensures
        machine.after(events.take(count + 1)) == machine.after(events.take(count)).next(
            events[count],
        ).0,
        machine.reply(events.take(count + 1)) == machine.after(events.take(count)).next(
            events[count],
        ).1,
        machine.after(events.take(events.len() as int)) == machine.after(events),
{
    assert(events.take(count + 1).drop_last() == events.take(count));
    assert(events.take(events.len() as int) == events);
}

/// Whatever the events, a transaction keeps what it was made with, stays
/// consistent, never goes back a step, and once ended stays as it is.
pub proof fn lemma_after<E>(machine: Machine, events: Seq<Event<E>>)
    requires
        machine.consistent(),
    ensures
        machine.after(events).consistent(),
        machine.after(events).steps == machine.steps,
        machine.after(events).verify == machine.verify,
        machine.after(events).max_polls == machine.max_polls,
        machine.after(events).closing == machine.closing,
        machine.position <= machine.after(events).position,
        machine.cancelled ==> machine.after(events).cancelled,
        machine.stage == Stage::Closed ==> machine.after(events) == machine,
    decreases events.len(),
{
    if events.len() > 0 {
        lemma_after(machine, events.drop_last());
        lemma_next(machine.after(events.drop_last()), events.last());
    }
}

/// A transaction is at least as far after all events as after the first
/// `count` of them.
pub proof fn lemma_position_grows<E>(machine: Machine, events: Seq<Event<E>>, count: int)
    requires
        machine.consistent(),
        0 <= count <= events.len(),
    ensures
        machine.after(events.take(count)).position <= machine.after(events).position,
        machine.after(events.take(count)).cancelled ==> machine.after(events).cancelled,
        machine.after(events.take(count)).stage == Stage::Closed ==> machine.after(events)
            == machine.after(events.take(count)),
    decreases events.len(),
{
    if count == events.len() {
        assert(events.take(count) == events);
    } else {
        assert(events.drop_last().take(count) == events.take(count));
        lemma_position_grows(machine, events.drop_last(), count);
        lemma_after(machine, events.drop_last());
        lemma_next(machine.after(events.drop_last()), events.last());
    }
}

/// Every step that a transaction has behind it, unless it was cancelled, was
/// completed by one of the events: before that event the transaction was at
/// the step and waiting, the event was what completes the step, and after it
/// the transaction was one step on.
pub proof fn lemma_step_done<E>(machine: Machine, events: Seq<Event<E>>, step: nat) -> (at: int)
    requires
        machine.consistent(),
        !machine.after(events).cancelled,
        machine.position <= step < machine.after(events).position,
    ensures
        0 <= at < events.len(),
        machine.after(events.take(at)).position == step,
        machine.after(events.take(at)).active(),
        machine.after(events.take(at)).completes(events[at]),
        machine.after(events.take(at + 1)).position == step + 1,
    decreases events.len(),
{
    let before = machine.after(events.drop_last());
    lemma_after(machine, events.drop_last());
    lemma_next(before, events.last());
    if step < before.position {
        let at = lemma_step_done(machine, events.drop_last(), step);
        assert(events.drop_last().take(at) == events.take(at));
        assert(events.drop_last().take(at + 1) == events.take(at + 1));
        at
    } else {
        let at = events.len() - 1;
        assert(events.take(at) == events.drop_last());
        assert(events.take(at + 1) == events);
        at
    }
}

/// The action with which a step begins.
pub open spec fn first_action<E>(step: Step) -> Action<E> {
    match step {
        Step::Write { address, value } => Action::Write { address, value },
        Step::Read { address } => Action::Read { address },
        Step::Update { address, .. } => Action::Read { address },
        Step::AwaitClear { address, .. } => Action::Read { address },
        Step::Sleep { millis } => Action::Sleep { millis },
    }
}

/// Number of `Read` steps among the first `count` steps.
pub open spec fn reads_among(steps: Seq<Step>, count: nat) -> nat
    decreases count,
{
    if count == 0 {
        0
    } else {
        reads_among(steps, (count - 1) as nat) + if steps[count - 1] is Read {
            1nat
        } else {
            0nat
        }
    }
}

/// Every step that a transaction has behind it, unless it was cancelled, was
/// asked for and completed, in this order and after the steps before it:
/// the action that answered the event at `asked` was the first action of the
/// step, and the event at `done` completed it. The event at `asked` began
/// the transaction, if the step is the first, and else completed the step
/// before.
pub proof fn lemma_step_asked_and_done<E>(
    machine: Machine,
    events: Seq<Event<E>>,
    step: nat,
) -> (r: (int, int))
    requires
        machine.consistent(),
        machine.stage == Stage::Idle,
        !machine.after(events).cancelled,
        step < machine.after(events).position,
    ensures
        0 <= r.0 < r.1 < events.len(),
        machine.reply(events.take(r.0 + 1)) == first_action::<E>(machine.steps[step as int]),
        machine.after(events.take(r.0 + 1)).position == step,
        machine.after(events.take(r.0 + 1)).active(),
        step == 0 ==> r.0 == 0 && events[0] == Event::<E>::Begin,
        step > 0 ==> machine.after(events.take(r.0)).position == step - 1 && machine.after(
            events.take(r.0),
        ).completes(events[r.0]),
        machine.after(events.take(r.1)).position == step,
        machine.after(events.take(r.1)).completes(events[r.1]),
        machine.after(events.take(r.1 + 1)).position == step + 1,
{
    let done = lemma_step_done(machine, events, step);
    lemma_after(machine, events);
    lemma_after(machine, events.take(done));
    lemma_position_grows(machine, events, done);
    assert(events.take(0).len() == 0);
    assert(done > 0);
    if step == 0 {
        lemma_after_take(machine, events, 0);
        lemma_next(machine, events[0]);
        assert(events.take(done).take(1) == events.take(1));
        lemma_position_grows(machine, events.take(done), 1);
        (0, done)
    } else {
        let asked = lemma_step_done(machine, events, (step - 1) as nat);
        lemma_after(machine, events.take(asked));
        lemma_after_take(machine, events, asked);
        lemma_next(machine.after(events.take(asked)), events[asked]);
        if done <= asked {
            assert(events.take(asked).take(done) == events.take(done));
            lemma_position_grows(machine, events.take(asked), done);
        }
        (asked, done)
    }
}

/// A sleep that a transaction has behind it, unless it was cancelled, was
/// over with the event after the one that it was asked for in answer to:
/// that event was the news that the time had passed.
pub proof fn lemma_sleep_done_at_once<E>(
    machine: Machine,
    events: Seq<Event<E>>,
    step: nat,
) -> (asked: int)
    requires
        machine.consistent(),
        machine.stage == Stage::Idle,
        !machine.after(events).cancelled,
        step < machine.after(events).position,
        machine.steps[step as int] is Sleep,
    ensures
        0 <= asked,
        asked + 1 < events.len(),
        machine.reply(events.take(asked + 1)) == first_action::<E>(machine.steps[step as int]),
        step == 0 ==> asked == 0 && events[0] == Event::<E>::Begin,
        step > 0 ==> machine.after(events.take(asked)).position == step - 1 && machine.after(
            events.take(asked),
        ).completes(events[asked]),
        events[asked + 1] == Event::<E>::Slept,
        machine.after(events.take(asked + 2)).position == step + 1,
{
    let (asked, done) = lemma_step_asked_and_done(machine, events, step);
    let sleeping = machine.after(events.take(asked + 1));
    lemma_after(machine, events);
    lemma_after(machine, events.take(asked + 1));
    lemma_after(machine, events.take(done));
    lemma_position_grows(machine, events, done);
    assert(sleeping.stage == Stage::Sleeping);
    if done > asked + 1 {
        // Whatever came at once after the sleep was asked for either ended
        // the sleep or the transaction.
        lemma_after_take(machine, events, asked + 1);
        lemma_next(sleeping, events[asked + 1]);
        assert(events.take(done).take(asked + 2) == events.take(asked + 2));
        lemma_position_grows(machine, events.take(done), asked + 2);
    }
    assert(done == asked + 1);
    asked
}

/// A failure of the bus is the end of a transaction: whatever the events
/// before and after it, every event after it is answered with a failure,
/// and nothing more is asked of the bus.
pub proof fn lemma_failure_is_final<E>(
    machine: Machine,
    events: Seq<Event<E>>,
    failed: int,
    later: int,
)
    requires
        machine.consistent(),
        0 <= failed < later < events.len(),
        events[failed] is Failed,
    ensures
        machine.after(events.take(failed + 1)).stage == Stage::Closed,
        machine.after(events.take(later)) == machine.after(events.take(failed + 1)),
        machine.reply(events.take(later + 1)) == Action::<E>::Fail(Error::Protocol),
{
    lemma_after(machine, events.take(failed));
    lemma_after_take(machine, events, failed);
    lemma_next(machine.after(events.take(failed)), events[failed]);
    assert(events.take(later).take(failed + 1) == events.take(failed + 1));
    lemma_position_grows(machine, events.take(later), failed + 1);
    lemma_after(machine, events.take(later));
    lemma_after_take(machine, events, later);
    lemma_next(machine.after(events.take(later)), events[later]);
}

/// A transaction that ends with success has done all its steps and was not
/// cancelled.
pub proof fn lemma_done<E>(machine: Machine, events: Seq<Event<E>>)
    requires
        machine.consistent(),
        events.len() > 0,
        machine.reply(events) is Done,
    ensures
        machine.after(events).position == machine.steps.len(),
        machine.after(events).stage == Stage::Closed,
        !machine.after(events).cancelled,
{
    lemma_after(machine, events.drop_last());
    lemma_next(machine.after(events.drop_last()), events.last());
}

/// A transaction that was not cancelled has read one byte for each `Read`
/// step that it has behind it.
pub proof fn lemma_data_len<E>(machine: Machine, events: Seq<Event<E>>)
    requires
        machine.consistent(),
        machine.data.len() == reads_among(machine.steps, machine.position),
        !machine.after(events).cancelled,
    ensures
        machine.after(events).data.len() == reads_among(
            machine.steps,
            machine.after(events).position,
        ),
    decreases events.len(),
{
    if events.len() > 0 {
        let before = machine.after(events.drop_last());
        lemma_after(machine, events.drop_last());
        lemma_next(before, events.last());
        lemma_data_len(machine, events.drop_last());
    }
}

/// The place of a transaction in its steps.
#[derive(Debug)]
struct Cursor {
    steps: Vec<Step>,
    verify: bool,
    max_polls: u32,
    position: usize,
    stage: Stage,
    polls: u32,
    written: u8,
    closing: usize,
    cancelled: bool,
}

impl Cursor {
    #[verifier::type_invariant]
    spec fn well_formed(self) -> bool {
        self.with_data(Seq::empty()).consistent()
    }

    /// The transaction that is at this place and has read `data`.
    spec fn with_data(self, data: Seq<u8>) -> Machine {
        Machine {
            steps: self.steps@,
            verify: self.verify,
            max_polls: self.max_polls as nat,
            position: self.position as nat,
            stage: self.stage,
            polls: self.polls as nat,
            written: self.written,
            data,
            closing: self.closing as nat,
            cancelled: self.cancelled,
        }
    }

    fn start<E>(&mut self, Ghost(data): Ghost<Seq<u8>>) -> (action: Action<E>)
        requires
            old(self).cancelled ==> old(self).position >= old(self).with_data(data).tail(),
        ensures
            (final(self).with_data(data), action) == old(self).with_data(data).start::<E>(),
    {
        proof {
            use_type_invariant(&*self);
        }
        self.stage = Stage::Closed;
        if self.position >= self.steps.len() {
            if self.cancelled {
                return Action::Fail(Error::Cancelled);
            }
            return Action::Done;
        }
        match self.steps[self.position] {
            Step::Write { address, value } => {
                self.written = value;
                self.stage = Stage::Writing;
                Action::Write { address, value }
            },
            Step::Read { address } => {
                self.stage = Stage::Reading;
                Action::Read { address }
            },
            Step::Update { address, .. } => {
                self.stage = Stage::Reading;
                Action::Read { address }
            },
            Step::AwaitClear { address, .. } => {
                self.polls = 0;
                self.stage = Stage::Reading;
                Action::Read { address }
            },
            Step::Sleep { millis } => {
                self.stage = Stage::Sleeping;
                Action::Sleep { millis }
            },
        }
    }

    fn advance<E>(&mut self, Ghost(data): Ghost<Seq<u8>>) -> (action: Action<E>)
        requires
            old(self).with_data(data).active(),
        ensures
            (final(self).with_data(data), action) == old(self).with_data(data).advance::<E>(),
    {
        proof {
            use_type_invariant(&*self);
            assert(self.position < self.steps.len());
        }
        self.stage = Stage::Closed;
        self.position = self.position + 1;
        self.start(Ghost(data))
    }

    fn fail<E>(&mut self, error: Error<E>, Ghost(data): Ghost<Seq<u8>>) -> (action: Action<E>)
        ensures
            (final(self).with_data(data), action) == old(self).with_data(data).fail(error),
    {
        proof {
            use_type_invariant(&*self);
        }
        self.stage = Stage::Closed;
        Action::Fail(error)
    }

    /// Whether the current step keeps what it reads.
    fn collects(&self) -> (r: bool)
        requires
            self.stage == Stage::Reading,
        ensures
            r == (self.steps@[self.position as int] is Read),
    {
        proof {
            use_type_invariant(self);
        }
        match self.steps[self.position] {
            Step::Read { .. } => true,
            _ => false,
        }
    }

    fn receive<E>(&mut self, value: u8, Ghost(data): Ghost<Seq<u8>>) -> (action: Action<E>)
        requires
            old(self).stage == Stage::Reading,
        ensures
            (final(self).with_data(data), action) == (if old(self).steps@[old(
                self,
            ).position as int] is Read {
                old(self).with_data(data).advance::<E>()
            } else {
                old(self).with_data(data).receive::<E>(value)
            }),
    {
        proof {
            use_type_invariant(&*self);
        }
        match self.steps[self.position] {
            Step::Read { .. } => self.advance(Ghost(data)),
            Step::Update { address, mask, bits, always } => {
                let updated = (value & !mask) | bits;
                if always || updated != value {
                    self.written = updated;
                    self.stage = Stage::Writing;
                    Action::Write { address, value: updated }
                } else {
                    self.advance(Ghost(data))
                }
            },
            Step::AwaitClear { mask, interval, .. } => {
                if value & mask == 0 {
                    self.advance(Ghost(data))
                } else if self.max_polls == 0 || self.polls >= self.max_polls - 1 {
                    self.fail(Error::BusyTimeout, Ghost(data))
                } else {
                    self.polls = self.polls + 1;
                    self.stage = Stage::Pausing;
                    Action::Sleep { millis: interval }
                }
            },
            _ => self.fail(Error::Protocol, Ghost(data)),
        }
    }

    fn cancel<E>(&mut self, Ghost(data): Ghost<Seq<u8>>) -> (action: Action<E>)
        ensures
            (final(self).with_data(data), action) == old(self).with_data(data).cancel::<E>(),
    {
        proof {
            use_type_invariant(&*self);
        }
        if self.stage == Stage::Closed {
            return self.fail(Error::Protocol, Ghost(data));
        }
        if self.stage == Stage::Idle || self.cancelled {
            self.stage = Stage::Closed;
            self.cancelled = true;
            return Action::Fail(Error::Cancelled);
        }
        let len = self.steps.len();
        let tail = if self.closing <= len {
            len - self.closing
        } else {
            0
        };
        self.stage = Stage::Closed;
        self.cancelled = true;
        if self.position < tail {
            self.position = tail;
        }
        self.start(Ghost(data))
    }

    fn step<E>(&mut self, event: Event<E>, Ghost(data): Ghost<Seq<u8>>) -> (action: Action<E>)
        requires
            !(old(self).stage == Stage::Reading && event is Value),
        ensures
            (final(self).with_data(data), action) == old(self).with_data(data).next(event),
    {
        proof {
            use_type_invariant(&*self);
        }
        if let Event::Cancel = event {
            return self.cancel(Ghost(data));
        }
        match self.stage {
            Stage::Idle => match event {
                Event::Begin => self.start(Ghost(data)),
                _ => self.fail(Error::Protocol, Ghost(data)),
            },
            Stage::Closed => self.fail(Error::Protocol, Ghost(data)),
            Stage::Writing => match event {
                Event::Written => if self.verify {
                    let address = self.steps[self.position].address();
                    self.stage = Stage::Checking;
                    Action::Read { address }
                } else {
                    self.advance(Ghost(data))
                },
                Event::Failed(e) => self.fail(Error::Transport(e), Ghost(data)),
                _ => self.fail(Error::Protocol, Ghost(data)),
            },
            Stage::Checking => match event {
                Event::Value(observed) => if observed == self.written {
                    self.advance(Ghost(data))
                } else {
                    let address = self.steps[self.position].address();
                    let expected = self.written;
                    self.fail(Error::Verification { address, expected, observed }, Ghost(data))
                },
                Event::Failed(e) => self.fail(Error::Transport(e), Ghost(data)),
                _ => self.fail(Error::Protocol, Ghost(data)),
            },
            Stage::Reading => match event {
                Event::Failed(e) => self.fail(Error::Transport(e), Ghost(data)),
                _ => self.fail(Error::Protocol, Ghost(data)),
            },
            Stage::Pausing => match event {
                Event::Slept => {
                    let address = self.steps[self.position].address();
                    self.stage = Stage::Reading;
                    Action::Read { address }
                },
                Event::Failed(e) => self.fail(Error::Transport(e), Ghost(data)),
                _ => self.fail(Error::Protocol, Ghost(data)),
            },
            Stage::Sleeping => match event {
                Event::Slept => self.advance(Ghost(data)),
                Event::Failed(e) => self.fail(Error::Transport(e), Ghost(data)),
                _ => self.fail(Error::Protocol, Ghost(data)),
            },
        }
    }
}

/// A transaction: steps to do on the bus, how far they are done, and what
/// they have read.
#[derive(Debug)]
pub struct Transaction {
    cursor: Cursor,
    data: Vec<u8>,
}

impl View for Transaction {
    type V = Machine;

    closed spec fn view(&self) -> Machine {
        self.cursor.with_data(self.data@)
    }
}

impl Transaction {
    /// A transaction of the given steps that has not begun. With `verify`
    /// every write is read back and compared; `max_polls` busy answers in a
    /// row end the transaction; the last `closing` steps are done even when
    /// the transaction is cancelled.
    pub fn new(steps: Vec<Step>, verify: bool, max_polls: u32, closing: usize) -> (r: Transaction)
        ensures
            r@ == Machine::fresh(steps@, verify, max_polls as nat, closing as nat),
            r@.consistent(),
    {
        Transaction {
            cursor: Cursor {
                steps,
                verify,
                max_polls,
                position: 0,
                stage: Stage::Idle,
                polls: 0,
                written: 0,
                closing,
                cancelled: false,
            },
            data: Vec::new(),
        }
    }

    /// The bytes that the `Read` steps done so far have read, in order.
    pub fn data(&self) -> (r: &Vec<u8>)
        ensures
            r@ == self@.data,
    {
        &self.data
    }

    /// Number of steps that are done.
    pub fn position(&self) -> (r: usize)
        ensures
            r == self@.position,
    {
        self.cursor.position
    }

    /// Whether the transaction is over.
    pub fn is_closed(&self) -> (r: bool)
        ensures
            r == (self@.stage == Stage::Closed),
    {
        self.cursor.stage == Stage::Closed
    }

    /// Takes `event` in and says what to do next. A transaction is
    /// consistent at all times.
    pub fn step<E>(&mut self, event: Event<E>) -> (action: Action<E>)
        ensures
            (final(self)@, action) == old(self)@.next(event),
            old(self)@.consistent(),
            final(self)@.consistent(),
    {
        proof {
            use_type_invariant(&self.cursor);
            lemma_next(self@, event);
        }
        if self.cursor.stage == Stage::Reading {
            if let Event::Value(value) = event {
                if self.cursor.collects() {
                    self.data.push(value);
                }
                return self.cursor.receive(value, Ghost(self.data@));
            }
        }
        self.cursor.step(event, Ghost(self.data@))
    }
}

} // verus!
