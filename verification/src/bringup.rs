//! The order in which the machine is brought up.
//!
//! Four things become true exactly once, one after the other: descriptor
//! tables installed, interrupt vector table installed, interrupt controller
//! initialised and remapped, interrupt delivery enabled at the CPU. The
//! caller performs the steps; [`BringUp`] keeps the record and refuses a step
//! that comes out of turn, so that interrupts are never enabled early.

use vstd::prelude::*;

verus! {

/// One step of bring-up.
#[derive(Clone, Copy, Debug, PartialEq, Eq, Structural)]
pub enum Step {
    /// Load the kernel's own descriptor tables.
    DescriptorTables,
    /// Load the interrupt vector table.
    InterruptTable,
    /// Initialise the interrupt controller and move it off the vectors that
    /// the CPU reserves for exceptions.
    InterruptController,
    /// Unmask interrupt delivery at the CPU.
    EnableInterrupts,
}

/// The steps of bring-up in the order in which they must happen.
pub open spec fn sequence() -> Seq<Step> {
    seq![
        Step::DescriptorTables,
        Step::InterruptTable,
        Step::InterruptController,
        Step::EnableInterrupts,
    ]
}

/// The step that is due after `done`, if `done` is a proper beginning of the
/// sequence.
pub open spec fn due(done: Seq<Step>) -> Option<Step> {
    if done.len() < sequence().len() && done == sequence().take(done.len() as int) {
        Some(sequence()[done.len() as int])
    } else {
        None
    }
}

/// A step was attempted out of turn; nothing was recorded.
#[derive(Clone, Copy, Debug, PartialEq, Eq, Structural)]
pub struct OutOfTurn {
    /// The step that was attempted.
    pub attempted: Step,
    /// The step that was due, if bring-up was not yet complete.
    pub due: Option<Step>,
}

/// How far bring-up has come.
#[derive(Clone, Copy, Debug, PartialEq, Eq, Structural)]
pub enum BringUp {
    /// Control has just arrived from the bootloader.
    Reset,
    /// The descriptor tables are installed.
    TablesInstalled,
    /// The interrupt vector table is installed as well.
    VectorsInstalled,
    /// The interrupt controller is initialised as well.
    ControllerReady,
    /// Interrupts are delivered: bring-up is complete.
    InterruptsEnabled,
}

impl View for BringUp {
    type V = Seq<Step>;

    /// The steps performed so far, in the order in which they were performed.
    open spec fn view(&self) -> Seq<Step> {
        match self {
            BringUp::Reset => Seq::empty(),
            BringUp::TablesInstalled => sequence().take(1),
            BringUp::VectorsInstalled => sequence().take(2),
            BringUp::ControllerReady => sequence().take(3),
            BringUp::InterruptsEnabled => sequence(),
        }
    }
}

impl BringUp {
    /// The state in which the bootloader hands over: nothing is done.
    pub fn new() -> (state: BringUp)
        ensures
            state@ == Seq::<Step>::empty(),
    {
        BringUp::Reset
    }

    /// The state reached from this one when `step` is attempted: the step is
    /// recorded if it is the one that is due, and otherwise nothing changes.
    pub open spec fn after(self, step: Step) -> BringUp {
        match (self, step) {
            (BringUp::Reset, Step::DescriptorTables) => BringUp::TablesInstalled,
            (BringUp::TablesInstalled, Step::InterruptTable) => BringUp::VectorsInstalled,
            (BringUp::VectorsInstalled, Step::InterruptController) => BringUp::ControllerReady,
            (BringUp::ControllerReady, Step::EnableInterrupts) => BringUp::InterruptsEnabled,
            _ => self,
        }
    }

    /// The state reached from this one by a series of attempts.
    pub open spec fn after_all(self, attempts: Seq<Step>) -> BringUp
        decreases attempts.len(),
    {
        if attempts.len() == 0 {
            self
        } else {
            self.after_all(attempts.drop_last()).after(attempts.last())
        }
    }

    /// The step that has to be performed next; `None` once bring-up is
    /// complete.
    pub fn next_step(&self) -> (step: Option<Step>)
        ensures
            step == due(self@),
            step is None <==> self@ == sequence(),
    {
        proof {
            lemma_prefixes();
        }
        match self {
            BringUp::Reset => Some(Step::DescriptorTables),
            BringUp::TablesInstalled => Some(Step::InterruptTable),
            BringUp::VectorsInstalled => Some(Step::InterruptController),
            BringUp::ControllerReady => Some(Step::EnableInterrupts),
            BringUp::InterruptsEnabled => None,
        }
    }

    /// Records that `step` has been performed.
    ///
    /// Only the step that is due is accepted. Any other, and any step at all
    /// once bring-up is complete, is refused and leaves the record as it was.
    pub fn complete(&mut self, step: Step) -> (result: Result<(), OutOfTurn>)
        ensures
            *final(self) == old(self).after(step),
            match result {
                Ok(()) => due(old(self)@) == Some(step) && final(self)@ == old(self)@.push(step),
                Err(e) => due(old(self)@) != Some(step) && *final(self) == *old(self) && e == (
                OutOfTurn { attempted: step, due: due(old(self)@) }),
            },
    {
        proof {
            lemma_prefixes();
        }
        let expected = self.next_step();
        match (*self, step) {
            (BringUp::Reset, Step::DescriptorTables) => {
                *self = BringUp::TablesInstalled;
                Ok(())
            },
            (BringUp::TablesInstalled, Step::InterruptTable) => {
                *self = BringUp::VectorsInstalled;
                Ok(())
            },
            (BringUp::VectorsInstalled, Step::InterruptController) => {
                *self = BringUp::ControllerReady;
                Ok(())
            },
            (BringUp::ControllerReady, Step::EnableInterrupts) => {
                *self = BringUp::InterruptsEnabled;
                Ok(())
            },
            _ => Err(OutOfTurn { attempted: step, due: expected }),
        }
    }

    /// Whether interrupt delivery has been enabled.
    pub fn interrupts_enabled(&self) -> (enabled: bool)
        ensures
            enabled == self@.contains(Step::EnableInterrupts),
            enabled == (self@ == sequence()),
    {
        proof {
            lemma_prefixes();
        }
        match self {
            BringUp::InterruptsEnabled => true,
            _ => false,
        }
    }
}

/// What the beginnings of the sequence hold.
proof fn lemma_prefixes()
    ensures
        sequence().len() == 4,
        sequence().take(1) == seq![Step::DescriptorTables],
        sequence().take(2) == seq![Step::DescriptorTables, Step::InterruptTable],
        sequence().take(3) == seq![
            Step::DescriptorTables,
            Step::InterruptTable,
            Step::InterruptController,
        ],
        sequence().take(0) == Seq::<Step>::empty(),
        sequence().take(4) == sequence(),
        !sequence().take(0).contains(Step::EnableInterrupts),
        !sequence().take(1).contains(Step::EnableInterrupts),
        !sequence().take(2).contains(Step::EnableInterrupts),
        !sequence().take(3).contains(Step::EnableInterrupts),
        sequence().contains(Step::EnableInterrupts),
{
    assert(sequence()[3] == Step::EnableInterrupts);
}

/// The steps of bring-up, in the order in which the caller performs them.
///
/// Bring-up happens once: performing the steps a second time is outside of
/// what this plan is for.
pub fn init() -> (plan: Vec<Step>)
    ensures
        plan@ == sequence(),
        BringUp::Reset.after_all(plan@)@ == sequence(),
{
    let mut state = BringUp::new();
    let mut plan: Vec<Step> = Vec::new();
    proof {
        lemma_prefixes();
    }
    loop
        invariant
            plan@ == state@,
            BringUp::Reset.after_all(plan@) == state,
        ensures
            plan@ == sequence(),
            state@ == sequence(),
            BringUp::Reset.after_all(plan@) == state,
        decreases sequence().len() - state@.len(),
    {
        proof {
            lemma_prefixes();
        }
        match state.next_step() {
            Some(step) => {
                let ghost before = plan@;
                let accepted = state.complete(step);
                assert(accepted is Ok);
                plan.push(step);
                assert(plan@.drop_last() == before);
            },
            None => {
                break ;
            },
        }
    }
    plan
}

/// Whatever steps are attempted, and in whatever order, the steps that take
/// effect form a beginning of the sequence: each step happens at most once
/// and only after all that precede it. Interrupt delivery is enabled only
/// when the descriptor tables, the interrupt table and the interrupt
/// controller have been set up, in this order.
pub proof fn order_is_fixed(attempts: Seq<Step>)
    ensures
        ({
            let done = BringUp::Reset.after_all(attempts)@;
            &&& done.len() <= sequence().len()
            &&& done == sequence().take(done.len() as int)
            &&& done.contains(Step::EnableInterrupts) ==> done == sequence()
            &&& done.contains(Step::EnableInterrupts) ==> done.take(3) == seq![
                Step::DescriptorTables,
                Step::InterruptTable,
                Step::InterruptController,
            ]
        }),
    decreases attempts.len(),
{
    lemma_prefixes();
    if attempts.len() > 0 {
        order_is_fixed(attempts.drop_last());
    }
}

/// A step that takes effect is the one that was due, and it extends the
/// record by itself; a step out of turn changes nothing. Once bring-up is
/// complete no further step takes effect.
pub proof fn only_the_due_step_takes_effect(state: BringUp, step: Step)
    ensures
        due(state@) == Some(step) ==> state.after(step)@ == state@.push(step),
        due(state@) != Some(step) ==> state.after(step) == state,
        state@ == sequence() ==> state.after(step) == state,
{
    lemma_prefixes();
}

} // verus!
