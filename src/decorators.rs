//! The nodes that gate one child on a condition: `Decorator`,
//! `DecoratorContinue` and `InterruptAction`.
use vstd::prelude::*;

use crate::composite::Composite;
use crate::single::{single_resume, SingleState};
use crate::status::RunStatus;
use crate::step::{ChildPoll, Phase, Step};

verus! {

/// Well-formed state of a node that reads its condition before it starts its
/// child.
pub open spec fn gate_wf(s: SingleState) -> bool {
    &&& (s.phase == Phase::AwaitChild ==> s.active)
    &&& (s.phase == Phase::AwaitCondition ==> !s.active)
}

/// One resumption of a gate: asks for the condition before the child has
/// started, and polls the child after.
pub open spec fn gate_resume(s: SingleState) -> (SingleState, Step) {
    if s.active {
        (SingleState { phase: Phase::AwaitChild, ..s }, Step::PollChild)
    } else {
        (SingleState { phase: Phase::AwaitCondition, ..s }, Step::CheckCondition)
    }
}

/// A gate taking the value of its condition: a false one ends the run with
/// `refused` and the child never starts; a true one starts the child.
pub open spec fn gate_on_condition(s: SingleState, holds: bool, refused: RunStatus) -> (
    SingleState,
    Step,
) {
    if holds {
        (SingleState { active: true, phase: Phase::AwaitChild }, Step::Start(0))
    } else {
        (SingleState { phase: Phase::Finished(refused), ..s }, Step::Done(refused))
    }
}

/// A node taking the result of polling its child, and finishing with the
/// child's outcome (or with `Success` whatever it is, when `always_succeed`).
pub open spec fn relay_on_child(s: SingleState, poll: ChildPoll, always_succeed: bool) -> (
    SingleState,
    Step,
) {
    match poll {
        ChildPoll::Pending => (SingleState { phase: Phase::Idle, ..s }, Step::Wait),
        ChildPoll::Ready(status) => {
            let x = if always_succeed {
                RunStatus::Success
            } else {
                status
            };
            (SingleState { phase: Phase::Finished(x), ..s }, Step::Done(x))
        },
    }
}

/// Well-formed state of an `InterruptAction`.
pub open spec fn interrupt_wf(s: SingleState) -> bool {
    &&& (s.phase == Phase::AwaitChild ==> s.active)
    &&& (s.phase == Phase::AwaitCondition ==> s.active)
}

/// An `InterruptAction` taking the result of polling its child: a finished
/// child ends the run with its outcome; a suspended one has the condition
/// checked.
pub open spec fn interrupt_on_child(s: SingleState, poll: ChildPoll) -> (SingleState, Step) {
    match poll {
        ChildPoll::Pending => (
            SingleState { phase: Phase::AwaitCondition, ..s },
            Step::CheckCondition,
        ),
        ChildPoll::Ready(status) => (
            SingleState { phase: Phase::Finished(status), ..s },
            Step::Done(status),
        ),
    }
}

/// An `InterruptAction` taking the value of its condition while the child is
/// suspended: a false one abandons the child and fails the run; a true one
/// keeps the child and asks to be resumed again.
pub open spec fn interrupt_on_condition(s: SingleState, holds: bool) -> (SingleState, Step) {
    if holds {
        (SingleState { phase: Phase::Idle, ..s }, Step::Reschedule)
    } else {
        (
            SingleState { phase: Phase::Finished(RunStatus::Failure), ..s },
            Step::Done(RunStatus::Failure),
        )
    }
}

/// Runs its child only if its condition holds when it is first resumed, and
/// then finishes with the child's outcome. If the condition does not hold it
/// fails at once and the child never starts. The condition is read once per
/// run.
pub struct Decorator<F, P> {
    run_condition: P,
    child: Composite<F>,
    active: bool,
    phase: Phase,
}

impl<F, P> Decorator<F, P> {
    pub closed spec fn condition_fn(&self) -> P {
        self.run_condition
    }

    pub closed spec fn child_composite(&self) -> Composite<F> {
        self.child
    }

    pub closed spec fn state(&self) -> SingleState {
        SingleState { active: self.active, phase: self.phase }
    }

    /// Nothing but the progress of the run differs.
    pub open spec fn same_definition(&self, other: &Self) -> bool {
        &&& self.condition_fn() == other.condition_fn()
        &&& self.child_composite() == other.child_composite()
    }

    pub fn new(condition: P, child: Composite<F>) -> (r: Self)
        ensures
            gate_wf(r.state()),
            r.state().is_fresh(),
            r.condition_fn() == condition,
            r.child_composite() == child,
    {
        Decorator { run_condition: condition, child, active: false, phase: Phase::Idle }
    }

    pub fn condition(&self) -> (r: &P)
        ensures
            *r == self.condition_fn(),
    {
        &self.run_condition
    }

    /// The child, whose factory `Step::Start(0)` asks for.
    pub fn child(&self) -> (r: &Composite<F>)
        ensures
            *r == self.child_composite(),
    {
        &self.child
    }

    /// Begins one resumption: asks for the condition before the child has
    /// started, and polls the child after.
    pub fn resume(&mut self) -> (r: Step)
        requires
            gate_wf(old(self).state()),
            old(self).state().phase == Phase::Idle,
        ensures
            gate_wf(final(self).state()),
            final(self).same_definition(old(self)),
            (final(self).state(), r) == gate_resume(old(self).state()),
    {
        if self.active {
            self.phase = Phase::AwaitChild;
            Step::PollChild
        } else {
            self.phase = Phase::AwaitCondition;
            Step::CheckCondition
        }
    }

    /// Takes the value of the condition: a false one fails the decorator
    /// without starting the child; a true one starts the child.
    pub fn on_condition(&mut self, holds: bool) -> (r: Step)
        requires
            gate_wf(old(self).state()),
            old(self).state().phase == Phase::AwaitCondition,
        ensures
            gate_wf(final(self).state()),
            final(self).same_definition(old(self)),
            (final(self).state(), r) == gate_on_condition(old(self).state(), holds, RunStatus::Failure),
    {
        if holds {
            self.active = true;
            self.phase = Phase::AwaitChild;
            Step::Start(0)
        } else {
            self.phase = Phase::Finished(RunStatus::Failure);
            Step::Done(RunStatus::Failure)
        }
    }

    /// Takes the result of polling the child and passes its outcome through.
    pub fn on_child(&mut self, poll: ChildPoll) -> (r: Step)
        requires
            gate_wf(old(self).state()),
            old(self).state().phase == Phase::AwaitChild,
        ensures
            gate_wf(final(self).state()),
            final(self).same_definition(old(self)),
            (final(self).state(), r) == relay_on_child(old(self).state(), poll, false),
    {
        match poll {
            ChildPoll::Pending => {
                self.phase = Phase::Idle;
                Step::Wait
            },
            ChildPoll::Ready(status) => {
                self.phase = Phase::Finished(status);
                Step::Done(status)
            },
        }
    }
}

impl<F: Clone, P: Clone> Clone for Decorator<F, P> {
    /// A fresh run of the same definition, whatever state `self` is in.
    fn clone(&self) -> (r: Self)
        ensures
            gate_wf(r.state()),
            r.state().is_fresh(),
            cloned(self.condition_fn(), r.condition_fn()),
            cloned(self.child_composite(), r.child_composite()),
    {
        Decorator {
            run_condition: self.run_condition.clone(),
            child: self.child.clone(),
            active: false,
            phase: Phase::Idle,
        }
    }
}

/// Optional execution: runs its child only if its condition holds when it is
/// first resumed, and succeeds whatever happens. If the condition does not hold
/// the child never starts. It never fails, so a failing branch under it does
/// not break an enclosing `Sequence`.
pub struct DecoratorContinue<F, P> {
    run_condition: P,
    child: Composite<F>,
    active: bool,
    phase: Phase,
}

impl<F, P> DecoratorContinue<F, P> {
    pub closed spec fn condition_fn(&self) -> P {
        self.run_condition
    }

    pub closed spec fn child_composite(&self) -> Composite<F> {
        self.child
    }

    pub closed spec fn state(&self) -> SingleState {
        SingleState { active: self.active, phase: self.phase }
    }

    /// Nothing but the progress of the run differs.
    pub open spec fn same_definition(&self, other: &Self) -> bool {
        &&& self.condition_fn() == other.condition_fn()
        &&& self.child_composite() == other.child_composite()
    }

    pub fn new(condition: P, child: Composite<F>) -> (r: Self)
        ensures
            gate_wf(r.state()),
            r.state().is_fresh(),
            r.condition_fn() == condition,
            r.child_composite() == child,
    {
        DecoratorContinue { run_condition: condition, child, active: false, phase: Phase::Idle }
    }

    pub fn condition(&self) -> (r: &P)
        ensures
            *r == self.condition_fn(),
    {
        &self.run_condition
    }

    /// The child, whose factory `Step::Start(0)` asks for.
    pub fn child(&self) -> (r: &Composite<F>)
        ensures
            *r == self.child_composite(),
    {
        &self.child
    }

    /// Begins one resumption: asks for the condition before the child has
    /// started, and polls the child after.
    pub fn resume(&mut self) -> (r: Step)
        requires
            gate_wf(old(self).state()),
            old(self).state().phase == Phase::Idle,
        ensures
            gate_wf(final(self).state()),
            final(self).same_definition(old(self)),
            (final(self).state(), r) == gate_resume(old(self).state()),
    {
        if self.active {
            self.phase = Phase::AwaitChild;
            Step::PollChild
        } else {
            self.phase = Phase::AwaitCondition;
            Step::CheckCondition
        }
    }

    /// Takes the value of the condition: a false one ends the run with success
    /// without starting the child; a true one starts the child.
    pub fn on_condition(&mut self, holds: bool) -> (r: Step)
        requires
            gate_wf(old(self).state()),
            old(self).state().phase == Phase::AwaitCondition,
        ensures
            gate_wf(final(self).state()),
            final(self).same_definition(old(self)),
            (final(self).state(), r) == gate_on_condition(old(self).state(), holds, RunStatus::Success),
    {
        if holds {
            self.active = true;
            self.phase = Phase::AwaitChild;
            Step::Start(0)
        } else {
            self.phase = Phase::Finished(RunStatus::Success);
            Step::Done(RunStatus::Success)
        }
    }

    /// Takes the result of polling the child; once it has finished, with
    /// either outcome, the run succeeds.
    pub fn on_child(&mut self, poll: ChildPoll) -> (r: Step)
        requires
            gate_wf(old(self).state()),
            old(self).state().phase == Phase::AwaitChild,
        ensures
            gate_wf(final(self).state()),
            final(self).same_definition(old(self)),
            (final(self).state(), r) == relay_on_child(old(self).state(), poll, true),
    {
        match poll {
            ChildPoll::Pending => {
                self.phase = Phase::Idle;
                Step::Wait
            },
            ChildPoll::Ready(_) => {
                self.phase = Phase::Finished(RunStatus::Success);
                Step::Done(RunStatus::Success)
            },
        }
    }
}

impl<F: Clone, P: Clone> Clone for DecoratorContinue<F, P> {
    /// A fresh run of the same definition, whatever state `self` is in.
    fn clone(&self) -> (r: Self)
        ensures
            gate_wf(r.state()),
            r.state().is_fresh(),
            cloned(self.condition_fn(), r.condition_fn()),
            cloned(self.child_composite(), r.child_composite()),
    {
        DecoratorContinue {
            run_condition: self.run_condition.clone(),
            child: self.child.clone(),
            active: false,
            phase: Phase::Idle,
        }
    }
}

/// Runs its child while checking its condition each time the child is still
/// suspended. A child that finishes gives its own outcome, whatever the
/// condition says by then. A condition found false while the child is
/// suspended interrupts the run: the child task is abandoned and the node
/// fails.
pub struct InterruptAction<F, P> {
    run_condition: P,
    child: Composite<F>,
    active: bool,
    phase: Phase,
}

impl<F, P> InterruptAction<F, P> {
    pub closed spec fn condition_fn(&self) -> P {
        self.run_condition
    }

    pub closed spec fn child_composite(&self) -> Composite<F> {
        self.child
    }

    pub closed spec fn state(&self) -> SingleState {
        SingleState { active: self.active, phase: self.phase }
    }

    /// Nothing but the progress of the run differs.
    pub open spec fn same_definition(&self, other: &Self) -> bool {
        &&& self.condition_fn() == other.condition_fn()
        &&& self.child_composite() == other.child_composite()
    }

    pub fn new(condition: P, child: Composite<F>) -> (r: Self)
        ensures
            interrupt_wf(r.state()),
            r.state().is_fresh(),
            r.condition_fn() == condition,
            r.child_composite() == child,
    {
        InterruptAction { run_condition: condition, child, active: false, phase: Phase::Idle }
    }

    pub fn condition(&self) -> (r: &P)
        ensures
            *r == self.condition_fn(),
    {
        &self.run_condition
    }

    /// The child, whose factory `Step::Start(0)` asks for.
    pub fn child(&self) -> (r: &Composite<F>)
        ensures
            *r == self.child_composite(),
    {
        &self.child
    }

    /// Begins one resumption: starts the child the first time, polls it after.
    pub fn resume(&mut self) -> (r: Step)
        requires
            interrupt_wf(old(self).state()),
            old(self).state().phase == Phase::Idle,
        ensures
            interrupt_wf(final(self).state()),
            final(self).same_definition(old(self)),
            (final(self).state(), r) == single_resume(old(self).state()),
    {
        self.phase = Phase::AwaitChild;
        if self.active {
            Step::PollChild
        } else {
            self.active = true;
            Step::Start(0)
        }
    }

    /// Takes the value of the condition while the child is suspended: a false
    /// one abandons the child and fails the run; a true one keeps the child
    /// and asks to be resumed again.
    pub fn on_condition(&mut self, holds: bool) -> (r: Step)
        requires
            interrupt_wf(old(self).state()),
            old(self).state().phase == Phase::AwaitCondition,
        ensures
            interrupt_wf(final(self).state()),
            final(self).same_definition(old(self)),
            (final(self).state(), r) == interrupt_on_condition(old(self).state(), holds),
    {
        if holds {
            self.phase = Phase::Idle;
            Step::Reschedule
        } else {
            self.phase = Phase::Finished(RunStatus::Failure);
            Step::Done(RunStatus::Failure)
        }
    }

    /// Takes the result of polling the child: a finished child ends the run
    /// with its outcome, and a suspended one has the condition checked.
    pub fn on_child(&mut self, poll: ChildPoll) -> (r: Step)
        requires
            interrupt_wf(old(self).state()),
            old(self).state().phase == Phase::AwaitChild,
        ensures
            interrupt_wf(final(self).state()),
            final(self).same_definition(old(self)),
            (final(self).state(), r) == interrupt_on_child(old(self).state(), poll),
    {
        match poll {
            ChildPoll::Pending => {
                self.phase = Phase::AwaitCondition;
                Step::CheckCondition
            },
            ChildPoll::Ready(status) => {
                self.phase = Phase::Finished(status);
                Step::Done(status)
            },
        }
    }
}

impl<F: Clone, P: Clone> Clone for InterruptAction<F, P> {
    /// A fresh run of the same definition, whatever state `self` is in.
    fn clone(&self) -> (r: Self)
        ensures
            interrupt_wf(r.state()),
            r.state().is_fresh(),
            cloned(self.condition_fn(), r.condition_fn()),
            cloned(self.child_composite(), r.child_composite()),
    {
        InterruptAction {
            run_condition: self.run_condition.clone(),
            child: self.child.clone(),
            active: false,
            phase: Phase::Idle,
        }
    }
}

} // verus!
