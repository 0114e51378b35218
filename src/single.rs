//! The nodes with one child and no condition: `Inverter`, `UntilSuccess` and
//! `UntilFailure`.
use vstd::prelude::*;

use crate::composite::Composite;
use crate::status::RunStatus;
use crate::step::{ChildPoll, Phase, Step};

verus! {

/// The state of a node with one child and no condition: whether a child task
/// is held, and the phase.
pub struct SingleState {
    pub active: bool,
    pub phase: Phase,
}

impl SingleState {
    pub open spec fn wf(self) -> bool {
        &&& (self.phase == Phase::AwaitChild ==> self.active)
        &&& self.phase != Phase::AwaitCondition
    }

    /// A fresh run: no task held.
    pub open spec fn is_fresh(self) -> bool {
        &&& !self.active
        &&& self.phase == Phase::Idle
    }
}

/// One resumption: starts a child task when none is held, and polls the one
/// held otherwise.
pub open spec fn single_resume(s: SingleState) -> (SingleState, Step) {
    if s.active {
        (SingleState { phase: Phase::AwaitChild, ..s }, Step::PollChild)
    } else {
        (SingleState { active: true, phase: Phase::AwaitChild }, Step::Start(0))
    }
}

/// An `Inverter` taking the result of polling its child.
pub open spec fn inverter_on_child(s: SingleState, poll: ChildPoll) -> (SingleState, Step) {
    match poll {
        ChildPoll::Pending => (SingleState { phase: Phase::Idle, ..s }, Step::Wait),
        ChildPoll::Ready(status) => (
            SingleState { phase: Phase::Finished(status.flipped()), ..s },
            Step::Done(status.flipped()),
        ),
    }
}

/// A repeating node that waits for `target` taking the result of polling its
/// child: `target` ends the run; the other outcome drops the finished task and
/// asks to be resumed at once, so that the next resumption starts a fresh one.
pub open spec fn until_on_child(s: SingleState, poll: ChildPoll, target: RunStatus) -> (
    SingleState,
    Step,
) {
    match poll {
        ChildPoll::Pending => (SingleState { phase: Phase::Idle, ..s }, Step::Wait),
        ChildPoll::Ready(status) => if status == target {
            (SingleState { phase: Phase::Finished(status), ..s }, Step::Done(status))
        } else {
            (SingleState { active: false, phase: Phase::Idle }, Step::Reschedule)
        },
    }
}

/// Runs its child to the end and finishes with the other outcome: success
/// becomes failure and failure becomes success.
pub struct Inverter<F> {
    child: Composite<F>,
    active: bool,
    phase: Phase,
}

impl<F> Inverter<F> {
    pub closed spec fn child_composite(&self) -> Composite<F> {
        self.child
    }

    pub closed spec fn state(&self) -> SingleState {
        SingleState { active: self.active, phase: self.phase }
    }

    pub fn new(child: Composite<F>) -> (r: Self)
        ensures
            r.state().wf(),
            r.state().is_fresh(),
            r.child_composite() == child,
    {
        Inverter { child, active: false, phase: Phase::Idle }
    }

    /// The child, whose factory `Step::Start(0)` asks for.
    pub fn child(&self) -> (r: &Composite<F>)
        ensures
            *r == self.child_composite(),
    {
        &self.child
    }

    /// Begins one resumption: starts a child task when none is held, and
    /// polls the one held otherwise.
    pub fn resume(&mut self) -> (r: Step)
        requires
            old(self).state().wf(),
            old(self).state().phase == Phase::Idle,
        ensures
            final(self).state().wf(),
            final(self).child_composite() == old(self).child_composite(),
            (final(self).state(), r) == single_resume(old(self).state()),
    {
        self.phase = Phase::AwaitChild;
        if self.active {
            Step::PollChild
        } else {
            self.active = true;
            Step::Start(0)
        }
    }

    /// Takes the result of polling the child; a finished child ends the run
    /// with the other outcome.
    pub fn on_child(&mut self, poll: ChildPoll) -> (r: Step)
        requires
            old(self).state().wf(),
            old(self).state().phase == Phase::AwaitChild,
        ensures
            final(self).state().wf(),
            final(self).child_composite() == old(self).child_composite(),
            (final(self).state(), r) == inverter_on_child(old(self).state(), poll),
    {
        match poll {
            ChildPoll::Pending => {
                self.phase = Phase::Idle;
                Step::Wait
            },
            ChildPoll::Ready(status) => {
                let flipped = status.invert();
                self.phase = Phase::Finished(flipped);
                Step::Done(flipped)
            },
        }
    }
}

impl<F: Clone> Clone for Inverter<F> {
    /// A fresh run of the same definition, whatever state `self` is in.
    fn clone(&self) -> (r: Self)
        ensures
            r.state().wf(),
            r.state().is_fresh(),
            cloned(self.child_composite(), r.child_composite()),
    {
        Inverter { child: self.child.clone(), active: false, phase: Phase::Idle }
    }
}

/// Runs its child again and again, each time as a fresh task, until a run
/// succeeds; then it succeeds.
pub struct UntilSuccess<F> {
    child: Composite<F>,
    active: bool,
    phase: Phase,
}

impl<F> UntilSuccess<F> {
    pub closed spec fn child_composite(&self) -> Composite<F> {
        self.child
    }

    pub closed spec fn state(&self) -> SingleState {
        SingleState { active: self.active, phase: self.phase }
    }

    pub fn new(child: Composite<F>) -> (r: Self)
        ensures
            r.state().wf(),
            r.state().is_fresh(),
            r.child_composite() == child,
    {
        UntilSuccess { child, active: false, phase: Phase::Idle }
    }

    /// The child, whose factory `Step::Start(0)` asks for.
    pub fn child(&self) -> (r: &Composite<F>)
        ensures
            *r == self.child_composite(),
    {
        &self.child
    }

    /// Begins one resumption: starts a child task when none is held, and
    /// polls the one held otherwise.
    pub fn resume(&mut self) -> (r: Step)
        requires
            old(self).state().wf(),
            old(self).state().phase == Phase::Idle,
        ensures
            final(self).state().wf(),
            final(self).child_composite() == old(self).child_composite(),
            (final(self).state(), r) == single_resume(old(self).state()),
    {
        self.phase = Phase::AwaitChild;
        if self.active {
            Step::PollChild
        } else {
            self.active = true;
            Step::Start(0)
        }
    }

    /// Takes the result of polling the child. A success ends the run; a failure
    /// discards the finished task and asks to be resumed at once, so that the
    /// next resumption starts a fresh one.
    pub fn on_child(&mut self, poll: ChildPoll) -> (r: Step)
        requires
            old(self).state().wf(),
            old(self).state().phase == Phase::AwaitChild,
        ensures
            final(self).state().wf(),
            final(self).child_composite() == old(self).child_composite(),
            (final(self).state(), r) == until_on_child(
                old(self).state(),
                poll,
                RunStatus::Success,
            ),
    {
        match poll {
            ChildPoll::Pending => {
                self.phase = Phase::Idle;
                Step::Wait
            },
            ChildPoll::Ready(RunStatus::Success) => {
                self.phase = Phase::Finished(RunStatus::Success);
                Step::Done(RunStatus::Success)
            },
            ChildPoll::Ready(RunStatus::Failure) => {
                self.active = false;
                self.phase = Phase::Idle;
                Step::Reschedule
            },
        }
    }
}

impl<F: Clone> Clone for UntilSuccess<F> {
    /// A fresh run of the same definition, whatever state `self` is in.
    fn clone(&self) -> (r: Self)
        ensures
            r.state().wf(),
            r.state().is_fresh(),
            cloned(self.child_composite(), r.child_composite()),
    {
        UntilSuccess { child: self.child.clone(), active: false, phase: Phase::Idle }
    }
}

/// Runs its child again and again, each time as a fresh task, until a run
/// fails; then it fails.
pub struct UntilFailure<F> {
    child: Composite<F>,
    active: bool,
    phase: Phase,
}

impl<F> UntilFailure<F> {
    pub closed spec fn child_composite(&self) -> Composite<F> {
        self.child
    }

    pub closed spec fn state(&self) -> SingleState {
        SingleState { active: self.active, phase: self.phase }
    }

    pub fn new(child: Composite<F>) -> (r: Self)
        ensures
            r.state().wf(),
            r.state().is_fresh(),
            r.child_composite() == child,
    {
        UntilFailure { child, active: false, phase: Phase::Idle }
    }

    /// The child, whose factory `Step::Start(0)` asks for.
    pub fn child(&self) -> (r: &Composite<F>)
        ensures
            *r == self.child_composite(),
    {
        &self.child
    }

    /// Begins one resumption: starts a child task when none is held, and
    /// polls the one held otherwise.
    pub fn resume(&mut self) -> (r: Step)
        requires
            old(self).state().wf(),
            old(self).state().phase == Phase::Idle,
        ensures
            final(self).state().wf(),
            final(self).child_composite() == old(self).child_composite(),
            (final(self).state(), r) == single_resume(old(self).state()),
    {
        self.phase = Phase::AwaitChild;
        if self.active {
            Step::PollChild
        } else {
            self.active = true;
            Step::Start(0)
        }
    }

    /// Takes the result of polling the child. A failure ends the run; a success
    /// discards the finished task and asks to be resumed at once, so that the
    /// next resumption starts a fresh one.
    pub fn on_child(&mut self, poll: ChildPoll) -> (r: Step)
        requires
            old(self).state().wf(),
            old(self).state().phase == Phase::AwaitChild,
        ensures
            final(self).state().wf(),
            final(self).child_composite() == old(self).child_composite(),
            (final(self).state(), r) == until_on_child(
                old(self).state(),
                poll,
                RunStatus::Failure,
            ),
    {
        match poll {
            ChildPoll::Pending => {
                self.phase = Phase::Idle;
                Step::Wait
            },
            ChildPoll::Ready(RunStatus::Failure) => {
                self.phase = Phase::Finished(RunStatus::Failure);
                Step::Done(RunStatus::Failure)
            },
            ChildPoll::Ready(RunStatus::Success) => {
                self.active = false;
                self.phase = Phase::Idle;
                Step::Reschedule
            },
        }
    }
}

impl<F: Clone> Clone for UntilFailure<F> {
    /// A fresh run of the same definition, whatever state `self` is in.
    fn clone(&self) -> (r: Self)
        ensures
            r.state().wf(),
            r.state().is_fresh(),
            cloned(self.child_composite(), r.child_composite()),
    {
        UntilFailure { child: self.child.clone(), active: false, phase: Phase::Idle }
    }
}

} // verus!
