//! The nodes that run a list of children: `Sequence` and `PrioritySelector`.
use vstd::prelude::*;

use crate::composite::Composite;
use crate::status::RunStatus;
use crate::step::{ChildPoll, Phase, Step};

verus! {

/// The name that marks a child as optional for a `PrioritySelector`: the name
/// a `DecoratorContinue` carries once it is made into a `Composite`.
pub const OPTIONAL_CHILD_NAME: &'static str = "DecoratorContinue";

/// Whether a child with this name is optional: its outcome never ends a
/// `PrioritySelector`.
pub open spec fn is_optional_name(name: Seq<char>) -> bool {
    name == OPTIONAL_CHILD_NAME@
}

/// The state of a node that runs a list of children: which children are
/// optional, the cursor, whether a child task is held, and the phase.
pub struct GroupState {
    pub optional: Seq<bool>,
    pub cursor: nat,
    pub active: bool,
    pub phase: Phase,
}

impl GroupState {
    pub open spec fn count(self) -> nat {
        self.optional.len()
    }

    pub open spec fn wf(self) -> bool {
        &&& (self.count() == 0 ==> self.cursor == 0 && !self.active)
        &&& (self.count() > 0 ==> self.cursor < self.count())
        &&& (self.phase == Phase::AwaitChild ==> self.active)
        &&& self.phase != Phase::AwaitCondition
    }

    /// A fresh run: at the first child, holding no task.
    pub open spec fn is_fresh(self) -> bool {
        &&& self.wf()
        &&& self.cursor == 0
        &&& !self.active
        &&& self.phase == Phase::Idle
    }
}

/// One resumption of a group: with no children it ends at once with `empty`;
/// otherwise it starts the child at the cursor, or polls the one it holds.
pub open spec fn group_resume(s: GroupState, empty: RunStatus) -> (GroupState, Step) {
    if s.count() == 0 {
        (GroupState { phase: Phase::Finished(empty), ..s }, Step::Done(empty))
    } else if s.active {
        (GroupState { phase: Phase::AwaitChild, ..s }, Step::PollChild)
    } else {
        (GroupState { phase: Phase::AwaitChild, active: true, ..s }, Step::Start(s.cursor as usize))
    }
}

/// A group taking the result of polling its child. A child outcome equal to
/// `decisive` ends the group with it; so does the outcome of the last child.
/// Any other finished child moves the cursor on and asks to be resumed at once.
pub open spec fn group_on_child(s: GroupState, poll: ChildPoll, decisive: RunStatus) -> (
    GroupState,
    Step,
) {
    match poll {
        ChildPoll::Pending => (GroupState { phase: Phase::Idle, ..s }, Step::Wait),
        ChildPoll::Ready(status) => {
            if status == decisive || s.cursor + 1 >= s.count() {
                (GroupState { phase: Phase::Finished(status), ..s }, Step::Done(status))
            } else {
                (
                    GroupState { cursor: s.cursor + 1, active: false, phase: Phase::Idle, ..s },
                    Step::Reschedule,
                )
            }
        },
    }
}

/// What a `PrioritySelector` counts of a poll: an optional child's outcome
/// counts as a failure.
pub open spec fn selector_counted(s: GroupState, poll: ChildPoll) -> ChildPoll {
    match poll {
        ChildPoll::Ready(status) => if s.optional[s.cursor as int] {
            ChildPoll::Ready(RunStatus::Failure)
        } else {
            ChildPoll::Ready(status)
        },
        ChildPoll::Pending => ChildPoll::Pending,
    }
}

/// The optional flags of a list of children.
pub open spec fn optional_flags<F>(childs: Seq<Composite<F>>) -> Seq<bool> {
    childs.map_values(|c: Composite<F>| is_optional_name(c.name@))
}

/// Runs its children in order, one at a time. It succeeds when every child
/// succeeds, and fails at the first child that fails; no later child starts.
pub struct Sequence<F> {
    childs: Vec<Composite<F>>,
    index: usize,
    active: bool,
    phase: Phase,
}

impl<F> Sequence<F> {
    /// The node's children.
    pub closed spec fn children(&self) -> Seq<Composite<F>> {
        self.childs@
    }

    pub closed spec fn state(&self) -> GroupState {
        GroupState {
            optional: optional_flags(self.childs@),
            cursor: self.index as nat,
            active: self.active,
            phase: self.phase,
        }
    }

    pub open spec fn wf(&self) -> bool {
        &&& self.state().wf()
    }

    pub fn new(childs: Vec<Composite<F>>) -> (r: Self)
        ensures
            r.wf(),
            r.state().is_fresh(),
            r.state().optional == optional_flags(childs@),
            r.children() == childs@,
    {
        Sequence { childs, index: 0, active: false, phase: Phase::Idle }
    }

    pub fn child_count(&self) -> (r: usize)
        ensures
            r == self.children().len(),
    {
        self.childs.len()
    }

    /// The child at index `i`, whose factory a `Step::Start(i)` asks for.
    pub fn child(&self, i: usize) -> (r: &Composite<F>)
        requires
            i < self.children().len(),
        ensures
            *r == self.children()[i as int],
    {
        &self.childs[i]
    }

    /// Begins one resumption. With no children the sequence succeeds at once;
    /// otherwise it starts the child at the cursor, or polls the one it holds.
    pub fn resume(&mut self) -> (r: Step)
        requires
            old(self).wf(),
            old(self).state().phase == Phase::Idle,
        ensures
            final(self).wf(),
            final(self).children() == old(self).children(),
            (final(self).state(), r) == group_resume(old(self).state(), RunStatus::Success),
    {
        if self.childs.len() == 0 {
            self.phase = Phase::Finished(RunStatus::Success);
            return Step::Done(RunStatus::Success);
        }
        self.phase = Phase::AwaitChild;
        if self.active {
            Step::PollChild
        } else {
            self.active = true;
            Step::Start(self.index)
        }
    }

    /// Takes the result of polling the child at the cursor. A failure ends the
    /// sequence; a success of the last child ends it with success; any other
    /// success moves to the next child and asks to be resumed at once.
    pub fn on_child(&mut self, poll: ChildPoll) -> (r: Step)
        requires
            old(self).wf(),
            old(self).state().phase == Phase::AwaitChild,
        ensures
            final(self).wf(),
            final(self).children() == old(self).children(),
            (final(self).state(), r) == group_on_child(
                old(self).state(),
                poll,
                RunStatus::Failure,
            ),
    {
        match poll {
            ChildPoll::Pending => {
                self.phase = Phase::Idle;
                Step::Wait
            },
            ChildPoll::Ready(RunStatus::Failure) => {
                self.phase = Phase::Finished(RunStatus::Failure);
                Step::Done(RunStatus::Failure)
            },
            ChildPoll::Ready(RunStatus::Success) => {
                let n = self.childs.len();
                if self.index + 1 >= n {
                    self.phase = Phase::Finished(RunStatus::Success);
                    Step::Done(RunStatus::Success)
                } else {
                    self.index = self.index + 1;
                    self.active = false;
                    self.phase = Phase::Idle;
                    Step::Reschedule
                }
            },
        }
    }
}

impl<F: Clone> Clone for Sequence<F> {
    /// A fresh run over the same children, whatever state `self` is in.
    fn clone(&self) -> (r: Self)
        ensures
            r.wf(),
            r.state().is_fresh(),
            r.state().optional == self.state().optional,
            r.children().len() == self.children().len(),
            forall|i: int|
                0 <= i < self.children().len() ==> cloned(
                    #[trigger] self.children()[i],
                    r.children()[i],
                ),
    {
        Sequence { childs: self.childs.clone(), index: 0, active: false, phase: Phase::Idle }
    }
}

/// Runs its children in order, one at a time, until one succeeds. It fails
/// only when every child fails.
///
/// A child named like a `DecoratorContinue` is optional: whatever it finishes
/// with counts as a failure here, so it can never make the selector succeed
/// and only passes on to the next child.
pub struct PrioritySelector<F> {
    childs: Vec<Composite<F>>,
    index: usize,
    is_running_optional_child: bool,
    active: bool,
    phase: Phase,
}

impl<F> PrioritySelector<F> {
    /// The node's children.
    pub closed spec fn children(&self) -> Seq<Composite<F>> {
        self.childs@
    }

    pub closed spec fn state(&self) -> GroupState {
        GroupState {
            optional: optional_flags(self.childs@),
            cursor: self.index as nat,
            active: self.active,
            phase: self.phase,
        }
    }

    pub closed spec fn running_optional(&self) -> bool {
        self.is_running_optional_child
    }

    pub open spec fn wf(&self) -> bool {
        &&& self.state().wf()
        &&& (self.state().active ==> self.running_optional()
            == self.state().optional[self.state().cursor as int])
    }

    pub fn new(childs: Vec<Composite<F>>) -> (r: Self)
        ensures
            r.wf(),
            r.state().is_fresh(),
            r.state().optional == optional_flags(childs@),
            r.children() == childs@,
    {
        PrioritySelector {
            childs,
            index: 0,
            is_running_optional_child: false,
            active: false,
            phase: Phase::Idle,
        }
    }

    pub fn child_count(&self) -> (r: usize)
        ensures
            r == self.children().len(),
    {
        self.childs.len()
    }

    /// The child at index `i`, whose factory a `Step::Start(i)` asks for.
    pub fn child(&self, i: usize) -> (r: &Composite<F>)
        requires
            i < self.children().len(),
        ensures
            *r == self.children()[i as int],
    {
        &self.childs[i]
    }

    /// Begins one resumption. With no children the selector fails at once;
    /// otherwise it starts the child at the cursor, or polls the one it holds.
    pub fn resume(&mut self) -> (r: Step)
        requires
            old(self).wf(),
            old(self).state().phase == Phase::Idle,
        ensures
            final(self).wf(),
            final(self).children() == old(self).children(),
            (final(self).state(), r) == group_resume(old(self).state(), RunStatus::Failure),
    {
        if self.childs.len() == 0 {
            self.phase = Phase::Finished(RunStatus::Failure);
            return Step::Done(RunStatus::Failure);
        }
        self.phase = Phase::AwaitChild;
        if self.active {
            Step::PollChild
        } else {
            let optional = OPTIONAL_CHILD_NAME.to_owned();
            self.is_running_optional_child = self.childs[self.index].name == optional;
            self.active = true;
            Step::Start(self.index)
        }
    }

    /// Takes the result of polling the child at the cursor. A success that
    /// counts ends the selector with success; a failure of the last child ends
    /// it with failure; any other finished child moves to the next one and asks
    /// to be resumed at once.
    pub fn on_child(&mut self, poll: ChildPoll) -> (r: Step)
        requires
            old(self).wf(),
            old(self).state().phase == Phase::AwaitChild,
        ensures
            final(self).wf(),
            final(self).children() == old(self).children(),
            (final(self).state(), r) == group_on_child(
                old(self).state(),
                selector_counted(old(self).state(), poll),
                RunStatus::Success,
            ),
    {
        match poll {
            ChildPoll::Pending => {
                self.phase = Phase::Idle;
                Step::Wait
            },
            ChildPoll::Ready(status) => {
                let counted = if self.is_running_optional_child {
                    RunStatus::Failure
                } else {
                    status
                };
                let n = self.childs.len();
                match counted {
                    RunStatus::Success => {
                        self.phase = Phase::Finished(RunStatus::Success);
                        Step::Done(RunStatus::Success)
                    },
                    RunStatus::Failure => {
                        if self.index + 1 >= n {
                            self.phase = Phase::Finished(RunStatus::Failure);
                            Step::Done(RunStatus::Failure)
                        } else {
                            self.index = self.index + 1;
                            self.active = false;
                            self.phase = Phase::Idle;
                            Step::Reschedule
                        }
                    },
                }
            },
        }
    }
}

impl<F: Clone> Clone for PrioritySelector<F> {
    /// A fresh run over the same children, whatever state `self` is in.
    fn clone(&self) -> (r: Self)
        ensures
            r.wf(),
            r.state().is_fresh(),
            r.state().optional == self.state().optional,
            r.children().len() == self.children().len(),
            forall|i: int|
                0 <= i < self.children().len() ==> cloned(
                    #[trigger] self.children()[i],
                    r.children()[i],
                ),
    {
        PrioritySelector {
            childs: self.childs.clone(),
            index: 0,
            is_running_optional_child: false,
            active: false,
            phase: Phase::Idle,
        }
    }
}

} // verus!
