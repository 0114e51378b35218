//! Laws of whole runs. Each node's methods follow a transition function on its
//! state; the functions here drive those transitions through a run, with the
//! children's outcomes given, and the lemmas state what every such run does.
use vstd::prelude::*;

use crate::groups::{group_on_child, group_resume, selector_counted, GroupState};
use crate::decorators::{
    gate_on_condition, gate_resume, gate_wf, interrupt_on_child, interrupt_on_condition,
    interrupt_wf, relay_on_child,
};
use crate::single::{inverter_on_child, single_resume, until_on_child, SingleState};
use crate::status::RunStatus;
use crate::step::{ChildPoll, Phase, Step};

verus! {

/// The outcome that counts for the child at index `i`: an optional child of a
/// selector counts as a failure.
pub open spec fn counted_outcome(
    s: GroupState,
    outs: Seq<RunStatus>,
    i: int,
    selector: bool,
) -> RunStatus {
    if selector && s.optional[i] {
        RunStatus::Failure
    } else {
        outs[i]
    }
}

/// Drives a group from state `s` to its end, each child that starts finishing
/// at its first poll with outcome `outs[i]`: the group's outcome, the number of
/// children started and the number of resumptions. `selector` picks the
/// `PrioritySelector` policy, else the `Sequence` policy.
pub open spec fn drive_group(s: GroupState, outs: Seq<RunStatus>, selector: bool) -> (
    RunStatus,
    nat,
    nat,
)
    decreases s.count() - s.cursor,
{
    let empty = if selector {
        RunStatus::Failure
    } else {
        RunStatus::Success
    };
    let decisive = if selector {
        RunStatus::Success
    } else {
        RunStatus::Failure
    };
    let (s1, step1) = group_resume(s, empty);
    match step1 {
        Step::Done(x) => (x, 0, 1),
        _ => {
            let poll = ChildPoll::Ready(outs[s.cursor as int]);
            let counted = if selector {
                selector_counted(s1, poll)
            } else {
                poll
            };
            let (s2, step2) = group_on_child(s1, counted, decisive);
            match step2 {
                Step::Done(x) => (x, 1, 1),
                _ => {
                    let (x, k, n) = drive_group(s2, outs, selector);
                    (x, k + 1, n + 1)
                },
            }
        },
    }
}

proof fn lemma_drive_from(s: GroupState, outs: Seq<RunStatus>, selector: bool)
    requires
        s.wf(),
        s.phase == Phase::Idle,
        !s.active,
        s.count() > 0,
        outs.len() == s.count(),
    ensures
        ({
            let (x, k, n) = drive_group(s, outs, selector);
            let decisive = if selector {
                RunStatus::Success
            } else {
                RunStatus::Failure
            };
            &&& 1 <= k
            &&& s.cursor + k <= s.count()
            &&& n == k
            &&& forall|i: int|
                s.cursor <= i < s.cursor + k - 1 ==> counted_outcome(s, outs, i, selector)
                    != decisive
            &&& x == counted_outcome(s, outs, s.cursor + k - 1, selector)
            &&& (x == decisive || s.cursor + k == s.count())
        }),
    decreases s.count() - s.cursor,
{
    let decisive = if selector {
        RunStatus::Success
    } else {
        RunStatus::Failure
    };
    let empty = if selector {
        RunStatus::Failure
    } else {
        RunStatus::Success
    };
    let s1 = group_resume(s, empty).0;
    let poll = ChildPoll::Ready(outs[s.cursor as int]);
    let counted = if selector {
        selector_counted(s1, poll)
    } else {
        poll
    };
    let s2 = group_on_child(s1, counted, decisive).0;
    assert(counted == ChildPoll::Ready(counted_outcome(s, outs, s.cursor as int, selector)));
    if s.cursor + 1 < s.count() && counted != ChildPoll::Ready(decisive) {
        lemma_drive_from(s2, outs, selector);
        let (x2, k2, n2) = drive_group(s2, outs, selector);
        assert(drive_group(s, outs, selector) == (x2, k2 + 1, n2 + 1));
        assert forall|i: int| s.cursor <= i < s.cursor + (k2 + 1) - 1 implies counted_outcome(
            s,
            outs,
            i,
            selector,
        ) != decisive by {
            if i > s.cursor {
                assert(counted_outcome(s2, outs, i, selector) != decisive);
            }
        }
    } else {
        assert(drive_group(s, outs, selector).1 == 1);
    }
}

/// A run of a `Sequence`, each child finishing at its first poll with outcome
/// `outs[i]`: with no children it succeeds in one resumption and starts
/// nothing. Otherwise it starts children in order, one per resumption, up to
/// the first that fails and never beyond it, and ends with the outcome of the
/// last child started; it succeeds exactly when every child succeeds.
pub proof fn lemma_sequence_run(s: GroupState, outs: Seq<RunStatus>)
    requires
        s.is_fresh(),
        outs.len() == s.count(),
    ensures
        ({
            let (x, k, n) = drive_group(s, outs, false);
            &&& s.count() == 0 ==> x == RunStatus::Success && k == 0 && n == 1
            &&& s.count() > 0 ==> {
                &&& 1 <= k <= s.count()
                &&& n == k
                &&& forall|i: int| 0 <= i < k - 1 ==> outs[i] == RunStatus::Success
                &&& x == outs[k - 1]
                &&& (x == RunStatus::Failure || k == s.count())
            }
            &&& (x == RunStatus::Success <==> forall|i: int|
                0 <= i < s.count() ==> outs[i] == RunStatus::Success)
        }),
{
    if s.count() > 0 {
        lemma_drive_from(s, outs, false);
        let (x, k, n) = drive_group(s, outs, false);
        assert forall|i: int| 0 <= i < k - 1 implies outs[i] == RunStatus::Success by {
            assert(counted_outcome(s, outs, i, false) != RunStatus::Failure);
        }
        assert(x == outs[k - 1]);
        if x == RunStatus::Success {
            assert(k == s.count());
            assert forall|i: int| 0 <= i < s.count() implies outs[i] == RunStatus::Success by {
                if i < k - 1 {
                    assert(counted_outcome(s, outs, i, false) != RunStatus::Failure);
                }
            }
        } else {
            assert(outs[k - 1] == RunStatus::Failure);
        }
    }
}

/// A run of a `PrioritySelector`, each child finishing at its first poll with
/// outcome `outs[i]`: with no children it fails in one resumption and starts
/// nothing. Otherwise it starts children in order, one per resumption, up to
/// the first that succeeds and is not optional, and never beyond it; it
/// succeeds exactly when some child that is not optional succeeds.
pub proof fn lemma_selector_run(s: GroupState, outs: Seq<RunStatus>)
    requires
        s.is_fresh(),
        outs.len() == s.count(),
    ensures
        ({
            let (x, k, n) = drive_group(s, outs, true);
            &&& s.count() == 0 ==> x == RunStatus::Failure && k == 0 && n == 1
            &&& s.count() > 0 ==> {
                &&& 1 <= k <= s.count()
                &&& n == k
                &&& forall|i: int|
                    0 <= i < k - 1 ==> s.optional[i] || outs[i] == RunStatus::Failure
                &&& x == counted_outcome(s, outs, k - 1, true)
                &&& (x == RunStatus::Success || k == s.count())
            }
            &&& (x == RunStatus::Success <==> exists|i: int|
                0 <= i < s.count() && !s.optional[i] && outs[i] == RunStatus::Success)
        }),
{
    if s.count() > 0 {
        lemma_drive_from(s, outs, true);
        let (x, k, n) = drive_group(s, outs, true);
        assert forall|i: int| 0 <= i < k - 1 implies s.optional[i] || outs[i]
            == RunStatus::Failure by {
            assert(counted_outcome(s, outs, i, true) != RunStatus::Success);
        }
        if x == RunStatus::Success {
            assert(!s.optional[k - 1] && outs[k - 1] == RunStatus::Success);
        } else {
            assert forall|i: int| 0 <= i < s.count() implies !(!s.optional[i] && outs[i]
                == RunStatus::Success) by {
                if i < k - 1 {
                    assert(counted_outcome(s, outs, i, true) != RunStatus::Success);
                } else {
                    assert(counted_outcome(s, outs, i, true) == RunStatus::Failure);
                }
            }
        }
    }
}

/// Drives a node that repeats its child until `target` from state `s`, run
/// number `j` (and each one after it) finishing at its first poll with outcome
/// `outs[j]`: the node's outcome, the number of runs started and the number of
/// resumptions. A script that never reaches `target` is cut off where it ends.
pub open spec fn drive_until(s: SingleState, outs: Seq<RunStatus>, j: nat, target: RunStatus) -> (
    RunStatus,
    nat,
    nat,
)
    decreases outs.len() - j,
{
    if j >= outs.len() {
        (target.flipped(), 0, 0)
    } else {
        let (s1, step1) = single_resume(s);
        let (s2, step2) = until_on_child(s1, ChildPoll::Ready(outs[j as int]), target);
        match step2 {
            Step::Done(x) => (x, 1, 1),
            _ => {
                let (x, k, n) = drive_until(s2, outs, j + 1, target);
                (x, k + 1, n + 1)
            },
        }
    }
}

proof fn lemma_until_from(s: SingleState, outs: Seq<RunStatus>, j: nat, target: RunStatus)
    requires
        s.is_fresh(),
        j < outs.len(),
        exists|i: int| j <= i < outs.len() && outs[i] == target,
    ensures
        ({
            let (x, k, n) = drive_until(s, outs, j, target);
            &&& 1 <= k
            &&& j + k <= outs.len()
            &&& n == k
            &&& x == target
            &&& outs[j + k - 1] == target
            &&& forall|i: int| j <= i < j + k - 1 ==> outs[i] != target
        }),
    decreases outs.len() - j,
{
    if outs[j as int] != target {
        let i0 = choose|i: int| j <= i < outs.len() && outs[i] == target;
        assert(i0 != j);
        let s2 = until_on_child(single_resume(s).0, ChildPoll::Ready(outs[j as int]), target).0;
        lemma_until_from(s2, outs, j + 1, target);
        let (x2, k2, n2) = drive_until(s2, outs, j + 1, target);
        assert(drive_until(s, outs, j, target) == (x2, k2 + 1, n2 + 1));
    }
}

/// A run of an `UntilSuccess` (`target` is `Success`) or an `UntilFailure`
/// (`target` is `Failure`), whose child runs finish with the outcomes `outs` in
/// turn, one of them `target`: it starts a fresh child run per resumption, up
/// to the first run that gives `target` and no further, and ends with
/// `target`.
pub proof fn lemma_until_run(s: SingleState, outs: Seq<RunStatus>, target: RunStatus)
    requires
        s.is_fresh(),
        exists|i: int| 0 <= i < outs.len() && outs[i] == target,
    ensures
        ({
            let (x, k, n) = drive_until(s, outs, 0, target);
            &&& 1 <= k <= outs.len()
            &&& n == k
            &&& x == target
            &&& outs[k - 1] == target
            &&& forall|i: int| 0 <= i < k - 1 ==> outs[i] != target
        }),
{
    lemma_until_from(s, outs, 0, target);
}

/// Polls a started child that is suspended `waits` times and then finishes
/// with `out`, under a node that relays its outcome (or succeeds whatever it
/// is, when `always_succeed`): the node's outcome and the resumptions taken.
pub open spec fn drive_relay(s: SingleState, waits: nat, out: RunStatus, always_succeed: bool) -> (
    RunStatus,
    nat,
)
    decreases waits,
{
    if waits == 0 {
        (relay_on_child(s, ChildPoll::Ready(out), always_succeed).1->Done_0, 1)
    } else {
        let s1 = relay_on_child(s, ChildPoll::Pending, always_succeed).0;
        let s2 = gate_resume(s1).0;
        let (x, n) = drive_relay(s2, (waits - 1) as nat, out, always_succeed);
        (x, n + 1)
    }
}

/// Drives a `Decorator` (`refused` is `Failure`, `always_succeed` false) or a
/// `DecoratorContinue` (`refused` is `Success`, `always_succeed` true) from
/// state `s`: its condition reads `holds`, and its child, once started, is
/// suspended `waits` times and then finishes with `out`. The node's outcome,
/// the number of child runs started and the resumptions taken.
pub open spec fn drive_gate(
    s: SingleState,
    holds: bool,
    waits: nat,
    out: RunStatus,
    refused: RunStatus,
    always_succeed: bool,
) -> (RunStatus, nat, nat) {
    let s1 = gate_resume(s).0;
    let (s2, step2) = gate_on_condition(s1, holds, refused);
    match step2 {
        Step::Done(x) => (x, 0, 1),
        _ => {
            let (x, n) = drive_relay(s2, waits, out, always_succeed);
            (x, 1, n)
        },
    }
}

proof fn lemma_relay(s: SingleState, waits: nat, out: RunStatus, always_succeed: bool)
    requires
        s.active,
        s.phase == Phase::AwaitChild,
    ensures
        drive_relay(s, waits, out, always_succeed) == (
            if always_succeed {
                RunStatus::Success
            } else {
                out
            },
            waits + 1,
        ),
    decreases waits,
{
    if waits > 0 {
        let s1 = relay_on_child(s, ChildPoll::Pending, always_succeed).0;
        lemma_relay(gate_resume(s1).0, (waits - 1) as nat, out, always_succeed);
    }
}

/// A run of a `Decorator`: a false condition fails it in one resumption and
/// never starts the child; a true one starts the child once and ends with
/// exactly the child's outcome, in one resumption per poll of the child.
pub proof fn lemma_decorator_run(s: SingleState, holds: bool, waits: nat, out: RunStatus)
    requires
        gate_wf(s),
        s.is_fresh(),
    ensures
        drive_gate(s, holds, waits, out, RunStatus::Failure, false) == if holds {
            (out, 1nat, waits + 1)
        } else {
            (RunStatus::Failure, 0nat, 1nat)
        },
{
    if holds {
        lemma_relay(gate_on_condition(gate_resume(s).0, holds, RunStatus::Failure).0, waits, out, false);
    }
}

/// A run of a `DecoratorContinue` succeeds whatever its condition and whatever
/// its child gives; it starts the child, once, only when the condition holds.
pub proof fn lemma_decorator_continue_run(s: SingleState, holds: bool, waits: nat, out: RunStatus)
    requires
        gate_wf(s),
        s.is_fresh(),
    ensures
        drive_gate(s, holds, waits, out, RunStatus::Success, true) == if holds {
            (RunStatus::Success, 1nat, waits + 1)
        } else {
            (RunStatus::Success, 0nat, 1nat)
        },
{
    if holds {
        lemma_relay(gate_on_condition(gate_resume(s).0, holds, RunStatus::Success).0, waits, out, true);
    }
}

/// Drives an `Inverter` whose child is suspended `waits` times and then
/// finishes with `out`, from the state after a resumption: its outcome and
/// the resumptions taken.
pub open spec fn drive_inverter(s: SingleState, waits: nat, out: RunStatus) -> (RunStatus, nat)
    decreases waits,
{
    let s1 = single_resume(s).0;
    if waits == 0 {
        (inverter_on_child(s1, ChildPoll::Ready(out)).1->Done_0, 1)
    } else {
        let s2 = inverter_on_child(s1, ChildPoll::Pending).0;
        let (x, n) = drive_inverter(s2, (waits - 1) as nat, out);
        (x, n + 1)
    }
}

/// A run of an `Inverter` fails exactly when its child succeeds, and succeeds
/// exactly when its child fails.
pub proof fn lemma_inverter_run(s: SingleState, waits: nat, out: RunStatus)
    requires
        s.wf(),
        s.phase == Phase::Idle,
    ensures
        drive_inverter(s, waits, out) == (out.flipped(), waits + 1),
        (drive_inverter(s, waits, out).0 == RunStatus::Failure) <==> (out == RunStatus::Success),
    decreases waits,
{
    if waits > 0 {
        let s2 = inverter_on_child(single_resume(s).0, ChildPoll::Pending).0;
        lemma_inverter_run(s2, (waits - 1) as nat, out);
    }
}

/// Drives an `InterruptAction` from state `s`: its child is suspended once for
/// each of `conds[i..]`, the condition reading `conds[i]` at that point, and
/// then finishes with `out`. The node's outcome, the resumptions taken, and
/// whether the child was abandoned while suspended.
pub open spec fn drive_interrupt(s: SingleState, conds: Seq<bool>, i: nat, out: RunStatus) -> (
    RunStatus,
    nat,
    bool,
)
    decreases conds.len() - i,
{
    let s1 = single_resume(s).0;
    if i >= conds.len() {
        (interrupt_on_child(s1, ChildPoll::Ready(out)).1->Done_0, 1, false)
    } else {
        let s2 = interrupt_on_child(s1, ChildPoll::Pending).0;
        let (s3, step3) = interrupt_on_condition(s2, conds[i as int]);
        match step3 {
            Step::Done(x) => (x, 1, true),
            _ => {
                let (x, n, abandoned) = drive_interrupt(s3, conds, i + 1, out);
                (x, n + 1, abandoned)
            },
        }
    }
}

proof fn lemma_interrupt_from(s: SingleState, conds: Seq<bool>, i: nat, out: RunStatus)
    requires
        interrupt_wf(s),
        s.phase == Phase::Idle,
        i <= conds.len(),
    ensures
        (forall|j: int| i <= j < conds.len() ==> conds[j]) ==> drive_interrupt(s, conds, i, out)
            == (out, (conds.len() - i + 1) as nat, false),
        forall|m: int|
            i <= m < conds.len() && !conds[m] && (forall|j: int| i <= j < m ==> conds[j])
                ==> drive_interrupt(s, conds, i, out) == (
                RunStatus::Failure,
                (m - i + 1) as nat,
                true,
            ),
    decreases conds.len() - i,
{
    if i < conds.len() {
        let s2 = interrupt_on_child(single_resume(s).0, ChildPoll::Pending).0;
        let s3 = interrupt_on_condition(s2, conds[i as int]).0;
        if conds[i as int] {
            lemma_interrupt_from(s3, conds, i + 1, out);
        }
        assert forall|m: int|
            i <= m < conds.len() && !conds[m] && (forall|j: int| i <= j < m ==> conds[j])
                implies drive_interrupt(s, conds, i, out) == (
            RunStatus::Failure,
            (m - i + 1) as nat,
            true,
        ) by {
            if m > i {
                assert(conds[i as int]);
            }
        }
    }
}

/// A run of an `InterruptAction` whose child is suspended once for each value
/// in `conds`, the condition reading that value, and then finishes with
/// `out`. If the condition holds at every suspension, the run ends with the
/// child's own outcome and nothing is abandoned. If it is first false at
/// suspension `m`, the run fails there and the suspended child is abandoned.
pub proof fn lemma_interrupt_run(s: SingleState, conds: Seq<bool>, out: RunStatus)
    requires
        interrupt_wf(s),
        s.is_fresh(),
    ensures
        (forall|j: int| 0 <= j < conds.len() ==> conds[j]) ==> drive_interrupt(s, conds, 0, out)
            == (out, conds.len() + 1, false),
        forall|m: int|
            0 <= m < conds.len() && !conds[m] && (forall|j: int| 0 <= j < m ==> conds[j])
                ==> drive_interrupt(s, conds, 0, out) == (RunStatus::Failure, (m + 1) as nat, true),
{
    lemma_interrupt_from(s, conds, 0, out);
}

} // verus!
