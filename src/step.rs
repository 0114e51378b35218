//! The vocabulary between a node and its driver.
use vstd::prelude::*;

use crate::status::RunStatus;

verus! {

/// What a node asks its driver to do next.
///
/// A driver resumes a node, carries out the step it gets back, and hands the
/// result to the node, until the node answers `Done`, `Wait` or `Reschedule`;
/// that answer ends one resumption.
#[derive(Debug, Clone, Copy, PartialEq, Eq, Structural)]
pub enum Step {
    /// Evaluate the node's condition and hand the answer to `on_condition`.
    CheckCondition,
    /// Build a fresh task from the child at this index, poll it once and hand
    /// the result to `on_child`.
    Start(usize),
    /// Poll the child task already held and hand the result to `on_child`.
    PollChild,
    /// The node has finished with this outcome. A child task still held is
    /// abandoned, and the node is never resumed again.
    Done(RunStatus),
    /// Still running: the child task that is suspended will arrange the next
    /// resumption.
    Wait,
    /// Still running, with work ready now: ask the scheduler to resume the node
    /// again at once.
    Reschedule,
}

/// What one poll of a child task gave. A driver drops a child task once it
/// has reported `Ready`.
#[derive(Debug, Clone, Copy, PartialEq, Eq, Structural)]
pub enum ChildPoll {
    Ready(RunStatus),
    Pending,
}

/// Where a node stands between two calls from its driver.
#[derive(Debug, Clone, Copy, PartialEq, Eq, Structural)]
pub enum Phase {
    /// Waiting to be resumed.
    Idle,
    /// Waiting for the value of its condition.
    AwaitCondition,
    /// Waiting for the result of polling its child.
    AwaitChild,
    /// Finished with this outcome; terminal.
    Finished(RunStatus),
}

} // verus!
