//! Shareable definitions of runs.
use vstd::prelude::*;

use crate::groups::{is_optional_name, OPTIONAL_CHILD_NAME};

verus! {

/// The name that `Composite::new_action` gives.
pub const ACTION_NAME: &'static str = "Action";

/// A named, shareable definition of a run.
///
/// `task_production` is the handle that starts a fresh, independent task each
/// time a driver invokes it; it is cheap to clone (a shared pointer to the
/// factory). The name is diagnostic, but a `PrioritySelector` also reads it to
/// tell optional children apart.
pub struct Composite<F> {
    pub name: String,
    pub task_production: F,
}

impl<F> Composite<F> {
    pub fn new(name: String, task_production: F) -> (r: Self)
        ensures
            r.name@ == name@,
            r.task_production == task_production,
    {
        Composite { name, task_production }
    }

    /// A leaf action, named `Action`; it is never an optional child.
    pub fn new_action(task_production: F) -> (r: Self)
        ensures
            r.name@ == ACTION_NAME@,
            !is_optional_name(r.name@),
            r.task_production == task_production,
    {
        proof {
            reveal_strlit("Action");
            reveal_strlit("DecoratorContinue");
            assert(ACTION_NAME@.len() != OPTIONAL_CHILD_NAME@.len());
        }
        Composite { name: ACTION_NAME.to_owned(), task_production }
    }
}

impl<F: Clone> Clone for Composite<F> {
    /// Shares the factory; the underlying logic is not copied.
    fn clone(&self) -> (r: Self)
        ensures
            r.name@ == self.name@,
            cloned(self.task_production, r.task_production),
    {
        Composite { name: self.name.clone(), task_production: self.task_production.clone() }
    }
}

} // verus!
