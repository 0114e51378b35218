//! The kinds of composite nodes, and the names they carry.
use vstd::prelude::*;

use crate::groups::{is_optional_name, OPTIONAL_CHILD_NAME};

verus! {

/// The nodes that run a list of children.
#[derive(Debug, Clone, Copy, PartialEq, Eq, Structural)]
pub enum GroupBehaviorType {
    Sequence,
    PrioritySelector,
}

impl GroupBehaviorType {
    /// The name a node of this kind carries as a `Composite`.
    pub fn node_name(&self) -> (r: String)
        ensures
            *self == GroupBehaviorType::Sequence ==> r@ == "Sequence"@,
            *self == GroupBehaviorType::PrioritySelector ==> r@ == "PrioritySelector"@,
            !is_optional_name(r@),
    {
        proof {
            reveal_strlit("Sequence");
            reveal_strlit("PrioritySelector");
            reveal_strlit("DecoratorContinue");
            assert(OPTIONAL_CHILD_NAME@.len() != "Sequence"@.len());
            assert(OPTIONAL_CHILD_NAME@.len() != "PrioritySelector"@.len());
        }
        match self {
            GroupBehaviorType::Sequence => "Sequence".to_owned(),
            GroupBehaviorType::PrioritySelector => "PrioritySelector".to_owned(),
        }
    }
}

/// The nodes that gate one child on a condition read once.
#[derive(Debug, Clone, Copy, PartialEq, Eq, Structural)]
pub enum DecoratorType {
    Decorator,
    DecoratorContinue,
}

impl DecoratorType {
    /// The name a node of this kind carries as a `Composite`; only a
    /// `DecoratorContinue` is an optional child of a `PrioritySelector`.
    pub fn node_name(&self) -> (r: String)
        ensures
            *self == DecoratorType::Decorator ==> r@ == "Decorator"@,
            *self == DecoratorType::DecoratorContinue ==> r@ == "DecoratorContinue"@,
            is_optional_name(r@) <==> *self == DecoratorType::DecoratorContinue,
    {
        proof {
            reveal_strlit("Decorator");
            reveal_strlit("DecoratorContinue");
            assert(OPTIONAL_CHILD_NAME@.len() != "Decorator"@.len());
        }
        match self {
            DecoratorType::Decorator => "Decorator".to_owned(),
            DecoratorType::DecoratorContinue => OPTIONAL_CHILD_NAME.to_owned(),
        }
    }
}

} // verus!
