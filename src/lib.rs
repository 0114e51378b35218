//! A behaviour-tree execution engine.
//!
//! Every node of a tree is a resumable state machine. A driver resumes a node,
//! carries out the [`Step`] it asks for (evaluate the node's condition, start or
//! poll a child task) and hands the result back, until the node reports a
//! terminal [`RunStatus`]. The machines never block and never suspend for their
//! own sake: they only relay the suspension of a child, and they ask to be
//! resumed again at once whenever they did work the scheduler cannot know of.
pub mod composite;
pub mod decorators;
pub mod groups;
pub mod kinds;
pub mod laws;
pub mod single;
pub mod status;
pub mod step;

pub use composite::Composite;
pub use decorators::{Decorator, DecoratorContinue, InterruptAction};
pub use groups::{PrioritySelector, Sequence};
pub use kinds::{DecoratorType, GroupBehaviorType};
pub use single::{Inverter, UntilFailure, UntilSuccess};
pub use status::RunStatus;
pub use step::{ChildPoll, Phase, Step};
