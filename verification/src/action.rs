//! Actions a test step can carry out.

use vstd::prelude::*;

verus! {

/// The result of an action.
pub struct ActionResult {
}

/// The argument of an action, which knows how to carry it out.
pub trait ActionArgument {
    fn run(self);
}

/// An action of a test step.
pub enum Action {
    Mqtt(Box<dyn ActionArgument>),
}

} // verus!
