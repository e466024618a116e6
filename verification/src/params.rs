//! Parameter handles and what the shared state knows about each parameter.

use vstd::prelude::*;

verus! {

/// The stable handle by which plugin code refers to one of its parameters.
#[derive(Clone, Copy, Debug, PartialEq, Eq, Hash, Structural)]
pub struct ParamPtr {
    pub raw: u64,
}

/// What a parameter handle resolves to.
///
/// `hash` names the parameter towards the host, `id` names it in the gesture bookkeeping, and
/// `step_count` is the number of discrete steps of a stepped parameter.
#[derive(Clone, Copy, Debug, PartialEq, Eq, Structural)]
pub struct ParamInfo {
    pub hash: u32,
    pub id: u32,
    pub step_count: Option<usize>,
}

impl ParamInfo {
    /// The factor that turns a normalized value of this parameter into the host's plain
    /// value: the step count of a stepped parameter, 1 for a continuous one.
    pub open spec fn spec_step_scale(self) -> usize {
        match self.step_count {
            Some(steps) => steps,
            None => 1,
        }
    }

    #[verifier::when_used_as_spec(spec_step_scale)]
    pub fn step_scale(self) -> (scale: usize)
        ensures
            scale == self.spec_step_scale(),
    {
        match self.step_count {
            Some(steps) => steps,
            None => 1,
        }
    }
}

} // verus!
