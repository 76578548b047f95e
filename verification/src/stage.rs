//! The common shape of the pipeline's stages.
use vstd::prelude::*;

verus! {

/// One step of the pipeline: a named transformation of its input. Each
/// implementation states in its own contract what `process` returns.
pub trait Stage {
    type Input;
    type Output;

    /// The stage's name, in capitals.
    fn name(&self) -> &'static str;

    /// Runs the stage on `input`.
    fn process(&self, input: Self::Input) -> Self::Output;
}

} // verus!
