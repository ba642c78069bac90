//! Why a worker refused an input.

use vstd::prelude::*;

verus! {

/// A worker was handed something that its current phase does not wait for.
#[derive(Clone, Copy, Debug, PartialEq, Eq, Structural)]
pub enum StepError {
    /// The input answers a command that the worker did not give last.
    UnexpectedInput,
}

} // verus!
