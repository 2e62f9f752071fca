//! Status codes and the error taxonomy.

use vstd::prelude::*;

verus! {

/// The result of an execution step, as the engine reports it.
#[derive(Clone, Copy, Debug, PartialEq, Eq, Structural)]
pub enum Status {
    Success,
    Failure,
}

/// Everything that can go wrong, by cause.
#[derive(Clone, Copy, Debug, PartialEq, Eq, Structural)]
pub enum Error {
    /// The buffer does not start like a model, or has another schema version.
    InvalidModel,
    /// The allocation plan contradicts itself.
    InvalidGraph,
    /// The allocation plan needs more memory than the arena declares.
    InsufficientArena,
    /// The graph uses an operator that the resolver does not hold.
    UnsupportedOperator { op_code: u32 },
    /// No input or output tensor has the index asked for.
    OutOfRangeTensorIndex,
    /// A tensor was asked for as another datatype than it declares.
    TypeMismatch,
    /// A kernel failed, or the invocation protocol was broken.
    InvokeFailure,
}

impl Status {
    /// Whether the step succeeded.
    pub fn is_success(self) -> (yes: bool)
        ensures
            yes == (self == Status::Success),
    {
        match self {
            Status::Success => true,
            Status::Failure => false,
        }
    }
}

} // verus!
