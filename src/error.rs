use vstd::prelude::*;

verus! {

/// Which call into the runtime failed.
#[derive(Clone, Copy, Debug, PartialEq, Eq, Structural)]
pub enum Step {
    CreateDevice,
    LoadModel,
    CreateSession,
    ReadModel,
    CreateBinding,
    Evaluate,
    CreateLanguage,
    CreateEngine,
    Recognize,
}

/// A runtime failure, with the step at which it came.
pub struct RuntimeError {
    pub step: Step,
    pub cause: windows::core::Error,
}

/// The failure of `step` with the runtime's error `cause`.
pub fn fail<T>(step: Step, cause: windows::core::Error) -> (r: Result<T, RuntimeError>)
    ensures
        r matches Err(e) && e.step == step && e.cause == cause,
{
    Err(RuntimeError { step, cause })
}

} // verus!
