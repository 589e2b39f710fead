//! What becomes of a subsystem task once it ended.
use vstd::prelude::*;

use crate::errors::{SubsystemError, SubsystemFailure};
use crate::ErrTypeTraits;

verus! {

/// How the task of a subsystem ended, as reported by the runtime.
pub enum TaskOutcome<ErrType> {
    /// The subsystem function returned this value.
    Returned(Result<(), ErrType>),
    /// The task was aborted.
    Cancelled,
    /// The task panicked.
    Panicked,
}

/// The result of the subsystem `name` whose task ended with `outcome`.
pub open spec fn spec_subsystem_result<ErrType: ErrTypeTraits>(
    name: Seq<char>,
    outcome: TaskOutcome<ErrType>,
    result: Result<(), SubsystemError<ErrType>>,
) -> bool {
    match outcome {
        TaskOutcome::Returned(Ok(())) => result is Ok,
        TaskOutcome::Returned(Err(e)) => result matches Err(SubsystemError::Failed(n, failure)) && n@ == name
            && failure.0 == e,
        TaskOutcome::Cancelled => result matches Err(SubsystemError::Cancelled(n)) && n@ == name,
        TaskOutcome::Panicked => result matches Err(SubsystemError::Panicked(n)) && n@ == name,
    }
}

/// Maps the end of a subsystem task to the subsystem's result: success,
/// or the error that names the subsystem.
pub fn subsystem_result<ErrType: ErrTypeTraits>(
    name: &str,
    outcome: TaskOutcome<ErrType>,
) -> (result: Result<(), SubsystemError<ErrType>>)
    ensures
        spec_subsystem_result(name@, outcome, result),
{
    match outcome {
        TaskOutcome::Returned(Ok(())) => Ok(()),
        TaskOutcome::Returned(Err(e)) => Err(SubsystemError::Failed(name.to_string(), SubsystemFailure(e))),
        TaskOutcome::Cancelled => Err(SubsystemError::Cancelled(name.to_string())),
        TaskOutcome::Panicked => Err(SubsystemError::Panicked(name.to_string())),
    }
}

} // verus!
