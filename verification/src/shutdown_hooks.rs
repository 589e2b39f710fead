//! The default reactions to the stages of the shutdown lifecycle.
use vstd::prelude::*;

use crate::errors::SubsystemError;
use crate::ErrTypeTraits;

verus! {

/// The default reactions to shutdown lifecycle events: they log the event.
#[derive(Clone, Copy, Debug, PartialEq, Eq, Structural)]
pub struct DefaultShutdownHooks;

/// The log line after a requested shutdown completed: it mentions errors
/// exactly when some occurred.
pub fn shutdown_finished_message<ErrType: ErrTypeTraits>(errors: &[SubsystemError<ErrType>]) -> (message: &'static str)
    ensures
        errors@.len() == 0 ==> message@ == "Shutdown finished."@,
        errors@.len() > 0 ==> message@ == "Shutdown finished with errors."@,
{
    if errors.len() == 0 {
        "Shutdown finished."
    } else {
        "Shutdown finished with errors."
    }
}

} // verus!
