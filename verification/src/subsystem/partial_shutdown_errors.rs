//! The errors of a partial shutdown, without the failures themselves.
use vstd::prelude::*;

verus! {

/// This enum contains all the possible errors that a partial shutdown
/// could cause.
#[derive(Debug, PartialEq, Eq, Structural)]
pub enum PartialShutdownError {
    /// At least one subsystem caused an error.
    SubsystemFailed,
    /// The given nested subsystem does not seem to be a child of
    /// the parent subsystem.
    SubsystemNotFound,
    /// A partial shutdown can not be performed because the entire program
    /// is already shutting down.
    AlreadyShuttingDown,
}

impl PartialShutdownError {
    /// The human readable description of this error.
    pub fn to_string(&self) -> (text: String)
        ensures
            text@ == match self {
                PartialShutdownError::SubsystemFailed => "at least one subsystem returned an error"@,
                PartialShutdownError::SubsystemNotFound => "unable to find nested subsystem in given subsystem"@,
                PartialShutdownError::AlreadyShuttingDown => "unable to perform partial shutdown, the program is already shutting down"@,
            },
    {
        match self {
            PartialShutdownError::SubsystemFailed => "at least one subsystem returned an error".to_string(),
            PartialShutdownError::SubsystemNotFound => "unable to find nested subsystem in given subsystem".to_string(),
            PartialShutdownError::AlreadyShuttingDown => "unable to perform partial shutdown, the program is already shutting down".to_string(),
        }
    }
}

} // verus!
