//! All the errors that can be caused by this crate.
use vstd::prelude::*;

use std::sync::Arc;

use crate::utils::push_str;
use crate::ErrTypeTraits;

verus! {

/// This enum contains all the possible errors that could be returned
/// by the handling of shutdown requests at the toplevel.
#[derive(Debug)]
pub enum GracefulShutdownError<ErrType: ErrTypeTraits = crate::BoxedError> {
    /// At least one subsystem caused an error.
    SubsystemsFailed(Vec<SubsystemError<ErrType>>),
    /// The shutdown did not finish within the given timeout.
    ShutdownTimeout(Vec<SubsystemError<ErrType>>),
}

impl<ErrType: ErrTypeTraits> GracefulShutdownError<ErrType> {
    /// The subsystem errors carried by this error.
    pub open spec fn related(&self) -> Seq<SubsystemError<ErrType>> {
        match self {
            GracefulShutdownError::SubsystemsFailed(rel) => rel@,
            GracefulShutdownError::ShutdownTimeout(rel) => rel@,
        }
    }

    /// Converts the error into a list of subsystem errors that occurred.
    pub fn into_subsystem_errors(self) -> (errors: Vec<SubsystemError<ErrType>>)
        ensures
            errors@ == self.related(),
    {
        match self {
            GracefulShutdownError::SubsystemsFailed(rel) => rel,
            GracefulShutdownError::ShutdownTimeout(rel) => rel,
        }
    }

    /// Queries the list of subsystem errors that occurred.
    pub fn get_subsystem_errors(&self) -> (errors: &Vec<SubsystemError<ErrType>>)
        ensures
            errors@ == self.related(),
    {
        match self {
            GracefulShutdownError::SubsystemsFailed(rel) => rel,
            GracefulShutdownError::ShutdownTimeout(rel) => rel,
        }
    }

    /// The human readable description of this error.
    pub fn to_string(&self) -> (text: String)
        ensures
            text@ == match self {
                GracefulShutdownError::SubsystemsFailed(_) => "at least one subsystem returned an error"@,
                GracefulShutdownError::ShutdownTimeout(_) => "shutdown timed out"@,
            },
    {
        match self {
            GracefulShutdownError::SubsystemsFailed(_) => "at least one subsystem returned an error".to_string(),
            GracefulShutdownError::ShutdownTimeout(_) => "shutdown timed out".to_string(),
        }
    }
}

/// This enum contains all the possible errors that a partial shutdown
/// could cause.
#[derive(Debug)]
pub enum PartialShutdownError<ErrType: ErrTypeTraits = crate::BoxedError> {
    /// At least one subsystem caused an error.
    SubsystemsFailed(Vec<SubsystemError<ErrType>>),
    /// The given nested subsystem does not seem to be a child of
    /// the parent subsystem.
    SubsystemNotFound,
    /// A partial shutdown can not be performed because the entire program
    /// is already shutting down.
    AlreadyShuttingDown,
}

impl<ErrType: ErrTypeTraits> PartialShutdownError<ErrType> {
    /// The human readable description of this error.
    pub fn to_string(&self) -> (text: String)
        ensures
            text@ == match self {
                PartialShutdownError::SubsystemsFailed(_) => "at least one subsystem returned an error"@,
                PartialShutdownError::SubsystemNotFound => "unable to find nested subsystem in given subsystem"@,
                PartialShutdownError::AlreadyShuttingDown => "unable to perform partial shutdown, the program is already shutting down"@,
            },
    {
        match self {
            PartialShutdownError::SubsystemsFailed(_) => "at least one subsystem returned an error".to_string(),
            PartialShutdownError::SubsystemNotFound => "unable to find nested subsystem in given subsystem".to_string(),
            PartialShutdownError::AlreadyShuttingDown => "unable to perform partial shutdown, the program is already shutting down".to_string(),
        }
    }
}

/// This enum contains all the possible errors that joining a subsystem
/// could cause.
#[derive(Debug)]
pub enum SubsystemJoinError<ErrType: ErrTypeTraits = crate::BoxedError> {
    /// At least one subsystem caused an error.
    SubsystemsFailed(Arc<Vec<SubsystemError<ErrType>>>),
}

impl<ErrType: ErrTypeTraits> SubsystemJoinError<ErrType> {
    /// The human readable description of this error.
    pub fn to_string(&self) -> (text: String)
        ensures
            text@ == "at least one subsystem returned an error"@,
    {
        "at least one subsystem returned an error".to_string()
    }
}

/// A wrapper type that carries the errors returned by subsystems.
#[derive(Debug)]
pub struct SubsystemFailure<ErrType>(pub ErrType);

impl<ErrType> std::ops::Deref for SubsystemFailure<ErrType> {
    type Target = ErrType;

    fn deref(&self) -> (e: &ErrType)
        ensures
            *e == self.0,
    {
        &self.0
    }
}

impl<ErrType> SubsystemFailure<ErrType> {
    /// Retrieves the containing error.
    pub fn get_error(&self) -> (e: &ErrType)
        ensures
            *e == self.0,
    {
        &self.0
    }

    /// Converts the object into the containing error.
    pub fn into_error(self) -> (e: ErrType)
        ensures
            e == self.0,
    {
        self.0
    }
}

/// The three ways in which a subsystem can end abnormally.
#[derive(Clone, Copy, Debug, PartialEq, Eq, Structural)]
pub enum SubsystemErrorKind {
    /// The subsystem returned an error value.
    Failed,
    /// The subsystem was cancelled.
    Cancelled,
    /// The subsystem panicked.
    Panicked,
}

/// This enum contains all the possible errors that a subsystem execution
/// could cause.
///
/// Every error carries the name of the subsystem as the first argument.
#[derive(Debug)]
pub enum SubsystemError<ErrType: ErrTypeTraits = crate::BoxedError> {
    /// The subsystem returned an error value. Carries the actual error as the second argument.
    Failed(String, SubsystemFailure<ErrType>),
    /// The subsystem was cancelled. Should only happen if the shutdown timeout is exceeded.
    Cancelled(String),
    /// The subsystem panicked.
    Panicked(String),
}

impl<ErrType: ErrTypeTraits> SubsystemError<ErrType> {
    /// The name of the subsystem that caused the error.
    pub open spec fn spec_name(&self) -> Seq<char> {
        match self {
            SubsystemError::Failed(name, _) => name@,
            SubsystemError::Cancelled(name) => name@,
            SubsystemError::Panicked(name) => name@,
        }
    }

    /// Which of the three ways of ending abnormally this error describes.
    pub open spec fn spec_kind(&self) -> SubsystemErrorKind {
        match self {
            SubsystemError::Failed(_, _) => SubsystemErrorKind::Failed,
            SubsystemError::Cancelled(_) => SubsystemErrorKind::Cancelled,
            SubsystemError::Panicked(_) => SubsystemErrorKind::Panicked,
        }
    }

    /// Retrieves the name of the subsystem that caused the error.
    pub fn name(&self) -> (name: &str)
        ensures
            name@ == self.spec_name(),
    {
        match self {
            SubsystemError::Failed(name, _) => name.as_str(),
            SubsystemError::Cancelled(name) => name.as_str(),
            SubsystemError::Panicked(name) => name.as_str(),
        }
    }

    /// Retrieves the kind of the error.
    pub fn kind(&self) -> (kind: SubsystemErrorKind)
        ensures
            kind == self.spec_kind(),
    {
        match self {
            SubsystemError::Failed(_, _) => SubsystemErrorKind::Failed,
            SubsystemError::Cancelled(_) => SubsystemErrorKind::Cancelled,
            SubsystemError::Panicked(_) => SubsystemErrorKind::Panicked,
        }
    }

    /// The human readable description of this error.
    pub fn to_string(&self) -> (text: String)
        ensures
            text@ == match self {
                SubsystemError::Failed(name, _) => "Error in subsystem '"@ + name@ + "'"@,
                SubsystemError::Cancelled(name) => "Subsystem '"@ + name@ + "' was aborted"@,
                SubsystemError::Panicked(name) => "Subsystem '"@ + name@ + "' panicked"@,
            },
    {
        match self {
            SubsystemError::Failed(name, _) => {
                let mut text = "Error in subsystem '".to_string();
                push_str(&mut text, name.as_str());
                push_str(&mut text, "'");
                text
            },
            SubsystemError::Cancelled(name) => {
                let mut text = "Subsystem '".to_string();
                push_str(&mut text, name.as_str());
                push_str(&mut text, "' was aborted");
                text
            },
            SubsystemError::Panicked(name) => {
                let mut text = "Subsystem '".to_string();
                push_str(&mut text, name.as_str());
                push_str(&mut text, "' panicked");
                text
            },
        }
    }
}

/// The error that happens when a task gets cancelled through a shutdown request.
#[derive(Debug)]
pub struct CancelledByShutdown;

impl CancelledByShutdown {
    /// The human readable description of this error.
    pub fn to_string(&self) -> (text: String)
        ensures
            text@ == "A shutdown request caused the cancellation"@,
    {
        "A shutdown request caused the cancellation".to_string()
    }
}

} // verus!
