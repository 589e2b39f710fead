//! Verified core of a graceful-shutdown library for subsystem trees.
use vstd::prelude::*;

pub mod err_types;
pub mod error_action;
pub mod errors;
pub mod exit_state;
pub mod runner;
pub mod shutdown_hooks;
pub mod shutdown_token;
pub mod subsystem;
pub mod toplevel;
pub mod utils;

pub use err_types::{Direct, ErrorHolder, Wrapped};
pub use error_action::ErrorAction;
pub use errors::{SubsystemError, SubsystemFailure};
pub use shutdown_hooks::DefaultShutdownHooks;
pub use subsystem::SubsystemBuilder;

use crate::utils::push_str;

verus! {

/// The error type used by default for subsystem failures.
pub type BoxedError = Box<dyn std::error::Error + Send + Sync + 'static>;

/// A collection of traits a custom error has to fulfill in order to be
/// usable as the error type of a subsystem tree.
pub trait ErrTypeTraits: std::fmt::Debug + std::fmt::Display + 'static + Send + Sync + Sized {}

impl<T> ErrTypeTraits for T where T: std::fmt::Debug + std::fmt::Display + 'static + Send + Sync + Sized {}

/// The log line of the default error hook for an uncaught subsystem error.
///
/// For a failure, the line starts with the subsystem's name and continues
/// with the error's own description.
pub fn default_on_subsystem_error<ErrType: ErrTypeTraits>(e: &SubsystemError<ErrType>) -> (line: String)
    ensures
        match e {
            SubsystemError::Panicked(name) => line@ == "Uncaught panic from subsystem '"@ + name@ + "'."@,
            SubsystemError::Cancelled(name) => line@ == "Subsystem cancelled: '"@ + name@ + "'"@,
            SubsystemError::Failed(name, failure) => exists|text: String|
                #![trigger vstd::string::to_string_from_display_ensures::<ErrType>(&failure.0, text)]
                vstd::string::to_string_from_display_ensures::<ErrType>(&failure.0, text) && line@
                    == "Uncaught error from subsystem '"@ + name@ + "': "@ + text@,
        },
{
    match e {
        SubsystemError::Panicked(name) => {
            let mut line = "Uncaught panic from subsystem '".to_string();
            push_str(&mut line, name.as_str());
            push_str(&mut line, "'.");
            line
        },
        SubsystemError::Cancelled(name) => default_on_subsystem_cancelled(name.as_str()),
        SubsystemError::Failed(name, failure) => {
            let text = failure.0.to_string();
            let mut line = "Uncaught error from subsystem '".to_string();
            push_str(&mut line, name.as_str());
            push_str(&mut line, "': ");
            push_str(&mut line, text.as_str());
            line
        },
    }
}

/// The log line of the default cancellation hook.
pub fn default_on_subsystem_cancelled(name: &str) -> (line: String)
    ensures
        line@ == "Subsystem cancelled: '"@ + name@ + "'"@,
{
    let mut line = "Subsystem cancelled: '".to_string();
    push_str(&mut line, name);
    push_str(&mut line, "'");
    line
}

} // verus!
