//! The bookkeeping of subsystems: their error handling, identifiers,
//! registries of children and builders.
use vstd::prelude::*;

pub mod data;
pub mod error_collector;
pub mod identifier;
pub mod partial_shutdown_errors;
pub mod subsystem_builder;

pub use subsystem_builder::SubsystemBuilder;

use crate::errors::SubsystemErrorKind;
use crate::ErrorAction;

verus! {

/// How a subsystem reacts to failures and to panics of itself or its children.
#[derive(Clone, Copy, Debug, PartialEq, Eq, Structural)]
pub struct ErrorActions {
    /// The reaction to a returned error value (and to a cancellation).
    pub on_failure: ErrorAction,
    /// The reaction to a panic.
    pub on_panic: ErrorAction,
}

impl ErrorActions {
    /// The action that applies to an error of the given kind.
    pub open spec fn spec_action_for(self, kind: SubsystemErrorKind) -> ErrorAction {
        match kind {
            SubsystemErrorKind::Panicked => self.on_panic,
            _ => self.on_failure,
        }
    }

    /// Creates the error actions of a freshly built subsystem: both forward.
    pub fn new() -> (actions: Self)
        ensures
            actions.on_failure == ErrorAction::Forward,
            actions.on_panic == ErrorAction::Forward,
    {
        ErrorActions { on_failure: ErrorAction::Forward, on_panic: ErrorAction::Forward }
    }

    /// Selects the action that applies to an error of the given kind.
    pub fn action_for(&self, kind: SubsystemErrorKind) -> (action: ErrorAction)
        ensures
            action == self.spec_action_for(kind),
    {
        match kind {
            SubsystemErrorKind::Panicked => self.on_panic,
            _ => self.on_failure,
        }
    }
}

} // verus!
