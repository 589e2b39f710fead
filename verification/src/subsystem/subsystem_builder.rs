//! Configuration of a subsystem before it gets started.
use vstd::prelude::*;

use super::ErrorActions;
use crate::ErrorAction;

verus! {

/// Stands for the default reaction to a cancelled subsystem: a warning.
#[derive(Clone, Copy, Debug, PartialEq, Eq, Structural)]
pub struct DefaultCancelledHook;

/// Configures a subsystem before it gets started.
///
/// `Subsys` is the subsystem function, `Hook` what is called when the
/// subsystem gets cancelled.
pub struct SubsystemBuilder<Subsys, Hook = DefaultCancelledHook> {
    name: String,
    subsystem: Subsys,
    failure_action: ErrorAction,
    panic_action: ErrorAction,
    detached: bool,
    on_subsystem_cancelled: Hook,
}

impl<Subsys, Hook> SubsystemBuilder<Subsys, Hook> {
    /// The name of the subsystem.
    pub closed spec fn spec_name(&self) -> Seq<char> {
        self.name@
    }

    /// The subsystem function.
    pub closed spec fn spec_subsystem(&self) -> Subsys {
        self.subsystem
    }

    /// The reaction to failures.
    pub closed spec fn spec_failure_action(&self) -> ErrorAction {
        self.failure_action
    }

    /// The reaction to panics.
    pub closed spec fn spec_panic_action(&self) -> ErrorAction {
        self.panic_action
    }

    /// Whether the subsystem is detached from its parent's shutdown.
    pub closed spec fn spec_detached(&self) -> bool {
        self.detached
    }

    /// The hook called on cancellation.
    pub closed spec fn spec_hook(&self) -> Hook {
        self.on_subsystem_cancelled
    }

    /// Sets the way this subsystem should react to failures,
    /// meaning if it or one of its children return an `Err` value.
    pub fn on_failure(self, action: ErrorAction) -> (builder: Self)
        ensures
            builder.spec_failure_action() == action,
            builder.spec_name() == self.spec_name(),
            builder.spec_subsystem() == self.spec_subsystem(),
            builder.spec_panic_action() == self.spec_panic_action(),
            builder.spec_detached() == self.spec_detached(),
            builder.spec_hook() == self.spec_hook(),
    {
        let mut builder = self;
        builder.failure_action = action;
        builder
    }

    /// Sets the way this subsystem should react if it or one
    /// of its children panic.
    pub fn on_panic(self, action: ErrorAction) -> (builder: Self)
        ensures
            builder.spec_panic_action() == action,
            builder.spec_name() == self.spec_name(),
            builder.spec_subsystem() == self.spec_subsystem(),
            builder.spec_failure_action() == self.spec_failure_action(),
            builder.spec_detached() == self.spec_detached(),
            builder.spec_hook() == self.spec_hook(),
    {
        let mut builder = self;
        builder.panic_action = action;
        builder
    }

    /// Detaches the subsystem from the parent, causing a shutdown request to not
    /// be propagated from the parent to the child automatically.
    pub fn detached(self) -> (builder: Self)
        ensures
            builder.spec_detached(),
            builder.spec_name() == self.spec_name(),
            builder.spec_subsystem() == self.spec_subsystem(),
            builder.spec_failure_action() == self.spec_failure_action(),
            builder.spec_panic_action() == self.spec_panic_action(),
            builder.spec_hook() == self.spec_hook(),
    {
        let mut builder = self;
        builder.detached = true;
        builder
    }

    /// Sets a custom hook to be called when the subsystem is cancelled.
    pub fn on_subsystem_cancelled<NewHook>(self, hook: NewHook) -> (builder: SubsystemBuilder<Subsys, NewHook>)
        ensures
            builder.spec_hook() == hook,
            builder.spec_name() == self.spec_name(),
            builder.spec_subsystem() == self.spec_subsystem(),
            builder.spec_failure_action() == self.spec_failure_action(),
            builder.spec_panic_action() == self.spec_panic_action(),
            builder.spec_detached() == self.spec_detached(),
    {
        SubsystemBuilder {
            name: self.name,
            subsystem: self.subsystem,
            failure_action: self.failure_action,
            panic_action: self.panic_action,
            detached: self.detached,
            on_subsystem_cancelled: hook,
        }
    }

    /// The name of the subsystem.
    pub fn name(&self) -> (name: &str)
        ensures
            name@ == self.spec_name(),
    {
        self.name.as_str()
    }

    /// The error actions the subsystem starts with.
    pub fn error_actions(&self) -> (actions: ErrorActions)
        ensures
            actions.on_failure == self.spec_failure_action(),
            actions.on_panic == self.spec_panic_action(),
    {
        ErrorActions { on_failure: self.failure_action, on_panic: self.panic_action }
    }

    /// Whether the subsystem is detached from its parent's shutdown.
    pub fn is_detached(&self) -> (detached: bool)
        ensures
            detached == self.spec_detached(),
    {
        self.detached
    }

    /// Splits the builder into the name, the subsystem function, the error
    /// actions, the detached flag and the cancellation hook.
    pub fn into_parts(self) -> (parts: (String, Subsys, ErrorActions, bool, Hook))
        ensures
            parts.0@ == self.spec_name(),
            parts.1 == self.spec_subsystem(),
            parts.2.on_failure == self.spec_failure_action(),
            parts.2.on_panic == self.spec_panic_action(),
            parts.3 == self.spec_detached(),
            parts.4 == self.spec_hook(),
    {
        let actions = ErrorActions { on_failure: self.failure_action, on_panic: self.panic_action };
        (self.name, self.subsystem, actions, self.detached, self.on_subsystem_cancelled)
    }
}

impl<Subsys> SubsystemBuilder<Subsys, DefaultCancelledHook> {
    /// Creates a new builder from a given subsystem function.
    ///
    /// The subsystem forwards failures and panics, is attached to its
    /// parent and gets the default cancellation hook.
    pub fn new(name: &str, subsystem: Subsys) -> (builder: Self)
        ensures
            builder.spec_name() == name@,
            builder.spec_subsystem() == subsystem,
            builder.spec_failure_action() == ErrorAction::Forward,
            builder.spec_panic_action() == ErrorAction::Forward,
            !builder.spec_detached(),
            builder.spec_hook() == DefaultCancelledHook,
    {
        SubsystemBuilder {
            name: name.to_string(),
            subsystem,
            failure_action: ErrorAction::Forward,
            panic_action: ErrorAction::Forward,
            detached: false,
            on_subsystem_cancelled: DefaultCancelledHook,
        }
    }
}

} // verus!
