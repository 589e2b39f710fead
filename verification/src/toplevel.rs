//! The decisions of the toplevel while it handles shutdown requests.
//!
//! The toplevel waits until either all subsystems finished or a shutdown
//! was requested. In the latter case it waits for the subsystems to finish
//! within a timeout. The events come from the runtime; the decisions and
//! the final result are made here.
use vstd::prelude::*;

use crate::errors::{GracefulShutdownError, SubsystemError};
use crate::ErrTypeTraits;

verus! {

/// How the shutdown ended.
#[derive(Clone, Copy, Debug, PartialEq, Eq, Structural)]
pub enum ShutdownOutcome {
    /// All subsystems finished (within the timeout, if one applied).
    Completed,
    /// The shutdown did not finish within the timeout.
    TimedOut,
}

/// The phases of the toplevel.
#[derive(Clone, Copy, Debug, PartialEq, Eq, Structural)]
pub enum ToplevelPhase {
    /// Subsystems run and no shutdown was requested yet.
    Running,
    /// A shutdown was requested; the subsystems are being waited for.
    ShuttingDown,
    /// The toplevel is done.
    Finished(ShutdownOutcome),
}

/// What the toplevel can observe.
#[derive(Clone, Copy, Debug, PartialEq, Eq, Structural)]
pub enum ToplevelEvent {
    /// All subsystems have finished.
    SubsystemsFinished,
    /// A shutdown was requested.
    ShutdownRequested,
    /// The shutdown timeout elapsed.
    TimeoutElapsed,
}

/// What the toplevel does in reaction to an event.
#[derive(Clone, Copy, Debug, PartialEq, Eq, Structural)]
pub enum ToplevelAction {
    /// Report that all subsystems finished without a shutdown request,
    /// request a shutdown for good measure and conclude.
    ReportSubsystemsFinished,
    /// Report the shutdown request and start waiting with the timeout.
    ReportShutdownRequested,
    /// Report that the shutdown finished in time and conclude.
    ReportShutdownFinished,
    /// Report the timeout and conclude.
    ReportShutdownTimeout,
    /// Nothing to do.
    Ignore,
}

/// The reaction of the toplevel in `phase` to `event`.
pub open spec fn spec_step(phase: ToplevelPhase, event: ToplevelEvent) -> (ToplevelPhase, ToplevelAction) {
    match (phase, event) {
        (ToplevelPhase::Running, ToplevelEvent::SubsystemsFinished) => (
            ToplevelPhase::Finished(ShutdownOutcome::Completed),
            ToplevelAction::ReportSubsystemsFinished,
        ),
        (ToplevelPhase::Running, ToplevelEvent::ShutdownRequested) => (
            ToplevelPhase::ShuttingDown,
            ToplevelAction::ReportShutdownRequested,
        ),
        (ToplevelPhase::ShuttingDown, ToplevelEvent::SubsystemsFinished) => (
            ToplevelPhase::Finished(ShutdownOutcome::Completed),
            ToplevelAction::ReportShutdownFinished,
        ),
        (ToplevelPhase::ShuttingDown, ToplevelEvent::TimeoutElapsed) => (
            ToplevelPhase::Finished(ShutdownOutcome::TimedOut),
            ToplevelAction::ReportShutdownTimeout,
        ),
        _ => (phase, ToplevelAction::Ignore),
    }
}

/// Decides the next phase and the action for `event` in `phase`.
pub fn step(phase: ToplevelPhase, event: ToplevelEvent) -> (next: (ToplevelPhase, ToplevelAction))
    ensures
        next == spec_step(phase, event),
{
    match (phase, event) {
        (ToplevelPhase::Running, ToplevelEvent::SubsystemsFinished) => (
            ToplevelPhase::Finished(ShutdownOutcome::Completed),
            ToplevelAction::ReportSubsystemsFinished,
        ),
        (ToplevelPhase::Running, ToplevelEvent::ShutdownRequested) => (
            ToplevelPhase::ShuttingDown,
            ToplevelAction::ReportShutdownRequested,
        ),
        (ToplevelPhase::ShuttingDown, ToplevelEvent::SubsystemsFinished) => (
            ToplevelPhase::Finished(ShutdownOutcome::Completed),
            ToplevelAction::ReportShutdownFinished,
        ),
        (ToplevelPhase::ShuttingDown, ToplevelEvent::TimeoutElapsed) => (
            ToplevelPhase::Finished(ShutdownOutcome::TimedOut),
            ToplevelAction::ReportShutdownTimeout,
        ),
        _ => (phase, ToplevelAction::Ignore),
    }
}

/// The result of a finished toplevel, given how the shutdown ended and
/// the errors collected from the subsystems.
pub open spec fn spec_conclusion<ErrType: ErrTypeTraits>(
    outcome: ShutdownOutcome,
    errors: Seq<SubsystemError<ErrType>>,
) -> Option<(bool, Seq<SubsystemError<ErrType>>)> {
    match outcome {
        ShutdownOutcome::TimedOut => Some((true, errors)),
        ShutdownOutcome::Completed => if errors.len() == 0 {
            None
        } else {
            Some((false, errors))
        },
    }
}

/// Produces the result of the shutdown handling.
///
/// A timeout always yields `ShutdownTimeout` with the errors collected so
/// far; a completed shutdown yields `Ok` without errors and
/// `SubsystemsFailed` with them.
pub fn conclude<ErrType: ErrTypeTraits>(
    outcome: ShutdownOutcome,
    errors: Vec<SubsystemError<ErrType>>,
) -> (result: Result<(), GracefulShutdownError<ErrType>>)
    ensures
        match spec_conclusion(outcome, errors@) {
            None => result is Ok,
            Some((true, e)) => result matches Err(GracefulShutdownError::ShutdownTimeout(r)) && r@ == e,
            Some((false, e)) => result matches Err(GracefulShutdownError::SubsystemsFailed(r)) && r@ == e,
        },
        outcome == ShutdownOutcome::TimedOut ==> (result matches Err(
            GracefulShutdownError::ShutdownTimeout(r),
        ) && r@ == errors@),
        outcome == ShutdownOutcome::Completed && errors@.len() == 0 ==> result is Ok,
        outcome == ShutdownOutcome::Completed && errors@.len() > 0 ==> (result matches Err(
            GracefulShutdownError::SubsystemsFailed(r),
        ) && r@ == errors@),
{
    match outcome {
        ShutdownOutcome::TimedOut => Err(GracefulShutdownError::ShutdownTimeout(errors)),
        ShutdownOutcome::Completed => if errors.len() == 0 {
            Ok(())
        } else {
            Err(GracefulShutdownError::SubsystemsFailed(errors))
        },
    }
}

/// Once the toplevel is finished, no event changes its phase and no action
/// follows.
pub proof fn law_finished_is_final(outcome: ShutdownOutcome, event: ToplevelEvent)
    ensures
        spec_step(ToplevelPhase::Finished(outcome), event) == (
            ToplevelPhase::Finished(outcome),
            ToplevelAction::Ignore,
        ),
{
}

/// A timeout can only end a shutdown that was requested: while running,
/// an elapsed timeout is ignored.
pub proof fn law_timeout_needs_shutdown_request(phase: ToplevelPhase, event: ToplevelEvent)
    requires
        spec_step(phase, event).0 == ToplevelPhase::Finished(ShutdownOutcome::TimedOut),
        !(phase is Finished),
    ensures
        phase == ToplevelPhase::ShuttingDown,
        event == ToplevelEvent::TimeoutElapsed,
{
}

/// The handling of shutdown requests succeeds exactly when the shutdown
/// completed and no subsystem error was collected.
pub proof fn law_success_iff_completed_without_errors<ErrType: ErrTypeTraits>(
    outcome: ShutdownOutcome,
    errors: Seq<SubsystemError<ErrType>>,
)
    ensures
        spec_conclusion(outcome, errors) is None <==> (outcome == ShutdownOutcome::Completed
            && errors.len() == 0),
{
}

/// A failed shutdown reports exactly the errors collected from the
/// subsystems, in the order they were collected, whichever way it failed;
/// and a timeout is always a failure, even when no subsystem failed.
pub proof fn law_failure_carries_all_collected_errors<ErrType: ErrTypeTraits>(
    outcome: ShutdownOutcome,
    errors: Seq<SubsystemError<ErrType>>,
)
    ensures
        spec_conclusion(outcome, errors) matches Some((_, reported)) ==> reported == errors,
        outcome == ShutdownOutcome::TimedOut ==> (spec_conclusion(outcome, errors) matches Some(
            (timed_out, _),
        ) && timed_out),
        outcome == ShutdownOutcome::Completed ==> !(spec_conclusion(outcome, errors) matches Some(
            (true, _),
        )),
{
}

} // verus!
