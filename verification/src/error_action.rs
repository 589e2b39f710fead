use vstd::prelude::*;

verus! {

/// Possible ways a subsystem can react to errors.
///
/// An error will propagate upwards in the subsystem tree until
/// it reaches a subsystem that won't forward it to its parent.
///
/// If an error reaches the toplevel, a global shutdown will be initiated.
#[derive(Clone, Copy, Debug, PartialEq, Eq, Structural)]
pub enum ErrorAction {
    /// Pass the error on to the parent subsystem, but don't react to it.
    Forward,
    /// Store the error so it can be retrieved when the subsystem is joined,
    /// then initiate a shutdown of the subsystem and its children.
    /// Do not forward the error to the parent subsystem.
    CatchAndLocalShutdown,
}

} // verus!
