//! Collects the errors that a subsystem caught.
use vstd::prelude::*;

use std::sync::Arc;

use crate::errors::{SubsystemError, SubsystemJoinError};
use crate::ErrTypeTraits;

verus! {

/// `Arc::clone`: makes another pointer to the same allocation, so the clone
/// holds the same value.
#[verifier::external_body]
fn share<T>(shared: &Arc<T>) -> (clone: Arc<T>)
    ensures
        clone == *shared,
{
    Arc::clone(shared)
}

/// Collects the errors that a subsystem caught until the subsystem is
/// joined; from then on the collected list is fixed.
pub enum ErrorCollector<ErrType: ErrTypeTraits> {
    /// Errors are still arriving.
    Collecting,
    /// The final list of errors.
    Finished(Arc<Vec<SubsystemError<ErrType>>>),
}

impl<ErrType: ErrTypeTraits> ErrorCollector<ErrType> {
    /// Creates a collector that is still collecting.
    pub fn new() -> (collector: Self)
        ensures
            collector is Collecting,
    {
        ErrorCollector::Collecting
    }

    /// Closes the collector with the errors `received` so far and returns
    /// the final list.
    ///
    /// The first call fixes the list; later calls return the same list and
    /// ignore what they are given.
    pub fn finish(&mut self, received: Vec<SubsystemError<ErrType>>) -> (errors: Arc<Vec<SubsystemError<ErrType>>>)
        ensures
            *final(self) == ErrorCollector::Finished(errors),
            *old(self) is Collecting ==> (*errors)@ == received@,
            *old(self) is Finished ==> errors == (*old(self))->Finished_0,
    {
        match self {
            ErrorCollector::Collecting => {
                let errors = Arc::new(received);
                *self = ErrorCollector::Finished(share(&errors));
                errors
            },
            ErrorCollector::Finished(errors) => share(errors),
        }
    }

    /// Whether the list of errors is fixed.
    pub fn is_finished(&self) -> (finished: bool)
        ensures
            finished == self is Finished,
    {
        match self {
            ErrorCollector::Collecting => false,
            ErrorCollector::Finished(_) => true,
        }
    }
}

/// The result of joining a subsystem whose caught errors are `errors`:
/// `Ok` if there are none.
pub fn join_result<ErrType: ErrTypeTraits>(errors: Arc<Vec<SubsystemError<ErrType>>>) -> (result: Result<(), SubsystemJoinError<ErrType>>)
    ensures
        (*errors)@.len() == 0 ==> result is Ok,
        (*errors)@.len() > 0 ==> result == Err::<(), SubsystemJoinError<ErrType>>(SubsystemJoinError::SubsystemsFailed(errors)),
{
    if errors.len() == 0 {
        Ok(())
    } else {
        Err(SubsystemJoinError::SubsystemsFailed(errors))
    }
}

} // verus!
