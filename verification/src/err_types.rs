//! Holders that carry an error value.
use vstd::prelude::*;

verus! {

/// Holds an error directly.
pub struct Direct<T: Send + Sync>(pub T);

/// Holds a pointer-like value whose target is an error.
pub struct Wrapped<T: std::ops::Deref + Send + Sync + std::fmt::Debug + std::fmt::Display>(pub T);

/// A type that holds an error value, which can be taken out again.
pub trait ErrorHolder: Send + Sync + Sized + 'static {
    /// The type of the held error.
    type Internal: Send + Sync;

    /// The held error.
    spec fn held(&self) -> Self::Internal;

    /// Retrieves the held error.
    fn get_error(&self) -> (e: &Self::Internal)
        ensures
            *e == self.held(),
    ;

    /// Converts the holder into the held error.
    fn into_error(self) -> (e: Self::Internal)
        ensures
            e == self.held(),
    ;

    /// Wraps an error into a holder.
    fn from_error(err: Self::Internal) -> (holder: Self)
        ensures
            holder.held() == err,
    ;
}

impl<T: Send + Sync + 'static> ErrorHolder for Direct<T> {
    type Internal = T;

    open spec fn held(&self) -> T {
        self.0
    }

    fn get_error(&self) -> (e: &T) {
        &self.0
    }

    fn into_error(self) -> (e: T) {
        self.0
    }

    fn from_error(err: T) -> (holder: Self) {
        Direct(err)
    }
}

impl<T: std::ops::Deref + Send + Sync + std::fmt::Debug + std::fmt::Display + 'static> ErrorHolder for Wrapped<T> {
    type Internal = T;

    open spec fn held(&self) -> T {
        self.0
    }

    fn get_error(&self) -> (e: &T) {
        &self.0
    }

    fn into_error(self) -> (e: T) {
        self.0
    }

    fn from_error(err: T) -> (holder: Self) {
        Wrapped(err)
    }
}

} // verus!
