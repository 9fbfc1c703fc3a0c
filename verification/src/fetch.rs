//! The lifecycle of one asynchronous data load, as observed by the
//! rendering layer, and the error value a failed load carries.

use vstd::prelude::*;

verus! {

/// Why the most recent fetch attempt failed. Both causes are terminal for
/// that attempt: no partial payload is ever surfaced.
#[derive(Debug)]
pub enum FetchError {
    /// A network or transport-level failure: the request could not be
    /// built, sent, or answered with a JSON-capable response.
    Transport(String),
    /// The response body did not parse as the expected structured payload.
    Serialization(String),
}

impl FetchError {
    /// The human-readable diagnostic carried by either cause.
    pub open spec fn text(self) -> Seq<char> {
        match self {
            FetchError::Transport(m) => m@,
            FetchError::Serialization(m) => m@,
        }
    }

    /// Borrow the diagnostic string for display.
    pub fn message(&self) -> (r: &String)
        ensures
            r@ == self.text(),
    {
        match self {
            FetchError::Transport(m) => m,
            FetchError::Serialization(m) => m,
        }
    }
}

impl Clone for FetchError {
    fn clone(&self) -> (r: Self)
        ensures
            r == *self,
    {
        match self {
            FetchError::Transport(m) => FetchError::Transport(m.clone()),
            FetchError::Serialization(m) => FetchError::Serialization(m.clone()),
        }
    }
}

/// The lifecycle of one asynchronous data load. A component holds exactly
/// one such value per tracked resource; it is the only channel through
/// which fetch progress reaches the rendering layer.
#[derive(Debug)]
pub enum FetchState<T> {
    /// No request has ever been issued.
    NotFetching,
    /// A request is in flight; any earlier payload has been discarded.
    Fetching,
    /// The most recent attempt succeeded, with its fully decoded payload.
    Success(T),
    /// The most recent attempt failed, with the reason.
    Failed(FetchError),
}

impl<T> Default for FetchState<T> {
    /// A load starts before any request is issued.
    fn default() -> (r: Self)
        ensures
            r is NotFetching,
    {
        FetchState::NotFetching
    }
}

} // verus!
