//! The process-wide load state of the native library.
//!
//! The native library is loaded from its well-known path at most once per
//! process.  The outcome of that one attempt is cached: a failed load is
//! permanent for the process lifetime and is replayed to every later session
//! attempt with the same error, never retried silently.  The loading itself
//! is the driver's work; this state machine owns the caching contract.
use vstd::prelude::*;
use crate::error::DCGMError;

verus! {

/// The cached outcome of the one library-load attempt.
#[derive(Debug)]
pub struct LibraryLoad {
    attempted: bool,
    error: Option<String>,
}

impl LibraryLoad {
    /// Whether the one load attempt has been made.
    pub closed spec fn spec_attempted(&self) -> bool {
        self.attempted
    }

    /// The cached load failure, if the attempt failed.
    pub closed spec fn spec_error(&self) -> Option<String> {
        self.error
    }

    /// Well-formed: no failure is cached before the attempt.
    pub open spec fn wf(&self) -> bool {
        !self.spec_attempted() ==> self.spec_error() is None
    }

    /// A loader whose one attempt is still to come.
    pub fn new() -> (r: LibraryLoad)
        ensures
            !r.spec_attempted(),
            r.wf(),
    {
        LibraryLoad { attempted: false, error: None }
    }

    /// Whether the one load attempt has been made.
    pub fn attempted(&self) -> (r: bool)
        ensures
            r == self.spec_attempted(),
    {
        self.attempted
    }

    /// Records the outcome of the one load attempt: `None` for a successful
    /// load, `Some(message)` for a failure, cached permanently.
    pub fn record(&mut self, error: Option<String>)
        requires
            !old(self).spec_attempted(),
        ensures
            final(self).spec_attempted(),
            final(self).spec_error() == error,
            final(self).wf(),
    {
        self.attempted = true;
        self.error = error;
    }

    /// Gates a session attempt on the cached outcome: after a successful load
    /// every attempt may proceed; after a failed load every attempt is
    /// poisoned with the same cached error.
    pub fn gate(&self) -> (r: Result<(), DCGMError>)
        requires
            self.spec_attempted(),
        ensures
            r is Ok <==> self.spec_error() is None,
            r matches Err(e) ==> e.message@ == self.spec_error().unwrap()@,
    {
        match &self.error {
            None => Ok(()),
            Some(message) => Err(DCGMError { message: message.clone() }),
        }
    }
}

} // verus!
