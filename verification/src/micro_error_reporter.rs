//! The error reporter: the sink that receives the diagnostic of each failure.

use vstd::prelude::*;
use crate::error::Error;

verus! {

/// A diagnostics sink without a heap behind it: it keeps the cause of the
/// latest failure for the caller to read and to print.
#[derive(Debug)]
pub struct MicroErrorReporter {
    last: Option<Error>,
}

impl MicroErrorReporter {
    /// The latest diagnostic delivered, if any.
    pub closed spec fn last(self) -> Option<Error> {
        self.last
    }

    /// A reporter to which nothing has been delivered.
    pub fn new() -> (reporter: Self)
        ensures
            reporter.last() is None,
    {
        MicroErrorReporter { last: None }
    }

    /// Delivers a diagnostic.
    pub fn report(&mut self, error: Error)
        ensures
            final(self).last() == Some(error),
    {
        self.last = Some(error);
    }

    /// The latest diagnostic delivered, if any.
    pub fn last_error(&self) -> (latest: Option<Error>)
        ensures
            latest == self.last(),
    {
        self.last
    }
}

} // verus!
