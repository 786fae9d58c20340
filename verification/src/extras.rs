//! Shared error type of the optimizer.

use vstd::prelude::*;

verus! {

/// Error raised by the optimizer: a human-readable cause string.
#[derive(Debug)]
pub struct OptimizerError(pub String);

impl OptimizerError {
    /// The cause string, for callers that cannot read the field directly.
    pub fn message(&self) -> (r: &str)
        ensures
            r@ == self.0@,
    {
        self.0.as_str()
    }
}

} // verus!
