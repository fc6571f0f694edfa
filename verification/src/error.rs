use vstd::prelude::*;

verus! {

/// Error raised when startup configuration is invalid: a malformed endpoint
/// URL, a zero batch size or pool size, or a failed token signature.
#[derive(Debug, Clone)]
pub struct EdenServerError {
    pub description: String,
}

impl EdenServerError {
    /// Builds an error carrying a human-readable description.
    pub fn new(description: String) -> (r: EdenServerError)
        ensures
            r.description@ == description@,
    {
        EdenServerError { description }
    }

    /// The human-readable description of this error.
    pub fn description(&self) -> (r: &String)
        ensures
            r@ == self.description@,
    {
        &self.description
    }
}

} // verus!
