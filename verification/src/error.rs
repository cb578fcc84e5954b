use vstd::prelude::*;

verus! {

/// Reset is only allowed when a single `Bump` reference exists.
#[derive(Clone, Copy, Debug, PartialEq, Eq, Structural)]
pub struct ResetError;

impl ResetError {
    /// The text that describes the error to a user.
    pub fn message(&self) -> (text: String)
        ensures
            text@ == "reset is only allowed when single Bump reference exists"@,
    {
        "reset is only allowed when single Bump reference exists".to_string()
    }
}

} // verus!
