//! Errors of the one-time initialisation of the host session.
use vstd::prelude::*;

verus! {

#[derive(Clone, Copy, Debug, PartialEq, Eq, Hash, Structural)]
pub enum InitError {
    /// The arena of this thread has already been initialized.
    ArenaAlreadyInitialized,
}

impl InitError {
    /// The message describing this error.
    pub fn message(&self) -> (r: &'static str)
        ensures
            r@ == "The types arena has already been initialized"@,
    {
        match self {
            InitError::ArenaAlreadyInitialized => "The types arena has already been initialized",
        }
    }
}

} // verus!
