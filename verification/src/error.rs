use vstd::prelude::*;

verus! {

/// Failure kinds reported by the library. None of them is fatal to the host:
/// the worst outcome is a warning and a plugin left unconfigured.
#[derive(Debug, Clone, Copy, PartialEq, Eq, Structural)]
pub enum Error {
    /// A string argument is malformed: it cannot be handed to the host, or it
    /// is empty where a name is required.
    InvalidInput,
    /// The operation names a plugin that is not registered, or needs an open
    /// transaction while none is open.
    NotFound,
    /// The host reported that a command failed.
    ExecutionFailure,
    /// A plugin's module could not be loaded when its configuration was applied.
    LoadFailure,
}

/// What `error` reads as in a message for the user.
pub open spec fn description_text(error: Error) -> Seq<char> {
    match error {
        Error::InvalidInput => "Invalid input"@,
        Error::NotFound => "Not found"@,
        Error::ExecutionFailure => "Command failed"@,
        Error::LoadFailure => "Module not found"@,
    }
}

impl Error {
    /// The error as a message for the user.
    pub fn description(&self) -> (r: String)
        ensures
            r@ == description_text(*self),
    {
        match self {
            Error::InvalidInput => "Invalid input".to_owned(),
            Error::NotFound => "Not found".to_owned(),
            Error::ExecutionFailure => "Command failed".to_owned(),
            Error::LoadFailure => "Module not found".to_owned(),
        }
    }
}

} // verus!
