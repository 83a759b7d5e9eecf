//! Error taxonomy of the autostart manager.

use vstd::prelude::*;

verus! {

/// Why an autostart operation failed.
///
/// Disabling never fails: it is a deliberately best-effort cleanup, so no
/// variant is ever produced for it.
#[derive(Clone, Copy, PartialEq, Eq, Structural, Debug)]
pub enum AutostartError {
    /// The user's home directory could not be resolved.
    EnvironmentError,
    /// The registry tool reported failure while adding the run entry.
    RegistrationError,
    /// The launch-agent file could not be written.
    IOError,
}

impl AutostartError {
    /// The human-readable message the host application shows for the error.
    pub fn message(&self) -> (r: &'static str)
        ensures
            self is EnvironmentError ==> r@ == "Failed to resolve home directory"@,
            self is RegistrationError ==> r@ == "Failed to add registry key"@,
            self is IOError ==> r@ == "Failed to write launch agent file"@,
    {
        match self {
            AutostartError::EnvironmentError => "Failed to resolve home directory",
            AutostartError::RegistrationError => "Failed to add registry key",
            AutostartError::IOError => "Failed to write launch agent file",
        }
    }
}

} // verus!
