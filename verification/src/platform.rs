//! The startup mechanisms the autostart manager knows how to drive.

use vstd::prelude::*;

verus! {

/// A platform with (or without) a per-user startup registration mechanism.
///
/// `Windows` registers programs under the current user's registry run key,
/// `MacOs` under a launch-agent property list; every other platform is
/// `Unsupported` and never reports an enabled entry.
#[derive(Clone, Copy, PartialEq, Eq, Structural, Debug)]
pub enum Platform {
    Windows,
    MacOs,
    Unsupported,
}

impl Platform {
    /// Whether the platform offers a startup registration mechanism at all.
    pub open spec fn spec_supported(&self) -> bool {
        !(self is Unsupported)
    }

    /// Executable counterpart of [`Platform::spec_supported`].
    #[verifier::when_used_as_spec(spec_supported)]
    pub fn supported(&self) -> (r: bool)
        ensures
            r == self.spec_supported(),
    {
        match self {
            Platform::Unsupported => false,
            _ => true,
        }
    }
}

} // verus!
