//! Errors that stop the application from starting.
use vstd::prelude::*;

verus! {

/// Which location could not be determined.
#[derive(Clone, Copy, Debug, PartialEq, Eq, Structural)]
pub enum PathSource {
    /// The user's home directory.
    Home,
    /// The directory that holds the running executable.
    ExecutableDir,
    /// The directory of bundled resources.
    ResourceDir,
}

/// A fatal failure during startup.
#[derive(Clone, Copy, Debug, PartialEq, Eq, Structural)]
pub enum StartupError {
    /// A path that the launch needs could not be resolved.
    PathResolution(PathSource),
    /// The server executable, or the runtime that runs it, could not be
    /// started.
    Spawn,
}

impl StartupError {
    /// A human-readable description of the failure.
    pub fn describe(&self) -> (r: &'static str)
        ensures
            r@.len() > 0,
    {
        proof {
            reveal_strlit("failed to resolve home dir");
            reveal_strlit("failed to get executable dir");
            reveal_strlit("failed to resolve resource dir");
            reveal_strlit("failed to spawn the server");
        }
        match self {
            StartupError::PathResolution(PathSource::Home) => "failed to resolve home dir",
            StartupError::PathResolution(PathSource::ExecutableDir) => "failed to get executable dir",
            StartupError::PathResolution(PathSource::ResourceDir) => "failed to resolve resource dir",
            StartupError::Spawn => "failed to spawn the server",
        }
    }
}

} // verus!
