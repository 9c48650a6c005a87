//! Startup logic for a desktop shell that launches a bundled server
//! executable as a child process: which prebuilt binary fits the host,
//! where it lies, how it is launched, where its output goes, and the
//! lifecycle of the child.
mod text;
pub mod error;
pub mod launch;
pub mod lifecycle;
pub mod output;
pub mod paths;
pub mod triple;
