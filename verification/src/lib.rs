//! Verified core of a one-shot installer helper for a plugin loader.
//!
//! The installer runs three stages in a fixed order: resolve the host
//! application's install directory from the system registry, prepend a
//! loader statement to the application's launcher script, and move a shim
//! library into the install directory under the name the host loads
//! automatically.  This crate holds the verified logic of that pipeline:
//! the text of the injected line, the paths each stage touches, the error
//! taxonomy, and the stage machine that decides which side effect comes
//! next.  The side effects themselves (registry read, file read/write,
//! file move) are performed by the surrounding binary, which feeds their
//! outcomes back into the stage machine as events.

pub mod errors;
pub mod paths;
pub mod script;
pub mod workflow;
