//! The error taxonomy of the installer.
//!
//! Every stage failure is immediately fatal: there is no retry, no
//! rollback and no partial-success path.  Each variant names the stage
//! that failed and its proximate cause.

use vstd::prelude::*;

verus! {

/// The reason an installer run aborted.
#[derive(Clone, Copy, Debug, PartialEq, Eq, Structural)]
pub enum StageError {
    /// The registry key holding the install location could not be opened:
    /// the host application is not installed, or registered elsewhere.
    ConfigNotFound,
    /// The registry key exists but the named value is missing or is not
    /// a string.
    ValueNotFound,
    /// The launcher script could not be opened or read at the resolved
    /// path: wrong install path, permissions, or an unexpected layout.
    FileNotReadable,
    /// The launcher script could not be overwritten: permissions, or the
    /// file is locked by a running process.
    FileNotWritable,
    /// The shim library could not be moved: missing source file, missing
    /// destination directory, or permissions.
    MoveFailed,
}

impl StageError {
    /// A short description of the failure, for log lines.
    pub fn describe(&self) -> (r: &'static str)
        ensures
            r@ == self.describe_spec(),
    {
        match self {
            StageError::ConfigNotFound => "the registry key could not be opened",
            StageError::ValueNotFound => "the install value is missing from the registry key",
            StageError::FileNotReadable => "the launcher script could not be read",
            StageError::FileNotWritable => "the launcher script could not be overwritten",
            StageError::MoveFailed => "the shim library could not be moved",
        }
    }

    /// What `describe` returns for each variant.
    pub open spec fn describe_spec(self) -> Seq<char> {
        match self {
            StageError::ConfigNotFound => "the registry key could not be opened"@,
            StageError::ValueNotFound => "the install value is missing from the registry key"@,
            StageError::FileNotReadable => "the launcher script could not be read"@,
            StageError::FileNotWritable => "the launcher script could not be overwritten"@,
            StageError::MoveFailed => "the shim library could not be moved"@,
        }
    }
}

} // verus!
