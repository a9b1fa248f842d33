//! The installer's stage machine.
//!
//! The run is linear: resolve the install directory, patch the launcher
//! script, relocate the shim library, done — and any failure aborts the
//! whole run at once.  The machine itself performs no side effect.  It
//! tells its driver which single side effect to perform next (an
//! [`Action`]), the driver performs it and reports the outcome back (an
//! [`Event`]), and the machine decides the next stage.  Later stages
//! never run after a failure: a failed machine demands no action and
//! accepts no further event.

use vstd::prelude::*;
use crate::errors::StageError;
use crate::paths::{script_path, script_path_spec, shim_source_path, shim_source_spec,
    shim_target_path, shim_target_spec};
use crate::script::{patch_script, patched_spec};

verus! {

/// Where a run stands.  The install directory, once resolved, travels
/// with the stage so later stages can address the install tree.
pub enum Stage {
    /// Waiting for the registry lookup of the install directory.
    Resolving,
    /// Waiting for the launcher script to be read.
    Patching { install: String },
    /// Waiting for the patched script to be written back.
    Writing { install: String },
    /// Waiting for the shim library to be moved into the install tree.
    Relocating { install: String },
    /// Every stage succeeded.
    Done,
    /// A stage failed; the run is over.
    Failed { error: StageError },
}

/// The outcome of one side effect, reported back by the driver.
pub enum Event {
    /// The registry lookup returned the install directory.
    InstallValue { install: String },
    /// The registry key could not be opened.
    KeyMissing,
    /// The key was opened but the install value was missing or not a
    /// string.
    ValueMissing,
    /// The launcher script was read; this is its full content.
    ScriptContent { content: String },
    /// The launcher script could not be opened or read.
    ScriptUnreadable,
    /// The patched script was written back in full.
    ScriptWritten,
    /// The launcher script could not be created or overwritten.
    ScriptUnwritable,
    /// The shim library was moved to its destination.
    LibraryMoved,
    /// The shim library could not be moved.
    LibraryMoveFailed,
}

/// The single side effect the driver must perform next.
pub enum Action {
    /// Look the install directory up in the registry.
    QueryInstallPath,
    /// Read the whole file at `path` as text.
    ReadFile { path: String },
    /// Overwrite the file at `path` with `content`.
    WriteFile { path: String, content: String },
    /// Move (rename) the file at `from` to `to`.
    MoveFile { from: String, to: String },
    /// Nothing further: the run is done or has failed.
    Stop,
}

/// The stage machine: the working directory the process started in, and
/// the current stage.
pub struct Installer {
    /// The process's working directory, embedded verbatim in the injected
    /// loader statement and holding the shim library to move.
    pub cwd: String,
    /// Where the run stands.
    pub stage: Stage,
}

impl Installer {
    /// The events a machine in this stage can be fed: exactly the
    /// possible outcomes of the action it last demanded.  A finished or
    /// failed machine accepts none.
    pub open spec fn expects(self, event: Event) -> bool {
        match self.stage {
            Stage::Resolving => event is InstallValue || event is KeyMissing
                || event is ValueMissing,
            Stage::Patching { .. } => event is ScriptContent || event is ScriptUnreadable,
            Stage::Writing { .. } => event is ScriptWritten || event is ScriptUnwritable,
            Stage::Relocating { .. } => event is LibraryMoved || event is LibraryMoveFailed,
            Stage::Done => false,
            Stage::Failed { .. } => false,
        }
    }

    /// How one step moves the machine: from the pre-step machine and the
    /// event fed to it, to the post-step machine and the action it
    /// demands.  The working directory never changes, and the resolved
    /// install directory is adopted and carried verbatim.
    pub open spec fn step_spec(pre: Installer, event: Event, post: Installer, action: Action)
        -> bool {
        &&& post.cwd@ == pre.cwd@
        &&& match (pre.stage, event) {
            (Stage::Resolving, Event::InstallValue { install }) => {
                &&& post.stage matches Stage::Patching { install: i } && i@ == install@
                &&& action matches Action::ReadFile { path } && path@ == script_path_spec(
                    install@,
                )
            },
            (Stage::Resolving, Event::KeyMissing) => {
                &&& post.stage matches Stage::Failed { error } && error
                    == StageError::ConfigNotFound
                &&& action is Stop
            },
            (Stage::Resolving, Event::ValueMissing) => {
                &&& post.stage matches Stage::Failed { error } && error
                    == StageError::ValueNotFound
                &&& action is Stop
            },
            (Stage::Patching { install }, Event::ScriptContent { content }) => {
                &&& post.stage matches Stage::Writing { install: i } && i@ == install@
                &&& action matches Action::WriteFile { path, content: c } && path@
                    == script_path_spec(install@) && c@ == patched_spec(pre.cwd@, content@)
            },
            (Stage::Patching { .. }, Event::ScriptUnreadable) => {
                &&& post.stage matches Stage::Failed { error } && error
                    == StageError::FileNotReadable
                &&& action is Stop
            },
            (Stage::Writing { install }, Event::ScriptWritten) => {
                &&& post.stage matches Stage::Relocating { install: i } && i@ == install@
                &&& action matches Action::MoveFile { from, to } && from@ == shim_source_spec(
                    pre.cwd@,
                ) && to@ == shim_target_spec(install@)
            },
            (Stage::Writing { .. }, Event::ScriptUnwritable) => {
                &&& post.stage matches Stage::Failed { error } && error
                    == StageError::FileNotWritable
                &&& action is Stop
            },
            (Stage::Relocating { .. }, Event::LibraryMoved) => {
                &&& post.stage is Done
                &&& action is Stop
            },
            (Stage::Relocating { .. }, Event::LibraryMoveFailed) => {
                &&& post.stage matches Stage::Failed { error } && error == StageError::MoveFailed
                &&& action is Stop
            },
            _ => false,
        }
    }

    /// A fresh machine for a run started in working directory `cwd`,
    /// waiting to resolve the install directory.
    pub fn new(cwd: String) -> (s: Self)
        ensures
            s.stage is Resolving,
            s.cwd@ == cwd@,
    {
        Installer { cwd, stage: Stage::Resolving }
    }

    /// The first action of a run: look the install directory up.
    pub fn start_action(&self) -> (a: Action)
        requires
            self.stage is Resolving,
        ensures
            a is QueryInstallPath,
    {
        Action::QueryInstallPath
    }

    /// Feeds the outcome of the last action into the machine and returns
    /// the next action.  The transition is exactly [`Self::step_spec`]:
    /// success moves one stage forward, any failure moves to `Failed`
    /// with that stage's error and demands no further action.
    pub fn step(self, event: Event) -> (r: (Self, Action))
        requires
            self.expects(event),
        ensures
            Self::step_spec(self, event, r.0, r.1),
    {
        let Installer { cwd, stage } = self;
        match (stage, event) {
            (Stage::Resolving, Event::InstallValue { install }) => {
                let path = script_path(install.as_str());
                (
                    Installer { cwd, stage: Stage::Patching { install } },
                    Action::ReadFile { path },
                )
            },
            (Stage::Resolving, Event::KeyMissing) => {
                (
                    Installer { cwd, stage: Stage::Failed { error: StageError::ConfigNotFound } },
                    Action::Stop,
                )
            },
            (Stage::Resolving, Event::ValueMissing) => {
                (
                    Installer { cwd, stage: Stage::Failed { error: StageError::ValueNotFound } },
                    Action::Stop,
                )
            },
            (Stage::Patching { install }, Event::ScriptContent { content }) => {
                let path = script_path(install.as_str());
                let patched = patch_script(cwd.as_str(), content.as_str());
                (
                    Installer { cwd, stage: Stage::Writing { install } },
                    Action::WriteFile { path, content: patched },
                )
            },
            (Stage::Patching { .. }, Event::ScriptUnreadable) => {
                (
                    Installer { cwd, stage: Stage::Failed { error: StageError::FileNotReadable } },
                    Action::Stop,
                )
            },
            (Stage::Writing { install }, Event::ScriptWritten) => {
                let from = shim_source_path(cwd.as_str());
                let to = shim_target_path(install.as_str());
                (
                    Installer { cwd, stage: Stage::Relocating { install } },
                    Action::MoveFile { from, to },
                )
            },
            (Stage::Writing { .. }, Event::ScriptUnwritable) => {
                (
                    Installer { cwd, stage: Stage::Failed { error: StageError::FileNotWritable } },
                    Action::Stop,
                )
            },
            (Stage::Relocating { .. }, Event::LibraryMoved) => {
                (Installer { cwd, stage: Stage::Done }, Action::Stop)
            },
            (Stage::Relocating { .. }, Event::LibraryMoveFailed) => {
                (
                    Installer { cwd, stage: Stage::Failed { error: StageError::MoveFailed } },
                    Action::Stop,
                )
            },
            (stage, _) => {
                // unreachable: `expects` pairs every admitted event with
                // one of the arms above
                (Installer { cwd, stage }, Action::Stop)
            },
        }
    }
}

/// A machine that has finished or failed accepts no further event:
/// nothing runs after the run is over.
pub proof fn lemma_stopped_machine_accepts_nothing(m: Installer)
    requires
        m.stage is Done || m.stage is Failed,
    ensures
        forall|e: Event| !m.expects(e),
{
}

/// The resolved install directory is adopted exactly as the registry
/// lookup returned it: no trimming, no case change, no transformation.
pub proof fn lemma_install_path_verbatim(
    pre: Installer,
    install: String,
    post: Installer,
    action: Action,
)
    requires
        pre.stage is Resolving,
        Installer::step_spec(pre, Event::InstallValue { install }, post, action),
    ensures
        post.stage matches Stage::Patching { install: i } && i@ == install@,
{
}

/// A failed registry lookup aborts the run before any file-system work:
/// the machine reports `ConfigNotFound` for an unopenable key and
/// `ValueNotFound` for a missing value, demands no action, and accepts
/// no further event — so neither the script patch nor the library move
/// can ever run.
pub proof fn lemma_resolution_failure_touches_no_file(
    pre: Installer,
    event: Event,
    post: Installer,
    action: Action,
)
    requires
        pre.stage is Resolving,
        event is KeyMissing || event is ValueMissing,
        Installer::step_spec(pre, event, post, action),
    ensures
        action is Stop,
        post.stage matches Stage::Failed { error } && error == (if event is KeyMissing {
            StageError::ConfigNotFound
        } else {
            StageError::ValueNotFound
        }),
        forall|e: Event| !post.expects(e),
{
}

/// An unreadable launcher script aborts the run with `FileNotReadable`
/// before the relocation stage: the machine demands no action and
/// accepts no further event, so the shim library stays untouched in the
/// working directory.
pub proof fn lemma_unreadable_script_leaves_library(
    pre: Installer,
    event: Event,
    post: Installer,
    action: Action,
)
    requires
        pre.stage is Patching,
        event is ScriptUnreadable,
        Installer::step_spec(pre, event, post, action),
    ensures
        action is Stop,
        post.stage matches Stage::Failed { error } && error == StageError::FileNotReadable,
        forall|e: Event| !post.expects(e),
{
}

} // verus!
