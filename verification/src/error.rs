//! The errors of a build, each tied to the stage in which it arose.

use vstd::prelude::*;
use vstd::string::*;

verus! {

/// The stages of the pipeline, in the order in which they run.
#[derive(Clone, Copy, Debug, PartialEq, Eq, Structural)]
pub enum Stage {
    /// Creating the workspace directories.
    CreateWorkspace,
    /// Writing the manifest and the source text into the workspace.
    WriteSources,
    /// Running the toolchain.
    Build,
    /// Making sure that the shared output directory exists.
    EnsureOutputDir,
    /// Moving the library out of the workspace.
    Extract,
    /// Removing the workspace.
    Cleanup,
    /// Resolving the final path of the library to an absolute one.
    Resolve,
}

/// The name under which a stage appears in messages.
pub open spec fn stage_text(stage: Stage) -> Seq<char> {
    match stage {
        Stage::CreateWorkspace => "create workspace"@,
        Stage::WriteSources => "write sources"@,
        Stage::Build => "build"@,
        Stage::EnsureOutputDir => "ensure output directory"@,
        Stage::Extract => "extract artifact"@,
        Stage::Cleanup => "clean up"@,
        Stage::Resolve => "resolve artifact path"@,
    }
}

/// The name under which a stage appears in messages.
pub fn stage_name(stage: Stage) -> (name: &'static str)
    ensures
        name@ == stage_text(stage),
{
    match stage {
        Stage::CreateWorkspace => "create workspace",
        Stage::WriteSources => "write sources",
        Stage::Build => "build",
        Stage::EnsureOutputDir => "ensure output directory",
        Stage::Extract => "extract artifact",
        Stage::Cleanup => "clean up",
        Stage::Resolve => "resolve artifact path",
    }
}

/// An error of a build, as plain values.
pub enum ErrorModel {
    Io { stage: Stage, detail: Seq<char> },
    ProcessSpawn { detail: Seq<char> },
    BuildFailure { exit_code: Option<i32> },
    ArtifactNotFound { path: Seq<char> },
    Cleanup { detail: Seq<char> },
}

impl ErrorModel {
    /// The stage in which the error arose.
    pub open spec fn stage(self) -> Stage {
        match self {
            ErrorModel::Io { stage, .. } => stage,
            ErrorModel::ProcessSpawn { .. } => Stage::Build,
            ErrorModel::BuildFailure { .. } => Stage::Build,
            ErrorModel::ArtifactNotFound { .. } => Stage::Extract,
            ErrorModel::Cleanup { .. } => Stage::Cleanup,
        }
    }

    /// What is said after the stage name.
    pub open spec fn cause_text(self) -> Seq<char> {
        match self {
            ErrorModel::Io { detail, .. } => detail,
            ErrorModel::ProcessSpawn { detail } => "the toolchain could not be started: "@ + detail,
            ErrorModel::BuildFailure { .. } => "the toolchain reported failure"@,
            ErrorModel::ArtifactNotFound { path } => "no library at "@ + path,
            ErrorModel::Cleanup { detail } => detail,
        }
    }

    /// The message of the error: the stage name, a colon and a space, and
    /// the cause.
    pub open spec fn text(self) -> Seq<char> {
        stage_text(self.stage()) + ": "@ + self.cause_text()
    }
}

/// Why a build did not produce its library.
#[derive(Debug, PartialEq, Eq)]
pub enum BuildError {
    /// A directory or file could not be created, written, moved or resolved.
    Io { stage: Stage, detail: String },
    /// The toolchain could not be launched.
    ProcessSpawn { detail: String },
    /// The toolchain ran and did not exit with code zero. `exit_code` is
    /// `None` where it ended without an exit code.
    BuildFailure { exit_code: Option<i32> },
    /// The toolchain reported success and left no library at `path`.
    ArtifactNotFound { path: String },
    /// The workspace could not be removed after the library had been moved
    /// out of it.
    Cleanup { detail: String },
}

impl View for BuildError {
    type V = ErrorModel;

    open spec fn view(&self) -> ErrorModel {
        match *self {
            BuildError::Io { stage, detail } => ErrorModel::Io { stage, detail: detail@ },
            BuildError::ProcessSpawn { detail } => ErrorModel::ProcessSpawn { detail: detail@ },
            BuildError::BuildFailure { exit_code } => ErrorModel::BuildFailure { exit_code },
            BuildError::ArtifactNotFound { path } => ErrorModel::ArtifactNotFound { path: path@ },
            BuildError::Cleanup { detail } => ErrorModel::Cleanup { detail: detail@ },
        }
    }
}

impl BuildError {
    /// The stage in which the error arose.
    pub fn stage(&self) -> (stage: Stage)
        ensures
            stage == self@.stage(),
    {
        match self {
            BuildError::Io { stage, .. } => *stage,
            BuildError::ProcessSpawn { .. } => Stage::Build,
            BuildError::BuildFailure { .. } => Stage::Build,
            BuildError::ArtifactNotFound { .. } => Stage::Extract,
            BuildError::Cleanup { .. } => Stage::Cleanup,
        }
    }

    /// The message of the error, with the stage name in front.
    pub fn describe(&self) -> (message: String)
        ensures
            message@ == self@.text(),
    {
        let mut message = String::from_str(stage_name(self.stage()));
        message.append(": ");
        match self {
            BuildError::Io { detail, .. } => {
                message.append(detail.as_str());
            },
            BuildError::ProcessSpawn { detail } => {
                message.append("the toolchain could not be started: ");
                message.append(detail.as_str());
            },
            BuildError::BuildFailure { .. } => {
                message.append("the toolchain reported failure");
            },
            BuildError::ArtifactNotFound { path } => {
                message.append("no library at ");
                message.append(path.as_str());
            },
            BuildError::Cleanup { detail } => {
                message.append(detail.as_str());
            },
        }
        assert(message@ =~= self@.text());
        message
    }
}

impl Clone for BuildError {
    fn clone(&self) -> (copy: BuildError)
        ensures
            copy@ == self@,
    {
        match self {
            BuildError::Io { stage, detail } => BuildError::Io {
                stage: *stage,
                detail: detail.clone(),
            },
            BuildError::ProcessSpawn { detail } => BuildError::ProcessSpawn {
                detail: detail.clone(),
            },
            BuildError::BuildFailure { exit_code } => BuildError::BuildFailure {
                exit_code: *exit_code,
            },
            BuildError::ArtifactNotFound { path } => BuildError::ArtifactNotFound {
                path: path.clone(),
            },
            BuildError::Cleanup { detail } => BuildError::Cleanup { detail: detail.clone() },
        }
    }
}

} // verus!
