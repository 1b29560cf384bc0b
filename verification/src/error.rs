//! The reasons for which an installation is given up.

use vstd::prelude::*;
use crate::text::texts;

verus! {

/// Which kind of entry a permission pass was fixing.
#[derive(Clone, Copy, Debug, PartialEq, Eq, Structural)]
pub enum PermissionScope {
    Directories,
    Files,
}

impl PermissionScope {
    /// The word by which the scope is reported.
    pub open spec fn label_text(self) -> Seq<char> {
        match self {
            PermissionScope::Directories => "directories"@,
            PermissionScope::Files => "files"@,
        }
    }

    /// The word by which the scope is reported.
    pub fn label(&self) -> (res: &'static str)
        ensures
            res@ == self.label_text(),
    {
        match self {
            PermissionScope::Directories => "directories",
            PermissionScope::Files => "files",
        }
    }
}

/// Why an installation, or one of its parts, was given up.
#[derive(Clone, Debug, PartialEq, Eq)]
pub enum InstallError {
    /// Dependencies are missing and none of the known package managers is
    /// installed; the missing ones have to be installed by hand.
    NoPackageManagerFound { missing: Vec<String> },
    /// The package manager command ended with a non-zero status.
    InstallCommandFailed { command: String },
    /// No usable configuration directory could be obtained from the local
    /// archive.
    ConfigAcquisitionFailed,
    /// The archive tool ended with a non-zero status.
    ExtractionFailed { stderr: String },
    /// The extracted tree is empty.
    NoConfigDirectoryFound,
    /// The configuration directory to install does not exist.
    SourceNotFound { config_dir: String },
    /// The backup directory could not be created.
    BackupDirCreateFailed,
    /// Copying the existing target into the backup directory failed.
    BackupFailed,
    /// The target directory could not be created.
    TargetDirCreateFailed,
    /// Mirroring the configuration into the target failed.
    SyncFailed { stdout: String, stderr: String },
    /// A permission pass that must succeed ended with a non-zero status.
    PermissionFixFailed(PermissionScope),
    /// An outside step could not be carried out at all.
    StepUnable { detail: String },
    /// The answer handed in does not fit the step that was asked for.
    UnexpectedResponse,
}

/// An error as the contracts see it.
pub enum InstallErrorView {
    NoPackageManagerFound { missing: Seq<Seq<char>> },
    InstallCommandFailed { command: Seq<char> },
    ConfigAcquisitionFailed,
    ExtractionFailed { stderr: Seq<char> },
    NoConfigDirectoryFound,
    SourceNotFound { config_dir: Seq<char> },
    BackupDirCreateFailed,
    BackupFailed,
    TargetDirCreateFailed,
    SyncFailed { stdout: Seq<char>, stderr: Seq<char> },
    PermissionFixFailed(PermissionScope),
    StepUnable { detail: Seq<char> },
    UnexpectedResponse,
}

impl View for InstallError {
    type V = InstallErrorView;

    open spec fn view(&self) -> InstallErrorView {
        match self {
            InstallError::NoPackageManagerFound { missing } => {
                InstallErrorView::NoPackageManagerFound { missing: texts(missing@) }
            },
            InstallError::InstallCommandFailed { command } => {
                InstallErrorView::InstallCommandFailed { command: command@ }
            },
            InstallError::ConfigAcquisitionFailed => InstallErrorView::ConfigAcquisitionFailed,
            InstallError::ExtractionFailed { stderr } => {
                InstallErrorView::ExtractionFailed { stderr: stderr@ }
            },
            InstallError::NoConfigDirectoryFound => InstallErrorView::NoConfigDirectoryFound,
            InstallError::SourceNotFound { config_dir } => {
                InstallErrorView::SourceNotFound { config_dir: config_dir@ }
            },
            InstallError::BackupDirCreateFailed => InstallErrorView::BackupDirCreateFailed,
            InstallError::BackupFailed => InstallErrorView::BackupFailed,
            InstallError::TargetDirCreateFailed => InstallErrorView::TargetDirCreateFailed,
            InstallError::SyncFailed { stdout, stderr } => {
                InstallErrorView::SyncFailed { stdout: stdout@, stderr: stderr@ }
            },
            InstallError::PermissionFixFailed(scope) => {
                InstallErrorView::PermissionFixFailed(*scope)
            },
            InstallError::StepUnable { detail } => {
                InstallErrorView::StepUnable { detail: detail@ }
            },
            InstallError::UnexpectedResponse => InstallErrorView::UnexpectedResponse,
        }
    }
}

} // verus!
