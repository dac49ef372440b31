//! Why an installation can fail.

use vstd::prelude::*;
use vstd::string::StringExecFns;

verus! {

/// The step at which an installation failed, with the cause that the host
/// reported where there is one.
#[derive(Clone, Debug, PartialEq, Eq)]
pub enum InstallError {
    /// No archive is published for 32-bit x86.
    UnsupportedArchitecture,
    /// The release-hosting service gave no release.
    ReleaseFetchFailed(String),
    /// The release has no asset for this platform; holds the platform's
    /// label, architecture tag first.
    NoMatchingAsset(String),
    /// The archive could not be fetched or unpacked.
    DownloadFailed(String),
    /// The unpacked binary could not be marked executable.
    PermissionFailed(String),
}

/// What an [`InstallError`] holds.
pub enum InstallErrorModel {
    UnsupportedArchitecture,
    ReleaseFetchFailed(Seq<char>),
    NoMatchingAsset(Seq<char>),
    DownloadFailed(Seq<char>),
    PermissionFailed(Seq<char>),
}

impl View for InstallError {
    type V = InstallErrorModel;

    open spec fn view(&self) -> InstallErrorModel {
        match self {
            InstallError::UnsupportedArchitecture => InstallErrorModel::UnsupportedArchitecture,
            InstallError::ReleaseFetchFailed(cause) => InstallErrorModel::ReleaseFetchFailed(cause@),
            InstallError::NoMatchingAsset(label) => InstallErrorModel::NoMatchingAsset(label@),
            InstallError::DownloadFailed(cause) => InstallErrorModel::DownloadFailed(cause@),
            InstallError::PermissionFailed(cause) => InstallErrorModel::PermissionFailed(cause@),
        }
    }
}

impl InstallErrorModel {
    /// The text shown to the user: the failed step, then the cause.
    pub open spec fn message(self) -> Seq<char> {
        match self {
            InstallErrorModel::UnsupportedArchitecture => "x86 architecture is not supported"@,
            InstallErrorModel::ReleaseFetchFailed(cause) => "Failed to fetch latest release: "@
                + cause,
            InstallErrorModel::NoMatchingAsset(label) => "No compatible Harper binary found for "@
                + label,
            InstallErrorModel::DownloadFailed(cause) => "Failed to download Harper binary: "@
                + cause,
            InstallErrorModel::PermissionFailed(cause) => "Failed to make binary executable: "@
                + cause,
        }
    }
}

impl InstallError {
    /// The text shown to the user: the failed step, then the cause.
    pub fn message(&self) -> (text: String)
        ensures
            text@ == self@.message(),
    {
        match self {
            InstallError::UnsupportedArchitecture => "x86 architecture is not supported".to_owned(),
            InstallError::ReleaseFetchFailed(cause) => "Failed to fetch latest release: ".to_owned().concat(
                cause.as_str(),
            ),
            InstallError::NoMatchingAsset(label) => "No compatible Harper binary found for ".to_owned().concat(
                label.as_str(),
            ),
            InstallError::DownloadFailed(cause) => "Failed to download Harper binary: ".to_owned().concat(
                cause.as_str(),
            ),
            InstallError::PermissionFailed(cause) => "Failed to make binary executable: ".to_owned().concat(
                cause.as_str(),
            ),
        }
    }
}

} // verus!
