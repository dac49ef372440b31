//! Installation as a conversation with the host: the installer asks for one
//! thing at a time, and the host's answer decides what it asks next.

use vstd::prelude::*;
use crate::binary::{BinaryModel, HarperBinary};
use crate::error::{InstallError, InstallErrorModel};
use crate::layout::{
    binary_path,
    spec_binary_path,
    spec_stale_entries,
    spec_version_dir,
    stale_entries,
    version_dir,
};
use crate::platform::{
    asset_for,
    platform_label,
    spec_asset_for,
    spec_platform_label,
    Architecture,
    ArchiveKind,
    Os,
};
use crate::release::{find_asset, spec_find_asset, Release, ReleaseModel};
use crate::{NAME, REPOSITORY};

verus! {

/// What the host shows while an installation runs.
#[derive(Clone, Copy, Debug, PartialEq, Eq, Structural)]
pub enum InstallStatus {
    CheckingForUpdate,
    Downloading,
}

/// One thing that the installer asks of the host.
#[derive(Clone, Debug, PartialEq, Eq)]
pub enum HostRequest {
    /// Show a status. Nothing comes back.
    SetStatus(InstallStatus),
    /// Look up the latest release of a repository.
    LatestRelease { repository: String, require_assets: bool, pre_release: bool },
    /// Say whether a path is on disk.
    PathExists { path: String },
    /// Fetch an archive and unpack it into a directory.
    Download { url: String, directory: String, kind: ArchiveKind },
    /// Set the execute permission of a file.
    MakeExecutable { path: String },
    /// Delete a directory with all that is in it.
    RemoveDirectory { path: String },
    /// Name the entries of the install root.
    ListInstallRoot,
    /// Nothing more: the installation has an outcome.
    Finish,
}

/// The host's answer to a request.
#[derive(Clone, Debug, PartialEq, Eq)]
pub enum HostResponse {
    /// The request was carried out and has no result.
    Done,
    /// The request failed, with the cause.
    Failed(String),
    Release(Release),
    Exists(bool),
    Entries(Vec<String>),
}

/// What is being installed, and where.
#[derive(Clone, Debug, PartialEq, Eq)]
pub struct InstallTarget {
    pub url: String,
    pub version_dir: String,
    pub binary_path: String,
    pub kind: ArchiveKind,
}

/// What became of the entries that the cleanup tried to delete.
#[derive(Clone, Debug, PartialEq, Eq)]
pub struct CleanupReport {
    pub removed: Vec<String>,
    pub failed: Vec<String>,
}

/// A finished installation.
#[derive(Clone, Debug, PartialEq, Eq)]
pub struct Installed {
    pub binary: HarperBinary,
    /// Whether the archive was fetched; `false` where the version was
    /// already on disk.
    pub downloaded: bool,
    pub cleanup: CleanupReport,
}

/// How far an installation has come. Each state but the last waits for the
/// answer to one request.
#[derive(Debug, PartialEq, Eq)]
pub enum Installer {
    Announcing { os: Os, arch: Architecture },
    FetchingRelease { os: Os, arch: Architecture },
    Probing { target: InstallTarget },
    AnnouncingDownload { target: InstallTarget },
    Downloading { target: InstallTarget },
    MarkingExecutable { target: InstallTarget },
    RollingBack { directory: String, error: InstallError },
    Listing { target: InstallTarget },
    Cleaning { target: InstallTarget, current: String, rest: Vec<String>, report: CleanupReport },
    Finished(Result<Installed, InstallError>),
}

/// What a [`HostRequest`] holds.
pub enum RequestModel {
    SetStatus(InstallStatus),
    LatestRelease { repository: Seq<char>, require_assets: bool, pre_release: bool },
    PathExists { path: Seq<char> },
    Download { url: Seq<char>, directory: Seq<char>, kind: ArchiveKind },
    MakeExecutable { path: Seq<char> },
    RemoveDirectory { path: Seq<char> },
    ListInstallRoot,
    Finish,
}

/// What a [`HostResponse`] holds.
pub enum ResponseModel {
    Done,
    Failed(Seq<char>),
    Release(ReleaseModel),
    Exists(bool),
    Entries(Seq<Seq<char>>),
}

/// What an [`InstallTarget`] holds.
pub struct TargetModel {
    pub url: Seq<char>,
    pub version_dir: Seq<char>,
    pub binary_path: Seq<char>,
    pub kind: ArchiveKind,
}

/// What a [`CleanupReport`] holds.
pub struct ReportModel {
    pub removed: Seq<Seq<char>>,
    pub failed: Seq<Seq<char>>,
}

/// What an [`Installed`] holds.
pub struct InstalledModel {
    pub binary: BinaryModel,
    pub downloaded: bool,
    pub cleanup: ReportModel,
}

/// What an [`Installer`] holds.
pub enum InstallerModel {
    Announcing { os: Os, arch: Architecture },
    FetchingRelease { os: Os, arch: Architecture },
    Probing { target: TargetModel },
    AnnouncingDownload { target: TargetModel },
    Downloading { target: TargetModel },
    MarkingExecutable { target: TargetModel },
    RollingBack { directory: Seq<char>, error: InstallErrorModel },
    Listing { target: TargetModel },
    Cleaning { target: TargetModel, current: Seq<char>, rest: Seq<Seq<char>>, report: ReportModel },
    Finished(Result<InstalledModel, InstallErrorModel>),
}

impl View for HostRequest {
    type V = RequestModel;

    open spec fn view(&self) -> RequestModel {
        match self {
            HostRequest::SetStatus(status) => RequestModel::SetStatus(*status),
            HostRequest::LatestRelease { repository, require_assets, pre_release } => {
                RequestModel::LatestRelease {
                    repository: repository@,
                    require_assets: *require_assets,
                    pre_release: *pre_release,
                }
            },
            HostRequest::PathExists { path } => RequestModel::PathExists { path: path@ },
            HostRequest::Download { url, directory, kind } => RequestModel::Download {
                url: url@,
                directory: directory@,
                kind: *kind,
            },
            HostRequest::MakeExecutable { path } => RequestModel::MakeExecutable { path: path@ },
            HostRequest::RemoveDirectory { path } => RequestModel::RemoveDirectory { path: path@ },
            HostRequest::ListInstallRoot => RequestModel::ListInstallRoot,
            HostRequest::Finish => RequestModel::Finish,
        }
    }
}

impl View for HostResponse {
    type V = ResponseModel;

    open spec fn view(&self) -> ResponseModel {
        match self {
            HostResponse::Done => ResponseModel::Done,
            HostResponse::Failed(cause) => ResponseModel::Failed(cause@),
            HostResponse::Release(release) => ResponseModel::Release(release@),
            HostResponse::Exists(exists) => ResponseModel::Exists(*exists),
            HostResponse::Entries(entries) => ResponseModel::Entries(entries.deep_view()),
        }
    }
}

impl View for InstallTarget {
    type V = TargetModel;

    open spec fn view(&self) -> TargetModel {
        TargetModel {
            url: self.url@,
            version_dir: self.version_dir@,
            binary_path: self.binary_path@,
            kind: self.kind,
        }
    }
}

impl View for CleanupReport {
    type V = ReportModel;

    open spec fn view(&self) -> ReportModel {
        ReportModel { removed: self.removed.deep_view(), failed: self.failed.deep_view() }
    }
}

impl View for Installed {
    type V = InstalledModel;

    open spec fn view(&self) -> InstalledModel {
        InstalledModel {
            binary: self.binary@,
            downloaded: self.downloaded,
            cleanup: self.cleanup@,
        }
    }
}

/// The outcome of an installation, each side by what it holds.
pub open spec fn spec_outcome(outcome: Result<Installed, InstallError>) -> Result<
    InstalledModel,
    InstallErrorModel,
> {
    match outcome {
        Ok(installed) => Ok(installed@),
        Err(error) => Err(error@),
    }
}

impl View for Installer {
    type V = InstallerModel;

    open spec fn view(&self) -> InstallerModel {
        match self {
            Installer::Announcing { os, arch } => InstallerModel::Announcing { os: *os, arch: *arch },
            Installer::FetchingRelease { os, arch } => InstallerModel::FetchingRelease {
                os: *os,
                arch: *arch,
            },
            Installer::Probing { target } => InstallerModel::Probing { target: target@ },
            Installer::AnnouncingDownload { target } => InstallerModel::AnnouncingDownload {
                target: target@,
            },
            Installer::Downloading { target } => InstallerModel::Downloading { target: target@ },
            Installer::MarkingExecutable { target } => InstallerModel::MarkingExecutable {
                target: target@,
            },
            Installer::RollingBack { directory, error } => InstallerModel::RollingBack {
                directory: directory@,
                error: error@,
            },
            Installer::Listing { target } => InstallerModel::Listing { target: target@ },
            Installer::Cleaning { target, current, rest, report } => InstallerModel::Cleaning {
                target: target@,
                current: current@,
                rest: rest.deep_view(),
                report: report@,
            },
            Installer::Finished(outcome) => InstallerModel::Finished(spec_outcome(*outcome)),
        }
    }
}

impl ReportModel {
    /// The report of a cleanup that has touched nothing.
    pub open spec fn empty() -> ReportModel {
        ReportModel { removed: Seq::empty(), failed: Seq::empty() }
    }

    /// Whether the report names an entry, as removed or as failed.
    pub open spec fn names(self, entry: Seq<char>) -> bool {
        self.removed.contains(entry) || self.failed.contains(entry)
    }
}

impl TargetModel {
    /// Where a release goes on a given system: the version directory named
    /// after the server and the version, the binary inside it, and the
    /// archive kind that the system takes.
    pub open spec fn of(os: Os, version: Seq<char>, url: Seq<char>) -> TargetModel {
        let dir = spec_version_dir(NAME@, version);
        TargetModel {
            url,
            version_dir: dir,
            binary_path: spec_binary_path(dir, NAME@, os),
            kind: os.spec_archive_kind(),
        }
    }

    /// The outcome of an installation into this target.
    pub open spec fn installed(self, downloaded: bool, cleanup: ReportModel) -> InstallerModel {
        InstallerModel::Finished(
            Ok(InstalledModel { binary: BinaryModel::bare(self.binary_path), downloaded, cleanup }),
        )
    }

    /// Goes on with the cleanup: asks for the first pending entry to be
    /// deleted, or finishes where none is left.
    pub open spec fn clean(self, pending: Seq<Seq<char>>, report: ReportModel) -> InstallerModel {
        if pending.len() == 0 {
            self.installed(true, report)
        } else {
            InstallerModel::Cleaning {
                target: self,
                current: pending[0],
                rest: pending.skip(1),
                report,
            }
        }
    }
}

impl InstallerModel {
    /// Where an installation starts.
    pub open spec fn begin(os: Os, arch: Architecture) -> InstallerModel {
        InstallerModel::Announcing { os, arch }
    }

    /// What a release means for a platform: unsupported without an
    /// architecture tag, an error where no asset carries the platform's
    /// exact name, else the target to look for on disk.
    pub open spec fn select(os: Os, arch: Architecture, release: ReleaseModel) -> InstallerModel {
        match arch.spec_tag() {
            None => InstallerModel::Finished(Err(InstallErrorModel::UnsupportedArchitecture)),
            Some(arch_tag) => match spec_find_asset(
                release.assets,
                spec_asset_for(NAME@, os, arch).unwrap(),
            ) {
                None => InstallerModel::Finished(
                    Err(
                        InstallErrorModel::NoMatchingAsset(
                            spec_platform_label(arch_tag, os.spec_tag()),
                        ),
                    ),
                ),
                Some(i) => InstallerModel::Probing {
                    target: TargetModel::of(os, release.version, release.assets[i].download_url),
                },
            },
        }
    }

    /// The request that this state waits on.
    pub open spec fn pending(self) -> RequestModel {
        match self {
            InstallerModel::Announcing { .. } => RequestModel::SetStatus(
                InstallStatus::CheckingForUpdate,
            ),
            InstallerModel::FetchingRelease { .. } => RequestModel::LatestRelease {
                repository: REPOSITORY@,
                require_assets: true,
                pre_release: false,
            },
            InstallerModel::Probing { target } => RequestModel::PathExists {
                path: target.binary_path,
            },
            InstallerModel::AnnouncingDownload { .. } => RequestModel::SetStatus(
                InstallStatus::Downloading,
            ),
            InstallerModel::Downloading { target } => RequestModel::Download {
                url: target.url,
                directory: target.version_dir,
                kind: target.kind,
            },
            InstallerModel::MarkingExecutable { target } => RequestModel::MakeExecutable {
                path: target.binary_path,
            },
            InstallerModel::RollingBack { directory, .. } => RequestModel::RemoveDirectory {
                path: directory,
            },
            InstallerModel::Listing { .. } => RequestModel::ListInstallRoot,
            InstallerModel::Cleaning { current, .. } => RequestModel::RemoveDirectory {
                path: current,
            },
            InstallerModel::Finished(_) => RequestModel::Finish,
        }
    }

    /// The state after the host's answer. An answer that does not fit the
    /// pending request changes nothing, so that the request is made again.
    pub open spec fn next(self, response: ResponseModel) -> InstallerModel {
        match self {
            InstallerModel::Announcing { os, arch } => if arch.spec_is_supported() {
                InstallerModel::FetchingRelease { os, arch }
            } else {
                InstallerModel::Finished(Err(InstallErrorModel::UnsupportedArchitecture))
            },
            InstallerModel::FetchingRelease { os, arch } => match response {
                ResponseModel::Release(release) => Self::select(os, arch, release),
                ResponseModel::Failed(cause) => InstallerModel::Finished(
                    Err(InstallErrorModel::ReleaseFetchFailed(cause)),
                ),
                _ => self,
            },
            InstallerModel::Probing { target } => match response {
                ResponseModel::Exists(true) => target.installed(false, ReportModel::empty()),
                ResponseModel::Exists(false) => InstallerModel::AnnouncingDownload { target },
                _ => self,
            },
            InstallerModel::AnnouncingDownload { target } => InstallerModel::Downloading { target },
            InstallerModel::Downloading { target } => match response {
                ResponseModel::Done => InstallerModel::MarkingExecutable { target },
                ResponseModel::Failed(cause) => InstallerModel::RollingBack {
                    directory: target.version_dir,
                    error: InstallErrorModel::DownloadFailed(cause),
                },
                _ => self,
            },
            InstallerModel::MarkingExecutable { target } => match response {
                ResponseModel::Done => InstallerModel::Listing { target },
                ResponseModel::Failed(cause) => InstallerModel::RollingBack {
                    directory: target.version_dir,
                    error: InstallErrorModel::PermissionFailed(cause),
                },
                _ => self,
            },
            InstallerModel::RollingBack { error, .. } => InstallerModel::Finished(Err(error)),
            InstallerModel::Listing { target } => match response {
                ResponseModel::Entries(entries) => target.clean(
                    spec_stale_entries(entries, target.version_dir),
                    ReportModel::empty(),
                ),
                ResponseModel::Failed(_) => target.installed(true, ReportModel::empty()),
                _ => self,
            },
            InstallerModel::Cleaning { target, current, rest, report } => match response {
                ResponseModel::Done => target.clean(
                    rest,
                    ReportModel { removed: report.removed.push(current), failed: report.failed },
                ),
                ResponseModel::Failed(_) => target.clean(
                    rest,
                    ReportModel { removed: report.removed, failed: report.failed.push(current) },
                ),
                _ => self,
            },
            InstallerModel::Finished(_) => self,
        }
    }
}

impl RequestModel {
    /// Whether the request goes out to the network.
    pub open spec fn is_network(self) -> bool {
        self is LatestRelease || self is Download
    }
}

impl InstallerModel {
    /// The state after a sequence of answers, taken in order.
    pub open spec fn run(self, responses: Seq<ResponseModel>) -> InstallerModel
        decreases responses.len(),
    {
        if responses.len() == 0 {
            self
        } else {
            self.next(responses[0]).run(responses.skip(1))
        }
    }

    /// The requests made while a sequence of answers is taken in order: the
    /// one that this state waits on, then one after each answer.
    pub open spec fn requests(self, responses: Seq<ResponseModel>) -> Seq<RequestModel>
        decreases responses.len(),
    {
        if responses.len() == 0 {
            seq![self.pending()]
        } else {
            seq![self.pending()] + self.next(responses[0]).requests(responses.skip(1))
        }
    }

    /// Whether a response answers the request that this state waits on.
    /// What comes back from showing a status or from rolling back is not
    /// looked at, so anything answers those; a finished installation takes
    /// no answer.
    pub open spec fn accepts(self, response: ResponseModel) -> bool {
        match self {
            InstallerModel::Announcing { .. } => true,
            InstallerModel::FetchingRelease { .. } => response is Release || response is Failed,
            InstallerModel::Probing { .. } => response is Exists,
            InstallerModel::AnnouncingDownload { .. } => true,
            InstallerModel::Downloading { .. } => response is Done || response is Failed,
            InstallerModel::MarkingExecutable { .. } => response is Done || response is Failed,
            InstallerModel::RollingBack { .. } => true,
            InstallerModel::Listing { .. } => response is Entries || response is Failed,
            InstallerModel::Cleaning { .. } => response is Done || response is Failed,
            InstallerModel::Finished(_) => false,
        }
    }

    /// The place of this state in the course of an installation; later
    /// states have higher numbers.
    pub open spec fn phase(self) -> nat {
        match self {
            InstallerModel::Announcing { .. } => 0,
            InstallerModel::FetchingRelease { .. } => 1,
            InstallerModel::Probing { .. } => 2,
            InstallerModel::AnnouncingDownload { .. } => 3,
            InstallerModel::Downloading { .. } => 4,
            InstallerModel::MarkingExecutable { .. } => 5,
            InstallerModel::Listing { .. } => 6,
            InstallerModel::Cleaning { .. } => 7,
            InstallerModel::RollingBack { .. } => 8,
            InstallerModel::Finished(_) => 9,
        }
    }

    /// How many entries the cleanup has still to ask for after the one it
    /// waits on.
    pub open spec fn entries_left(self) -> nat {
        match self {
            InstallerModel::Cleaning { rest, .. } => rest.len(),
            _ => 0,
        }
    }

    /// The cleanup report of an installation that has succeeded.
    pub open spec fn cleanup(self) -> ReportModel
        recommends
            self is Finished,
            self->Finished_0 is Ok,
    {
        self->Finished_0->Ok_0.cleanup
    }

    /// Whether this state belongs to an installation into `target`: it
    /// works on that target, deletes nothing but other versions while it
    /// cleans up, rolls nothing back but the target's directory, and
    /// succeeds with nothing but the target's binary.
    pub open spec fn serves(self, target: TargetModel) -> bool {
        match self {
            InstallerModel::Announcing { .. } => false,
            InstallerModel::FetchingRelease { .. } => false,
            InstallerModel::Probing { target: own } => own == target,
            InstallerModel::AnnouncingDownload { target: own } => own == target,
            InstallerModel::Downloading { target: own } => own == target,
            InstallerModel::MarkingExecutable { target: own } => own == target,
            InstallerModel::RollingBack { directory, .. } => directory == target.version_dir,
            InstallerModel::Listing { target: own } => own == target,
            InstallerModel::Cleaning { target: own, current, rest, .. } => {
                &&& own == target
                &&& current != target.version_dir
                &&& !rest.contains(target.version_dir)
            },
            InstallerModel::Finished(Ok(installed)) => installed.binary == BinaryModel::bare(
                target.binary_path,
            ),
            InstallerModel::Finished(Err(_)) => true,
        }
    }
}

impl CleanupReport {
    pub fn empty() -> (report: CleanupReport)
        ensures
            report@ == ReportModel::empty(),
    {
        let report = CleanupReport { removed: Vec::new(), failed: Vec::new() };
        assert(report.removed.deep_view() =~= Seq::<Seq<char>>::empty());
        assert(report.failed.deep_view() =~= Seq::<Seq<char>>::empty());
        report
    }

    /// Notes an entry that was deleted.
    pub fn record_removed(self, entry: String) -> (report: CleanupReport)
        ensures
            report@ == (ReportModel { removed: self@.removed.push(entry@), failed: self@.failed }),
    {
        let CleanupReport { mut removed, failed } = self;
        let ghost before = removed.deep_view();
        removed.push(entry);
        assert(removed.deep_view() =~= before.push(entry@));
        CleanupReport { removed, failed }
    }

    /// Notes an entry that could not be deleted.
    pub fn record_failed(self, entry: String) -> (report: CleanupReport)
        ensures
            report@ == (ReportModel { removed: self@.removed, failed: self@.failed.push(entry@) }),
    {
        let CleanupReport { removed, mut failed } = self;
        let ghost before = failed.deep_view();
        failed.push(entry);
        assert(failed.deep_view() =~= before.push(entry@));
        CleanupReport { removed, failed }
    }
}

impl InstallTarget {
    pub fn of(os: Os, version: &str, url: String) -> (target: InstallTarget)
        ensures
            target@ == TargetModel::of(os, version@, url@),
    {
        let dir = version_dir(NAME, version);
        let path = binary_path(dir.as_str(), NAME, os);
        InstallTarget { url, version_dir: dir, binary_path: path, kind: os.archive_kind() }
    }

    /// Ends an installation into this target with success.
    pub fn installed(self, downloaded: bool, cleanup: CleanupReport) -> (state: Installer)
        ensures
            state@ == self@.installed(downloaded, cleanup@),
    {
        Installer::Finished(
            Ok(Installed { binary: HarperBinary::bare(self.binary_path), downloaded, cleanup }),
        )
    }

    /// Goes on with the cleanup: the first pending entry is next, and the
    /// installation is finished where none is left.
    pub fn clean(self, pending: Vec<String>, report: CleanupReport) -> (state: Installer)
        ensures
            state@ == self@.clean(pending.deep_view(), report@),
    {
        let mut rest = pending;
        if rest.len() == 0 {
            self.installed(true, report)
        } else {
            let ghost all = rest.deep_view();
            let current = rest.remove(0);
            assert(rest.deep_view() =~= all.skip(1));
            assert(current@ == all[0]);
            Installer::Cleaning { target: self, current, rest, report }
        }
    }
}

impl Installer {
    /// Starts an installation for a platform, with the first request.
    pub fn begin(os: Os, arch: Architecture) -> (start: (Installer, HostRequest))
        ensures
            start.0@ == InstallerModel::begin(os, arch),
            start.1@ == start.0@.pending(),
    {
        (Installer::Announcing { os, arch }, HostRequest::SetStatus(InstallStatus::CheckingForUpdate))
    }

    /// Picks the asset of a release for a platform and settles where it
    /// goes.
    pub fn select(os: Os, arch: Architecture, release: Release) -> (state: Installer)
        ensures
            state@ == InstallerModel::select(os, arch, release@),
    {
        let (arch_tag, asset) = match (arch.tag(), asset_for(NAME, os, arch)) {
            (Some(arch_tag), Some(asset)) => (arch_tag, asset),
            _ => {
                return Installer::Finished(Err(InstallError::UnsupportedArchitecture));
            },
        };
        match find_asset(&release.assets, &asset) {
            Some(i) => {
                let url = release.assets[i].download_url.clone();
                Installer::Probing { target: InstallTarget::of(os, release.version.as_str(), url) }
            },
            None => Installer::Finished(
                Err(InstallError::NoMatchingAsset(platform_label(arch_tag, os.tag()))),
            ),
        }
    }

    /// The request that this state waits on.
    pub fn pending(&self) -> (request: HostRequest)
        ensures
            request@ == self@.pending(),
    {
        match self {
            Installer::Announcing { .. } => HostRequest::SetStatus(InstallStatus::CheckingForUpdate),
            Installer::FetchingRelease { .. } => HostRequest::LatestRelease {
                repository: REPOSITORY.to_owned(),
                require_assets: true,
                pre_release: false,
            },
            Installer::Probing { target } => HostRequest::PathExists {
                path: target.binary_path.clone(),
            },
            Installer::AnnouncingDownload { .. } => HostRequest::SetStatus(
                InstallStatus::Downloading,
            ),
            Installer::Downloading { target } => HostRequest::Download {
                url: target.url.clone(),
                directory: target.version_dir.clone(),
                kind: target.kind,
            },
            Installer::MarkingExecutable { target } => HostRequest::MakeExecutable {
                path: target.binary_path.clone(),
            },
            Installer::RollingBack { directory, .. } => HostRequest::RemoveDirectory {
                path: directory.clone(),
            },
            Installer::Listing { .. } => HostRequest::ListInstallRoot,
            Installer::Cleaning { current, .. } => HostRequest::RemoveDirectory {
                path: current.clone(),
            },
            Installer::Finished(_) => HostRequest::Finish,
        }
    }

    /// The state after the host's answer.
    pub fn next(self, response: HostResponse) -> (state: Installer)
        ensures
            state@ == self@.next(response@),
    {
        match self {
            Installer::Announcing { os, arch } => {
                if arch.is_supported() {
                    Installer::FetchingRelease { os, arch }
                } else {
                    Installer::Finished(Err(InstallError::UnsupportedArchitecture))
                }
            },
            Installer::FetchingRelease { os, arch } => match response {
                HostResponse::Release(release) => Installer::select(os, arch, release),
                HostResponse::Failed(cause) => Installer::Finished(
                    Err(InstallError::ReleaseFetchFailed(cause)),
                ),
                _ => Installer::FetchingRelease { os, arch },
            },
            Installer::Probing { target } => match response {
                HostResponse::Exists(true) => target.installed(false, CleanupReport::empty()),
                HostResponse::Exists(false) => Installer::AnnouncingDownload { target },
                _ => Installer::Probing { target },
            },
            Installer::AnnouncingDownload { target } => Installer::Downloading { target },
            Installer::Downloading { target } => match response {
                HostResponse::Done => Installer::MarkingExecutable { target },
                HostResponse::Failed(cause) => Installer::RollingBack {
                    directory: target.version_dir,
                    error: InstallError::DownloadFailed(cause),
                },
                _ => Installer::Downloading { target },
            },
            Installer::MarkingExecutable { target } => match response {
                HostResponse::Done => Installer::Listing { target },
                HostResponse::Failed(cause) => Installer::RollingBack {
                    directory: target.version_dir,
                    error: InstallError::PermissionFailed(cause),
                },
                _ => Installer::MarkingExecutable { target },
            },
            Installer::RollingBack { directory: _, error } => Installer::Finished(Err(error)),
            Installer::Listing { target } => match response {
                HostResponse::Entries(entries) => {
                    let stale = stale_entries(&entries, &target.version_dir);
                    target.clean(stale, CleanupReport::empty())
                },
                HostResponse::Failed(_) => target.installed(true, CleanupReport::empty()),
                _ => Installer::Listing { target },
            },
            Installer::Cleaning { target, current, rest, report } => match response {
                HostResponse::Done => target.clean(rest, report.record_removed(current)),
                HostResponse::Failed(_) => target.clean(rest, report.record_failed(current)),
                _ => Installer::Cleaning { target, current, rest, report },
            },
            Installer::Finished(outcome) => Installer::Finished(outcome),
        }
    }

    /// Takes the host's answer and gives the state that follows with the
    /// request that it waits on.
    pub fn step(self, response: HostResponse) -> (after: (Installer, HostRequest))
        ensures
            after.0@ == self@.next(response@),
            after.1@ == after.0@.pending(),
    {
        let state = self.next(response);
        let request = state.pending();
        (state, request)
    }

    /// The outcome, once the installation is finished.
    pub fn into_outcome(self) -> (outcome: Option<Result<Installed, InstallError>>)
        ensures
            match outcome {
                Some(result) => self@ == InstallerModel::Finished(spec_outcome(result)),
                None => !(self@ is Finished),
            },
    {
        match self {
            Installer::Finished(outcome) => Some(outcome),
            _ => None,
        }
    }
}

} // verus!
