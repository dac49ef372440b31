//! What holds of every resolution and of every installation, whatever the
//! host answers.

use vstd::prelude::*;
use crate::binary::BinaryModel;
use crate::error::InstallErrorModel;
use crate::installer::{
    InstallStatus,
    InstalledModel,
    InstallerModel,
    ReportModel,
    RequestModel,
    ResponseModel,
    TargetModel,
};
use crate::layout::{lemma_stale_entries, spec_stale_entries};
use crate::platform::{spec_asset_for, spec_platform_label, Architecture, Os};
use crate::release::{lemma_find_asset_from, ReleaseModel};
use crate::resolver::WorkspaceModel;
use crate::{NAME, REPOSITORY};

verus! {

/// An explicitly configured path is chosen whatever else is at hand: a
/// binary on the search path and a remembered install do not change the
/// result.
pub proof fn lemma_configuration_wins(workspace: WorkspaceModel, cache: Option<Seq<char>>)
    requires
        workspace.from_configuration().is_some(),
    ensures
        workspace.resolve(cache) == workspace.from_configuration(),
        workspace.resolve(cache).unwrap().path
            == workspace.settings.unwrap().binary.unwrap().path.unwrap(),
        workspace.resolve(cache).unwrap().args == workspace.settings.unwrap().binary.unwrap().arguments,
        workspace.resolve(cache).unwrap().env == Some(workspace.shell_env),
{
}

/// Without a configured path, a binary on the search path is chosen before
/// a remembered install; and the remembered install counts only while it is
/// on disk.
pub proof fn lemma_search_path_before_cache(workspace: WorkspaceModel, cache: Option<Seq<char>>)
    requires
        workspace.from_configuration().is_none(),
    ensures
        workspace.binary_on_path.is_some() ==> workspace.resolve(cache) == Some(
            BinaryModel {
                path: workspace.binary_on_path.unwrap(),
                args: None,
                env: Some(workspace.shell_env),
            },
        ),
        workspace.binary_on_path.is_none() && cache.is_some() && workspace.cached_binary_exists
            ==> workspace.resolve(cache) == Some(BinaryModel::bare(cache.unwrap())),
        workspace.binary_on_path.is_none() && !(cache.is_some() && workspace.cached_binary_exists)
            ==> workspace.resolve(cache).is_none(),
{
}

/// A finished installation stays as it is and asks for nothing more.
pub proof fn lemma_finished_is_final(
    outcome: Result<InstalledModel, InstallErrorModel>,
    responses: Seq<ResponseModel>,
)
    ensures
        InstallerModel::Finished(outcome).run(responses) == InstallerModel::Finished(outcome),
        InstallerModel::Finished(outcome).requests(responses).len() == responses.len() + 1,
        forall|i: int|
            0 <= i <= responses.len() ==> InstallerModel::Finished(outcome).requests(responses)[i]
                == RequestModel::Finish,
    decreases responses.len(),
{
    if responses.len() > 0 {
        lemma_finished_is_final(outcome, responses.skip(1));
    }
}

/// An installation cannot go round in circles. Each answer to the pending
/// request takes it to a later phase, or, during the cleanup, leaves it with
/// fewer entries to delete; so it is finished after finitely many answers.
pub proof fn lemma_answer_makes_progress(state: InstallerModel, response: ResponseModel)
    requires
        state.accepts(response),
    ensures
        state.next(response).phase() > state.phase() || (state.next(response).phase()
            == state.phase() && state.next(response).entries_left() < state.entries_left()),
        state.next(response).phase() >= state.phase(),
{
}

/// A response that does not answer the pending request changes nothing:
/// the same request is pending afterwards.
pub proof fn lemma_other_answers_change_nothing(state: InstallerModel, response: ResponseModel)
    requires
        !state.accepts(response),
    ensures
        state.next(response) == state,
{
}

/// On 32-bit x86 an installation shows its first status and then fails,
/// whatever the system and whatever the host answers: no request ever goes
/// out to the network.
pub proof fn lemma_unsupported_architecture_stays_offline(os: Os, responses: Seq<ResponseModel>)
    ensures
        responses.len() > 0 ==> InstallerModel::begin(os, Architecture::X86).run(responses)
            == InstallerModel::Finished(Err(InstallErrorModel::UnsupportedArchitecture)),
        InstallerModel::begin(os, Architecture::X86).requests(responses).len() == responses.len()
            + 1,
        InstallerModel::begin(os, Architecture::X86).requests(responses)[0]
            == RequestModel::SetStatus(InstallStatus::CheckingForUpdate),
        forall|i: int|
            1 <= i <= responses.len() ==> InstallerModel::begin(os, Architecture::X86).requests(
                responses,
            )[i] == RequestModel::Finish,
        forall|i: int|
            0 <= i <= responses.len() ==> !InstallerModel::begin(os, Architecture::X86).requests(
                responses,
            )[i].is_network(),
{
    if responses.len() > 0 {
        lemma_finished_is_final(Err(InstallErrorModel::UnsupportedArchitecture), responses.skip(1));
    }
}

/// On a supported architecture the latest release of the upstream project
/// is asked for right after the first status: one with assets, and no
/// pre-release. A failure to get it ends the installation; a release is
/// searched for the platform's asset.
pub proof fn lemma_supported_architecture_fetches(
    os: Os,
    arch: Architecture,
    answer: ResponseModel,
    release: ReleaseModel,
    cause: Seq<char>,
)
    requires
        arch.spec_is_supported(),
    ensures
        InstallerModel::begin(os, arch).next(answer).pending() == (RequestModel::LatestRelease {
            repository: REPOSITORY@,
            require_assets: true,
            pre_release: false,
        }),
        InstallerModel::begin(os, arch).next(answer).next(ResponseModel::Release(release))
            == InstallerModel::select(os, arch, release),
        InstallerModel::begin(os, arch).next(answer).next(ResponseModel::Failed(cause))
            == InstallerModel::Finished(Err(InstallErrorModel::ReleaseFetchFailed(cause))),
{
}

/// The asset is chosen by its exact name and by nothing else. Where the
/// release has an asset with the platform's name, the first such asset is
/// the one to download; where it has none, the installation fails and names
/// the platform.
pub proof fn lemma_select_matches_exactly(os: Os, arch: Architecture, release: ReleaseModel)
    requires
        arch.spec_is_supported(),
    ensures
        match InstallerModel::select(os, arch, release) {
            InstallerModel::Probing { target } => exists|i: int|
                {
                    &&& 0 <= i < release.assets.len()
                    &&& #[trigger] release.assets[i].name == spec_asset_for(NAME@, os, arch).unwrap()
                    &&& target == TargetModel::of(
                        os,
                        release.version,
                        release.assets[i].download_url,
                    )
                    &&& forall|j: int|
                        0 <= j < i ==> release.assets[j].name != spec_asset_for(
                            NAME@,
                            os,
                            arch,
                        ).unwrap()
                },
            InstallerModel::Finished(Err(InstallErrorModel::NoMatchingAsset(label))) => {
                &&& label == spec_platform_label(arch.spec_tag().unwrap(), os.spec_tag())
                &&& forall|j: int|
                    0 <= j < release.assets.len() ==> release.assets[j].name != spec_asset_for(
                        NAME@,
                        os,
                        arch,
                    ).unwrap()
            },
            _ => false,
        },
{
    lemma_find_asset_from(release.assets, spec_asset_for(NAME@, os, arch).unwrap(), 0);
}

/// The cleanup after `pending` keeps to the target as long as `pending`
/// does not name the target's own directory.
proof fn lemma_clean_serves(target: TargetModel, pending: Seq<Seq<char>>, report: ReportModel)
    requires
        !pending.contains(target.version_dir),
    ensures
        target.clean(pending, report).serves(target),
{
    if pending.len() > 0 {
        lemma_first_or_rest(pending);
    }
}

/// An installation keeps to its target through every answer.
pub proof fn lemma_next_serves(
    state: InstallerModel,
    target: TargetModel,
    response: ResponseModel,
)
    requires
        state.serves(target),
    ensures
        state.next(response).serves(target),
{
    match state {
        InstallerModel::Listing { .. } => {
            match response {
                ResponseModel::Entries(entries) => {
                    lemma_stale_entries(entries, target.version_dir);
                    lemma_clean_serves(
                        target,
                        spec_stale_entries(entries, target.version_dir),
                        ReportModel::empty(),
                    );
                },
                _ => {},
            }
        },
        InstallerModel::Cleaning { current, rest, report, .. } => {
            match response {
                ResponseModel::Done => {
                    lemma_clean_serves(
                        target,
                        rest,
                        ReportModel { removed: report.removed.push(current), failed: report.failed },
                    );
                },
                ResponseModel::Failed(_) => {
                    lemma_clean_serves(
                        target,
                        rest,
                        ReportModel { removed: report.removed, failed: report.failed.push(current) },
                    );
                },
                _ => {},
            }
        },
        _ => {},
    }
}

/// An installation keeps to its target through every sequence of answers.
pub proof fn lemma_run_serves(
    state: InstallerModel,
    target: TargetModel,
    responses: Seq<ResponseModel>,
)
    requires
        state.serves(target),
    ensures
        state.run(responses).serves(target),
    decreases responses.len(),
{
    if responses.len() > 0 {
        lemma_next_serves(state, target, responses[0]);
        lemma_run_serves(state.next(responses[0]), target, responses.skip(1));
    }
}

/// Installing a release that is already on disk is free. Where one
/// installation of a release has succeeded, the next one for the same
/// release and system looks for the very path that the first one gave;
/// told that the path is there, it succeeds with that path at once, without
/// download or cleanup, and asks for nothing more.
pub proof fn lemma_reinstall_skips_download(
    os: Os,
    arch: Architecture,
    release: ReleaseModel,
    first: Seq<ResponseModel>,
    later: Seq<ResponseModel>,
)
    requires
        InstallerModel::select(os, arch, release).run(first) is Finished,
        InstallerModel::select(os, arch, release).run(first)->Finished_0 is Ok,
    ensures
        InstallerModel::select(os, arch, release) is Probing,
        ({
            let installed = InstallerModel::select(os, arch, release).run(first)->Finished_0->Ok_0;
            let again = InstallerModel::select(os, arch, release);
            let done = again.next(ResponseModel::Exists(true));
            &&& again.pending() == RequestModel::PathExists { path: installed.binary.path }
            &&& done == InstallerModel::Finished(
                Ok(
                    InstalledModel {
                        binary: installed.binary,
                        downloaded: false,
                        cleanup: ReportModel::empty(),
                    },
                ),
            )
            &&& done.run(later) == done
            &&& forall|i: int|
                0 <= i <= later.len() ==> done.requests(later)[i] == RequestModel::Finish
        }),
{
    let again = InstallerModel::select(os, arch, release);
    match again {
        InstallerModel::Probing { target } => {
            lemma_run_serves(again, target, first);
            let done = again.next(ResponseModel::Exists(true));
            lemma_finished_is_final(done->Finished_0, later);
        },
        InstallerModel::Finished(outcome) => {
            lemma_finished_is_final(outcome, first);
        },
        _ => {},
    }
}

/// A download that fails is rolled back: the next request deletes the
/// target's version directory, and whatever becomes of that, the
/// installation then ends with the download's error.
pub proof fn lemma_failed_download_is_rolled_back(
    target: TargetModel,
    cause: Seq<char>,
    answer: ResponseModel,
)
    ensures
        (InstallerModel::Downloading { target }).next(ResponseModel::Failed(cause)).pending()
            == (RequestModel::RemoveDirectory { path: target.version_dir }),
        (InstallerModel::Downloading { target }).next(ResponseModel::Failed(cause)).next(answer)
            == InstallerModel::Finished(Err(InstallErrorModel::DownloadFailed(cause))),
{
}

/// A binary that cannot be marked executable is rolled back like a failed
/// download: the version directory is deleted, then the installation ends
/// with the error.
pub proof fn lemma_failed_permission_is_rolled_back(
    target: TargetModel,
    cause: Seq<char>,
    answer: ResponseModel,
)
    ensures
        (InstallerModel::MarkingExecutable { target }).next(ResponseModel::Failed(cause)).pending()
            == (RequestModel::RemoveDirectory { path: target.version_dir }),
        (InstallerModel::MarkingExecutable { target }).next(ResponseModel::Failed(cause)).next(
            answer,
        ) == InstallerModel::Finished(Err(InstallErrorModel::PermissionFailed(cause))),
{
}

/// Once a target is settled, no installation ends in an error but through
/// a rollback: the request before the end was to delete the target's version
/// directory.
pub proof fn lemma_errors_follow_rollback(
    state: InstallerModel,
    target: TargetModel,
    response: ResponseModel,
)
    requires
        state.serves(target),
        !(state is Finished),
        state.next(response) is Finished,
        state.next(response)->Finished_0 is Err,
    ensures
        state.pending() == (RequestModel::RemoveDirectory { path: target.version_dir }),
        state is RollingBack,
{
}

/// The cleanup never asks for the new version's directory to be deleted.
pub proof fn lemma_cleanup_spares_new_version(state: InstallerModel, target: TargetModel)
    requires
        state.serves(target),
        state is Cleaning,
    ensures
        state.pending() != (RequestModel::RemoveDirectory { path: target.version_dir }),
{
}

/// Nothing is deleted, and nothing is listed, before the binary has been
/// downloaded and marked executable: an installation that finds the version
/// on disk cleans nothing up.
pub proof fn lemma_no_cleanup_without_download(target: TargetModel, response: ResponseModel)
    ensures
        !((InstallerModel::Probing { target }).next(response) is Listing),
        !((InstallerModel::Probing { target }).next(response) is Cleaning),
        !((InstallerModel::Probing { target }).next(response) is RollingBack),
        (InstallerModel::Probing { target }).next(response) is Finished ==> response
            == ResponseModel::Exists(true),
{
}

/// The cleanup of `pending` where every deletion succeeds: all of it is
/// reported as removed, in order.
proof fn lemma_clean_run(
    target: TargetModel,
    pending: Seq<Seq<char>>,
    report: ReportModel,
    answers: Seq<ResponseModel>,
)
    requires
        forall|i: int| 0 <= i < answers.len() ==> answers[i] is Done,
        answers.len() >= pending.len(),
    ensures
        target.clean(pending, report).run(answers) == target.installed(
            true,
            ReportModel { removed: report.removed + pending, failed: report.failed },
        ),
    decreases pending.len(),
{
    if pending.len() == 0 {
        assert(report.removed + pending =~= report.removed);
        lemma_finished_is_final(
            Ok(
                InstalledModel {
                    binary: BinaryModel::bare(target.binary_path),
                    downloaded: true,
                    cleanup: report,
                },
            ),
            answers,
        );
    } else {
        let after = ReportModel {
            removed: report.removed.push(pending[0]),
            failed: report.failed,
        };
        assert(answers[0] is Done);
        lemma_clean_run(target, pending.skip(1), after, answers.skip(1));
        assert(after.removed + pending.skip(1) =~= report.removed + pending);
    }
}

/// The version directory and the binary's path are never empty, whatever
/// the version string; the path starts with the directory and lies inside
/// it.
pub proof fn lemma_target_paths_are_not_empty(os: Os, version: Seq<char>, url: Seq<char>)
    ensures
        TargetModel::of(os, version, url).version_dir.len() > 0,
        TargetModel::of(os, version, url).binary_path.len() > TargetModel::of(
            os,
            version,
            url,
        ).version_dir.len(),
        TargetModel::of(os, version, url).version_dir.is_prefix_of(
            TargetModel::of(os, version, url).binary_path,
        ),
{
    reveal_strlit("harper-ls");
    assert(NAME@.len() == 9);
    let target = TargetModel::of(os, version, url);
    assert(target.version_dir.len() >= 9);
    assert(target.binary_path.len() >= target.version_dir.len() + 9);
    assert(target.binary_path.subrange(0, target.version_dir.len() as int) =~= target.version_dir);
}

/// A fresh install where nothing fails. The version is not on disk, so the
/// download is announced and made, the binary is marked executable, and the
/// install root is listed; with every deletion succeeding, the installation
/// ends with the target's binary and has removed every other entry.
pub proof fn lemma_fresh_install(
    target: TargetModel,
    announced: ResponseModel,
    entries: Seq<Seq<char>>,
    answers: Seq<ResponseModel>,
)
    requires
        forall|i: int| 0 <= i < answers.len() ==> answers[i] is Done,
        answers.len() >= entries.len(),
    ensures
        ({
            let probing = InstallerModel::Probing { target };
            let announcing = probing.next(ResponseModel::Exists(false));
            let downloading = announcing.next(announced);
            let marking = downloading.next(ResponseModel::Done);
            let listing = marking.next(ResponseModel::Done);
            &&& probing.pending() == RequestModel::PathExists { path: target.binary_path }
            &&& announcing.pending() == RequestModel::SetStatus(InstallStatus::Downloading)
            &&& downloading.pending() == RequestModel::Download {
                url: target.url,
                directory: target.version_dir,
                kind: target.kind,
            }
            &&& marking.pending() == RequestModel::MakeExecutable { path: target.binary_path }
            &&& listing.pending() == RequestModel::ListInstallRoot
            &&& listing.next(ResponseModel::Entries(entries)).run(answers) == target.installed(
                true,
                ReportModel {
                    removed: spec_stale_entries(entries, target.version_dir),
                    failed: Seq::empty(),
                },
            )
        }),
{
    lemma_cleanup_leaves_only_new_version(target, entries, answers);
}

/// After a fresh install, where the host lists the install root and every
/// deletion succeeds, every entry but the new version's directory has been
/// deleted: the report names them all, in the order listed, and nothing
/// failed. The new version's directory is not among them.
pub proof fn lemma_cleanup_leaves_only_new_version(
    target: TargetModel,
    entries: Seq<Seq<char>>,
    answers: Seq<ResponseModel>,
)
    requires
        forall|i: int| 0 <= i < answers.len() ==> answers[i] is Done,
        answers.len() >= entries.len(),
    ensures
        (InstallerModel::Listing { target }).next(ResponseModel::Entries(entries)).run(answers)
            == target.installed(
            true,
            ReportModel {
                removed: spec_stale_entries(entries, target.version_dir),
                failed: Seq::empty(),
            },
        ),
        !spec_stale_entries(entries, target.version_dir).contains(target.version_dir),
        forall|entry: Seq<char>|
            entries.contains(entry) && entry != target.version_dir ==> #[trigger] spec_stale_entries(
                entries,
                target.version_dir,
            ).contains(entry),
{
    let stale = spec_stale_entries(entries, target.version_dir);
    lemma_stale_entries(entries, target.version_dir);
    lemma_clean_run(target, stale, ReportModel::empty(), answers);
    assert(ReportModel::empty().removed + stale =~= stale);
}

/// The cleanup accounts for every entry, whatever becomes of the
/// deletions: where the installation succeeds, each entry that was pending
/// or already reported is reported as removed or as failed, and nothing
/// else is.
proof fn lemma_clean_accounts(
    state: InstallerModel,
    target: TargetModel,
    pending: Seq<Seq<char>>,
    report: ReportModel,
    answers: Seq<ResponseModel>,
)
    requires
        state == target.clean(pending, report),
        state.run(answers) is Finished,
    ensures
        state.run(answers)->Finished_0 is Ok,
        forall|entry: Seq<char>|
            (report.names(entry) || pending.contains(entry)) <==> #[trigger] state.run(
                answers,
            ).cleanup().names(entry),
    decreases answers.len(),
{
    if pending.len() == 0 {
        lemma_finished_is_final(state->Finished_0, answers);
    } else {
        let current = pending[0];
        let rest = pending.skip(1);
        lemma_first_or_rest(pending);
        let removed = ReportModel { removed: report.removed.push(current), failed: report.failed };
        let failed = ReportModel { removed: report.removed, failed: report.failed.push(current) };
        assert forall|entry: Seq<char>|
            removed.removed.contains(entry) <==> (report.removed.contains(entry) || entry
                == current) by {
            lemma_push_contains(report.removed, current, entry);
        }
        assert forall|entry: Seq<char>|
            failed.failed.contains(entry) <==> (report.failed.contains(entry) || entry
                == current) by {
            lemma_push_contains(report.failed, current, entry);
        }
        match answers[0] {
            ResponseModel::Done => {
                lemma_clean_accounts(state.next(answers[0]), target, rest, removed, answers.skip(1));
            },
            ResponseModel::Failed(_) => {
                lemma_clean_accounts(state.next(answers[0]), target, rest, failed, answers.skip(1));
            },
            _ => {
                lemma_clean_accounts(state, target, pending, report, answers.skip(1));
            },
        }
    }
}

/// What a sequence holds: its first element and what its rest holds.
proof fn lemma_first_or_rest(items: Seq<Seq<char>>)
    requires
        items.len() > 0,
    ensures
        forall|entry: Seq<char>|
            items.contains(entry) <==> (entry == items[0] || items.skip(1).contains(entry)),
{
    let rest = items.skip(1);
    assert forall|entry: Seq<char>| items.contains(entry) <==> (entry == items[0]
        || rest.contains(entry)) by {
        if items.contains(entry) {
            let i = choose|i: int| 0 <= i < items.len() && items[i] == entry;
            if i > 0 {
                assert(rest[i - 1] == entry);
            }
        }
        if rest.contains(entry) {
            let i = choose|i: int| 0 <= i < rest.len() && rest[i] == entry;
            assert(items[i + 1] == entry);
        }
    }
}

/// What a sequence holds after one more element.
proof fn lemma_push_contains(items: Seq<Seq<char>>, last: Seq<char>, entry: Seq<char>)
    ensures
        items.push(last).contains(entry) <==> (items.contains(entry) || entry == last),
{
    if items.contains(entry) {
        let i = choose|i: int| 0 <= i < items.len() && items[i] == entry;
        assert(items.push(last)[i] == entry);
    }
    if entry == last {
        assert(items.push(last)[items.len() as int] == entry);
    }
}

/// Every successful fresh install accounts for each entry of the install
/// root, whatever becomes of the deletions: an entry is reported, as removed
/// or as failed, exactly if it was listed and is not the new version's
/// directory.
pub proof fn lemma_cleanup_accounts_for_every_entry(
    target: TargetModel,
    entries: Seq<Seq<char>>,
    answers: Seq<ResponseModel>,
)
    requires
        (InstallerModel::Listing { target }).next(ResponseModel::Entries(entries)).run(answers)
            is Finished,
    ensures
        (InstallerModel::Listing { target }).next(ResponseModel::Entries(entries)).run(
            answers,
        )->Finished_0 is Ok,
        forall|entry: Seq<char>|
            (entries.contains(entry) && entry != target.version_dir) <==> #[trigger] (
            InstallerModel::Listing { target }).next(ResponseModel::Entries(entries)).run(
                answers,
            ).cleanup().names(entry),
{
    let stale = spec_stale_entries(entries, target.version_dir);
    let state = (InstallerModel::Listing { target }).next(ResponseModel::Entries(entries));
    lemma_stale_entries(entries, target.version_dir);
    lemma_clean_accounts(state, target, stale, ReportModel::empty(), answers);
    let cleanup = state.run(answers).cleanup();
    assert forall|entry: Seq<char>|
        (entries.contains(entry) && entry != target.version_dir) <==> #[trigger] cleanup.names(
            entry,
        ) by {
        if entries.contains(entry) && entry != target.version_dir {
            assert(stale.contains(entry));
        }
        if cleanup.names(entry) {
            assert(stale.contains(entry));
        }
    }
}

/// The names under the install root once the host has answered a request,
/// for a host that does what it says. A directory whose deletion succeeded
/// is gone; a download leaves its directory behind, even one that failed
/// half-way; nothing else changes the root.
pub open spec fn spec_root_after(
    root: Set<Seq<char>>,
    request: RequestModel,
    response: ResponseModel,
) -> Set<Seq<char>> {
    match request {
        RequestModel::Download { directory, .. } => root.insert(directory),
        RequestModel::RemoveDirectory { path } => if response is Done {
            root.remove(path)
        } else {
            root
        },
        _ => root,
    }
}

/// The names under the install root after an installation in `state` has
/// taken a sequence of answers, each to the request that was pending.
pub open spec fn spec_root_after_run(
    state: InstallerModel,
    root: Set<Seq<char>>,
    responses: Seq<ResponseModel>,
) -> Set<Seq<char>>
    decreases responses.len(),
{
    if responses.len() == 0 {
        root
    } else {
        spec_root_after_run(
            state.next(responses[0]),
            spec_root_after(root, state.pending(), responses[0]),
            responses.skip(1),
        )
    }
}

/// One answer further: the pending request has had its effect, and the rest
/// of the answers go to the state that follows.
proof fn lemma_root_step(
    state: InstallerModel,
    root: Set<Seq<char>>,
    responses: Seq<ResponseModel>,
)
    requires
        responses.len() > 0,
    ensures
        spec_root_after_run(state, root, responses) == spec_root_after_run(
            state.next(responses[0]),
            spec_root_after(root, state.pending(), responses[0]),
            responses.skip(1),
        ),
{
}

/// A finished installation leaves the install root as it is.
proof fn lemma_finished_keeps_root(
    outcome: Result<InstalledModel, InstallErrorModel>,
    root: Set<Seq<char>>,
    responses: Seq<ResponseModel>,
)
    ensures
        spec_root_after_run(InstallerModel::Finished(outcome), root, responses) == root,
    decreases responses.len(),
{
    if responses.len() > 0 {
        lemma_finished_keeps_root(outcome, root, responses.skip(1));
    }
}

/// No version directory stays behind a failed install. Where the download
/// fails, or the binary cannot be marked executable, and the deletion that
/// follows succeeds, the target's version directory is not under the install
/// root afterwards, whatever was there before and whatever the host answers
/// later.
pub proof fn lemma_rollback_leaves_no_version_directory(
    target: TargetModel,
    root: Set<Seq<char>>,
    cause: Seq<char>,
    later: Seq<ResponseModel>,
)
    ensures
        !spec_root_after_run(
            InstallerModel::Downloading { target },
            root,
            seq![ResponseModel::Failed(cause), ResponseModel::Done] + later,
        ).contains(target.version_dir),
        !spec_root_after_run(
            InstallerModel::MarkingExecutable { target },
            root,
            seq![ResponseModel::Failed(cause), ResponseModel::Done] + later,
        ).contains(target.version_dir),
        !spec_root_after_run(
            InstallerModel::Downloading { target },
            root,
            seq![ResponseModel::Done, ResponseModel::Failed(cause), ResponseModel::Done] + later,
        ).contains(target.version_dir),
{
    let two = seq![ResponseModel::Failed(cause), ResponseModel::Done] + later;
    let one = seq![ResponseModel::Done] + later;
    assert(two.skip(1) =~= one);
    assert(one.skip(1) =~= later);
    let three = seq![ResponseModel::Done, ResponseModel::Failed(cause), ResponseModel::Done]
        + later;
    assert(three.skip(1) =~= two);
    assert(two[0] == ResponseModel::Failed(cause));
    assert(one[0] == ResponseModel::Done);
    assert(three[0] == ResponseModel::Done);
    let downloading = InstallerModel::Downloading { target };
    let marking = InstallerModel::MarkingExecutable { target };
    let with_new = root.insert(target.version_dir);
    lemma_root_step(downloading, root, two);
    lemma_root_step(downloading.next(two[0]), with_new, one);
    lemma_root_step(marking, root, two);
    lemma_root_step(marking.next(two[0]), root, one);
    lemma_root_step(downloading, root, three);
    lemma_root_step(marking, with_new, two);
    lemma_root_step(marking.next(two[0]), with_new, one);
    lemma_finished_keeps_root(
        Err(InstallErrorModel::DownloadFailed(cause)),
        root.insert(target.version_dir).remove(target.version_dir),
        later,
    );
    lemma_finished_keeps_root(
        Err(InstallErrorModel::PermissionFailed(cause)),
        root.remove(target.version_dir),
        later,
    );
    lemma_finished_keeps_root(
        Err(InstallErrorModel::PermissionFailed(cause)),
        root.insert(target.version_dir).remove(target.version_dir),
        later,
    );
}

/// The cleanup of `pending` where every deletion succeeds: what is left
/// under the root is what was there and was not pending.
proof fn lemma_clean_root(
    target: TargetModel,
    pending: Seq<Seq<char>>,
    report: ReportModel,
    root: Set<Seq<char>>,
    answers: Seq<ResponseModel>,
)
    requires
        forall|i: int| 0 <= i < answers.len() ==> answers[i] is Done,
        answers.len() >= pending.len(),
    ensures
        forall|entry: Seq<char>| #[trigger]
            spec_root_after_run(target.clean(pending, report), root, answers).contains(entry) <==> (
            root.contains(entry) && !pending.contains(entry)),
    decreases pending.len(),
{
    let state = target.clean(pending, report);
    if pending.len() == 0 {
        lemma_finished_keeps_root(state->Finished_0, root, answers);
    } else {
        let current = pending[0];
        let rest = pending.skip(1);
        let after = ReportModel { removed: report.removed.push(current), failed: report.failed };
        assert(answers[0] is Done);
        lemma_root_step(state, root, answers);
        assert(state.next(answers[0]) == target.clean(rest, after));
        lemma_clean_root(target, rest, after, root.remove(current), answers.skip(1));
        lemma_first_or_rest(pending);
    }
}

/// Only the new version stays under the install root. After a fresh
/// install, where the host lists what is under the root and every deletion
/// succeeds, nothing is left there but the new version's directory.
pub proof fn lemma_only_new_version_stays_on_disk(
    target: TargetModel,
    root: Set<Seq<char>>,
    entries: Seq<Seq<char>>,
    answers: Seq<ResponseModel>,
)
    requires
        forall|entry: Seq<char>| root.contains(entry) <==> entries.contains(entry),
        forall|i: int| 0 <= i < answers.len() ==> answers[i] is Done,
        answers.len() >= entries.len(),
    ensures
        forall|entry: Seq<char>| #[trigger]
            spec_root_after_run(
                InstallerModel::Listing { target },
                root,
                seq![ResponseModel::Entries(entries)] + answers,
            ).contains(entry) <==> (entry == target.version_dir && root.contains(entry)),
{
    let responses = seq![ResponseModel::Entries(entries)] + answers;
    assert(responses.skip(1) =~= answers);
    assert(responses[0] == ResponseModel::Entries(entries));
    let stale = spec_stale_entries(entries, target.version_dir);
    lemma_stale_entries(entries, target.version_dir);
    lemma_root_step(InstallerModel::Listing { target }, root, responses);
    lemma_clean_root(target, stale, ReportModel::empty(), root, answers);
    assert forall|entry: Seq<char>| #[trigger]
        spec_root_after_run(InstallerModel::Listing { target }, root, responses).contains(entry)
            <==> (entry == target.version_dir && root.contains(entry)) by {
        if entries.contains(entry) && entry != target.version_dir {
            assert(stale.contains(entry));
        }
        if stale.contains(entry) {
            assert(entries.contains(entry));
        }
    }
}

/// A whole fresh install, from the look on disk to the end of the cleanup:
/// where nothing fails, the new version's directory is what is under the
/// install root afterwards, and nothing else.
pub proof fn lemma_fresh_install_leaves_one_version(
    target: TargetModel,
    root: Set<Seq<char>>,
    announced: ResponseModel,
    entries: Seq<Seq<char>>,
    answers: Seq<ResponseModel>,
)
    requires
        forall|entry: Seq<char>|
            root.insert(target.version_dir).contains(entry) <==> entries.contains(entry),
        forall|i: int| 0 <= i < answers.len() ==> answers[i] is Done,
        answers.len() >= entries.len(),
    ensures
        spec_root_after_run(
            InstallerModel::Probing { target },
            root,
            seq![
                ResponseModel::Exists(false),
                announced,
                ResponseModel::Done,
                ResponseModel::Done,
                ResponseModel::Entries(entries),
            ] + answers,
        ) =~= set![target.version_dir],
{
    let listed = seq![ResponseModel::Entries(entries)] + answers;
    let marked = seq![ResponseModel::Done] + listed;
    let downloaded = seq![ResponseModel::Done] + marked;
    let told = seq![announced] + downloaded;
    let all = seq![
        ResponseModel::Exists(false),
        announced,
        ResponseModel::Done,
        ResponseModel::Done,
        ResponseModel::Entries(entries),
    ] + answers;
    assert(all.skip(1) =~= told);
    assert(told.skip(1) =~= downloaded);
    assert(downloaded.skip(1) =~= marked);
    assert(marked.skip(1) =~= listed);
    assert(all[0] == ResponseModel::Exists(false));
    assert(told[0] == announced);
    assert(downloaded[0] == ResponseModel::Done);
    assert(marked[0] == ResponseModel::Done);
    let with_new = root.insert(target.version_dir);
    lemma_only_new_version_stays_on_disk(target, with_new, entries, answers);
    let probing = InstallerModel::Probing { target };
    lemma_root_step(probing, root, all);
    lemma_root_step(InstallerModel::AnnouncingDownload { target }, root, told);
    lemma_root_step(InstallerModel::Downloading { target }, root, downloaded);
    lemma_root_step(InstallerModel::MarkingExecutable { target }, with_new, marked);
}

} // verus!
