//! The operations on the remote side: applying a new manifest, and
//! comparing the published manifest with the one applied last.

use vstd::prelude::*;
use crate::cleaner::{
    expected_files,
    extra_files,
    find_extra_files,
    get_expected_files_from_details,
    FolderScan,
    FolderScanView,
};
use crate::engine::{TorrentDetailsResponse, TorrentDetailsView, TorrentStats, TorrentStatsView};
use crate::hashing::{
    copy_bytes,
    get_local_torrent_hash,
    local_torrent_hash,
    manifest_changed,
    remote_differs,
    CachedManifest,
    CachedManifestView,
};
use crate::local::{fix_done, fix_finish, refresh_events, refresh_managed_torrent_status_event};
use crate::messages::{
    failure_events,
    join_events,
    no_events,
    send_failure,
    send_sync_event,
    send_sync_status_event,
    SyncEvent,
    SyncEventView,
};
use crate::paths::PathSet;
use crate::progress::{finished, waiting, Phase, PhaseView, Progress, ProgressView, Purpose};
use crate::requests::{added_view, details_view, stats_view, SyncRequest, SyncRequestView};
use crate::status::{SyncStatus, SyncStatusView};
use crate::text::prefixed;
use crate::torrent::{
    after_add,
    after_forget,
    manage_torrent_task,
    task_after_add,
    task_after_forget,
    task_begin,
    ReplaceError,
    ReplaceErrorView,
    TaskNext,
    TaskNextView,
    TaskStep,
    TaskStepView,
};
use crate::transport::{download_torrent, fetched, FetchOutcome, FetchOutcomeView};
use crate::types::{LocalTorrentState, RemoteTorrentState, SyncConfig, SyncConfigView, SyncState};

verus! {

/// The end of an update. With a new torrent, it becomes the managed one,
/// the remote manifest counts as checked, and the torrent's figures are
/// asked for. Without an identifier the update still counts as applied. A
/// failed update leaves the managed torrent as it was and makes the remote
/// state unknown again.
pub open spec fn apply_done(
    state: SyncState,
    events: Seq<SyncEventView>,
    result: Result<Option<usize>, ReplaceErrorView>,
) -> ProgressView {
    match result {
        Ok(Some(id)) => waiting(
            SyncState { local: LocalTorrentState::Active { id }, remote: RemoteTorrentState::Checked },
            events,
            SyncRequestView::Stats { id },
            PhaseView::ApplyStats { id },
        ),
        Ok(None) => finished(
            SyncState { local: LocalTorrentState::NotLoaded, remote: RemoteTorrentState::Checked },
            events + seq![SyncEventView::StatusUpdate(SyncStatusView::Idle)],
        ),
        Err(error) => finished(
            SyncState { local: state.local, remote: RemoteTorrentState::Unknown },
            events + failure_events("Sync error managing torrent: "@ + error.message()),
        ),
    }
}

/// How an operation goes on with a step of the replacement: it asks the
/// engine for what the step wants next, keeping the manifest for the add, or
/// ends as its purpose says.
pub open spec fn replacement(
    purpose: Purpose,
    state: SyncState,
    manifest: Seq<u8>,
    task: TaskStepView,
) -> ProgressView {
    match task.next {
        TaskNextView::Forget { id } => waiting(
            state,
            task.events,
            SyncRequestView::Forget { id },
            PhaseView::Forgetting { purpose, id, manifest },
        ),
        TaskNextView::Add { options } => waiting(
            state,
            task.events,
            SyncRequestView::AddTorrent { manifest, options },
            PhaseView::Adding { purpose },
        ),
        TaskNextView::Done(result) => match purpose {
            Purpose::Fix => fix_done(state, task.events, result),
            Purpose::Apply => apply_done(state, task.events, result),
        },
    }
}

/// Ends an update with the result of the replacement.
pub fn apply_finish(state: SyncState, events: Vec<SyncEvent>, result: Result<Option<usize>, ReplaceError>) -> (progress:
    Progress)
    ensures
        progress@ == apply_done(
            state,
            events.deep_view(),
            match result {
                Ok(id) => Ok(id),
                Err(error) => Err(error@),
            },
        ),
{
    let mut events = events;
    let ghost before = events.deep_view();
    match result {
        Ok(Some(id)) => Progress::waiting(
            SyncState { local: LocalTorrentState::Active { id }, remote: RemoteTorrentState::Checked },
            events,
            SyncRequest::Stats { id },
            Phase::ApplyStats { id },
        ),
        Ok(None) => {
            send_sync_status_event(&mut events, SyncStatus::Idle);
            proof {
                assert(events.deep_view() =~= before + seq![
                    SyncEventView::StatusUpdate(SyncStatusView::Idle),
                ]);
            }
            Progress::finished(
                SyncState {
                    local: LocalTorrentState::NotLoaded,
                    remote: RemoteTorrentState::Checked,
                },
                events,
            )
        },
        Err(error) => {
            let reason = error.message();
            send_failure(&mut events, prefixed("Sync error managing torrent: ", &reason));
            Progress::finished(
                SyncState { local: state.local, remote: RemoteTorrentState::Unknown },
                events,
            )
        },
    }
}

/// Goes on with a step of the replacement of the managed torrent.
pub fn continue_replacement(purpose: Purpose, state: SyncState, manifest: Vec<u8>, task: TaskStep) -> (progress:
    Progress)
    ensures
        progress@ == replacement(purpose, state, manifest@, task@),
{
    match task.next {
        TaskNext::Forget { id } => Progress::waiting(
            state,
            task.events,
            SyncRequest::Forget { id },
            Phase::Forgetting { purpose, id, manifest },
        ),
        TaskNext::Add { options } => Progress::waiting(
            state,
            task.events,
            SyncRequest::AddTorrent { manifest, options },
            Phase::Adding { purpose },
        ),
        TaskNext::Done(result) => match purpose {
            Purpose::Fix => fix_finish(state, task.events, result),
            Purpose::Apply => apply_finish(state, task.events, result),
        },
    }
}

/// The start of an update: the managed torrent, if there is one, is
/// replaced by the given manifest.
pub open spec fn apply_begin(config: SyncConfigView, state: SyncState, manifest: Seq<u8>) -> ProgressView {
    replacement(Purpose::Apply, state, manifest, task_begin(config, state.local.id())).after(
        seq![SyncEventView::StatusUpdate(SyncStatusView::UpdatingTorrent)],
    )
}

/// A replacement after the engine's answer to the forget.
pub open spec fn replacement_forgot(
    config: SyncConfigView,
    state: SyncState,
    purpose: Purpose,
    id: usize,
    manifest: Seq<u8>,
    failure: Option<Seq<char>>,
) -> ProgressView {
    replacement(purpose, state, manifest, task_after_forget(config, id, failure))
}

/// A replacement after the engine's answer to the add.
pub open spec fn replacement_added(
    state: SyncState,
    purpose: Purpose,
    outcome: Result<Option<usize>, Seq<char>>,
) -> ProgressView {
    replacement(purpose, state, Seq::empty(), task_after_add(outcome))
}

/// An update after the figures of the new torrent: they are reported, and
/// the engine is asked for the torrent's details, to look for extra files.
pub open spec fn apply_with_stats(state: SyncState, id: usize, outcome: Result<TorrentStatsView, Seq<char>>) -> ProgressView {
    waiting(
        state,
        refresh_events(id, outcome) + seq![
            SyncEventView::StatusUpdate(SyncStatusView::CheckingLocal),
        ],
        SyncRequestView::Details { id },
        PhaseView::ApplyDetails,
    )
}

/// An update after the details of the new torrent: the folder is scanned.
pub open spec fn apply_with_details(
    config: SyncConfigView,
    state: SyncState,
    outcome: Result<TorrentDetailsView, Seq<char>>,
) -> ProgressView {
    match outcome {
        Err(reason) => finished(
            state,
            failure_events("Failed to get torrent details after update: "@ + reason),
        ),
        Ok(details) => waiting(
            state,
            Seq::empty(),
            SyncRequestView::ScanFolder { path: config.download_path },
            PhaseView::ApplyScan { expected: expected_files(details.files) },
        ),
    }
}

/// The end of an update: the files that the new manifest does not list are
/// reported.
pub open spec fn apply_with_scan(
    config: SyncConfigView,
    state: SyncState,
    expected: Set<Seq<char>>,
    scan: FolderScanView,
) -> ProgressView {
    match scan {
        FolderScanView::Failed(reason) => finished(
            state,
            failure_events("Failed to find extra files after update: "@ + reason),
        ),
        found => finished(
            state,
            seq![
                SyncEventView::ExtraFilesFound(
                    extra_files(config.download_path, found.files(), expected),
                ),
                SyncEventView::StatusUpdate(SyncStatusView::Idle),
            ],
        ),
    }
}

fn fail(state: SyncState, message: String) -> (progress: Progress)
    ensures
        progress@ == finished(state, failure_events(message@)),
{
    let mut events = no_events();
    send_failure(&mut events, message);
    proof {
        assert(events.deep_view() =~= failure_events(message@));
    }
    Progress::finished(state, events)
}

/// Starts applying a new manifest.
pub fn apply_remote_update(config: &SyncConfig, state: SyncState, torrent_content: Vec<u8>) -> (progress:
    Progress)
    ensures
        progress@ == apply_begin(config@, state, torrent_content@),
{
    let mut events = no_events();
    send_sync_status_event(&mut events, SyncStatus::UpdatingTorrent);
    let current_id_to_forget = state.local.active_id();
    let task = manage_torrent_task(config, current_id_to_forget);
    continue_replacement(Purpose::Apply, state, torrent_content, task).after(events)
}

/// Goes on with a replacement once the engine has answered the forget.
pub fn replacement_after_forget(
    config: &SyncConfig,
    state: SyncState,
    purpose: Purpose,
    id: usize,
    manifest: Vec<u8>,
    failure: Option<String>,
) -> (progress: Progress)
    ensures
        progress@ == replacement_forgot(
            config@,
            state,
            purpose,
            id,
            manifest@,
            failure.deep_view(),
        ),
{
    continue_replacement(purpose, state, manifest, after_forget(config, id, failure))
}

/// Ends a replacement once the engine has answered the add.
pub fn replacement_after_add(state: SyncState, purpose: Purpose, outcome: Result<Option<usize>, String>) -> (progress:
    Progress)
    ensures
        progress@ == replacement_added(state, purpose, added_view(outcome)),
{
    let none: Vec<u8> = Vec::new();
    proof {
        assert(none@ =~= Seq::<u8>::empty());
    }
    continue_replacement(purpose, state, none, after_add(outcome))
}

/// Goes on with an update once the figures of the new torrent are there.
pub fn apply_after_stats(state: SyncState, id: usize, outcome: Result<TorrentStats, String>) -> (progress:
    Progress)
    ensures
        progress@ == apply_with_stats(state, id, stats_view(outcome)),
{
    let shown = refresh_managed_torrent_status_event(id, outcome);
    let mut events = no_events();
    send_sync_status_event(&mut events, SyncStatus::CheckingLocal);
    Progress::waiting(
        state,
        join_events(shown, events),
        SyncRequest::Details { id },
        Phase::ApplyDetails,
    )
}

/// Goes on with an update once the details of the new torrent are there.
pub fn apply_after_details(
    config: &SyncConfig,
    state: SyncState,
    outcome: Result<TorrentDetailsResponse, String>,
) -> (progress: Progress)
    ensures
        progress@ == apply_with_details(config@, state, details_view(outcome)),
{
    match outcome {
        Err(reason) => fail(
            state,
            prefixed("Failed to get torrent details after update: ", &reason),
        ),
        Ok(details) => {
            let expected = get_expected_files_from_details(&details);
            Progress::waiting(
                state,
                no_events(),
                SyncRequest::ScanFolder { path: config.download_path.clone() },
                Phase::ApplyScan { expected },
            )
        },
    }
}

/// Ends an update with the scan of the folder.
pub fn apply_after_scan(config: &SyncConfig, state: SyncState, expected: PathSet, scan: FolderScan) -> (progress:
    Progress)
    ensures
        progress@ == apply_with_scan(config@, state, expected@, scan@),
{
    match find_extra_files(&config.download_path, &scan, &expected) {
        Err(reason) => fail(state, prefixed("Failed to find extra files after update: ", &reason)),
        Ok(extra) => {
            let mut events = no_events();
            let ghost paths = extra.deep_view();
            send_sync_event(&mut events, SyncEvent::ExtraFilesFound(extra));
            send_sync_status_event(&mut events, SyncStatus::Idle);
            proof {
                assert(events.deep_view() =~= seq![
                    SyncEventView::ExtraFilesFound(paths),
                    SyncEventView::StatusUpdate(SyncStatusView::Idle),
                ]);
            }
            Progress::finished(state, events)
        },
    }
}

/// The start of a comparison: nothing to do without an address, else the
/// manifest is fetched.
pub open spec fn compare_begin(state: SyncState, url: Seq<char>) -> ProgressView {
    if url.len() == 0 {
        finished(state, seq![SyncEventView::StatusUpdate(SyncStatusView::Idle)])
    } else {
        waiting(
            state,
            seq![SyncEventView::StatusUpdate(SyncStatusView::CheckingRemote)],
            SyncRequestView::Fetch { url },
            PhaseView::Fetching,
        )
    }
}

/// The end of a comparison that found another manifest: an update is
/// available, and the manifest is handed to the driver.
pub open spec fn update_found(state: SyncState, remote: Seq<u8>) -> ProgressView {
    finished(
        SyncState { remote: RemoteTorrentState::UpdateAvailable, ..state },
        seq![
            SyncEventView::RemoteUpdateFound(remote),
            SyncEventView::StatusUpdate(SyncStatusView::RemoteChanged),
        ],
    )
}

/// A comparison that found another manifest: it is written to the cache
/// first, where there is one.
pub open spec fn store_update(config: SyncConfigView, state: SyncState, remote: Seq<u8>) -> ProgressView {
    match config.cached_torrent_path {
        Some(path) => waiting(
            state,
            Seq::empty(),
            SyncRequestView::StoreManifest { path, manifest: remote },
            PhaseView::Storing { remote },
        ),
        None => update_found(state, remote),
    }
}

/// A comparison after the fetch: a failed fetch changes nothing; a fetched
/// manifest is held against the cached one, and counts as new at once
/// where no cache is configured.
pub open spec fn compare_with_fetch(config: SyncConfigView, state: SyncState, outcome: FetchOutcomeView) -> ProgressView {
    match fetched(outcome) {
        Err(error) => finished(
            state,
            failure_events("Failed to download remote torrent: "@ + error.message()),
        ),
        Ok(remote) => match config.cached_torrent_path {
            Some(path) => waiting(
                state,
                Seq::empty(),
                SyncRequestView::ReadManifest { path },
                PhaseView::Comparing { remote },
            ),
            None => update_found(state, remote),
        },
    }
}

/// A comparison after the cache has been read: with the same hash nothing
/// changes and the status is idle again; with another hash, or without a
/// cached manifest, the fetched one is an update.
pub open spec fn compare_with_cache(
    config: SyncConfigView,
    state: SyncState,
    remote: Seq<u8>,
    cached: CachedManifestView,
) -> ProgressView {
    match local_torrent_hash(cached) {
        Err(reason) => finished(
            state,
            failure_events("Failed to get local torrent hash: "@ + reason),
        ),
        Ok(local_hash) => if manifest_changed(remote, local_hash) {
            store_update(config, state, remote)
        } else {
            finished(state, seq![SyncEventView::StatusUpdate(SyncStatusView::Idle)])
        },
    }
}

/// Starts comparing the manifest published at `url` with the cached one.
pub fn direct_download_and_compare(state: SyncState, url: String) -> (progress: Progress)
    ensures
        progress@ == compare_begin(state, url@),
{
    let mut events = no_events();
    if url.as_str().is_empty() {
        send_sync_status_event(&mut events, SyncStatus::Idle);
        Progress::finished(state, events)
    } else {
        send_sync_status_event(&mut events, SyncStatus::CheckingRemote);
        Progress::waiting(state, events, SyncRequest::Fetch { url }, Phase::Fetching)
    }
}

/// Ends a comparison that found another manifest.
pub fn report_update(state: SyncState, remote: Vec<u8>) -> (progress: Progress)
    ensures
        progress@ == update_found(state, remote@),
{
    let mut events = no_events();
    let ghost bytes = remote@;
    send_sync_event(&mut events, SyncEvent::RemoteUpdateFound(remote));
    send_sync_status_event(&mut events, SyncStatus::RemoteChanged);
    proof {
        assert(events.deep_view() =~= seq![
            SyncEventView::RemoteUpdateFound(bytes),
            SyncEventView::StatusUpdate(SyncStatusView::RemoteChanged),
        ]);
    }
    Progress::finished(
        SyncState { local: state.local, remote: RemoteTorrentState::UpdateAvailable },
        events,
    )
}

fn store(config: &SyncConfig, state: SyncState, remote: Vec<u8>) -> (progress: Progress)
    ensures
        progress@ == store_update(config@, state, remote@),
{
    match &config.cached_torrent_path {
        Some(path) => {
            let manifest = copy_bytes(&remote);
            Progress::waiting(
                state,
                no_events(),
                SyncRequest::StoreManifest { path: path.clone(), manifest },
                Phase::Storing { remote },
            )
        },
        None => report_update(state, remote),
    }
}

/// Goes on with a comparison once the fetch has ended.
pub fn compare_after_fetch(config: &SyncConfig, state: SyncState, outcome: FetchOutcome) -> (progress:
    Progress)
    ensures
        progress@ == compare_with_fetch(config@, state, outcome@),
{
    match download_torrent(outcome) {
        Err(error) => {
            let reason = error.message();
            fail(state, prefixed("Failed to download remote torrent: ", &reason))
        },
        Ok(remote) => match &config.cached_torrent_path {
            Some(path) => Progress::waiting(
                state,
                no_events(),
                SyncRequest::ReadManifest { path: path.clone() },
                Phase::Comparing { remote },
            ),
            None => report_update(state, remote),
        },
    }
}

/// Goes on with a comparison once the cache has been read.
pub fn compare_after_read(config: &SyncConfig, state: SyncState, remote: Vec<u8>, cached: CachedManifest) -> (progress:
    Progress)
    ensures
        progress@ == compare_with_cache(config@, state, remote@, cached@),
{
    match get_local_torrent_hash(&cached) {
        Err(reason) => fail(state, prefixed("Failed to get local torrent hash: ", &reason)),
        Ok(local_hash) => {
            if remote_differs(remote.as_slice(), &local_hash) {
                store(config, state, remote)
            } else {
                let mut events = no_events();
                send_sync_status_event(&mut events, SyncStatus::Idle);
                Progress::finished(state, events)
            }
        },
    }
}

} // verus!
