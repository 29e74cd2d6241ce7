//! The operations on the local side: the figures of the managed torrent,
//! the verification of the folder, the fix of missing files, and the
//! deletion of extra ones.

use vstd::prelude::*;
use crate::cleaner::{
    expected_files,
    extra_files,
    find_extra_files,
    find_missing_files,
    get_expected_files_from_details,
    missing_files,
    FolderScan,
    FolderScanView,
};
use crate::engine::{
    TorrentDetailsResponse,
    TorrentDetailsView,
    TorrentStats,
    TorrentStatsState,
    TorrentStatsView,
};
use crate::hashing::{CachedManifest, CachedManifestView};
use crate::messages::{
    failure_events,
    no_events,
    send_failure,
    send_sync_event,
    send_sync_status_event,
    SyncEvent,
    SyncEventView,
};
use crate::paths::PathSet;
use crate::progress::{finished, waiting, Phase, PhaseView, Progress, ProgressView, Purpose};
use crate::remote::{continue_replacement, replacement};
use crate::requests::{
    details_view,
    stats_view,
    DeleteFailure,
    DeleteFailureView,
    SyncRequest,
    SyncRequestView,
};
use crate::status::{SyncStatus, SyncStatusView};
use crate::text::{join_strings, join_with, prefixed};
use crate::torrent::{manage_torrent_task, task_begin, ReplaceError, ReplaceErrorView};
use crate::types::{LocalTorrentState, SyncConfig, SyncConfigView, SyncState};

verus! {

/// The status that the figures of a torrent stand for: still checking while
/// the engine initialises, active while it is live or paused, and the
/// engine's error otherwise.
pub open spec fn status_events(stats: TorrentStatsView) -> Seq<SyncEventView> {
    match stats.state {
        TorrentStatsState::Initializing => seq![
            SyncEventView::StatusUpdate(SyncStatusView::CheckingLocal),
        ],
        TorrentStatsState::Live => seq![SyncEventView::StatusUpdate(SyncStatusView::LocalActive)],
        TorrentStatsState::Paused => seq![SyncEventView::StatusUpdate(SyncStatusView::LocalActive)],
        TorrentStatsState::Error => {
            let message = match stats.error {
                Some(message) => message,
                None => "Unknown error"@,
            };
            seq![
                SyncEventView::StatusUpdate(SyncStatusView::Error(message)),
                SyncEventView::Error(message),
            ]
        },
    }
}

/// What is reported when the figures of the managed torrent have been asked
/// for: the figures and the status they stand for, or, where the engine
/// failed, cleared figures and the error.
pub open spec fn refresh_events(id: usize, outcome: Result<TorrentStatsView, Seq<char>>) -> Seq<
    SyncEventView,
> {
    match outcome {
        Ok(stats) => seq![SyncEventView::ManagedTorrentUpdate(Some((id, stats)))] + status_events(
            stats,
        ),
        Err(reason) => {
            let message = "Failed to get torrent stats: "@ + reason;
            seq![
                SyncEventView::ManagedTorrentUpdate(None),
                SyncEventView::StatusUpdate(SyncStatusView::Error(message)),
                SyncEventView::Error(message),
            ]
        },
    }
}

/// Reports the figures of the managed torrent, as the engine answered.
pub fn refresh_managed_torrent_status_event(managed_id: usize, outcome: Result<TorrentStats, String>) -> (events:
    Vec<SyncEvent>)
    ensures
        events.deep_view() == refresh_events(managed_id, stats_view(outcome)),
{
    let mut events = no_events();
    match outcome {
        Ok(stats) => {
            let mut status = no_events();
            match stats.state {
                TorrentStatsState::Initializing => {
                    send_sync_status_event(&mut status, SyncStatus::CheckingLocal);
                },
                TorrentStatsState::Live => {
                    send_sync_status_event(&mut status, SyncStatus::LocalActive);
                },
                TorrentStatsState::Paused => {
                    send_sync_status_event(&mut status, SyncStatus::LocalActive);
                },
                TorrentStatsState::Error => {
                    let message = match &stats.error {
                        Some(message) => message.clone(),
                        None => String::from_str("Unknown error"),
                    };
                    send_sync_status_event(&mut status, SyncStatus::Error(message.clone()));
                    send_sync_event(&mut status, SyncEvent::Error(message));
                },
            }
            proof {
                assert(status.deep_view() =~= status_events(stats@));
            }
            let ghost shown = stats@;
            send_sync_event(&mut events, SyncEvent::ManagedTorrentUpdate(Some((managed_id, stats))));
            proof {
                assert(events.deep_view() =~= seq![
                    SyncEventView::ManagedTorrentUpdate(Some((managed_id, shown))),
                ]);
            }
            crate::messages::join_events(events, status)
        },
        Err(reason) => {
            let message = prefixed("Failed to get torrent stats: ", &reason);
            send_sync_event(&mut events, SyncEvent::ManagedTorrentUpdate(None));
            send_sync_status_event(&mut events, SyncStatus::Error(message.clone()));
            send_sync_event(&mut events, SyncEvent::Error(message));
            proof {
                assert(events.deep_view() =~= refresh_events(managed_id, stats_view(outcome)));
            }
            events
        },
    }
}

/// The start of a verification: refused without a managed torrent or a
/// download folder, else the engine is asked for the torrent's details.
pub open spec fn verify_begin(config: SyncConfigView, state: SyncState) -> ProgressView {
    match state.local {
        LocalTorrentState::NotLoaded => finished(
            state,
            failure_events("No active torrent to verify against"@),
        ),
        LocalTorrentState::Active { id } => if config.download_path.len() == 0 {
            finished(state, failure_events("Download path not configured"@))
        } else {
            waiting(
                state,
                seq![SyncEventView::StatusUpdate(SyncStatusView::CheckingLocal)],
                SyncRequestView::Details { id },
                PhaseView::VerifyDetails,
            )
        },
    }
}

/// A verification after the engine's answer: with the details, the expected
/// files are derived afresh and the folder is scanned.
pub open spec fn verify_with_details(
    config: SyncConfigView,
    state: SyncState,
    outcome: Result<TorrentDetailsView, Seq<char>>,
) -> ProgressView {
    match outcome {
        Err(reason) => finished(state, failure_events("Failed to get torrent details: "@ + reason)),
        Ok(details) => waiting(
            state,
            Seq::empty(),
            SyncRequestView::ScanFolder { path: config.download_path },
            PhaseView::VerifyScan { expected: expected_files(details.files) },
        ),
    }
}

/// The report of the missing files; one that is not empty also sets the
/// status to active, since the engine is still to fetch them.
pub open spec fn missing_report(missing: Set<Seq<char>>) -> Seq<SyncEventView> {
    if missing == Set::<Seq<char>>::empty() {
        seq![SyncEventView::MissingFilesFound(missing)]
    } else {
        seq![
            SyncEventView::MissingFilesFound(missing),
            SyncEventView::StatusUpdate(SyncStatusView::LocalActive),
        ]
    }
}

/// The report of the extra files; one that is not empty also sets the
/// status to idle, while the user decides.
pub open spec fn extra_report(extra: Seq<Seq<char>>) -> Seq<SyncEventView> {
    if extra.len() == 0 {
        seq![SyncEventView::ExtraFilesFound(extra)]
    } else {
        seq![
            SyncEventView::ExtraFilesFound(extra),
            SyncEventView::StatusUpdate(SyncStatusView::Idle),
        ]
    }
}

/// The end of a verification: the missing files are reported, then the
/// extra ones. Both reports are made even when they are empty, so that an
/// earlier finding is withdrawn.
pub open spec fn verify_with_scan(
    config: SyncConfigView,
    state: SyncState,
    expected: Set<Seq<char>>,
    scan: FolderScanView,
) -> ProgressView {
    match scan {
        FolderScanView::Failed(reason) => finished(
            state,
            failure_events("Failed to check for missing files: "@ + reason),
        ),
        found => finished(
            state,
            missing_report(missing_files(found.files(), expected)) + extra_report(
                extra_files(config.download_path, found.files(), expected),
            ),
        ),
    }
}

fn fail(state: SyncState, message: String) -> (progress: Progress)
    ensures
        progress@ == finished(state, failure_events(message@)),
{
    let mut events = no_events();
    send_failure(&mut events, message);
    proof {
        assert(events.deep_view() =~= failure_events(message@));
    }
    Progress::finished(state, events)
}

/// Starts a verification of the folder against the managed torrent.
pub fn verify_folder_contents(config: &SyncConfig, state: SyncState) -> (progress: Progress)
    ensures
        progress@ == verify_begin(config@, state),
{
    match state.local {
        LocalTorrentState::NotLoaded => fail(
            state,
            String::from_str("No active torrent to verify against"),
        ),
        LocalTorrentState::Active { id } => {
            if config.download_path.as_str().is_empty() {
                fail(state, String::from_str("Download path not configured"))
            } else {
                let mut events = no_events();
                send_sync_status_event(&mut events, SyncStatus::CheckingLocal);
                Progress::waiting(state, events, SyncRequest::Details { id }, Phase::VerifyDetails)
            }
        },
    }
}

/// Goes on with a verification once the engine has answered.
pub fn verify_after_details(
    config: &SyncConfig,
    state: SyncState,
    outcome: Result<TorrentDetailsResponse, String>,
) -> (progress: Progress)
    ensures
        progress@ == verify_with_details(config@, state, details_view(outcome)),
{
    match outcome {
        Err(reason) => fail(state, prefixed("Failed to get torrent details: ", &reason)),
        Ok(details) => {
            let expected = get_expected_files_from_details(&details);
            Progress::waiting(
                state,
                no_events(),
                SyncRequest::ScanFolder { path: config.download_path.clone() },
                Phase::VerifyScan { expected },
            )
        },
    }
}

fn report_missing(missing: PathSet) -> (events: Vec<SyncEvent>)
    ensures
        events.deep_view() == missing_report(missing@),
{
    let mut events = no_events();
    let none = missing.is_empty();
    send_sync_event(&mut events, SyncEvent::MissingFilesFound(missing));
    if !none {
        send_sync_status_event(&mut events, SyncStatus::LocalActive);
    }
    events
}

fn report_extra(extra: Vec<String>) -> (events: Vec<SyncEvent>)
    ensures
        events.deep_view() == extra_report(extra.deep_view()),
{
    let mut events = no_events();
    let none = extra.len() == 0;
    send_sync_event(&mut events, SyncEvent::ExtraFilesFound(extra));
    if !none {
        send_sync_status_event(&mut events, SyncStatus::Idle);
    }
    events
}

/// Ends a verification with the scan of the folder.
pub fn verify_after_scan(config: &SyncConfig, state: SyncState, expected: PathSet, scan: FolderScan) -> (progress:
    Progress)
    ensures
        progress@ == verify_with_scan(config@, state, expected@, scan@),
{
    match find_missing_files(&scan, &expected) {
        Err(reason) => fail(state, prefixed("Failed to check for missing files: ", &reason)),
        Ok(missing) => {
            let events = report_missing(missing);
            match find_extra_files(&config.download_path, &scan, &expected) {
                Ok(extra) => Progress::finished(
                    state,
                    crate::messages::join_events(events, report_extra(extra)),
                ),
                Err(reason) => fail(state, prefixed("Failed to find extra files: ", &reason)),
            }
        },
    }
}

/// The start of a fix: refused without a managed torrent or a manifest
/// cache, else the cached manifest is read.
pub open spec fn fix_begin(config: SyncConfigView, state: SyncState) -> ProgressView {
    match state.local {
        LocalTorrentState::NotLoaded => finished(
            state,
            failure_events("No active torrent to fix missing files"@),
        ),
        LocalTorrentState::Active { id } => match config.cached_torrent_path {
            None => finished(
                state,
                seq![SyncEventView::StatusUpdate(SyncStatusView::UpdatingTorrent)] + failure_events(
                    "Failed to get cached torrent path: no cache path configured"@,
                ),
            ),
            Some(path) => waiting(
                state,
                seq![SyncEventView::StatusUpdate(SyncStatusView::UpdatingTorrent)],
                SyncRequestView::ReadManifest { path },
                PhaseView::FixRead { id },
            ),
        },
    }
}

/// A fix after the cache has been read: with the manifest, the managed
/// torrent is replaced by it.
pub open spec fn fix_with_manifest(
    config: SyncConfigView,
    state: SyncState,
    id: usize,
    cached: CachedManifestView,
) -> ProgressView {
    match cached {
        CachedManifestView::Failed(reason) => finished(
            state,
            failure_events("Failed to read cached torrent file: "@ + reason),
        ),
        CachedManifestView::Absent => finished(
            state,
            failure_events("Failed to read cached torrent file: no cached torrent file"@),
        ),
        CachedManifestView::Bytes(manifest) => replacement(
            Purpose::Fix,
            state,
            manifest,
            task_begin(config, Some(id)),
        ),
    }
}

/// The end of a fix. The new torrent becomes the managed one and its
/// figures are asked for. Without a new torrent, whether the engine gave no
/// identifier or the replacement failed, none is managed any more.
pub open spec fn fix_done(
    state: SyncState,
    events: Seq<SyncEventView>,
    result: Result<Option<usize>, ReplaceErrorView>,
) -> ProgressView {
    match result {
        Ok(Some(id)) => waiting(
            SyncState { local: LocalTorrentState::Active { id }, ..state },
            events + seq![SyncEventView::TorrentAdded(id)],
            SyncRequestView::Stats { id },
            PhaseView::FixStats { id },
        ),
        Ok(None) => finished(SyncState { local: LocalTorrentState::NotLoaded, ..state }, events),
        Err(error) => finished(
            SyncState { local: LocalTorrentState::NotLoaded, ..state },
            events + failure_events(
                "Failed to restart torrent to download missing files: "@ + error.message(),
            ),
        ),
    }
}

/// Starts the fix of missing files.
pub fn fix_missing_files(config: &SyncConfig, state: SyncState) -> (progress: Progress)
    ensures
        progress@ == fix_begin(config@, state),
{
    match state.local {
        LocalTorrentState::NotLoaded => fail(
            state,
            String::from_str("No active torrent to fix missing files"),
        ),
        LocalTorrentState::Active { id } => {
            let mut events = no_events();
            send_sync_status_event(&mut events, SyncStatus::UpdatingTorrent);
            match &config.cached_torrent_path {
                None => {
                    send_failure(
                        &mut events,
                        String::from_str(
                            "Failed to get cached torrent path: no cache path configured",
                        ),
                    );
                    Progress::finished(state, events)
                },
                Some(path) => Progress::waiting(
                    state,
                    events,
                    SyncRequest::ReadManifest { path: path.clone() },
                    Phase::FixRead { id },
                ),
            }
        },
    }
}

/// Goes on with a fix once the cache has been read.
pub fn fix_after_read(config: &SyncConfig, state: SyncState, id: usize, cached: CachedManifest) -> (progress:
    Progress)
    ensures
        progress@ == fix_with_manifest(config@, state, id, cached@),
{
    match cached {
        CachedManifest::Failed(reason) => fail(
            state,
            prefixed("Failed to read cached torrent file: ", &reason),
        ),
        CachedManifest::Absent => fail(
            state,
            String::from_str("Failed to read cached torrent file: no cached torrent file"),
        ),
        CachedManifest::Bytes(manifest) => continue_replacement(
            Purpose::Fix,
            state,
            manifest,
            manage_torrent_task(config, Some(id)),
        ),
    }
}

/// Ends a fix with the result of the replacement.
pub fn fix_finish(state: SyncState, events: Vec<SyncEvent>, result: Result<Option<usize>, ReplaceError>) -> (progress:
    Progress)
    ensures
        progress@ == fix_done(
            state,
            events.deep_view(),
            match result {
                Ok(id) => Ok(id),
                Err(error) => Err(error@),
            },
        ),
{
    let mut events = events;
    let ghost before = events.deep_view();
    match result {
        Ok(Some(id)) => {
            send_sync_event(&mut events, SyncEvent::TorrentAdded(id));
            proof {
                assert(events.deep_view() =~= before + seq![SyncEventView::TorrentAdded(id)]);
            }
            Progress::waiting(
                SyncState { local: LocalTorrentState::Active { id }, remote: state.remote },
                events,
                SyncRequest::Stats { id },
                Phase::FixStats { id },
            )
        },
        Ok(None) => Progress::finished(
            SyncState { local: LocalTorrentState::NotLoaded, remote: state.remote },
            events,
        ),
        Err(error) => {
            let reason = error.message();
            send_failure(
                &mut events,
                prefixed("Failed to restart torrent to download missing files: ", &reason),
            );
            Progress::finished(
                SyncState { local: LocalTorrentState::NotLoaded, remote: state.remote },
                events,
            )
        },
    }
}

/// The line that reports one file that could not be deleted.
pub open spec fn failure_line(failure: DeleteFailureView) -> Seq<char> {
    "Failed to delete "@ + failure.path + ": "@ + failure.reason
}

/// The one message for all files that could not be deleted.
pub open spec fn deletion_message(failures: Seq<DeleteFailureView>) -> Seq<char> {
    "Errors during file deletion: "@ + join_with(
        failures.map_values(|failure: DeleteFailureView| failure_line(failure)),
        ", "@,
    )
}

/// The start of a deletion: the driver is asked to delete every file.
pub open spec fn delete_begin(state: SyncState, files: Seq<Seq<char>>) -> ProgressView {
    waiting(
        state,
        seq![SyncEventView::StatusUpdate(SyncStatusView::CheckingLocal)],
        SyncRequestView::DeleteFiles { paths: files },
        PhaseView::Deleting,
    )
}

/// The end of a deletion. Where every file is gone, the status is idle and
/// the list of extra files is withdrawn. Where some are left, one error
/// names them all.
pub open spec fn delete_done(state: SyncState, failures: Seq<DeleteFailureView>) -> ProgressView {
    if failures.len() == 0 {
        finished(
            state,
            seq![
                SyncEventView::StatusUpdate(SyncStatusView::Idle),
                SyncEventView::ExtraFilesFound(Seq::empty()),
            ],
        )
    } else {
        finished(state, failure_events(deletion_message(failures)))
    }
}

/// Starts the deletion of the given files.
pub fn delete_files(state: SyncState, files_to_delete: Vec<String>) -> (progress: Progress)
    ensures
        progress@ == delete_begin(state, files_to_delete.deep_view()),
{
    let mut events = no_events();
    send_sync_status_event(&mut events, SyncStatus::CheckingLocal);
    Progress::waiting(
        state,
        events,
        SyncRequest::DeleteFiles { paths: files_to_delete },
        Phase::Deleting,
    )
}

/// Ends a deletion with the files that could not be deleted.
pub fn delete_after(state: SyncState, failures: Vec<DeleteFailure>) -> (progress: Progress)
    ensures
        progress@ == delete_done(state, failures.deep_view()),
{
    if failures.len() == 0 {
        let mut events = no_events();
        send_sync_status_event(&mut events, SyncStatus::Idle);
        let none: Vec<String> = Vec::new();
        proof {
            assert(none.deep_view() =~= Seq::<Seq<char>>::empty());
        }
        send_sync_event(&mut events, SyncEvent::ExtraFilesFound(none));
        proof {
            assert(events.deep_view() =~= seq![
                SyncEventView::StatusUpdate(SyncStatusView::Idle),
                SyncEventView::ExtraFilesFound(Seq::empty()),
            ]);
        }
        Progress::finished(state, events)
    } else {
        let ghost line = |failure: DeleteFailureView| failure_line(failure);
        let mut lines: Vec<String> = Vec::new();
        let mut i: usize = 0;
        while i < failures.len()
            invariant
                i <= failures.len(),
                line == |failure: DeleteFailureView| failure_line(failure),
                lines.deep_view() == failures.deep_view().take(i as int).map_values(line),
            decreases failures.len() - i,
        {
            let ghost before = lines.deep_view();
            let text = String::from_str("Failed to delete ").concat(
                failures[i].path.as_str(),
            ).concat(": ").concat(failures[i].reason.as_str());
            lines.push(text);
            proof {
                assert(lines.deep_view() =~= before.push(failure_line(failures[i as int]@)));
                assert(failures.deep_view().take(i + 1).map_values(line) =~= before.push(
                    failure_line(failures[i as int]@),
                ));
            }
            i = i + 1;
        }
        proof {
            assert(failures.deep_view().take(failures.len() as int) == failures.deep_view());
        }
        let joined = join_strings(&lines, ", ");
        fail(state, prefixed("Errors during file deletion: ", &joined))
    }
}

} // verus!
