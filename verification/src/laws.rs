//! What holds of the synchronisation manager in every state.

use vstd::prelude::*;
use crate::cleaner::FolderScanView;
use crate::engine::TorrentDetailsView;
use crate::hashing::{torrent_hash, CachedManifestView};
use crate::manager::ManagerView;
use crate::messages::{SyncCommandView, SyncEventView};
use crate::progress::{PhaseView, Purpose};
use crate::requests::{SyncReplyView, SyncRequestView};
use crate::status::SyncStatusView;
use crate::torrent::add_options;
use crate::types::{LocalTorrentState, RemoteTorrentState, SyncConfigView, SyncState};

verus! {

/// At start-up the remote state is unknown, and the local state is the
/// torrent that the driver loaded beforehand, or none.
pub proof fn lemma_initial_state(config: SyncConfigView, initial_torrent_id: Option<usize>)
    ensures
        ManagerView::start(config, initial_torrent_id).0.state.remote
            == RemoteTorrentState::Unknown,
        ManagerView::start(config, initial_torrent_id).0.state.local == LocalTorrentState::of(
            initial_torrent_id,
        ),
        ManagerView::start(config, initial_torrent_id).0.config == config,
{
}

/// A request is out exactly while the manager is not idle: after start-up,
/// after every command and tick, and after every answer that is taken.
pub proof fn lemma_request_out_while_not_idle(
    manager: ManagerView,
    command: SyncCommandView,
    now: u64,
    reply: SyncReplyView,
)
    ensures
        ManagerView::start(manager.config, manager.state.local.id()).0.idle()
            <==> ManagerView::start(manager.config, manager.state.local.id()).1.request is None,
        manager.on_command(command).0.idle() <==> manager.on_command(command).1.request is None,
        manager.on_tick(now).0.idle() <==> manager.on_tick(now).1.request is None,
        manager.on_reply(reply) matches Some((next, step)) ==> (next.idle()
            <==> step.request is None),
{
}

/// An update that the engine accepts makes the new torrent the managed one
/// and the remote state checked.
pub proof fn lemma_update_applied(manager: ManagerView, id: usize)
    requires
        manager.phase == (PhaseView::Adding { purpose: Purpose::Apply }),
    ensures
        manager.on_reply(SyncReplyView::Added(Ok(Some(id)))) matches Some((next, step))
            && next.state == (SyncState {
            local: LocalTorrentState::Active { id },
            remote: RemoteTorrentState::Checked,
        }),
{
}

/// An update that the engine refuses leaves the local state as it was,
/// makes the remote state unknown, reports the failure and ends.
pub proof fn lemma_update_refused(manager: ManagerView, reason: Seq<char>)
    requires
        manager.phase == (PhaseView::Adding { purpose: Purpose::Apply }),
    ensures
        manager.on_reply(SyncReplyView::Added(Err(reason))) matches Some((next, step))
            && next.state.local == manager.state.local && next.state.remote
            == RemoteTorrentState::Unknown && next.idle() && step.events.len() == 2
            && step.events[0] is Error,
{
}

/// An update without a download folder fails before the engine is asked to
/// add anything: the local state stays, the remote state becomes unknown.
pub proof fn lemma_update_needs_a_folder(manager: ManagerView, manifest: Seq<u8>)
    requires
        manager.config.download_path.len() == 0,
        manager.state.local is NotLoaded,
    ensures
        manager.on_command(SyncCommandView::ApplyUpdate(manifest)).1.request is None,
        manager.on_command(SyncCommandView::ApplyUpdate(manifest)).0.state == (SyncState {
            local: manager.state.local,
            remote: RemoteTorrentState::Unknown,
        }),
{
}

/// While a torrent is managed, an update starts by asking the engine to
/// forget it, and the answer to that, whatever it is, is followed by the
/// add of the new manifest into the download folder.
pub proof fn lemma_update_forgets_then_adds(
    manager: ManagerView,
    id: usize,
    manifest: Seq<u8>,
    failure: Option<Seq<char>>,
)
    requires
        manager.state.local == (LocalTorrentState::Active { id }),
        manager.config.download_path.len() > 0,
    ensures
        manager.on_command(SyncCommandView::ApplyUpdate(manifest)).1.request == Some(
            SyncRequestView::Forget { id },
        ),
        manager.on_command(SyncCommandView::ApplyUpdate(manifest)).0.on_reply(
            SyncReplyView::Forgot { failure },
        ) matches Some((next, step)) && step.request == Some(
            SyncRequestView::AddTorrent { manifest, options: add_options(manager.config) },
        ),
{
}

/// A fix, too, forgets the managed torrent before it adds the cached
/// manifest, whatever the engine answers to the forget.
pub proof fn lemma_fix_forgets_then_adds(
    manager: ManagerView,
    id: usize,
    manifest: Seq<u8>,
    failure: Option<Seq<char>>,
)
    requires
        manager.phase == (PhaseView::FixRead { id }),
        manager.config.download_path.len() > 0,
    ensures
        manager.on_reply(SyncReplyView::ManifestRead(CachedManifestView::Bytes(manifest)))
            matches Some((forgetting, first)) && first.request == Some(
            SyncRequestView::Forget { id },
        ) && (forgetting.on_reply(SyncReplyView::Forgot { failure }) matches Some((next, step))
            && step.request == Some(
            SyncRequestView::AddTorrent { manifest, options: add_options(manager.config) },
        )),
{
}

/// The engine is never asked to add a torrent into an unnamed folder, nor
/// with a cap of zero.
pub proof fn lemma_add_names_a_folder(
    manager: ManagerView,
    command: SyncCommandView,
    reply: SyncReplyView,
)
    ensures
        manager.on_command(command).1.request matches Some(
            SyncRequestView::AddTorrent { manifest, options },
        ) ==> options.output_folder.len() > 0 && options.overwrite
            && options.ratelimits.well_formed(),
        manager.on_reply(reply) matches Some((next, step)) ==> (step.request matches Some(
            SyncRequestView::AddTorrent { manifest, options },
        ) ==> options.output_folder.len() > 0 && options.overwrite
            && options.ratelimits.well_formed()),
{
}

/// How many answers an operation may still need before it is over.
pub open spec fn answers_left(phase: PhaseView) -> nat {
    match phase {
        PhaseView::Idle => 0,
        PhaseView::Starting { .. } => 1,
        PhaseView::VerifyDetails => 2,
        PhaseView::VerifyScan { .. } => 1,
        PhaseView::FixRead { .. } => 6,
        PhaseView::Forgetting { .. } => 5,
        PhaseView::Adding { .. } => 4,
        PhaseView::FixStats { .. } => 1,
        PhaseView::Deleting => 1,
        PhaseView::ApplyStats { .. } => 3,
        PhaseView::ApplyDetails => 2,
        PhaseView::ApplyScan { .. } => 1,
        PhaseView::Fetching => 3,
        PhaseView::Comparing { .. } => 2,
        PhaseView::Storing { .. } => 1,
        PhaseView::TickStats { .. } => 4,
    }
}

/// An operation that a command or a tick starts needs at most six answers.
pub proof fn lemma_operations_are_short(manager: ManagerView, command: SyncCommandView, now: u64)
    ensures
        answers_left(manager.on_command(command).0.phase) <= 6,
        answers_left(manager.on_tick(now).0.phase) <= 6,
        answers_left(manager.phase) == 0 <==> manager.idle(),
{
    match command {
        SyncCommandView::UpdateConfig(_) => {},
        SyncCommandView::VerifyFolder => {},
        SyncCommandView::DeleteFiles(_) => {},
        SyncCommandView::ApplyUpdate(_) => {},
        SyncCommandView::DownloadAndCompare(_) => {},
        SyncCommandView::FixMissingFiles => {},
    }
}

/// Every operation comes to an end: each answer that is taken brings it
/// closer. So a failure never leaves the manager stuck; after it the next
/// command is taken as usual.
pub proof fn lemma_operations_end(manager: ManagerView, reply: SyncReplyView)
    ensures
        manager.on_reply(reply) matches Some((next, step)) ==> answers_left(next.phase)
            < answers_left(manager.phase),
{
    match manager.phase {
        PhaseView::Idle => {},
        PhaseView::Starting { .. } => {},
        PhaseView::VerifyDetails => {},
        PhaseView::VerifyScan { .. } => {},
        PhaseView::FixRead { .. } => {},
        PhaseView::Forgetting { .. } => {},
        PhaseView::Adding { .. } => {},
        PhaseView::FixStats { .. } => {},
        PhaseView::Deleting => {},
        PhaseView::ApplyStats { .. } => {},
        PhaseView::ApplyDetails => {},
        PhaseView::ApplyScan { .. } => {},
        PhaseView::Fetching => {},
        PhaseView::Comparing { .. } => {},
        PhaseView::Storing { .. } => {},
        PhaseView::TickStats { .. } => {},
    }
}

/// Whether an operation reads the state without ever changing it: start-up,
/// verification, deletion, and the figures asked for on a tick.
pub open spec fn reads_only(phase: PhaseView) -> bool {
    match phase {
        PhaseView::Starting { .. } => true,
        PhaseView::VerifyDetails => true,
        PhaseView::VerifyScan { .. } => true,
        PhaseView::Deleting => true,
        PhaseView::FixStats { .. } => true,
        PhaseView::ApplyStats { .. } => true,
        PhaseView::ApplyDetails => true,
        PhaseView::ApplyScan { .. } => true,
        _ => false,
    }
}

/// Figures, details, scans and deletions leave the state alone: only the
/// engine's answer to an add, a failed replacement and a comparison that
/// finds another manifest change it.
pub proof fn lemma_reading_changes_nothing(manager: ManagerView, reply: SyncReplyView)
    requires
        reads_only(manager.phase),
    ensures
        manager.on_reply(reply) matches Some((next, step)) ==> next.state == manager.state
            && next.config == manager.config && next.last_update_check
            == manager.last_update_check,
{
}

/// No answer of the driver changes the configuration: only the command that
/// carries the new settings does.
pub proof fn lemma_only_the_command_changes_the_config(
    manager: ManagerView,
    command: SyncCommandView,
    now: u64,
    reply: SyncReplyView,
)
    ensures
        !(command is UpdateConfig) ==> manager.on_command(command).0.config == manager.config,
        manager.on_tick(now).0.config == manager.config,
        manager.on_reply(reply) matches Some((next, step)) ==> next.config == manager.config,
{
}

/// A whole verification: the command, then the engine's details, then the
/// scan of the folder, as far as the operation gets. The result is the
/// manager afterwards and everything that was reported.
pub open spec fn verification(
    manager: ManagerView,
    details: Result<TorrentDetailsView, Seq<char>>,
    scan: FolderScanView,
) -> (ManagerView, Seq<SyncEventView>) {
    let (asked, first) = manager.on_command(SyncCommandView::VerifyFolder);
    if first.request is None {
        (asked, first.events)
    } else {
        match asked.on_reply(SyncReplyView::Details(details)) {
            Some((scanning, second)) => if second.request is None {
                (scanning, first.events + second.events)
            } else {
                match scanning.on_reply(SyncReplyView::Scanned(scan)) {
                    Some((done, third)) => (done, first.events + second.events + third.events),
                    None => (scanning, first.events + second.events),
                }
            },
            None => (asked, first.events),
        }
    }
}

/// A verification leaves the manager exactly as it found it. So a second
/// verification, with the engine and the folder unchanged, reports exactly
/// what the first one did.
pub proof fn lemma_verification_is_repeatable(
    manager: ManagerView,
    details: Result<TorrentDetailsView, Seq<char>>,
    scan: FolderScanView,
)
    requires
        manager.idle(),
    ensures
        verification(manager, details, scan).0 == manager,
        verification(verification(manager, details, scan).0, details, scan).1 == verification(
            manager,
            details,
            scan,
        ).1,
{
}

/// A comparison never touches the local state. It changes the remote state
/// only when it ends with an update, and then to "update available".
pub proof fn lemma_comparison_only_finds_updates(manager: ManagerView, reply: SyncReplyView)
    requires
        manager.phase is Fetching || manager.phase is Comparing || manager.phase is Storing,
    ensures
        manager.on_reply(reply) matches Some((next, step)) ==> next.state.local
            == manager.state.local && (next.state.remote == manager.state.remote
            || next.state.remote == RemoteTorrentState::UpdateAvailable),
        manager.on_reply(reply) matches Some((next, step)) ==> (next.state.remote
            != manager.state.remote ==> step.events.len() == 2 && step.events[0]
            is RemoteUpdateFound && next.idle()),
{
}

/// A fetched manifest with the hash of the cached one changes nothing: the
/// status goes back to idle and no update is reported.
pub proof fn lemma_same_manifest_is_no_update(manager: ManagerView, remote: Seq<u8>, local: Seq<u8>)
    requires
        manager.phase == (PhaseView::Comparing { remote }),
        torrent_hash(remote) == torrent_hash(local),
    ensures
        manager.on_reply(SyncReplyView::ManifestRead(CachedManifestView::Bytes(local)))
            matches Some((next, step)) && next.state == manager.state && next.idle()
            && step.events == seq![SyncEventView::StatusUpdate(SyncStatusView::Idle)],
{
}

/// A fetched manifest with another hash than the cached one, or with no
/// cached one to hold it against, is an update: once it is in the cache, the
/// remote state is "update available" and the manifest is handed out.
pub proof fn lemma_other_manifest_is_an_update(
    manager: ManagerView,
    remote: Seq<u8>,
    cached: CachedManifestView,
    path: Seq<char>,
    failure: Option<Seq<char>>,
)
    requires
        manager.phase == (PhaseView::Comparing { remote }),
        manager.config.cached_torrent_path == Some(path),
        cached matches CachedManifestView::Bytes(local) ==> torrent_hash(remote) != torrent_hash(
            local,
        ),
        !(cached is Failed),
    ensures
        manager.on_reply(SyncReplyView::ManifestRead(cached)) matches Some((storing, first))
            && first.request == Some(SyncRequestView::StoreManifest { path, manifest: remote })
            && storing.state == manager.state && (storing.on_reply(
            SyncReplyView::ManifestStored { failure },
        ) matches Some((next, step)) && next.state == (SyncState {
            local: manager.state.local,
            remote: RemoteTorrentState::UpdateAvailable,
        }) && next.idle() && step.events == seq![
            SyncEventView::RemoteUpdateFound(remote),
            SyncEventView::StatusUpdate(SyncStatusView::RemoteChanged),
        ]),
{
}

/// The timer starts a comparison with the remote manifest on its first tick
/// with a managed torrent, and after that not before the interval is over.
pub proof fn lemma_remote_checks_keep_their_distance(manager: ManagerView, now: u64, later: u64)
    requires
        manager.state.local is Active,
        manager.on_tick(now).0.phase matches PhaseView::TickStats { id, check_remote }
            && check_remote,
        now <= later < now + crate::manager::REMOTE_CHECK_INTERVAL_SECS,
    ensures
        manager.on_tick(now).0.last_update_check == Some(now),
        !manager.on_tick(now).0.remote_check_due(later),
{
}

} // verus!
