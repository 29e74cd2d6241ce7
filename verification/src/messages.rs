//! What the driver tells the synchronisation, and what it hears back.

use vstd::prelude::*;
use crate::config::{AppConfig, AppConfigView};
use crate::engine::{TorrentStats, TorrentStatsView};
use crate::paths::PathSet;
use crate::status::{SyncStatus, SyncStatusView};

verus! {

/// A command of the driver.
#[derive(Debug, Clone)]
pub enum SyncCommand {
    /// The user's settings have changed.
    UpdateConfig(AppConfig),
    /// Compare the folder with the managed torrent.
    VerifyFolder,
    /// Delete these files.
    DeleteFiles(Vec<String>),
    /// Replace the managed torrent by this manifest.
    ApplyUpdate(Vec<u8>),
    /// Fetch the manifest at this address and compare it with the cached one.
    DownloadAndCompare(String),
    /// Hand the cached manifest to the engine again, to fetch what is missing.
    FixMissingFiles,
}

/// The mathematical value of a [`SyncCommand`].
pub enum SyncCommandView {
    UpdateConfig(AppConfigView),
    VerifyFolder,
    DeleteFiles(Seq<Seq<char>>),
    ApplyUpdate(Seq<u8>),
    DownloadAndCompare(Seq<char>),
    FixMissingFiles,
}

impl View for SyncCommand {
    type V = SyncCommandView;

    open spec fn view(&self) -> SyncCommandView {
        match self {
            SyncCommand::UpdateConfig(config) => SyncCommandView::UpdateConfig(config@),
            SyncCommand::VerifyFolder => SyncCommandView::VerifyFolder,
            SyncCommand::DeleteFiles(paths) => SyncCommandView::DeleteFiles(paths.deep_view()),
            SyncCommand::ApplyUpdate(manifest) => SyncCommandView::ApplyUpdate(manifest@),
            SyncCommand::DownloadAndCompare(url) => SyncCommandView::DownloadAndCompare(url@),
            SyncCommand::FixMissingFiles => SyncCommandView::FixMissingFiles,
        }
    }
}

/// What the synchronisation reports.
#[derive(Debug, Clone)]
pub enum SyncEvent {
    /// The figures of the managed torrent, or `None` to clear them.
    ManagedTorrentUpdate(Option<(usize, TorrentStats)>),
    /// The engine now manages the torrent with this identifier.
    TorrentAdded(usize),
    /// Something failed.
    Error(String),
    /// The overall status changed.
    StatusUpdate(SyncStatus),
    /// These files are in the folder and not in the torrent; an empty list
    /// withdraws an earlier one.
    ExtraFilesFound(Vec<String>),
    /// The remote manifest, which differs from the applied one.
    RemoteUpdateFound(Vec<u8>),
    /// These files are in the torrent and not in the folder; an empty set
    /// withdraws an earlier one.
    MissingFilesFound(PathSet),
}

/// The mathematical value of a [`SyncEvent`].
pub enum SyncEventView {
    ManagedTorrentUpdate(Option<(usize, TorrentStatsView)>),
    TorrentAdded(usize),
    Error(Seq<char>),
    StatusUpdate(SyncStatusView),
    ExtraFilesFound(Seq<Seq<char>>),
    RemoteUpdateFound(Seq<u8>),
    MissingFilesFound(Set<Seq<char>>),
}

impl View for SyncEvent {
    type V = SyncEventView;

    open spec fn view(&self) -> SyncEventView {
        match self {
            SyncEvent::ManagedTorrentUpdate(update) => SyncEventView::ManagedTorrentUpdate(
                match update {
                    Some((id, stats)) => Some((*id, stats@)),
                    None => None,
                },
            ),
            SyncEvent::TorrentAdded(id) => SyncEventView::TorrentAdded(*id),
            SyncEvent::Error(message) => SyncEventView::Error(message@),
            SyncEvent::StatusUpdate(status) => SyncEventView::StatusUpdate(status@),
            SyncEvent::ExtraFilesFound(paths) => SyncEventView::ExtraFilesFound(paths.deep_view()),
            SyncEvent::RemoteUpdateFound(manifest) => SyncEventView::RemoteUpdateFound(manifest@),
            SyncEvent::MissingFilesFound(paths) => SyncEventView::MissingFilesFound(paths@),
        }
    }
}

impl DeepView for SyncEvent {
    type V = SyncEventView;

    open spec fn deep_view(&self) -> SyncEventView {
        self@
    }
}

/// The two events by which a failure is reported: the error itself, and the
/// status that carries the same message.
pub open spec fn failure_events(message: Seq<char>) -> Seq<SyncEventView> {
    seq![SyncEventView::Error(message), SyncEventView::StatusUpdate(SyncStatusView::Error(message))]
}

/// Adds `event` to the events that go out to the driver.
pub fn send_sync_event(outbox: &mut Vec<SyncEvent>, event: SyncEvent)
    ensures
        final(outbox).deep_view() == old(outbox).deep_view().push(event@),
{
    let ghost before = outbox.deep_view();
    outbox.push(event);
    proof {
        assert(outbox.deep_view() =~= before.push(event@));
    }
}

/// Adds the report of a new status to the events that go out.
pub fn send_sync_status_event(outbox: &mut Vec<SyncEvent>, status: SyncStatus)
    ensures
        final(outbox).deep_view() == old(outbox).deep_view().push(
            SyncEventView::StatusUpdate(status@),
        ),
{
    send_sync_event(outbox, SyncEvent::StatusUpdate(status));
}

/// Adds the report of a failure to the events that go out.
pub fn send_failure(outbox: &mut Vec<SyncEvent>, message: String)
    ensures
        final(outbox).deep_view() == old(outbox).deep_view() + failure_events(message@),
{
    let ghost before = outbox.deep_view();
    let copy = message.clone();
    send_sync_event(outbox, SyncEvent::Error(copy));
    send_sync_status_event(outbox, SyncStatus::Error(message));
    proof {
        assert(outbox.deep_view() =~= before + failure_events(message@));
    }
}

/// No events yet.
pub fn no_events() -> (outbox: Vec<SyncEvent>)
    ensures
        outbox.deep_view() == Seq::<SyncEventView>::empty(),
{
    let outbox: Vec<SyncEvent> = Vec::new();
    proof {
        assert(outbox.deep_view() =~= Seq::<SyncEventView>::empty());
    }
    outbox
}

/// The events of `first` followed by those of `second`.
pub fn join_events(first: Vec<SyncEvent>, second: Vec<SyncEvent>) -> (outbox: Vec<SyncEvent>)
    ensures
        outbox.deep_view() == first.deep_view() + second.deep_view(),
{
    let mut outbox = first;
    let mut rest = second;
    let ghost a = outbox.deep_view();
    let ghost b = rest.deep_view();
    let ghost plain_a = outbox@;
    let ghost plain_b = rest@;
    outbox.append(&mut rest);
    proof {
        assert(outbox@ == plain_a + plain_b);
        assert(outbox.deep_view() =~= a + b);
    }
    outbox
}

} // verus!
