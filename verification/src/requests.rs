//! What the synchronisation asks of the driver, and what the driver answers.
//!
//! The synchronisation never calls the engine, the network or the file
//! system itself. It hands out one [`SyncRequest`] at a time; the driver
//! carries it out and hands back the matching [`SyncReply`].

use vstd::prelude::*;
use crate::cleaner::{FolderScan, FolderScanView};
use crate::engine::{
    AddTorrentOptions,
    AddTorrentOptionsView,
    TorrentDetailsResponse,
    TorrentDetailsView,
    TorrentStats,
    TorrentStatsView,
};
use crate::hashing::{CachedManifest, CachedManifestView};
use crate::transport::{FetchOutcome, FetchOutcomeView};

verus! {

/// A file that could not be deleted, and why.
#[derive(Debug, Clone)]
pub struct DeleteFailure {
    pub path: String,
    pub reason: String,
}

/// The mathematical value of a [`DeleteFailure`].
pub struct DeleteFailureView {
    pub path: Seq<char>,
    pub reason: Seq<char>,
}

impl View for DeleteFailure {
    type V = DeleteFailureView;

    open spec fn view(&self) -> DeleteFailureView {
        DeleteFailureView { path: self.path@, reason: self.reason@ }
    }
}

impl DeepView for DeleteFailure {
    type V = DeleteFailureView;

    open spec fn deep_view(&self) -> DeleteFailureView {
        self@
    }
}

/// One thing for the driver to do.
#[derive(Debug, Clone)]
pub enum SyncRequest {
    /// Tell the engine to forget this torrent.
    Forget { id: usize },
    /// Tell the engine to add this manifest.
    AddTorrent { manifest: Vec<u8>, options: AddTorrentOptions },
    /// Ask the engine for the details of this torrent.
    Details { id: usize },
    /// Ask the engine for the figures of this torrent.
    Stats { id: usize },
    /// List the regular files below this folder.
    ScanFolder { path: String },
    /// Read the cached manifest at this path.
    ReadManifest { path: String },
    /// Write this manifest to the cache at this path.
    StoreManifest { path: String, manifest: Vec<u8> },
    /// Delete these files, and report those that could not be deleted.
    DeleteFiles { paths: Vec<String> },
    /// Fetch what is published at this address.
    Fetch { url: String },
}

/// The mathematical value of a [`SyncRequest`].
pub enum SyncRequestView {
    Forget { id: usize },
    AddTorrent { manifest: Seq<u8>, options: AddTorrentOptionsView },
    Details { id: usize },
    Stats { id: usize },
    ScanFolder { path: Seq<char> },
    ReadManifest { path: Seq<char> },
    StoreManifest { path: Seq<char>, manifest: Seq<u8> },
    DeleteFiles { paths: Seq<Seq<char>> },
    Fetch { url: Seq<char> },
}

impl View for SyncRequest {
    type V = SyncRequestView;

    open spec fn view(&self) -> SyncRequestView {
        match self {
            SyncRequest::Forget { id } => SyncRequestView::Forget { id: *id },
            SyncRequest::AddTorrent { manifest, options } => SyncRequestView::AddTorrent {
                manifest: manifest@,
                options: options@,
            },
            SyncRequest::Details { id } => SyncRequestView::Details { id: *id },
            SyncRequest::Stats { id } => SyncRequestView::Stats { id: *id },
            SyncRequest::ScanFolder { path } => SyncRequestView::ScanFolder { path: path@ },
            SyncRequest::ReadManifest { path } => SyncRequestView::ReadManifest { path: path@ },
            SyncRequest::StoreManifest { path, manifest } => SyncRequestView::StoreManifest {
                path: path@,
                manifest: manifest@,
            },
            SyncRequest::DeleteFiles { paths } => SyncRequestView::DeleteFiles {
                paths: paths.deep_view(),
            },
            SyncRequest::Fetch { url } => SyncRequestView::Fetch { url: url@ },
        }
    }
}

/// The driver's answer to a [`SyncRequest`].
#[derive(Debug)]
pub enum SyncReply {
    /// To `Forget`: the engine's reason where it could not forget.
    Forgot { failure: Option<String> },
    /// To `AddTorrent`: the new identifier, if the engine gave one, or its
    /// reason for refusing.
    Added(Result<Option<usize>, String>),
    /// To `Details`.
    Details(Result<TorrentDetailsResponse, String>),
    /// To `Stats`.
    Stats(Result<TorrentStats, String>),
    /// To `ScanFolder`.
    Scanned(FolderScan),
    /// To `ReadManifest`.
    ManifestRead(CachedManifest),
    /// To `StoreManifest`: the reason where the cache could not be written.
    ManifestStored { failure: Option<String> },
    /// To `DeleteFiles`: the files that are still there.
    Deleted { failures: Vec<DeleteFailure> },
    /// To `Fetch`.
    Fetched(FetchOutcome),
}

/// The mathematical value of a [`SyncReply`].
pub enum SyncReplyView {
    Forgot { failure: Option<Seq<char>> },
    Added(Result<Option<usize>, Seq<char>>),
    Details(Result<TorrentDetailsView, Seq<char>>),
    Stats(Result<TorrentStatsView, Seq<char>>),
    Scanned(FolderScanView),
    ManifestRead(CachedManifestView),
    ManifestStored { failure: Option<Seq<char>> },
    Deleted { failures: Seq<DeleteFailureView> },
    Fetched(FetchOutcomeView),
}

/// The value of an engine answer that carries nothing to view.
pub open spec fn added_view(outcome: Result<Option<usize>, String>) -> Result<Option<usize>, Seq<char>> {
    match outcome {
        Ok(id) => Ok(id),
        Err(reason) => Err(reason@),
    }
}

/// The value of the engine's answer to a request for details.
pub open spec fn details_view(outcome: Result<TorrentDetailsResponse, String>) -> Result<
    TorrentDetailsView,
    Seq<char>,
> {
    match outcome {
        Ok(details) => Ok(details@),
        Err(reason) => Err(reason@),
    }
}

/// The value of the engine's answer to a request for figures.
pub open spec fn stats_view(outcome: Result<TorrentStats, String>) -> Result<TorrentStatsView, Seq<char>> {
    match outcome {
        Ok(stats) => Ok(stats@),
        Err(reason) => Err(reason@),
    }
}

impl View for SyncReply {
    type V = SyncReplyView;

    open spec fn view(&self) -> SyncReplyView {
        match self {
            SyncReply::Forgot { failure } => SyncReplyView::Forgot { failure: failure.deep_view() },
            SyncReply::Added(outcome) => SyncReplyView::Added(added_view(*outcome)),
            SyncReply::Details(outcome) => SyncReplyView::Details(details_view(*outcome)),
            SyncReply::Stats(outcome) => SyncReplyView::Stats(stats_view(*outcome)),
            SyncReply::Scanned(scan) => SyncReplyView::Scanned(scan@),
            SyncReply::ManifestRead(cached) => SyncReplyView::ManifestRead(cached@),
            SyncReply::ManifestStored { failure } => SyncReplyView::ManifestStored {
                failure: failure.deep_view(),
            },
            SyncReply::Deleted { failures } => SyncReplyView::Deleted {
                failures: failures.deep_view(),
            },
            SyncReply::Fetched(outcome) => SyncReplyView::Fetched(outcome@),
        }
    }
}

} // verus!
