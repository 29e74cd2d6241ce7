//! The progress of the managed torrent, overall and file by file.

use vstd::prelude::*;
use crate::engine::TorrentStats;

verus! {

/// How far the torrent and each of its files have come, in bytes.
#[derive(Debug, Clone)]
pub struct TorrentProgress {
    file_progress: Vec<u64>,
    progress_bytes: u64,
    total_bytes: u64,
}

/// The mathematical value of a [`TorrentProgress`].
pub struct TorrentProgressView {
    pub file_progress: Seq<u64>,
    pub progress_bytes: u64,
    pub total_bytes: u64,
}

impl View for TorrentProgress {
    type V = TorrentProgressView;

    closed spec fn view(&self) -> TorrentProgressView {
        TorrentProgressView {
            file_progress: self.file_progress@,
            progress_bytes: self.progress_bytes,
            total_bytes: self.total_bytes,
        }
    }
}

impl TorrentProgress {
    /// No files and no bytes yet.
    pub fn new() -> (progress: TorrentProgress)
        ensures
            progress@ == (TorrentProgressView {
                file_progress: Seq::empty(),
                progress_bytes: 0,
                total_bytes: 0,
            }),
    {
        TorrentProgress { file_progress: Vec::new(), progress_bytes: 0, total_bytes: 0 }
    }

    /// Takes over the figures of the engine.
    pub fn update_from_stats(&mut self, stats: &TorrentStats)
        ensures
            final(self)@ == (TorrentProgressView {
                file_progress: stats.file_progress@,
                progress_bytes: stats.progress_bytes,
                total_bytes: stats.total_bytes,
            }),
    {
        let copy = stats.file_progress.clone();
        proof {
            assert(copy@ =~= stats.file_progress@);
        }
        self.file_progress = copy;
        self.progress_bytes = stats.progress_bytes;
        self.total_bytes = stats.total_bytes;
    }

    /// Sets the figures directly.
    pub fn update_from_simulated(&mut self, file_progress: Vec<u64>, progress_bytes: u64, total_bytes: u64)
        ensures
            final(self)@ == (TorrentProgressView {
                file_progress: file_progress@,
                progress_bytes,
                total_bytes,
            }),
    {
        self.file_progress = file_progress;
        self.progress_bytes = progress_bytes;
        self.total_bytes = total_bytes;
    }

    /// The bytes that each file has, in the order of the torrent.
    pub fn file_progress(&self) -> (files: &Vec<u64>)
        ensures
            files@ == self@.file_progress,
    {
        &self.file_progress
    }

    /// The bytes that the torrent has.
    pub fn progress_bytes(&self) -> (bytes: u64)
        ensures
            bytes == self@.progress_bytes,
    {
        self.progress_bytes
    }

    /// The bytes that the torrent has when it is complete.
    pub fn total_bytes(&self) -> (bytes: u64)
        ensures
            bytes == self@.total_bytes,
    {
        self.total_bytes
    }
}

} // verus!
