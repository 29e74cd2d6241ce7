//! What the torrent engine is told and what it answers, as plain values.
//!
//! The engine itself lives outside the library. The driver turns each value
//! of this module into a call of the engine, or an answer of the engine into
//! one of these values.

use vstd::prelude::*;

verus! {

/// One file of a torrent, as the engine lists it.
#[derive(Debug, Clone)]
pub struct TorrentDetailsResponseFile {
    pub name: String,
    pub components: Vec<String>,
    pub length: u64,
    pub included: bool,
}

/// The mathematical value of a [`TorrentDetailsResponseFile`].
pub struct TorrentFileView {
    pub name: Seq<char>,
    pub components: Seq<Seq<char>>,
    pub length: u64,
    pub included: bool,
}

impl View for TorrentDetailsResponseFile {
    type V = TorrentFileView;

    open spec fn view(&self) -> TorrentFileView {
        TorrentFileView {
            name: self.name@,
            components: self.components.deep_view(),
            length: self.length,
            included: self.included,
        }
    }
}

impl DeepView for TorrentDetailsResponseFile {
    type V = TorrentFileView;

    open spec fn deep_view(&self) -> TorrentFileView {
        self@
    }
}

/// The state in which the engine holds a torrent.
#[derive(Debug, Clone, Copy, PartialEq, Eq, Structural)]
pub enum TorrentStatsState {
    Initializing,
    Live,
    Paused,
    Error,
}

/// The engine's figures for one torrent.
#[derive(Debug, Clone)]
pub struct TorrentStats {
    pub state: TorrentStatsState,
    pub error: Option<String>,
    pub file_progress: Vec<u64>,
    pub progress_bytes: u64,
    pub uploaded_bytes: u64,
    pub total_bytes: u64,
    pub finished: bool,
}

/// The mathematical value of a [`TorrentStats`].
pub struct TorrentStatsView {
    pub state: TorrentStatsState,
    pub error: Option<Seq<char>>,
    pub file_progress: Seq<u64>,
    pub progress_bytes: u64,
    pub uploaded_bytes: u64,
    pub total_bytes: u64,
    pub finished: bool,
}

impl View for TorrentStats {
    type V = TorrentStatsView;

    open spec fn view(&self) -> TorrentStatsView {
        TorrentStatsView {
            state: self.state,
            error: self.error.deep_view(),
            file_progress: self.file_progress@,
            progress_bytes: self.progress_bytes,
            uploaded_bytes: self.uploaded_bytes,
            total_bytes: self.total_bytes,
            finished: self.finished,
        }
    }
}

impl DeepView for TorrentStats {
    type V = TorrentStatsView;

    open spec fn deep_view(&self) -> TorrentStatsView {
        self@
    }
}

impl TorrentStatsView {
    /// The state of the torrent in a word or two, for display.
    pub open spec fn state_label(self) -> Seq<char> {
        match self.state {
            TorrentStatsState::Initializing => "Checking Files"@,
            TorrentStatsState::Live => if self.finished {
                "Seeding"@
            } else {
                "Downloading"@
            },
            TorrentStatsState::Paused => if self.finished {
                "Completed"@
            } else {
                "Paused"@
            },
            TorrentStatsState::Error => match self.error {
                Some(message) => "Error: "@ + message,
                None => "Error"@,
            },
        }
    }
}

impl TorrentStats {
    /// The state of the torrent in a word or two, for display.
    pub fn state_label(&self) -> (label: String)
        ensures
            label@ == self@.state_label(),
    {
        match self.state {
            TorrentStatsState::Initializing => String::from_str("Checking Files"),
            TorrentStatsState::Live => if self.finished {
                String::from_str("Seeding")
            } else {
                String::from_str("Downloading")
            },
            TorrentStatsState::Paused => if self.finished {
                String::from_str("Completed")
            } else {
                String::from_str("Paused")
            },
            TorrentStatsState::Error => match &self.error {
                Some(message) => String::from_str("Error: ").concat(message.as_str()),
                None => String::from_str("Error"),
            },
        }
    }
}

/// What the engine knows of one torrent.
#[derive(Debug, Clone)]
pub struct TorrentDetailsResponse {
    pub id: Option<usize>,
    pub info_hash: String,
    pub name: Option<String>,
    pub output_folder: String,
    pub files: Option<Vec<TorrentDetailsResponseFile>>,
    pub stats: Option<TorrentStats>,
}

/// The mathematical value of a [`TorrentDetailsResponse`].
pub struct TorrentDetailsView {
    pub id: Option<usize>,
    pub info_hash: Seq<char>,
    pub name: Option<Seq<char>>,
    pub output_folder: Seq<char>,
    pub files: Option<Seq<TorrentFileView>>,
    pub stats: Option<TorrentStatsView>,
}

impl View for TorrentDetailsResponse {
    type V = TorrentDetailsView;

    open spec fn view(&self) -> TorrentDetailsView {
        TorrentDetailsView {
            id: self.id,
            info_hash: self.info_hash@,
            name: self.name.deep_view(),
            output_folder: self.output_folder@,
            files: self.files.deep_view(),
            stats: self.stats.deep_view(),
        }
    }
}

impl DeepView for TorrentDetailsResponse {
    type V = TorrentDetailsView;

    open spec fn deep_view(&self) -> TorrentDetailsView {
        self@
    }
}

/// Transfer caps in bytes per second; `None` is no limit.
#[derive(Debug, Clone, Copy, PartialEq, Eq, Structural)]
pub struct LimitsConfig {
    pub download_bps: Option<u32>,
    pub upload_bps: Option<u32>,
}

impl LimitsConfig {
    /// A cap that is present is never zero: zero throughput is not a limit
    /// that the library asks for.
    pub open spec fn well_formed(self) -> bool {
        &&& self.download_bps != Some(0u32)
        &&& self.upload_bps != Some(0u32)
    }
}

/// How a torrent is to be added to the engine.
#[derive(Debug, Clone)]
pub struct AddTorrentOptions {
    pub output_folder: String,
    pub overwrite: bool,
    pub paused: bool,
    pub ratelimits: LimitsConfig,
}

/// The mathematical value of an [`AddTorrentOptions`].
pub struct AddTorrentOptionsView {
    pub output_folder: Seq<char>,
    pub overwrite: bool,
    pub paused: bool,
    pub ratelimits: LimitsConfig,
}

impl View for AddTorrentOptions {
    type V = AddTorrentOptionsView;

    open spec fn view(&self) -> AddTorrentOptionsView {
        AddTorrentOptionsView {
            output_folder: self.output_folder@,
            overwrite: self.overwrite,
            paused: self.paused,
            ratelimits: self.ratelimits,
        }
    }
}

} // verus!
