//! The state that the synchronisation keeps, and the configuration it reads.

use vstd::prelude::*;

verus! {

/// What the engine holds for this folder.
#[derive(Debug, Clone, Copy, PartialEq, Eq, Structural)]
pub enum LocalTorrentState {
    /// The engine manages no torrent.
    NotLoaded,
    /// The engine manages the torrent with this identifier.
    Active { id: usize },
}

/// What is known of the remote manifest.
#[derive(Debug, Clone, Copy, PartialEq, Eq, Structural)]
pub enum RemoteTorrentState {
    /// No check has succeeded yet.
    Unknown,
    /// The last check found the applied manifest up to date.
    Checked,
    /// The last check found another manifest; it waits to be applied.
    UpdateAvailable,
}

/// The local and the remote state together.
#[derive(Debug, Clone, Copy, PartialEq, Eq, Structural)]
pub struct SyncState {
    pub local: LocalTorrentState,
    pub remote: RemoteTorrentState,
}

impl Default for SyncState {
    fn default() -> (state: SyncState)
        ensures
            state == SyncState::initial(None),
    {
        SyncState { local: LocalTorrentState::NotLoaded, remote: RemoteTorrentState::Unknown }
    }
}

impl LocalTorrentState {
    /// The identifier of the managed torrent, if there is one.
    pub open spec fn id(self) -> Option<usize> {
        match self {
            LocalTorrentState::Active { id } => Some(id),
            LocalTorrentState::NotLoaded => None,
        }
    }

    /// The state in which the engine manages `id`, or nothing for `None`.
    pub open spec fn of(id: Option<usize>) -> LocalTorrentState {
        match id {
            Some(id) => LocalTorrentState::Active { id },
            None => LocalTorrentState::NotLoaded,
        }
    }

    /// The identifier of the managed torrent, if there is one.
    pub fn active_id(&self) -> (id: Option<usize>)
        ensures
            id == self.id(),
    {
        match self {
            LocalTorrentState::Active { id } => Some(*id),
            LocalTorrentState::NotLoaded => None,
        }
    }

    /// The state in which the engine manages `id`, or nothing for `None`.
    pub fn from_id(id: Option<usize>) -> (state: LocalTorrentState)
        ensures
            state == LocalTorrentState::of(id),
    {
        match id {
            Some(id) => LocalTorrentState::Active { id },
            None => LocalTorrentState::NotLoaded,
        }
    }
}

impl SyncState {
    /// The state at start-up: the torrent that the driver loaded beforehand,
    /// if any, and nothing known of the remote manifest.
    pub open spec fn initial(loaded: Option<usize>) -> SyncState {
        SyncState { local: LocalTorrentState::of(loaded), remote: RemoteTorrentState::Unknown }
    }

    /// The state at start-up.
    pub fn new(initial_torrent_id: Option<usize>) -> (state: SyncState)
        ensures
            state == SyncState::initial(initial_torrent_id),
    {
        SyncState {
            local: LocalTorrentState::from_id(initial_torrent_id),
            remote: RemoteTorrentState::Unknown,
        }
    }
}

/// What the synchronisation reads of the user's settings.
#[derive(Debug, Clone)]
pub struct SyncConfig {
    /// Where the manifest is published.
    pub torrent_url: String,
    /// The folder that is kept in step; empty while unset.
    pub download_path: String,
    /// Upload cap in KB/s; `None` is no limit.
    pub max_upload_speed: Option<u32>,
    /// Download cap in KB/s; `None` is no limit.
    pub max_download_speed: Option<u32>,
    /// Whether the torrent may be active in the engine.
    pub should_seed: bool,
    /// Where the last applied manifest is cached, if anywhere.
    pub cached_torrent_path: Option<String>,
}

/// The mathematical value of a [`SyncConfig`].
pub struct SyncConfigView {
    pub torrent_url: Seq<char>,
    pub download_path: Seq<char>,
    pub max_upload_speed: Option<u32>,
    pub max_download_speed: Option<u32>,
    pub should_seed: bool,
    pub cached_torrent_path: Option<Seq<char>>,
}

impl View for SyncConfig {
    type V = SyncConfigView;

    open spec fn view(&self) -> SyncConfigView {
        SyncConfigView {
            torrent_url: self.torrent_url@,
            download_path: self.download_path@,
            max_upload_speed: self.max_upload_speed,
            max_download_speed: self.max_download_speed,
            should_seed: self.should_seed,
            cached_torrent_path: self.cached_torrent_path.deep_view(),
        }
    }
}

impl SyncConfigView {
    /// The configuration before the user has set anything.
    pub open spec fn unset() -> SyncConfigView {
        SyncConfigView {
            torrent_url: Seq::empty(),
            download_path: Seq::empty(),
            max_upload_speed: None,
            max_download_speed: None,
            should_seed: false,
            cached_torrent_path: None,
        }
    }
}

impl Default for SyncConfig {
    fn default() -> (config: SyncConfig)
        ensures
            config@ == SyncConfigView::unset(),
    {
        SyncConfig {
            torrent_url: String::new(),
            download_path: String::new(),
            max_upload_speed: None,
            max_download_speed: None,
            should_seed: false,
            cached_torrent_path: None,
        }
    }
}

impl SyncConfig {
    /// A copy of this configuration.
    pub fn duplicate(&self) -> (copy: SyncConfig)
        ensures
            copy@ == self@,
    {
        SyncConfig {
            torrent_url: self.torrent_url.clone(),
            download_path: self.download_path.clone(),
            max_upload_speed: self.max_upload_speed,
            max_download_speed: self.max_download_speed,
            should_seed: self.should_seed,
            cached_torrent_path: match &self.cached_torrent_path {
                Some(path) => Some(path.clone()),
                None => None,
            },
        }
    }
}

} // verus!
