//! What the user interface shows and what the user can ask of it.

use vstd::prelude::*;
use crate::paths::PathSet;
use crate::status::{SyncStatus, SyncStatusView};
use crate::text::{decimal, decimal_string, lemma_decimal_reads_back, parse_u64, parsed_u64};

verus! {

/// The dialog that is open.
#[derive(Debug, Clone)]
pub enum ModalState {
    MissingFiles(PathSet),
    ExtraFiles(Vec<String>),
    RemoteUpdateAvailable,
    Settings,
    /// No dialog is open.
    Closed,
}

/// The mathematical value of a [`ModalState`].
pub enum ModalStateView {
    MissingFiles(Set<Seq<char>>),
    ExtraFiles(Seq<Seq<char>>),
    RemoteUpdateAvailable,
    Settings,
    Closed,
}

impl View for ModalState {
    type V = ModalStateView;

    open spec fn view(&self) -> ModalStateView {
        match self {
            ModalState::MissingFiles(files) => ModalStateView::MissingFiles(files@),
            ModalState::ExtraFiles(files) => ModalStateView::ExtraFiles(files.deep_view()),
            ModalState::RemoteUpdateAvailable => ModalStateView::RemoteUpdateAvailable,
            ModalState::Settings => ModalStateView::Settings,
            ModalState::Closed => ModalStateView::Closed,
        }
    }
}

/// The files of the torrent, for display.
#[derive(Debug, Clone)]
pub struct TorrentFileStats {
    pub name: Option<String>,
    pub info_hash: Option<String>,
    pub output_folder: Option<String>,
    /// Each file's path and size.
    pub files: Vec<(String, u64)>,
}

/// The tab of the torrent display that is open.
#[derive(Debug, Clone, Copy, PartialEq, Eq, Structural)]
pub enum TorrentTab {
    Details,
    Files,
}

impl Default for TorrentTab {
    fn default() -> (tab: TorrentTab)
        ensures
            tab == TorrentTab::Details,
    {
        TorrentTab::Details
    }
}

/// What the user asked for.
#[derive(Debug, Clone, Copy, PartialEq, Eq, Structural)]
pub enum UiAction {
    SaveConfig,
    UpdateFromRemote,
    VerifyLocalFiles,
    OpenDownloadFolder,
    FixMissingFiles,
    DeleteExtraFiles,
    ApplyRemoteUpdate,
    ShowSettingsModal,
    SaveSettingsAndDismiss,
    DismissMissingFilesModal,
    DismissExtraFilesModal,
    DismissRemoteUpdateModal,
    DismissSettingsModal,
    /// Nothing was asked for.
    Nothing,
}

/// Everything that the user interface keeps between two frames.
#[derive(Debug, Clone)]
pub struct UiState {
    pub config_url: String,
    pub config_path: String,
    pub download_path: String,
    pub should_seed: bool,
    pub max_upload_speed: Option<u64>,
    pub max_download_speed: Option<u64>,
    pub max_upload_speed_str: String,
    pub max_download_speed_str: String,
    pub last_error: Option<String>,
    pub sync_status: SyncStatus,
    pub torrent_files: Option<TorrentFileStats>,
    pub modal_state: ModalState,
    pub torrent_tab_state: TorrentTab,
}

/// How a speed cap is shown in its input field: the number in decimal, or
/// nothing for no cap.
pub open spec fn speed_text(cap: Option<u64>) -> Seq<char> {
    match cap {
        Some(speed) => decimal(speed as nat),
        None => Seq::empty(),
    }
}

/// The speed cap that an input field stands for: none where the field is
/// empty or does not hold a number.
pub open spec fn speed_limit(text: Seq<char>) -> Option<u64> {
    match parsed_u64(text) {
        Ok(speed) => Some(speed),
        Err(_) => None,
    }
}

/// A speed cap that is shown in its input field reads back as itself.
pub proof fn lemma_speed_limit_reads_back(cap: Option<u64>)
    ensures
        speed_limit(speed_text(cap)) == cap,
{
    match cap {
        Some(speed) => {
            lemma_decimal_reads_back(speed);
        },
        None => {},
    }
}

fn text_of(cap: Option<u64>) -> (text: String)
    ensures
        text@ == speed_text(cap),
{
    match cap {
        Some(speed) => decimal_string(speed),
        None => String::new(),
    }
}

impl Default for UiState {
    fn default() -> (state: UiState)
        ensures
            state.config_url@.len() == 0,
            state.config_path@.len() == 0,
            state.download_path@.len() == 0,
            state.max_upload_speed_str@.len() == 0,
            state.max_download_speed_str@.len() == 0,
            state.should_seed,
            state.max_upload_speed is None,
            state.max_download_speed is None,
            state.last_error is None,
            state.sync_status@ == SyncStatusView::Idle,
            state.torrent_files is None,
            state.modal_state is Closed,
            state.torrent_tab_state == TorrentTab::Details,
    {
        UiState {
            config_url: String::new(),
            config_path: String::new(),
            download_path: String::new(),
            should_seed: true,
            max_upload_speed: None,
            max_download_speed: None,
            max_upload_speed_str: String::new(),
            max_download_speed_str: String::new(),
            last_error: None,
            sync_status: SyncStatus::Idle,
            torrent_files: None,
            modal_state: ModalState::Closed,
            torrent_tab_state: TorrentTab::Details,
        }
    }
}

impl UiState {
    /// The state for the given settings, with no dialog open.
    pub fn new(
        config_url: String,
        config_path: String,
        should_seed: bool,
        max_upload_speed: Option<u64>,
        max_download_speed: Option<u64>,
    ) -> (state: UiState)
        ensures
            state.config_url@ == config_url@,
            state.config_path@ == config_path@,
            state.download_path@ == config_path@,
            state.should_seed == should_seed,
            state.max_upload_speed == max_upload_speed,
            state.max_download_speed == max_download_speed,
            state.max_upload_speed_str@ == speed_text(max_upload_speed),
            state.max_download_speed_str@ == speed_text(max_download_speed),
            state.last_error is None,
            state.sync_status@ == SyncStatusView::Idle,
            state.torrent_files is None,
            state.modal_state is Closed,
            state.torrent_tab_state == TorrentTab::Details,
    {
        let download_path = config_path.clone();
        UiState {
            config_url,
            config_path,
            download_path,
            should_seed,
            max_upload_speed,
            max_download_speed,
            max_upload_speed_str: text_of(max_upload_speed),
            max_download_speed_str: text_of(max_download_speed),
            last_error: None,
            sync_status: SyncStatus::Idle,
            torrent_files: None,
            modal_state: ModalState::Closed,
            torrent_tab_state: TorrentTab::Details,
        }
    }

    /// Whether both the address and the download folder are set.
    pub fn is_config_valid(&self) -> (valid: bool)
        ensures
            valid == (self.config_url@.len() > 0 && self.download_path@.len() > 0),
    {
        !self.config_url.as_str().is_empty() && !self.download_path.as_str().is_empty()
    }

    /// Whether the download folder is set.
    pub fn is_download_path_set(&self) -> (set: bool)
        ensures
            set == (self.download_path@.len() > 0),
    {
        !self.download_path.as_str().is_empty()
    }

    /// Reads a speed cap from its input field.
    pub fn parse_speed_limit(&self, speed_str: &String) -> (limit: Option<u64>)
        ensures
            limit == speed_limit(speed_str@),
    {
        match parse_u64(speed_str) {
            Ok(speed) => Some(speed),
            Err(_) => None,
        }
    }
}

} // verus!
