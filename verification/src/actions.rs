//! What the user interface makes of events and of the user's input.
//!
//! The interface keeps a small picture of the synchronisation, which each
//! event updates, and turns what the user typed and clicked into settings
//! and commands.

use vstd::prelude::*;
use crate::config::{AppConfig, AppConfigView};
use crate::engine::{TorrentStats, TorrentStatsView};
use crate::messages::{SyncCommand, SyncCommandView, SyncEvent, SyncEventView};
use crate::paths::{copy_strings, PathSet};
use crate::status::{SyncStatus, SyncStatusView};
use crate::text::{blank, is_blank, parse_u64, parsed_u64, trim, trimmed, ParseError};
use crate::ui_state::{ModalState, ModalStateView, UiAction};

verus! {

/// The picture of the synchronisation that the interface shows.
#[derive(Debug, Clone)]
pub struct SyncDisplay {
    /// The figures of the managed torrent.
    pub managed_torrent_stats: Option<(usize, TorrentStats)>,
    /// The last error, until something succeeds.
    pub last_error: Option<String>,
    /// The overall status.
    pub sync_status: SyncStatus,
    /// The extra files that the user is asked about.
    pub extra_files_to_prompt: Option<Vec<String>>,
    /// The missing files that the user is asked about.
    pub missing_files_to_prompt: Option<PathSet>,
    /// The remote manifest that the user may apply.
    pub remote_update: Option<Vec<u8>>,
}

/// The mathematical value of a [`SyncDisplay`].
pub struct SyncDisplayView {
    pub managed_torrent_stats: Option<(usize, TorrentStatsView)>,
    pub last_error: Option<Seq<char>>,
    pub sync_status: SyncStatusView,
    pub extra_files_to_prompt: Option<Seq<Seq<char>>>,
    pub missing_files_to_prompt: Option<Set<Seq<char>>>,
    pub remote_update: Option<Seq<u8>>,
}

impl View for SyncDisplay {
    type V = SyncDisplayView;

    open spec fn view(&self) -> SyncDisplayView {
        SyncDisplayView {
            managed_torrent_stats: match self.managed_torrent_stats {
                Some((id, stats)) => Some((id, stats@)),
                None => None,
            },
            last_error: self.last_error.deep_view(),
            sync_status: self.sync_status@,
            extra_files_to_prompt: self.extra_files_to_prompt.deep_view(),
            missing_files_to_prompt: self.missing_files_to_prompt.deep_view(),
            remote_update: match self.remote_update {
                Some(manifest) => Some(manifest@),
                None => None,
            },
        }
    }
}

impl SyncDisplayView {
    /// The picture before anything has happened.
    pub open spec fn blank() -> SyncDisplayView {
        SyncDisplayView {
            managed_torrent_stats: None,
            last_error: None,
            sync_status: SyncStatusView::Idle,
            extra_files_to_prompt: None,
            missing_files_to_prompt: None,
            remote_update: None,
        }
    }

    /// The picture after an event.
    ///
    /// Figures and a new torrent clear the last error; an error sets it and
    /// the status; a status that is no error clears it. A list of extra or
    /// missing files opens the question to the user, and an empty one
    /// withdraws it. A remote update is kept for the user to apply.
    pub open spec fn after(self, event: SyncEventView) -> SyncDisplayView {
        match event {
            SyncEventView::ManagedTorrentUpdate(update) => SyncDisplayView {
                managed_torrent_stats: update,
                last_error: None,
                ..self
            },
            SyncEventView::TorrentAdded(id) => SyncDisplayView { last_error: None, ..self },
            SyncEventView::Error(message) => SyncDisplayView {
                last_error: Some(message),
                sync_status: SyncStatusView::Error(message),
                ..self
            },
            SyncEventView::StatusUpdate(status) => SyncDisplayView {
                sync_status: status,
                last_error: if status is Error {
                    self.last_error
                } else {
                    None
                },
                ..self
            },
            SyncEventView::ExtraFilesFound(files) => SyncDisplayView {
                extra_files_to_prompt: if files.len() == 0 {
                    None
                } else {
                    Some(files)
                },
                ..self
            },
            SyncEventView::MissingFilesFound(files) => SyncDisplayView {
                missing_files_to_prompt: if files == Set::<Seq<char>>::empty() {
                    None
                } else {
                    Some(files)
                },
                ..self
            },
            SyncEventView::RemoteUpdateFound(manifest) => SyncDisplayView {
                remote_update: Some(manifest),
                ..self
            },
        }
    }
}

impl SyncDisplayView {
    /// The picture after the user's click, as far as the click concerns the
    /// questions that are open: an answer to a question closes it.
    pub open spec fn after_action(self, action: UiAction) -> SyncDisplayView {
        match action {
            UiAction::FixMissingFiles => SyncDisplayView { missing_files_to_prompt: None, ..self },
            UiAction::DismissMissingFilesModal => SyncDisplayView {
                missing_files_to_prompt: None,
                ..self
            },
            UiAction::DeleteExtraFiles => SyncDisplayView { extra_files_to_prompt: None, ..self },
            UiAction::DismissExtraFilesModal => SyncDisplayView {
                extra_files_to_prompt: None,
                ..self
            },
            UiAction::ApplyRemoteUpdate => SyncDisplayView { remote_update: None, ..self },
            UiAction::DismissRemoteUpdateModal => SyncDisplayView { remote_update: None, ..self },
            _ => self,
        }
    }

    /// The command that the user's click stands for, if it stands for one
    /// that needs nothing but the picture.
    pub open spec fn command_for(self, action: UiAction) -> Option<SyncCommandView> {
        match action {
            UiAction::VerifyLocalFiles => Some(SyncCommandView::VerifyFolder),
            UiAction::FixMissingFiles => Some(SyncCommandView::FixMissingFiles),
            UiAction::DeleteExtraFiles => match self.extra_files_to_prompt {
                Some(files) => Some(SyncCommandView::DeleteFiles(files)),
                None => None,
            },
            UiAction::ApplyRemoteUpdate => match self.remote_update {
                Some(manifest) => Some(SyncCommandView::ApplyUpdate(manifest)),
                None => None,
            },
            _ => None,
        }
    }

    /// Which question is put to the user: the settings while they are open,
    /// else the missing files, else the extra files, else the remote update.
    pub open spec fn question(self, settings_open: bool) -> ModalStateView {
        if settings_open {
            ModalStateView::Settings
        } else {
            match (self.missing_files_to_prompt, self.extra_files_to_prompt, self.remote_update) {
                (Some(files), _, _) => ModalStateView::MissingFiles(files),
                (None, Some(files), _) => ModalStateView::ExtraFiles(files),
                (None, None, Some(_)) => ModalStateView::RemoteUpdateAvailable,
                (None, None, None) => ModalStateView::Closed,
            }
        }
    }
}

/// Whether the figures of the torrent should be fetched anew after an
/// event: after a new torrent, and whenever the status goes idle.
pub open spec fn wants_refresh(event: SyncEventView) -> bool {
    match event {
        SyncEventView::TorrentAdded(id) => true,
        SyncEventView::StatusUpdate(status) => status is Idle,
        _ => false,
    }
}

impl SyncDisplay {
    /// The picture before anything has happened.
    pub fn new() -> (display: SyncDisplay)
        ensures
            display@ == SyncDisplayView::blank(),
    {
        SyncDisplay {
            managed_torrent_stats: None,
            last_error: None,
            sync_status: SyncStatus::Idle,
            extra_files_to_prompt: None,
            missing_files_to_prompt: None,
            remote_update: None,
        }
    }

    /// Takes an event into the picture; tells whether the figures of the
    /// torrent should be fetched anew.
    pub fn apply_event(&mut self, event: SyncEvent) -> (refresh: bool)
        ensures
            final(self)@ == old(self)@.after(event@),
            refresh == wants_refresh(event@),
    {
        match event {
            SyncEvent::ManagedTorrentUpdate(update) => {
                self.managed_torrent_stats = update;
                self.last_error = None;
                false
            },
            SyncEvent::TorrentAdded(id) => {
                self.last_error = None;
                true
            },
            SyncEvent::Error(message) => {
                self.last_error = Some(message.clone());
                self.sync_status = SyncStatus::Error(message);
                false
            },
            SyncEvent::StatusUpdate(status) => {
                let refresh = match status {
                    SyncStatus::Idle => true,
                    _ => false,
                };
                if !status.is_error() {
                    self.last_error = None;
                }
                self.sync_status = status;
                refresh
            },
            SyncEvent::ExtraFilesFound(files) => {
                if files.len() == 0 {
                    self.extra_files_to_prompt = None;
                } else {
                    self.extra_files_to_prompt = Some(files);
                }
                false
            },
            SyncEvent::MissingFilesFound(files) => {
                if files.is_empty() {
                    self.missing_files_to_prompt = None;
                } else {
                    self.missing_files_to_prompt = Some(files);
                }
                false
            },
            SyncEvent::RemoteUpdateFound(manifest) => {
                self.remote_update = Some(manifest);
                false
            },
        }
    }

    /// Takes a click of the user: closes the question that it answers and
    /// gives the command that it stands for.
    pub fn act(&mut self, action: UiAction) -> (command: Option<SyncCommand>)
        ensures
            final(self)@ == old(self)@.after_action(action),
            match old(self)@.command_for(action) {
                Some(expected) => command matches Some(c) && c@ == expected,
                None => command is None,
            },
    {
        match action {
            UiAction::VerifyLocalFiles => Some(SyncCommand::VerifyFolder),
            UiAction::FixMissingFiles => {
                self.missing_files_to_prompt = None;
                Some(SyncCommand::FixMissingFiles)
            },
            UiAction::DismissMissingFilesModal => {
                self.missing_files_to_prompt = None;
                None
            },
            UiAction::DeleteExtraFiles => self.delete_extra_files(),
            UiAction::DismissExtraFilesModal => {
                self.extra_files_to_prompt = None;
                None
            },
            UiAction::ApplyRemoteUpdate => self.apply_remote_update(),
            UiAction::DismissRemoteUpdateModal => {
                self.remote_update = None;
                None
            },
            _ => None,
        }
    }

    /// The dialog to show.
    pub fn modal(&self, settings_open: bool) -> (modal: ModalState)
        ensures
            modal@ == self@.question(settings_open),
    {
        if settings_open {
            return ModalState::Settings;
        }
        match &self.missing_files_to_prompt {
            Some(files) => {
                return ModalState::MissingFiles(files.clone());
            },
            None => {},
        }
        match &self.extra_files_to_prompt {
            Some(files) => {
                return ModalState::ExtraFiles(copy_strings(files));
            },
            None => {},
        }
        if self.remote_update.is_some() {
            ModalState::RemoteUpdateAvailable
        } else {
            ModalState::Closed
        }
    }

    /// The user agreed to delete the extra files: the question is closed,
    /// and the command to delete them is returned. Without a question open
    /// there is no command.
    pub fn delete_extra_files(&mut self) -> (command: Option<SyncCommand>)
        ensures
            final(self)@ == (SyncDisplayView { extra_files_to_prompt: None, ..old(self)@ }),
            match old(self)@.extra_files_to_prompt {
                Some(files) => command matches Some(c) && c@ == SyncCommandView::DeleteFiles(files),
                None => command is None,
            },
    {
        match self.extra_files_to_prompt.take() {
            Some(files) => Some(SyncCommand::DeleteFiles(files)),
            None => None,
        }
    }

    /// The user agreed to the remote update: it is taken out of the
    /// picture, and the command to apply it is returned. Without an update
    /// at hand there is no command.
    pub fn apply_remote_update(&mut self) -> (command: Option<SyncCommand>)
        ensures
            final(self)@ == (SyncDisplayView { remote_update: None, ..old(self)@ }),
            match old(self)@.remote_update {
                Some(manifest) => command matches Some(c) && c@ == SyncCommandView::ApplyUpdate(
                    manifest,
                ),
                None => command is None,
            },
    {
        match self.remote_update.take() {
            Some(manifest) => Some(SyncCommand::ApplyUpdate(manifest)),
            None => None,
        }
    }
}

/// What the user typed into the configuration panel.
#[derive(Debug, Clone)]
pub struct ConfigEdits {
    pub url: String,
    pub path: String,
    pub should_seed: bool,
    pub max_upload_speed: String,
    pub max_download_speed: String,
}

/// The mathematical value of a [`ConfigEdits`].
pub struct ConfigEditsView {
    pub url: Seq<char>,
    pub path: Seq<char>,
    pub should_seed: bool,
    pub max_upload_speed: Seq<char>,
    pub max_download_speed: Seq<char>,
}

impl View for ConfigEdits {
    type V = ConfigEditsView;

    open spec fn view(&self) -> ConfigEditsView {
        ConfigEditsView {
            url: self.url@,
            path: self.path@,
            should_seed: self.should_seed,
            max_upload_speed: self.max_upload_speed@,
            max_download_speed: self.max_download_speed@,
        }
    }
}

/// Why the user's input cannot become settings.
#[derive(Debug, Clone, Copy, PartialEq, Eq, Structural)]
pub enum EditError {
    /// No address was given.
    EmptyUrl,
    /// No download folder was given.
    EmptyPath,
    /// The upload cap is no number.
    InvalidUploadSpeed(ParseError),
    /// The download cap is no number.
    InvalidDownloadSpeed(ParseError),
}

impl EditError {
    /// The error in words.
    pub open spec fn message(self) -> Seq<char> {
        match self {
            EditError::EmptyUrl => "Remote URL cannot be empty"@,
            EditError::EmptyPath => "Local path cannot be empty"@,
            EditError::InvalidUploadSpeed(error) => "Invalid upload speed: "@ + error.message(),
            EditError::InvalidDownloadSpeed(error) => "Invalid download speed: "@ + error.message(),
        }
    }

    /// The error in words.
    pub fn to_text(&self) -> (text: String)
        ensures
            text@ == self.message(),
    {
        match self {
            EditError::EmptyUrl => String::from_str("Remote URL cannot be empty"),
            EditError::EmptyPath => String::from_str("Local path cannot be empty"),
            EditError::InvalidUploadSpeed(error) => {
                let reason = error.to_text();
                String::from_str("Invalid upload speed: ").concat(reason.as_str())
            },
            EditError::InvalidDownloadSpeed(error) => {
                let reason = error.to_text();
                String::from_str("Invalid download speed: ").concat(reason.as_str())
            },
        }
    }
}

/// The speed cap that an input field stands for: none where the field is
/// blank, else the number in it, which no blank may surround.
pub open spec fn entered_cap(text: Seq<char>) -> Result<Option<u64>, ParseError> {
    if is_blank(text) {
        Ok(None)
    } else {
        match parsed_u64(text) {
            Ok(speed) => Ok(Some(speed)),
            Err(error) => Err(error),
        }
    }
}

fn read_cap(text: &String) -> (result: Result<Option<u64>, ParseError>)
    ensures
        result == entered_cap(text@),
{
    if blank(text) {
        Ok(None)
    } else {
        match parse_u64(text) {
            Ok(speed) => Ok(Some(speed)),
            Err(error) => Err(error),
        }
    }
}

/// The settings with the address, the folder and the profile replaced by
/// what was entered, or the first error among the caps, the upload cap
/// before the download cap.
pub open spec fn edited_config(config: AppConfigView, url: Seq<char>, path: Seq<char>, edits: ConfigEditsView) -> Result<
    AppConfigView,
    EditError,
> {
    match entered_cap(edits.max_upload_speed) {
        Err(error) => Err(EditError::InvalidUploadSpeed(error)),
        Ok(max_upload_speed) => match entered_cap(edits.max_download_speed) {
            Err(error) => Err(EditError::InvalidDownloadSpeed(error)),
            Ok(max_download_speed) => Ok(
                AppConfigView {
                    torrent_url: url,
                    download_path: path,
                    should_seed: edits.should_seed,
                    max_upload_speed,
                    max_download_speed,
                    ..config
                },
            ),
        },
    }
}

/// The settings to save for what was entered, taken as it stands.
pub open spec fn saved_config(config: AppConfigView, edits: ConfigEditsView) -> Result<AppConfigView, EditError> {
    edited_config(config, edits.url, edits.path, edits)
}

/// The settings with which to look for a remote update: the address and
/// the folder without surrounding blanks, and neither of them empty.
pub open spec fn remote_update_config(config: AppConfigView, edits: ConfigEditsView) -> Result<
    AppConfigView,
    EditError,
> {
    if trimmed(edits.url).len() == 0 {
        Err(EditError::EmptyUrl)
    } else if trimmed(edits.path).len() == 0 {
        Err(EditError::EmptyPath)
    } else {
        edited_config(config, trimmed(edits.url), trimmed(edits.path), edits)
    }
}

fn edit(config: &AppConfig, url: String, path: String, edits: &ConfigEdits) -> (result: Result<
    AppConfig,
    EditError,
>)
    ensures
        match edited_config(config@, url@, path@, edits@) {
            Ok(edited) => result matches Ok(new) && new@ == edited,
            Err(error) => result == Err::<AppConfig, EditError>(error),
        },
{
    let max_upload_speed = match read_cap(&edits.max_upload_speed) {
        Ok(cap) => cap,
        Err(error) => {
            return Err(EditError::InvalidUploadSpeed(error));
        },
    };
    let max_download_speed = match read_cap(&edits.max_download_speed) {
        Ok(cap) => cap,
        Err(error) => {
            return Err(EditError::InvalidDownloadSpeed(error));
        },
    };
    Ok(
        AppConfig {
            torrent_url: url,
            download_path: path,
            should_seed: edits.should_seed,
            max_upload_speed,
            max_download_speed,
            http_base_urls: copy_strings(&config.http_base_urls),
            download_mode: config.download_mode,
            fallback_timeout_seconds: config.fallback_timeout_seconds,
        },
    )
}

/// Makes settings of what the user entered, to be saved and handed to the
/// synchronisation. On an error the settings are left as they were.
pub fn save_config_changes(config: &AppConfig, edits: &ConfigEdits) -> (result: Result<
    AppConfig,
    EditError,
>)
    ensures
        match saved_config(config@, edits@) {
            Ok(edited) => result matches Ok(new) && new@ == edited,
            Err(error) => result == Err::<AppConfig, EditError>(error),
        },
{
    edit(config, edits.url.clone(), edits.path.clone(), edits)
}

/// Makes settings of what the user entered and the command that compares
/// the manifest at the entered address with the cached one.
pub fn update_from_remote(config: &AppConfig, edits: &ConfigEdits) -> (result: Result<
    (AppConfig, SyncCommand),
    EditError,
>)
    ensures
        match remote_update_config(config@, edits@) {
            Ok(edited) => result matches Ok((new, command)) && new@ == edited && command@
                == SyncCommandView::DownloadAndCompare(edited.torrent_url),
            Err(error) => result == Err::<(AppConfig, SyncCommand), EditError>(error),
        },
{
    let new_url = trim(&edits.url);
    let new_path = trim(&edits.path);
    if new_url.as_str().is_empty() {
        return Err(EditError::EmptyUrl);
    }
    if new_path.as_str().is_empty() {
        return Err(EditError::EmptyPath);
    }
    let command = SyncCommand::DownloadAndCompare(new_url.clone());
    match edit(config, new_url, new_path, edits) {
        Ok(new) => Ok((new, command)),
        Err(error) => Err(error),
    }
}

} // verus!
