use modsync::actions::{save_config_changes, update_from_remote, ConfigEdits, EditError, SyncDisplay};
use modsync::config::{AppConfig, DownloadMode};
use modsync::engine::{TorrentStats, TorrentStatsState};
use modsync::messages::{SyncCommand, SyncEvent};
use modsync::paths::PathSet;
use modsync::settings::{AppSettings, SettingsPanel};
use modsync::status::SyncStatus;
use modsync::text::ParseError;
use modsync::torrent_progress::TorrentProgress;
use modsync::ui_state::{ModalState, TorrentTab, UiAction, UiState};

#[test]
fn status_texts() {
    assert_eq!(SyncStatus::Idle.display_text(), "Sync: Idle");
    assert_eq!(SyncStatus::CheckingRemote.display_text(), "Sync: Checking Remote");
    assert_eq!(SyncStatus::UpdatingTorrent.display_text(), "Sync: Updating Torrent");
    assert_eq!(SyncStatus::CheckingLocal.display_text(), "Sync: Verifying Local Files");
    assert_eq!(SyncStatus::LocalActive.display_text(), "Local: Active & Seeding");
    assert_eq!(SyncStatus::RemoteChanged.display_text(), "Remote: Update Available");
    assert_eq!(SyncStatus::Error("disk full".to_string()).display_text(), "Sync Error: disk full");
    assert_eq!(SyncStatus::default(), SyncStatus::Idle);
}

#[test]
fn status_copy_and_kind() {
    let status = SyncStatus::Error("x".to_string());
    assert_eq!(status.duplicate(), status);
    assert!(status.is_error());
    assert!(!SyncStatus::LocalActive.is_error());
}

#[test]
fn ui_state_starts_with_the_settings() {
    let state = UiState::new(
        "http://example.com/a.torrent".to_string(),
        "/mods".to_string(),
        false,
        Some(100),
        None,
    );
    assert_eq!(state.config_url, "http://example.com/a.torrent");
    assert_eq!(state.config_path, "/mods");
    assert_eq!(state.download_path, "/mods");
    assert!(!state.should_seed);
    assert_eq!(state.max_upload_speed, Some(100));
    assert_eq!(state.max_download_speed, None);
    assert_eq!(state.max_upload_speed_str, "100");
    assert_eq!(state.max_download_speed_str, "");
    assert_eq!(state.last_error, None);
    assert_eq!(state.sync_status, SyncStatus::Idle);
    assert!(matches!(state.modal_state, ModalState::Closed));
    assert_eq!(state.torrent_tab_state, TorrentTab::Details);
    assert!(state.is_config_valid());
    assert!(state.is_download_path_set());
}

#[test]
fn ui_state_default_is_not_configured() {
    let state = UiState::default();
    assert!(!state.is_config_valid());
    assert!(!state.is_download_path_set());
    assert!(state.should_seed);
    assert_eq!(TorrentTab::default(), TorrentTab::Details);
    assert_ne!(UiAction::SaveConfig, UiAction::Nothing);

    let mut state = UiState::default();
    state.config_url = "http://x".to_string();
    assert!(!state.is_config_valid());
    state.download_path = "/mods".to_string();
    assert!(state.is_config_valid());
}

#[test]
fn speed_limit_of_input_field() {
    let state = UiState::default();
    assert_eq!(state.parse_speed_limit(&"".to_string()), None);
    assert_eq!(state.parse_speed_limit(&"250".to_string()), Some(250));
    assert_eq!(state.parse_speed_limit(&"abc".to_string()), None);
    assert_eq!(state.parse_speed_limit(&" 250".to_string()), None);
    assert_eq!(state.parse_speed_limit(&"18446744073709551616".to_string()), None);
}

fn some_stats() -> TorrentStats {
    TorrentStats {
        state: TorrentStatsState::Live,
        error: None,
        file_progress: vec![1, 2, 3],
        progress_bytes: 6,
        uploaded_bytes: 0,
        total_bytes: 12,
        finished: false,
    }
}

#[test]
fn display_follows_the_events() {
    let mut display = SyncDisplay::new();
    assert_eq!(display.sync_status, SyncStatus::Idle);

    assert!(!display.apply_event(SyncEvent::Error("boom".to_string())));
    assert_eq!(display.last_error, Some("boom".to_string()));
    assert_eq!(display.sync_status, SyncStatus::Error("boom".to_string()));

    assert!(!display.apply_event(SyncEvent::StatusUpdate(SyncStatus::Error("still".to_string()))));
    assert_eq!(display.last_error, Some("boom".to_string()));
    assert_eq!(display.sync_status, SyncStatus::Error("still".to_string()));

    assert!(!display.apply_event(SyncEvent::StatusUpdate(SyncStatus::CheckingLocal)));
    assert_eq!(display.last_error, None);
    assert_eq!(display.sync_status, SyncStatus::CheckingLocal);

    assert!(display.apply_event(SyncEvent::StatusUpdate(SyncStatus::Idle)));
    assert_eq!(display.sync_status, SyncStatus::Idle);

    display.apply_event(SyncEvent::Error("again".to_string()));
    assert!(display.apply_event(SyncEvent::TorrentAdded(5)));
    assert_eq!(display.last_error, None);

    display.apply_event(SyncEvent::Error("again".to_string()));
    assert!(!display.apply_event(SyncEvent::ManagedTorrentUpdate(Some((5, some_stats())))));
    assert_eq!(display.last_error, None);
    assert!(matches!(&display.managed_torrent_stats, Some((5, stats)) if stats.total_bytes == 12));
    display.apply_event(SyncEvent::ManagedTorrentUpdate(None));
    assert!(display.managed_torrent_stats.is_none());
}

#[test]
fn empty_lists_withdraw_the_questions() {
    let mut display = SyncDisplay::new();
    display.apply_event(SyncEvent::ExtraFilesFound(vec!["/data/a".to_string()]));
    assert_eq!(display.extra_files_to_prompt, Some(vec!["/data/a".to_string()]));
    display.apply_event(SyncEvent::ExtraFilesFound(vec![]));
    assert_eq!(display.extra_files_to_prompt, None);

    display.apply_event(SyncEvent::MissingFilesFound(PathSet::from_paths(vec!["b".to_string()])));
    assert_eq!(display.missing_files_to_prompt.as_ref().map(|s| s.paths().clone()), Some(vec!["b".to_string()]));
    display.apply_event(SyncEvent::MissingFilesFound(PathSet::new()));
    assert!(display.missing_files_to_prompt.is_none());
}

#[test]
fn agreed_actions_become_commands_once() {
    let mut display = SyncDisplay::new();
    assert!(display.delete_extra_files().is_none());
    assert!(display.apply_remote_update().is_none());

    display.apply_event(SyncEvent::ExtraFilesFound(vec!["/data/a".to_string(), "/data/b".to_string()]));
    match display.delete_extra_files() {
        Some(SyncCommand::DeleteFiles(files)) => {
            assert_eq!(files, vec!["/data/a".to_string(), "/data/b".to_string()])
        }
        other => panic!("expected the deletion, got {:?}", other),
    }
    assert!(display.extra_files_to_prompt.is_none());
    assert!(display.delete_extra_files().is_none());

    display.apply_event(SyncEvent::RemoteUpdateFound(b"manifest".to_vec()));
    assert_eq!(display.remote_update, Some(b"manifest".to_vec()));
    match display.apply_remote_update() {
        Some(SyncCommand::ApplyUpdate(manifest)) => assert_eq!(manifest, b"manifest".to_vec()),
        other => panic!("expected the update, got {:?}", other),
    }
    assert!(display.remote_update.is_none());
    assert!(display.apply_remote_update().is_none());
}

fn edits(url: &str, path: &str, up: &str, down: &str) -> ConfigEdits {
    ConfigEdits {
        url: url.to_string(),
        path: path.to_string(),
        should_seed: false,
        max_upload_speed: up.to_string(),
        max_download_speed: down.to_string(),
    }
}

fn base_config() -> AppConfig {
    AppConfig {
        torrent_url: "http://old".to_string(),
        download_path: "/old".to_string(),
        should_seed: true,
        max_upload_speed: Some(1),
        max_download_speed: Some(2),
        http_base_urls: vec!["http://mirror".to_string()],
        download_mode: DownloadMode::HttpFallback,
        fallback_timeout_seconds: 45,
    }
}

#[test]
fn saved_settings_take_the_input_as_it_stands() {
    let new = save_config_changes(&base_config(), &edits(" http://new ", "/new", "100", " ")).unwrap();
    assert_eq!(new.torrent_url, " http://new ");
    assert_eq!(new.download_path, "/new");
    assert!(!new.should_seed);
    assert_eq!(new.max_upload_speed, Some(100));
    assert_eq!(new.max_download_speed, None);
    assert_eq!(new.http_base_urls, vec!["http://mirror".to_string()]);
    assert_eq!(new.download_mode, DownloadMode::HttpFallback);
    assert_eq!(new.fallback_timeout_seconds, 45);

    let new = save_config_changes(&base_config(), &edits("", "", "", "")).unwrap();
    assert_eq!(new.torrent_url, "");
    assert_eq!(new.max_upload_speed, None);
}

#[test]
fn bad_caps_are_errors_upload_first() {
    let error = save_config_changes(&base_config(), &edits("u", "p", "fast", "slow")).unwrap_err();
    assert_eq!(error, EditError::InvalidUploadSpeed(ParseError::InvalidDigit));
    assert_eq!(error.to_text(), "Invalid upload speed: invalid digit found in string");

    let error = save_config_changes(&base_config(), &edits("u", "p", "1", " 2")).unwrap_err();
    assert_eq!(error, EditError::InvalidDownloadSpeed(ParseError::InvalidDigit));
    assert_eq!(error.to_text(), "Invalid download speed: invalid digit found in string");

    let error =
        save_config_changes(&base_config(), &edits("u", "p", "99999999999999999999", "")).unwrap_err();
    assert_eq!(error, EditError::InvalidUploadSpeed(ParseError::Overflow));
    assert_eq!(error.to_text(), "Invalid upload speed: number too large to fit in target type");
}

#[test]
fn update_from_remote_trims_and_asks_for_a_comparison() {
    let (new, command) =
        update_from_remote(&base_config(), &edits("  http://new/t  ", " /new ", "", "7")).unwrap();
    assert_eq!(new.torrent_url, "http://new/t");
    assert_eq!(new.download_path, "/new");
    assert_eq!(new.max_upload_speed, None);
    assert_eq!(new.max_download_speed, Some(7));
    assert!(matches!(command, SyncCommand::DownloadAndCompare(url) if url == "http://new/t"));
}

#[test]
fn update_from_remote_needs_address_and_folder() {
    let error = update_from_remote(&base_config(), &edits("   ", "/new", "", "")).unwrap_err();
    assert_eq!(error, EditError::EmptyUrl);
    assert_eq!(error.to_text(), "Remote URL cannot be empty");
    let error = update_from_remote(&base_config(), &edits("http://new", "", "x", "")).unwrap_err();
    assert_eq!(error, EditError::EmptyPath);
    assert_eq!(error.to_text(), "Local path cannot be empty");
    let error = update_from_remote(&base_config(), &edits("http://new", "/p", "x", "")).unwrap_err();
    assert_eq!(error, EditError::InvalidUploadSpeed(ParseError::InvalidDigit));
}

#[test]
fn settings_defaults() {
    let settings = AppSettings::default();
    assert_eq!(settings.torrent_url, "");
    assert_eq!(settings.download_path, "downloads");
    assert_eq!(settings.max_upload_speed, None);
    assert_eq!(settings.max_download_speed, None);
    assert!(!settings.should_seed);
    assert_eq!(AppSettings::reset(), AppSettings::default());
}

#[test]
fn settings_panel_shows_and_reads_settings() {
    let mut s = AppSettings::default();
    s.torrent_url = "https://example.com/torrent".into();
    s.download_path = "/tmp/downloads".into();
    s.max_upload_speed = Some(64);

    let mut panel = SettingsPanel::default();
    assert!(panel.needs_load());
    panel.load(&s);
    assert!(!panel.needs_load());
    assert_eq!(panel.url_str, "https://example.com/torrent");
    assert_eq!(panel.path_str, "/tmp/downloads");
    assert_eq!(panel.upload_str, "64");
    assert_eq!(panel.download_str, "");
    let loaded = panel.settings();
    assert_eq!(s, loaded);
}

#[test]
fn settings_panel_reads_caps_leniently() {
    let mut panel = SettingsPanel::default();
    panel.upload_str = " 128 ".to_string();
    panel.download_str = "lots".to_string();
    let settings = panel.settings();
    assert_eq!(settings.max_upload_speed, Some(128));
    assert_eq!(settings.max_download_speed, None);
    panel.upload_str = "4294967295".to_string();
    panel.download_str = "4294967296".to_string();
    let settings = panel.settings();
    assert_eq!(settings.max_upload_speed, Some(u32::MAX));
    assert_eq!(settings.max_download_speed, None);
}

#[test]
fn settings_panel_notes_save_and_reset() {
    let mut panel = SettingsPanel::default();
    panel.url_str = "u".to_string();
    panel.path_str = "p".to_string();
    panel.should_seed = true;
    panel.saved(None);
    assert_eq!(panel.save_message, Some("Settings saved".to_string()));
    assert!(!panel.needs_load());
    panel.saved(Some("disk full".to_string()));
    assert_eq!(panel.save_message, Some("Failed to save settings: disk full".to_string()));

    panel.was_reset(Some("read-only".to_string()));
    assert_eq!(panel.save_message, Some("Failed to reset settings: read-only".to_string()));
    assert_eq!(panel.url_str, "u");
    panel.was_reset(None);
    assert_eq!(panel.save_message, Some("Settings reset to defaults".to_string()));
    assert_eq!(panel.url_str, "");
    assert_eq!(panel.path_str, "");
    assert!(!panel.should_seed);
}

#[test]
fn torrent_progress_takes_figures() {
    let mut progress = TorrentProgress::new();
    assert!(progress.file_progress().is_empty());
    assert_eq!(progress.progress_bytes(), 0);
    assert_eq!(progress.total_bytes(), 0);

    progress.update_from_simulated(vec![1 << 20, 5 << 20], 6 << 20, 26 << 20);
    assert_eq!(progress.file_progress(), &vec![1u64 << 20, 5 << 20]);
    assert_eq!(progress.progress_bytes(), 6 << 20);
    assert_eq!(progress.total_bytes(), 26 << 20);

    progress.update_from_stats(&some_stats());
    assert_eq!(progress.file_progress(), &vec![1u64, 2, 3]);

    progress.update_from_simulated(vec![], u64::MAX, u64::MAX);
    assert!(progress.file_progress().is_empty());
    assert_eq!(progress.progress_bytes(), u64::MAX);
    assert_eq!(progress.total_bytes(), u64::MAX);
}
