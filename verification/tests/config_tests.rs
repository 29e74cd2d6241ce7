use modsync::config::{get_cached_torrent_path, load_config, AppConfig, Config, ConfigLoader, DownloadMode};

#[test]
fn test_load_default_config() {
    let loaded_config = Config::default();
    assert_eq!(loaded_config.remote_torrent_url, "");
    assert_eq!(loaded_config.local_download_path, "./modsync_downloads");
}

#[test]
fn mod_test_save_and_load_config() {
    let initial_config = AppConfig {
        torrent_url: "http://example.com/test.torrent".to_string(),
        download_path: "/tmp/test_download".to_string(),
        should_seed: true,
        max_upload_speed: Some(100),
        max_download_speed: Some(500),
        http_base_urls: vec!["http://example.com/files".to_string()],
        download_mode: DownloadMode::Auto,
        fallback_timeout_seconds: 30,
    };

    // What a file written from these settings holds.
    let stored = ConfigLoader {
        torrent_url: Some(initial_config.torrent_url.clone()),
        download_path: Some(initial_config.download_path.clone()),
        should_seed: Some(initial_config.should_seed),
        max_upload_speed: initial_config.max_upload_speed,
        max_download_speed: initial_config.max_download_speed,
        http_base_urls: Some(initial_config.http_base_urls.clone()),
        download_mode: Some(initial_config.download_mode),
        fallback_timeout_seconds: Some(initial_config.fallback_timeout_seconds),
    };

    let (loaded_config, needs_upgrade) = load_config(stored);
    assert!(!needs_upgrade);
    assert_eq!(initial_config.torrent_url, loaded_config.torrent_url);
    assert_eq!(initial_config.download_path, loaded_config.download_path);
    assert_eq!(initial_config.should_seed, loaded_config.should_seed);
    assert_eq!(initial_config.max_upload_speed, loaded_config.max_upload_speed);
    assert_eq!(initial_config.max_download_speed, loaded_config.max_download_speed);
    assert_eq!(initial_config.http_base_urls, loaded_config.http_base_urls);
    assert_eq!(initial_config.download_mode, loaded_config.download_mode);
    assert_eq!(initial_config.fallback_timeout_seconds, loaded_config.fallback_timeout_seconds);
}

#[test]
fn test_load_default_config_if_not_exists() {
    let loaded_config = AppConfig::default();
    assert_eq!(loaded_config.torrent_url, "");
    assert_eq!(loaded_config.download_path, "");
    assert_eq!(loaded_config.should_seed, true);
    assert_eq!(loaded_config.max_upload_speed, None);
    assert_eq!(loaded_config.max_download_speed, None);
    assert_eq!(loaded_config.http_base_urls, Vec::<String>::new());
    assert_eq!(loaded_config.download_mode, DownloadMode::default());
    assert_eq!(loaded_config.fallback_timeout_seconds, 30);
}

#[test]
fn test_load_config_with_missing_fields() {
    let partial_config = ConfigLoader {
        torrent_url: Some("http://example.com/test.torrent".to_string()),
        download_path: Some("/tmp/test_download".to_string()),
        should_seed: None,
        max_upload_speed: None,
        max_download_speed: None,
        http_base_urls: None,
        download_mode: None,
        fallback_timeout_seconds: None,
    };

    let (loaded_config, needs_upgrade) = load_config(partial_config);
    assert!(needs_upgrade);
    assert_eq!(loaded_config.torrent_url, "http://example.com/test.torrent");
    assert_eq!(loaded_config.download_path, "/tmp/test_download");
    assert_eq!(loaded_config.should_seed, true);
    assert_eq!(loaded_config.max_upload_speed, None);
    assert_eq!(loaded_config.max_download_speed, None);
    assert_eq!(loaded_config.http_base_urls, Vec::<String>::new());
    assert_eq!(loaded_config.download_mode, DownloadMode::default());
    assert_eq!(loaded_config.fallback_timeout_seconds, 30);
}

#[test]
fn each_missing_profile_entry_asks_for_an_upgrade() {
    let full = || ConfigLoader {
        torrent_url: None,
        download_path: None,
        should_seed: Some(false),
        max_upload_speed: Some(1),
        max_download_speed: Some(2),
        http_base_urls: Some(vec![]),
        download_mode: Some(DownloadMode::HttpOnly),
        fallback_timeout_seconds: Some(5),
    };
    let (config, needs_upgrade) = load_config(full());
    assert!(!needs_upgrade);
    assert_eq!(config.torrent_url, "");
    assert_eq!(config.download_path, "");
    assert!(!config.should_seed);
    assert_eq!(config.download_mode, DownloadMode::HttpOnly);
    assert_eq!(config.fallback_timeout_seconds, 5);

    let mut loader = full();
    loader.should_seed = None;
    assert!(load_config(loader).1);
    let mut loader = full();
    loader.max_upload_speed = None;
    assert!(load_config(loader).1);
    let mut loader = full();
    loader.max_download_speed = None;
    assert!(load_config(loader).1);
    let mut loader = full();
    loader.http_base_urls = None;
    assert!(load_config(loader).1);
    let mut loader = full();
    loader.download_mode = None;
    assert!(load_config(loader).1);
    let mut loader = full();
    loader.fallback_timeout_seconds = None;
    assert!(load_config(loader).1);
}

#[test]
fn cached_torrent_lies_in_the_cache_directory() {
    assert_eq!(
        get_cached_torrent_path(&"/home/u/.cache/modsync".to_string()),
        "/home/u/.cache/modsync/cached.torrent"
    );
    assert_eq!(get_cached_torrent_path(&"/cache/".to_string()), "/cache/cached.torrent");
    assert_eq!(get_cached_torrent_path(&String::new()), "cached.torrent");
}

#[test]
fn sync_config_takes_over_the_settings() {
    let mut settings = AppConfig::default();
    settings.torrent_url = "http://example.com/a.torrent".to_string();
    settings.download_path = "/mods".to_string();
    settings.should_seed = false;
    settings.max_upload_speed = Some(123);
    settings.max_download_speed = Some(u64::MAX);
    let config = settings.sync_config(Some("/cache/cached.torrent".to_string()));
    assert_eq!(config.torrent_url, "http://example.com/a.torrent");
    assert_eq!(config.download_path, "/mods");
    assert!(!config.should_seed);
    assert_eq!(config.max_upload_speed, Some(123));
    assert_eq!(config.max_download_speed, Some(u32::MAX));
    assert_eq!(config.cached_torrent_path, Some("/cache/cached.torrent".to_string()));

    settings.max_upload_speed = Some(4_294_967_295);
    settings.max_download_speed = Some(4_294_967_296);
    let config = settings.sync_config(None);
    assert_eq!(config.max_upload_speed, Some(4_294_967_295));
    assert_eq!(config.max_download_speed, Some(u32::MAX));
    assert_eq!(config.cached_torrent_path, None);
}
