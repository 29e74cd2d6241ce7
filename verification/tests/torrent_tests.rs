use modsync::messages::SyncEvent;
use modsync::status::SyncStatus;
use modsync::torrent::{
    after_add, after_cached_add, after_forget, cached_start_options, manage_torrent_task, options_for,
    CachedStart, ReplaceError, TaskNext, TaskStep,
};
use modsync::types::SyncConfig;

fn config(path: &str) -> SyncConfig {
    SyncConfig {
        torrent_url: "http://example.com/pack.torrent".to_string(),
        download_path: path.to_string(),
        max_upload_speed: None,
        max_download_speed: None,
        should_seed: true,
        cached_torrent_path: None,
    }
}

fn show(event: &SyncEvent) -> String {
    match event {
        SyncEvent::ManagedTorrentUpdate(Some((id, _))) => format!("stats({})", id),
        SyncEvent::ManagedTorrentUpdate(None) => "stats(none)".to_string(),
        SyncEvent::TorrentAdded(id) => format!("added({})", id),
        SyncEvent::Error(message) => format!("error({})", message),
        SyncEvent::StatusUpdate(status) => format!("status({})", status.display_text()),
        SyncEvent::ExtraFilesFound(files) => format!("extra({})", files.join(",")),
        SyncEvent::RemoteUpdateFound(bytes) => format!("update({} bytes)", bytes.len()),
        SyncEvent::MissingFilesFound(files) => {
            let mut paths = files.paths().clone();
            paths.sort();
            format!("missing({})", paths.join(","))
        }
    }
}

fn events_of(step: &TaskStep) -> Vec<String> {
    step.events.iter().map(show).collect()
}

#[test]
fn replacement_with_old_torrent_forgets_first() {
    let step = manage_torrent_task(&config("/data"), Some(3));
    assert!(matches!(step.next, TaskNext::Forget { id: 3 }));
    assert_eq!(events_of(&step), vec!["status(Sync: Updating Torrent)"]);
}

#[test]
fn add_follows_the_forget_whether_or_not_it_succeeded() {
    let cfg = config("/data");
    let after_success = after_forget(&cfg, 3, None);
    assert!(matches!(after_success.next, TaskNext::Add { .. }));
    assert_eq!(events_of(&after_success), vec!["status(Sync: Updating Torrent)"]);

    let after_failure = after_forget(&cfg, 3, Some("no such torrent".to_string()));
    assert!(matches!(after_failure.next, TaskNext::Add { .. }));
    assert_eq!(
        events_of(&after_failure),
        vec![
            "error(Error forgetting old torrent 3: no such torrent)",
            "status(Sync: Updating Torrent)"
        ]
    );
}

#[test]
fn replacement_without_old_torrent_adds_at_once() {
    let step = manage_torrent_task(&config("/data"), None);
    match &step.next {
        TaskNext::Add { options } => {
            assert_eq!(options.output_folder, "/data");
            assert!(options.overwrite);
            assert!(!options.paused);
        }
        _ => panic!("the add should come first"),
    }
    assert_eq!(events_of(&step), vec!["status(Sync: Updating Torrent)"]);
}

#[test]
fn replacement_without_folder_is_a_configuration_error() {
    let step = manage_torrent_task(&config(""), None);
    assert!(matches!(step.next, TaskNext::Done(Err(ReplaceError::Configuration))));
    assert!(step.events.is_empty());

    let step = after_forget(&config(""), 9, None);
    assert!(matches!(step.next, TaskNext::Done(Err(ReplaceError::Configuration))));
    assert!(step.events.is_empty());

    let step = after_forget(&config(""), 9, Some("gone".to_string()));
    assert!(matches!(step.next, TaskNext::Done(Err(ReplaceError::Configuration))));
    assert_eq!(events_of(&step), vec!["error(Error forgetting old torrent 9: gone)"]);
}

#[test]
fn torrent_that_should_not_seed_starts_paused() {
    let mut cfg = config("/data");
    cfg.should_seed = false;
    assert!(options_for(&cfg).paused);
    cfg.should_seed = true;
    assert!(!options_for(&cfg).paused);
}

#[test]
fn caps_are_bytes_per_second_and_zero_is_no_cap() {
    let mut cfg = config("/data");
    cfg.max_download_speed = Some(500);
    cfg.max_upload_speed = Some(100);
    let options = options_for(&cfg);
    assert_eq!(options.ratelimits.download_bps, Some(512_000));
    assert_eq!(options.ratelimits.upload_bps, Some(102_400));

    cfg.max_download_speed = Some(0);
    cfg.max_upload_speed = None;
    let options = options_for(&cfg);
    assert_eq!(options.ratelimits.download_bps, None);
    assert_eq!(options.ratelimits.upload_bps, None);

    cfg.max_download_speed = Some(1);
    cfg.max_upload_speed = Some(4_194_303);
    let options = options_for(&cfg);
    assert_eq!(options.ratelimits.download_bps, Some(1024));
    assert_eq!(options.ratelimits.upload_bps, Some(4_294_966_272));
}

#[test]
fn caps_beyond_the_counter_are_the_largest_cap() {
    let mut cfg = config("/data");
    cfg.max_download_speed = Some(4_194_304);
    cfg.max_upload_speed = Some(u32::MAX);
    let options = options_for(&cfg);
    assert_eq!(options.ratelimits.download_bps, Some(u32::MAX));
    assert_eq!(options.ratelimits.upload_bps, Some(u32::MAX));
}

#[test]
fn add_with_identifier_succeeds() {
    let step = after_add(Ok(Some(7)));
    assert!(matches!(step.next, TaskNext::Done(Ok(Some(7)))));
    assert_eq!(events_of(&step), vec!["added(7)", "status(Sync: Idle)"]);
}

#[test]
fn add_without_identifier_is_reported_and_still_done() {
    let step = after_add(Ok(None));
    assert!(matches!(step.next, TaskNext::Done(Ok(None))));
    assert_eq!(
        events_of(&step),
        vec![
            "error(Torrent added but API returned no ID)",
            "status(Sync Error: Torrent added but API returned no ID)"
        ]
    );
}

#[test]
fn refused_add_is_an_engine_error_with_the_reason() {
    let step = after_add(Err("invalid bencode".to_string()));
    match step.next {
        TaskNext::Done(Err(error)) => {
            assert!(matches!(&error, ReplaceError::Engine(reason) if reason == "invalid bencode"));
            assert_eq!(error.message(), "Failed to add torrent: invalid bencode");
        }
        _ => panic!("a refused add ends the replacement with an error"),
    }
    assert!(step.events.is_empty());
}

#[test]
fn configuration_error_in_words() {
    assert_eq!(ReplaceError::Configuration.message(), "Download path not configured");
}

#[test]
fn cached_manifest_is_added_unpaused_and_uncapped() {
    let options = cached_start_options(&"/data".to_string());
    assert_eq!(options.output_folder, "/data");
    assert!(options.overwrite);
    assert!(!options.paused);
    assert_eq!(options.ratelimits.download_bps, None);
    assert_eq!(options.ratelimits.upload_bps, None);
}

#[test]
fn start_keeps_the_cache_only_with_an_identifier() {
    assert_eq!(
        after_cached_add(&Ok(Some(5))),
        CachedStart { initial_torrent_id: Some(5), discard_cache: false }
    );
    assert_eq!(
        after_cached_add(&Ok(None)),
        CachedStart { initial_torrent_id: None, discard_cache: true }
    );
    assert_eq!(
        after_cached_add(&Err("bad torrent".to_string())),
        CachedStart { initial_torrent_id: None, discard_cache: true }
    );
}

#[test]
fn status_of_events_is_shown() {
    assert_eq!(show(&SyncEvent::StatusUpdate(SyncStatus::Idle)), "status(Sync: Idle)");
}
