use modsync::cleaner::FolderScan;
use modsync::engine::{TorrentDetailsResponse, TorrentDetailsResponseFile, TorrentStats, TorrentStatsState};
use modsync::hashing::CachedManifest;
use modsync::manager::{run_sync_manager, Step, SyncManager};
use modsync::messages::{SyncCommand, SyncEvent};
use modsync::requests::{DeleteFailure, SyncReply, SyncRequest};
use modsync::transport::FetchOutcome;
use modsync::types::{LocalTorrentState, RemoteTorrentState, SyncConfig};

/// A stand-in for the engine, the folder, the cache and the web server. A
/// manifest is the list of its file names, one per line.
struct World {
    next_id: usize,
    torrents: Vec<(usize, Vec<u8>)>,
    folder: Vec<String>,
    cache: Option<Vec<u8>>,
    published: Vec<u8>,
    log: Vec<String>,
    events: Vec<String>,
}

impl World {
    fn new() -> World {
        World {
            next_id: 1,
            torrents: Vec::new(),
            folder: Vec::new(),
            cache: None,
            published: Vec::new(),
            log: Vec::new(),
            events: Vec::new(),
        }
    }

    fn files_of(manifest: &[u8]) -> Vec<String> {
        String::from_utf8_lossy(manifest).lines().map(|l| l.to_string()).collect()
    }

    fn answer(&mut self, request: SyncRequest) -> SyncReply {
        match request {
            SyncRequest::Forget { id } => {
                self.log.push(format!("forget {}", id));
                let before = self.torrents.len();
                self.torrents.retain(|(known, _)| *known != id);
                if self.torrents.len() == before {
                    SyncReply::Forgot { failure: Some(format!("torrent {} not found", id)) }
                } else {
                    SyncReply::Forgot { failure: None }
                }
            }
            SyncRequest::AddTorrent { manifest, options } => {
                self.log.push(format!("add into {}", options.output_folder));
                if manifest.is_empty() {
                    return SyncReply::Added(Err("empty manifest".to_string()));
                }
                let id = self.next_id;
                self.next_id += 1;
                self.torrents.push((id, manifest));
                SyncReply::Added(Ok(Some(id)))
            }
            SyncRequest::Details { id } => {
                self.log.push(format!("details {}", id));
                match self.torrents.iter().find(|(known, _)| *known == id) {
                    Some((_, manifest)) => SyncReply::Details(Ok(TorrentDetailsResponse {
                        id: Some(id),
                        info_hash: "hash".to_string(),
                        name: None,
                        output_folder: "/data".to_string(),
                        files: Some(
                            World::files_of(manifest)
                                .into_iter()
                                .map(|path| TorrentDetailsResponseFile {
                                    name: path.clone(),
                                    components: path.split('/').map(String::from).collect(),
                                    length: 1,
                                    included: true,
                                })
                                .collect(),
                        ),
                        stats: None,
                    })),
                    None => SyncReply::Details(Err(format!("torrent {} not found", id))),
                }
            }
            SyncRequest::Stats { id } => {
                self.log.push(format!("stats {}", id));
                SyncReply::Stats(Ok(TorrentStats {
                    state: TorrentStatsState::Live,
                    error: None,
                    file_progress: vec![],
                    progress_bytes: 0,
                    uploaded_bytes: 0,
                    total_bytes: 0,
                    finished: false,
                }))
            }
            SyncRequest::ScanFolder { path } => {
                self.log.push(format!("scan {}", path));
                SyncReply::Scanned(FolderScan::Files(self.folder.clone()))
            }
            SyncRequest::ReadManifest { path } => {
                self.log.push(format!("read {}", path));
                SyncReply::ManifestRead(match &self.cache {
                    Some(bytes) => CachedManifest::Bytes(bytes.clone()),
                    None => CachedManifest::Absent,
                })
            }
            SyncRequest::StoreManifest { path, manifest } => {
                self.log.push(format!("store {}", path));
                self.cache = Some(manifest);
                SyncReply::ManifestStored { failure: None }
            }
            SyncRequest::DeleteFiles { paths } => {
                let mut failures = Vec::new();
                for path in paths {
                    self.log.push(format!("delete {}", path));
                    let rel = path.trim_start_matches("/data/").to_string();
                    if let Some(at) = self.folder.iter().position(|f| *f == rel) {
                        self.folder.remove(at);
                    } else {
                        failures.push(DeleteFailure { path, reason: "no such file".to_string() });
                    }
                }
                SyncReply::Deleted { failures }
            }
            SyncRequest::Fetch { url } => {
                self.log.push(format!("fetch {}", url));
                SyncReply::Fetched(FetchOutcome::Response { status: 200, body: self.published.clone() })
            }
        }
    }

    fn note(&mut self, step: &Step) {
        for event in &step.events {
            self.events.push(match event {
                SyncEvent::ManagedTorrentUpdate(Some((id, _))) => format!("stats({})", id),
                SyncEvent::ManagedTorrentUpdate(None) => "stats(none)".to_string(),
                SyncEvent::TorrentAdded(id) => format!("added({})", id),
                SyncEvent::Error(message) => format!("error({})", message),
                SyncEvent::StatusUpdate(status) => format!("status({})", status.display_text()),
                SyncEvent::ExtraFilesFound(files) => format!("extra({})", files.join(",")),
                SyncEvent::RemoteUpdateFound(bytes) => {
                    format!("update({})", World::files_of(bytes).join(","))
                }
                SyncEvent::MissingFilesFound(files) => {
                    let mut paths = files.paths().clone();
                    paths.sort();
                    format!("missing({})", paths.join(","))
                }
            });
        }
    }

    /// Carries out requests until the manager is idle again.
    fn run(&mut self, manager: &mut SyncManager, first: Step) -> Vec<String> {
        self.events.clear();
        let mut step = first;
        loop {
            self.note(&step);
            match step.request.take() {
                Some(request) => {
                    let reply = self.answer(request);
                    step = manager.handle_reply(reply).expect("the awaited reply");
                }
                None => break,
            }
        }
        assert!(manager.is_idle());
        self.events.clone()
    }

    fn command(&mut self, manager: &mut SyncManager, command: SyncCommand) -> Vec<String> {
        let step = manager.handle_command(command).expect("an idle manager");
        self.run(manager, step)
    }
}

fn config() -> SyncConfig {
    SyncConfig {
        torrent_url: "http://example.com/pack.torrent".to_string(),
        download_path: "/data".to_string(),
        max_upload_speed: None,
        max_download_speed: None,
        should_seed: true,
        cached_torrent_path: Some("/cache/cached.torrent".to_string()),
    }
}

#[test]
fn end_to_end_update_verify_and_fix() {
    let mut world = World::new();
    let (mut manager, step) = run_sync_manager(config(), None);
    world.run(&mut manager, step);

    // Manifest A with the file x is applied; the folder holds only x.
    world.cache = Some(b"x".to_vec());
    world.folder = vec!["x".to_string()];
    world.command(&mut manager, SyncCommand::ApplyUpdate(b"x".to_vec()));
    let first_id = match manager.state().local {
        LocalTorrentState::Active { id } => id,
        LocalTorrentState::NotLoaded => panic!("manifest A should be loaded"),
    };
    assert_eq!(manager.state().remote, RemoteTorrentState::Checked);

    let events = world.command(&mut manager, SyncCommand::VerifyFolder);
    assert_eq!(events, vec!["status(Sync: Verifying Local Files)", "missing()", "extra()"]);

    // Manifest B with x and y is published and applied; y is not there yet.
    world.published = b"x\ny".to_vec();
    let events = world.command(
        &mut manager,
        SyncCommand::DownloadAndCompare("http://example.com/pack.torrent".to_string()),
    );
    assert_eq!(
        events,
        vec!["status(Sync: Checking Remote)", "update(x,y)", "status(Remote: Update Available)"]
    );
    assert_eq!(manager.state().remote, RemoteTorrentState::UpdateAvailable);
    assert_eq!(world.cache, Some(b"x\ny".to_vec()));

    world.log.clear();
    world.command(&mut manager, SyncCommand::ApplyUpdate(b"x\ny".to_vec()));
    assert_eq!(world.log[0], format!("forget {}", first_id));
    assert_eq!(world.log[1], "add into /data");
    let second_id = match manager.state().local {
        LocalTorrentState::Active { id } => id,
        LocalTorrentState::NotLoaded => panic!("manifest B should be loaded"),
    };
    assert_ne!(second_id, first_id);
    assert_eq!(manager.state().remote, RemoteTorrentState::Checked);

    let events = world.command(&mut manager, SyncCommand::VerifyFolder);
    assert_eq!(
        events,
        vec![
            "status(Sync: Verifying Local Files)",
            "missing(y)",
            "status(Local: Active & Seeding)",
            "extra()"
        ]
    );

    // The user asks for a fix: the cached manifest B is added again.
    world.log.clear();
    let events = world.command(&mut manager, SyncCommand::FixMissingFiles);
    assert_eq!(
        world.log,
        vec![
            "read /cache/cached.torrent".to_string(),
            format!("forget {}", second_id),
            "add into /data".to_string(),
            format!("stats {}", second_id + 1),
        ]
    );
    assert!(events.contains(&format!("added({})", second_id + 1)));
    assert_eq!(manager.state().local, LocalTorrentState::Active { id: second_id + 1 });
    assert_eq!(world.torrents, vec![(second_id + 1, b"x\ny".to_vec())]);

    // The engine has fetched y in the meantime.
    world.folder.push("y".to_string());
    let events = world.command(&mut manager, SyncCommand::VerifyFolder);
    assert_eq!(events, vec!["status(Sync: Verifying Local Files)", "missing()", "extra()"]);
}

#[test]
fn extra_files_are_found_and_deleted() {
    let mut world = World::new();
    let (mut manager, step) = run_sync_manager(config(), None);
    world.run(&mut manager, step);
    world.folder = vec!["x".to_string(), "old/readme.txt".to_string()];

    let events = world.command(&mut manager, SyncCommand::ApplyUpdate(b"x".to_vec()));
    assert!(events.contains(&"extra(/data/old/readme.txt)".to_string()));

    let events = world.command(
        &mut manager,
        SyncCommand::DeleteFiles(vec!["/data/old/readme.txt".to_string()]),
    );
    assert_eq!(events, vec!["status(Sync: Verifying Local Files)", "status(Sync: Idle)", "extra()"]);
    assert_eq!(world.folder, vec!["x".to_string()]);

    let events = world.command(
        &mut manager,
        SyncCommand::DeleteFiles(vec!["/data/old/readme.txt".to_string()]),
    );
    assert_eq!(
        events,
        vec![
            "status(Sync: Verifying Local Files)",
            "error(Errors during file deletion: Failed to delete /data/old/readme.txt: no such file)",
            "status(Sync Error: Errors during file deletion: Failed to delete /data/old/readme.txt: no such file)"
        ]
    );
}

#[test]
fn forget_of_a_torrent_that_is_gone_does_not_stop_the_update() {
    let mut world = World::new();
    let (mut manager, step) = run_sync_manager(config(), Some(3));
    world.run(&mut manager, step);

    world.log.clear();
    let events = world.command(&mut manager, SyncCommand::ApplyUpdate(b"x".to_vec()));
    assert_eq!(world.log[0], "forget 3");
    assert_eq!(world.log[1], "add into /data");
    assert!(events.contains(&"error(Error forgetting old torrent 3: torrent 3 not found)".to_string()));
    assert_eq!(manager.state().local, LocalTorrentState::Active { id: 1 });
    assert_eq!(manager.state().remote, RemoteTorrentState::Checked);
}

#[test]
fn periodic_check_finds_the_published_update() {
    let mut world = World::new();
    world.cache = Some(b"x".to_vec());
    world.published = b"x".to_vec();
    let (mut manager, step) = run_sync_manager(config(), Some(1));
    world.torrents.push((1, b"x".to_vec()));
    world.run(&mut manager, step);

    let step = manager.handle_tick(0).unwrap();
    let events = world.run(&mut manager, step);
    assert_eq!(
        events,
        vec![
            "stats(1)",
            "status(Local: Active & Seeding)",
            "status(Sync: Checking Remote)",
            "status(Sync: Idle)"
        ]
    );
    assert_eq!(manager.state().remote, RemoteTorrentState::Unknown);

    world.published = b"x\nz".to_vec();
    let step = manager.handle_tick(10).unwrap();
    let events = world.run(&mut manager, step);
    assert_eq!(events, vec!["stats(1)", "status(Local: Active & Seeding)"]);

    let step = manager.handle_tick(600).unwrap();
    let events = world.run(&mut manager, step);
    assert_eq!(events.last().unwrap(), "status(Remote: Update Available)");
    assert_eq!(manager.state().remote, RemoteTorrentState::UpdateAvailable);
}
