//! The user's settings as the application stores them.

use vstd::prelude::*;
use crate::paths::{join_path, path_below};
use crate::types::{SyncConfig, SyncConfigView};

verus! {

/// The settings of the first release: where the manifest is, and where the
/// files go.
#[derive(Debug, Clone)]
pub struct Config {
    pub remote_torrent_url: String,
    pub local_download_path: String,
}

impl Default for Config {
    fn default() -> (config: Config)
        ensures
            config.remote_torrent_url@ == Seq::<char>::empty(),
            config.local_download_path@ == "./modsync_downloads"@,
    {
        Config {
            remote_torrent_url: String::new(),
            local_download_path: String::from_str("./modsync_downloads"),
        }
    }
}

/// How the files are fetched.
#[derive(Debug, Clone, Copy, PartialEq, Eq, Structural)]
pub enum DownloadMode {
    /// BitTorrent first, HTTP if that does not work.
    Auto,
    /// BitTorrent only.
    BitTorrentOnly,
    /// HTTP only.
    HttpOnly,
    /// HTTP after BitTorrent has timed out.
    HttpFallback,
}

impl Default for DownloadMode {
    fn default() -> (mode: DownloadMode)
        ensures
            mode == DownloadMode::Auto,
    {
        DownloadMode::Auto
    }
}

/// The settings of the application.
#[derive(Debug, Clone)]
pub struct AppConfig {
    pub torrent_url: String,
    pub download_path: String,
    pub should_seed: bool,
    /// Upload cap in KB/s; `None` is no limit.
    pub max_upload_speed: Option<u64>,
    /// Download cap in KB/s; `None` is no limit.
    pub max_download_speed: Option<u64>,
    pub http_base_urls: Vec<String>,
    pub download_mode: DownloadMode,
    pub fallback_timeout_seconds: u64,
}

/// The mathematical value of an [`AppConfig`].
pub struct AppConfigView {
    pub torrent_url: Seq<char>,
    pub download_path: Seq<char>,
    pub should_seed: bool,
    pub max_upload_speed: Option<u64>,
    pub max_download_speed: Option<u64>,
    pub http_base_urls: Seq<Seq<char>>,
    pub download_mode: DownloadMode,
    pub fallback_timeout_seconds: u64,
}

impl View for AppConfig {
    type V = AppConfigView;

    open spec fn view(&self) -> AppConfigView {
        AppConfigView {
            torrent_url: self.torrent_url@,
            download_path: self.download_path@,
            should_seed: self.should_seed,
            max_upload_speed: self.max_upload_speed,
            max_download_speed: self.max_download_speed,
            http_base_urls: self.http_base_urls.deep_view(),
            download_mode: self.download_mode,
            fallback_timeout_seconds: self.fallback_timeout_seconds,
        }
    }
}

/// A speed cap as the synchronisation keeps it: the same number of KB/s, or
/// the largest it can hold where the setting is larger still.
pub open spec fn narrowed_cap(cap: Option<u64>) -> Option<u32> {
    match cap {
        Some(speed) => if speed > u32::MAX {
            Some(u32::MAX)
        } else {
            Some(speed as u32)
        },
        None => None,
    }
}

fn narrow_cap(cap: Option<u64>) -> (narrow: Option<u32>)
    ensures
        narrow == narrowed_cap(cap),
{
    match cap {
        Some(speed) => if speed > 0xffff_ffff {
            Some(0xffff_ffffu32)
        } else {
            Some(speed as u32)
        },
        None => None,
    }
}

impl AppConfigView {
    /// The settings of a fresh installation: seeding on, no caps, automatic
    /// download mode, half a minute until the HTTP fallback.
    pub open spec fn fresh() -> AppConfigView {
        AppConfigView {
            torrent_url: Seq::empty(),
            download_path: Seq::empty(),
            should_seed: true,
            max_upload_speed: None,
            max_download_speed: None,
            http_base_urls: Seq::empty(),
            download_mode: DownloadMode::Auto,
            fallback_timeout_seconds: 30,
        }
    }

    /// What the synchronisation reads of these settings, with the manifest
    /// cache at `cached_torrent_path`.
    pub open spec fn sync_config(self, cached_torrent_path: Option<Seq<char>>) -> SyncConfigView {
        SyncConfigView {
            torrent_url: self.torrent_url,
            download_path: self.download_path,
            max_upload_speed: narrowed_cap(self.max_upload_speed),
            max_download_speed: narrowed_cap(self.max_download_speed),
            should_seed: self.should_seed,
            cached_torrent_path,
        }
    }
}

impl Default for AppConfig {
    fn default() -> (config: AppConfig)
        ensures
            config@ == AppConfigView::fresh(),
    {
        let config = AppConfig {
            torrent_url: String::new(),
            download_path: String::new(),
            should_seed: true,
            max_upload_speed: None,
            max_download_speed: None,
            http_base_urls: Vec::new(),
            download_mode: DownloadMode::Auto,
            fallback_timeout_seconds: 30,
        };
        proof {
            assert(config.http_base_urls.deep_view() =~= Seq::<Seq<char>>::empty());
        }
        config
    }
}

impl AppConfig {
    /// What the synchronisation reads of these settings.
    pub fn sync_config(&self, cached_torrent_path: Option<String>) -> (config: SyncConfig)
        ensures
            config@ == self@.sync_config(cached_torrent_path.deep_view()),
    {
        SyncConfig {
            torrent_url: self.torrent_url.clone(),
            download_path: self.download_path.clone(),
            max_upload_speed: narrow_cap(self.max_upload_speed),
            max_download_speed: narrow_cap(self.max_download_speed),
            should_seed: self.should_seed,
            cached_torrent_path,
        }
    }
}

/// The settings as a file may hold them: every entry may be absent.
#[derive(Debug, Clone)]
pub struct ConfigLoader {
    pub torrent_url: Option<String>,
    pub download_path: Option<String>,
    pub should_seed: Option<bool>,
    pub max_upload_speed: Option<u64>,
    pub max_download_speed: Option<u64>,
    pub http_base_urls: Option<Vec<String>>,
    pub download_mode: Option<DownloadMode>,
    pub fallback_timeout_seconds: Option<u64>,
}

/// The mathematical value of a [`ConfigLoader`].
pub struct ConfigLoaderView {
    pub torrent_url: Option<Seq<char>>,
    pub download_path: Option<Seq<char>>,
    pub should_seed: Option<bool>,
    pub max_upload_speed: Option<u64>,
    pub max_download_speed: Option<u64>,
    pub http_base_urls: Option<Seq<Seq<char>>>,
    pub download_mode: Option<DownloadMode>,
    pub fallback_timeout_seconds: Option<u64>,
}

impl View for ConfigLoader {
    type V = ConfigLoaderView;

    open spec fn view(&self) -> ConfigLoaderView {
        ConfigLoaderView {
            torrent_url: self.torrent_url.deep_view(),
            download_path: self.download_path.deep_view(),
            should_seed: self.should_seed,
            max_upload_speed: self.max_upload_speed,
            max_download_speed: self.max_download_speed,
            http_base_urls: self.http_base_urls.deep_view(),
            download_mode: self.download_mode,
            fallback_timeout_seconds: self.fallback_timeout_seconds,
        }
    }
}

/// `value` where it is present, `fallback` where it is not.
pub open spec fn or_default<T>(value: Option<T>, fallback: T) -> T {
    match value {
        Some(value) => value,
        None => fallback,
    }
}

impl ConfigLoaderView {
    /// The settings that a file stands for: its entries, and the value of a
    /// fresh installation for each entry that it lacks.
    pub open spec fn completed(self) -> AppConfigView {
        let fresh = AppConfigView::fresh();
        AppConfigView {
            torrent_url: or_default(self.torrent_url, fresh.torrent_url),
            download_path: or_default(self.download_path, fresh.download_path),
            should_seed: or_default(self.should_seed, fresh.should_seed),
            max_upload_speed: self.max_upload_speed,
            max_download_speed: self.max_download_speed,
            http_base_urls: or_default(self.http_base_urls, fresh.http_base_urls),
            download_mode: or_default(self.download_mode, fresh.download_mode),
            fallback_timeout_seconds: or_default(
                self.fallback_timeout_seconds,
                fresh.fallback_timeout_seconds,
            ),
        }
    }

    /// Whether the file predates one of the profile settings, so that it
    /// should be written again in full.
    pub open spec fn needs_upgrade(self) -> bool {
        ||| self.should_seed is None
        ||| self.max_upload_speed is None
        ||| self.max_download_speed is None
        ||| self.http_base_urls is None
        ||| self.download_mode is None
        ||| self.fallback_timeout_seconds is None
    }
}

/// Completes the settings read from a file, and tells whether the file
/// should be written again because it lacked a newer entry.
pub fn load_config(loader: ConfigLoader) -> (loaded: (AppConfig, bool))
    ensures
        loaded.0@ == loader@.completed(),
        loaded.1 == loader@.needs_upgrade(),
{
    let needs_upgrade = loader.should_seed.is_none() || loader.max_upload_speed.is_none()
        || loader.max_download_speed.is_none() || loader.http_base_urls.is_none()
        || loader.download_mode.is_none() || loader.fallback_timeout_seconds.is_none();
    let fresh = AppConfig::default();
    let config = AppConfig {
        torrent_url: match loader.torrent_url {
            Some(url) => url,
            None => fresh.torrent_url,
        },
        download_path: match loader.download_path {
            Some(path) => path,
            None => fresh.download_path,
        },
        should_seed: match loader.should_seed {
            Some(seed) => seed,
            None => fresh.should_seed,
        },
        max_upload_speed: loader.max_upload_speed,
        max_download_speed: loader.max_download_speed,
        http_base_urls: match loader.http_base_urls {
            Some(urls) => urls,
            None => fresh.http_base_urls,
        },
        download_mode: match loader.download_mode {
            Some(mode) => mode,
            None => fresh.download_mode,
        },
        fallback_timeout_seconds: match loader.fallback_timeout_seconds {
            Some(seconds) => seconds,
            None => fresh.fallback_timeout_seconds,
        },
    };
    (config, needs_upgrade)
}

/// Where the last applied manifest is cached: the file `cached.torrent` in
/// the application's cache directory.
pub fn get_cached_torrent_path(cache_dir: &String) -> (path: String)
    ensures
        path@ == join_path(cache_dir@, "cached.torrent"@),
{
    let name = String::from_str("cached.torrent");
    path_below(cache_dir, &name)
}

} // verus!
