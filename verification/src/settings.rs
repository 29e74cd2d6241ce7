//! The settings that are stored next to the executable, and the panel in
//! which the user edits them.

use vstd::prelude::*;
use crate::text::{
    decimal,
    decimal_string,
    is_blank,
    lemma_decimal_reads_back,
    parse_u64,
    parsed_u64,
    prefixed,
    trim,
    trimmed,
};

verus! {

/// The stored settings.
#[derive(Debug, Clone, PartialEq)]
pub struct AppSettings {
    pub torrent_url: String,
    pub download_path: String,
    /// Upload cap in KB/s; `None` is no limit.
    pub max_upload_speed: Option<u32>,
    /// Download cap in KB/s; `None` is no limit.
    pub max_download_speed: Option<u32>,
    pub should_seed: bool,
}

/// The mathematical value of an [`AppSettings`].
pub struct AppSettingsView {
    pub torrent_url: Seq<char>,
    pub download_path: Seq<char>,
    pub max_upload_speed: Option<u32>,
    pub max_download_speed: Option<u32>,
    pub should_seed: bool,
}

impl View for AppSettings {
    type V = AppSettingsView;

    open spec fn view(&self) -> AppSettingsView {
        AppSettingsView {
            torrent_url: self.torrent_url@,
            download_path: self.download_path@,
            max_upload_speed: self.max_upload_speed,
            max_download_speed: self.max_download_speed,
            should_seed: self.should_seed,
        }
    }
}

impl AppSettingsView {
    /// The settings of a fresh installation: no address, the folder
    /// `downloads`, no caps, no seeding.
    pub open spec fn fresh() -> AppSettingsView {
        AppSettingsView {
            torrent_url: Seq::empty(),
            download_path: "downloads"@,
            max_upload_speed: None,
            max_download_speed: None,
            should_seed: false,
        }
    }
}

impl Default for AppSettings {
    fn default() -> (settings: AppSettings)
        ensures
            settings@ == AppSettingsView::fresh(),
    {
        AppSettings {
            torrent_url: String::new(),
            download_path: String::from_str("downloads"),
            max_upload_speed: None,
            max_download_speed: None,
            should_seed: false,
        }
    }
}

impl AppSettings {
    /// The settings to store in order to start afresh.
    pub fn reset() -> (settings: AppSettings)
        ensures
            settings@ == AppSettingsView::fresh(),
    {
        AppSettings::default()
    }
}

/// The speed cap that a field of the panel stands for: the number in it,
/// blanks around it aside; none where the field is blank, holds no number,
/// or a number beyond 32 bits.
pub open spec fn panel_cap(text: Seq<char>) -> Option<u32> {
    match parsed_u64(trimmed(text)) {
        Ok(speed) => if speed <= u32::MAX {
            Some(speed as u32)
        } else {
            None
        },
        Err(_) => None,
    }
}

/// How a cap is shown in its field.
pub open spec fn cap_text(cap: Option<u32>) -> Seq<char> {
    match cap {
        Some(speed) => decimal(speed as nat),
        None => Seq::empty(),
    }
}

/// A cap that is shown in its field reads back as itself; so settings that
/// the panel has loaded and not changed are stored as they were.
pub proof fn lemma_panel_keeps_settings(panel: SettingsPanelView, settings: AppSettingsView)
    ensures
        panel_cap(cap_text(settings.max_upload_speed)) == settings.max_upload_speed,
        panel_cap(cap_text(settings.max_download_speed)) == settings.max_download_speed,
        panel.showing(settings).entered() == settings,
{
    lemma_cap_reads_back(settings.max_upload_speed);
    lemma_cap_reads_back(settings.max_download_speed);
}

proof fn lemma_cap_reads_back(cap: Option<u32>)
    ensures
        panel_cap(cap_text(cap)) == cap,
{
    match cap {
        Some(speed) => {
            lemma_decimal_reads_back(speed as u64);
        },
        None => {
            assert(is_blank(Seq::<char>::empty()));
        },
    }
}

fn read_panel_cap(text: &String) -> (cap: Option<u32>)
    ensures
        cap == panel_cap(text@),
{
    let inner = trim(text);
    match parse_u64(&inner) {
        Ok(speed) => if speed <= 0xffff_ffff {
            Some(speed as u32)
        } else {
            None
        },
        Err(_) => None,
    }
}

fn show_cap(cap: Option<u32>) -> (text: String)
    ensures
        text@ == cap_text(cap),
{
    match cap {
        Some(speed) => decimal_string(speed as u64),
        None => String::new(),
    }
}

/// The panel in which the stored settings are edited.
#[derive(Debug, Clone)]
pub struct SettingsPanel {
    pub open: bool,
    pub url_str: String,
    pub upload_str: String,
    pub download_str: String,
    pub path_str: String,
    pub save_message: Option<String>,
    pub should_seed: bool,
}

/// The mathematical value of a [`SettingsPanel`].
pub struct SettingsPanelView {
    pub open: bool,
    pub url_str: Seq<char>,
    pub upload_str: Seq<char>,
    pub download_str: Seq<char>,
    pub path_str: Seq<char>,
    pub save_message: Option<Seq<char>>,
    pub should_seed: bool,
}

impl View for SettingsPanel {
    type V = SettingsPanelView;

    open spec fn view(&self) -> SettingsPanelView {
        SettingsPanelView {
            open: self.open,
            url_str: self.url_str@,
            upload_str: self.upload_str@,
            download_str: self.download_str@,
            path_str: self.path_str@,
            save_message: self.save_message.deep_view(),
            should_seed: self.should_seed,
        }
    }
}

impl SettingsPanelView {
    /// The panel before it is shown for the first time: closed and empty.
    pub open spec fn closed() -> SettingsPanelView {
        SettingsPanelView {
            open: false,
            url_str: Seq::empty(),
            upload_str: Seq::empty(),
            download_str: Seq::empty(),
            path_str: Seq::empty(),
            save_message: None,
            should_seed: false,
        }
    }

    /// Whether the panel still has to be filled from the stored settings:
    /// nothing was saved yet and no folder is shown.
    pub open spec fn needs_load(self) -> bool {
        self.save_message is None && self.path_str.len() == 0
    }

    /// The panel showing the given settings.
    pub open spec fn showing(self, settings: AppSettingsView) -> SettingsPanelView {
        SettingsPanelView {
            url_str: settings.torrent_url,
            upload_str: cap_text(settings.max_upload_speed),
            download_str: cap_text(settings.max_download_speed),
            path_str: settings.download_path,
            should_seed: settings.should_seed,
            ..self
        }
    }

    /// The settings that the panel stands for.
    pub open spec fn entered(self) -> AppSettingsView {
        AppSettingsView {
            torrent_url: self.url_str,
            download_path: self.path_str,
            max_upload_speed: panel_cap(self.upload_str),
            max_download_speed: panel_cap(self.download_str),
            should_seed: self.should_seed,
        }
    }

    /// The panel after an attempt to save: it says how the attempt went.
    pub open spec fn after_save(self, failure: Option<Seq<char>>) -> SettingsPanelView {
        SettingsPanelView {
            save_message: Some(
                match failure {
                    None => "Settings saved"@,
                    Some(reason) => "Failed to save settings: "@ + reason,
                },
            ),
            ..self
        }
    }

    /// The panel after an attempt to reset: emptied where the defaults were
    /// stored, unchanged but for the message where they were not.
    pub open spec fn after_reset(self, failure: Option<Seq<char>>) -> SettingsPanelView {
        match failure {
            None => SettingsPanelView {
                open: self.open,
                url_str: Seq::empty(),
                upload_str: Seq::empty(),
                download_str: Seq::empty(),
                path_str: Seq::empty(),
                save_message: Some("Settings reset to defaults"@),
                should_seed: false,
            },
            Some(reason) => SettingsPanelView {
                save_message: Some("Failed to reset settings: "@ + reason),
                ..self
            },
        }
    }
}

impl Default for SettingsPanel {
    fn default() -> (panel: SettingsPanel)
        ensures
            panel@ == SettingsPanelView::closed(),
    {
        SettingsPanel {
            open: false,
            url_str: String::new(),
            upload_str: String::new(),
            download_str: String::new(),
            path_str: String::new(),
            save_message: None,
            should_seed: false,
        }
    }
}

impl SettingsPanel {
    /// Whether the panel still has to be filled from the stored settings.
    pub fn needs_load(&self) -> (needed: bool)
        ensures
            needed == self@.needs_load(),
    {
        self.save_message.is_none() && self.path_str.as_str().is_empty()
    }

    /// Fills the panel from the stored settings.
    pub fn load(&mut self, settings: &AppSettings)
        ensures
            final(self)@ == old(self)@.showing(settings@),
    {
        self.url_str = settings.torrent_url.clone();
        self.upload_str = show_cap(settings.max_upload_speed);
        self.download_str = show_cap(settings.max_download_speed);
        self.path_str = settings.download_path.clone();
        self.should_seed = settings.should_seed;
    }

    /// The settings to store for what the panel shows.
    pub fn settings(&self) -> (settings: AppSettings)
        ensures
            settings@ == self@.entered(),
    {
        AppSettings {
            torrent_url: self.url_str.clone(),
            download_path: self.path_str.clone(),
            max_upload_speed: read_panel_cap(&self.upload_str),
            max_download_speed: read_panel_cap(&self.download_str),
            should_seed: self.should_seed,
        }
    }

    /// Notes how storing the settings went; `failure` is the reason where it
    /// did not succeed.
    pub fn saved(&mut self, failure: Option<String>)
        ensures
            final(self)@ == old(self)@.after_save(failure.deep_view()),
    {
        self.save_message = Some(
            match failure {
                None => String::from_str("Settings saved"),
                Some(reason) => prefixed("Failed to save settings: ", &reason),
            },
        );
    }

    /// Notes how storing the defaults went, and empties the panel where it
    /// succeeded.
    pub fn was_reset(&mut self, failure: Option<String>)
        ensures
            final(self)@ == old(self)@.after_reset(failure.deep_view()),
    {
        match failure {
            None => {
                self.url_str = String::new();
                self.upload_str = String::new();
                self.download_str = String::new();
                self.path_str = String::new();
                self.should_seed = false;
                self.save_message = Some(String::from_str("Settings reset to defaults"));
            },
            Some(reason) => {
                self.save_message = Some(prefixed("Failed to reset settings: ", &reason));
            },
        }
    }
}

} // verus!
