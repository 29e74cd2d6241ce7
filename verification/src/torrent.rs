//! Replacing the torrent that the engine manages.
//!
//! A replacement forgets the torrent managed so far, if there is one, and
//! then adds the new manifest. The engine is asked one thing at a time: each
//! function here takes the answer to the last request and says what goes out
//! to the driver and what the engine is asked next.

use vstd::prelude::*;
use crate::engine::{AddTorrentOptions, AddTorrentOptionsView, LimitsConfig};
use crate::messages::{
    failure_events,
    no_events,
    send_failure,
    send_sync_event,
    send_sync_status_event,
    SyncEvent,
    SyncEventView,
};
use crate::status::{SyncStatus, SyncStatusView};
use crate::text::{decimal, decimal_string};
use crate::types::{SyncConfig, SyncConfigView};

verus! {

/// Why a replacement failed.
#[derive(Debug, Clone)]
pub enum ReplaceError {
    /// No download folder is configured.
    Configuration,
    /// The engine refused the new torrent, with its reason.
    Engine(String),
}

/// The mathematical value of a [`ReplaceError`].
pub enum ReplaceErrorView {
    Configuration,
    Engine(Seq<char>),
}

impl View for ReplaceError {
    type V = ReplaceErrorView;

    open spec fn view(&self) -> ReplaceErrorView {
        match self {
            ReplaceError::Configuration => ReplaceErrorView::Configuration,
            ReplaceError::Engine(reason) => ReplaceErrorView::Engine(reason@),
        }
    }
}

impl ReplaceErrorView {
    /// The error in words.
    pub open spec fn message(self) -> Seq<char> {
        match self {
            ReplaceErrorView::Configuration => "Download path not configured"@,
            ReplaceErrorView::Engine(reason) => "Failed to add torrent: "@ + reason,
        }
    }
}

impl ReplaceError {
    /// The error in words.
    pub fn message(&self) -> (text: String)
        ensures
            text@ == self@.message(),
    {
        match self {
            ReplaceError::Configuration => String::from_str("Download path not configured"),
            ReplaceError::Engine(reason) => String::from_str("Failed to add torrent: ").concat(
                reason.as_str(),
            ),
        }
    }
}

/// What a replacement does next.
#[derive(Debug)]
pub enum TaskNext {
    /// Ask the engine to forget this torrent.
    Forget { id: usize },
    /// Ask the engine to add the new manifest with these options.
    Add { options: AddTorrentOptions },
    /// Nothing: the replacement has ended, with the new identifier (`None`
    /// where the engine gave none) or the error.
    Done(Result<Option<usize>, ReplaceError>),
}

/// The mathematical value of a [`TaskNext`].
pub enum TaskNextView {
    Forget { id: usize },
    Add { options: AddTorrentOptionsView },
    Done(Result<Option<usize>, ReplaceErrorView>),
}

impl View for TaskNext {
    type V = TaskNextView;

    open spec fn view(&self) -> TaskNextView {
        match self {
            TaskNext::Forget { id } => TaskNextView::Forget { id: *id },
            TaskNext::Add { options } => TaskNextView::Add { options: options@ },
            TaskNext::Done(result) => TaskNextView::Done(
                match result {
                    Ok(id) => Ok(*id),
                    Err(error) => Err(error@),
                },
            ),
        }
    }
}

/// One step of a replacement: what is reported, and what comes next.
#[derive(Debug)]
pub struct TaskStep {
    pub events: Vec<SyncEvent>,
    pub next: TaskNext,
}

/// The mathematical value of a [`TaskStep`].
pub struct TaskStepView {
    pub events: Seq<SyncEventView>,
    pub next: TaskNextView,
}

impl View for TaskStep {
    type V = TaskStepView;

    open spec fn view(&self) -> TaskStepView {
        TaskStepView { events: self.events.deep_view(), next: self.next@ }
    }
}

/// The engine's cap in bytes per second for a setting in KB/s. No setting
/// and a setting of zero both mean no limit; a setting too large for the
/// engine's counter means the largest cap there is.
pub open spec fn rate_limit(cap: Option<u32>) -> Option<u32> {
    match cap {
        Some(speed) => if speed == 0 {
            None
        } else if speed * 1024 > u32::MAX {
            Some(u32::MAX)
        } else {
            Some((speed * 1024) as u32)
        },
        None => None,
    }
}

/// The options with which a manifest is added: into the download folder,
/// over what is already there so that it is checked again, paused unless
/// seeding is wanted, and capped as configured.
pub open spec fn add_options(config: SyncConfigView) -> AddTorrentOptionsView {
    AddTorrentOptionsView {
        output_folder: config.download_path,
        overwrite: true,
        paused: !config.should_seed,
        ratelimits: LimitsConfig {
            download_bps: rate_limit(config.max_download_speed),
            upload_bps: rate_limit(config.max_upload_speed),
        },
    }
}

/// The step that leads to the engine's add: refused where no download folder
/// is configured, so that the engine never sees an empty output folder.
pub open spec fn add_stage(config: SyncConfigView) -> TaskStepView {
    if config.download_path.len() == 0 {
        TaskStepView {
            events: Seq::empty(),
            next: TaskNextView::Done(Err(ReplaceErrorView::Configuration)),
        }
    } else {
        TaskStepView {
            events: seq![SyncEventView::StatusUpdate(SyncStatusView::UpdatingTorrent)],
            next: TaskNextView::Add { options: add_options(config) },
        }
    }
}

/// The first step of a replacement: forget the old torrent where there is
/// one, else go on to the add at once.
pub open spec fn task_begin(config: SyncConfigView, current_id_to_forget: Option<usize>) -> TaskStepView {
    match current_id_to_forget {
        Some(id) => TaskStepView {
            events: seq![SyncEventView::StatusUpdate(SyncStatusView::UpdatingTorrent)],
            next: TaskNextView::Forget { id },
        },
        None => add_stage(config),
    }
}

/// The report of a forget that failed.
pub open spec fn forget_failure_message(id: usize, reason: Seq<char>) -> Seq<char> {
    "Error forgetting old torrent "@ + decimal(id as nat) + ": "@ + reason
}

/// The step after the engine's answer to the forget. A failure is reported
/// and changes nothing else: the old torrent may have been gone already.
pub open spec fn task_after_forget(config: SyncConfigView, id: usize, failure: Option<Seq<char>>) -> TaskStepView {
    let report = match failure {
        Some(reason) => seq![SyncEventView::Error(forget_failure_message(id, reason))],
        None => Seq::empty(),
    };
    TaskStepView { events: report + add_stage(config).events, next: add_stage(config).next }
}

/// The last step, after the engine's answer to the add. An add without an
/// identifier is reported as an error and still counts as done.
pub open spec fn task_after_add(outcome: Result<Option<usize>, Seq<char>>) -> TaskStepView {
    match outcome {
        Ok(Some(id)) => TaskStepView {
            events: seq![
                SyncEventView::TorrentAdded(id),
                SyncEventView::StatusUpdate(SyncStatusView::Idle),
            ],
            next: TaskNextView::Done(Ok(Some(id))),
        },
        Ok(None) => TaskStepView {
            events: failure_events("Torrent added but API returned no ID"@),
            next: TaskNextView::Done(Ok(None)),
        },
        Err(reason) => TaskStepView {
            events: Seq::empty(),
            next: TaskNextView::Done(Err(ReplaceErrorView::Engine(reason))),
        },
    }
}

fn limit_for(cap: Option<u32>) -> (limit: Option<u32>)
    ensures
        limit == rate_limit(cap),
{
    match cap {
        Some(speed) => {
            let bytes: u64 = (speed as u64) * 1024;
            if bytes == 0 {
                None
            } else if bytes > 0xffff_ffff {
                Some(0xffff_ffffu32)
            } else {
                Some(bytes as u32)
            }
        },
        None => None,
    }
}

/// The options with which the engine is asked to add a manifest.
pub fn options_for(config: &SyncConfig) -> (options: AddTorrentOptions)
    ensures
        options@ == add_options(config@),
        options.ratelimits.well_formed(),
{
    AddTorrentOptions {
        output_folder: config.download_path.clone(),
        overwrite: true,
        paused: !config.should_seed,
        ratelimits: LimitsConfig {
            download_bps: limit_for(config.max_download_speed),
            upload_bps: limit_for(config.max_upload_speed),
        },
    }
}

fn begin_add(config: &SyncConfig, events: Vec<SyncEvent>) -> (step: TaskStep)
    ensures
        step@.events == events.deep_view() + add_stage(config@).events,
        step@.next == add_stage(config@).next,
{
    let mut events = events;
    let ghost before = events.deep_view();
    if config.download_path.as_str().is_empty() {
        proof {
            assert(before + Seq::<SyncEventView>::empty() =~= before);
        }
        TaskStep { events, next: TaskNext::Done(Err(ReplaceError::Configuration)) }
    } else {
        send_sync_status_event(&mut events, SyncStatus::UpdatingTorrent);
        proof {
            assert(events.deep_view() =~= before + add_stage(config@).events);
        }
        TaskStep { events, next: TaskNext::Add { options: options_for(config) } }
    }
}

/// Starts replacing the managed torrent.
///
/// With a torrent to forget, the engine is asked to forget it before
/// anything else. Without one, the replacement goes on to the add.
pub fn manage_torrent_task(config: &SyncConfig, current_id_to_forget: Option<usize>) -> (step:
    TaskStep)
    ensures
        step@ == task_begin(config@, current_id_to_forget),
{
    match current_id_to_forget {
        Some(id) => {
            let mut events = no_events();
            send_sync_status_event(&mut events, SyncStatus::UpdatingTorrent);
            proof {
                assert(events.deep_view() =~= task_begin(config@, current_id_to_forget).events);
            }
            TaskStep { events, next: TaskNext::Forget { id } }
        },
        None => {
            let step = begin_add(config, no_events());
            proof {
                assert(step@.events =~= add_stage(config@).events);
            }
            step
        },
    }
}

/// Goes on after the engine has answered the forget of `id`; `failure` is
/// the engine's reason where it could not forget.
///
/// Whatever the answer, the add is next, unless no download folder is
/// configured.
pub fn after_forget(config: &SyncConfig, id: usize, failure: Option<String>) -> (step: TaskStep)
    ensures
        step@ == task_after_forget(config@, id, failure.deep_view()),
{
    let mut events = no_events();
    match failure {
        Some(reason) => {
            let digits = decimal_string(id as u64);
            let message = String::from_str("Error forgetting old torrent ").concat(
                digits.as_str(),
            ).concat(": ").concat(reason.as_str());
            send_sync_event(&mut events, SyncEvent::Error(message));
            proof {
                assert(events.deep_view() =~= seq![
                    SyncEventView::Error(forget_failure_message(id, reason@)),
                ]);
            }
        },
        None => {},
    }
    begin_add(config, events)
}

/// Ends the replacement with the engine's answer to the add.
pub fn after_add(outcome: Result<Option<usize>, String>) -> (step: TaskStep)
    ensures
        step@ == task_after_add(
            match outcome {
                Ok(id) => Ok(id),
                Err(reason) => Err(reason@),
            },
        ),
{
    let mut events = no_events();
    match outcome {
        Ok(Some(id)) => {
            send_sync_event(&mut events, SyncEvent::TorrentAdded(id));
            send_sync_status_event(&mut events, SyncStatus::Idle);
            proof {
                assert(events.deep_view() =~= seq![
                    SyncEventView::TorrentAdded(id),
                    SyncEventView::StatusUpdate(SyncStatusView::Idle),
                ]);
            }
            TaskStep { events, next: TaskNext::Done(Ok(Some(id))) }
        },
        Ok(None) => {
            send_failure(&mut events, String::from_str("Torrent added but API returned no ID"));
            proof {
                assert(events.deep_view() =~= failure_events(
                    "Torrent added but API returned no ID"@,
                ));
            }
            TaskStep { events, next: TaskNext::Done(Ok(None)) }
        },
        Err(reason) => TaskStep { events, next: TaskNext::Done(Err(ReplaceError::Engine(reason))) },
    }
}

/// The options with which the cached manifest is added at start-up, before
/// the manager runs: into the download folder, over what is there, not
/// paused, so that the engine checks the folder at once, and without caps.
pub open spec fn cached_add_options(download_path: Seq<char>) -> AddTorrentOptionsView {
    AddTorrentOptionsView {
        output_folder: download_path,
        overwrite: true,
        paused: false,
        ratelimits: LimitsConfig { download_bps: None, upload_bps: None },
    }
}

/// The options with which the cached manifest is added at start-up.
pub fn cached_start_options(download_path: &String) -> (options: AddTorrentOptions)
    ensures
        options@ == cached_add_options(download_path@),
{
    AddTorrentOptions {
        output_folder: download_path.clone(),
        overwrite: true,
        paused: false,
        ratelimits: LimitsConfig { download_bps: None, upload_bps: None },
    }
}

/// How start-up goes on after the cached manifest was handed to the engine.
#[derive(Debug, Clone, Copy, PartialEq, Eq, Structural)]
pub struct CachedStart {
    /// The torrent with which the manager starts.
    pub initial_torrent_id: Option<usize>,
    /// Whether the cached manifest is to be deleted, because the engine
    /// could not use it.
    pub discard_cache: bool,
}

/// What start-up makes of the engine's answer to the add of the cached
/// manifest: with an identifier the manager starts with that torrent; in
/// every other case it starts without one and the cache is discarded.
pub open spec fn cached_start(outcome: Result<Option<usize>, Seq<char>>) -> CachedStart {
    match outcome {
        Ok(Some(id)) => CachedStart { initial_torrent_id: Some(id), discard_cache: false },
        _ => CachedStart { initial_torrent_id: None, discard_cache: true },
    }
}

/// Decides how start-up goes on after the add of the cached manifest.
pub fn after_cached_add(outcome: &Result<Option<usize>, String>) -> (start: CachedStart)
    ensures
        start == cached_start(
            match outcome {
                Ok(id) => Ok(*id),
                Err(reason) => Err(reason@),
            },
        ),
{
    match outcome {
        Ok(Some(id)) => CachedStart { initial_torrent_id: Some(*id), discard_cache: false },
        _ => CachedStart { initial_torrent_id: None, discard_cache: true },
    }
}

/// The old torrent is forgotten before the new one is added, whether or not
/// the forget succeeds: a replacement with a torrent to forget starts by
/// asking for just that, and only the step after the answer, whichever it
/// is, asks for the add.
pub proof fn lemma_forget_comes_before_add(
    config: SyncConfigView,
    id: usize,
    failure: Option<Seq<char>>,
)
    ensures
        task_begin(config, Some(id)).next == (TaskNextView::Forget { id }),
        config.download_path.len() > 0 ==> task_after_forget(config, id, failure).next == (
        TaskNextView::Add { options: add_options(config) }),
        config.download_path.len() == 0 ==> task_after_forget(config, id, failure).next
            == TaskNextView::Done(Err(ReplaceErrorView::Configuration)),
{
}

/// The engine is never asked to add a torrent into an empty output folder,
/// and never with a cap of zero.
pub proof fn lemma_add_has_a_folder(
    config: SyncConfigView,
    current_id_to_forget: Option<usize>,
    id: usize,
    failure: Option<Seq<char>>,
)
    ensures
        task_begin(config, current_id_to_forget).next matches TaskNextView::Add { options }
            ==> options.output_folder.len() > 0 && options.ratelimits.well_formed(),
        task_after_forget(config, id, failure).next matches TaskNextView::Add { options }
            ==> options.output_folder.len() > 0 && options.ratelimits.well_formed(),
{
}

} // verus!
