//! The synchronisation manager: one state machine that takes commands,
//! ticks of the timer and the driver's answers, one at a time.
//!
//! The manager owns the [`SyncState`]. An operation that needs the engine,
//! the network or the file system hands a request to the driver and waits;
//! until the answer has come, no other command or tick is taken. The
//! driver's loop is therefore: take a command or a tick when the manager is
//! idle, then carry out requests and hand back answers until no request is
//! left.

use vstd::prelude::*;
use crate::local::{
    delete_after,
    delete_begin,
    delete_done,
    delete_files,
    fix_after_read,
    fix_begin,
    fix_missing_files,
    fix_with_manifest,
    refresh_events,
    refresh_managed_torrent_status_event,
    verify_after_details,
    verify_after_scan,
    verify_begin,
    verify_folder_contents,
    verify_with_details,
    verify_with_scan,
};
use crate::messages::{
    join_events,
    no_events,
    send_sync_status_event,
    SyncCommand,
    SyncCommandView,
    SyncEvent,
    SyncEventView,
};
use crate::progress::{finished, waiting, Phase, PhaseView, Progress, ProgressView};
use crate::remote::{
    apply_after_details,
    apply_after_scan,
    apply_after_stats,
    apply_begin,
    apply_remote_update,
    apply_with_details,
    apply_with_scan,
    apply_with_stats,
    compare_after_fetch,
    compare_after_read,
    compare_begin,
    compare_with_cache,
    compare_with_fetch,
    direct_download_and_compare,
    replacement_added,
    replacement_after_add,
    replacement_after_forget,
    replacement_forgot,
    report_update,
    update_found,
};
use crate::requests::{SyncReply, SyncReplyView, SyncRequest, SyncRequestView};
use crate::status::{SyncStatus, SyncStatusView};
use crate::types::{LocalTorrentState, SyncConfig, SyncConfigView, SyncState};

verus! {

/// How many seconds pass between two comparisons with the remote manifest
/// that the timer starts by itself.
pub const REMOTE_CHECK_INTERVAL_SECS: u64 = 600;

/// What the driver gets back from the manager: the events to pass on, in
/// order, and the request to carry out next, if the operation is not over.
#[derive(Debug, Clone)]
pub struct Step {
    pub events: Vec<SyncEvent>,
    pub request: Option<SyncRequest>,
}

/// The mathematical value of a [`Step`].
pub struct StepView {
    pub events: Seq<SyncEventView>,
    pub request: Option<SyncRequestView>,
}

impl View for Step {
    type V = StepView;

    open spec fn view(&self) -> StepView {
        StepView {
            events: self.events.deep_view(),
            request: match self.request {
                Some(request) => Some(request@),
                None => None,
            },
        }
    }
}

/// Why the manager did not take an input.
#[derive(Debug, Clone, Copy, PartialEq, Eq, Structural)]
pub enum Rejected {
    /// A command or a tick came while an operation was waiting for an answer.
    Busy,
    /// An answer came that the manager was not waiting for.
    Unexpected,
}

/// The synchronisation manager.
#[derive(Debug)]
pub struct SyncManager {
    state: SyncState,
    config: SyncConfig,
    phase: Phase,
    last_update_check: Option<u64>,
}

/// The mathematical value of a [`SyncManager`].
pub struct ManagerView {
    /// The local and remote state.
    pub state: SyncState,
    /// The configuration in force.
    pub config: SyncConfigView,
    /// What the manager is in the middle of.
    pub phase: PhaseView,
    /// When the timer last started a comparison with the remote manifest, in
    /// seconds on the driver's clock.
    pub last_update_check: Option<u64>,
}

impl View for SyncManager {
    type V = ManagerView;

    closed spec fn view(&self) -> ManagerView {
        ManagerView {
            state: self.state,
            config: self.config@,
            phase: self.phase@,
            last_update_check: self.last_update_check,
        }
    }
}

impl ManagerView {
    /// Whether the next command or tick can be taken.
    pub open spec fn idle(self) -> bool {
        self.phase is Idle
    }

    /// The manager after a step of an operation, and what the driver gets.
    pub open spec fn settle(self, progress: ProgressView) -> (ManagerView, StepView) {
        (
            ManagerView {
                state: progress.state,
                phase: match progress.pending {
                    Some(pending) => pending.phase,
                    None => PhaseView::Idle,
                },
                ..self
            },
            StepView {
                events: progress.events,
                request: match progress.pending {
                    Some(pending) => Some(pending.request),
                    None => None,
                },
            },
        )
    }

    /// The manager at start-up. With a torrent that the driver loaded
    /// beforehand, its figures are asked for; the status is idle either way.
    pub open spec fn start(config: SyncConfigView, initial_torrent_id: Option<usize>) -> (
        ManagerView,
        StepView,
    ) {
        let manager = ManagerView {
            state: SyncState::initial(initial_torrent_id),
            config,
            phase: PhaseView::Idle,
            last_update_check: None,
        };
        match initial_torrent_id {
            Some(id) => manager.settle(
                waiting(
                    manager.state,
                    Seq::empty(),
                    SyncRequestView::Stats { id },
                    PhaseView::Starting { id },
                ),
            ),
            None => manager.settle(
                finished(
                    manager.state,
                    seq![SyncEventView::StatusUpdate(SyncStatusView::Idle)],
                ),
            ),
        }
    }

    /// The manager after a command, taken while idle.
    pub open spec fn on_command(self, command: SyncCommandView) -> (ManagerView, StepView) {
        match command {
            SyncCommandView::UpdateConfig(settings) => ManagerView {
                config: settings.sync_config(self.config.cached_torrent_path),
                ..self
            }.settle(finished(self.state, Seq::empty())),
            SyncCommandView::VerifyFolder => self.settle(verify_begin(self.config, self.state)),
            SyncCommandView::FixMissingFiles => self.settle(fix_begin(self.config, self.state)),
            SyncCommandView::DeleteFiles(files) => self.settle(delete_begin(self.state, files)),
            SyncCommandView::ApplyUpdate(manifest) => self.settle(
                apply_begin(self.config, self.state, manifest),
            ),
            SyncCommandView::DownloadAndCompare(url) => self.settle(compare_begin(self.state, url)),
        }
    }

    /// Whether the timer starts a comparison with the remote manifest at
    /// `now`: it has never done so, or not for the whole interval.
    pub open spec fn remote_check_due(self, now: u64) -> bool {
        match self.last_update_check {
            Some(last) => now >= last && now - last >= REMOTE_CHECK_INTERVAL_SECS,
            None => true,
        }
    }

    /// The manager after a tick of the timer, taken while idle. Without a
    /// managed torrent nothing happens. With one, its figures are asked for.
    pub open spec fn on_tick(self, now: u64) -> (ManagerView, StepView) {
        match self.state.local {
            LocalTorrentState::NotLoaded => self.settle(finished(self.state, Seq::empty())),
            LocalTorrentState::Active { id } => {
                let check_remote = self.remote_check_due(now);
                ManagerView {
                    last_update_check: if check_remote {
                        Some(now)
                    } else {
                        self.last_update_check
                    },
                    ..self
                }.settle(
                    waiting(
                        self.state,
                        Seq::empty(),
                        SyncRequestView::Stats { id },
                        PhaseView::TickStats { id, check_remote },
                    ),
                )
            },
        }
    }

    /// How the operation in progress goes on with the driver's answer;
    /// `None` where this is not the answer that the manager waits for.
    pub open spec fn progress_with(self, reply: SyncReplyView) -> Option<ProgressView> {
        match (self.phase, reply) {
            (PhaseView::Starting { id }, SyncReplyView::Stats(outcome)) => Some(
                finished(
                    self.state,
                    refresh_events(id, outcome) + seq![
                        SyncEventView::StatusUpdate(SyncStatusView::Idle),
                    ],
                ),
            ),
            (PhaseView::VerifyDetails, SyncReplyView::Details(outcome)) => Some(
                verify_with_details(self.config, self.state, outcome),
            ),
            (PhaseView::VerifyScan { expected }, SyncReplyView::Scanned(scan)) => Some(
                verify_with_scan(self.config, self.state, expected, scan),
            ),
            (PhaseView::FixRead { id }, SyncReplyView::ManifestRead(cached)) => Some(
                fix_with_manifest(self.config, self.state, id, cached),
            ),
            (
                PhaseView::Forgetting { purpose, id, manifest },
                SyncReplyView::Forgot { failure },
            ) => Some(replacement_forgot(self.config, self.state, purpose, id, manifest, failure)),
            (PhaseView::Adding { purpose }, SyncReplyView::Added(outcome)) => Some(
                replacement_added(self.state, purpose, outcome),
            ),
            (PhaseView::FixStats { id }, SyncReplyView::Stats(outcome)) => Some(
                finished(self.state, refresh_events(id, outcome)),
            ),
            (PhaseView::Deleting, SyncReplyView::Deleted { failures }) => Some(
                delete_done(self.state, failures),
            ),
            (PhaseView::ApplyStats { id }, SyncReplyView::Stats(outcome)) => Some(
                apply_with_stats(self.state, id, outcome),
            ),
            (PhaseView::ApplyDetails, SyncReplyView::Details(outcome)) => Some(
                apply_with_details(self.config, self.state, outcome),
            ),
            (PhaseView::ApplyScan { expected }, SyncReplyView::Scanned(scan)) => Some(
                apply_with_scan(self.config, self.state, expected, scan),
            ),
            (PhaseView::Fetching, SyncReplyView::Fetched(outcome)) => Some(
                compare_with_fetch(self.config, self.state, outcome),
            ),
            (PhaseView::Comparing { remote }, SyncReplyView::ManifestRead(cached)) => Some(
                compare_with_cache(self.config, self.state, remote, cached),
            ),
            (PhaseView::Storing { remote }, SyncReplyView::ManifestStored { failure }) => Some(
                update_found(self.state, remote),
            ),
            (PhaseView::TickStats { id, check_remote }, SyncReplyView::Stats(outcome)) => Some(
                if check_remote {
                    compare_begin(self.state, self.config.torrent_url).after(
                        refresh_events(id, outcome),
                    )
                } else {
                    finished(self.state, refresh_events(id, outcome))
                },
            ),
            _ => None,
        }
    }

    /// The manager after an answer of the driver; `None` where this is not
    /// the answer that it waits for.
    pub open spec fn on_reply(self, reply: SyncReplyView) -> Option<(ManagerView, StepView)> {
        match self.progress_with(reply) {
            Some(progress) => Some(self.settle(progress)),
            None => None,
        }
    }
}

/// Starts the manager.
///
/// `initial_torrent_id` is the torrent that the driver has already handed to
/// the engine from the manifest cache, if any. The remote state starts
/// unknown.
pub fn run_sync_manager(config: SyncConfig, initial_torrent_id: Option<usize>) -> (started: (
    SyncManager,
    Step,
))
    ensures
        (started.0@, started.1@) == ManagerView::start(config@, initial_torrent_id),
{
    let state = SyncState::new(initial_torrent_id);
    let mut manager = SyncManager { state, config, phase: Phase::Idle, last_update_check: None };
    let progress = match initial_torrent_id {
        Some(id) => Progress::waiting(
            state,
            no_events(),
            SyncRequest::Stats { id },
            Phase::Starting { id },
        ),
        None => {
            let mut events = no_events();
            send_sync_status_event(&mut events, SyncStatus::Idle);
            Progress::finished(state, events)
        },
    };
    let step = manager.settle(progress);
    (manager, step)
}

impl SyncManager {
    /// The local and remote state.
    pub fn state(&self) -> (state: SyncState)
        ensures
            state == self@.state,
    {
        self.state
    }

    /// The configuration in force.
    pub fn config(&self) -> (config: &SyncConfig)
        ensures
            config@ == self@.config,
    {
        &self.config
    }

    /// Whether the next command or tick can be taken.
    pub fn is_idle(&self) -> (idle: bool)
        ensures
            idle == self@.idle(),
    {
        match self.phase {
            Phase::Idle => true,
            _ => false,
        }
    }

    fn settle(&mut self, progress: Progress) -> (step: Step)
        ensures
            (final(self)@, step@) == old(self)@.settle(progress@),
    {
        self.state = progress.state;
        match progress.pending {
            Some(pending) => {
                self.phase = pending.phase;
                Step { events: progress.events, request: Some(pending.request) }
            },
            None => {
                self.phase = Phase::Idle;
                Step { events: progress.events, request: None }
            },
        }
    }

    /// Takes a command of the driver.
    ///
    /// A command is taken only while no operation waits for an answer: the
    /// driver keeps later commands until then, in the order in which they
    /// came. A command that comes too early is rejected and changes nothing.
    pub fn handle_command(&mut self, command: SyncCommand) -> (result: Result<Step, Rejected>)
        ensures
            old(self)@.idle() ==> (result matches Ok(step) && (final(self)@, step@) == old(
                self,
            )@.on_command(command@)),
            !old(self)@.idle() ==> result == Err::<Step, Rejected>(Rejected::Busy) && final(self)@
                == old(self)@,
    {
        if !self.is_idle() {
            return Err(Rejected::Busy);
        }
        let progress = match command {
            SyncCommand::UpdateConfig(settings) => {
                let cached_torrent_path = match &self.config.cached_torrent_path {
                    Some(path) => Some(path.clone()),
                    None => None,
                };
                self.config = settings.sync_config(cached_torrent_path);
                Progress::finished(self.state, no_events())
            },
            SyncCommand::VerifyFolder => verify_folder_contents(&self.config, self.state),
            SyncCommand::FixMissingFiles => fix_missing_files(&self.config, self.state),
            SyncCommand::DeleteFiles(files) => delete_files(self.state, files),
            SyncCommand::ApplyUpdate(manifest) => apply_remote_update(
                &self.config,
                self.state,
                manifest,
            ),
            SyncCommand::DownloadAndCompare(url) => direct_download_and_compare(self.state, url),
        };
        Ok(self.settle(progress))
    }

    /// Takes a tick of the timer; `now` is the time in seconds on a clock
    /// that does not run backwards.
    ///
    /// A tick never interrupts an operation: one that comes while the
    /// manager waits for an answer is rejected and changes nothing.
    pub fn handle_tick(&mut self, now: u64) -> (result: Result<Step, Rejected>)
        ensures
            old(self)@.idle() ==> (result matches Ok(step) && (final(self)@, step@) == old(
                self,
            )@.on_tick(now)),
            !old(self)@.idle() ==> result == Err::<Step, Rejected>(Rejected::Busy) && final(self)@
                == old(self)@,
    {
        if !self.is_idle() {
            return Err(Rejected::Busy);
        }
        let progress = match self.state.local {
            LocalTorrentState::NotLoaded => Progress::finished(self.state, no_events()),
            LocalTorrentState::Active { id } => {
                let check_remote = match self.last_update_check {
                    Some(last) => now >= last && now - last >= REMOTE_CHECK_INTERVAL_SECS,
                    None => true,
                };
                if check_remote {
                    self.last_update_check = Some(now);
                }
                Progress::waiting(
                    self.state,
                    no_events(),
                    SyncRequest::Stats { id },
                    Phase::TickStats { id, check_remote },
                )
            },
        };
        Ok(self.settle(progress))
    }

    /// Takes the driver's answer to the request that is out.
    ///
    /// An answer of another kind than the one awaited is rejected and
    /// changes nothing.
    pub fn handle_reply(&mut self, reply: SyncReply) -> (result: Result<Step, Rejected>)
        ensures
            match old(self)@.on_reply(reply@) {
                Some((manager, step)) => result matches Ok(taken) && taken@ == step && final(self)@
                    == manager,
                None => result == Err::<Step, Rejected>(Rejected::Unexpected) && final(self)@
                    == old(self)@,
            },
    {
        let mut phase = Phase::Idle;
        core::mem::swap(&mut self.phase, &mut phase);
        let ghost before = old(self)@;
        let progress = match (phase, reply) {
            (Phase::Starting { id }, SyncReply::Stats(outcome)) => {
                let shown = refresh_managed_torrent_status_event(id, outcome);
                let mut events = no_events();
                send_sync_status_event(&mut events, SyncStatus::Idle);
                Progress::finished(self.state, join_events(shown, events))
            },
            (Phase::VerifyDetails, SyncReply::Details(outcome)) => verify_after_details(
                &self.config,
                self.state,
                outcome,
            ),
            (Phase::VerifyScan { expected }, SyncReply::Scanned(scan)) => verify_after_scan(
                &self.config,
                self.state,
                expected,
                scan,
            ),
            (Phase::FixRead { id }, SyncReply::ManifestRead(cached)) => fix_after_read(
                &self.config,
                self.state,
                id,
                cached,
            ),
            (
                Phase::Forgetting { purpose, id, manifest },
                SyncReply::Forgot { failure },
            ) => replacement_after_forget(&self.config, self.state, purpose, id, manifest, failure),
            (Phase::Adding { purpose }, SyncReply::Added(outcome)) => replacement_after_add(
                self.state,
                purpose,
                outcome,
            ),
            (Phase::FixStats { id }, SyncReply::Stats(outcome)) => Progress::finished(
                self.state,
                refresh_managed_torrent_status_event(id, outcome),
            ),
            (Phase::Deleting, SyncReply::Deleted { failures }) => delete_after(
                self.state,
                failures,
            ),
            (Phase::ApplyStats { id }, SyncReply::Stats(outcome)) => apply_after_stats(
                self.state,
                id,
                outcome,
            ),
            (Phase::ApplyDetails, SyncReply::Details(outcome)) => apply_after_details(
                &self.config,
                self.state,
                outcome,
            ),
            (Phase::ApplyScan { expected }, SyncReply::Scanned(scan)) => apply_after_scan(
                &self.config,
                self.state,
                expected,
                scan,
            ),
            (Phase::Fetching, SyncReply::Fetched(outcome)) => compare_after_fetch(
                &self.config,
                self.state,
                outcome,
            ),
            (Phase::Comparing { remote }, SyncReply::ManifestRead(cached)) => compare_after_read(
                &self.config,
                self.state,
                remote,
                cached,
            ),
            (Phase::Storing { remote }, SyncReply::ManifestStored { failure }) => report_update(
                self.state,
                remote,
            ),
            (Phase::TickStats { id, check_remote }, SyncReply::Stats(outcome)) => {
                let shown = refresh_managed_torrent_status_event(id, outcome);
                if check_remote {
                    direct_download_and_compare(self.state, self.config.torrent_url.clone()).after(
                        shown,
                    )
                } else {
                    Progress::finished(self.state, shown)
                }
            },
            (phase, _) => {
                self.phase = phase;
                return Err(Rejected::Unexpected);
            },
        };
        Ok(self.settle(progress))
    }
}

} // verus!
