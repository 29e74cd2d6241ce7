//! How far an operation has come: the state it leaves, what it reports, and
//! what it waits for.

use vstd::prelude::*;
use crate::messages::{SyncEvent, SyncEventView};
use crate::paths::PathSet;
use crate::requests::{SyncRequest, SyncRequestView};
use crate::types::SyncState;

verus! {

/// Which operation a replacement of the managed torrent belongs to.
#[derive(Debug, Clone, Copy, PartialEq, Eq, Structural)]
pub enum Purpose {
    /// The cached manifest is added again to fetch missing files.
    Fix,
    /// A new manifest is applied.
    Apply,
}

/// What the synchronisation is in the middle of: which answer it waits for,
/// and what it has to remember until the answer comes.
#[derive(Debug, Clone)]
pub enum Phase {
    /// Nothing: the next command or tick can be taken.
    Idle,
    /// Start-up waits for the figures of the torrent that was loaded before.
    Starting { id: usize },
    /// A verification waits for the torrent's details.
    VerifyDetails,
    /// A verification waits for the scan of the folder.
    VerifyScan { expected: PathSet },
    /// A fix waits for the cached manifest.
    FixRead { id: usize },
    /// A replacement waits for the engine to forget the old torrent.
    Forgetting { purpose: Purpose, id: usize, manifest: Vec<u8> },
    /// A replacement waits for the engine to add the manifest.
    Adding { purpose: Purpose },
    /// A fix waits for the figures of the new torrent.
    FixStats { id: usize },
    /// A deletion waits for the driver's report.
    Deleting,
    /// An update waits for the figures of the new torrent.
    ApplyStats { id: usize },
    /// An update waits for the new torrent's details.
    ApplyDetails,
    /// An update waits for the scan of the folder.
    ApplyScan { expected: PathSet },
    /// A comparison waits for the remote manifest.
    Fetching,
    /// A comparison waits for the cached manifest.
    Comparing { remote: Vec<u8> },
    /// A comparison waits for the cache to be written.
    Storing { remote: Vec<u8> },
    /// A tick waits for the figures of the managed torrent; `check_remote`
    /// tells whether the remote manifest is compared afterwards.
    TickStats { id: usize, check_remote: bool },
}

/// The mathematical value of a [`Phase`].
pub enum PhaseView {
    Idle,
    Starting { id: usize },
    VerifyDetails,
    VerifyScan { expected: Set<Seq<char>> },
    FixRead { id: usize },
    Forgetting { purpose: Purpose, id: usize, manifest: Seq<u8> },
    Adding { purpose: Purpose },
    FixStats { id: usize },
    Deleting,
    ApplyStats { id: usize },
    ApplyDetails,
    ApplyScan { expected: Set<Seq<char>> },
    Fetching,
    Comparing { remote: Seq<u8> },
    Storing { remote: Seq<u8> },
    TickStats { id: usize, check_remote: bool },
}

impl View for Phase {
    type V = PhaseView;

    open spec fn view(&self) -> PhaseView {
        match self {
            Phase::Idle => PhaseView::Idle,
            Phase::Starting { id } => PhaseView::Starting { id: *id },
            Phase::VerifyDetails => PhaseView::VerifyDetails,
            Phase::VerifyScan { expected } => PhaseView::VerifyScan { expected: expected@ },
            Phase::FixRead { id } => PhaseView::FixRead { id: *id },
            Phase::Forgetting { purpose, id, manifest } => PhaseView::Forgetting {
                purpose: *purpose,
                id: *id,
                manifest: manifest@,
            },
            Phase::Adding { purpose } => PhaseView::Adding { purpose: *purpose },
            Phase::FixStats { id } => PhaseView::FixStats { id: *id },
            Phase::Deleting => PhaseView::Deleting,
            Phase::ApplyStats { id } => PhaseView::ApplyStats { id: *id },
            Phase::ApplyDetails => PhaseView::ApplyDetails,
            Phase::ApplyScan { expected } => PhaseView::ApplyScan { expected: expected@ },
            Phase::Fetching => PhaseView::Fetching,
            Phase::Comparing { remote } => PhaseView::Comparing { remote: remote@ },
            Phase::Storing { remote } => PhaseView::Storing { remote: remote@ },
            Phase::TickStats { id, check_remote } => PhaseView::TickStats {
                id: *id,
                check_remote: *check_remote,
            },
        }
    }
}

/// A request that is out, and the phase in which its answer is awaited.
#[derive(Debug, Clone)]
pub struct Pending {
    pub request: SyncRequest,
    pub phase: Phase,
}

/// The mathematical value of a [`Pending`].
pub struct PendingView {
    pub request: SyncRequestView,
    pub phase: PhaseView,
}

impl View for Pending {
    type V = PendingView;

    open spec fn view(&self) -> PendingView {
        PendingView { request: self.request@, phase: self.phase@ }
    }
}

impl DeepView for Pending {
    type V = PendingView;

    open spec fn deep_view(&self) -> PendingView {
        self@
    }
}

/// The result of one step of an operation.
#[derive(Debug, Clone)]
pub struct Progress {
    /// The state after the step.
    pub state: SyncState,
    /// What the step reports, in order.
    pub events: Vec<SyncEvent>,
    /// What the operation waits for; `None` where it has ended.
    pub pending: Option<Pending>,
}

/// The mathematical value of a [`Progress`].
pub struct ProgressView {
    pub state: SyncState,
    pub events: Seq<SyncEventView>,
    pub pending: Option<PendingView>,
}

impl View for Progress {
    type V = ProgressView;

    open spec fn view(&self) -> ProgressView {
        ProgressView {
            state: self.state,
            events: self.events.deep_view(),
            pending: self.pending.deep_view(),
        }
    }
}

/// An operation that has ended.
pub open spec fn finished(state: SyncState, events: Seq<SyncEventView>) -> ProgressView {
    ProgressView { state, events, pending: None }
}

/// An operation that waits for the answer to `request`.
pub open spec fn waiting(
    state: SyncState,
    events: Seq<SyncEventView>,
    request: SyncRequestView,
    phase: PhaseView,
) -> ProgressView {
    ProgressView { state, events, pending: Some(PendingView { request, phase }) }
}

impl ProgressView {
    /// The same progress with `events` reported first.
    pub open spec fn after(self, events: Seq<SyncEventView>) -> ProgressView {
        ProgressView { events: events + self.events, ..self }
    }
}

impl Progress {
    /// An operation that has ended.
    pub fn finished(state: SyncState, events: Vec<SyncEvent>) -> (progress: Progress)
        ensures
            progress@ == finished(state, events.deep_view()),
    {
        Progress { state, events, pending: None }
    }

    /// An operation that waits for the answer to `request`.
    pub fn waiting(state: SyncState, events: Vec<SyncEvent>, request: SyncRequest, phase: Phase) -> (progress:
        Progress)
        ensures
            progress@ == waiting(state, events.deep_view(), request@, phase@),
    {
        Progress { state, events, pending: Some(Pending { request, phase }) }
    }

    /// The same progress with `events` reported first.
    pub fn after(self, events: Vec<SyncEvent>) -> (progress: Progress)
        ensures
            progress@ == self@.after(events.deep_view()),
    {
        let joined = crate::messages::join_events(events, self.events);
        Progress { state: self.state, events: joined, pending: self.pending }
    }
}

} // verus!
