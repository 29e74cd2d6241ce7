//! The overall status that the synchronisation reports to its driver.

use vstd::prelude::*;

verus! {

/// What the synchronisation is doing at the moment.
#[derive(Debug, Clone, PartialEq)]
pub enum SyncStatus {
    Idle,
    CheckingRemote,
    UpdatingTorrent,
    CheckingLocal,
    LocalActive,
    RemoteChanged,
    Error(String),
}

/// The mathematical value of a [`SyncStatus`].
pub enum SyncStatusView {
    Idle,
    CheckingRemote,
    UpdatingTorrent,
    CheckingLocal,
    LocalActive,
    RemoteChanged,
    Error(Seq<char>),
}

impl View for SyncStatus {
    type V = SyncStatusView;

    open spec fn view(&self) -> SyncStatusView {
        match self {
            SyncStatus::Idle => SyncStatusView::Idle,
            SyncStatus::CheckingRemote => SyncStatusView::CheckingRemote,
            SyncStatus::UpdatingTorrent => SyncStatusView::UpdatingTorrent,
            SyncStatus::CheckingLocal => SyncStatusView::CheckingLocal,
            SyncStatus::LocalActive => SyncStatusView::LocalActive,
            SyncStatus::RemoteChanged => SyncStatusView::RemoteChanged,
            SyncStatus::Error(message) => SyncStatusView::Error(message@),
        }
    }
}

impl DeepView for SyncStatus {
    type V = SyncStatusView;

    open spec fn deep_view(&self) -> SyncStatusView {
        self@
    }
}

impl SyncStatusView {
    /// The line shown to the user for this status.
    pub open spec fn display_text(self) -> Seq<char> {
        match self {
            SyncStatusView::Idle => "Sync: Idle"@,
            SyncStatusView::CheckingRemote => "Sync: Checking Remote"@,
            SyncStatusView::UpdatingTorrent => "Sync: Updating Torrent"@,
            SyncStatusView::CheckingLocal => "Sync: Verifying Local Files"@,
            SyncStatusView::LocalActive => "Local: Active & Seeding"@,
            SyncStatusView::RemoteChanged => "Remote: Update Available"@,
            SyncStatusView::Error(message) => "Sync Error: "@ + message,
        }
    }
}

impl Default for SyncStatus {
    fn default() -> (status: SyncStatus)
        ensures
            status@ == SyncStatusView::Idle,
    {
        SyncStatus::Idle
    }
}

impl SyncStatus {
    /// The line shown to the user for this status.
    pub fn display_text(&self) -> (text: String)
        ensures
            text@ == self@.display_text(),
    {
        match self {
            SyncStatus::Idle => String::from_str("Sync: Idle"),
            SyncStatus::CheckingRemote => String::from_str("Sync: Checking Remote"),
            SyncStatus::UpdatingTorrent => String::from_str("Sync: Updating Torrent"),
            SyncStatus::CheckingLocal => String::from_str("Sync: Verifying Local Files"),
            SyncStatus::LocalActive => String::from_str("Local: Active & Seeding"),
            SyncStatus::RemoteChanged => String::from_str("Remote: Update Available"),
            SyncStatus::Error(message) => String::from_str("Sync Error: ").concat(message.as_str()),
        }
    }

    /// A copy of this status.
    pub fn duplicate(&self) -> (copy: SyncStatus)
        ensures
            copy@ == self@,
    {
        match self {
            SyncStatus::Idle => SyncStatus::Idle,
            SyncStatus::CheckingRemote => SyncStatus::CheckingRemote,
            SyncStatus::UpdatingTorrent => SyncStatus::UpdatingTorrent,
            SyncStatus::CheckingLocal => SyncStatus::CheckingLocal,
            SyncStatus::LocalActive => SyncStatus::LocalActive,
            SyncStatus::RemoteChanged => SyncStatus::RemoteChanged,
            SyncStatus::Error(message) => SyncStatus::Error(message.clone()),
        }
    }

    /// Whether this status reports an error.
    pub fn is_error(&self) -> (answer: bool)
        ensures
            answer == (self@ is Error),
    {
        match self {
            SyncStatus::Error(_) => true,
            _ => false,
        }
    }
}

} // verus!
