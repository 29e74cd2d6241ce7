//! Keeps a local folder in step with one torrent-distributed mod pack.
//!
//! The crate holds the decisions of the synchronisation: what the folder
//! should contain, which files are extra or missing, when the remote
//! manifest has changed, and which engine, network or file operation comes
//! next. The operations themselves are carried out by the caller, who hands
//! each outcome back as a plain value.
//!
//! The centre is [`manager::SyncManager`], a state machine that takes
//! commands, timer ticks and the caller's answers. The operations that it
//! runs are in [`local`] and [`remote`]; [`torrent`] replaces the managed
//! torrent, [`cleaner`] compares the folder with the torrent, [`hashing`]
//! tells whether a manifest has changed, and [`laws`] states what holds of
//! the manager in every state. The remaining modules hold the values that
//! go in and out, the settings, and what the user interface decides.

pub mod actions;
pub mod cleaner;
pub mod config;
pub mod engine;
pub mod file_tree;
pub mod hashing;
pub mod laws;
pub mod local;
pub mod manager;
pub mod messages;
pub mod paths;
pub mod progress;
pub mod remote;
pub mod requests;
pub mod settings;
pub mod status;
pub mod text;
pub mod torrent;
pub mod torrent_progress;
pub mod transport;
pub mod types;
pub mod ui_state;
