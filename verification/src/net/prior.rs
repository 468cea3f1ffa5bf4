//! Records the Prior gate returns for rooms and repositories.
use vstd::prelude::*;

verus! {

/// An actor present in a room and its configuration name.
#[derive(Debug, Clone)]
pub struct RoomActor {
    pub from: String,
    pub config: String,
}

/// One stored message of a room's history.
#[derive(Debug, Clone)]
pub struct RoomHistoryEntry {
    pub id: u64,
    pub ts: i64,
    pub from: String,
    pub content: String,
    pub kind: String,
}

/// One reply to a message sent to a room: its topic, who sent it, and the text.
#[derive(Debug, Clone)]
pub struct RoomMessageEntry {
    pub topic: String,
    pub actor: Option<String>,
    pub content: String,
}

/// A repository the Prior gate tracks.
#[derive(Debug, Clone)]
pub struct RepoEntry {
    pub id: i64,
    pub ts: i64,
    pub owner: String,
    pub name: String,
    pub room: String,
    pub clone_url: String,
    pub bare_path: String,
    pub default_base_branch: Option<String>,
    pub last_sync_ts: Option<i64>,
}

/// Where an imported repository landed.
#[derive(Debug, Clone)]
pub struct RepoImportResult {
    pub room: String,
    pub bare_path: String,
}

} // verus!
