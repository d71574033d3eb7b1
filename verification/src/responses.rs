//! The bodies that the API answers with and the updates it broadcasts.
use vstd::prelude::*;

use crate::ids::{spec_uuid_text, uuid_text};

verus! {

/// Sizes and file names of a server's directories.
#[derive(Debug)]
pub struct ResultSize {
    pub addons_size: u64,
    pub logs_size: u64,
    pub profile_size: u64,
    pub mods: Vec<String>,
    pub logs: Vec<String>,
}

impl Default for ResultSize {
    /// Everything zero and empty: the answer for a server without a directory.
    fn default() -> (r: ResultSize)
        ensures
            r.addons_size == 0,
            r.logs_size == 0,
            r.profile_size == 0,
            r.mods@.len() == 0,
            r.logs@.len() == 0,
    {
        ResultSize { addons_size: 0, logs_size: 0, profile_size: 0, mods: Vec::new(), logs: Vec::new() }
    }
}

/// The address of the machine the servers run on.
pub struct IPv4Response {
    pub ipv4: String,
}

/// The version label of a game server image.
pub struct ImageVersionResponse {
    pub version: String,
}

/// Whether an operation succeeded.
pub struct SuccessResponse {
    pub success: bool,
}

/// The text of a file.
pub struct FileContentResponse {
    pub file_content: String,
}

/// The files of a server profile.
#[derive(Debug)]
pub struct ProfileFileListResponse {
    pub files: Vec<String>,
}

/// The body of every error answer.
#[derive(Debug)]
pub struct ErrorResponse {
    pub message: String,
}

/// The state of the game server image management.
#[derive(Debug, Clone, Copy, PartialEq, Eq, Structural)]
pub enum ArsStatus {
    Unknown,
    Available,
    Recreating,
    RecreatingFailure,
    Unavailable,
}

/// The kinds of audited actions.
#[derive(Debug, Clone, Copy, PartialEq, Eq, Structural)]
pub enum LogAction {
    ServerAdded,
    ServerDeleted,
    ServerStarted,
    ServerUpdated,
    ServerStopped,
    ServerLogDeleted,
    ImagePullStarted,
}

/// An audited action; `timestamp_millis` counts milliseconds since the Unix epoch.
#[derive(Debug)]
pub struct LogRecord {
    pub id: u128,
    pub action: LogAction,
    pub target: Option<u128>,
    pub timestamp_millis: i64,
}

/// One progress report of an image pull, as it is stored and broadcast.
#[derive(Debug)]
pub struct PullLog {
    pub id: String,
    pub pull_id: u128,
    pub error_detail_code: i64,
    pub error_detail_message: String,
    pub status: String,
    pub progress_detail_current: i64,
    pub progress_detail_total: i64,
}

/// The messages broadcast to every connected websocket client.
#[derive(Debug)]
pub enum ServerStatusUpdates {
    IsRunningUpdate { uuid: String, is_running: bool },
    ArsStatusUpdate { ars_status: ArsStatus },
    PlayerCountUpdate { uuid: String, player_count: u32 },
    LogUpdate { log: LogRecord },
    CreateImageProgress { info: PullLog },
    CreateImageFinished { pull_id: String },
    Error { error: String },
    Message { message: String },
}

/// A known player: its name and the text of its identity.
#[derive(Debug)]
pub struct PlayerIdentityId {
    pub name: String,
    pub identity_id: String,
}

impl PlayerIdentityId {
    /// The answer for a stored player.
    pub fn from_player(uuid: u128, name: String) -> (r: PlayerIdentityId)
        ensures
            r.name == name,
            r.identity_id@ == spec_uuid_text(uuid),
    {
        PlayerIdentityId { name, identity_id: uuid_text(uuid) }
    }
}

} // verus!
