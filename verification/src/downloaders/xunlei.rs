//! Xunlei (Thunder) NAS: the decoding of its task list.

use vstd::prelude::*;

use super::traits::{TorrentRecord, TorrentState};
use crate::error::ClientError;
use crate::text::{chars_of, equals_lit, owned, push_str};

verus! {

/// The state of a task from Xunlei's state name.
pub open spec fn xunlei_state(s: Seq<char>) -> TorrentState {
    if s == "running"@ {
        TorrentState::Downloading
    } else if s == "paused"@ {
        TorrentState::PausedDl
    } else if s == "completed"@ {
        TorrentState::Seeding
    } else if s == "error"@ {
        TorrentState::Error
    } else if s == "pending"@ {
        TorrentState::QueuedDl
    } else {
        TorrentState::Unknown
    }
}

/// The state of a task from Xunlei's state name.
pub fn map_xunlei_state(state: &str) -> (r: TorrentState)
    ensures
        r == xunlei_state(state@),
{
    let s = chars_of(state);
    if equals_lit(&s, "running") {
        TorrentState::Downloading
    } else if equals_lit(&s, "paused") {
        TorrentState::PausedDl
    } else if equals_lit(&s, "completed") {
        TorrentState::Seeding
    } else if equals_lit(&s, "error") {
        TorrentState::Error
    } else if equals_lit(&s, "pending") {
        TorrentState::QueuedDl
    } else {
        TorrentState::Unknown
    }
}

/// A task as `list_running_tasks` lists it, apart from its progress.
#[derive(Debug, Clone)]
pub struct XunleiTask {
    pub id: String,
    pub name: String,
    pub state: String,
    pub file_size: Option<u64>,
    pub speed: Option<u64>,
    pub real_path: Option<String>,
}

/// The record of a Xunlei task; the byte count downloaded follows from the
/// progress, a fraction, and is left to the caller.
pub fn xunlei_task_to_torrent_info(task: XunleiTask) -> (r: TorrentRecord)
    ensures
        r.hash == task.id,
        r.name == task.name,
        r.size == task.file_size.unwrap_or(0),
        r.dl_speed == task.speed.unwrap_or(0),
        r.up_speed == 0,
        r.downloaded == 0,
        r.uploaded == 0,
        r.state == xunlei_state(task.state@),
        r.category@.len() == 0,
        r.tags@.len() == 0,
        r.save_path@ == (match task.real_path {
            Some(p) => p@,
            None => seq![],
        }),
        r.added_on == 0,
        r.completion_on is None,
        r.seeding_time is None,
        r.eta is None,
        r.seeds is None,
        r.peers is None,
        r.tracker is None,
{
    let state = map_xunlei_state(task.state.as_str());
    TorrentRecord {
        hash: task.id,
        name: task.name,
        size: match task.file_size {
            Some(n) => n,
            None => 0,
        },
        dl_speed: match task.speed {
            Some(n) => n,
            None => 0,
        },
        up_speed: 0,
        downloaded: 0,
        uploaded: 0,
        state,
        category: String::new(),
        tags: Vec::new(),
        save_path: match task.real_path {
            Some(p) => p,
            None => String::new(),
        },
        added_on: 0,
        completion_on: None,
        seeding_time: None,
        eta: None,
        seeds: None,
        peers: None,
        tracker: None,
    }
}

/// The token of a login answer, or the error when it carries none.
pub fn xunlei_token(token: Option<&str>) -> (r: Result<String, ClientError>)
    ensures
        match token {
            Some(t) => r matches Ok(s) && s@ == t@,
            None => r matches Err(ClientError::Auth(m)) && m@
                == "No token in Xunlei login response"@,
        },
{
    match token {
        Some(t) => Ok(owned(t)),
        None => Err(ClientError::Auth(owned("No token in Xunlei login response"))),
    }
}

/// The `Authorization` header value that carries a token.
pub fn bearer(token: &str) -> (r: String)
    ensures
        r@ == "Bearer "@ + token@,
{
    let mut r = owned("Bearer ");
    push_str(&mut r, token);
    r
}

} // verus!
