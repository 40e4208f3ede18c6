//! Transmission: the decoding of its RPC answers.

use vstd::prelude::*;

use super::traits::{TorrentFileRecord, TorrentRecord, TorrentState};
use crate::error::ClientError;
use crate::text::{chars_of, equals_lit, owned};

verus! {

/// The state of a torrent from Transmission's status code; a non-zero error
/// code wins.
pub open spec fn tr_status(status: u8, error: Option<u8>) -> TorrentState {
    if error.unwrap_or(0) != 0 {
        TorrentState::Error
    } else if status == 0 {
        TorrentState::PausedDl
    } else if status == 1 || status == 2 {
        TorrentState::CheckingDl
    } else if status == 3 {
        TorrentState::QueuedDl
    } else if status == 4 {
        TorrentState::Downloading
    } else if status == 5 {
        TorrentState::QueuedUp
    } else if status == 6 {
        TorrentState::Seeding
    } else {
        TorrentState::Unknown
    }
}

/// Transmission's status codes, as its RPC documents them: 0 stopped,
/// 1 queued to verify, 2 verifying, 3 queued to download, 4 downloading,
/// 5 queued to seed, 6 seeding. Any error code other than 0 makes the
/// torrent an error whatever its status; without one, the codes map in
/// that order to paused, checking, checking, queued, downloading, queued
/// for upload and seeding, and any other code is unknown.
pub proof fn lemma_tr_status_table(status: u8, error: Option<u8>)
    ensures
        error.unwrap_or(0) != 0 ==> tr_status(status, error) == TorrentState::Error,
        tr_status(status, None) == tr_status(status, Some(0u8)),
        error.unwrap_or(0) == 0 && status < 7 ==> tr_status(status, error) == seq![
            TorrentState::PausedDl,
            TorrentState::CheckingDl,
            TorrentState::CheckingDl,
            TorrentState::QueuedDl,
            TorrentState::Downloading,
            TorrentState::QueuedUp,
            TorrentState::Seeding,
        ][status as int],
        error.unwrap_or(0) == 0 && status >= 7 ==> tr_status(status, error)
            == TorrentState::Unknown,
        tr_status(status, error) == TorrentState::Error <==> error.unwrap_or(0) != 0,
{
}

/// The state of a torrent from Transmission's status code.
pub fn map_tr_status(status: u8, error: Option<u8>) -> (r: TorrentState)
    ensures
        r == tr_status(status, error),
{
    let e = match error {
        Some(e) => e,
        None => 0,
    };
    if e != 0 {
        return TorrentState::Error;
    }
    match status {
        0 => TorrentState::PausedDl,
        1 | 2 => TorrentState::CheckingDl,
        3 => TorrentState::QueuedDl,
        4 => TorrentState::Downloading,
        5 => TorrentState::QueuedUp,
        6 => TorrentState::Seeding,
        _ => TorrentState::Unknown,
    }
}

/// A torrent as `torrent-get` lists it, apart from its progress and ratio.
#[derive(Debug, Clone)]
pub struct TrTorrent {
    pub hash_string: String,
    pub name: String,
    pub total_size: u64,
    pub rate_download: u64,
    pub rate_upload: u64,
    pub downloaded_ever: u64,
    pub uploaded_ever: u64,
    pub status: u8,
    pub download_dir: String,
    pub added_date: i64,
    pub done_date: Option<i64>,
    pub error: Option<u8>,
    pub error_string: Option<String>,
    pub is_finished: Option<bool>,
    pub peers_connected: Option<u32>,
    pub labels: Option<Vec<String>>,
    pub eta: Option<i64>,
}

/// The state of a Transmission torrent: an error message makes it an error,
/// otherwise its status code decides.
pub open spec fn tr_state(t: TrTorrent) -> TorrentState {
    match t.error_string {
        Some(e) => if e@.len() > 0 {
            TorrentState::Error
        } else {
            tr_status(t.status, t.error)
        },
        None => tr_status(t.status, t.error),
    }
}

/// The record of a Transmission torrent. A done date of 0 means not done;
/// a negative ETA means none; labels become tags.
pub fn tr_to_torrent_info(t: TrTorrent) -> (r: TorrentRecord)
    ensures
        r.hash == t.hash_string,
        r.name == t.name,
        r.size == t.total_size,
        r.dl_speed == t.rate_download,
        r.up_speed == t.rate_upload,
        r.downloaded == t.downloaded_ever,
        r.uploaded == t.uploaded_ever,
        r.state == tr_state(t),
        r.category@.len() == 0,
        r.tags@ == (match t.labels {
            Some(l) => l@,
            None => seq![],
        }),
        r.save_path == t.download_dir,
        r.added_on == t.added_date,
        r.completion_on == (match t.done_date {
            Some(d) => if d == 0 {
                None
            } else {
                Some(d)
            },
            None => None,
        }),
        r.seeding_time is None,
        r.eta == (match t.eta {
            Some(e) => if e >= 0 {
                Some(e)
            } else {
                None
            },
            None => None,
        }),
        r.seeds is None,
        r.peers == t.peers_connected,
        r.tracker is None,
{
    let ghost t0 = t;
    let completion_on = match t.done_date {
        Some(d) => if d == 0 {
            None
        } else {
            Some(d)
        },
        None => None,
    };
    let tags = match t.labels {
        Some(l) => l,
        None => Vec::new(),
    };
    let has_error = match &t.error_string {
        Some(e) => !e.as_str().is_empty(),
        None => false,
    };
    let state = if has_error {
        TorrentState::Error
    } else {
        map_tr_status(t.status, t.error)
    };
    let is_finished = match t.is_finished {
        Some(b) => b,
        None => false,
    };
    let actual_state = if is_finished && state == TorrentState::Seeding {
        TorrentState::Seeding
    } else {
        state
    };
    let eta = match t.eta {
        Some(e) => if e >= 0 {
            Some(e)
        } else {
            None
        },
        None => None,
    };
    TorrentRecord {
        hash: t.hash_string,
        name: t.name,
        size: t.total_size,
        dl_speed: t.rate_download,
        up_speed: t.rate_upload,
        downloaded: t.downloaded_ever,
        uploaded: t.uploaded_ever,
        state: actual_state,
        category: String::new(),
        tags,
        save_path: t.download_dir,
        added_on: t.added_date,
        completion_on,
        seeding_time: None,
        eta,
        seeds: None,
        peers: t.peers_connected,
        tracker: None,
    }
}

/// What an RPC answer's `result` field means: `success` is success;
/// anything else, or no result at all (read as `error`), is an API error
/// carrying that text.
pub fn tr_check_result(result: Option<&str>) -> (r: Result<(), ClientError>)
    ensures
        ({
            let text = match result {
                Some(s) => s@,
                None => "error"@,
            };
            &&& text == "success"@ ==> r is Ok
            &&& text != "success"@ ==> (r matches Err(ClientError::Api { status, message })
                && status == 0 && message@ == text)
        }),
{
    let text = match result {
        Some(s) => owned(s),
        None => owned("error"),
    };
    let v = chars_of(text.as_str());
    if equals_lit(&v, "success") {
        Ok(())
    } else {
        Err(ClientError::Api { status: 0, message: text })
    }
}

/// The record of file `index` of a torrent: its name (empty when absent),
/// its length (0 when absent) and the priority of its file statistics
/// (0 when absent, truncated to 32 bits).
pub fn tr_file_record(
    index: usize,
    name: Option<String>,
    length: Option<u64>,
    priority: Option<i64>,
) -> (r: TorrentFileRecord)
    ensures
        r.index == index as u32,
        r.name@ == (match name {
            Some(n) => n@,
            None => seq![],
        }),
        r.size == length.unwrap_or(0),
        r.priority == priority.unwrap_or(0) as i32,
{
    let p = match priority {
        Some(p) => p,
        None => 0,
    };
    TorrentFileRecord {
        index: index as u32,
        name: match name {
            Some(n) => n,
            None => String::new(),
        },
        size: match length {
            Some(n) => n,
            None => 0,
        },
        priority: p as i32,
    }
}

/// What the answer says of one file: its name and its length.
#[derive(Debug, Clone)]
pub struct TrFile {
    pub name: Option<String>,
    pub length: Option<u64>,
}

/// The records of a torrent's files: file `i` paired with the priority of
/// the `i`-th file statistics entry, when there is one.
pub fn tr_file_records(files: Vec<TrFile>, priorities: &Vec<Option<i64>>) -> (r: Vec<
    TorrentFileRecord,
>)
    ensures
        r@.len() == files@.len(),
        forall|i: int|
            0 <= i < files@.len() ==> {
                let p = if i < priorities@.len() {
                    priorities@[i]
                } else {
                    None
                };
                &&& (#[trigger] r@[i]).index == i as u32
                &&& r@[i].name@ == (match files@[i].name {
                    Some(n) => n@,
                    None => seq![],
                })
                &&& r@[i].size == files@[i].length.unwrap_or(0)
                &&& r@[i].priority == p.unwrap_or(0) as i32
            },
{
    let mut r: Vec<TorrentFileRecord> = Vec::new();
    let mut i: usize = 0;
    while i < files.len()
        invariant
            i <= files@.len(),
            r@.len() == i,
            forall|k: int|
                0 <= k < i ==> {
                    let p = if k < priorities@.len() {
                        priorities@[k]
                    } else {
                        None
                    };
                    &&& (#[trigger] r@[k]).index == k as u32
                    &&& r@[k].name@ == (match files@[k].name {
                        Some(n) => n@,
                        None => seq![],
                    })
                    &&& r@[k].size == files@[k].length.unwrap_or(0)
                    &&& r@[k].priority == p.unwrap_or(0) as i32
                },
        decreases files.len() - i,
    {
        let f = &files[i];
        let name = match &f.name {
            Some(n) => Some(n.clone()),
            None => None,
        };
        let priority = if i < priorities.len() {
            priorities[i]
        } else {
            None
        };
        r.push(tr_file_record(i, name, f.length, priority));
        i = i + 1;
    }
    r
}

/// What to do with an RPC answer's HTTP status: a 409 hands out a new
/// session id, with which the request is made again; a 409 without one is an
/// error.
#[derive(Debug, Clone)]
pub enum SessionStep {
    /// Read the answer.
    Proceed,
    /// Keep this session id and send the request again with it.
    Retry(String),
    /// Give up with this error.
    Fail(ClientError),
}

/// The step after an answer with HTTP status `status` and session id header
/// `session_id`.
pub fn tr_session_step(status: u16, session_id: Option<String>) -> (r: SessionStep)
    ensures
        status != 409 ==> r is Proceed,
        status == 409 ==> match session_id {
            Some(sid) => r == SessionStep::Retry(sid),
            None => r matches SessionStep::Fail(ClientError::Other(m)) && m@
                == "Got 409 but no session ID header"@,
        },
{
    if status != 409 {
        return SessionStep::Proceed;
    }
    match session_id {
        Some(sid) => SessionStep::Retry(sid),
        None => SessionStep::Fail(ClientError::Other(owned("Got 409 but no session ID header"))),
    }
}

} // verus!
