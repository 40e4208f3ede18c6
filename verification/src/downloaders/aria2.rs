//! aria2: the decoding of its JSON-RPC answers and the file selection that
//! it is sent.

use vstd::prelude::*;

use super::traits::{TorrentFileRecord, TorrentRecord, TorrentState};
use crate::text::{
    base_name, base_name_of, chars_of, decimal, equals_lit, joined, parse_u32, parse_u64_or,
    owned, parse_unsigned, push_char, push_decimal, push_str,
};

verus! {

/// The state of a download from aria2's status name.
pub open spec fn aria2_state(s: Seq<char>) -> TorrentState {
    if s == "active"@ {
        TorrentState::Downloading
    } else if s == "waiting"@ {
        TorrentState::QueuedDl
    } else if s == "paused"@ {
        TorrentState::PausedDl
    } else if s == "error"@ {
        TorrentState::Error
    } else if s == "complete"@ {
        TorrentState::Seeding
    } else {
        TorrentState::Unknown
    }
}

/// The state of a download from aria2's status name.
pub fn map_aria2_state(status: &str) -> (r: TorrentState)
    ensures
        r == aria2_state(status@),
{
    let s = chars_of(status);
    if equals_lit(&s, "active") {
        TorrentState::Downloading
    } else if equals_lit(&s, "waiting") {
        TorrentState::QueuedDl
    } else if equals_lit(&s, "paused") {
        TorrentState::PausedDl
    } else if equals_lit(&s, "error") {
        TorrentState::Error
    } else if equals_lit(&s, "complete") {
        TorrentState::Seeding
    } else {
        TorrentState::Unknown
    }
}

/// The `info` part of a BitTorrent download.
#[derive(Debug, Clone)]
pub struct Aria2BtInfo {
    pub name: Option<String>,
}

/// The BitTorrent part of a download.
#[derive(Debug, Clone)]
pub struct Aria2BitTorrent {
    pub info_hash: Option<String>,
    pub info: Option<Aria2BtInfo>,
}

/// One file of a download; aria2 reports numbers as decimal text.
#[derive(Debug, Clone)]
pub struct Aria2File {
    pub index: String,
    pub path: String,
    pub length: String,
    pub completed_length: String,
    pub selected: Option<String>,
}

/// A download as `tellActive`, `tellWaiting` and `tellStopped` list it.
#[derive(Debug, Clone)]
pub struct Aria2Task {
    pub gid: String,
    pub status: String,
    pub total_length: String,
    pub completed_length: String,
    pub download_speed: String,
    pub upload_speed: String,
    pub upload_length: Option<String>,
    pub bittorrent: Option<Aria2BitTorrent>,
    pub files: Option<Vec<Aria2File>>,
    pub dir: Option<String>,
    pub error_message: Option<String>,
}

/// A decimal field, 0 when it is not a `u64`.
pub open spec fn u64_text(s: Seq<char>) -> int {
    match parse_unsigned(s, u64::MAX as int) {
        Some(v) => v,
        None => 0,
    }
}

/// The name of a download: the torrent's name, else the final component of
/// its first file's path, else its GID.
pub open spec fn aria2_name(task: Aria2Task) -> Seq<char> {
    match task.bittorrent {
        Some(bt) => match bt.info {
            Some(info) => match info.name {
                Some(n) => n@,
                None => aria2_file_name(task),
            },
            None => aria2_file_name(task),
        },
        None => aria2_file_name(task),
    }
}

/// The name of a download without a torrent name.
pub open spec fn aria2_file_name(task: Aria2Task) -> Seq<char> {
    match task.files {
        Some(f) => if f@.len() > 0 {
            base_name(f@[0].path@)
        } else {
            task.gid@
        },
        None => task.gid@,
    }
}

fn torrent_name(task: &Aria2Task) -> (r: Option<String>)
    ensures
        match task.bittorrent {
            Some(bt) => match bt.info {
                Some(info) => r == info.name,
                None => r is None,
            },
            None => r is None,
        },
{
    match &task.bittorrent {
        Some(bt) => match &bt.info {
            Some(info) => match &info.name {
                Some(n) => Some(n.clone()),
                None => None,
            },
            None => None,
        },
        None => None,
    }
}

fn first_file_name(task: &Aria2Task) -> (r: String)
    ensures
        r@ == aria2_file_name(*task),
{
    match &task.files {
        Some(f) => if f.len() > 0 {
            base_name_of(f[0].path.as_str())
        } else {
            task.gid.clone()
        },
        None => task.gid.clone(),
    }
}

/// The record of an aria2 download: sizes, speeds and the uploaded count
/// are read from decimal text (0 when unreadable; no uploaded count is 0),
/// and what has been downloaded is the completed length.
pub fn task_to_torrent_info(task: &Aria2Task) -> (r: TorrentRecord)
    ensures
        r.hash == task.gid,
        r.name@ == aria2_name(*task),
        r.size == u64_text(task.total_length@),
        r.dl_speed == u64_text(task.download_speed@),
        r.up_speed == u64_text(task.upload_speed@),
        r.downloaded == u64_text(task.completed_length@),
        r.uploaded == (match task.upload_length {
            Some(u) => u64_text(u@),
            None => 0,
        }),
        r.state == aria2_state(task.status@),
        r.category@.len() == 0,
        r.tags@.len() == 0,
        r.save_path@ == (match task.dir {
            Some(d) => d@,
            None => seq![],
        }),
        r.added_on == 0,
        r.completion_on is None,
        r.seeding_time is None,
        r.eta is None,
        r.seeds is None,
        r.peers is None,
        r.tracker is None,
{
    let name = match torrent_name(task) {
        Some(n) => n,
        None => first_file_name(task),
    };
    let size = parse_u64_or(task.total_length.as_str(), 0);
    let completed = parse_u64_or(task.completed_length.as_str(), 0);
    let dl_speed = parse_u64_or(task.download_speed.as_str(), 0);
    let up_speed = parse_u64_or(task.upload_speed.as_str(), 0);
    let uploaded = match &task.upload_length {
        Some(u) => parse_u64_or(u.as_str(), 0),
        None => 0,
    };
    let state = map_aria2_state(task.status.as_str());
    let save_path = match &task.dir {
        Some(d) => d.clone(),
        None => String::new(),
    };
    TorrentRecord {
        hash: task.gid.clone(),
        name,
        size,
        dl_speed,
        up_speed,
        downloaded: completed,
        uploaded,
        state,
        category: String::new(),
        tags: Vec::new(),
        save_path,
        added_on: 0,
        completion_on: None,
        seeding_time: None,
        eta: None,
        seeds: None,
        peers: None,
        tracker: None,
    }
}

/// One file of a download: the record, with its completed length (progress
/// is that over the size, 0 for an empty file).
pub struct Aria2FileRow {
    pub file: TorrentFileRecord,
    pub completed: u64,
}

/// The record of an aria2 file: aria2 numbers files from 1, the record from
/// 0 (an unreadable index counts as 1); a file is at priority 1 when it is
/// selected, else 0.
pub fn aria2_file_record(f: &Aria2File) -> (r: Aria2FileRow)
    ensures
        r.file.index == (match parse_unsigned(f.index@, u32::MAX as int) {
            Some(v) => if v >= 1 {
                v - 1
            } else {
                0
            },
            None => 0,
        }),
        r.file.name@ == base_name(f.path@),
        r.file.size == u64_text(f.length@),
        r.completed == u64_text(f.completed_length@),
        r.file.priority == (match f.selected {
            Some(s) => if s@ == "true"@ {
                1int
            } else {
                0
            },
            None => 0,
        }),
{
    let raw = match parse_u32(f.index.as_str()) {
        Some(v) => v,
        None => 1,
    };
    let index = if raw >= 1 {
        raw - 1
    } else {
        0
    };
    let priority: i32 = match &f.selected {
        Some(s) => if equals_lit(&chars_of(s.as_str()), "true") {
            1
        } else {
            0
        },
        None => 0,
    };
    Aria2FileRow {
        file: TorrentFileRecord {
            index,
            name: base_name_of(f.path.as_str()),
            size: parse_u64_or(f.length.as_str(), 0),
            priority,
        },
        completed: parse_u64_or(f.completed_length.as_str(), 0),
    }
}

/// The one-based, comma-separated file numbers of the `select-file` option.
pub open spec fn select_file_texts(ids: Seq<u32>) -> Seq<Seq<char>> {
    ids.map_values(|id: u32| decimal((id + 1) as nat))
}

/// The `select-file` option that selects the files `file_ids`.
pub fn aria2_select_files(file_ids: &[u32]) -> (r: String)
    requires
        forall|i: int| 0 <= i < file_ids@.len() ==> file_ids@[i] < u32::MAX,
    ensures
        r@ == joined(select_file_texts(file_ids@), ","@),
{
    let mut r = String::new();
    let mut i: usize = 0;
    while i < file_ids.len()
        invariant
            i <= file_ids@.len(),
            forall|k: int| 0 <= k < file_ids@.len() ==> file_ids@[k] < u32::MAX,
            r@ == joined(select_file_texts(file_ids@).take(i as int), ","@),
        decreases file_ids.len() - i,
    {
        proof {
            reveal_strlit(",");
            let t = select_file_texts(file_ids@).take(i + 1);
            assert(t.drop_last() =~= select_file_texts(file_ids@).take(i as int));
        }
        if i > 0 {
            push_char(&mut r, ',');
        }
        push_decimal(&mut r, (file_ids[i] + 1) as u64);
        i = i + 1;
        proof {
            reveal_strlit(",");
            let t = select_file_texts(file_ids@).take(i as int);
            if i == 1 {
                assert(r@ =~= t[0]);
            } else {
                assert(r@ =~= joined(t.drop_last(), ","@) + ","@ + t.last());
            }
        }
    }
    assert(select_file_texts(file_ids@).take(file_ids@.len() as int) =~= select_file_texts(
        file_ids@,
    ));
    r
}

/// The full name of an aria2 RPC method.
pub fn aria2_method(method: &str) -> (r: String)
    ensures
        r@ == "aria2."@ + method@,
{
    let mut r = owned("aria2.");
    push_str(&mut r, method);
    r
}

/// The first parameter of every call when a secret is configured.
pub fn aria2_token(secret: &str) -> (r: String)
    ensures
        r@ == "token:"@ + secret@,
{
    let mut r = owned("token:");
    push_str(&mut r, secret);
    r
}

} // verus!
