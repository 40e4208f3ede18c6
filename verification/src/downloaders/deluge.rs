//! Deluge: the decoding of its Web UI JSON-RPC answers.

use vstd::prelude::*;

use super::traits::{TorrentFileRecord, TorrentRecord, TorrentState};
use crate::error::ClientError;
use crate::text::{chars_of, equals_lit, owned};

verus! {

/// The connection settings of a Deluge client.
#[derive(Debug, Clone)]
pub struct DelugeConfig {
    pub url: String,
    pub password: String,
}

/// The state of a torrent from Deluge's state name.
pub open spec fn deluge_state(s: Seq<char>) -> TorrentState {
    if s == "Downloading"@ {
        TorrentState::Downloading
    } else if s == "Seeding"@ {
        TorrentState::Seeding
    } else if s == "Paused"@ {
        TorrentState::PausedDl
    } else if s == "Checking"@ || s == "Allocating"@ {
        TorrentState::CheckingDl
    } else if s == "Error"@ {
        TorrentState::Error
    } else if s == "Queued"@ {
        TorrentState::QueuedDl
    } else {
        TorrentState::Unknown
    }
}

/// The state of a torrent from Deluge's state name.
pub fn map_deluge_state(state: &str) -> (r: TorrentState)
    ensures
        r == deluge_state(state@),
{
    let s = chars_of(state);
    if equals_lit(&s, "Downloading") {
        TorrentState::Downloading
    } else if equals_lit(&s, "Seeding") {
        TorrentState::Seeding
    } else if equals_lit(&s, "Paused") {
        TorrentState::PausedDl
    } else if equals_lit(&s, "Checking") || equals_lit(&s, "Allocating") {
        TorrentState::CheckingDl
    } else if equals_lit(&s, "Error") {
        TorrentState::Error
    } else if equals_lit(&s, "Queued") {
        TorrentState::QueuedDl
    } else {
        TorrentState::Unknown
    }
}

/// The status fields of one torrent as `core.get_torrents_status` reports
/// them, each absent when missing or of another type. Times are whole
/// seconds.
#[derive(Debug, Clone)]
pub struct DelugeEntry {
    pub name: Option<String>,
    pub total_size: Option<u64>,
    pub download_payload_rate: Option<u64>,
    pub upload_payload_rate: Option<u64>,
    pub all_time_download: Option<u64>,
    pub total_uploaded: Option<u64>,
    pub state: Option<String>,
    pub label: Option<String>,
    pub save_path: Option<String>,
    pub time_added: Option<i64>,
    pub completed_time: Option<i64>,
    pub seeding_time: Option<u64>,
    pub eta: Option<i64>,
    pub num_seeds: Option<u64>,
    pub num_peers: Option<u64>,
    pub tracker_host: Option<String>,
}

/// The text of an optional field, empty when absent.
pub open spec fn text_or_empty(o: Option<String>) -> Seq<char> {
    match o {
        Some(s) => s@,
        None => seq![],
    }
}

fn string_or_empty(o: Option<String>) -> (r: String)
    ensures
        r@ == text_or_empty(o),
{
    match o {
        Some(s) => s,
        None => String::new(),
    }
}

/// A count truncated to 32 bits.
pub open spec fn count32(o: Option<u64>) -> Option<u32> {
    match o {
        Some(n) => Some(n as u32),
        None => None,
    }
}

/// The record of a Deluge torrent: absent numbers count as 0, absent texts
/// as empty; a completion time or an ETA that is not positive means none,
/// and so does an empty tracker host.
pub fn deluge_entry_to_torrent_info(hash: &str, v: DelugeEntry) -> (r: TorrentRecord)
    ensures
        r.hash@ == hash@,
        r.name@ == text_or_empty(v.name),
        r.size == v.total_size.unwrap_or(0),
        r.dl_speed == v.download_payload_rate.unwrap_or(0),
        r.up_speed == v.upload_payload_rate.unwrap_or(0),
        r.downloaded == v.all_time_download.unwrap_or(0),
        r.uploaded == v.total_uploaded.unwrap_or(0),
        r.state == deluge_state(text_or_empty(v.state)),
        r.category@ == text_or_empty(v.label),
        r.tags@.len() == 0,
        r.save_path@ == text_or_empty(v.save_path),
        r.added_on == v.time_added.unwrap_or(0),
        r.completion_on == (match v.completed_time {
            Some(t) => if t > 0 {
                Some(t)
            } else {
                None
            },
            None => None,
        }),
        r.seeding_time == v.seeding_time,
        r.eta == (match v.eta {
            Some(e) => if e > 0 {
                Some(e)
            } else {
                None
            },
            None => None,
        }),
        r.seeds == count32(v.num_seeds),
        r.peers == count32(v.num_peers),
        r.tracker == (match v.tracker_host {
            Some(t) => if t@.len() > 0 {
                Some(t)
            } else {
                None
            },
            None => None,
        }),
{
    let state_text = string_or_empty(v.state);
    let state = map_deluge_state(state_text.as_str());
    let completion_on = match v.completed_time {
        Some(t) => if t > 0 {
            Some(t)
        } else {
            None
        },
        None => None,
    };
    let eta = match v.eta {
        Some(e) => if e > 0 {
            Some(e)
        } else {
            None
        },
        None => None,
    };
    let seeds = match v.num_seeds {
        Some(n) => Some(n as u32),
        None => None,
    };
    let peers = match v.num_peers {
        Some(n) => Some(n as u32),
        None => None,
    };
    let tracker = match v.tracker_host {
        Some(t) => if t.as_str().is_empty() {
            None
        } else {
            Some(t)
        },
        None => None,
    };
    TorrentRecord {
        hash: owned(hash),
        name: string_or_empty(v.name),
        size: match v.total_size {
            Some(n) => n,
            None => 0,
        },
        dl_speed: match v.download_payload_rate {
            Some(n) => n,
            None => 0,
        },
        up_speed: match v.upload_payload_rate {
            Some(n) => n,
            None => 0,
        },
        downloaded: match v.all_time_download {
            Some(n) => n,
            None => 0,
        },
        uploaded: match v.total_uploaded {
            Some(n) => n,
            None => 0,
        },
        state,
        category: string_or_empty(v.label),
        tags: Vec::new(),
        save_path: string_or_empty(v.save_path),
        added_on: match v.time_added {
            Some(t) => t,
            None => 0,
        },
        completion_on,
        seeding_time: v.seeding_time,
        eta,
        seeds,
        peers,
        tracker,
    }
}

/// The fields of one file as `core.get_torrent_status` lists it.
#[derive(Debug, Clone)]
pub struct DelugeFile {
    pub index: Option<u64>,
    pub path: Option<String>,
    pub size: Option<u64>,
    pub priority: Option<i64>,
}

/// The record of a Deluge file: index and size 0 and path empty when
/// absent, priority 1 when absent; index and priority are truncated to
/// 32 bits.
pub fn deluge_file_record(f: DelugeFile) -> (r: TorrentFileRecord)
    ensures
        r.index == f.index.unwrap_or(0) as u32,
        r.name@ == text_or_empty(f.path),
        r.size == f.size.unwrap_or(0),
        r.priority == f.priority.unwrap_or(1) as i32,
{
    let index = match f.index {
        Some(n) => n,
        None => 0,
    };
    let priority = match f.priority {
        Some(p) => p,
        None => 1,
    };
    TorrentFileRecord {
        index: index as u32,
        name: string_or_empty(f.path),
        size: match f.size {
            Some(n) => n,
            None => 0,
        },
        priority: priority as i32,
    }
}

/// The priorities sent to `core.set_torrent_file_priorities`: for each of
/// `num_files` files, `priority` when its index is among `file_ids` (ids past
/// the last file are ignored), else the normal priority 1.
pub fn file_priorities(num_files: usize, file_ids: &[u32], priority: u8) -> (r: Vec<u8>)
    ensures
        r@.len() == num_files,
        forall|k: int|
            0 <= k < num_files ==> #[trigger] r@[k] == if (exists|j: int|
                0 <= j < file_ids@.len() && file_ids@[j] as int == k) {
                priority
            } else {
                1u8
            },
{
    let mut priorities: Vec<u8> = Vec::new();
    let mut n: usize = 0;
    while n < num_files
        invariant
            n <= num_files,
            priorities@.len() == n,
            forall|k: int| 0 <= k < n ==> priorities@[k] == 1u8,
        decreases num_files - n,
    {
        priorities.push(1u8);
        n = n + 1;
    }
    let mut i: usize = 0;
    while i < file_ids.len()
        invariant
            i <= file_ids@.len(),
            priorities@.len() == num_files,
            forall|k: int|
                0 <= k < num_files ==> #[trigger] priorities@[k] == if (exists|j: int|
                    0 <= j < i && file_ids@[j] as int == k) {
                    priority
                } else {
                    1u8
                },
        decreases file_ids.len() - i,
    {
        let id = file_ids[i];
        if (id as usize) < num_files {
            priorities.set(id as usize, priority);
        }
        i = i + 1;
        proof {
            assert forall|k: int| 0 <= k < num_files implies #[trigger] priorities@[k] == if (exists|
                j: int,
            |
                0 <= j < i && file_ids@[j] as int == k) {
                priority
            } else {
                1u8
            } by {
                if file_ids@[i - 1] as int == k {
                    assert(exists|j: int| 0 <= j < i && file_ids@[j] as int == k);
                } else if exists|j: int| 0 <= j < i && file_ids@[j] as int == k {
                    let j = choose|j: int| 0 <= j < i && file_ids@[j] as int == k;
                    assert(j < i - 1);
                }
            }
        }
    }
    priorities
}

/// What the answer to `auth.login` means: `true` is success, anything else
/// refused credentials.
pub fn deluge_login_outcome(result: Option<bool>) -> (r: Result<(), ClientError>)
    ensures
        result == Some(true) ==> r is Ok,
        result != Some(true) ==> (r matches Err(ClientError::Auth(m)) && m@
            == "Deluge authentication failed"@),
{
    match result {
        Some(true) => Ok(()),
        _ => Err(ClientError::Auth(owned("Deluge authentication failed"))),
    }
}

} // verus!
