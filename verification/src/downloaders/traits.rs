//! Types shared by every download client.

use vstd::prelude::*;

verus! {

/// What a download client can do.
#[derive(Debug, Clone)]
pub struct ClientCapabilities {
    pub supports_pause: bool,
    pub supports_file_priority: bool,
    pub supports_categories: bool,
    pub supports_torrent_file: bool,
    pub min_poll_interval: u32,
}

/// What to add to a client, and how.
#[derive(Debug, Clone)]
pub struct AddTorrentOptions {
    pub urls: Option<Vec<String>>,
    /// Base64-encoded torrent files.
    pub torrents: Option<Vec<String>>,
    pub save_path: Option<String>,
    pub category: Option<String>,
    pub tags: Option<Vec<String>>,
    pub paused: Option<bool>,
    pub skip_hash_check: Option<bool>,
}

impl Default for AddTorrentOptions {
    fn default() -> (r: Self)
        ensures
            r.urls is None && r.torrents is None && r.save_path is None && r.category is None
                && r.tags is None && r.paused is None && r.skip_hash_check is None,
    {
        AddTorrentOptions {
            urls: None,
            torrents: None,
            save_path: None,
            category: None,
            tags: None,
            paused: None,
            skip_hash_check: None,
        }
    }
}

/// A category (label) of torrents.
#[derive(Debug, Clone)]
pub struct CategoryInfo {
    pub name: String,
    pub save_path: String,
}

/// Global transfer figures.
#[derive(Debug, Clone)]
pub struct TransferInfo {
    pub dl_speed: u64,
    pub up_speed: u64,
    pub free_space: u64,
}

/// The kinds of download client.
#[derive(Debug, Clone, Copy, PartialEq, Eq, Structural)]
pub enum DownloadClientType {
    QBittorrent,
    Transmission,
    Aria2,
    Deluge,
    RTorrent,
    Xunlei,
    Pan115,
}

/// The state of a torrent, common to all clients.
#[derive(Debug, Clone, Copy, PartialEq, Eq, Structural)]
pub enum TorrentState {
    Downloading,
    Uploading,
    Seeding,
    PausedDl,
    PausedUp,
    QueuedDl,
    QueuedUp,
    CheckingDl,
    CheckingUp,
    StalledDl,
    StalledUp,
    Error,
    MissingFiles,
    Unknown,
}

/// The outcome of a connection test.
#[derive(Debug, Clone)]
pub struct ClientStatus {
    pub connected: bool,
    pub version: Option<String>,
    pub error: Option<String>,
}

/// What a client reports of one torrent, apart from its progress and share
/// ratio, which are fractions.
#[derive(Debug, Clone)]
pub struct TorrentRecord {
    pub hash: String,
    pub name: String,
    pub size: u64,
    pub dl_speed: u64,
    pub up_speed: u64,
    pub downloaded: u64,
    pub uploaded: u64,
    pub state: TorrentState,
    pub category: String,
    pub tags: Vec<String>,
    pub save_path: String,
    pub added_on: i64,
    pub completion_on: Option<i64>,
    pub seeding_time: Option<u64>,
    pub eta: Option<i64>,
    pub seeds: Option<u32>,
    pub peers: Option<u32>,
    pub tracker: Option<String>,
}

/// What a client reports of one file of a torrent, apart from its progress.
#[derive(Debug, Clone)]
pub struct TorrentFileRecord {
    pub index: u32,
    pub name: String,
    pub size: u64,
    pub priority: i32,
}

/// The capabilities of each kind of client.
pub open spec fn capabilities_of(t: DownloadClientType) -> ClientCapabilities {
    match t {
        DownloadClientType::QBittorrent => ClientCapabilities {
            supports_pause: true,
            supports_file_priority: true,
            supports_categories: true,
            supports_torrent_file: true,
            min_poll_interval: 3,
        },
        DownloadClientType::Transmission => ClientCapabilities {
            supports_pause: true,
            supports_file_priority: false,
            supports_categories: false,
            supports_torrent_file: true,
            min_poll_interval: 5,
        },
        DownloadClientType::Aria2 => ClientCapabilities {
            supports_pause: true,
            supports_file_priority: true,
            supports_categories: false,
            supports_torrent_file: true,
            min_poll_interval: 3,
        },
        DownloadClientType::Deluge => ClientCapabilities {
            supports_pause: true,
            supports_file_priority: true,
            supports_categories: true,
            supports_torrent_file: true,
            min_poll_interval: 5,
        },
        DownloadClientType::RTorrent => ClientCapabilities {
            supports_pause: true,
            supports_file_priority: true,
            supports_categories: true,
            supports_torrent_file: true,
            min_poll_interval: 5,
        },
        DownloadClientType::Xunlei => ClientCapabilities {
            supports_pause: true,
            supports_file_priority: false,
            supports_categories: false,
            supports_torrent_file: false,
            min_poll_interval: 5,
        },
        DownloadClientType::Pan115 => ClientCapabilities {
            supports_pause: false,
            supports_file_priority: false,
            supports_categories: false,
            supports_torrent_file: true,
            min_poll_interval: 10,
        },
    }
}

impl ClientCapabilities {
    /// The capabilities of a kind of client.
    pub fn of(t: DownloadClientType) -> (r: ClientCapabilities)
        ensures
            r == capabilities_of(t),
    {
        match t {
            DownloadClientType::QBittorrent => ClientCapabilities {
                supports_pause: true,
                supports_file_priority: true,
                supports_categories: true,
                supports_torrent_file: true,
                min_poll_interval: 3,
            },
            DownloadClientType::Transmission => ClientCapabilities {
                supports_pause: true,
                supports_file_priority: false,
                supports_categories: false,
                supports_torrent_file: true,
                min_poll_interval: 5,
            },
            DownloadClientType::Aria2 => ClientCapabilities {
                supports_pause: true,
                supports_file_priority: true,
                supports_categories: false,
                supports_torrent_file: true,
                min_poll_interval: 3,
            },
            DownloadClientType::Deluge => ClientCapabilities {
                supports_pause: true,
                supports_file_priority: true,
                supports_categories: true,
                supports_torrent_file: true,
                min_poll_interval: 5,
            },
            DownloadClientType::RTorrent => ClientCapabilities {
                supports_pause: true,
                supports_file_priority: true,
                supports_categories: true,
                supports_torrent_file: true,
                min_poll_interval: 5,
            },
            DownloadClientType::Xunlei => ClientCapabilities {
                supports_pause: true,
                supports_file_priority: false,
                supports_categories: false,
                supports_torrent_file: false,
                min_poll_interval: 5,
            },
            DownloadClientType::Pan115 => ClientCapabilities {
                supports_pause: false,
                supports_file_priority: false,
                supports_categories: false,
                supports_torrent_file: true,
                min_poll_interval: 10,
            },
        }
    }
}

} // verus!
