//! 115 Pan offline downloads: the decoding of its task list and the forms
//! it is sent.

use vstd::prelude::*;

use super::traits::{ClientStatus, TorrentRecord, TorrentState};
use crate::text::{decimal, owned, push_char, push_decimal, push_str, strip_trailing, trim_end_matches_char};

verus! {

/// The state of a task from 115's status code.
pub open spec fn pan115_status(status: u8) -> TorrentState {
    if status == 1 {
        TorrentState::Downloading
    } else if status == 2 {
        TorrentState::Seeding
    } else if status == 3 {
        TorrentState::PausedDl
    } else if status == 4 {
        TorrentState::QueuedDl
    } else if status == 5 {
        TorrentState::Error
    } else {
        TorrentState::Unknown
    }
}

/// The state of a task from 115's status code.
pub fn map_pan115_status(status: u8) -> (r: TorrentState)
    ensures
        r == pan115_status(status),
{
    match status {
        1 => TorrentState::Downloading,
        2 => TorrentState::Seeding,
        3 => TorrentState::PausedDl,
        4 => TorrentState::QueuedDl,
        5 => TorrentState::Error,
        _ => TorrentState::Unknown,
    }
}

/// A task as the task list reports it; `pct` is the progress in
/// ten-thousandths.
#[derive(Debug, Clone)]
pub struct Pan115Task {
    pub info_hash: String,
    pub name: String,
    pub file_size: Option<u64>,
    pub pct: u64,
    pub status: u8,
    pub peers: Option<u32>,
    pub speed: Option<u64>,
    pub add_time: Option<i64>,
    pub file_id: Option<String>,
}

/// The record of a 115 task; the byte count downloaded follows from the
/// progress, a fraction, and is left to the caller.
pub fn pan115_task_to_torrent_info(task: Pan115Task) -> (r: TorrentRecord)
    ensures
        r.hash == task.info_hash,
        r.name == task.name,
        r.size == task.file_size.unwrap_or(0),
        r.dl_speed == task.speed.unwrap_or(0),
        r.up_speed == 0,
        r.downloaded == 0,
        r.uploaded == 0,
        r.state == pan115_status(task.status),
        r.category@.len() == 0,
        r.tags@.len() == 0,
        r.save_path@.len() == 0,
        r.added_on == task.add_time.unwrap_or(0),
        r.completion_on is None,
        r.seeding_time is None,
        r.eta is None,
        r.seeds is None,
        r.peers == task.peers,
        r.tracker is None,
{
    let state = map_pan115_status(task.status);
    TorrentRecord {
        hash: task.info_hash,
        name: task.name,
        size: match task.file_size {
            Some(n) => n,
            None => 0,
        },
        dl_speed: match task.speed {
            Some(n) => n,
            None => 0,
        },
        up_speed: 0,
        downloaded: 0,
        uploaded: 0,
        state,
        category: String::new(),
        tags: Vec::new(),
        save_path: String::new(),
        added_on: match task.add_time {
            Some(t) => t,
            None => 0,
        },
        completion_on: None,
        seeding_time: None,
        eta: None,
        seeds: None,
        peers: task.peers,
        tracker: None,
    }
}

/// The base URL of the service: the configured one, else the public one,
/// without trailing slashes.
pub fn pan115_base_url(url: Option<&str>) -> (r: String)
    ensures
        r@ == strip_trailing(
            match url {
                Some(u) => u@,
                None => "https://lixian.115.com"@,
            },
            '/',
        ),
{
    match url {
        Some(u) => trim_end_matches_char(u, '/'),
        None => trim_end_matches_char("https://lixian.115.com", '/'),
    }
}

/// How many tasks one page of the task list holds.
pub const PAGE_SIZE: usize = 40;

/// Whether a page with `count` tasks may be followed by another.
pub fn has_next_page(count: usize) -> (r: bool)
    ensures
        r == (count >= PAGE_SIZE),
{
    count >= PAGE_SIZE
}

/// The URL of page `page` of the task list.
pub fn tasks_page_url(base: &str, page: u32) -> (r: String)
    ensures
        r@ == base@ + "/lixian/?ct=lixian&ac=task_lists&page="@ + decimal(page as nat)
            + "&page_size=40"@,
{
    let mut r = owned(base);
    push_str(&mut r, "/lixian/?ct=lixian&ac=task_lists&page=");
    push_decimal(&mut r, page as u64);
    push_str(&mut r, "&page_size=40");
    r
}

/// The view of a form.
pub open spec fn form_view(f: Seq<(String, String)>) -> Seq<(Seq<char>, Seq<char>)> {
    f.map_values(|e: (String, String)| (e.0@, e.1@))
}

/// The name of item `i` of an indexed form field: `name[i]`.
pub open spec fn indexed_key(name: Seq<char>, i: int) -> Seq<char> {
    name + seq!['['] + decimal(i as nat) + seq![']']
}

fn indexed_key_string(name: &str, i: usize) -> (r: String)
    ensures
        r@ == indexed_key(name@, i as int),
{
    let mut r = owned(name);
    push_char(&mut r, '[');
    push_decimal(&mut r, i as u64);
    push_char(&mut r, ']');
    assert(r@ =~= indexed_key(name@, i as int));
    r
}

/// The form that adds download URLs: `url[i]` for each URL in order.
pub fn pan115_add_form(urls: &Vec<String>) -> (r: Vec<(String, String)>)
    ensures
        form_view(r@) == Seq::new(urls@.len(), |i: int| (indexed_key("url"@, i), urls@[i]@)),
{
    let mut form: Vec<(String, String)> = Vec::new();
    let mut i: usize = 0;
    while i < urls.len()
        invariant
            i <= urls@.len(),
            form_view(form@) == Seq::new(i as nat, |k: int| (indexed_key("url"@, k), urls@[k]@)),
        decreases urls.len() - i,
    {
        let k = indexed_key_string("url", i);
        let ghost before = form@;
        let ghost kv = k@;
        form.push((k, urls[i].clone()));
        i = i + 1;
        assert(form_view(form@) =~= form_view(before).push((kv, urls@[i - 1]@)));
        assert(form_view(form@) =~= Seq::new(
            i as nat,
            |k: int| (indexed_key("url"@, k), urls@[k]@),
        ));
    }
    form
}

/// The form that deletes tasks: `hash[i]` for each hash in order, then
/// `delete_file`, `1` when the files go too and `0` otherwise.
pub fn pan115_delete_form(hashes: &[&str], delete_files: bool) -> (r: Vec<(String, String)>)
    ensures
        form_view(r@) == Seq::new(
            hashes@.len(),
            |i: int| (indexed_key("hash"@, i), hashes@[i]@),
        ).push(
            (
                "delete_file"@,
                if delete_files {
                    "1"@
                } else {
                    "0"@
                },
            ),
        ),
{
    let mut form: Vec<(String, String)> = Vec::new();
    let mut i: usize = 0;
    while i < hashes.len()
        invariant
            i <= hashes@.len(),
            form_view(form@) == Seq::new(
                i as nat,
                |k: int| (indexed_key("hash"@, k), hashes@[k]@),
            ),
        decreases hashes.len() - i,
    {
        let k = indexed_key_string("hash", i);
        let ghost before = form@;
        let ghost kv = k@;
        form.push((k, owned(hashes[i])));
        i = i + 1;
        assert(form_view(form@) =~= form_view(before).push((kv, hashes@[i - 1]@)));
        assert(form_view(form@) =~= Seq::new(
            i as nat,
            |k: int| (indexed_key("hash"@, k), hashes@[k]@),
        ));
    }
    let ghost before = form@;
    let flag = if delete_files {
        owned("1")
    } else {
        owned("0")
    };
    form.push((owned("delete_file"), flag));
    assert(form_view(form@) =~= form_view(before).push(("delete_file"@, flag@)));
    form
}

/// The outcome of a connection test from the `state` flag of the first
/// task page: connected only when it is `true`.
pub fn pan115_connection_status(state: Option<bool>) -> (r: ClientStatus)
    ensures
        r.connected == (state == Some(true)),
        r.version is None,
        r.connected ==> r.error is None,
        !r.connected ==> (r.error matches Some(e) && e@ == "Pan115 returned state=false"@),
{
    match state {
        Some(true) => ClientStatus { connected: true, version: None, error: None },
        _ => ClientStatus {
            connected: false,
            version: None,
            error: Some(owned("Pan115 returned state=false")),
        },
    }
}

} // verus!
