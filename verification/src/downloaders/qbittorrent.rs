//! qBittorrent: its Web API requests and the decoding of its answers.

use vstd::prelude::*;

use super::traits::{AddTorrentOptions, TorrentFileRecord, TorrentRecord, TorrentState};
use crate::error::ClientError;
use crate::text::{
    chars_of, equals_lit, find, join_strings, joined, owned, push_decimal, push_str, split_char,
    trim, trim_all, trim_str, views, decimal, split_trimmed, contains_seq,
};

verus! {

/// The connection settings of a qBittorrent client.
#[derive(Debug, Clone)]
pub struct QBittorrentConfig {
    pub url: String,
    pub username: String,
    pub password: String,
}

/// qBittorrent's documented state names and the state each stands for:
/// every one of them is known (none is read as unknown), the checking
/// names are checking, the active download names downloading, the active
/// upload names seeding, and each paused, queued and stalled name keeps
/// its side (download or upload).
pub proof fn lemma_qbt_state_names()
    ensures
        qbt_state("allocating"@) == TorrentState::CheckingDl,
        qbt_state("checkingDL"@) == TorrentState::CheckingDl,
        qbt_state("checkingResumeData"@) == TorrentState::CheckingDl,
        qbt_state("checkingUP"@) == TorrentState::CheckingUp,
        qbt_state("downloading"@) == TorrentState::Downloading,
        qbt_state("forcedDL"@) == TorrentState::Downloading,
        qbt_state("metaDL"@) == TorrentState::Downloading,
        qbt_state("moving"@) == TorrentState::Downloading,
        qbt_state("error"@) == TorrentState::Error,
        qbt_state("forcedUP"@) == TorrentState::Seeding,
        qbt_state("uploading"@) == TorrentState::Seeding,
        qbt_state("missingFiles"@) == TorrentState::MissingFiles,
        qbt_state("pausedDL"@) == TorrentState::PausedDl,
        qbt_state("pausedUP"@) == TorrentState::PausedUp,
        qbt_state("queuedDL"@) == TorrentState::QueuedDl,
        qbt_state("queuedUP"@) == TorrentState::QueuedUp,
        qbt_state("stalledDL"@) == TorrentState::StalledDl,
        qbt_state("stalledUP"@) == TorrentState::StalledUp,
{
    // Each name is told from the others by its length, its first letter and
    // its last letter but one.
    reveal_strlit("allocating");
    reveal_strlit("checkingDL");
    reveal_strlit("checkingResumeData");
    reveal_strlit("checkingUP");
    reveal_strlit("downloading");
    reveal_strlit("forcedDL");
    reveal_strlit("metaDL");
    reveal_strlit("moving");
    reveal_strlit("error");
    reveal_strlit("forcedUP");
    reveal_strlit("uploading");
    reveal_strlit("missingFiles");
    reveal_strlit("pausedDL");
    reveal_strlit("pausedUP");
    reveal_strlit("queuedDL");
    reveal_strlit("queuedUP");
    reveal_strlit("stalledDL");
    reveal_strlit("stalledUP");
    assert("allocating"@.len() == 10 && "allocating"@[0] == 'a' && "allocating"@[8] == 'n');
    assert("checkingDL"@.len() == 10 && "checkingDL"@[0] == 'c' && "checkingDL"@[8] == 'D');
    assert("checkingResumeData"@.len() == 18 && "checkingResumeData"@[0] == 'c' && "checkingResumeData"@[16] == 't');
    assert("checkingUP"@.len() == 10 && "checkingUP"@[0] == 'c' && "checkingUP"@[8] == 'U');
    assert("downloading"@.len() == 11 && "downloading"@[0] == 'd' && "downloading"@[9] == 'n');
    assert("forcedDL"@.len() == 8 && "forcedDL"@[0] == 'f' && "forcedDL"@[6] == 'D');
    assert("metaDL"@.len() == 6 && "metaDL"@[0] == 'm' && "metaDL"@[4] == 'D');
    assert("moving"@.len() == 6 && "moving"@[0] == 'm' && "moving"@[4] == 'n');
    assert("error"@.len() == 5 && "error"@[0] == 'e' && "error"@[3] == 'o');
    assert("forcedUP"@.len() == 8 && "forcedUP"@[0] == 'f' && "forcedUP"@[6] == 'U');
    assert("uploading"@.len() == 9 && "uploading"@[0] == 'u' && "uploading"@[7] == 'n');
    assert("missingFiles"@.len() == 12 && "missingFiles"@[0] == 'm' && "missingFiles"@[10] == 'e');
    assert("pausedDL"@.len() == 8 && "pausedDL"@[0] == 'p' && "pausedDL"@[6] == 'D');
    assert("pausedUP"@.len() == 8 && "pausedUP"@[0] == 'p' && "pausedUP"@[6] == 'U');
    assert("queuedDL"@.len() == 8 && "queuedDL"@[0] == 'q' && "queuedDL"@[6] == 'D');
    assert("queuedUP"@.len() == 8 && "queuedUP"@[0] == 'q' && "queuedUP"@[6] == 'U');
    assert("stalledDL"@.len() == 9 && "stalledDL"@[0] == 's' && "stalledDL"@[7] == 'D');
    assert("stalledUP"@.len() == 9 && "stalledUP"@[0] == 's' && "stalledUP"@[7] == 'U');
}

/// The state of a torrent from qBittorrent's state name.
pub open spec fn qbt_state(s: Seq<char>) -> TorrentState {
    if s == "allocating"@ || s == "checkingDL"@ || s == "checkingResumeData"@ {
        TorrentState::CheckingDl
    } else if s == "checkingUP"@ {
        TorrentState::CheckingUp
    } else if s == "downloading"@ || s == "forcedDL"@ || s == "metaDL"@ || s == "moving"@ {
        TorrentState::Downloading
    } else if s == "error"@ {
        TorrentState::Error
    } else if s == "forcedUP"@ || s == "uploading"@ {
        TorrentState::Seeding
    } else if s == "missingFiles"@ {
        TorrentState::MissingFiles
    } else if s == "pausedDL"@ {
        TorrentState::PausedDl
    } else if s == "pausedUP"@ {
        TorrentState::PausedUp
    } else if s == "queuedDL"@ {
        TorrentState::QueuedDl
    } else if s == "queuedUP"@ {
        TorrentState::QueuedUp
    } else if s == "stalledDL"@ {
        TorrentState::StalledDl
    } else if s == "stalledUP"@ {
        TorrentState::StalledUp
    } else {
        TorrentState::Unknown
    }
}

/// The state of a torrent from qBittorrent's state name.
pub fn map_qbt_state(state: &str) -> (r: TorrentState)
    ensures
        r == qbt_state(state@),
{
    let s = chars_of(state);
    if equals_lit(&s, "allocating") || equals_lit(&s, "checkingDL") || equals_lit(
        &s,
        "checkingResumeData",
    ) {
        TorrentState::CheckingDl
    } else if equals_lit(&s, "checkingUP") {
        TorrentState::CheckingUp
    } else if equals_lit(&s, "downloading") || equals_lit(&s, "forcedDL") || equals_lit(
        &s,
        "metaDL",
    ) || equals_lit(&s, "moving") {
        TorrentState::Downloading
    } else if equals_lit(&s, "error") {
        TorrentState::Error
    } else if equals_lit(&s, "forcedUP") || equals_lit(&s, "uploading") {
        TorrentState::Seeding
    } else if equals_lit(&s, "missingFiles") {
        TorrentState::MissingFiles
    } else if equals_lit(&s, "pausedDL") {
        TorrentState::PausedDl
    } else if equals_lit(&s, "pausedUP") {
        TorrentState::PausedUp
    } else if equals_lit(&s, "queuedDL") {
        TorrentState::QueuedDl
    } else if equals_lit(&s, "queuedUP") {
        TorrentState::QueuedUp
    } else if equals_lit(&s, "stalledDL") {
        TorrentState::StalledDl
    } else if equals_lit(&s, "stalledUP") {
        TorrentState::StalledUp
    } else {
        TorrentState::Unknown
    }
}

/// A torrent as `/api/v2/torrents/info` lists it, apart from its progress
/// and ratio.
#[derive(Debug, Clone)]
pub struct QbtTorrent {
    pub hash: String,
    pub name: String,
    pub size: u64,
    pub dlspeed: u64,
    pub upspeed: u64,
    pub downloaded: u64,
    pub uploaded: u64,
    pub state: String,
    pub category: String,
    pub tags: String,
    pub save_path: String,
    pub added_on: i64,
    pub completion_on: Option<i64>,
    pub seeding_time: Option<u64>,
    pub eta: Option<i64>,
    pub num_seeds: Option<u32>,
    pub num_peers: Option<u32>,
    pub tracker: Option<String>,
}

/// The tags of a torrent: its comma-separated tag list, each tag trimmed;
/// none for an empty list.
pub open spec fn qbt_tags(tags: Seq<char>) -> Seq<Seq<char>> {
    if tags.len() == 0 {
        seq![]
    } else {
        trim_all(split_char(tags, ','))
    }
}

/// The record of a qBittorrent torrent. A completion time of -1 means the
/// torrent has not completed.
pub fn qbt_to_torrent_info(q: QbtTorrent) -> (r: TorrentRecord)
    ensures
        r.hash == q.hash,
        r.name == q.name,
        r.size == q.size,
        r.dl_speed == q.dlspeed,
        r.up_speed == q.upspeed,
        r.downloaded == q.downloaded,
        r.uploaded == q.uploaded,
        r.state == qbt_state(q.state@),
        r.category == q.category,
        views(r.tags@) == qbt_tags(q.tags@),
        r.save_path == q.save_path,
        r.added_on == q.added_on,
        r.completion_on == (match q.completion_on {
            Some(t) => if t == -1 {
                None
            } else {
                Some(t)
            },
            None => None,
        }),
        r.seeding_time == q.seeding_time,
        r.eta == q.eta,
        r.seeds == q.num_seeds,
        r.peers == q.num_peers,
        r.tracker == q.tracker,
{
    let tags: Vec<String> = if q.tags.as_str().is_empty() {
        let v: Vec<String> = Vec::new();
        assert(views(v@) =~= seq![]);
        v
    } else {
        split_trimmed(q.tags.as_str(), ',')
    };
    let completion_on = match q.completion_on {
        Some(t) => if t == -1 {
            None
        } else {
            Some(t)
        },
        None => None,
    };
    let state = map_qbt_state(q.state.as_str());
    TorrentRecord {
        hash: q.hash,
        name: q.name,
        size: q.size,
        dl_speed: q.dlspeed,
        up_speed: q.upspeed,
        downloaded: q.downloaded,
        uploaded: q.uploaded,
        state,
        category: q.category,
        tags,
        save_path: q.save_path,
        added_on: q.added_on,
        completion_on,
        seeding_time: q.seeding_time,
        eta: q.eta,
        seeds: q.num_seeds,
        peers: q.num_peers,
        tracker: q.tracker,
    }
}

/// What the login endpoint's answer means: `Ok.` (after trimming) is
/// success, an answer containing `Fails.` is refused credentials, anything
/// else a failed login that quotes the answer.
pub fn qbt_login_outcome(text: &str) -> (r: Result<(), ClientError>)
    ensures
        trim(text@) == "Ok."@ ==> r is Ok,
        trim(text@) != "Ok."@ && find(text@, "Fails."@) is Some ==> (r matches Err(
            ClientError::Auth(m),
        ) && m@ == "Invalid credentials"@),
        trim(text@) != "Ok."@ && find(text@, "Fails."@) is None ==> (r matches Err(
            ClientError::Other(m),
        ) && m@ == "Login failed: "@ + text@),
{
    let t = trim_str(text);
    let tv = chars_of(t.as_str());
    if equals_lit(&tv, "Ok.") {
        Ok(())
    } else if contains_seq(&chars_of(text), &chars_of("Fails.")) {
        Err(ClientError::Auth(owned("Invalid credentials")))
    } else {
        let mut m = owned("Login failed: ");
        push_str(&mut m, text);
        Err(ClientError::Other(m))
    }
}

/// The query of `/api/v2/torrents/info`: the optional filter and category,
/// `&`-separated.
pub open spec fn qbt_query(filter: Option<Seq<char>>, category: Option<Seq<char>>) -> Seq<
    Seq<char>,
> {
    let a: Seq<Seq<char>> = match filter {
        Some(f) => seq!["filter="@ + f],
        None => seq![],
    };
    let b: Seq<Seq<char>> = match category {
        Some(c) => seq!["category="@ + c],
        None => seq![],
    };
    a + b
}

/// The view of an optional string slice.
pub open spec fn opt_str_view(o: Option<&str>) -> Option<Seq<char>> {
    match o {
        Some(s) => Some(s@),
        None => None,
    }
}

/// The URL that lists torrents, with the filter and category when given.
pub fn qbt_torrents_url(base: &str, filter: Option<&str>, category: Option<&str>) -> (r: String)
    ensures
        ({
            let parts = qbt_query(opt_str_view(filter), opt_str_view(category));
            &&& parts.len() == 0 ==> r@ == base@ + "/api/v2/torrents/info"@
            &&& parts.len() > 0 ==> r@ == base@ + "/api/v2/torrents/info"@ + "?"@ + joined(
                parts,
                "&"@,
            )
        }),
{
    let mut parts: Vec<String> = Vec::new();
    match filter {
        Some(f) => {
            let mut p = owned("filter=");
            push_str(&mut p, f);
            parts.push(p);
        },
        None => {},
    }
    match category {
        Some(c) => {
            let mut p = owned("category=");
            push_str(&mut p, c);
            parts.push(p);
        },
        None => {},
    }
    assert(views(parts@) =~= qbt_query(opt_str_view(filter), opt_str_view(category)));
    let mut url = owned(base);
    push_str(&mut url, "/api/v2/torrents/info");
    if parts.len() > 0 {
        push_str(&mut url, "?");
        let q = join_strings(&parts, "&");
        push_str(&mut url, q.as_str());
    }
    url
}

/// The view of a form.
pub open spec fn form_view(f: Seq<(String, String)>) -> Seq<(Seq<char>, Seq<char>)> {
    f.map_values(|e: (String, String)| (e.0@, e.1@))
}

/// The text of a boolean in a form.
pub open spec fn bool_text(b: bool) -> Seq<char> {
    if b {
        "true"@
    } else {
        "false"@
    }
}

fn bool_string(b: bool) -> (r: String)
    ensures
        r@ == bool_text(b),
{
    if b {
        owned("true")
    } else {
        owned("false")
    }
}

/// The form fields of `/api/v2/torrents/add`: the URLs newline-separated,
/// each torrent file, then save path, category, comma-separated tags, and
/// the paused and skip-checking flags, each when given.
pub open spec fn qbt_add_form(
    urls: Option<Seq<Seq<char>>>,
    torrents: Option<Seq<Seq<char>>>,
    save_path: Option<Seq<char>>,
    category: Option<Seq<char>>,
    tags: Option<Seq<Seq<char>>>,
    paused: Option<bool>,
    skip: Option<bool>,
) -> Seq<(Seq<char>, Seq<char>)> {
    (match urls {
        Some(u) => seq![("urls"@, joined(u, "\n"@))],
        None => seq![],
    }) + (match torrents {
        Some(t) => t.map_values(|x: Seq<char>| ("torrents"@, x)),
        None => seq![],
    }) + (match save_path {
        Some(p) => seq![("savepath"@, p)],
        None => seq![],
    }) + (match category {
        Some(c) => seq![("category"@, c)],
        None => seq![],
    }) + (match tags {
        Some(t) => seq![("tags"@, joined(t, ","@))],
        None => seq![],
    }) + (match paused {
        Some(b) => seq![("paused"@, bool_text(b))],
        None => seq![],
    }) + (match skip {
        Some(b) => seq![("skip_checking"@, bool_text(b))],
        None => seq![],
    })
}

/// The view of an optional list of strings.
pub open spec fn opt_list_view(o: Option<Vec<String>>) -> Option<Seq<Seq<char>>> {
    match o {
        Some(v) => Some(views(v@)),
        None => None,
    }
}

/// The view of an optional string.
pub open spec fn opt_string_view(o: Option<String>) -> Option<Seq<char>> {
    match o {
        Some(s) => Some(s@),
        None => None,
    }
}

/// Appends a field.
fn push_field(form: &mut Vec<(String, String)>, key: &str, value: String)
    ensures
        form_view(final(form)@) == form_view(old(form)@).push((key@, value@)),
{
    let ghost before = form@;
    form.push((owned(key), value));
    assert(form_view(form@) =~= form_view(before).push((key@, value@)));
}

/// Appends a field when there is a value.
fn push_opt_field(form: &mut Vec<(String, String)>, key: &str, value: &Option<String>)
    ensures
        form_view(final(form)@) == form_view(old(form)@) + match opt_string_view(*value) {
            Some(v) => seq![(key@, v)],
            None => seq![],
        },
{
    match value {
        Some(v) => {
            push_field(form, key, v.clone());
            assert(form_view(form@) =~= form_view(old(form)@) + seq![(key@, v@)]);
        },
        None => {
            assert(form_view(form@) =~= form_view(old(form)@) + seq![]);
        },
    }
}

/// Appends a flag when there is one.
fn push_opt_flag(form: &mut Vec<(String, String)>, key: &str, value: Option<bool>)
    ensures
        form_view(final(form)@) == form_view(old(form)@) + match value {
            Some(b) => seq![(key@, bool_text(b))],
            None => seq![],
        },
{
    match value {
        Some(b) => {
            push_field(form, key, bool_string(b));
            assert(form_view(form@) =~= form_view(old(form)@) + seq![(key@, bool_text(b))]);
        },
        None => {
            assert(form_view(form@) =~= form_view(old(form)@) + seq![]);
        },
    }
}

/// Appends a list joined with a separator, when there is one.
fn push_opt_joined(
    form: &mut Vec<(String, String)>,
    key: &str,
    value: &Option<Vec<String>>,
    sep: &str,
)
    ensures
        form_view(final(form)@) == form_view(old(form)@) + match opt_list_view(*value) {
            Some(v) => seq![(key@, joined(v, sep@))],
            None => seq![],
        },
{
    match value {
        Some(v) => {
            let j = join_strings(v, sep);
            push_field(form, key, j);
            assert(form_view(form@) =~= form_view(old(form)@) + seq![
                (key@, joined(views(v@), sep@)),
            ]);
        },
        None => {
            assert(form_view(form@) =~= form_view(old(form)@) + seq![]);
        },
    }
}

/// Appends one field per item of a list, when there is one.
fn push_each(form: &mut Vec<(String, String)>, key: &str, value: &Option<Vec<String>>)
    ensures
        form_view(final(form)@) == form_view(old(form)@) + match opt_list_view(*value) {
            Some(v) => v.map_values(|x: Seq<char>| (key@, x)),
            None => seq![],
        },
{
    match value {
        Some(items) => {
            let ghost base = form_view(form@);
            let mut i: usize = 0;
            while i < items.len()
                invariant
                    i <= items@.len(),
                    form_view(form@) == base + views(items@).take(i as int).map_values(
                        |x: Seq<char>| (key@, x),
                    ),
                decreases items.len() - i,
            {
                let ghost prev = form_view(form@);
                push_field(form, key, items[i].clone());
                i = i + 1;
                proof {
                    assert(views(items@).take(i as int) =~= views(items@).take(i - 1).push(
                        items@[i - 1]@,
                    ));
                    assert(views(items@).take(i as int).map_values(|x: Seq<char>| (key@, x))
                        =~= views(items@).take(i - 1).map_values(|x: Seq<char>| (key@, x)).push(
                        (key@, items@[i - 1]@),
                    ));
                }
            }
            assert(views(items@).take(items@.len() as int) =~= views(items@));
        },
        None => {
            assert(form_view(form@) =~= form_view(old(form)@) + seq![]);
        },
    }
}

/// Builds the form that adds torrents.
pub fn qbt_add_torrent_form(options: &AddTorrentOptions) -> (r: Vec<(String, String)>)
    ensures
        form_view(r@) == qbt_add_form(
            opt_list_view(options.urls),
            opt_list_view(options.torrents),
            opt_string_view(options.save_path),
            opt_string_view(options.category),
            opt_list_view(options.tags),
            options.paused,
            options.skip_hash_check,
        ),
{
    let mut form: Vec<(String, String)> = Vec::new();
    assert(form_view(form@) =~= seq![]);
    push_opt_joined(&mut form, "urls", &options.urls, "\n");
    push_each(&mut form, "torrents", &options.torrents);
    push_opt_field(&mut form, "savepath", &options.save_path);
    push_opt_field(&mut form, "category", &options.category);
    push_opt_joined(&mut form, "tags", &options.tags, ",");
    push_opt_flag(&mut form, "paused", options.paused);
    push_opt_flag(&mut form, "skip_checking", options.skip_hash_check);
    proof {
        assert(form_view(form@) =~= qbt_add_form(
            opt_list_view(options.urls),
            opt_list_view(options.torrents),
            opt_string_view(options.save_path),
            opt_string_view(options.category),
            opt_list_view(options.tags),
            options.paused,
            options.skip_hash_check,
        ));
    }
    form
}

/// The decimal texts of file ids.
pub open spec fn id_texts(ids: Seq<u32>) -> Seq<Seq<char>> {
    ids.map_values(|id: u32| decimal(id as nat))
}

/// The `|`-separated file ids of `/api/v2/torrents/filePrio`.
pub fn qbt_file_ids(file_ids: &[u32]) -> (r: String)
    ensures
        r@ == joined(id_texts(file_ids@), "|"@),
{
    let mut parts: Vec<String> = Vec::new();
    let mut i: usize = 0;
    while i < file_ids.len()
        invariant
            i <= file_ids@.len(),
            views(parts@) == id_texts(file_ids@).take(i as int),
        decreases file_ids.len() - i,
    {
        let mut s = String::new();
        push_decimal(&mut s, file_ids[i] as u64);
        let ghost before = parts@;
        parts.push(s);
        i = i + 1;
        proof {
            assert(views(parts@) =~= views(before).push(s@));
            assert(id_texts(file_ids@).take(i as int) =~= id_texts(file_ids@).take(i - 1).push(
                decimal(file_ids@[i - 1] as nat),
            ));
        }
    }
    assert(id_texts(file_ids@).take(file_ids@.len() as int) =~= id_texts(file_ids@));
    join_strings(&parts, "|")
}

/// The `|`-separated hashes of the pause, resume, delete and category
/// requests.
pub fn qbt_hashes(hashes: &[&str]) -> (r: String)
    ensures
        r@ == joined(hashes@.map_values(|h: &str| h@), "|"@),
{
    let mut parts: Vec<String> = Vec::new();
    let mut i: usize = 0;
    while i < hashes.len()
        invariant
            i <= hashes@.len(),
            views(parts@) == hashes@.map_values(|h: &str| h@).take(i as int),
        decreases hashes.len() - i,
    {
        let h = owned(hashes[i]);
        let ghost before = parts@;
        parts.push(h);
        i = i + 1;
        proof {
            assert(views(parts@) =~= views(before).push(h@));
            assert(hashes@.map_values(|h: &str| h@).take(i as int) =~= hashes@.map_values(
                |h: &str| h@,
            ).take(i - 1).push(hashes@[i - 1]@));
        }
    }
    assert(hashes@.map_values(|h: &str| h@).take(hashes@.len() as int) =~= hashes@.map_values(
        |h: &str| h@,
    ));
    join_strings(&parts, "|")
}

/// The record of file `position` of a torrent's file list: its reported
/// index (else its position), name (empty when absent), size (0 when
/// absent) and priority (0 when absent); index and priority are truncated
/// to 32 bits.
pub fn qbt_file_record(
    position: usize,
    index: Option<u64>,
    name: Option<String>,
    size: Option<u64>,
    priority: Option<i64>,
) -> (r: TorrentFileRecord)
    ensures
        r.index == (match index {
            Some(i) => i as u32,
            None => position as u32,
        }),
        r.name@ == (match name {
            Some(n) => n@,
            None => seq![],
        }),
        r.size == size.unwrap_or(0),
        r.priority == priority.unwrap_or(0) as i32,
{
    let i: u64 = match index {
        Some(i) => i,
        None => position as u64,
    };
    let p: i64 = match priority {
        Some(p) => p,
        None => 0,
    };
    TorrentFileRecord {
        index: i as u32,
        name: match name {
            Some(n) => n,
            None => String::new(),
        },
        size: match size {
            Some(n) => n,
            None => 0,
        },
        priority: p as i32,
    }
}

} // verus!
