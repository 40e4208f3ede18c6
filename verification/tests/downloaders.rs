use tokimo_client_api::downloaders::aria2::{
    aria2_file_record, aria2_method, aria2_select_files, aria2_token, map_aria2_state,
    task_to_torrent_info, Aria2BitTorrent, Aria2BtInfo, Aria2File, Aria2Task,
};
use tokimo_client_api::downloaders::deluge::{
    deluge_entry_to_torrent_info, deluge_file_record, deluge_login_outcome, file_priorities,
    map_deluge_state, DelugeEntry, DelugeFile,
};
use tokimo_client_api::downloaders::pan115::{
    has_next_page, map_pan115_status, pan115_add_form, pan115_base_url,
    pan115_connection_status, pan115_delete_form, pan115_task_to_torrent_info, tasks_page_url,
    Pan115Task,
};
use tokimo_client_api::downloaders::qbittorrent::{
    map_qbt_state, qbt_add_torrent_form, qbt_file_ids, qbt_file_record, qbt_hashes,
    qbt_login_outcome, qbt_to_torrent_info, qbt_torrents_url, QbtTorrent,
};
use tokimo_client_api::downloaders::traits::{
    AddTorrentOptions, ClientCapabilities, DownloadClientType, TorrentState,
};
use tokimo_client_api::downloaders::transmission::{
    map_tr_status, tr_check_result, tr_file_record, tr_file_records, TrFile, tr_session_step, tr_to_torrent_info,
    SessionStep, TrTorrent,
};
use tokimo_client_api::downloaders::xunlei::{
    bearer, map_xunlei_state, xunlei_task_to_torrent_info, xunlei_token, XunleiTask,
};
use tokimo_client_api::downloaders::{
    connected_status, failed_status, hash_matches, jsonrpc_error, trim_base_url,
};
use tokimo_client_api::error::ClientError;

fn s(x: &str) -> String {
    x.to_string()
}

#[test]
fn base_url_loses_trailing_slashes() {
    assert_eq!(trim_base_url("http://host:8080///"), "http://host:8080");
    assert_eq!(trim_base_url("http://host"), "http://host");
    assert_eq!(trim_base_url("///"), "");
    assert_eq!(trim_base_url(&trim_base_url("a//")), trim_base_url("a//"));
}

#[test]
fn hashes_match_ignoring_ascii_case() {
    assert!(hash_matches("ABCdef01", "abcDEF01"));
    assert!(!hash_matches("abc", "abd"));
    assert!(!hash_matches("abc", "abcd"));
    assert!(!hash_matches("É", "é"));
}

#[test]
fn capabilities_table() {
    let q = ClientCapabilities::of(DownloadClientType::QBittorrent);
    assert!(q.supports_categories && q.supports_file_priority);
    assert_eq!(q.min_poll_interval, 3);
    let p = ClientCapabilities::of(DownloadClientType::Pan115);
    assert!(!p.supports_pause && p.supports_torrent_file);
    assert_eq!(p.min_poll_interval, 10);
    let x = ClientCapabilities::of(DownloadClientType::Xunlei);
    assert!(x.supports_pause && !x.supports_torrent_file);
    let t = ClientCapabilities::of(DownloadClientType::Transmission);
    assert!(!t.supports_file_priority && !t.supports_categories);
}

#[test]
fn status_helpers_and_rpc_errors() {
    let f = failed_status(s("boom"));
    assert!(!f.connected);
    assert_eq!(f.error.as_deref(), Some("boom"));
    let c = connected_status(Some(s("4.0")));
    assert!(c.connected && c.error.is_none());
    match jsonrpc_error(None) {
        ClientError::Api { status, message } => assert_eq!((status, message.as_str()), (0, "Unknown error")),
        _ => panic!(),
    }
    match jsonrpc_error(Some("bad gid")) {
        ClientError::Api { message, .. } => assert_eq!(message, "bad gid"),
        _ => panic!(),
    }
}

fn qbt(tags: &str, completion: Option<i64>, state: &str) -> QbtTorrent {
    QbtTorrent {
        hash: s("h"),
        name: s("n"),
        size: 1,
        dlspeed: 2,
        upspeed: 3,
        downloaded: 4,
        uploaded: 5,
        state: s(state),
        category: s("movies"),
        tags: s(tags),
        save_path: s("/d"),
        added_on: 6,
        completion_on: completion,
        seeding_time: Some(7),
        eta: Some(8),
        num_seeds: Some(9),
        num_peers: None,
        tracker: None,
    }
}

#[test]
fn qbt_states() {
    assert_eq!(map_qbt_state("checkingResumeData"), TorrentState::CheckingDl);
    assert_eq!(map_qbt_state("checkingUP"), TorrentState::CheckingUp);
    assert_eq!(map_qbt_state("metaDL"), TorrentState::Downloading);
    assert_eq!(map_qbt_state("forcedUP"), TorrentState::Seeding);
    assert_eq!(map_qbt_state("missingFiles"), TorrentState::MissingFiles);
    assert_eq!(map_qbt_state("stalledUP"), TorrentState::StalledUp);
    assert_eq!(map_qbt_state("queuedDL"), TorrentState::QueuedDl);
    assert_eq!(map_qbt_state("pausedUP"), TorrentState::PausedUp);
    assert_eq!(map_qbt_state("Downloading"), TorrentState::Unknown);
}

#[test]
fn qbt_record_tags_and_completion() {
    let r = qbt_to_torrent_info(qbt(" a , b,,c ", Some(-1), "uploading"));
    assert_eq!(r.tags, vec![s("a"), s("b"), s(""), s("c")]);
    assert_eq!(r.completion_on, None);
    assert_eq!(r.state, TorrentState::Seeding);
    assert_eq!((r.size, r.dl_speed, r.up_speed, r.downloaded, r.uploaded), (1, 2, 3, 4, 5));
    let r = qbt_to_torrent_info(qbt("", Some(100), "error"));
    assert!(r.tags.is_empty());
    assert_eq!(r.completion_on, Some(100));
    assert_eq!(r.state, TorrentState::Error);
    assert_eq!(r.seeds, Some(9));
}

#[test]
fn qbt_login_answers() {
    assert!(qbt_login_outcome(" Ok.\n").is_ok());
    match qbt_login_outcome("Fails.") {
        Err(ClientError::Auth(m)) => assert_eq!(m, "Invalid credentials"),
        _ => panic!(),
    }
    match qbt_login_outcome("Forbidden") {
        Err(ClientError::Other(m)) => assert_eq!(m, "Login failed: Forbidden"),
        _ => panic!(),
    }
}

#[test]
fn qbt_urls_and_forms() {
    assert_eq!(qbt_torrents_url("http://q", None, None), "http://q/api/v2/torrents/info");
    assert_eq!(
        qbt_torrents_url("http://q", Some("downloading"), Some("tv")),
        "http://q/api/v2/torrents/info?filter=downloading&category=tv"
    );
    assert_eq!(qbt_torrents_url("http://q", None, Some("tv")), "http://q/api/v2/torrents/info?category=tv");
    let opts = AddTorrentOptions {
        urls: Some(vec![s("magnet:1"), s("magnet:2")]),
        torrents: Some(vec![s("AAA"), s("BBB")]),
        save_path: Some(s("/dl")),
        category: None,
        tags: Some(vec![s("x"), s("y")]),
        paused: Some(true),
        skip_hash_check: Some(false),
    };
    let form = qbt_add_torrent_form(&opts);
    let expect: Vec<(String, String)> = vec![
        (s("urls"), s("magnet:1\nmagnet:2")),
        (s("torrents"), s("AAA")),
        (s("torrents"), s("BBB")),
        (s("savepath"), s("/dl")),
        (s("tags"), s("x,y")),
        (s("paused"), s("true")),
        (s("skip_checking"), s("false")),
    ];
    assert_eq!(form, expect);
    assert!(qbt_add_torrent_form(&AddTorrentOptions::default()).is_empty());
    assert_eq!(qbt_file_ids(&[0, 3, 12]), "0|3|12");
    assert_eq!(qbt_file_ids(&[]), "");
    assert_eq!(qbt_hashes(&["a", "b"]), "a|b");
    let f = qbt_file_record(4, None, Some(s("f.mkv")), None, Some(7));
    assert_eq!((f.index, f.name.as_str(), f.size, f.priority), (4, "f.mkv", 0, 7));
    assert_eq!(qbt_file_record(4, Some(9), None, Some(1), None).index, 9);
}

#[test]
fn deluge_states_and_entries() {
    assert_eq!(map_deluge_state("Allocating"), TorrentState::CheckingDl);
    assert_eq!(map_deluge_state("Queued"), TorrentState::QueuedDl);
    assert_eq!(map_deluge_state("Paused"), TorrentState::PausedDl);
    assert_eq!(map_deluge_state("paused"), TorrentState::Unknown);
    let r = deluge_entry_to_torrent_info(
        "abc",
        DelugeEntry {
            name: Some(s("N")),
            total_size: Some(100),
            download_payload_rate: None,
            upload_payload_rate: Some(5),
            all_time_download: Some(50),
            total_uploaded: None,
            state: Some(s("Seeding")),
            label: None,
            save_path: Some(s("/p")),
            time_added: Some(1000),
            completed_time: Some(0),
            seeding_time: Some(3),
            eta: Some(-1),
            num_seeds: Some(0x1_0000_0002),
            num_peers: Some(4),
            tracker_host: Some(s("")),
        },
    );
    assert_eq!(r.hash, "abc");
    assert_eq!(r.state, TorrentState::Seeding);
    assert_eq!((r.size, r.dl_speed, r.up_speed, r.downloaded, r.uploaded), (100, 0, 5, 50, 0));
    assert_eq!(r.category, "");
    assert_eq!(r.completion_on, None);
    assert_eq!(r.eta, None);
    assert_eq!(r.seeds, Some(2));
    assert_eq!(r.tracker, None);
    assert_eq!(r.added_on, 1000);
}

#[test]
fn deluge_file_priorities_and_files() {
    assert_eq!(file_priorities(4, &[1, 3, 9], 0), vec![1, 0, 1, 0]);
    assert_eq!(file_priorities(0, &[0], 7), Vec::<u8>::new());
    assert_eq!(file_priorities(3, &[], 7), vec![1, 1, 1]);
    let f = deluge_file_record(DelugeFile { index: None, path: Some(s("a/b")), size: Some(9), priority: None });
    assert_eq!((f.index, f.name.as_str(), f.size, f.priority), (0, "a/b", 9, 1));
    assert!(deluge_login_outcome(Some(true)).is_ok());
    match deluge_login_outcome(Some(false)) {
        Err(ClientError::Auth(m)) => assert_eq!(m, "Deluge authentication failed"),
        _ => panic!(),
    }
    assert!(deluge_login_outcome(None).is_err());
}

fn tr(status: u8, error: Option<u8>, error_string: Option<&str>) -> TrTorrent {
    TrTorrent {
        hash_string: s("h"),
        name: s("n"),
        total_size: 10,
        rate_download: 1,
        rate_upload: 2,
        downloaded_ever: 3,
        uploaded_ever: 4,
        status,
        download_dir: s("/d"),
        added_date: 5,
        done_date: Some(0),
        error,
        error_string: error_string.map(s),
        is_finished: Some(true),
        peers_connected: Some(3),
        labels: Some(vec![s("tv")]),
        eta: Some(-1),
    }
}

#[test]
fn transmission_states_and_records() {
    assert_eq!(map_tr_status(0, None), TorrentState::PausedDl);
    assert_eq!(map_tr_status(2, Some(0)), TorrentState::CheckingDl);
    assert_eq!(map_tr_status(5, None), TorrentState::QueuedUp);
    assert_eq!(map_tr_status(6, Some(3)), TorrentState::Error);
    assert_eq!(map_tr_status(9, None), TorrentState::Unknown);
    let r = tr_to_torrent_info(tr(6, None, Some("")));
    assert_eq!(r.state, TorrentState::Seeding);
    assert_eq!(r.completion_on, None);
    assert_eq!(r.eta, None);
    assert_eq!(r.tags, vec![s("tv")]);
    assert_eq!(r.peers, Some(3));
    let r = tr_to_torrent_info(tr(4, None, Some("tracker gone")));
    assert_eq!(r.state, TorrentState::Error);
    let mut t = tr(4, None, None);
    t.done_date = Some(77);
    t.eta = Some(0);
    t.labels = None;
    let r = tr_to_torrent_info(t);
    assert_eq!((r.completion_on, r.eta), (Some(77), Some(0)));
    assert!(r.tags.is_empty());
}

#[test]
fn transmission_results_and_sessions() {
    assert!(tr_check_result(Some("success")).is_ok());
    match tr_check_result(Some("duplicate torrent")) {
        Err(ClientError::Api { status, message }) => assert_eq!((status, message.as_str()), (0, "duplicate torrent")),
        _ => panic!(),
    }
    match tr_check_result(None) {
        Err(ClientError::Api { message, .. }) => assert_eq!(message, "error"),
        _ => panic!(),
    }
    assert!(matches!(tr_session_step(200, None), SessionStep::Proceed));
    match tr_session_step(409, Some(s("sid"))) {
        SessionStep::Retry(x) => assert_eq!(x, "sid"),
        _ => panic!(),
    }
    match tr_session_step(409, None) {
        SessionStep::Fail(ClientError::Other(m)) => assert_eq!(m, "Got 409 but no session ID header"),
        _ => panic!(),
    }
    let f = tr_file_record(2, Some(s("x")), None, Some(1));
    assert_eq!((f.index, f.name.as_str(), f.size, f.priority), (2, "x", 0, 1));
    let files = vec![
        TrFile { name: Some(s("a")), length: Some(5) },
        TrFile { name: None, length: None },
        TrFile { name: Some(s("c")), length: Some(7) },
    ];
    let records = tr_file_records(files, &vec![Some(2), None]);
    let got: Vec<(u32, &str, u64, i32)> =
        records.iter().map(|r| (r.index, r.name.as_str(), r.size, r.priority)).collect();
    assert_eq!(got, vec![(0, "a", 5, 2), (1, "", 0, 0), (2, "c", 7, 0)]);
}

fn task(files: Option<Vec<Aria2File>>, bt: Option<Aria2BitTorrent>) -> Aria2Task {
    Aria2Task {
        gid: s("2089b05ecca3d829"),
        status: s("complete"),
        total_length: s("1000"),
        completed_length: s("250"),
        download_speed: s("x"),
        upload_speed: s("7"),
        upload_length: None,
        bittorrent: bt,
        files,
        dir: Some(s("/dl")),
        error_message: None,
    }
}

fn afile(index: &str, path: &str, selected: Option<&str>) -> Aria2File {
    Aria2File {
        index: s(index),
        path: s(path),
        length: s("10"),
        completed_length: s("4"),
        selected: selected.map(s),
    }
}

#[test]
fn aria2_records() {
    assert_eq!(map_aria2_state("active"), TorrentState::Downloading);
    assert_eq!(map_aria2_state("waiting"), TorrentState::QueuedDl);
    assert_eq!(map_aria2_state("removed"), TorrentState::Unknown);
    let bt = Aria2BitTorrent { info_hash: None, info: Some(Aria2BtInfo { name: Some(s("Torrent Name")) }) };
    let r = task_to_torrent_info(&task(Some(vec![afile("1", "/dl/a.iso", None)]), Some(bt)));
    assert_eq!(r.name, "Torrent Name");
    assert_eq!(r.state, TorrentState::Seeding);
    assert_eq!((r.size, r.downloaded, r.dl_speed, r.up_speed, r.uploaded), (1000, 250, 0, 7, 0));
    assert_eq!(r.save_path, "/dl");
    let r = task_to_torrent_info(&task(Some(vec![afile("1", "/dl/sub/a.iso", None)]), None));
    assert_eq!(r.name, "a.iso");
    let r = task_to_torrent_info(&task(Some(vec![]), None));
    assert_eq!(r.name, "2089b05ecca3d829");
    let bt = Aria2BitTorrent { info_hash: Some(s("h")), info: None };
    let r = task_to_torrent_info(&task(None, Some(bt)));
    assert_eq!(r.name, "2089b05ecca3d829");
}

#[test]
fn aria2_files_and_options() {
    let f = aria2_file_record(&afile("3", "/x/y.mkv", Some("true")));
    assert_eq!((f.file.index, f.file.name.as_str(), f.file.size, f.completed, f.file.priority), (2, "y.mkv", 10, 4, 1));
    let f = aria2_file_record(&afile("0", "/x/", Some("false")));
    assert_eq!((f.file.index, f.file.name.as_str(), f.file.priority), (0, "x", 0));
    let f = aria2_file_record(&afile("?", "..", None));
    assert_eq!((f.file.index, f.file.name.as_str()), (0, ".."));
    assert_eq!(aria2_select_files(&[0, 4, 9]), "1,5,10");
    assert_eq!(aria2_select_files(&[]), "");
    assert_eq!(aria2_method("tellActive"), "aria2.tellActive");
    assert_eq!(aria2_token("s3cret"), "token:s3cret");
}

#[test]
fn pan115_records_and_forms() {
    assert_eq!(map_pan115_status(2), TorrentState::Seeding);
    assert_eq!(map_pan115_status(4), TorrentState::QueuedDl);
    assert_eq!(map_pan115_status(0), TorrentState::Unknown);
    let r = pan115_task_to_torrent_info(Pan115Task {
        info_hash: s("H"),
        name: s("N"),
        file_size: None,
        pct: 5000,
        status: 1,
        peers: Some(2),
        speed: Some(9),
        add_time: None,
        file_id: None,
    });
    assert_eq!((r.size, r.dl_speed, r.added_on, r.peers), (0, 9, 0, Some(2)));
    assert_eq!(r.state, TorrentState::Downloading);
    assert_eq!(pan115_base_url(None), "https://lixian.115.com");
    assert_eq!(pan115_base_url(Some("http://mirror/")), "http://mirror");
    assert_eq!(
        tasks_page_url("https://lixian.115.com", 3),
        "https://lixian.115.com/lixian/?ct=lixian&ac=task_lists&page=3&page_size=40"
    );
    assert!(has_next_page(40));
    assert!(!has_next_page(39));
    assert_eq!(
        pan115_add_form(&vec![s("u0"), s("u1")]),
        vec![(s("url[0]"), s("u0")), (s("url[1]"), s("u1"))]
    );
    assert_eq!(
        pan115_delete_form(&["a"], true),
        vec![(s("hash[0]"), s("a")), (s("delete_file"), s("1"))]
    );
    assert_eq!(pan115_delete_form(&[], false), vec![(s("delete_file"), s("0"))]);
    assert!(pan115_connection_status(Some(true)).connected);
    let st = pan115_connection_status(None);
    assert!(!st.connected);
    assert_eq!(st.error.as_deref(), Some("Pan115 returned state=false"));
}

#[test]
fn xunlei_records() {
    assert_eq!(map_xunlei_state("running"), TorrentState::Downloading);
    assert_eq!(map_xunlei_state("completed"), TorrentState::Seeding);
    assert_eq!(map_xunlei_state("pending"), TorrentState::QueuedDl);
    let r = xunlei_task_to_torrent_info(XunleiTask {
        id: s("t1"),
        name: s("N"),
        state: s("error"),
        file_size: Some(8),
        speed: None,
        real_path: None,
    });
    assert_eq!((r.hash.as_str(), r.size, r.dl_speed, r.save_path.as_str()), ("t1", 8, 0, ""));
    assert_eq!(r.state, TorrentState::Error);
    assert_eq!(xunlei_token(Some("tok")).unwrap(), "tok");
    match xunlei_token(None) {
        Err(ClientError::Auth(m)) => assert_eq!(m, "No token in Xunlei login response"),
        _ => panic!(),
    }
    assert_eq!(bearer("tok"), "Bearer tok");
}
