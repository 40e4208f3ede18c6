use tokimo_client_api::downloaders::rtorrent::{
    build_call, file_key, is_method_response, map_rtorrent_state, parse_nested_array,
    parse_single_value, priority_value, rate_from_response, rtorrent_file_row, rtorrent_file_rows,
    rtorrent_row_to_torrent_info, strip_xml_tags, xmlrpc_base64, xmlrpc_string,
};
use tokimo_client_api::downloaders::traits::TorrentState;

fn s(x: &str) -> String {
    x.to_string()
}

#[test]
fn xml_string_values_are_escaped() {
    assert_eq!(xmlrpc_string("a<b&c>d"), "<string>a&lt;b&amp;c&gt;d</string>");
    assert_eq!(xmlrpc_string(""), "<string></string>");
    assert_eq!(xmlrpc_string("&amp;"), "<string>&amp;amp;</string>");
    assert_eq!(xmlrpc_base64("ZGF0YQ=="), "<base64>ZGF0YQ==</base64>");
}

#[test]
fn method_calls() {
    assert_eq!(
        build_call("system.listMethods", &[]),
        "<?xml version=\"1.0\"?><methodCall><methodName>system.listMethods</methodName><params></params></methodCall>"
    );
    assert_eq!(
        build_call("d.stop", &[xmlrpc_string("HASH")]),
        "<?xml version=\"1.0\"?><methodCall><methodName>d.stop</methodName><params><param><value><string>HASH</string></value></param></params></methodCall>"
    );
    assert_eq!(file_key("ABC", 3), "ABC:f3");
    assert_eq!(priority_value(2), "<i4>2</i4>");
}

#[test]
fn tags_are_stripped() {
    assert_eq!(strip_xml_tags("<i8>42</i8>"), "42");
    assert_eq!(strip_xml_tags("a<b>c</b>d"), "acd");
    assert_eq!(strip_xml_tags("x > y"), "x  y");
    assert_eq!(strip_xml_tags("<unclosed"), "");
}

#[test]
fn single_values() {
    let resp = "<?xml version=\"1.0\"?><methodResponse><params><param><value><i8> 1048576 </i8></value></param></params></methodResponse>";
    assert_eq!(parse_single_value(resp).as_deref(), Some("1048576"));
    assert_eq!(parse_single_value("<value>no end"), None);
    assert_eq!(parse_single_value("nothing"), None);
    assert_eq!(rate_from_response(resp), 1048576);
    assert_eq!(rate_from_response(""), 0);
    assert!(is_method_response(resp));
    assert!(!is_method_response("<html>"));
}

#[test]
fn nested_arrays() {
    let resp = [
        "<methodResponse><params><param><value><array><data>",
        "<value><array><data><value><string>H1</string></value><value><i8>5</i8></value></data></array></value>",
        "<value><array><data><value><string>H2</string></value><value><array><data><value>x</value></data></array></value><value>  7 </value></data></array></value>",
        "</data></array></value></param></params></methodResponse>",
    ]
    .join("");
    let rows = parse_nested_array(&resp);
    // A nested array opens a part of its own, as in any `<value><array><data>` split.
    assert_eq!(rows, vec![vec![s("H1"), s("5")], vec![s("H2")], vec![s("x")]]);
    assert!(parse_nested_array("<value><i4>1</i4></value>").is_empty());
}

#[test]
fn nested_arrays_skip_inner_arrays() {
    let resp = "<value><array><data><value><array></array></value><value>a</value></data></array></value>";
    assert_eq!(parse_nested_array(resp), vec![vec![s("a")]]);
    // An inner array that is never closed ends the row, which stays empty.
    assert!(parse_nested_array("<value><array><data><value><array>x").is_empty());
}

fn row(values: &[&str]) -> Vec<String> {
    values.iter().map(|v| v.to_string()).collect()
}

#[test]
fn torrent_rows() {
    let r = row(&[
        "HASH", "Name", "1000", "250", "10", "20", "300", "400", "1500", "1", "1", "0", "0",
        "/data", "1700000000", "0", "3", "x", "0", "", "movies",
    ]);
    let d = rtorrent_row_to_torrent_info(&r).unwrap();
    assert_eq!(d.info.hash, "HASH");
    assert_eq!(d.info.size, 1000);
    assert_eq!(d.completed, 250);
    assert_eq!(d.ratio_per_mille, 1500);
    assert_eq!(d.info.state, TorrentState::Downloading);
    assert_eq!(d.info.completion_on, None);
    assert_eq!(d.info.seeds, Some(3));
    assert_eq!(d.info.peers, None);
    assert_eq!(d.info.category, "movies");
    assert_eq!(d.info.save_path, "/data");
    assert_eq!(d.info.added_on, 1700000000);
    assert!(rtorrent_row_to_torrent_info(&r[..20]).is_none());
    let mut e = r.clone();
    e[9] = s("0");
    e[19] = s("Tracker: timeout");
    e[15] = s("1700000100");
    let d = rtorrent_row_to_torrent_info(&e).unwrap();
    assert_eq!(d.info.state, TorrentState::Error);
    assert_eq!(d.info.completion_on, Some(1700000100));
}

#[test]
fn rtorrent_states() {
    assert_eq!(map_rtorrent_state(1, 1, 0, 0, 1, false), TorrentState::CheckingDl);
    assert_eq!(map_rtorrent_state(0, 0, 0, 0, 0, false), TorrentState::PausedDl);
    assert_eq!(map_rtorrent_state(1, 0, 1, 1, 0, false), TorrentState::CheckingDl);
    assert_eq!(map_rtorrent_state(1, 1, 0, 1, 0, false), TorrentState::Seeding);
    assert_eq!(map_rtorrent_state(1, 0, 0, 1, 0, false), TorrentState::PausedUp);
    assert_eq!(map_rtorrent_state(1, 0, 0, 0, 0, true), TorrentState::PausedDl);
    assert_eq!(map_rtorrent_state(0, 1, 0, 0, 0, false), TorrentState::Unknown);
    assert_eq!(map_rtorrent_state(2, 1, 0, 0, 0, false), TorrentState::Unknown);
}

#[test]
fn file_rows() {
    let f = rtorrent_file_row(2, &row(&["dir/sub/file.mkv", "4096", "3", "0", "x"])).unwrap();
    assert_eq!(f.file.index, 2);
    assert_eq!(f.file.name, "file.mkv");
    assert_eq!(f.file.size, 4096);
    assert_eq!(f.completed_chunks, 3);
    assert_eq!(f.total_chunks, 1);
    assert_eq!(f.file.priority, 1);
    let g = rtorrent_file_row(0, &row(&["a", "1", "1", "8", "-2"])).unwrap();
    assert_eq!((g.file.name.as_str(), g.total_chunks, g.file.priority), ("a", 8, -2));
    assert!(rtorrent_file_row(0, &row(&["a", "1", "1", "8"])).is_none());
}

#[test]
fn file_rows_keep_their_positions() {
    let rows = vec![
        row(&["a/one", "10", "1", "2", "0"]),
        row(&["short"]),
        row(&["b/two", "20", "2", "2", "2"]),
    ];
    let files = rtorrent_file_rows(&rows);
    let got: Vec<(u32, &str, u64)> = files.iter().map(|f| (f.file.index, f.file.name.as_str(), f.file.size)).collect();
    assert_eq!(got, vec![(0, "one", 10), (2, "two", 20)]);
    assert!(rtorrent_file_rows(&vec![]).is_empty());
}
