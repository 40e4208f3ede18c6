use std::str::FromStr;

use tokimo_client_api::error::ClientError;
use tokimo_client_api::metadata_providers::lyrics::{
    first_lyrics_source, lrc_plain_text, lrc_to_lyrics, next_lyrics_step, LyricsSource, LyricsStep,
};
use tokimo_client_api::metadata_providers::netease::{
    netease_album_detail, netease_album_to_result, netease_artist_info, NeteaseAlbum,
    NeteaseAlbumDetail, NeteaseSong,
};
use tokimo_client_api::metadata_providers::qqmusic::{
    qq_album_detail, qq_album_to_result, qq_artist_info, QqAlbum, QqAlbumDetail, QqSong,
};
use tokimo_client_api::metadata_providers::registry::{merge_by_provider, merge_by_score};
use tokimo_client_api::metadata_providers::selector::{is_cjk, normalize};
use tokimo_client_api::metadata_providers::{
    combined_keyword, MusicMetadataProvider, ProviderRegistry, ProviderSelector,
};
use tokimo_client_api::types::{AlbumSearchResult, LyricsResult, MetadataSource};

const ALL: [MetadataSource; 5] = [
    MetadataSource::MusicBrainz,
    MetadataSource::Netease,
    MetadataSource::QQMusic,
    MetadataSource::LastFm,
    MetadataSource::Spotify,
];

fn result(source: MetadataSource, title: &str, artist: &str, score: Option<i32>) -> AlbumSearchResult {
    AlbumSearchResult {
        source,
        external_id: format!("{title}-{artist}"),
        title: title.to_string(),
        artist: artist.to_string(),
        year: None,
        track_count: None,
        cover_url: None,
        score,
    }
}

#[test]
fn source_names_round_trip() {
    for s in ALL {
        let name = s.to_string();
        assert_eq!(MetadataSource::from_name(&name), Ok(s));
        assert_eq!(MetadataSource::from_str(&name), Ok(s));
    }
    assert_eq!(MetadataSource::QQMusic.to_string(), "qqmusic");
    assert_eq!(MetadataSource::MusicBrainz.to_string(), "musicbrainz");
}

#[test]
fn unknown_source_name_is_an_error() {
    assert_eq!(
        MetadataSource::from_name("deezer"),
        Err("unknown metadata source: deezer".to_string())
    );
    assert!(MetadataSource::from_name("Netease").is_err());
    assert!(MetadataSource::from_name("").is_err());
}

#[test]
fn selector_presets() {
    let d = ProviderSelector::new();
    assert_eq!(d.country, None);
    assert_eq!(d.language, None);
    assert_eq!(
        d.source_priority,
        vec![
            MetadataSource::Netease,
            MetadataSource::QQMusic,
            MetadataSource::MusicBrainz,
            MetadataSource::LastFm,
            MetadataSource::Spotify
        ]
    );
    let c = ProviderSelector::chinese();
    assert_eq!(c.country.as_deref(), Some("CN"));
    assert_eq!(c.language.as_deref(), Some("zh"));
    assert_eq!(c.source_priority.len(), 4);
    let w = ProviderSelector::western();
    assert_eq!(w.country.as_deref(), Some("US"));
    assert_eq!(w.language.as_deref(), Some("en"));
    assert_eq!(w.source_priority[0], MetadataSource::MusicBrainz);
    assert_eq!(ProviderSelector::default().source_priority, d.source_priority);
}

#[test]
fn auto_detect_picks_by_script() {
    assert_eq!(ProviderSelector::auto_detect("周杰伦", "范特西").country.as_deref(), Some("CN"));
    assert_eq!(ProviderSelector::auto_detect("Taylor Swift", "1989").country.as_deref(), Some("US"));
    assert_eq!(ProviderSelector::auto_detect("YOASOBI", "アイドル").country.as_deref(), Some("CN"));
    assert_eq!(ProviderSelector::auto_detect("", "").country.as_deref(), Some("US"));
}

#[test]
fn cjk_ranges() {
    assert!(is_cjk('中'));
    assert!(is_cjk('あ'));
    assert!(is_cjk('カ'));
    assert!(is_cjk('한'));
    assert!(is_cjk('\u{3000}'));
    assert!(!is_cjk('a'));
    assert!(!is_cjk('é'));
    assert!(!is_cjk('\u{2fff}'));
}

#[test]
fn normalize_keeps_lowercased_alphanumerics() {
    assert_eq!(normalize("Hello, World!"), "helloworld");
    assert_eq!(normalize("AC/DC - Back In Black"), "acdcbackinblack");
    assert_eq!(normalize("周杰伦 Jay"), "周杰伦jay");
    assert_eq!(normalize("ÉCOLE"), "école");
    assert_eq!(normalize("  ...  "), "");
}

#[test]
fn select_best_prefers_exact_match() {
    let s = ProviderSelector::western();
    let cands = vec![
        result(MetadataSource::Netease, "Back in Black (Live)", "AC/DC", None),
        result(MetadataSource::MusicBrainz, "Back In Black", "AC/DC", None),
    ];
    let best = s.select_best(&cands, "AC/DC", "back in black", None).unwrap();
    assert_eq!(best.source, MetadataSource::MusicBrainz);
}

#[test]
fn select_best_empty_and_threshold() {
    let s = ProviderSelector::new();
    assert!(s.select_best(&[], "a", "b", None).is_none());
    // A source that is not listed gets no bonus; nothing matches: score 0 < 50.
    let w = ProviderSelector::western();
    let cands = vec![result(MetadataSource::QQMusic, "zzz", "yyy", None)];
    assert!(w.select_best(&cands, "artist", "album", None).is_none());
    // Its own score can carry it over the threshold.
    let cands = vec![result(MetadataSource::QQMusic, "zzz", "yyy", Some(50))];
    assert!(w.select_best(&cands, "artist", "album", None).is_some());
    let cands = vec![result(MetadataSource::QQMusic, "zzz", "yyy", Some(49))];
    assert!(w.select_best(&cands, "artist", "album", None).is_none());
}

#[test]
fn select_best_ties_go_to_the_last() {
    let s = ProviderSelector::western();
    let mut a = result(MetadataSource::MusicBrainz, "X", "Y", None);
    a.external_id = "first".to_string();
    let mut b = a.clone();
    b.external_id = "second".to_string();
    let best = s.select_best(&[a, b], "Y", "X", None).unwrap();
    assert_eq!(best.external_id, "second");
}

#[test]
fn select_best_track_count_bonus() {
    let s = ProviderSelector { country: None, language: None, source_priority: vec![] };
    // Title contained (100) but with two different artists; the track count decides.
    let mut a = result(MetadataSource::Netease, "Album Deluxe", "Other", None);
    a.track_count = Some(12);
    a.external_id = "a".to_string();
    let mut b = result(MetadataSource::Netease, "Album Deluxe", "Other", None);
    b.track_count = Some(20);
    b.external_id = "b".to_string();
    let best = s.select_best(&[a, b], "Artist", "Album", Some(11)).unwrap();
    assert_eq!(best.external_id, "a");
}

#[test]
fn select_best_source_priority_bonus() {
    let s = ProviderSelector::new();
    // Equal text matches: the earlier source in the priority list wins.
    let a = result(MetadataSource::Spotify, "Song", "Band", None);
    let b = result(MetadataSource::Netease, "Song", "Band", None);
    let best = s.select_best(&[b, a], "Band", "Song", None).unwrap();
    assert_eq!(best.source, MetadataSource::Netease);
}

struct Fake(MetadataSource, &'static str);

impl MusicMetadataProvider for Fake {
    fn source_spec(&self) -> MetadataSource {
        self.0
    }

    fn source(&self) -> MetadataSource {
        self.0
    }
}

#[test]
fn registry_register_sources_get() {
    let mut r: ProviderRegistry<Fake> = ProviderRegistry::new();
    assert!(r.sources().is_empty());
    r.register(Fake(MetadataSource::Netease, "n1"));
    r.register(Fake(MetadataSource::QQMusic, "q"));
    r.register(Fake(MetadataSource::Netease, "n2"));
    assert_eq!(
        r.sources(),
        vec![MetadataSource::Netease, MetadataSource::QQMusic, MetadataSource::Netease]
    );
    assert_eq!(r.get(&MetadataSource::Netease).unwrap().1, "n1");
    assert_eq!(r.get(&MetadataSource::QQMusic).unwrap().1, "q");
    assert!(r.get(&MetadataSource::Spotify).is_none());
}

#[test]
fn registry_missing_provider_error() {
    let r: ProviderRegistry<Fake> = ProviderRegistry::default();
    match r.provider_for(&MetadataSource::Spotify) {
        Err(ClientError::Other(m)) => assert_eq!(m, "provider not found: spotify"),
        _ => panic!("expected an error"),
    }
}

#[test]
fn merged_results_sorted_and_stable() {
    let batches = vec![
        vec![
            result(MetadataSource::Netease, "a", "x", Some(10)),
            result(MetadataSource::Netease, "b", "x", None),
            result(MetadataSource::Netease, "c", "x", Some(30)),
        ],
        vec![],
        vec![
            result(MetadataSource::QQMusic, "d", "x", Some(10)),
            result(MetadataSource::QQMusic, "e", "x", Some(0)),
        ],
    ];
    let merged = merge_by_score(&batches);
    let titles: Vec<&str> = merged.iter().map(|r| r.title.as_str()).collect();
    assert_eq!(titles, vec!["c", "a", "d", "b", "e"]);
}

#[test]
fn merged_by_provider_keeps_registration_order() {
    let batches = vec![
        vec![result(MetadataSource::Netease, "a", "x", Some(0))],
        vec![result(MetadataSource::QQMusic, "b", "x", Some(10))],
    ];
    let merged = merge_by_provider(&batches);
    let titles: Vec<&str> = merged.iter().map(|r| r.title.as_str()).collect();
    assert_eq!(titles, vec!["a", "b"]);

    let batches = vec![
        vec![
            result(MetadataSource::Netease, "a", "x", Some(10)),
            result(MetadataSource::Netease, "b", "x", None),
            result(MetadataSource::Netease, "c", "x", Some(30)),
            result(MetadataSource::Netease, "d", "x", Some(10)),
        ],
        vec![],
        vec![
            result(MetadataSource::QQMusic, "e", "x", Some(0)),
            result(MetadataSource::QQMusic, "f", "x", Some(99)),
        ],
    ];
    let merged = merge_by_provider(&batches);
    let titles: Vec<&str> = merged.iter().map(|r| r.title.as_str()).collect();
    assert_eq!(titles, vec!["c", "a", "d", "b", "f", "e"]);
    assert!(merge_by_provider(&vec![]).is_empty());
}

#[test]
fn combined_keyword_joins_with_space() {
    assert_eq!(combined_keyword("Artist", "Album"), "Artist Album");
}

#[test]
fn lrc_plain_text_drops_timestamps() {
    let raw = "[00:00.00]Intro\r\n[00:01.00]  Hello  \n[00:02.00]   \nno stamp\n[00:03.00][00:04.00]Twice\n";
    assert_eq!(lrc_plain_text(raw), "Intro\nHello\nno stamp\n[00:04.00]Twice");
}

#[test]
fn lrc_to_lyrics_cases() {
    assert!(lrc_to_lyrics("").is_none());
    let l = lrc_to_lyrics("[00:01.00]Hi").unwrap();
    assert_eq!(l.synced_lyrics.as_deref(), Some("[00:01.00]Hi"));
    assert_eq!(l.plain_lyrics.as_deref(), Some("Hi"));
    assert!(!l.instrumental);
    let p = lrc_to_lyrics("just words").unwrap();
    assert_eq!(p.synced_lyrics, None);
    assert_eq!(p.plain_lyrics.as_deref(), Some("just words"));
}

#[test]
fn lyrics_sources_in_order() {
    let empty = LyricsResult { synced_lyrics: None, plain_lyrics: None, instrumental: false };
    let full = LyricsResult { synced_lyrics: None, plain_lyrics: Some("x".to_string()), instrumental: false };
    let s = first_lyrics_source();
    assert_eq!(s, LyricsSource::LrcLib);
    match next_lyrics_step(s, Some(empty.clone())) {
        LyricsStep::Try(n) => assert_eq!(n, LyricsSource::QQMusic),
        _ => panic!(),
    }
    // QQ Music's answer is taken as it is.
    match next_lyrics_step(LyricsSource::QQMusic, Some(empty.clone())) {
        LyricsStep::Accept(l) => assert!(l.plain_lyrics.is_none()),
        _ => panic!(),
    }
    match next_lyrics_step(LyricsSource::QQMusic, None) {
        LyricsStep::Try(n) => assert_eq!(n, LyricsSource::Netease),
        _ => panic!(),
    }
    match next_lyrics_step(LyricsSource::Netease, Some(full)) {
        LyricsStep::Accept(l) => assert_eq!(l.plain_lyrics.as_deref(), Some("x")),
        _ => panic!(),
    }
    assert!(matches!(next_lyrics_step(LyricsSource::Netease, Some(empty)), LyricsStep::GiveUp));
    assert!(matches!(next_lyrics_step(LyricsSource::Netease, None), LyricsStep::GiveUp));
}

#[test]
fn netease_search_result_mapping() {
    let r = netease_album_to_result(NeteaseAlbum {
        id: Some(123),
        name: Some("范特西".to_string()),
        artist_name: Some("周杰伦".to_string()),
        pic_url: Some("http://p.music/1.jpg".to_string()),
        publish_time: Some(1_000_000_000_000),
        size: Some(10),
    });
    assert_eq!(r.source, MetadataSource::Netease);
    assert_eq!(r.external_id, "123");
    assert_eq!(r.title, "范特西");
    assert_eq!(r.artist, "周杰伦");
    assert_eq!(r.year, Some(2001));
    assert_eq!(r.track_count, Some(10));
    assert_eq!(r.cover_url.as_deref(), Some("http://p.music/1.jpg?param=500y500"));
    assert_eq!(r.score, None);
    let e = netease_album_to_result(NeteaseAlbum {
        id: None, name: None, artist_name: None, pic_url: None, publish_time: None, size: None,
    });
    assert_eq!(e.external_id, "0");
    assert_eq!(e.title, "");
    assert_eq!(e.year, None);
    assert_eq!(e.cover_url, None);
}

#[test]
fn netease_detail_mapping() {
    let d = netease_album_detail(
        "42",
        NeteaseAlbumDetail {
            name: Some("A".to_string()),
            artist_name: Some("B".to_string()),
            artist_id: Some(7),
            pic_url: None,
            publish_time: Some(1_609_459_200_000),
            album_type: Some("EP".to_string()),
            size: Some(2),
            description: Some("desc".to_string()),
        },
        vec![
            NeteaseSong { name: Some("one".to_string()), dt: Some(201_999) },
            NeteaseSong { name: None, dt: None },
        ],
    );
    assert_eq!(d.external_id, "42");
    assert_eq!(d.year, Some(2021));
    assert_eq!(d.release_date.as_deref(), Some("2021-01-01"));
    assert_eq!(d.artist_external_id.as_deref(), Some("7"));
    assert_eq!(d.album_type.as_deref(), Some("EP"));
    assert_eq!(d.total_tracks, Some(2));
    let t = d.tracks.unwrap();
    assert_eq!(t.len(), 2);
    assert_eq!((t[0].number, t[0].title.as_str(), t[0].duration), (1, "one", Some(201)));
    assert_eq!((t[1].number, t[1].title.as_str(), t[1].duration), (2, "", None));
    assert_eq!(d.artist_credits.len(), 1);
    assert_eq!(d.artist_credits[0].external_id, "7");
    assert_eq!(d.artist_credits[0].name, "B");
}

#[test]
fn netease_negative_publish_time() {
    // -1500 ms rounds toward zero to -1 s: the last second of 1969.
    let r = netease_album_to_result(NeteaseAlbum {
        id: Some(-5), name: None, artist_name: None, pic_url: None, publish_time: Some(-1500), size: None,
    });
    assert_eq!(r.year, Some(1969));
    assert_eq!(r.external_id, "-5");
}

#[test]
fn netease_artist_mapping() {
    let a = netease_artist_info("9", Some("N".to_string()), Some("u".to_string()), None);
    assert_eq!((a.external_id.as_str(), a.name.as_str()), ("9", "N"));
    assert_eq!(a.profile_url.as_deref(), Some("u"));
    assert_eq!(a.biography, None);
}

#[test]
fn qq_search_result_mapping() {
    let r = qq_album_to_result(QqAlbum {
        singer_name: Some("S".to_string()),
        album_mid: Some("003abc".to_string()),
        album_name: Some("T".to_string()),
        public_time: Some("2019".to_string()),
        total: Some(12),
    });
    assert_eq!(r.external_id, "003abc");
    assert_eq!(r.year, Some(2019));
    assert_eq!(
        r.cover_url.as_deref(),
        Some("https://y.qq.com/music/photo_new/T002R500x500M000003abc.jpg")
    );
    let e = qq_album_to_result(QqAlbum {
        singer_name: None,
        album_mid: None,
        album_name: None,
        public_time: Some("2019-01-01".to_string()),
        total: None,
    });
    assert_eq!(e.cover_url, None);
    assert_eq!(e.year, None);
}

#[test]
fn qq_detail_mapping() {
    let d = qq_album_detail(
        "mid1",
        QqAlbumDetail {
            singername: Some("Singer".to_string()),
            albumname: Some("Album".to_string()),
            a_date: Some("2008-07-15".to_string()),
            total: Some(1),
            desc: None,
            singerid: None,
        },
        vec![QqSong { songname: Some("s".to_string()), interval: Some(240) }],
    );
    assert_eq!(d.year, Some(2008));
    assert_eq!(d.release_date.as_deref(), Some("2008-07-15"));
    assert_eq!(
        d.cover_url.as_deref(),
        Some("https://y.qq.com/music/photo_new/T002R500x500M000mid1.jpg")
    );
    let t = d.tracks.unwrap();
    assert_eq!((t[0].number, t[0].duration), (1, Some(240)));
    assert_eq!(d.artist_credits[0].external_id, "0");
    let a = qq_artist_info("x", None, Some("bio".to_string()));
    assert_eq!(a.name, "");
    assert_eq!(a.biography.as_deref(), Some("bio"));
    assert_eq!(a.profile_url, None);
}
