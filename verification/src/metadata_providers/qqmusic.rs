//! QQ Music: the reading of its album and artist answers.

use vstd::prelude::*;

use crate::text::{before_char, i64_to_string, owned, parse_i32, parse_signed, prefix_before, push_str, signed_decimal};
use crate::types::{AlbumDetail, AlbumSearchResult, ArtistCreditInfo, ArtistInfo, MetadataSource, TrackInfo};

use super::netease::{opt_view, text_or_empty};

verus! {

fn string_or_empty(o: Option<String>) -> (r: String)
    ensures
        r@ == text_or_empty(o),
{
    match o {
        Some(s) => s,
        None => String::new(),
    }
}

/// The URL of the 500 by 500 cover of the album with MID `mid`.
pub open spec fn qq_cover(mid: Seq<char>) -> Seq<char> {
    "https://y.qq.com/music/photo_new/T002R500x500M000"@ + mid + ".jpg"@
}

fn qq_cover_url(mid: &str) -> (r: String)
    ensures
        r@ == qq_cover(mid@),
{
    let mut r = owned("https://y.qq.com/music/photo_new/T002R500x500M000");
    push_str(&mut r, mid);
    push_str(&mut r, ".jpg");
    r
}

/// A number read from text as an `i32`.
pub open spec fn i32_text(s: Seq<char>) -> Option<i32> {
    match parse_signed(s, i32::MIN as int, i32::MAX as int) {
        Some(v) => Some(v as i32),
        None => None,
    }
}

/// An album as the search lists it.
#[derive(Debug, Clone)]
pub struct QqAlbum {
    pub singer_name: Option<String>,
    pub album_mid: Option<String>,
    pub album_name: Option<String>,
    pub public_time: Option<String>,
    pub total: Option<i64>,
}

/// A search result from QQ Music: unscored, identified by the album MID
/// (empty when absent), with a cover only when there is a MID, and a year
/// when the publish time reads as a number.
pub fn qq_album_to_result(a: QqAlbum) -> (r: AlbumSearchResult)
    ensures
        r.source == MetadataSource::QQMusic,
        r.external_id@ == text_or_empty(a.album_mid),
        r.title@ == text_or_empty(a.album_name),
        r.artist@ == text_or_empty(a.singer_name),
        r.year == (match a.public_time {
            Some(t) => i32_text(t@),
            None => None,
        }),
        r.track_count == (match a.total {
            Some(n) => Some(n as i32),
            None => None,
        }),
        opt_view(r.cover_url) == (if text_or_empty(a.album_mid).len() == 0 {
            None
        } else {
            Some(qq_cover(text_or_empty(a.album_mid)))
        }),
        r.score is None,
{
    let mid = string_or_empty(a.album_mid);
    let cover_url = if mid.as_str().is_empty() {
        None
    } else {
        Some(qq_cover_url(mid.as_str()))
    };
    let year = match &a.public_time {
        Some(t) => parse_i32(t.as_str()),
        None => None,
    };
    let track_count = match a.total {
        Some(n) => Some(n as i32),
        None => None,
    };
    AlbumSearchResult {
        source: MetadataSource::QQMusic,
        external_id: mid,
        title: string_or_empty(a.album_name),
        artist: string_or_empty(a.singer_name),
        year,
        track_count,
        cover_url,
        score: None,
    }
}

/// The album part of an album detail answer.
#[derive(Debug, Clone)]
pub struct QqAlbumDetail {
    pub singername: Option<String>,
    pub albumname: Option<String>,
    pub a_date: Option<String>,
    pub total: Option<i64>,
    pub desc: Option<String>,
    pub singerid: Option<i64>,
}

/// A song of an album detail answer; `interval` is its length in seconds.
#[derive(Debug, Clone)]
pub struct QqSong {
    pub songname: Option<String>,
    pub interval: Option<i64>,
}

/// The track made of song `k` (counted from 0): numbered from 1.
pub open spec fn qq_song_track(k: int, s: QqSong, t: TrackInfo) -> bool {
    &&& t.number == (k + 1) as i32
    &&& t.title@ == text_or_empty(s.songname)
    &&& t.duration == match s.interval {
        Some(n) => Some(n as i32),
        None => None,
    }
}

fn qq_song_tracks(songs: Vec<QqSong>) -> (r: Vec<TrackInfo>)
    ensures
        r@.len() == songs@.len(),
        forall|k: int| 0 <= k < songs@.len() ==> qq_song_track(k, songs@[k], #[trigger] r@[k]),
{
    let mut tracks: Vec<TrackInfo> = Vec::new();
    let mut i: usize = 0;
    while i < songs.len()
        invariant
            i <= songs@.len(),
            tracks@.len() == i,
            forall|k: int| 0 <= k < i ==> qq_song_track(k, songs@[k], #[trigger] tracks@[k]),
        decreases songs.len() - i,
    {
        let s = &songs[i];
        let title = match &s.songname {
            Some(n) => n.clone(),
            None => String::new(),
        };
        let duration = match s.interval {
            Some(n) => Some(n as i32),
            None => None,
        };
        tracks.push(TrackInfo { number: (i + 1) as i32, title, duration });
        i = i + 1;
    }
    tracks
}

/// An album detail from QQ Music: the year is the part of the release date
/// before its first `-`, read as a number; the cover is always the one of
/// the album's MID; the singer is credited once.
pub fn qq_album_detail(album_mid: &str, album: QqAlbumDetail, songs: Vec<QqSong>) -> (r:
    AlbumDetail)
    ensures
        r.source == MetadataSource::QQMusic,
        r.external_id@ == album_mid@,
        r.title@ == text_or_empty(album.albumname),
        r.artist@ == text_or_empty(album.singername),
        r.artist_external_id is None,
        r.year == (match album.a_date {
            Some(d) => i32_text(before_char(d@, '-')),
            None => None,
        }),
        r.release_date == album.a_date,
        r.album_type is None,
        r.genres is None,
        r.total_tracks == (match album.total {
            Some(n) => Some(n as i32),
            None => None,
        }),
        r.total_discs is None,
        opt_view(r.cover_url) == Some(qq_cover(album_mid@)),
        r.overview == album.desc,
        r.tracks matches Some(t) && t@.len() == songs@.len() && forall|k: int|
            0 <= k < songs@.len() ==> qq_song_track(k, songs@[k], #[trigger] t@[k]),
        r.artist_credits@.len() == 1,
        r.artist_credits@[0].source == MetadataSource::QQMusic,
        r.artist_credits@[0].external_id@ == signed_decimal(album.singerid.unwrap_or(0) as int),
        r.artist_credits@[0].name@ == text_or_empty(album.singername),
{
    let artist_name = string_or_empty(album.singername);
    let year = match &album.a_date {
        Some(d) => {
            let first = prefix_before(d.as_str(), '-');
            parse_i32(first.as_str())
        },
        None => None,
    };
    let total_tracks = match album.total {
        Some(n) => Some(n as i32),
        None => None,
    };
    let credit_id = match album.singerid {
        Some(id) => i64_to_string(id),
        None => i64_to_string(0),
    };
    let tracks = qq_song_tracks(songs);
    let credit = ArtistCreditInfo {
        source: MetadataSource::QQMusic,
        external_id: credit_id,
        name: artist_name.clone(),
    };
    AlbumDetail {
        source: MetadataSource::QQMusic,
        external_id: owned(album_mid),
        title: string_or_empty(album.albumname),
        artist: artist_name,
        artist_external_id: None,
        year,
        release_date: album.a_date,
        album_type: None,
        genres: None,
        total_tracks,
        total_discs: None,
        cover_url: Some(qq_cover_url(album_mid)),
        overview: album.desc,
        tracks: Some(tracks),
        artist_credits: vec![credit],
    }
}

/// Artist information from QQ Music: no profile picture, genres unknown.
pub fn qq_artist_info(
    external_id: &str,
    singer_name: Option<String>,
    singer_desc: Option<String>,
) -> (r: ArtistInfo)
    ensures
        r.source == MetadataSource::QQMusic,
        r.external_id@ == external_id@,
        r.name@ == text_or_empty(singer_name),
        r.profile_url is None,
        r.biography == singer_desc,
        r.genres is None,
{
    ArtistInfo {
        source: MetadataSource::QQMusic,
        external_id: owned(external_id),
        name: string_or_empty(singer_name),
        profile_url: None,
        biography: singer_desc,
        genres: None,
    }
}

} // verus!
