//! Netease Cloud Music: the reading of its album and artist answers.

use vstd::prelude::*;

use crate::text::{
    decimal, i64_to_string, millis_to_secs, owned, parse_i32, parse_signed, push_str,
    signed_decimal, trunc_div,
};
use crate::types::{AlbumDetail, AlbumSearchResult, ArtistCreditInfo, ArtistInfo, MetadataSource, TrackInfo};

verus! {

/// The UTC time `secs` seconds after the Unix epoch, formatted with
/// `pattern` by chrono, or `None` when chrono cannot represent that time.
pub uninterp spec fn utc_format(secs: i64, pattern: Seq<char>) -> Option<Seq<char>>;

/// `chrono::DateTime::<Utc>::from_timestamp(secs, 0)` formatted with
/// `DateTime::format` and written out. The result is named, not stated:
/// chrono's calendar and formatting are not written out here. Only the two
/// patterns that are used are admitted (a malformed one makes the writing
/// panic).
#[verifier::external_body]
fn format_utc_seconds(secs: i64, pattern: &str) -> (r: Option<String>)
    requires
        pattern@ == "%Y"@ || pattern@ == "%Y-%m-%d"@,
    ensures
        match utc_format(secs, pattern@) {
            Some(t) => r matches Some(s) && s@ == t,
            None => r is None,
        },
{
    match chrono::DateTime::from_timestamp(secs, 0) {
        Some(dt) => Some(dt.format(pattern).to_string()),
        None => None,
    }
}

/// The year of a publish time in milliseconds: chrono's four-digit year of
/// the time, read as a number.
pub open spec fn year_of_millis(ms: Option<i64>) -> Option<i32> {
    match ms {
        Some(t) => match utc_format(trunc_div(t as int, 1000) as i64, "%Y"@) {
            Some(y) => match parse_signed(y, i32::MIN as int, i32::MAX as int) {
                Some(v) => Some(v as i32),
                None => None,
            },
            None => None,
        },
        None => None,
    }
}

/// The date of a publish time in milliseconds, as `YYYY-MM-DD`.
pub open spec fn date_of_millis(ms: Option<i64>) -> Option<Seq<char>> {
    match ms {
        Some(t) => utc_format(trunc_div(t as int, 1000) as i64, "%Y-%m-%d"@),
        None => None,
    }
}

fn year_from_millis(ms: Option<i64>) -> (r: Option<i32>)
    ensures
        r == year_of_millis(ms),
{
    match ms {
        Some(t) => {
            let secs = millis_to_secs(t);
            match format_utc_seconds(secs, "%Y") {
                Some(y) => parse_i32(y.as_str()),
                None => None,
            }
        },
        None => None,
    }
}

fn date_from_millis(ms: Option<i64>) -> (r: Option<String>)
    ensures
        match date_of_millis(ms) {
            Some(d) => r matches Some(s) && s@ == d,
            None => r is None,
        },
{
    match ms {
        Some(t) => {
            let secs = millis_to_secs(t);
            format_utc_seconds(secs, "%Y-%m-%d")
        },
        None => None,
    }
}

/// The text of an optional field, empty when absent.
pub open spec fn text_or_empty(o: Option<String>) -> Seq<char> {
    match o {
        Some(s) => s@,
        None => seq![],
    }
}

fn string_or_empty(o: Option<String>) -> (r: String)
    ensures
        r@ == text_or_empty(o),
{
    match o {
        Some(s) => s,
        None => String::new(),
    }
}

/// The cover URL of a picture: the picture at 500 by 500.
pub open spec fn cover_of(pic: Option<String>) -> Option<Seq<char>> {
    match pic {
        Some(u) => Some(u@ + "?param=500y500"@),
        None => None,
    }
}

fn cover_url(pic: Option<String>) -> (r: Option<String>)
    ensures
        match cover_of(pic) {
            Some(c) => r matches Some(s) && s@ == c,
            None => r is None,
        },
{
    match pic {
        Some(u) => {
            let mut s = u;
            push_str(&mut s, "?param=500y500");
            Some(s)
        },
        None => None,
    }
}

/// An album as the search lists it.
#[derive(Debug, Clone)]
pub struct NeteaseAlbum {
    pub id: Option<i64>,
    pub name: Option<String>,
    pub artist_name: Option<String>,
    pub pic_url: Option<String>,
    pub publish_time: Option<i64>,
    pub size: Option<i64>,
}

/// The view of an optional string.
pub open spec fn opt_view(o: Option<String>) -> Option<Seq<char>> {
    match o {
        Some(s) => Some(s@),
        None => None,
    }
}

/// A search result from Netease: unscored, with absent texts empty and an
/// absent id 0.
pub fn netease_album_to_result(a: NeteaseAlbum) -> (r: AlbumSearchResult)
    ensures
        r.source == MetadataSource::Netease,
        r.external_id@ == signed_decimal(a.id.unwrap_or(0) as int),
        r.title@ == text_or_empty(a.name),
        r.artist@ == text_or_empty(a.artist_name),
        r.year == year_of_millis(a.publish_time),
        r.track_count == (match a.size {
            Some(n) => Some(n as i32),
            None => None,
        }),
        opt_view(r.cover_url) == cover_of(a.pic_url),
        r.score is None,
{
    let id = match a.id {
        Some(n) => n,
        None => 0,
    };
    let track_count = match a.size {
        Some(n) => Some(n as i32),
        None => None,
    };
    AlbumSearchResult {
        source: MetadataSource::Netease,
        external_id: i64_to_string(id),
        title: string_or_empty(a.name),
        artist: string_or_empty(a.artist_name),
        year: year_from_millis(a.publish_time),
        track_count,
        cover_url: cover_url(a.pic_url),
        score: None,
    }
}

/// The album part of an album detail answer.
#[derive(Debug, Clone)]
pub struct NeteaseAlbumDetail {
    pub name: Option<String>,
    pub artist_name: Option<String>,
    pub artist_id: Option<i64>,
    pub pic_url: Option<String>,
    pub publish_time: Option<i64>,
    pub album_type: Option<String>,
    pub size: Option<i64>,
    pub description: Option<String>,
}

/// A song of an album detail answer; `dt` is its length in milliseconds.
#[derive(Debug, Clone)]
pub struct NeteaseSong {
    pub name: Option<String>,
    pub dt: Option<i64>,
}

/// The track made of song `k` (counted from 0): numbered from 1, its
/// length in whole seconds.
pub open spec fn song_track(k: int, s: NeteaseSong, t: TrackInfo) -> bool {
    &&& t.number == (k + 1) as i32
    &&& t.title@ == text_or_empty(s.name)
    &&& t.duration == match s.dt {
        Some(ms) => Some(trunc_div(ms as int, 1000) as i32),
        None => None,
    }
}

/// The tracks of an album's songs, in order.
fn song_tracks(songs: Vec<NeteaseSong>) -> (r: Vec<TrackInfo>)
    ensures
        r@.len() == songs@.len(),
        forall|k: int| 0 <= k < songs@.len() ==> song_track(k, songs@[k], #[trigger] r@[k]),
{
    let mut tracks: Vec<TrackInfo> = Vec::new();
    let mut i: usize = 0;
    while i < songs.len()
        invariant
            i <= songs@.len(),
            tracks@.len() == i,
            forall|k: int| 0 <= k < i ==> song_track(k, songs@[k], #[trigger] tracks@[k]),
        decreases songs.len() - i,
    {
        let s = &songs[i];
        let title = match &s.name {
            Some(n) => n.clone(),
            None => String::new(),
        };
        let duration = match s.dt {
            Some(ms) => Some(millis_to_secs(ms) as i32),
            None => None,
        };
        tracks.push(TrackInfo { number: (i + 1) as i32, title, duration });
        i = i + 1;
    }
    tracks
}

/// An album detail from Netease: artist credited once, genres and disc
/// count unknown, every song a track.
pub fn netease_album_detail(
    album_id: &str,
    album: NeteaseAlbumDetail,
    songs: Vec<NeteaseSong>,
) -> (r: AlbumDetail)
    ensures
        r.source == MetadataSource::Netease,
        r.external_id@ == album_id@,
        r.title@ == text_or_empty(album.name),
        r.artist@ == text_or_empty(album.artist_name),
        opt_view(r.artist_external_id) == (match album.artist_id {
            Some(id) => Some(signed_decimal(id as int)),
            None => None,
        }),
        r.year == year_of_millis(album.publish_time),
        opt_view(r.release_date) == date_of_millis(album.publish_time),
        r.album_type == album.album_type,
        r.genres is None,
        r.total_tracks == (match album.size {
            Some(n) => Some(n as i32),
            None => None,
        }),
        r.total_discs is None,
        opt_view(r.cover_url) == cover_of(album.pic_url),
        r.overview == album.description,
        r.tracks matches Some(t) && t@.len() == songs@.len() && forall|k: int|
            0 <= k < songs@.len() ==> song_track(k, songs@[k], #[trigger] t@[k]),
        r.artist_credits@.len() == 1,
        r.artist_credits@[0].source == MetadataSource::Netease,
        r.artist_credits@[0].external_id@ == signed_decimal(album.artist_id.unwrap_or(0) as int),
        r.artist_credits@[0].name@ == text_or_empty(album.artist_name),
{
    let artist_name = string_or_empty(album.artist_name);
    let artist_id = match album.artist_id {
        Some(id) => Some(i64_to_string(id)),
        None => None,
    };
    let credit_id = match album.artist_id {
        Some(id) => i64_to_string(id),
        None => i64_to_string(0),
    };
    let total_tracks = match album.size {
        Some(n) => Some(n as i32),
        None => None,
    };
    let tracks = song_tracks(songs);
    let credit = ArtistCreditInfo {
        source: MetadataSource::Netease,
        external_id: credit_id,
        name: artist_name.clone(),
    };
    AlbumDetail {
        source: MetadataSource::Netease,
        external_id: owned(album_id),
        title: string_or_empty(album.name),
        artist: artist_name,
        artist_external_id: artist_id,
        year: year_from_millis(album.publish_time),
        release_date: date_from_millis(album.publish_time),
        album_type: album.album_type,
        genres: None,
        total_tracks,
        total_discs: None,
        cover_url: cover_url(album.pic_url),
        overview: album.description,
        tracks: Some(tracks),
        artist_credits: vec![credit],
    }
}

/// Artist information from Netease: genres unknown.
pub fn netease_artist_info(
    external_id: &str,
    name: Option<String>,
    pic_url: Option<String>,
    brief_desc: Option<String>,
) -> (r: ArtistInfo)
    ensures
        r.source == MetadataSource::Netease,
        r.external_id@ == external_id@,
        r.name@ == text_or_empty(name),
        r.profile_url == pic_url,
        r.biography == brief_desc,
        r.genres is None,
{
    ArtistInfo {
        source: MetadataSource::Netease,
        external_id: owned(external_id),
        name: string_or_empty(name),
        profile_url: pic_url,
        biography: brief_desc,
        genres: None,
    }
}

} // verus!
