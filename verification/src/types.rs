//! Multi-source music metadata types.

use vstd::prelude::*;

use crate::text::{chars_of, chars_equal, owned, push_str};

verus! {

/// Metadata source identifier.
#[derive(Debug, Clone, Copy, PartialEq, Eq, Hash, Structural)]
pub enum MetadataSource {
    MusicBrainz,
    Netease,
    QQMusic,
    LastFm,
    Spotify,
}

impl MetadataSource {
    /// The lower-case name under which the source is written and read back.
    pub open spec fn name(self) -> Seq<char> {
        match self {
            MetadataSource::MusicBrainz => "musicbrainz"@,
            MetadataSource::Netease => "netease"@,
            MetadataSource::QQMusic => "qqmusic"@,
            MetadataSource::LastFm => "lastfm"@,
            MetadataSource::Spotify => "spotify"@,
        }
    }

    /// The source whose name is `s`, if any.
    pub open spec fn named(s: Seq<char>) -> Option<MetadataSource> {
        if s == "musicbrainz"@ {
            Some(MetadataSource::MusicBrainz)
        } else if s == "netease"@ {
            Some(MetadataSource::Netease)
        } else if s == "qqmusic"@ {
            Some(MetadataSource::QQMusic)
        } else if s == "lastfm"@ {
            Some(MetadataSource::LastFm)
        } else if s == "spotify"@ {
            Some(MetadataSource::Spotify)
        } else {
            None
        }
    }

    /// The message of the error for an unknown name.
    pub open spec fn unknown_message(s: Seq<char>) -> Seq<char> {
        "unknown metadata source: "@ + s
    }

    /// The source's name (what `Display` writes).
    pub fn to_string(&self) -> (r: String)
        ensures
            r@ == self.name(),
    {
        match self {
            MetadataSource::MusicBrainz => owned("musicbrainz"),
            MetadataSource::Netease => owned("netease"),
            MetadataSource::QQMusic => owned("qqmusic"),
            MetadataSource::LastFm => owned("lastfm"),
            MetadataSource::Spotify => owned("spotify"),
        }
    }

    /// Reads a source back from its name; any other text is an error that
    /// names it.
    pub fn from_name(s: &str) -> (r: Result<MetadataSource, String>)
        ensures
            r matches Ok(m) ==> MetadataSource::named(s@) == Some(m),
            r matches Err(e) ==> MetadataSource::named(s@) is None && e@
                == MetadataSource::unknown_message(s@),
    {
        let v = chars_of(s);
        if chars_equal(&v, &chars_of("musicbrainz")) {
            Ok(MetadataSource::MusicBrainz)
        } else if chars_equal(&v, &chars_of("netease")) {
            Ok(MetadataSource::Netease)
        } else if chars_equal(&v, &chars_of("qqmusic")) {
            Ok(MetadataSource::QQMusic)
        } else if chars_equal(&v, &chars_of("lastfm")) {
            Ok(MetadataSource::LastFm)
        } else if chars_equal(&v, &chars_of("spotify")) {
            Ok(MetadataSource::Spotify)
        } else {
            let mut e = owned("unknown metadata source: ");
            push_str(&mut e, s);
            Err(e)
        }
    }
}

/// Reading back the name of a source gives that source.
pub proof fn lemma_source_name_roundtrip(m: MetadataSource)
    ensures
        MetadataSource::named(m.name()) == Some(m),
{
    reveal_strlit("musicbrainz");
    reveal_strlit("netease");
    reveal_strlit("qqmusic");
    reveal_strlit("lastfm");
    reveal_strlit("spotify");
    let mb = "musicbrainz"@;
    let ne = "netease"@;
    let qq = "qqmusic"@;
    let lf = "lastfm"@;
    let sp = "spotify"@;
    assert(mb.len() == 11 && ne.len() == 7 && qq.len() == 7 && lf.len() == 6 && sp.len() == 7);
    assert(ne[0] == 'n' && qq[0] == 'q' && sp[0] == 's');
    assert(ne != mb);
    assert(qq != mb && qq != ne);
    assert(lf != mb && lf != ne && lf != qq);
    assert(sp != mb && sp != ne && sp != qq && sp != lf);
}

/// Two sources with the same name are the same source.
pub proof fn lemma_source_name_injective(a: MetadataSource, b: MetadataSource)
    ensures
        a.name() == b.name() ==> a == b,
{
    lemma_source_name_roundtrip(a);
    lemma_source_name_roundtrip(b);
}

impl std::str::FromStr for MetadataSource {
    type Err = String;

    fn from_str(s: &str) -> (r: Result<MetadataSource, String>)
        ensures
            r matches Ok(m) ==> MetadataSource::named(s@) == Some(m),
            r matches Err(e) ==> MetadataSource::named(s@) is None && e@
                == MetadataSource::unknown_message(s@),
    {
        MetadataSource::from_name(s)
    }
}

/// An owned copy of an optional string.
pub fn clone_opt_string(o: &Option<String>) -> (r: Option<String>)
    ensures
        r == *o,
{
    match o {
        Some(s) => Some(s.clone()),
        None => None,
    }
}

/// Unified album search result from any metadata source.
#[derive(Debug, Clone)]
pub struct AlbumSearchResult {
    pub source: MetadataSource,
    pub external_id: String,
    pub title: String,
    pub artist: String,
    pub year: Option<i32>,
    pub track_count: Option<i32>,
    pub cover_url: Option<String>,
    /// Match confidence 0-100.
    pub score: Option<i32>,
}

impl AlbumSearchResult {
    /// A field-by-field copy.
    pub fn duplicate(&self) -> (r: AlbumSearchResult)
        ensures
            r == *self,
    {
        AlbumSearchResult {
            source: self.source,
            external_id: self.external_id.clone(),
            title: self.title.clone(),
            artist: self.artist.clone(),
            year: self.year,
            track_count: self.track_count,
            cover_url: clone_opt_string(&self.cover_url),
            score: self.score,
        }
    }
}

/// Unified album detail from any metadata source.
#[derive(Debug, Clone)]
pub struct AlbumDetail {
    pub source: MetadataSource,
    pub external_id: String,
    pub title: String,
    pub artist: String,
    pub artist_external_id: Option<String>,
    pub year: Option<i32>,
    pub release_date: Option<String>,
    pub album_type: Option<String>,
    pub genres: Option<Vec<String>>,
    pub total_tracks: Option<i32>,
    pub total_discs: Option<i32>,
    pub cover_url: Option<String>,
    pub overview: Option<String>,
    pub tracks: Option<Vec<TrackInfo>>,
    pub artist_credits: Vec<ArtistCreditInfo>,
}

/// Unified track info from any metadata source.
#[derive(Debug, Clone)]
pub struct TrackInfo {
    pub number: i32,
    pub title: String,
    pub duration: Option<i32>,
}

/// Unified artist credit info.
#[derive(Debug, Clone)]
pub struct ArtistCreditInfo {
    pub source: MetadataSource,
    pub external_id: String,
    pub name: String,
}

/// Unified artist info from any metadata source.
#[derive(Debug, Clone)]
pub struct ArtistInfo {
    pub source: MetadataSource,
    pub external_id: String,
    pub name: String,
    pub profile_url: Option<String>,
    pub biography: Option<String>,
    pub genres: Option<Vec<String>>,
}

/// Adult series video item from prefix search.
#[derive(Debug, Clone)]
pub struct AdultSeriesVideo {
    pub video_id: String,
    pub title: Option<String>,
    pub poster_url: Option<String>,
    pub release_date: Option<String>,
}

/// Individual artist credit (name + `MusicBrainz` artist ID).
#[derive(Debug, Clone)]
pub struct ArtistCredit {
    pub name: String,
    pub mb_id: String,
}

/// Music release match candidate from `MusicBrainz` search.
#[derive(Debug, Clone)]
pub struct MusicMatchCandidate {
    pub mb_release_id: String,
    pub title: String,
    pub artist: String,
    pub year: Option<i32>,
    pub track_count: Option<i32>,
    pub country: Option<String>,
    pub format: Option<String>,
    pub score: Option<i32>,
}

/// Music release detail from `MusicBrainz`.
#[derive(Debug, Clone)]
pub struct MusicMatchDetail {
    pub mb_release_id: String,
    pub mb_release_group_id: Option<String>,
    pub title: String,
    pub artist: String,
    pub artist_mb_id: Option<String>,
    pub year: Option<i32>,
    pub release_date: Option<String>,
    pub album_type: Option<String>,
    pub genres: Option<Vec<String>>,
    pub total_tracks: Option<i32>,
    pub total_discs: Option<i32>,
    pub cover_url: Option<String>,
    pub overview: Option<String>,
    pub spotify_id: Option<String>,
    pub tracks: Option<Vec<MusicTrack>>,
    /// Individual artist credits — one entry per artist.
    pub artist_credits: Vec<ArtistCredit>,
}

/// Track info within a music release.
#[derive(Debug, Clone)]
pub struct MusicTrack {
    pub number: i32,
    pub title: String,
    pub duration: Option<i32>,
}

/// Lyrics result from LRCLIB.
#[derive(Debug, Clone)]
pub struct LyricsResult {
    /// Synced lyrics in .lrc format (with timestamps).
    pub synced_lyrics: Option<String>,
    /// Plain text lyrics.
    pub plain_lyrics: Option<String>,
    /// Whether this is an instrumental track.
    pub instrumental: bool,
}

} // verus!
