//! Provider selector — chooses the best search result based on context.

use vstd::prelude::*;

use crate::text::{
    lemma_find_from, occurs_at, ascii_alphanumeric, ascii_lowercase, chars_equal, chars_of, contains_seq, find, is_alphanumeric, lowercase_head, owned, push_char,
    unicode_alphanumeric, unicode_lowercase_head,
};
use crate::types::{AlbumSearchResult, MetadataSource};

verus! {

/// Strategy for selecting the best metadata match.
///
/// Uses library configuration (country, language, source priority)
/// and match quality signals (title similarity, artist match, track count)
/// to pick the best result from multiple providers.
pub struct ProviderSelector {
    /// Library country (e.g., "CN", "US", "JP").
    pub country: Option<String>,
    /// Library language preference (e.g., "zh", "en", "ja").
    pub language: Option<String>,
    /// Ordered list of preferred metadata sources.
    pub source_priority: Vec<MetadataSource>,
}

/// The mathematical content of a [`ProviderSelector`].
pub struct SelectorView {
    pub country: Option<Seq<char>>,
    pub language: Option<Seq<char>>,
    pub source_priority: Seq<MetadataSource>,
}

/// The view of an optional string.
pub open spec fn opt_view(o: Option<String>) -> Option<Seq<char>> {
    match o {
        Some(s) => Some(s@),
        None => None,
    }
}

impl View for ProviderSelector {
    type V = SelectorView;

    open spec fn view(&self) -> SelectorView {
        SelectorView {
            country: opt_view(self.country),
            language: opt_view(self.language),
            source_priority: self.source_priority@,
        }
    }
}

/// The default strategy: no country or language, Chinese sources first.
pub open spec fn default_strategy() -> SelectorView {
    SelectorView {
        country: None,
        language: None,
        source_priority: seq![
            MetadataSource::Netease,
            MetadataSource::QQMusic,
            MetadataSource::MusicBrainz,
            MetadataSource::LastFm,
            MetadataSource::Spotify,
        ],
    }
}

/// The strategy for Chinese music.
pub open spec fn chinese_strategy() -> SelectorView {
    SelectorView {
        country: Some("CN"@),
        language: Some("zh"@),
        source_priority: seq![
            MetadataSource::Netease,
            MetadataSource::QQMusic,
            MetadataSource::MusicBrainz,
            MetadataSource::LastFm,
        ],
    }
}

/// The strategy for Western music.
pub open spec fn western_strategy() -> SelectorView {
    SelectorView {
        country: Some("US"@),
        language: Some("en"@),
        source_priority: seq![
            MetadataSource::MusicBrainz,
            MetadataSource::LastFm,
            MetadataSource::Spotify,
            MetadataSource::Netease,
        ],
    }
}

// ── Text normalisation ──────────────────────────────────────────────────────

/// `s` lower-cased with everything but letters and digits removed.
pub open spec fn normalized(s: Seq<char>) -> Seq<char>
    decreases s.len(),
{
    if s.len() == 0 {
        seq![]
    } else if unicode_alphanumeric(s.last()) {
        normalized(s.drop_last()).push(unicode_lowercase_head(s.last()))
    } else {
        normalized(s.drop_last())
    }
}

/// Every character of `s` is ASCII.
pub open spec fn all_ascii(s: Seq<char>) -> bool {
    forall|i: int| 0 <= i < s.len() ==> (#[trigger] s[i] as u32) < 128
}

/// [`normalized`] on ASCII text: the letters and digits, lower-cased.
pub open spec fn ascii_normalized(s: Seq<char>) -> Seq<char>
    decreases s.len(),
{
    if s.len() == 0 {
        seq![]
    } else if ascii_alphanumeric(s.last()) {
        ascii_normalized(s.drop_last()).push(ascii_lowercase(s.last()))
    } else {
        ascii_normalized(s.drop_last())
    }
}

/// The normalised characters of `s`.
pub fn normalize_chars(s: &str) -> (r: Vec<char>)
    ensures
        r@ == normalized(s@),
        all_ascii(s@) ==> r@ == ascii_normalized(s@),
{
    let v = chars_of(s);
    let mut out: Vec<char> = Vec::new();
    let mut i: usize = 0;
    while i < v.len()
        invariant
            i <= v@.len(),
            v@ == s@,
            out@ == normalized(v@.take(i as int)),
            all_ascii(s@) ==> out@ == ascii_normalized(v@.take(i as int)),
        decreases v.len() - i,
    {
        let c = v[i];
        proof {
            let t = v@.take(i + 1);
            assert(t.drop_last() =~= v@.take(i as int));
            assert(t.last() == c);
            if all_ascii(s@) {
                assert((s@[i as int] as u32) < 128);
            }
        }
        if is_alphanumeric(c) {
            match lowercase_head(c) {
                Some(l) => out.push(l),
                None => {},
            }
        }
        i = i + 1;
    }
    assert(v@.take(v@.len() as int) =~= v@);
    out
}

/// Normalize a string for fuzzy matching: lowercase, alphanumeric only.
pub fn normalize(s: &str) -> (r: String)
    ensures
        r@ == normalized(s@),
        all_ascii(s@) ==> r@ == ascii_normalized(s@),
{
    let v = normalize_chars(s);
    let mut r = String::new();
    let mut i: usize = 0;
    while i < v.len()
        invariant
            i <= v@.len(),
            r@ == v@.take(i as int),
        decreases v.len() - i,
    {
        push_char(&mut r, v[i]);
        i = i + 1;
        assert(r@ =~= v@.take(i as int));
    }
    assert(v@.take(v@.len() as int) =~= v@);
    r
}

/// `c` lies in one of the CJK blocks: unified ideographs and extension A,
/// compatibility ideographs, symbols and punctuation, kana, and hangul.
pub open spec fn cjk(c: char) -> bool {
    let u = c as u32;
    (0x4e00 <= u && u <= 0x9fff) || (0x3400 <= u && u <= 0x4dbf) || (0xf900 <= u && u <= 0xfaff)
        || (0x3000 <= u && u <= 0x303f) || (0x3040 <= u && u <= 0x309f) || (0x30a0 <= u && u
        <= 0x30ff) || (0xac00 <= u && u <= 0xd7af)
}

/// Check if a character is CJK (Chinese, Japanese, Korean).
pub fn is_cjk(c: char) -> (r: bool)
    ensures
        r == cjk(c),
{
    let u = c as u32;
    (0x4e00 <= u && u <= 0x9fff) || (0x3400 <= u && u <= 0x4dbf) || (0xf900 <= u && u <= 0xfaff)
        || (0x3000 <= u && u <= 0x303f) || (0x3040 <= u && u <= 0x309f) || (0x30a0 <= u && u
        <= 0x30ff) || (0xac00 <= u && u <= 0xd7af)
}

/// Whether any character of `s` is CJK.
fn any_cjk(s: &str) -> (r: bool)
    ensures
        r == exists|i: int| 0 <= i < s@.len() && cjk(#[trigger] s@[i]),
{
    let v = chars_of(s);
    let mut i: usize = 0;
    while i < v.len()
        invariant
            v@ == s@,
            i <= v@.len(),
            forall|j: int| 0 <= j < i ==> !cjk(#[trigger] v@[j]),
        decreases v.len() - i,
    {
        if is_cjk(v[i]) {
            return true;
        }
        i = i + 1;
    }
    false
}

// ── Scoring ─────────────────────────────────────────────────────────────────

/// The first position at or after `i` where `s` appears in `p`.
pub open spec fn position_from(p: Seq<MetadataSource>, s: MetadataSource, i: int) -> Option<int>
    decreases p.len() - i,
{
    if i < 0 || i >= p.len() {
        None
    } else if p[i] == s {
        Some(i)
    } else {
        position_from(p, s, i + 1)
    }
}

/// Source priority bonus: 100 for the first preferred source, 20 less for
/// each later place, nothing for a source that is not listed.
pub open spec fn source_bonus(p: Seq<MetadataSource>, s: MetadataSource) -> int {
    match position_from(p, s, 0) {
        Some(idx) => 100 - idx * 20,
        None => 0,
    }
}

/// Title similarity bonus: 200 for an exact normalised match, 100 when
/// one contains the other.
pub open spec fn title_bonus(candidate: Seq<char>, wanted: Seq<char>) -> int {
    if candidate == wanted {
        200
    } else if find(candidate, wanted).is_some() || find(wanted, candidate).is_some() {
        100
    } else {
        0
    }
}

/// Artist match bonus: 150 for an exact normalised match, 50 when one
/// contains the other.
pub open spec fn artist_bonus(candidate: Seq<char>, wanted: Seq<char>) -> int {
    if candidate == wanted {
        150
    } else if find(candidate, wanted).is_some() || find(wanted, candidate).is_some() {
        50
    } else {
        0
    }
}

/// Track count bonus: 50 when both counts are known and differ by at most one.
pub open spec fn track_bonus(wanted: Option<i32>, candidate: Option<i32>) -> int {
    match (wanted, candidate) {
        (Some(a), Some(b)) => if -1 <= a - b <= 1 {
            50
        } else {
            0
        },
        _ => 0,
    }
}

/// The score of a candidate: its own score (0 when absent) plus the bonuses.
pub open spec fn candidate_score(
    priority: Seq<MetadataSource>,
    c: AlbumSearchResult,
    artist_norm: Seq<char>,
    album_norm: Seq<char>,
    track_count: Option<i32>,
) -> int {
    (match c.score {
        Some(s) => s as int,
        None => 0,
    }) + source_bonus(priority, c.source) + title_bonus(normalized(c.title@), album_norm)
        + artist_bonus(normalized(c.artist@), artist_norm) + track_bonus(track_count, c.track_count)
}

/// The scores of all candidates, in order.
pub open spec fn candidate_scores(
    priority: Seq<MetadataSource>,
    candidates: Seq<AlbumSearchResult>,
    artist: Seq<char>,
    album: Seq<char>,
    track_count: Option<i32>,
) -> Seq<int> {
    Seq::new(
        candidates.len(),
        |i: int|
            candidate_score(
                priority,
                candidates[i],
                normalized(artist),
                normalized(album),
                track_count,
            ),
    )
}

/// `i` holds a maximal score and no later position holds one as large
/// (the element that `Iterator::max_by_key` picks).
pub open spec fn last_max(scores: Seq<int>, i: int) -> bool {
    &&& 0 <= i < scores.len()
    &&& forall|j: int| 0 <= j < scores.len() ==> scores[j] <= scores[i]
    &&& forall|j: int| i < j < scores.len() ==> scores[j] < scores[i]
}

/// `c2` is `c` with the own score of candidate `i` raised by `d`: every
/// other candidate, and every other field of candidate `i`, unchanged.
pub open spec fn raised_own_score(
    c: Seq<AlbumSearchResult>,
    c2: Seq<AlbumSearchResult>,
    i: int,
    d: int,
) -> bool {
    &&& c2.len() == c.len()
    &&& 0 <= i < c.len()
    &&& d >= 0
    &&& forall|j: int| 0 <= j < c.len() && j != i ==> c2[j] == c[j]
    &&& c2[i].source == c[i].source
    &&& c2[i].external_id == c[i].external_id
    &&& c2[i].title == c[i].title
    &&& c2[i].artist == c[i].artist
    &&& c2[i].year == c[i].year
    &&& c2[i].track_count == c[i].track_count
    &&& c2[i].cover_url == c[i].cover_url
    &&& c2[i].score matches Some(s) && s == (match c[i].score {
        Some(o) => o as int,
        None => 0,
    }) + d
}

/// At most one position is the last maximum.
pub proof fn lemma_last_max_unique(scores: Seq<int>, i: int, k: int)
    requires
        last_max(scores, i),
        last_max(scores, k),
    ensures
        i == k,
{
    if i < k {
        assert(scores[k] < scores[i]);
        assert(scores[i] <= scores[k]);
    } else if k < i {
        assert(scores[i] < scores[k]);
        assert(scores[k] <= scores[i]);
    }
}

/// Raising the own score of the winning candidate keeps it winning: when
/// `i` is the last maximum of the scores and reaches the minimum
/// confidence, then after its own score is raised it is still the last
/// maximum, still reaches the minimum confidence, and is the only last
/// maximum (so `select_best` returns it).
pub proof fn lemma_raising_winner_keeps_it(
    priority: Seq<MetadataSource>,
    c: Seq<AlbumSearchResult>,
    c2: Seq<AlbumSearchResult>,
    artist: Seq<char>,
    album: Seq<char>,
    track_count: Option<i32>,
    i: int,
    d: int,
)
    requires
        last_max(candidate_scores(priority, c, artist, album, track_count), i),
        candidate_scores(priority, c, artist, album, track_count)[i] >= min_confidence(),
        raised_own_score(c, c2, i, d),
    ensures
        ({
            let scores2 = candidate_scores(priority, c2, artist, album, track_count);
            &&& last_max(scores2, i)
            &&& scores2[i] >= min_confidence()
            &&& forall|k: int| last_max(scores2, k) ==> k == i
        }),
{
    let scores = candidate_scores(priority, c, artist, album, track_count);
    let scores2 = candidate_scores(priority, c2, artist, album, track_count);
    assert(scores2[i] == scores[i] + d);
    assert forall|j: int| 0 <= j < scores2.len() && j != i implies scores2[j] == scores[j] by {
        assert(c2[j] == c[j]);
    }
    assert(last_max(scores2, i));
    assert forall|k: int| last_max(scores2, k) implies k == i by {
        lemma_last_max_unique(scores2, i, k);
    }
}

/// `small` occurs somewhere in `big`.
pub open spec fn contains_text(big: Seq<char>, small: Seq<char>) -> bool {
    exists|k: int| occurs_at(big, small, k)
}

/// `a` and `b` are the same candidate apart from their titles.
pub open spec fn same_but_title(a: AlbumSearchResult, b: AlbumSearchResult) -> bool {
    &&& a.source == b.source
    &&& a.artist@ == b.artist@
    &&& a.score == b.score
    &&& a.track_count == b.track_count
}

/// Title similarity: of candidates that differ only in their titles, one
/// whose normalised title is the wanted album scores 200 more than one whose
/// title shares nothing with it, and one whose normalised title contains the
/// wanted album (or is contained in it) without being equal scores 100 more.
/// So an exact title always beats a merely containing one, by 100.
pub proof fn lemma_title_similarity_order(
    priority: Seq<MetadataSource>,
    exact: AlbumSearchResult,
    containing: AlbumSearchResult,
    unrelated: AlbumSearchResult,
    artist: Seq<char>,
    album: Seq<char>,
    track_count: Option<i32>,
)
    requires
        same_but_title(exact, containing),
        same_but_title(exact, unrelated),
        normalized(exact.title@) == normalized(album),
        normalized(containing.title@) != normalized(album),
        contains_text(normalized(containing.title@), normalized(album)) || contains_text(
            normalized(album),
            normalized(containing.title@),
        ),
        !contains_text(normalized(unrelated.title@), normalized(album)),
        !contains_text(normalized(album), normalized(unrelated.title@)),
    ensures
        ({
            let score = |c: AlbumSearchResult|
                candidate_score(priority, c, normalized(artist), normalized(album), track_count);
            &&& score(exact) == score(unrelated) + 200
            &&& score(containing) == score(unrelated) + 100
            &&& score(exact) > score(containing)
        }),
{
    let w = normalized(album);
    let ct = normalized(containing.title@);
    let ut = normalized(unrelated.title@);
    lemma_find_from(ct, w, 0);
    lemma_find_from(w, ct, 0);
    lemma_find_from(ut, w, 0);
    lemma_find_from(w, ut, 0);
    if find(ct, w) is None && find(w, ct) is None {
        if contains_text(ct, w) {
            let k = choose|k: int| occurs_at(ct, w, k);
            assert(occurs_at(ct, w, k));
        } else {
            let k = choose|k: int| occurs_at(w, ct, k);
            assert(occurs_at(w, ct, k));
        }
    }
    if find(ut, w) is Some {
        let k = find(ut, w)->0;
        assert(occurs_at(ut, w, k));
    }
    if find(w, ut) is Some {
        let k = find(w, ut)->0;
        assert(occurs_at(w, ut, k));
    }
    if ut == w {
        assert(occurs_at(ut, w, 0)) by {
            assert(ut.subrange(0, w.len() as int) =~= w);
        }
    }
}

/// `a` and `b` are the same candidate apart from their artists.
pub open spec fn same_but_artist(a: AlbumSearchResult, b: AlbumSearchResult) -> bool {
    &&& a.source == b.source
    &&& a.title@ == b.title@
    &&& a.score == b.score
    &&& a.track_count == b.track_count
}

/// Artist similarity: of candidates that differ only in their artists, one
/// whose normalised artist is the wanted artist scores 150 more than one
/// that shares nothing with it, and one that merely contains it (or is
/// contained in it) scores 50 more.
pub proof fn lemma_artist_similarity_order(
    priority: Seq<MetadataSource>,
    exact: AlbumSearchResult,
    containing: AlbumSearchResult,
    unrelated: AlbumSearchResult,
    artist: Seq<char>,
    album: Seq<char>,
    track_count: Option<i32>,
)
    requires
        same_but_artist(exact, containing),
        same_but_artist(exact, unrelated),
        normalized(exact.artist@) == normalized(artist),
        normalized(containing.artist@) != normalized(artist),
        contains_text(normalized(containing.artist@), normalized(artist)) || contains_text(
            normalized(artist),
            normalized(containing.artist@),
        ),
        !contains_text(normalized(unrelated.artist@), normalized(artist)),
        !contains_text(normalized(artist), normalized(unrelated.artist@)),
    ensures
        ({
            let score = |c: AlbumSearchResult|
                candidate_score(priority, c, normalized(artist), normalized(album), track_count);
            &&& score(exact) == score(unrelated) + 150
            &&& score(containing) == score(unrelated) + 50
        }),
{
    let w = normalized(artist);
    let ct = normalized(containing.artist@);
    let ut = normalized(unrelated.artist@);
    lemma_find_from(ct, w, 0);
    lemma_find_from(w, ct, 0);
    lemma_find_from(ut, w, 0);
    lemma_find_from(w, ut, 0);
    if find(ct, w) is None && find(w, ct) is None {
        if contains_text(ct, w) {
            let k = choose|k: int| occurs_at(ct, w, k);
            assert(occurs_at(ct, w, k));
        } else {
            let k = choose|k: int| occurs_at(w, ct, k);
            assert(occurs_at(w, ct, k));
        }
    }
    if find(ut, w) is Some {
        let k = find(ut, w)->0;
        assert(occurs_at(ut, w, k));
    }
    if find(w, ut) is Some {
        let k = find(w, ut)->0;
        assert(occurs_at(w, ut, k));
    }
    if ut == w {
        assert(occurs_at(ut, w, 0)) by {
            assert(ut.subrange(0, w.len() as int) =~= w);
        }
    }
}

/// The other signals: of candidates that differ only in that signal,
/// - the own score counts one for one (an absent score counts as 0);
/// - a track count within one of the wanted count scores 50 more than one
///   further off or unknown, and with no wanted count the track count
///   counts for nothing;
/// - a source in place `k` of the priority list (its first place) scores
///   `100 - 20 * k` more than a source that is not listed.
pub proof fn lemma_other_signals(
    priority: Seq<MetadataSource>,
    a: AlbumSearchResult,
    b: AlbumSearchResult,
    artist: Seq<char>,
    album: Seq<char>,
    track_count: Option<i32>,
)
    ensures
        ({
            let score = |c: AlbumSearchResult|
                candidate_score(priority, c, normalized(artist), normalized(album), track_count);
            let own = |c: AlbumSearchResult|
                match c.score {
                    Some(s) => s as int,
                    None => 0,
                };
            &&& a.source == b.source && a.title@ == b.title@ && a.artist@ == b.artist@
                && a.track_count == b.track_count ==> score(a) - score(b) == own(a) - own(b)
            &&& a.source == b.source && a.title@ == b.title@ && a.artist@ == b.artist@ && a.score
                == b.score ==> {
                &&& track_count is None ==> score(a) == score(b)
                &&& (track_count matches Some(w) && a.track_count matches Some(x) && -1 <= w - x
                    <= 1 && !(b.track_count matches Some(y) && -1 <= w - y <= 1)) ==> score(a)
                    == score(b) + 50
            }
            &&& same_but_source(a, b) && !priority.contains(b.source) ==> forall|k: int|
                0 <= k < priority.len() && priority[k] == a.source && (forall|j: int|
                    0 <= j < k ==> priority[j] != a.source) ==> score(a) == score(b) + 100 - 20
                    * k
        }),
{
    assert forall|k: int|
        same_but_source(a, b) && !priority.contains(b.source) && 0 <= k < priority.len()
            && priority[k] == a.source && (forall|j: int| 0 <= j < k ==> priority[j] != a.source)
        implies position_from(priority, a.source, 0) == Some(k) by {
        lemma_position_from(priority, a.source, 0);
        match position_from(priority, a.source, 0) {
            Some(m) => {
                assert(m == k);
            },
            None => {
                assert(priority[k] != a.source);
            },
        }
    }
    if same_but_source(a, b) && !priority.contains(b.source) {
        lemma_position_from(priority, b.source, 0);
        if position_from(priority, b.source, 0) is Some {
            let m = position_from(priority, b.source, 0)->0;
            assert(priority[m] == b.source);
        }
    }
}

/// `a` and `b` are the same candidate apart from their sources.
pub open spec fn same_but_source(a: AlbumSearchResult, b: AlbumSearchResult) -> bool {
    &&& a.title@ == b.title@
    &&& a.artist@ == b.artist@
    &&& a.score == b.score
    &&& a.track_count == b.track_count
}

/// A found position holds the source and is its first place; no position
/// is found when the list does not hold the source from `i` on.
pub proof fn lemma_position_from(p: Seq<MetadataSource>, s: MetadataSource, i: int)
    requires
        0 <= i,
    ensures
        position_from(p, s, i) matches Some(k) ==> i <= k < p.len() && p[k] == s && forall|
            j: int,
        |
            i <= j < k ==> p[j] != s,
        position_from(p, s, i) is None ==> forall|j: int| i <= j < p.len() ==> p[j] != s,
    decreases p.len() - i,
{
    if i < p.len() && p[i] != s {
        lemma_position_from(p, s, i + 1);
    }
}

/// Among candidates, one that differs from an exact-title candidate only by
/// a merely containing title is never the one selected: it is not the last
/// maximum of the scores.
pub proof fn lemma_containing_title_never_beats_exact(
    priority: Seq<MetadataSource>,
    candidates: Seq<AlbumSearchResult>,
    artist: Seq<char>,
    album: Seq<char>,
    track_count: Option<i32>,
    i: int,
    j: int,
)
    requires
        0 <= i < candidates.len(),
        0 <= j < candidates.len(),
        same_but_title(candidates[i], candidates[j]),
        normalized(candidates[i].title@) == normalized(album),
        normalized(candidates[j].title@) != normalized(album),
    ensures
        candidate_scores(priority, candidates, artist, album, track_count)[i] > candidate_scores(
            priority,
            candidates,
            artist,
            album,
            track_count,
        )[j],
        forall|k: int|
            last_max(candidate_scores(priority, candidates, artist, album, track_count), k) ==> k
                != j,
{
    let scores = candidate_scores(priority, candidates, artist, album, track_count);
    let a = candidates[i];
    let b = candidates[j];
    assert(title_bonus(normalized(a.title@), normalized(album)) == 200);
    assert(title_bonus(normalized(b.title@), normalized(album)) <= 100);
    assert(scores[i] > scores[j]);
}

/// The lowest score that is accepted as a match.
pub open spec fn min_confidence() -> int {
    50
}

impl ProviderSelector {
    pub fn new() -> (r: Self)
        ensures
            r@ == default_strategy(),
    {
        let r = ProviderSelector {
            country: None,
            language: None,
            source_priority: vec![
                MetadataSource::Netease,
                MetadataSource::QQMusic,
                MetadataSource::MusicBrainz,
                MetadataSource::LastFm,
                MetadataSource::Spotify,
            ],
        };
        assert(r@.source_priority =~= default_strategy().source_priority);
        r
    }

    /// Create a selector for Chinese music.
    pub fn chinese() -> (r: Self)
        ensures
            r@ == chinese_strategy(),
    {
        let r = ProviderSelector {
            country: Some(owned("CN")),
            language: Some(owned("zh")),
            source_priority: vec![
                MetadataSource::Netease,
                MetadataSource::QQMusic,
                MetadataSource::MusicBrainz,
                MetadataSource::LastFm,
            ],
        };
        assert(r@.source_priority =~= chinese_strategy().source_priority);
        r
    }

    /// Create a selector for Western music.
    pub fn western() -> (r: Self)
        ensures
            r@ == western_strategy(),
    {
        let r = ProviderSelector {
            country: Some(owned("US")),
            language: Some(owned("en")),
            source_priority: vec![
                MetadataSource::MusicBrainz,
                MetadataSource::LastFm,
                MetadataSource::Spotify,
                MetadataSource::Netease,
            ],
        };
        assert(r@.source_priority =~= western_strategy().source_priority);
        r
    }

    /// The source bonus of `s` under this selector's priority list.
    fn bonus_for(&self, s: MetadataSource) -> (r: i128)
        ensures
            r == source_bonus(self.source_priority@, s),
            -0x20_0000_0000_0000_0000i128 <= r <= 100,
    {
        let mut i: usize = 0;
        while i < self.source_priority.len()
            invariant
                i <= self.source_priority@.len(),
                position_from(self.source_priority@, s, 0) == position_from(
                    self.source_priority@,
                    s,
                    i as int,
                ),
            decreases self.source_priority.len() - i,
        {
            if self.source_priority[i] == s {
                return 100 - (i as i128) * 20;
            }
            i = i + 1;
        }
        0
    }

    /// The score of one candidate.
    fn score_candidate(
        &self,
        c: &AlbumSearchResult,
        artist_norm: &Vec<char>,
        album_norm: &Vec<char>,
        track_count: Option<i32>,
    ) -> (r: i128)
        ensures
            r == candidate_score(self.source_priority@, *c, artist_norm@, album_norm@, track_count),
    {
        let mut score: i128 = match c.score {
            Some(s) => s as i128,
            None => 0,
        };
        score = score + self.bonus_for(c.source);
        let title_norm = normalize_chars(c.title.as_str());
        if chars_equal(&title_norm, album_norm) {
            score = score + 200;
        } else if contains_seq(&title_norm, album_norm) || contains_seq(album_norm, &title_norm) {
            score = score + 100;
        }
        let artist_cand = normalize_chars(c.artist.as_str());
        if chars_equal(&artist_cand, artist_norm) {
            score = score + 150;
        } else if contains_seq(&artist_cand, artist_norm) || contains_seq(
            artist_norm,
            &artist_cand,
        ) {
            score = score + 50;
        }
        match (track_count, c.track_count) {
            (Some(tc), Some(c_tc)) => {
                let d = tc as i128 - c_tc as i128;
                if -1 <= d && d <= 1 {
                    score = score + 50;
                }
            },
            _ => {},
        }
        score
    }

    /// Select the best match from a list of candidates.
    ///
    /// Scoring:
    /// - Source priority: higher priority sources get a bonus
    /// - Title similarity: exact match > contains > fuzzy
    /// - Artist match: exact match > contains
    /// - Track count: matching track count gets a bonus
    ///
    /// The best-scoring candidate (the last one among equals) is returned when
    /// its score reaches the minimum confidence; otherwise nothing is.
    pub fn select_best(
        &self,
        candidates: &[AlbumSearchResult],
        artist: &str,
        album: &str,
        track_count: Option<i32>,
    ) -> (r: Option<AlbumSearchResult>)
        ensures
            ({
                let scores = candidate_scores(
                    self.source_priority@,
                    candidates@,
                    artist@,
                    album@,
                    track_count,
                );
                &&& r is None <==> forall|j: int|
                    0 <= j < scores.len() ==> scores[j] < min_confidence()
                &&& r matches Some(c) ==> exists|i: int|
                    last_max(scores, i) && scores[i] >= min_confidence() && c == candidates@[i]
            }),
    {
        let ghost scores = candidate_scores(
            self.source_priority@,
            candidates@,
            artist@,
            album@,
            track_count,
        );
        if candidates.len() == 0 {
            return None;
        }
        let artist_norm = normalize_chars(artist);
        let album_norm = normalize_chars(album);
        let mut best_i: usize = 0;
        let mut best = self.score_candidate(&candidates[0], &artist_norm, &album_norm, track_count);
        let mut i: usize = 1;
        while i < candidates.len()
            invariant
                scores == candidate_scores(
                    self.source_priority@,
                    candidates@,
                    artist@,
                    album@,
                    track_count,
                ),
                artist_norm@ == normalized(artist@),
                album_norm@ == normalized(album@),
                1 <= i <= candidates@.len(),
                best_i < i,
                best == scores[best_i as int],
                forall|j: int| 0 <= j < i ==> scores[j] <= best,
                forall|j: int| best_i < j < i ==> scores[j] < best,
            decreases candidates.len() - i,
        {
            let s = self.score_candidate(&candidates[i], &artist_norm, &album_norm, track_count);
            if s >= best {
                best = s;
                best_i = i;
            }
            i = i + 1;
        }
        assert(last_max(scores, best_i as int));
        if best >= 50 {
            Some(candidates[best_i].duplicate())
        } else {
            None
        }
    }

    /// Auto-detect the best selector based on artist/album text.
    ///
    /// If the text contains CJK characters, use Chinese strategy.
    /// Otherwise, use Western strategy.
    pub fn auto_detect(artist: &str, album: &str) -> (r: Self)
        ensures
            r@ == if (exists|i: int| 0 <= i < artist@.len() && cjk(#[trigger] artist@[i])) || (
            exists|i: int| 0 <= i < album@.len() && cjk(#[trigger] album@[i])) {
                chinese_strategy()
            } else {
                western_strategy()
            },
    {
        let has_cjk = any_cjk(artist) || any_cjk(album);
        if has_cjk {
            Self::chinese()
        } else {
            Self::western()
        }
    }
}

impl Default for ProviderSelector {
    fn default() -> (r: Self)
        ensures
            r@ == default_strategy(),
    {
        Self::new()
    }
}

} // verus!
