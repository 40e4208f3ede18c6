//! Multi-source lyrics: the order in which sources are tried, and the
//! reading of the LRC text that QQ Music and Netease answer with.

use vstd::prelude::*;

use crate::text::{
    chars_of, contains_char, find_char_from, join_strings, joined, lemma_find_char_from, owned,
    string_of_range, trim, trimmed_range, views,
};
use crate::types::LyricsResult;

verus! {

// ── Lines ───────────────────────────────────────────────────────────────────

/// `s` without one trailing carriage return.
pub open spec fn strip_cr(s: Seq<char>) -> Seq<char> {
    if s.len() > 0 && s.last() == '\r' {
        s.drop_last()
    } else {
        s
    }
}

/// The lines of `s[start..]` (`str::lines`): split at each `\n`, a `\r`
/// before it dropped; a final line ending adds no empty line.
pub open spec fn lines_from(s: Seq<char>, start: int) -> Seq<Seq<char>>
    decreases s.len() - start,
{
    if start < 0 || start >= s.len() {
        seq![]
    } else {
        match find_char_from(s, '\n', start) {
            Some(i) => if start <= i < s.len() {
                seq![strip_cr(s.subrange(start, i))] + lines_from(s, i + 1)
            } else {
                seq![]
            },
            None => seq![s.subrange(start, s.len() as int)],
        }
    }
}

/// The lines of `s`.
pub open spec fn lines(s: Seq<char>) -> Seq<Seq<char>> {
    lines_from(s, 0)
}

/// The plain text of one LRC line: what follows its first `]`, trimmed, or
/// nothing when that is blank; a line without `]` is kept whole.
pub open spec fn lrc_line_text(line: Seq<char>) -> Option<Seq<char>> {
    match find_char_from(line, ']', 0) {
        Some(e) => {
            let t = trim(line.subrange(e + 1, line.len() as int));
            if t.len() == 0 {
                None
            } else {
                Some(t)
            }
        },
        None => Some(line),
    }
}

/// The plain texts of the lines that have one, in order.
pub open spec fn lrc_texts(ls: Seq<Seq<char>>) -> Seq<Seq<char>>
    decreases ls.len(),
{
    if ls.len() == 0 {
        seq![]
    } else {
        match lrc_line_text(ls.last()) {
            Some(t) => lrc_texts(ls.drop_last()).push(t),
            None => lrc_texts(ls.drop_last()),
        }
    }
}

/// The plain lyrics of LRC text: the plain text of each line,
/// newline-separated.
pub open spec fn lrc_plain(raw: Seq<char>) -> Seq<char> {
    joined(lrc_texts(lines(raw)), seq!['\n'])
}

/// Whether LRC text carries timestamps: it holds both `[` and `]`.
pub open spec fn has_timestamps(raw: Seq<char>) -> bool {
    raw.contains('[') && raw.contains(']')
}

/// The plain text of the line `v[lo..hi]`.
fn line_text(v: &Vec<char>, lo: usize, hi: usize) -> (r: Option<String>)
    requires
        lo <= hi <= v@.len(),
    ensures
        match lrc_line_text(v@.subrange(lo as int, hi as int)) {
            Some(t) => r matches Some(s) && s@ == t,
            None => r is None,
        },
{
    let ghost line = v@.subrange(lo as int, hi as int);
    let mut i = lo;
    while i < hi && v[i] != ']'
        invariant
            lo <= i <= hi <= v@.len(),
            line == v@.subrange(lo as int, hi as int),
            find_char_from(line, ']', 0) == find_char_from(line, ']', i - lo),
        decreases hi - i,
    {
        proof {
            assert(line[i - lo] == v@[i as int]);
        }
        i = i + 1;
    }
    if i < hi {
        proof {
            assert(line[i - lo] == v@[i as int]);
            assert(line.subrange(i - lo + 1, line.len() as int) =~= v@.subrange(
                i + 1,
                hi as int,
            ));
        }
        let t = trimmed_range(v, i + 1, hi);
        if t.as_str().is_empty() {
            None
        } else {
            Some(t)
        }
    } else {
        Some(string_of_range(v, lo, hi))
    }
}

/// The end of the line that starts at `start`: the position of the next
/// `\n`, or the end of the text.
fn line_end(v: &Vec<char>, start: usize) -> (r: usize)
    requires
        start <= v@.len(),
    ensures
        start <= r <= v@.len(),
        match find_char_from(v@, '\n', start as int) {
            Some(i) => r == i,
            None => r == v@.len(),
        },
{
    let mut i = start;
    while i < v.len() && v[i] != '\n'
        invariant
            start <= i <= v@.len(),
            find_char_from(v@, '\n', start as int) == find_char_from(v@, '\n', i as int),
        decreases v.len() - i,
    {
        i = i + 1;
    }
    i
}

/// The plain lyrics of LRC text.
pub fn lrc_plain_text(raw: &str) -> (r: String)
    ensures
        r@ == lrc_plain(raw@),
{
    let v = chars_of(raw);
    let mut texts: Vec<String> = Vec::new();
    let mut start: usize = 0;
    let ghost mut done: Seq<Seq<char>> = seq![];
    while start < v.len()
        invariant
            v@ == raw@,
            start <= v@.len(),
            lines(v@) == done + lines_from(v@, start as int),
            views(texts@) == lrc_texts(done),
        decreases v.len() - start,
    {
        let e = line_end(&v, start);
        let hi = if e > start && e < v.len() && v[e - 1] == '\r' {
            e - 1
        } else {
            e
        };
        let ghost line = if e < v@.len() {
            strip_cr(v@.subrange(start as int, e as int))
        } else {
            v@.subrange(start as int, v@.len() as int)
        };
        proof {
            let line_raw = v@.subrange(start as int, e as int);
            if e < v@.len() {
                if line_raw.len() > 0 && line_raw.last() == '\r' {
                    assert(line_raw.drop_last() =~= v@.subrange(start as int, hi as int));
                } else {
                    assert(hi == e);
                }
            }
            assert(line == v@.subrange(start as int, hi as int));
        }
        let t = line_text(&v, start, hi);
        let next = if e < v.len() {
            e + 1
        } else {
            v.len()
        };
        proof {
            lemma_find_char_from(v@, '\n', start as int);
            if e == v@.len() {
                assert(lines_from(v@, next as int) =~= seq![]);
                assert(seq![line] + lines_from(v@, next as int) =~= seq![line]);
            }
            assert(lines_from(v@, start as int) == seq![line] + lines_from(v@, next as int));
            assert(done + lines_from(v@, start as int) =~= done.push(line) + lines_from(
                v@,
                next as int,
            ));
            assert(done.push(line).drop_last() =~= done);
        }
        match t {
            Some(s) => {
                let ghost before = texts@;
                texts.push(s);
                proof {
                    assert(views(texts@) =~= views(before).push(s@));
                }
            },
            None => {},
        }
        proof {
            done = done.push(line);
        }
        start = next;
    }
    proof {
        assert(lines(v@) =~= done);
        reveal_strlit("\n");
        assert("\n"@ =~= seq!['\n']);
    }
    join_strings(&texts, "\n")
}

/// Reads the LRC lyric text of QQ Music or Netease: nothing when it is empty; with timestamps it
/// is kept as synced lyrics and its plain text is extracted, without them it
/// is the plain lyrics as it stands.
pub fn lrc_to_lyrics(raw: &str) -> (r: Option<LyricsResult>)
    ensures
        raw@.len() == 0 ==> r is None,
        raw@.len() > 0 ==> (r matches Some(l) && !l.instrumental && if has_timestamps(raw@) {
            &&& l.synced_lyrics matches Some(s) && s@ == raw@
            &&& l.plain_lyrics matches Some(p) && p@ == lrc_plain(raw@)
        } else {
            &&& l.synced_lyrics is None
            &&& l.plain_lyrics matches Some(p) && p@ == raw@
        }),
{
    if raw.is_empty() {
        return None;
    }
    let v = chars_of(raw);
    let has_ts = contains_char(&v, '[') && contains_char(&v, ']');
    let synced = if has_ts {
        Some(owned(raw))
    } else {
        None
    };
    let plain = if has_ts {
        Some(lrc_plain_text(raw))
    } else {
        Some(owned(raw))
    };
    Some(LyricsResult { synced_lyrics: synced, plain_lyrics: plain, instrumental: false })
}

// ── Trying the sources in turn ──────────────────────────────────────────────

/// The lyrics sources, in the order in which they are tried.
#[derive(Debug, Clone, Copy, PartialEq, Eq, Structural)]
pub enum LyricsSource {
    /// LRCLIB, with the album when it is known (best for synced lyrics).
    LrcLib,
    /// QQ Music (good Chinese coverage).
    QQMusic,
    /// Netease Cloud Music.
    Netease,
}

/// What to do after trying a source.
#[derive(Debug, Clone)]
pub enum LyricsStep {
    /// Return these lyrics.
    Accept(LyricsResult),
    /// Try this source next.
    Try(LyricsSource),
    /// No source had lyrics.
    GiveUp,
}

/// The source that is tried first.
pub fn first_lyrics_source() -> (r: LyricsSource)
    ensures
        r == LyricsSource::LrcLib,
{
    LyricsSource::LrcLib
}

/// Whether a result from `source` is taken: LRCLIB's and Netease's only
/// when it holds synced or plain lyrics, QQ Music's always.
pub open spec fn acceptable(source: LyricsSource, l: LyricsResult) -> bool {
    match source {
        LyricsSource::QQMusic => true,
        _ => l.synced_lyrics is Some || l.plain_lyrics is Some,
    }
}

/// What each source's answer must hold to be taken: QQ Music's is always
/// taken; LRCLIB's and Netease's exactly when they hold synced lyrics or
/// plain lyrics (either one is enough), and never when they hold neither.
pub proof fn lemma_lyrics_acceptance(source: LyricsSource, l: LyricsResult)
    ensures
        source == LyricsSource::QQMusic ==> acceptable(source, l),
        source != LyricsSource::QQMusic ==> (acceptable(source, l) <==> (l.synced_lyrics is Some
            || l.plain_lyrics is Some)),
        l.plain_lyrics is Some ==> acceptable(source, l),
        l.synced_lyrics is Some ==> acceptable(source, l),
{
}

/// The source after `source`, if any.
pub open spec fn after(source: LyricsSource) -> Option<LyricsSource> {
    match source {
        LyricsSource::LrcLib => Some(LyricsSource::QQMusic),
        LyricsSource::QQMusic => Some(LyricsSource::Netease),
        LyricsSource::Netease => None,
    }
}

/// What to do after trying `source`, given what it found (`None` when it
/// found nothing or failed): take acceptable lyrics, else go on to the next
/// source, else give up.
pub fn next_lyrics_step(source: LyricsSource, found: Option<LyricsResult>) -> (r: LyricsStep)
    ensures
        match found {
            Some(l) => if acceptable(source, l) {
                r == LyricsStep::Accept(l)
            } else {
                match after(source) {
                    Some(n) => r == LyricsStep::Try(n),
                    None => r is GiveUp,
                }
            },
            None => match after(source) {
                Some(n) => r == LyricsStep::Try(n),
                None => r is GiveUp,
            },
        },
{
    match found {
        Some(l) => {
            let ok = match source {
                LyricsSource::QQMusic => true,
                _ => l.synced_lyrics.is_some() || l.plain_lyrics.is_some(),
            };
            if ok {
                return LyricsStep::Accept(l);
            }
        },
        None => {},
    }
    match source {
        LyricsSource::LrcLib => LyricsStep::Try(LyricsSource::QQMusic),
        LyricsSource::QQMusic => LyricsStep::Try(LyricsSource::Netease),
        LyricsSource::Netease => LyricsStep::GiveUp,
    }
}

/// The sources are tried one after another, each at most once: starting from
/// the first, three steps exhaust them.
pub proof fn lemma_lyrics_sources_exhausted(s: LyricsSource)
    ensures
        s == LyricsSource::LrcLib ==> after(s) == Some(LyricsSource::QQMusic)
            && after(LyricsSource::QQMusic) == Some(LyricsSource::Netease)
            && after(LyricsSource::Netease) is None,
        after(s) != Some(s),
{
}

} // verus!
