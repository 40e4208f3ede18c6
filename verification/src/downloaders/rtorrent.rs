//! rTorrent: the XML-RPC requests it is sent and the decoding of its answers.

use vstd::prelude::*;

use super::traits::{TorrentFileRecord, TorrentRecord, TorrentState};
use crate::text::{
    base_name, base_name_of, chars_of, copy_range, decimal, find, find_from, find_in,
    lemma_find_from, matches_at, occurs_at, owned, parse_i32, parse_i64_or, parse_signed,
    parse_u32, parse_u64_or, parse_u8_or, parse_unsigned, push_char, push_decimal, push_str,
    string_of, trim, trimmed_range, views,
};

verus! {

// ── XML text ────────────────────────────────────────────────────────────────

/// Whether the scanner is inside a tag after reading `s`.
pub open spec fn in_tag_after(s: Seq<char>) -> bool
    decreases s.len(),
{
    if s.len() == 0 {
        false
    } else if s.last() == '<' {
        true
    } else if s.last() == '>' {
        false
    } else {
        in_tag_after(s.drop_last())
    }
}

/// `s` with every `<...>` tag removed: the characters outside tags, except
/// the angle brackets themselves.
pub open spec fn stripped(s: Seq<char>) -> Seq<char>
    decreases s.len(),
{
    if s.len() == 0 {
        seq![]
    } else if s.last() == '<' || s.last() == '>' || in_tag_after(s.drop_last()) {
        stripped(s.drop_last())
    } else {
        stripped(s.drop_last()).push(s.last())
    }
}

/// The characters of `v[lo..hi]` outside tags.
fn strip_range(v: &Vec<char>, lo: usize, hi: usize) -> (r: Vec<char>)
    requires
        lo <= hi <= v@.len(),
    ensures
        r@ == stripped(v@.subrange(lo as int, hi as int)),
{
    let mut out: Vec<char> = Vec::new();
    let mut in_tag = false;
    let mut i = lo;
    while i < hi
        invariant
            lo <= i <= hi <= v@.len(),
            out@ == stripped(v@.subrange(lo as int, i as int)),
            in_tag == in_tag_after(v@.subrange(lo as int, i as int)),
        decreases hi - i,
    {
        let c = v[i];
        proof {
            let t = v@.subrange(lo as int, i + 1);
            assert(t.drop_last() =~= v@.subrange(lo as int, i as int));
            assert(t.last() == c);
        }
        if c == '<' {
            in_tag = true;
        } else if c == '>' {
            in_tag = false;
        } else if !in_tag {
            out.push(c);
        }
        i = i + 1;
    }
    out
}

/// Removes every XML tag from `s`.
pub fn strip_xml_tags(s: &str) -> (r: String)
    ensures
        r@ == stripped(s@),
{
    let v = chars_of(s);
    let out = strip_range(&v, 0, v.len());
    assert(v@.subrange(0, v@.len() as int) =~= v@);
    string_of(&out)
}

/// The text of an XML value: tags removed, then white space trimmed.
pub open spec fn value_text(s: Seq<char>) -> Seq<char> {
    trim(stripped(s))
}

/// The text of the XML value `v[lo..hi]`.
fn value_text_of(v: &Vec<char>, lo: usize, hi: usize) -> (r: String)
    requires
        lo <= hi <= v@.len(),
    ensures
        r@ == value_text(v@.subrange(lo as int, hi as int)),
{
    let s = strip_range(v, lo, hi);
    let r = trimmed_range(&s, 0, s.len());
    assert(s@.subrange(0, s@.len() as int) =~= s@);
    r
}

/// The character of `c` in XML text: `&`, `<` and `>` are escaped.
pub open spec fn escaped_char(c: char) -> Seq<char> {
    if c == '&' {
        seq!['&', 'a', 'm', 'p', ';']
    } else if c == '<' {
        seq!['&', 'l', 't', ';']
    } else if c == '>' {
        seq!['&', 'g', 't', ';']
    } else {
        seq![c]
    }
}

/// `s` as XML text.
pub open spec fn escaped(s: Seq<char>) -> Seq<char>
    decreases s.len(),
{
    if s.len() == 0 {
        seq![]
    } else {
        escaped(s.drop_last()) + escaped_char(s.last())
    }
}

/// An XML-RPC string value.
pub fn xmlrpc_string(val: &str) -> (r: String)
    ensures
        r@ == "<string>"@ + escaped(val@) + "</string>"@,
{
    let v = chars_of(val);
    let mut r = owned("<string>");
    let ghost head = r@;
    let mut i: usize = 0;
    while i < v.len()
        invariant
            i <= v@.len(),
            r@ == head + escaped(v@.take(i as int)),
        decreases v.len() - i,
    {
        let c = v[i];
        proof {
            let t = v@.take(i + 1);
            assert(t.drop_last() =~= v@.take(i as int));
            assert(t.last() == c);
        }
        if c == '&' {
            push_char(&mut r, '&');
            push_char(&mut r, 'a');
            push_char(&mut r, 'm');
            push_char(&mut r, 'p');
            push_char(&mut r, ';');
        } else if c == '<' {
            push_char(&mut r, '&');
            push_char(&mut r, 'l');
            push_char(&mut r, 't');
            push_char(&mut r, ';');
        } else if c == '>' {
            push_char(&mut r, '&');
            push_char(&mut r, 'g');
            push_char(&mut r, 't');
            push_char(&mut r, ';');
        } else {
            push_char(&mut r, c);
        }
        i = i + 1;
        assert(r@ =~= head + escaped(v@.take(i as int)));
    }
    assert(v@.take(v@.len() as int) =~= v@);
    push_str(&mut r, "</string>");
    r
}

/// An XML-RPC base64 value, holding already encoded data.
pub fn xmlrpc_base64(data: &str) -> (r: String)
    ensures
        r@ == "<base64>"@ + data@ + "</base64>"@,
{
    let mut r = owned("<base64>");
    push_str(&mut r, data);
    push_str(&mut r, "</base64>");
    r
}

/// The `<params>` content of a call.
pub open spec fn params_xml(params: Seq<Seq<char>>) -> Seq<char>
    decreases params.len(),
{
    if params.len() == 0 {
        seq![]
    } else {
        params_xml(params.drop_last()) + "<param><value>"@ + params.last() + "</value></param>"@
    }
}

/// An XML-RPC method call document.
pub fn build_call(method: &str, params: &[String]) -> (r: String)
    ensures
        r@ == "<?xml version=\"1.0\"?><methodCall><methodName>"@ + method@
            + "</methodName><params>"@ + params_xml(params@.map_values(|p: String| p@))
            + "</params></methodCall>"@,
{
    let ghost ps = params@.map_values(|p: String| p@);
    let mut body = String::new();
    let mut i: usize = 0;
    while i < params.len()
        invariant
            i <= params@.len(),
            ps == params@.map_values(|p: String| p@),
            body@ == params_xml(ps.take(i as int)),
        decreases params.len() - i,
    {
        proof {
            let t = ps.take(i + 1);
            assert(t.drop_last() =~= ps.take(i as int));
            assert(t.last() == params@[i as int]@);
        }
        push_str(&mut body, "<param><value>");
        push_str(&mut body, params[i].as_str());
        push_str(&mut body, "</value></param>");
        i = i + 1;
    }
    assert(ps.take(params@.len() as int) =~= ps);
    let mut r = owned("<?xml version=\"1.0\"?><methodCall><methodName>");
    push_str(&mut r, method);
    push_str(&mut r, "</methodName><params>");
    push_str(&mut r, body.as_str());
    push_str(&mut r, "</params></methodCall>");
    r
}

// ── Reading answers ─────────────────────────────────────────────────────────

/// `<value>`
pub open spec fn value_open() -> Seq<char> {
    seq!['<', 'v', 'a', 'l', 'u', 'e', '>']
}

/// `</value>`
pub open spec fn value_close() -> Seq<char> {
    seq!['<', '/', 'v', 'a', 'l', 'u', 'e', '>']
}

/// `<array>`
pub open spec fn array_open() -> Seq<char> {
    seq!['<', 'a', 'r', 'r', 'a', 'y', '>']
}

/// `</array>`
pub open spec fn array_close() -> Seq<char> {
    seq!['<', '/', 'a', 'r', 'r', 'a', 'y', '>']
}

/// `<value><array><data>`
pub open spec fn data_open() -> Seq<char> {
    value_open() + array_open() + seq!['<', 'd', 'a', 't', 'a', '>']
}

/// `</data></array></value>`
pub open spec fn data_close() -> Seq<char> {
    seq!['<', '/', 'd', 'a', 't', 'a', '>'] + array_close() + value_close()
}

fn value_open_chars() -> (r: Vec<char>)
    ensures
        r@ == value_open(),
{
    let r = vec!['<', 'v', 'a', 'l', 'u', 'e', '>'];
    assert(r@ =~= value_open());
    r
}

fn value_close_chars() -> (r: Vec<char>)
    ensures
        r@ == value_close(),
{
    let r = vec!['<', '/', 'v', 'a', 'l', 'u', 'e', '>'];
    assert(r@ =~= value_close());
    r
}

fn array_open_chars() -> (r: Vec<char>)
    ensures
        r@ == array_open(),
{
    let r = vec!['<', 'a', 'r', 'r', 'a', 'y', '>'];
    assert(r@ =~= array_open());
    r
}

fn array_close_chars() -> (r: Vec<char>)
    ensures
        r@ == array_close(),
{
    let r = vec!['<', '/', 'a', 'r', 'r', 'a', 'y', '>'];
    assert(r@ =~= array_close());
    r
}

fn data_open_chars() -> (r: Vec<char>)
    ensures
        r@ == data_open(),
{
    let r = vec![
        '<', 'v', 'a', 'l', 'u', 'e', '>', '<', 'a', 'r', 'r', 'a', 'y', '>', '<', 'd', 'a', 't',
        'a', '>',
    ];
    assert(r@ =~= data_open());
    r
}

fn data_close_chars() -> (r: Vec<char>)
    ensures
        r@ == data_close(),
{
    let r = vec![
        '<', '/', 'd', 'a', 't', 'a', '>', '<', '/', 'a', 'r', 'r', 'a', 'y', '>', '<', '/', 'v',
        'a', 'l', 'u', 'e', '>',
    ];
    assert(r@ =~= data_close());
    r
}

/// The text of the first value of a response: what lies between the first
/// `<value>` and the next `</value>`, as value text.
pub open spec fn single_value(x: Seq<char>) -> Option<Seq<char>> {
    match find(x, value_open()) {
        Some(i) => {
            let start = i + value_open().len();
            match find_from(x, value_close(), start) {
                Some(e) => Some(value_text(x.subrange(start, e))),
                None => None,
            }
        },
        None => None,
    }
}

/// Reads the first value of a response.
pub fn parse_single_value(xml: &str) -> (r: Option<String>)
    ensures
        match single_value(xml@) {
            Some(t) => r matches Some(s) && s@ == t,
            None => r is None,
        },
{
    let x = chars_of(xml);
    let n = x.len();
    let vo = value_open_chars();
    let vc = value_close_chars();
    match find_in(&x, &vo, 0) {
        Some(i) => {
            proof {
                lemma_find_from(x@, vo@, 0);
            }
            let start = i + vo.len();
            match find_in(&x, &vc, start) {
                Some(e) => {
                    proof {
                        lemma_find_from(x@, vc@, start as int);
                    }
                    Some(value_text_of(&x, start, e))
                },
                None => None,
            }
        },
        None => None,
    }
}

/// The values of one row of an array, scanning `s` from `pos`: each
/// `<value>` that does not open a nested array contributes the text up to
/// the next `</value>`; a nested array is skipped up to its `</array>`.
pub open spec fn row_values_from(s: Seq<char>, pos: int) -> Seq<Seq<char>>
    decreases s.len() - pos,
{
    if pos < 0 || pos > s.len() {
        seq![]
    } else {
        match find_from(s, value_open(), pos) {
            None => seq![],
            Some(st) => {
                let q = st + 7;
                if q <= pos || q > s.len() {
                    seq![]
                } else if occurs_at(s, array_open(), q) {
                    match find_from(s, array_close(), q) {
                        Some(e) => if q <= e && e + 8 <= s.len() {
                            row_values_from(s, e + 8)
                        } else {
                            seq![]
                        },
                        None => row_values_from(s, q),
                    }
                } else {
                    match find_from(s, value_close(), q) {
                        Some(e) => if q <= e && e + 8 <= s.len() {
                            seq![value_text(s.subrange(q, e))] + row_values_from(s, e + 8)
                        } else {
                            seq![]
                        },
                        None => seq![],
                    }
                }
            },
        }
    }
}

/// The rows of a multicall answer, from the part that starts at `pos`
/// (just after a `<value><array><data>`): each part, cut at its first
/// `</data></array></value>`, gives a row when it has at least one value.
pub open spec fn rows_from(x: Seq<char>, pos: int) -> Seq<Seq<Seq<char>>>
    decreases x.len() - pos,
{
    if pos < 0 || pos > x.len() {
        seq![]
    } else {
        let next = find_from(x, data_open(), pos);
        let part_end = match next {
            Some(i) => i,
            None => x.len() as int,
        };
        if part_end < pos || part_end > x.len() {
            seq![]
        } else {
            let part = x.subrange(pos, part_end);
            let inner = match find(part, data_close()) {
                Some(e) => part.take(e),
                None => part,
            };
            let row = row_values_from(inner, 0);
            let here = if row.len() > 0 {
                seq![row]
            } else {
                seq![]
            };
            match next {
                Some(i) => if pos <= i && i + 20 <= x.len() {
                    here + rows_from(x, i + 20)
                } else {
                    here
                },
                None => here,
            }
        }
    }
}

/// The rows of a multicall answer: the parts after each
/// `<value><array><data>`.
pub open spec fn nested_rows(x: Seq<char>) -> Seq<Seq<Seq<char>>> {
    match find(x, data_open()) {
        Some(i) => rows_from(x, i + 20),
        None => seq![],
    }
}

/// Reads one row from the inner text of an array.
fn row_values(s: &Vec<char>) -> (r: Vec<String>)
    ensures
        views(r@) == row_values_from(s@, 0),
{
    let vo = value_open_chars();
    let vc = value_close_chars();
    let ao = array_open_chars();
    let ac = array_close_chars();
    let mut row: Vec<String> = Vec::new();
    let mut pos: usize = 0;
    while pos <= s.len()
        invariant
            vo@ == value_open(),
            vc@ == value_close(),
            ao@ == array_open(),
            ac@ == array_close(),
            pos <= s@.len() + 1,
            pos <= s@.len() ==> row_values_from(s@, 0) == views(row@) + row_values_from(
                s@,
                pos as int,
            ),
            pos > s@.len() ==> row_values_from(s@, 0) == views(row@),
        decreases s@.len() + 1 - pos,
    {
        let found = find_in(s, &vo, pos);
        proof {
            lemma_find_from(s@, vo@, pos as int);
        }
        match found {
            None => {
                assert(views(row@) + row_values_from(s@, pos as int) =~= views(row@));
                return row;
            },
            Some(st) => {
                let q = st + 7;
                if occurs_at_exec(s, &ao, q) {
                    let close = find_in(s, &ac, q);
                    proof {
                        lemma_find_from(s@, ac@, q as int);
                    }
                    match close {
                        Some(e) => {
                            pos = e + 8;
                        },
                        None => {
                            pos = q;
                        },
                    }
                } else {
                    let close = find_in(s, &vc, q);
                    proof {
                        lemma_find_from(s@, vc@, q as int);
                    }
                    match close {
                        Some(e) => {
                            let t = value_text_of(s, q, e);
                            proof {
                                assert(views(row@.push(t)) =~= views(row@).push(t@));
                                assert(views(row@).push(t@) + row_values_from(s@, e + 8) =~= views(
                                    row@,
                                ) + (seq![t@] + row_values_from(s@, e + 8)));
                            }
                            row.push(t);
                            pos = e + 8;
                        },
                        None => {
                            assert(views(row@) + row_values_from(s@, pos as int) =~= views(
                                row@,
                            ));
                            return row;
                        },
                    }
                }
            },
        }
    }
    row
}

/// Whether `pat` occurs in `s` at `i`, for any `i`.
fn occurs_at_exec(s: &Vec<char>, pat: &Vec<char>, i: usize) -> (r: bool)
    ensures
        r == occurs_at(s@, pat@, i as int),
{
    matches_at(s, pat, i)
}

/// Reads the rows of a multicall answer (`d.multicall2`, `f.multicall`).
pub fn parse_nested_array(xml: &str) -> (r: Vec<Vec<String>>)
    ensures
        r@.map_values(|row: Vec<String>| views(row@)) == nested_rows(xml@),
{
    let x = chars_of(xml);
    let n = x.len();
    let dopen = data_open_chars();
    let dclose = data_close_chars();
    let mut rows: Vec<Vec<String>> = Vec::new();
    let first = find_in(&x, &dopen, 0);
    proof {
        lemma_find_from(x@, dopen@, 0);
    }
    let mut pos: usize = match first {
        Some(i) => i + 20,
        None => {
            return rows;
        },
    };
    loop
        invariant
            x@ == xml@,
            n == x@.len(),
            dopen@ == data_open(),
            dclose@ == data_close(),
            pos <= x@.len(),
            nested_rows(xml@) == rows@.map_values(|row: Vec<String>| views(row@)) + rows_from(
                x@,
                pos as int,
            ),
        decreases x@.len() - pos,
    {
        let next = find_in(&x, &dopen, pos);
        proof {
            lemma_find_from(x@, dopen@, pos as int);
        }
        let part_end = match next {
            Some(i) => i,
            None => x.len(),
        };
        let part = copy_range(&x, pos, part_end);
        let cut = find_in(&part, &dclose, 0);
        proof {
            lemma_find_from(part@, dclose@, 0);
        }
        let inner = match cut {
            Some(e) => {
                let v = copy_range(&part, 0, e);
                assert(v@ =~= part@.take(e as int));
                v
            },
            None => part,
        };
        let row = row_values(&inner);
        let ghost before = rows@.map_values(|row: Vec<String>| views(row@));
        if row.len() > 0 {
            rows.push(row);
            proof {
                assert(rows@.map_values(|row: Vec<String>| views(row@)) =~= before.push(
                    views(row@),
                ));
            }
        } else {
            assert(rows@.map_values(|row: Vec<String>| views(row@)) =~= before);
        }
        match next {
            Some(i) => {
                proof {
                    if row@.len() > 0 {
                        assert(before.push(views(row@)) + rows_from(x@, i + 20) =~= before + (
                        seq![views(row@)] + rows_from(x@, i + 20)));
                    } else {
                        assert(before + rows_from(x@, i + 20) =~= before + (seq![]
                            + rows_from(x@, i + 20)));
                    }
                }
                pos = i + 20;
            },
            None => {
                proof {
                    if row@.len() > 0 {
                        assert(before.push(views(row@)) =~= before + seq![views(row@)]);
                    } else {
                        assert(before =~= before + seq![]);
                    }
                }
                return rows;
            },
        }
    }
}

} // verus!

verus! {

// ── Torrent rows ────────────────────────────────────────────────────────────

/// The fields that `d.multicall2` is asked for, in order.
pub open spec fn field_count() -> int {
    21
}

/// A text field read as a `u64`, 0 when it is not one.
pub open spec fn u64_field(s: Seq<char>) -> int {
    match parse_unsigned(s, u64::MAX as int) {
        Some(v) => v,
        None => 0,
    }
}

/// A text field read as an `i64`, 0 when it is not one.
pub open spec fn i64_field(s: Seq<char>) -> int {
    match parse_signed(s, i64::MIN as int, i64::MAX as int) {
        Some(v) => v,
        None => 0,
    }
}

/// A text field read as a `u8`, 0 when it is not one.
pub open spec fn u8_field(s: Seq<char>) -> int {
    match parse_unsigned(s, u8::MAX as int) {
        Some(v) => v,
        None => 0,
    }
}

/// The state of a torrent from rTorrent's flags, checked in this order:
/// hashing, an error message on a stopped torrent, stopped and inactive,
/// hash checking, then active or inactive, complete or not.
pub open spec fn rtorrent_state(
    state: int,
    is_active: int,
    is_hash_checking: int,
    complete: int,
    hashing: int,
    has_message: bool,
) -> TorrentState {
    if hashing != 0 {
        TorrentState::CheckingDl
    } else if has_message && state == 0 {
        TorrentState::Error
    } else if state == 0 && is_active == 0 {
        TorrentState::PausedDl
    } else if state == 1 && is_hash_checking != 0 {
        TorrentState::CheckingDl
    } else if state == 1 && complete == 0 && is_active == 1 {
        TorrentState::Downloading
    } else if state == 1 && complete == 1 && is_active == 1 {
        TorrentState::Seeding
    } else if state == 1 && is_active == 0 && complete == 1 {
        TorrentState::PausedUp
    } else if state == 1 && is_active == 0 {
        TorrentState::PausedDl
    } else {
        TorrentState::Unknown
    }
}

/// What rTorrent's flags say, case by case, whatever the other flags are:
/// a torrent being hashed is checking; otherwise a stopped torrent (state 0)
/// with a message is in error, and without one is paused when inactive; a
/// started torrent (state 1) is checking while its hash is checked, and
/// else downloading or seeding when active, paused (upload side when
/// complete) when not. An error only ever comes from a message on a
/// stopped torrent, and a state other than 0 or 1 is unknown.
pub proof fn lemma_rtorrent_state_cases(
    state: int,
    is_active: int,
    is_hash_checking: int,
    complete: int,
    hashing: int,
    has_message: bool,
)
    ensures
        ({
            let r = rtorrent_state(state, is_active, is_hash_checking, complete, hashing, has_message);
            &&& hashing != 0 ==> r == TorrentState::CheckingDl
            &&& hashing == 0 && state == 0 && has_message ==> r == TorrentState::Error
            &&& hashing == 0 && state == 0 && !has_message && is_active == 0 ==> r
                == TorrentState::PausedDl
            &&& hashing == 0 && state == 1 && is_hash_checking != 0 ==> r == TorrentState::CheckingDl
            &&& hashing == 0 && state == 1 && is_hash_checking == 0 && is_active == 1 && complete
                == 0 ==> r == TorrentState::Downloading
            &&& hashing == 0 && state == 1 && is_hash_checking == 0 && is_active == 1 && complete
                == 1 ==> r == TorrentState::Seeding
            &&& hashing == 0 && state == 1 && is_hash_checking == 0 && is_active == 0 && complete
                == 1 ==> r == TorrentState::PausedUp
            &&& hashing == 0 && state == 1 && is_hash_checking == 0 && is_active == 0 && complete
                != 1 ==> r == TorrentState::PausedDl
            &&& r == TorrentState::Error ==> hashing == 0 && state == 0 && has_message
            &&& hashing == 0 && state != 0 && state != 1 ==> r == TorrentState::Unknown
        }),
{
}

/// The state of a torrent from rTorrent's flags.
pub fn map_rtorrent_state(
    state: u8,
    is_active: u8,
    is_hash_checking: u8,
    complete: u8,
    hashing: u8,
    has_message: bool,
) -> (r: TorrentState)
    ensures
        r == rtorrent_state(
            state as int,
            is_active as int,
            is_hash_checking as int,
            complete as int,
            hashing as int,
            has_message,
        ),
{
    if hashing != 0 {
        TorrentState::CheckingDl
    } else if has_message && state == 0 {
        TorrentState::Error
    } else if state == 0 && is_active == 0 {
        TorrentState::PausedDl
    } else if state == 1 && is_hash_checking != 0 {
        TorrentState::CheckingDl
    } else if state == 1 && complete == 0 && is_active == 1 {
        TorrentState::Downloading
    } else if state == 1 && complete == 1 && is_active == 1 {
        TorrentState::Seeding
    } else if state == 1 && is_active == 0 && complete == 1 {
        TorrentState::PausedUp
    } else if state == 1 && is_active == 0 {
        TorrentState::PausedDl
    } else {
        TorrentState::Unknown
    }
}

/// One torrent row of rTorrent: the record, with the completed byte count
/// (progress is that over the size, 0 for an empty torrent) and the share
/// ratio in thousandths.
pub struct RTorrentRow {
    pub info: TorrentRecord,
    pub completed: u64,
    pub ratio_per_mille: i64,
}

/// An optional `u32` field.
fn opt_u32(s: &str) -> (r: Option<u32>)
    ensures
        match parse_unsigned(s@, u32::MAX as int) {
            Some(v) => r == Some(v as u32),
            None => r is None,
        },
{
    parse_u32(s)
}

/// Decodes one row of `d.multicall2` (see [`field_count`] for its width).
pub fn rtorrent_row_to_torrent_info(row: &[String]) -> (r: Option<RTorrentRow>)
    ensures
        row@.len() < field_count() ==> r is None,
        row@.len() >= field_count() ==> (r matches Some(d) && {
            let f = |i: int| row@[i]@;
            &&& d.info.hash@ == f(0)
            &&& d.info.name@ == f(1)
            &&& d.info.size == u64_field(f(2))
            &&& d.completed == u64_field(f(3))
            &&& d.info.dl_speed == u64_field(f(4))
            &&& d.info.up_speed == u64_field(f(5))
            &&& d.info.downloaded == u64_field(f(6))
            &&& d.info.uploaded == u64_field(f(7))
            &&& d.ratio_per_mille == i64_field(f(8))
            &&& d.info.state == rtorrent_state(
                u8_field(f(9)),
                u8_field(f(10)),
                u8_field(f(11)),
                u8_field(f(12)),
                u8_field(f(18)),
                f(19).len() > 0,
            )
            &&& d.info.save_path@ == f(13)
            &&& d.info.added_on == i64_field(f(14))
            &&& d.info.completion_on == (if i64_field(f(15)) > 0 {
                Some(i64_field(f(15)) as i64)
            } else {
                None
            })
            &&& d.info.seeds == (match parse_unsigned(f(16), u32::MAX as int) {
                Some(v) => Some(v as u32),
                None => None,
            })
            &&& d.info.peers == (match parse_unsigned(f(17), u32::MAX as int) {
                Some(v) => Some(v as u32),
                None => None,
            })
            &&& d.info.category@ == f(20)
            &&& d.info.tags@.len() == 0
            &&& d.info.seeding_time is None
            &&& d.info.eta is None
            &&& d.info.tracker is None
        }),
{
    if row.len() < 21 {
        return None;
    }
    let hash = row[0].clone();
    let name = row[1].clone();
    let size = parse_u64_or(row[2].as_str(), 0);
    let completed = parse_u64_or(row[3].as_str(), 0);
    let dl_speed = parse_u64_or(row[4].as_str(), 0);
    let up_speed = parse_u64_or(row[5].as_str(), 0);
    let downloaded = parse_u64_or(row[6].as_str(), 0);
    let uploaded = parse_u64_or(row[7].as_str(), 0);
    let ratio_per_mille = parse_i64_or(row[8].as_str(), 0);
    let state = parse_u8_or(row[9].as_str(), 0);
    let is_active = parse_u8_or(row[10].as_str(), 0);
    let is_hash_checking = parse_u8_or(row[11].as_str(), 0);
    let complete = parse_u8_or(row[12].as_str(), 0);
    let save_path = row[13].clone();
    let added_on = parse_i64_or(row[14].as_str(), 0);
    let finished_on = parse_i64_or(row[15].as_str(), 0);
    let seeds = opt_u32(row[16].as_str());
    let peers = opt_u32(row[17].as_str());
    let hashing = parse_u8_or(row[18].as_str(), 0);
    let has_message = !row[19].as_str().is_empty();
    let category = row[20].clone();
    let completion_on = if finished_on > 0 {
        Some(finished_on)
    } else {
        None
    };
    let torrent_state = map_rtorrent_state(
        state,
        is_active,
        is_hash_checking,
        complete,
        hashing,
        has_message,
    );
    Some(
        RTorrentRow {
            info: TorrentRecord {
                hash,
                name,
                size,
                dl_speed,
                up_speed,
                downloaded,
                uploaded,
                state: torrent_state,
                category,
                tags: Vec::new(),
                save_path,
                added_on,
                completion_on,
                seeding_time: None,
                eta: None,
                seeds,
                peers,
                tracker: None,
            },
            completed,
            ratio_per_mille,
        },
    )
}

/// One file row of `f.multicall`: the record, with the completed and total
/// chunk counts (progress is their quotient; the total is at least 1).
pub struct RTorrentFileRow {
    pub file: TorrentFileRecord,
    pub completed_chunks: u64,
    pub total_chunks: u64,
}

/// `d` is the decoding of `row`, the file row at position `index`: path,
/// size, completed chunks, total chunks, priority.
pub open spec fn decodes_file_row(index: int, row: Seq<String>, d: RTorrentFileRow) -> bool {
    let f = |i: int| row[i]@;
    &&& d.file.index == index as u32
    &&& d.file.name@ == base_name(f(0))
    &&& d.file.size == u64_field(f(1))
    &&& d.completed_chunks == u64_field(f(2))
    &&& d.total_chunks == match parse_unsigned(f(3), u64::MAX as int) {
        Some(v) => if v >= 1 {
            v
        } else {
            1
        },
        None => 1,
    }
    &&& d.file.priority == match parse_signed(f(4), i32::MIN as int, i32::MAX as int) {
        Some(v) => v,
        None => 1,
    }
}

/// Decodes the file row at position `index` of `f.multicall`: path, size,
/// completed chunks, total chunks, priority.
pub fn rtorrent_file_row(index: usize, row: &[String]) -> (r: Option<RTorrentFileRow>)
    ensures
        row@.len() < 5 ==> r is None,
        row@.len() >= 5 ==> (r matches Some(d) && decodes_file_row(index as int, row@, d)),
{
    if row.len() < 5 {
        return None;
    }
    let name = base_name_of(row[0].as_str());
    let size = parse_u64_or(row[1].as_str(), 0);
    let completed_chunks = parse_u64_or(row[2].as_str(), 0);
    let total = parse_u64_or(row[3].as_str(), 1);
    let total_chunks = if total >= 1 {
        total
    } else {
        1
    };
    let priority = match parse_i32(row[4].as_str()) {
        Some(p) => p,
        None => 1,
    };
    Some(
        RTorrentFileRow {
            file: TorrentFileRecord { index: index as u32, name, size, priority },
            completed_chunks,
            total_chunks,
        },
    )
}

/// The positions of the rows that hold a whole file row (five cells or more).
pub open spec fn file_row_positions(rows: Seq<Vec<String>>) -> Seq<int>
    decreases rows.len(),
{
    if rows.len() == 0 {
        seq![]
    } else if rows.last()@.len() >= 5 {
        file_row_positions(rows.drop_last()).push(rows.len() - 1)
    } else {
        file_row_positions(rows.drop_last())
    }
}

/// The positions are in range, increasing, and are exactly those of whole rows.
pub proof fn lemma_file_row_positions(rows: Seq<Vec<String>>)
    ensures
        forall|m: int|
            0 <= m < file_row_positions(rows).len() ==> 0 <= #[trigger] file_row_positions(rows)[m]
                < rows.len() && rows[file_row_positions(rows)[m]]@.len() >= 5,
        forall|m: int, n: int|
            0 <= m < n < file_row_positions(rows).len() ==> #[trigger] file_row_positions(rows)[m]
                < #[trigger] file_row_positions(rows)[n],
        forall|k: int|
            0 <= k < rows.len() && #[trigger] rows[k]@.len() >= 5 ==> file_row_positions(
                rows,
            ).contains(k),
    decreases rows.len(),
{
    if rows.len() > 0 {
        let init = rows.drop_last();
        lemma_file_row_positions(init);
        assert forall|k: int| 0 <= k < rows.len() && #[trigger] rows[k]@.len() >= 5 implies file_row_positions(
            rows,
        ).contains(k) by {
            if k < rows.len() - 1 {
                assert(init[k] == rows[k]);
                let m = choose|m: int| 0 <= m < file_row_positions(init).len() && file_row_positions(init)[m] == k;
                if rows.last()@.len() >= 5 {
                    assert(file_row_positions(rows)[m] == k);
                } else {
                    assert(file_row_positions(rows)[m] == k);
                }
            } else {
                let p = file_row_positions(rows);
                assert(p[p.len() - 1] == k);
            }
        }
    }
}

/// Decodes every whole row of `f.multicall`, in order, each indexed by its
/// position among all the rows; rows with fewer than five cells are skipped.
pub fn rtorrent_file_rows(rows: &Vec<Vec<String>>) -> (r: Vec<RTorrentFileRow>)
    ensures
        r@.len() == file_row_positions(rows@).len(),
        forall|m: int|
            0 <= m < r@.len() ==> decodes_file_row(
                file_row_positions(rows@)[m],
                rows@[file_row_positions(rows@)[m]]@,
                #[trigger] r@[m],
            ),
{
    let mut r: Vec<RTorrentFileRow> = Vec::new();
    let mut i: usize = 0;
    while i < rows.len()
        invariant
            i <= rows@.len(),
            r@.len() == file_row_positions(rows@.take(i as int)).len(),
            forall|m: int|
                0 <= m < r@.len() ==> decodes_file_row(
                    file_row_positions(rows@.take(i as int))[m],
                    rows@[file_row_positions(rows@.take(i as int))[m]]@,
                    #[trigger] r@[m],
                ),
        decreases rows.len() - i,
    {
        let ghost t = rows@.take(i as int);
        let ghost t1 = rows@.take(i + 1);
        proof {
            assert(t1.drop_last() =~= t);
            lemma_file_row_positions(t);
        }
        let d = rtorrent_file_row(i, rows[i].as_slice());
        match d {
            Some(d) => {
                r.push(d);
            },
            None => {},
        }
        proof {
            let p = file_row_positions(t);
            assert forall|m: int| 0 <= m < p.len() implies rows@[p[m]] == t[p[m]] by {}
        }
        i = i + 1;
    }
    assert(rows@.take(rows@.len() as int) =~= rows@);
    r
}

/// The key that names file `id` of torrent `hash` in `f.priority.set`.
pub fn file_key(hash: &str, id: u32) -> (r: String)
    ensures
        r@ == hash@ + seq![':', 'f'] + decimal(id as nat),
{
    let mut r = owned(hash);
    push_char(&mut r, ':');
    push_char(&mut r, 'f');
    push_decimal(&mut r, id as u64);
    assert(r@ =~= hash@ + seq![':', 'f'] + decimal(id as nat));
    r
}

/// An XML-RPC `i4` value holding a priority.
pub fn priority_value(priority: u8) -> (r: String)
    ensures
        r@ == "<i4>"@ + decimal(priority as nat) + "</i4>"@,
{
    let mut r = owned("<i4>");
    push_decimal(&mut r, priority as u64);
    push_str(&mut r, "</i4>");
    r
}

/// Whether an answer is an XML-RPC method response (the connection test).
pub fn is_method_response(resp: &str) -> (r: bool)
    ensures
        r == find(resp@, "<methodResponse>"@).is_some(),
{
    let v = chars_of(resp);
    let pat = chars_of("<methodResponse>");
    find_in(&v, &pat, 0).is_some()
}

/// A global rate from a `throttle.global_*.rate` answer: its single value
/// read as a number, 0 when there is none or it is not a number.
pub fn rate_from_response(resp: &str) -> (r: u64)
    ensures
        r == match single_value(resp@) {
            Some(t) => u64_field(t),
            None => 0,
        },
{
    match parse_single_value(resp) {
        Some(t) => parse_u64_or(t.as_str(), 0),
        None => 0,
    }
}

} // verus!
