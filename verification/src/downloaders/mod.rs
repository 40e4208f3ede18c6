//! Download clients: the decoding of what each client reports and the
//! requests that are sent to it.




pub mod aria2;
pub mod deluge;
pub mod pan115;
pub mod qbittorrent;
pub mod rtorrent;
pub mod traits;
pub mod transmission;
pub mod xunlei;



use vstd::prelude::*;

use crate::error::ClientError;
use crate::text::{
    ascii_case_equal, eq_ignore_ascii_case, owned, strip_trailing, trim_end_matches_char,
};
use traits::ClientStatus;

verus! {

/// The base URL of a client as configured, without trailing slashes.
pub fn trim_base_url(url: &str) -> (r: String)
    ensures
        r@ == strip_trailing(url@, '/'),
{
    trim_end_matches_char(url, '/')
}

/// Whether `hash` names the torrent whose hash is `candidate` (hashes are
/// compared without regard to ASCII case).
pub fn hash_matches(candidate: &str, hash: &str) -> (r: bool)
    ensures
        r == ascii_case_equal(candidate@, hash@),
{
    eq_ignore_ascii_case(candidate, hash)
}

/// The error of a JSON-RPC answer whose `error` member is set: an API
/// error with the error's message, or `Unknown error` when it has none.
pub fn jsonrpc_error(message: Option<&str>) -> (r: ClientError)
    ensures
        r matches ClientError::Api { status, message: m } && status == 0 && m@ == match message {
            Some(t) => t@,
            None => "Unknown error"@,
        },
{
    let m = match message {
        Some(t) => owned(t),
        None => owned("Unknown error"),
    };
    ClientError::Api { status: 0, message: m }
}

/// The status of a client whose connection test failed with `message`.
pub fn failed_status(message: String) -> (r: ClientStatus)
    ensures
        !r.connected,
        r.version is None,
        r.error == Some(message),
{
    ClientStatus { connected: false, version: None, error: Some(message) }
}

/// The status of a client whose connection test succeeded.
pub fn connected_status(version: Option<String>) -> (r: ClientStatus)
    ensures
        r.connected,
        r.version == version,
        r.error is None,
{
    ClientStatus { connected: true, version, error: None }
}

/// Normalising a base URL twice changes nothing more.
pub proof fn lemma_trim_base_url_idempotent(url: Seq<char>)
    ensures
        strip_trailing(strip_trailing(url, '/'), '/') == strip_trailing(url, '/'),
    decreases url.len(),
{
    if url.len() > 0 && url.last() == '/' {
        lemma_trim_base_url_idempotent(url.drop_last());
    }
}

/// A normalised base URL does not end with a slash.
pub proof fn lemma_trim_base_url_no_slash(url: Seq<char>)
    ensures
        strip_trailing(url, '/').len() == 0 || strip_trailing(url, '/').last() != '/',
    decreases url.len(),
{
    if url.len() > 0 && url.last() == '/' {
        lemma_trim_base_url_no_slash(url.drop_last());
    }
}

/// Every hash matches itself.
pub proof fn lemma_hash_matches_reflexive(h: Seq<char>)
    ensures
        ascii_case_equal(h, h),
{
}

/// Matching hashes does not depend on which one is the candidate.
pub proof fn lemma_hash_matches_symmetric(a: Seq<char>, b: Seq<char>)
    ensures
        ascii_case_equal(a, b) == ascii_case_equal(b, a),
{
}

} // verus!
