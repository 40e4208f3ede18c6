//! Music metadata providers: a registry of providers, the choice among
//! their results, and the reading of what they return.

pub mod lyrics;
pub mod netease;
pub mod qqmusic;
pub mod registry;
pub mod selector;

pub use registry::ProviderRegistry;
pub use selector::ProviderSelector;

use vstd::prelude::*;

use crate::text::{owned, push_char, push_str};
use crate::types::MetadataSource;

verus! {

/// Abstract interface for music metadata providers.
///
/// Each provider (MusicBrainz, Netease, QQ Music, etc.) implements this trait
/// to say which source it serves; the searches themselves are made by the
/// asynchronous front end.
pub trait MusicMetadataProvider {
    /// The source that this provider serves, as the contracts speak of it.
    spec fn source_spec(&self) -> MetadataSource;

    /// The metadata source identifier.
    fn source(&self) -> (r: MetadataSource)
        ensures
            r == self.source_spec(),
    ;
}

/// The keyword of a search for an album by an artist: both, space-separated.
pub fn combined_keyword(artist: &str, album: &str) -> (r: String)
    ensures
        r@ == artist@ + seq![' '] + album@,
{
    let mut r = owned(artist);
    push_char(&mut r, ' ');
    push_str(&mut r, album);
    r
}

} // verus!
