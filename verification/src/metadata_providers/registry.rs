//! Provider registry — manages multiple metadata providers.

use vstd::prelude::*;

use crate::error::ClientError;
use crate::text::push_str;
use crate::types::{AlbumSearchResult, MetadataSource};

use super::MusicMetadataProvider;

verus! {

/// Registry of music metadata providers.
///
/// Manages multiple providers and provides methods to search across all of them
/// or query a specific provider by source.
pub struct ProviderRegistry<P> {
    providers: Vec<P>,
}

impl<P> View for ProviderRegistry<P> {
    type V = Seq<P>;

    closed spec fn view(&self) -> Seq<P> {
        self.providers@
    }
}

/// The sources of the registered providers, in registration order.
pub open spec fn sources_of<P: MusicMetadataProvider>(providers: Seq<P>) -> Seq<MetadataSource> {
    providers.map_values(|p: P| p.source_spec())
}

/// The first position at or after `i` whose provider serves source `s`.
pub open spec fn first_with_source<P: MusicMetadataProvider>(
    providers: Seq<P>,
    s: MetadataSource,
    i: int,
) -> Option<int>
    decreases providers.len() - i,
{
    if i < 0 || i >= providers.len() {
        None
    } else if providers[i].source_spec() == s {
        Some(i)
    } else {
        first_with_source(providers, s, i + 1)
    }
}

/// A found position holds a provider with that source, and is the first.
pub proof fn lemma_first_with_source<P: MusicMetadataProvider>(
    providers: Seq<P>,
    s: MetadataSource,
    i: int,
)
    requires
        0 <= i,
    ensures
        first_with_source(providers, s, i) matches Some(k) ==> i <= k < providers.len()
            && providers[k].source_spec() == s && forall|j: int|
            i <= j < k ==> providers[j].source_spec() != s,
        first_with_source(providers, s, i) is None ==> forall|j: int|
            i <= j < providers.len() ==> providers[j].source_spec() != s,
    decreases providers.len() - i,
{
    if i < providers.len() && providers[i].source_spec() != s {
        lemma_first_with_source(providers, s, i + 1);
    }
}

/// The message of the error for a source with no provider.
pub open spec fn not_found_message(s: MetadataSource) -> Seq<char> {
    "provider not found: "@ + s.name()
}

impl<P: MusicMetadataProvider> ProviderRegistry<P> {
    pub fn new() -> (r: Self)
        ensures
            r@ == Seq::<P>::empty(),
    {
        ProviderRegistry { providers: Vec::new() }
    }

    /// Register a new provider.
    pub fn register(&mut self, provider: P)
        ensures
            final(self)@ == old(self)@.push(provider),
    {
        self.providers.push(provider);
    }

    /// Get a list of all registered sources.
    pub fn sources(&self) -> (r: Vec<MetadataSource>)
        ensures
            r@ == sources_of(self@),
    {
        let mut r: Vec<MetadataSource> = Vec::new();
        let mut i: usize = 0;
        while i < self.providers.len()
            invariant
                i <= self@.len(),
                r@ == sources_of(self@.take(i as int)),
            decreases self.providers.len() - i,
        {
            r.push(self.providers[i].source());
            i = i + 1;
            assert(r@ =~= sources_of(self@.take(i as int)));
        }
        assert(self@.take(self@.len() as int) =~= self@);
        r
    }

    /// How many providers are registered.
    pub fn len(&self) -> (r: usize)
        ensures
            r == self@.len(),
    {
        self.providers.len()
    }

    /// The provider registered in place `i`, counting from 0.
    pub fn provider_at(&self, i: usize) -> (r: &P)
        requires
            i < self@.len(),
        ensures
            *r == self@[i as int],
    {
        &self.providers[i]
    }

    /// Find a provider by source: the first one registered with it.
    pub fn get(&self, source: &MetadataSource) -> (r: Option<&P>)
        ensures
            match first_with_source(self@, *source, 0) {
                Some(i) => r == Some(&self@[i]),
                None => r is None,
            },
    {
        let mut i: usize = 0;
        while i < self.providers.len()
            invariant
                i <= self@.len(),
                first_with_source(self@, *source, 0) == first_with_source(self@, *source, i as int),
            decreases self.providers.len() - i,
        {
            if self.providers[i].source() == *source {
                return Some(&self.providers[i]);
            }
            i = i + 1;
        }
        None
    }

    /// The provider for a source, or the error that a lookup for a single
    /// provider reports when there is none.
    pub fn provider_for(&self, source: &MetadataSource) -> (r: Result<&P, ClientError>)
        ensures
            match first_with_source(self@, *source, 0) {
                Some(i) => r == Ok::<&P, ClientError>(&self@[i]),
                None => r matches Err(ClientError::Other(m)) && m@ == not_found_message(*source),
            },
    {
        match self.get(source) {
            Some(p) => Ok(p),
            None => {
                let m = source.to_string();
                let mut msg = String::new();
                push_str(&mut msg, "provider not found: ");
                push_str(&mut msg, m.as_str());
                Err(ClientError::Other(msg))
            },
        }
    }
}

/// Registering a provider keeps every earlier lookup: the sources are the
/// earlier ones followed by the new provider's, and a source that already
/// had a provider keeps it; a source that had none gets the new provider
/// when it serves that source.
pub proof fn lemma_register_then_lookup<P: MusicMetadataProvider>(
    before: Seq<P>,
    provider: P,
    s: MetadataSource,
)
    ensures
        sources_of(before.push(provider)) == sources_of(before).push(provider.source_spec()),
        first_with_source(before, s, 0) matches Some(k) ==> first_with_source(
            before.push(provider),
            s,
            0,
        ) == Some(k),
        first_with_source(before, s, 0) is None ==> first_with_source(before.push(provider), s, 0)
            == (if provider.source_spec() == s {
            Some(before.len() as int)
        } else {
            None
        }),
{
    let after = before.push(provider);
    assert(sources_of(after) =~= sources_of(before).push(provider.source_spec()));
    lemma_first_with_source(before, s, 0);
    lemma_first_with_source(after, s, 0);
    match first_with_source(before, s, 0) {
        Some(k) => {
            assert(after[k] == before[k]);
            match first_with_source(after, s, 0) {
                Some(k2) => {
                    if k2 < k {
                        assert(after[k2] == before[k2]);
                    }
                },
                None => {},
            }
        },
        None => {
            assert(after[before.len() as int] == provider);
            match first_with_source(after, s, 0) {
                Some(k2) => {
                    if k2 < before.len() {
                        assert(after[k2] == before[k2]);
                    }
                },
                None => {
                    assert(after[before.len() as int].source_spec() != s);
                },
            }
        },
    }
}

impl<P: MusicMetadataProvider> Default for ProviderRegistry<P> {
    fn default() -> (r: Self)
        ensures
            r@ == Seq::<P>::empty(),
    {
        Self::new()
    }
}

// ── Merging search results ──────────────────────────────────────────────────

/// The ranking key of a result: its score, 0 when absent.
pub open spec fn score_key(r: AlbumSearchResult) -> int {
    match r.score {
        Some(s) => s as int,
        None => 0,
    }
}

/// All results of all batches, batch after batch.
pub open spec fn concat<T>(batches: Seq<Seq<T>>) -> Seq<T>
    decreases batches.len(),
{
    if batches.len() == 0 {
        seq![]
    } else {
        concat(batches.drop_last()) + batches.last()
    }
}

/// The views of a vector of vectors.
pub open spec fn nested_view<T>(v: Seq<Vec<T>>) -> Seq<Seq<T>> {
    v.map_values(|b: Vec<T>| b@)
}

/// `output` is `input` reordered by `perm` (`output[k] == input[perm[k]]`),
/// by score from highest to lowest, with results of equal score in their
/// order in `input`.
pub open spec fn stable_ranking(
    input: Seq<AlbumSearchResult>,
    output: Seq<AlbumSearchResult>,
    perm: Seq<int>,
) -> bool {
    &&& output.len() == input.len()
    &&& perm.len() == input.len()
    &&& forall|k: int| 0 <= k < perm.len() ==> 0 <= #[trigger] perm[k] < input.len()
    &&& forall|k: int, l: int| 0 <= k < l < perm.len() ==> perm[k] != perm[l]
    &&& forall|k: int| 0 <= k < output.len() ==> #[trigger] output[k] == input[perm[k]]
    &&& forall|k: int, l: int|
        0 <= k < l < output.len() ==> score_key(#[trigger] output[k]) >= score_key(
            #[trigger] output[l],
        )
    &&& forall|k: int, l: int|
        0 <= k < l < output.len() && score_key(#[trigger] output[k]) == score_key(
            #[trigger] output[l],
        ) ==> perm[k] < perm[l]
}

/// Concatenates the batches, in order.
fn concat_batches(batches: &Vec<Vec<AlbumSearchResult>>) -> (r: Vec<AlbumSearchResult>)
    ensures
        r@ == concat(nested_view(batches@)),
{
    let mut r: Vec<AlbumSearchResult> = Vec::new();
    let mut i: usize = 0;
    while i < batches.len()
        invariant
            i <= batches@.len(),
            r@ == concat(nested_view(batches@).take(i as int)),
        decreases batches.len() - i,
    {
        let batch = &batches[i];
        let ghost before = r@;
        let mut j: usize = 0;
        while j < batch.len()
            invariant
                j <= batch@.len(),
                r@ == before + batch@.take(j as int),
            decreases batch.len() - j,
        {
            r.push(batch[j].duplicate());
            j = j + 1;
            assert(r@ =~= before + batch@.take(j as int));
        }
        proof {
            let t = nested_view(batches@).take(i + 1);
            assert(t.drop_last() =~= nested_view(batches@).take(i as int));
            assert(batch@.take(batch@.len() as int) =~= batch@);
        }
        i = i + 1;
    }
    assert(nested_view(batches@).take(batches@.len() as int) =~= nested_view(batches@));
    r
}

/// The position at which a result with score `key` goes into `out`, which is
/// ordered from the highest score down: after every result scoring at
/// least `key`.
fn insertion_point(out: &Vec<AlbumSearchResult>, key: i32) -> (p: usize)
    requires
        forall|k: int, l: int|
            0 <= k < l < out@.len() ==> score_key(#[trigger] out@[k]) >= score_key(
                #[trigger] out@[l],
            ),
    ensures
        p <= out@.len(),
        forall|k: int| 0 <= k < p ==> score_key(#[trigger] out@[k]) >= key,
        forall|k: int| p <= k < out@.len() ==> score_key(#[trigger] out@[k]) < key,
{
    let mut p: usize = 0;
    while p < out.len()
        invariant
            p <= out@.len(),
            forall|k: int| 0 <= k < p ==> score_key(#[trigger] out@[k]) >= key,
            forall|k: int, l: int|
                0 <= k < l < out@.len() ==> score_key(#[trigger] out@[k]) >= score_key(
                    #[trigger] out@[l],
                ),
        decreases out.len() - p,
    {
        let s = match out[p].score {
            Some(s) => s,
            None => 0,
        };
        if s < key {
            proof {
                assert(score_key(out@[p as int]) < key);
                assert forall|k: int| p <= k < out@.len() implies score_key(
                    #[trigger] out@[k],
                ) < key by {
                    if k > p {
                        assert(score_key(out@[p as int]) >= score_key(out@[k]));
                    }
                }
            }
            return p;
        }
        p = p + 1;
    }
    p
}

/// `output` is `input` ranked by score, stably (see [`stable_ranking`]).
pub open spec fn ranked(input: Seq<AlbumSearchResult>, output: Seq<AlbumSearchResult>) -> bool {
    exists|perm: Seq<int>| stable_ranking(input, output, perm)
}

/// Ranks results by score from highest to lowest, results of equal score in
/// their order in `all`.
pub fn rank_results(all: &Vec<AlbumSearchResult>) -> (r: Vec<AlbumSearchResult>)
    ensures
        ranked(all@, r@),
{
    let mut out: Vec<AlbumSearchResult> = Vec::new();
    let ghost mut perm: Seq<int> = seq![];
    let mut i: usize = 0;
    while i < all.len()
        invariant
            i <= all@.len(),
            stable_ranking(all@.take(i as int), out@, perm),
        decreases all.len() - i,
    {
        let item = all[i].duplicate();
        let key = match item.score {
            Some(s) => s,
            None => 0,
        };
        let p = insertion_point(&out, key);
        let ghost old_out = out@;
        let ghost old_perm = perm;
        let ghost input = all@.take(i + 1);
        out.insert(p, item);
        proof {
            perm = old_perm.insert(p as int, i as int);
            assert(all@.take(i as int) =~= input.take(i as int));
            assert(score_key(out@[p as int]) == key);
            assert forall|k: int| 0 <= k < out@.len() implies #[trigger] out@[k] == input[perm[k]] by {
                if k < p {
                    assert(out@[k] == old_out[k]);
                    assert(perm[k] == old_perm[k]);
                } else if k > p {
                    assert(out@[k] == old_out[k - 1]);
                    assert(perm[k] == old_perm[k - 1]);
                }
            }
            assert forall|k: int| 0 <= k < perm.len() implies 0 <= #[trigger] perm[k] < input.len() by {
                if k < p {
                    assert(perm[k] == old_perm[k]);
                } else if k > p {
                    assert(perm[k] == old_perm[k - 1]);
                }
            }
            assert forall|k: int, l: int| 0 <= k < l < perm.len() implies perm[k] != perm[l] by {
                if k != p && l != p {
                    let k0 = if k < p { k } else { k - 1 };
                    let l0 = if l < p { l } else { l - 1 };
                    assert(perm[k] == old_perm[k0]);
                    assert(perm[l] == old_perm[l0]);
                } else if k == p {
                    assert(perm[l] == old_perm[l - 1]);
                } else {
                    assert(perm[k] == old_perm[k]);
                }
            }
            assert forall|k: int, l: int|
                0 <= k < l < out@.len() implies score_key(#[trigger] out@[k]) >= score_key(
                #[trigger] out@[l],
            ) by {
                if k != p && l != p {
                    let k0 = if k < p { k } else { k - 1 };
                    let l0 = if l < p { l } else { l - 1 };
                    assert(out@[k] == old_out[k0]);
                    assert(out@[l] == old_out[l0]);
                } else if k == p {
                    assert(out@[l] == old_out[l - 1]);
                } else {
                    assert(out@[k] == old_out[k]);
                }
            }
            assert forall|k: int, l: int|
                0 <= k < l < out@.len() && score_key(#[trigger] out@[k]) == score_key(
                    #[trigger] out@[l],
                ) implies perm[k] < perm[l] by {
                if k != p && l != p {
                    let k0 = if k < p { k } else { k - 1 };
                    let l0 = if l < p { l } else { l - 1 };
                    assert(out@[k] == old_out[k0]);
                    assert(out@[l] == old_out[l0]);
                    assert(perm[k] == old_perm[k0]);
                    assert(perm[l] == old_perm[l0]);
                } else if k == p {
                    assert(out@[l] == old_out[l - 1]);
                } else {
                    assert(out@[k] == old_out[k]);
                    assert(perm[k] == old_perm[k]);
                }
            }
        }
        i = i + 1;
    }
    assert(all@.take(all@.len() as int) =~= all@);
    out
}

/// Merges the results of several providers: all of them, ordered by score
/// from highest to lowest, results of equal score in the order of their
/// batches and of their place in a batch.
pub fn merge_by_score(batches: &Vec<Vec<AlbumSearchResult>>) -> (r: Vec<AlbumSearchResult>)
    ensures
        ranked(concat(nested_view(batches@)), r@),
{
    let all = concat_batches(batches);
    rank_results(&all)
}

/// Merges the results of several providers in their registration order:
/// the results of each provider together, ranked by score from highest to
/// lowest (equal scores in the provider's own order), provider after
/// provider.
pub fn merge_by_provider(batches: &Vec<Vec<AlbumSearchResult>>) -> (r: Vec<AlbumSearchResult>)
    ensures
        exists|ranked_batches: Seq<Seq<AlbumSearchResult>>|
            {
                &&& ranked_batches.len() == batches@.len()
                &&& forall|i: int|
                    0 <= i < batches@.len() ==> ranked(
                        batches@[i]@,
                        #[trigger] ranked_batches[i],
                    )
                &&& r@ == concat(ranked_batches)
            },
{
    let mut r: Vec<AlbumSearchResult> = Vec::new();
    let ghost mut done: Seq<Seq<AlbumSearchResult>> = seq![];
    let mut i: usize = 0;
    while i < batches.len()
        invariant
            i <= batches@.len(),
            done.len() == i,
            forall|k: int| 0 <= k < i ==> ranked(batches@[k]@, #[trigger] done[k]),
            r@ == concat(done),
        decreases batches.len() - i,
    {
        let part = rank_results(&batches[i]);
        let ghost before = r@;
        let mut j: usize = 0;
        while j < part.len()
            invariant
                j <= part@.len(),
                r@ == before + part@.take(j as int),
            decreases part.len() - j,
        {
            r.push(part[j].duplicate());
            j = j + 1;
            assert(r@ =~= before + part@.take(j as int));
        }
        proof {
            let old_done = done;
            done = done.push(part@);
            assert(done.drop_last() =~= old_done);
            assert(part@.take(part@.len() as int) =~= part@);
            assert forall|k: int| 0 <= k < i + 1 implies ranked(batches@[k]@, #[trigger] done[k]) by {
                if k < i {
                    assert(done[k] == old_done[k]);
                }
            }
        }
        i = i + 1;
    }
    r
}

} // verus!
