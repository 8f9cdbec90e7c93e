//! The bucket registry's store: the concurrent map of the `dashmap` crate.
//!
//! Nothing in this file is proved. It declares the map, gives its contents a
//! name, and states of each of its methods that the rate limiter calls what
//! the crate's source shows: what the call does to the contents and what it
//! returns. Each function takes the map by the reference that lets it state
//! that: exclusively where the call changes the contents.

use crate::rate_limit::TokenBucket;
use dashmap::DashMap;
use vstd::prelude::*;

verus! {

/// The concurrent hash map of the `dashmap` crate. Verus sees nothing inside it:
/// what it holds is spoken of through [`registry_entries`].
#[verifier::external_type_specification]
#[verifier::external_body]
#[verifier::reject_recursive_types(K)]
#[verifier::reject_recursive_types(V)]
#[verifier::reject_recursive_types(S)]
pub struct ExDashMap<K, V, S>(DashMap<K, V, S>);

/// The entries of a bucket registry: each address that has a bucket, with that bucket.
pub uninterp spec fn registry_entries(m: DashMap<(u128, u16), TokenBucket>) -> Map<
    (u128, u16),
    TokenBucket,
>;

/// `DashMap::new`: a map that holds no entry.
#[verifier::external_body]
pub(crate) fn registry_new() -> (m: DashMap<(u128, u16), TokenBucket>)
    ensures
        forall|k: (u128, u16)| !registry_entries(m).contains_key(k),
{
    DashMap::new()
}

/// `DashMap::entry` and `Entry::or_insert` on the entry it gives: where `key` has
/// a value the map is left as it was, where it has none `fresh` becomes its
/// value; in both cases the value that `key` then has is handed back, copied out
/// of the reference that `or_insert` returns.
#[verifier::external_body]
pub(crate) fn registry_entry_or_insert(
    m: &mut DashMap<(u128, u16), TokenBucket>,
    key: (u128, u16),
    fresh: TokenBucket,
) -> (b: TokenBucket)
    ensures
        registry_entries(*final(m)) == if registry_entries(*old(m)).contains_key(key) {
            registry_entries(*old(m))
        } else {
            registry_entries(*old(m)).insert(key, fresh)
        },
        registry_entries(*final(m)).contains_key(key),
        b == registry_entries(*final(m))[key],
{
    *m.entry(key).or_insert(fresh)
}

/// `DashMap::insert`: `value` becomes the value of `key`, whether or not `key`
/// had one; no other entry changes.
#[verifier::external_body]
pub(crate) fn registry_insert(
    m: &mut DashMap<(u128, u16), TokenBucket>,
    key: (u128, u16),
    value: TokenBucket,
)
    ensures
        registry_entries(*final(m)) == registry_entries(*old(m)).insert(key, value),
{
    m.insert(key, value);
}

/// `DashMap::get`: the value of `key`, copied out of the reference that `get`
/// returns, or `None` where `key` has no value.
#[verifier::external_body]
pub(crate) fn registry_get(
    m: &DashMap<(u128, u16), TokenBucket>,
    key: (u128, u16),
) -> (b: Option<TokenBucket>)
    ensures
        b == if registry_entries(*m).contains_key(key) {
            Some(registry_entries(*m)[key])
        } else {
            None::<TokenBucket>
        },
{
    m.get(&key).map(|r| *r)
}

} // verus!
