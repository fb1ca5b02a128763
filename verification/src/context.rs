//! The cache of the shared TLS client configuration.
//!
//! The configuration is built from the trust store of the system, which is
//! costly and can fail. It is built once: the outcome of the first attempt,
//! the configuration or the failure, is what every later request gets. A
//! failure is kept like a success and the load is not tried again.
//!
//! The cache holds the outcome and decides whether a load is due. Loading
//! itself, and keeping requests from different threads apart, is the
//! caller's part: a caller holds the cache exclusively from [`needs_load`]
//! to [`store`].
//!
//! [`needs_load`]: ContextCache::needs_load
//! [`store`]: ContextCache::store

use vstd::prelude::*;

verus! {

/// The outcome of the one load, once there is one. `T` is the
/// configuration, `E` the failure.
pub struct ContextCache<T, E> {
    slot: Option<Result<T, E>>,
}

/// The slot after `outcome` was offered to it: the first outcome stays.
pub open spec fn stored<T, E>(slot: Option<Result<T, E>>, outcome: Result<T, E>) -> Option<
    Result<T, E>,
> {
    match slot {
        Some(_) => slot,
        None => Some(outcome),
    }
}

impl<T, E> ContextCache<T, E> {
    /// The outcome that the cache holds, if the load has been made.
    pub closed spec fn outcome(&self) -> Option<Result<T, E>> {
        self.slot
    }

    /// A cache for which no load has been made.
    pub fn new() -> (cache: Self)
        ensures
            cache.outcome() is None,
    {
        ContextCache { slot: None }
    }

    /// Whether the load is still to be made.
    pub fn needs_load(&self) -> (needed: bool)
        ensures
            needed == (self.outcome() is None),
    {
        self.slot.is_none()
    }

    /// Offers the cache the outcome of a load. It is kept if it is the
    /// first; otherwise it is discarded and the cache stays as it was.
    pub fn store(&mut self, outcome: Result<T, E>)
        ensures
            final(self).outcome() == stored(old(self).outcome(), outcome),
    {
        if self.slot.is_none() {
            self.slot = Some(outcome);
        }
    }

    /// The outcome that every request gets, if the load has been made.
    pub fn get(&self) -> (held: Option<&Result<T, E>>)
        ensures
            match held {
                Some(outcome) => self.outcome() == Some(*outcome),
                None => self.outcome() is None,
            },
    {
        match &self.slot {
            Some(outcome) => Some(outcome),
            None => None,
        }
    }
}

/// What a row of requests comes to.
pub struct Served<T, E> {
    /// The slot of the cache after the last request.
    pub slot: Option<Result<T, E>>,
    /// The number of loads that were made.
    pub loads: nat,
    /// What each request got, in order.
    pub seen: Seq<Result<T, E>>,
}

/// Serves one request after another from a cache whose slot is `slot`.
/// Each request loads only if the slot is empty when it comes, offers the
/// cache what it loaded, and gets what the cache then holds. `loadable[i]`
/// is what a load made by request `i` would come to.
pub open spec fn served<T, E>(slot: Option<Result<T, E>>, loadable: Seq<Result<T, E>>) -> Served<
    T,
    E,
>
    decreases loadable.len(),
{
    if loadable.len() == 0 {
        Served { slot, loads: 0, seen: Seq::empty() }
    } else {
        let after = stored(slot, loadable[0]);
        let rest = served(after, loadable.drop_first());
        Served {
            slot: rest.slot,
            loads: rest.loads + if slot is None {
                1nat
            } else {
                0nat
            },
            seen: seq![after->0] + rest.seen,
        }
    }
}

/// From a cache that holds an outcome, no request loads, every request gets
/// that outcome, and the cache keeps it.
pub proof fn lemma_loaded_cache_serves_its_outcome<T, E>(
    held: Result<T, E>,
    loadable: Seq<Result<T, E>>,
)
    ensures
        served(Some(held), loadable).slot == Some(held),
        served(Some(held), loadable).loads == 0,
        served(Some(held), loadable).seen.len() == loadable.len(),
        forall|i: int|
            0 <= i < loadable.len() ==> #[trigger] served(Some(held), loadable).seen[i] == held,
    decreases loadable.len(),
{
    if loadable.len() > 0 {
        lemma_loaded_cache_serves_its_outcome(held, loadable.drop_first());
    }
}

/// The configuration is loaded at most once, and all requests get the same
/// outcome: from an empty cache, however many requests come, one load is
/// made, by the first of them, and every request gets what that load came
/// to, be it the configuration or the failure.
pub proof fn law_loaded_once_and_shared<T, E>(loadable: Seq<Result<T, E>>)
    requires
        loadable.len() > 0,
    ensures
        served(None, loadable).loads == 1,
        served(None, loadable).slot == Some(loadable[0]),
        served(None, loadable).seen.len() == loadable.len(),
        forall|i: int|
            0 <= i < loadable.len() ==> #[trigger] served(None, loadable).seen[i] == loadable[0],
{
    lemma_loaded_cache_serves_its_outcome(loadable[0], loadable.drop_first());
}

} // verus!
