//! The decisions of the data store: when a cached value is still fresh, and when a
//! request is served from the cache instead of the provider. The cache maps, the
//! rate limiter and the awaits live outside the verified core; they consult these
//! functions at each step.

use vstd::prelude::*;

use crate::data::provider::{provider_msg, ProviderError};

verus! {

/// Quotes go stale fast: served from cache for at most this many seconds.
pub const QUOTE_TTL_SECS: u64 = 30;

/// Fundamentals change slowly.
pub const FUNDAMENTALS_TTL_SECS: u64 = 3600;

/// Outbound request ceiling per second.
pub const MAX_REQUESTS_PER_SEC: u32 = 5;

/// A cached value stamped with when it was fetched (milliseconds on a monotonic
/// clock).
#[derive(Debug, Clone)]
pub struct Cached<T> {
    pub value: T,
    pub at_ms: u64,
}

impl<T> Cached<T> {
    /// Fresh while less than `ttl_ms` has elapsed since it was stored; a clock
    /// reading before the stamp counts as no time elapsed.
    pub fn fresh(&self, now_ms: u64, ttl_ms: u64) -> (f: bool)
        ensures
            f == ((if now_ms >= self.at_ms { now_ms - self.at_ms } else { 0 }) < ttl_ms),
    {
        now_ms.saturating_sub(self.at_ms) < ttl_ms
    }
}

/// How a batch quote request is answered.
#[derive(Debug, Clone, Copy, PartialEq, Eq, Structural)]
pub enum QuotePlan {
    /// No symbols: an empty answer, no request.
    Empty,
    /// Every symbol is cached and fresh: answer from the cache.
    Cached,
    /// One batch request to the provider for all the symbols.
    Fetch,
}

/// Chooses how to answer a batch of symbols, given for each whether a fresh cached
/// quote exists, and whether a refresh was forced.
pub fn quote_plan(fresh: &Vec<bool>, force: bool) -> (p: QuotePlan)
    ensures
        fresh@.len() == 0 ==> p == QuotePlan::Empty,
        fresh@.len() > 0 && !force && (forall|i: int| 0 <= i < fresh@.len() ==> fresh@[i]) ==> p
            == QuotePlan::Cached,
        fresh@.len() > 0 && (force || exists|i: int| 0 <= i < fresh@.len() && !fresh@[i]) ==> p
            == QuotePlan::Fetch,
{
    if fresh.len() == 0 {
        return QuotePlan::Empty;
    }
    if force {
        return QuotePlan::Fetch;
    }
    let mut i: usize = 0;
    while i < fresh.len()
        invariant
            i <= fresh.len(),
            forall|j: int| 0 <= j < i ==> fresh@[j],
        decreases fresh.len() - i,
    {
        if !fresh[i] {
            return QuotePlan::Fetch;
        }
        i += 1;
    }
    QuotePlan::Cached
}

/// Whether a single-key request (candles, fundamentals) is answered from the
/// cache: only when not forced and a fresh entry exists.
pub fn serve_from_cache(force: bool, hit_fresh: Option<bool>) -> (r: bool)
    ensures
        r == (!force && hit_fresh == Some(true)),
{
    match hit_fresh {
        Some(true) => !force,
        _ => false,
    }
}

/// A data-store failure: the provider's, passed through unchanged.
#[derive(Debug, Clone)]
pub enum StoreError {
    Provider(ProviderError),
}

impl StoreError {
    /// How the failure reads: exactly the provider's message.
    pub fn message(&self) -> (m: String)
        ensures
            m@ == match *self {
                StoreError::Provider(e) => provider_msg(e),
            },
    {
        match self {
            StoreError::Provider(e) => e.message(),
        }
    }
}

} // verus!
