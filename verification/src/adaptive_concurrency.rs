//! The concurrency level that the adaptive controller moves between its
//! bounds, and the exponential part of its backoff.
//!
//! Congestion scores, error rates and jitter are floating-point and are
//! computed by the application, which moves the level with
//! [`ConcurrencyLevel::increase`] and [`ConcurrencyLevel::decrease`].
use vstd::prelude::*;
use crate::config::TurboCdnConfig;

verus! {

/// The current number of concurrent connections and its bounds.
#[derive(Debug, Clone, Copy, PartialEq, Eq)]
pub struct ConcurrencyLevel {
    pub current: u32,
    pub min_concurrency: u32,
    pub max_concurrency: u32,
}

/// The smaller of two numbers.
pub open spec fn min_u32(a: u32, b: u32) -> u32 {
    if a <= b { a } else { b }
}

impl ConcurrencyLevel {
    /// The level a configuration starts from: the configured number of
    /// concurrent downloads capped by the configured limit (32 where none
    /// is), with the configured minimum (4 where none is) and that limit as
    /// bounds. A configured count beyond 32 bits keeps its low bits.
    pub fn from_config(config: &TurboCdnConfig) -> (l: ConcurrencyLevel)
        ensures
            ({
                let limit = match config.performance.max_concurrent_downloads_limit { Some(m) => m, None => 32u32 };
                &&& l.current == min_u32(config.performance.max_concurrent_downloads as u32, limit)
                &&& l.max_concurrency == limit
                &&& l.min_concurrency == match config.performance.min_concurrent_downloads { Some(m) => m, None => 4u32 }
            }),
    {
        let limit = match config.performance.max_concurrent_downloads_limit {
            Some(m) => m,
            None => 32,
        };
        let requested = config.performance.max_concurrent_downloads as u32;
        let current = if requested <= limit { requested } else { limit };
        let min_concurrency = match config.performance.min_concurrent_downloads {
            Some(m) => m,
            None => 4,
        };
        ConcurrencyLevel { current, min_concurrency, max_concurrency: limit }
    }

    /// One more connection, unless the maximum is reached.
    pub fn increase(&mut self)
        ensures
            final(self).min_concurrency == old(self).min_concurrency,
            final(self).max_concurrency == old(self).max_concurrency,
            final(self).current == if old(self).current < old(self).max_concurrency {
                old(self).current + 1
            } else {
                old(self).current as int
            },
            old(self).min_concurrency <= old(self).current <= old(self).max_concurrency
                ==> final(self).min_concurrency <= final(self).current <= final(self).max_concurrency,
    {
        if self.current < self.max_concurrency {
            self.current = self.current + 1;
        }
    }

    /// One connection less, unless the minimum is reached.
    pub fn decrease(&mut self)
        ensures
            final(self).min_concurrency == old(self).min_concurrency,
            final(self).max_concurrency == old(self).max_concurrency,
            final(self).current == if old(self).current > old(self).min_concurrency {
                old(self).current - 1
            } else {
                old(self).current as int
            },
            old(self).min_concurrency <= old(self).current <= old(self).max_concurrency
                ==> final(self).min_concurrency <= final(self).current <= final(self).max_concurrency,
    {
        if self.current > self.min_concurrency {
            self.current = self.current - 1;
        }
    }
}

/// The exponential part of the adaptive backoff, in milliseconds: 100 ms
/// doubled for each attempt, up to six doublings.
pub fn backoff_base_millis(attempt: u32) -> (ms: u64)
    ensures
        ms == 100 * vstd::arithmetic::power2::pow2(if attempt < 6 { attempt as nat } else { 6 }),
{
    let capped: u32 = if attempt < 6 { attempt } else { 6 };
    let mut ms: u64 = 100;
    let mut i: u32 = 0;
    proof { vstd::arithmetic::power2::lemma2_to64(); }
    while i < capped
        invariant
            i <= capped <= 6,
            ms == 100 * vstd::arithmetic::power2::pow2(i as nat),
        decreases capped - i,
    {
        proof {
            vstd::arithmetic::power2::lemma2_to64();
            vstd::arithmetic::power2::lemma_pow2_unfold((i + 1) as nat);
        }
        ms = ms * 2;
        i = i + 1;
    }
    ms
}

} // verus!
