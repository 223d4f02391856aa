//! How long a question waits, and how long to pause between two queries.
//!
//! A question waits five minutes for its answer. The pause between two
//! queries starts at ten seconds and doubles with each query in a row that
//! the platform turns away for rate limiting, up to a ceiling of thirty
//! seconds. All durations are in milliseconds.

use vstd::prelude::*;
use vstd::arithmetic::power2::{lemma_pow2_strictly_increases, lemma_pow2_unfold, pow2};
use vstd::math::min;

verus! {

/// The pause between two queries while nothing is wrong.
pub const INITIAL_POLL_INTERVAL_MS: u64 = 10_000;

/// The longest pause between two queries.
pub const MAX_POLL_INTERVAL_MS: u64 = 30_000;

/// How long a question waits for its answer before it times out.
pub const MAX_WAIT_MS: u64 = 300_000;

/// The pause after `retries` rate-limited queries in a row.
pub open spec fn backoff_interval(retries: nat) -> nat {
    min(INITIAL_POLL_INTERVAL_MS * pow2(retries), MAX_POLL_INTERVAL_MS as int) as nat
}

/// The first powers of two.
proof fn lemma_small_powers()
    ensures
        pow2(0) == 1,
        pow2(1) == 2,
        pow2(2) == 4,
{
    lemma_pow2_unfold(1);
    lemma_pow2_unfold(2);
    assert(pow2(0) == 1) by {
        reveal(pow2);
        reveal_with_fuel(vstd::arithmetic::power::pow, 1);
    }
}

/// The pause runs ten, twenty, thirty seconds and stays there.
pub proof fn lemma_backoff_schedule(retries: nat)
    ensures
        retries == 0 ==> backoff_interval(retries) == 10_000,
        retries == 1 ==> backoff_interval(retries) == 20_000,
        retries >= 2 ==> backoff_interval(retries) == 30_000,
{
    lemma_small_powers();
    if retries > 2 {
        lemma_pow2_strictly_increases(2, retries);
    }
}

/// The pause never shrinks as rate-limited queries pile up, and stays
/// between its initial value and its ceiling.
pub proof fn lemma_backoff_monotonic(fewer: nat, more: nat)
    requires
        fewer <= more,
    ensures
        INITIAL_POLL_INTERVAL_MS <= backoff_interval(fewer) <= backoff_interval(more)
            <= MAX_POLL_INTERVAL_MS,
{
    lemma_backoff_schedule(fewer);
    lemma_backoff_schedule(more);
}

/// The pause after `retry_count` rate-limited queries in a row.
pub fn poll_interval_after(retry_count: u32) -> (ms: u64)
    ensures
        ms == backoff_interval(retry_count as nat),
{
    let mut interval: u64 = INITIAL_POLL_INTERVAL_MS;
    let mut doublings: u32 = 0;
    proof {
        lemma_small_powers();
    }
    while doublings < retry_count && interval < MAX_POLL_INTERVAL_MS
        invariant
            doublings <= retry_count,
            interval == INITIAL_POLL_INTERVAL_MS * pow2(doublings as nat),
            interval < 2 * MAX_POLL_INTERVAL_MS,
        decreases retry_count - doublings,
    {
        proof {
            lemma_pow2_unfold((doublings + 1) as nat);
        }
        interval = interval * 2;
        doublings += 1;
    }
    proof {
        if doublings < retry_count {
            lemma_pow2_strictly_increases(doublings as nat, retry_count as nat);
            assert(INITIAL_POLL_INTERVAL_MS * pow2(doublings as nat) <= INITIAL_POLL_INTERVAL_MS
                * pow2(retry_count as nat)) by (nonlinear_arith)
                requires
                    pow2(doublings as nat) <= pow2(retry_count as nat),
            ;
        }
    }
    if interval > MAX_POLL_INTERVAL_MS {
        MAX_POLL_INTERVAL_MS
    } else {
        interval
    }
}

} // verus!
