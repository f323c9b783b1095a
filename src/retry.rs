//! Bounded reconnection to the message bus: up to ten attempts, with a wait
//! after each failure that doubles from half a second and is capped at
//! five, all within fifteen seconds.

use vstd::prelude::*;

verus! {

/// Attempts after which connecting is given up.
pub const MAX_ATTEMPTS: u32 = 10;

/// The wait unit, in milliseconds.
pub const BASE_DELAY_MS: u64 = 500;

/// The longest wait between attempts, in milliseconds.
pub const MAX_DELAY_MS: u64 = 5000;

/// The budget for connecting, in milliseconds.
pub const TOTAL_TIMEOUT_MS: u64 = 15000;

/// Two to the `n`.
pub open spec fn pow2(n: nat) -> nat
    decreases n,
{
    if n == 0 {
        1
    } else {
        2 * pow2((n - 1) as nat)
    }
}

proof fn lemma_pow2_small(n: nat)
    requires
        n <= 10,
    ensures
        pow2(n) <= 1024,
    decreases 10 - n,
{
    if n < 10 {
        lemma_pow2_small(n + 1);
    } else {
        reveal_with_fuel(pow2, 11);
    }
}

/// What follows the failure of attempt number `attempt` (counted from 0):
/// `None` when it was the last allowed attempt, otherwise the wait before
/// the next one, `BASE_DELAY_MS * 2^attempt` capped at `MAX_DELAY_MS`.
pub open spec fn backoff(attempt: u32) -> Option<u64> {
    if attempt + 1 >= MAX_ATTEMPTS {
        None
    } else if BASE_DELAY_MS * pow2(attempt as nat) > MAX_DELAY_MS {
        Some(MAX_DELAY_MS)
    } else {
        Some((BASE_DELAY_MS * pow2(attempt as nat)) as u64)
    }
}

/// Decides what follows the failure of attempt number `attempt` (counted
/// from 0) to connect.
pub fn retry_delay_ms(attempt: u32) -> (delay: Option<u64>)
    ensures
        delay == backoff(attempt),
{
    if attempt >= MAX_ATTEMPTS - 1 {
        return None;
    }
    let mut factor: u64 = 1;
    let mut i: u32 = 0;
    while i < attempt
        invariant
            i <= attempt < MAX_ATTEMPTS,
            factor == pow2(i as nat),
            factor <= 1024,
        decreases attempt - i,
    {
        proof {
            lemma_pow2_small((i + 1) as nat);
        }
        factor = factor * 2;
        i = i + 1;
    }
    let delay = BASE_DELAY_MS * factor;
    if delay > MAX_DELAY_MS {
        Some(MAX_DELAY_MS)
    } else {
        Some(delay)
    }
}

} // verus!
