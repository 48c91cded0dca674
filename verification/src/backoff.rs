use vstd::prelude::*;
use vstd::arithmetic::power2::{pow2, lemma2_to64, lemma_pow2_strictly_increases};
use vstd::bits::lemma_u64_shl_is_mul;

verus! {

/// Ceiling on a single reconnect delay, in milliseconds.
pub const DELAY_CEILING_MS: u64 = 60 * 1000 * 1000;

/// The delay before reconnect attempt `attempt`: `2^attempt + 100`
/// milliseconds, clamped to `DELAY_CEILING_MS`.
pub open spec fn spec_next_delay(attempt: nat) -> int {
    if pow2(attempt) + 100 >= DELAY_CEILING_MS {
        DELAY_CEILING_MS as int
    } else {
        pow2(attempt) as int + 100
    }
}

/// Backoff policy that paces reconnect attempts to the backing store.
/// It never signals "stop retrying": every attempt count maps to a delay.
pub fn next_delay(attempt: usize) -> (r: u64)
    ensures
        r == spec_next_delay(attempt as nat),
{
    if attempt >= 26 {
        proof {
            lemma2_to64();
            if attempt > 26 {
                lemma_pow2_strictly_increases(26, attempt as nat);
            }
        }
        DELAY_CEILING_MS
    } else {
        proof {
            lemma2_to64();
            if attempt < 25 {
                lemma_pow2_strictly_increases(attempt as nat, 25);
            }
            lemma_u64_shl_is_mul(1u64, attempt as u64);
        }
        let d: u64 = (1u64 << (attempt as u64)) + 100;
        if d >= DELAY_CEILING_MS {
            DELAY_CEILING_MS
        } else {
            d
        }
    }
}

} // verus!
