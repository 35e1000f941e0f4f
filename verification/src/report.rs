//! Final-report arithmetic: the error percentage, computed in integer
//! hundredths of a percent so the console layer only has to place the
//! decimal point.

use vstd::prelude::*;
use vstd::arithmetic::div_mod::{lemma_div_is_ordered, lemma_div_multiples_vanish};
use vstd::arithmetic::mul::lemma_mul_is_commutative;

verus! {

/// Error percentage in hundredths of a percent (10000 means 100.00%),
/// truncated; exactly 0 when nothing was recorded, never a division by zero.
pub open spec fn error_rate_hundredths_spec(count: int, errors: int) -> int {
    if count == 0 {
        0
    } else {
        errors * 10000 / count
    }
}

/// Reported error rate over all recorded attempts, in hundredths of a
/// percent. Every attempt that counts as an error is also latency-recorded,
/// so the counted errors never exceed the recorded attempts.
pub fn error_rate_hundredths(count: u32, errors: u64) -> (r: u64)
    requires
        errors <= count as u64,
    ensures
        r as int == error_rate_hundredths_spec(count as int, errors as int),
        r <= 10000,
{
    if count == 0 {
        0
    } else {
        proof {
            let c = count as int;
            let e = errors as int;
            lemma_div_is_ordered(e * 10000, c * 10000, c);
            lemma_mul_is_commutative(c, 10000);
            lemma_div_multiples_vanish(10000, c);
        }
        errors * 10000 / (count as u64)
    }
}

} // verus!
