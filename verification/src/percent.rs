//! Percentage derivation shared by every metric family.
//!
//! Percentages are carried as integer hundredths of a percent
//! (10000 = 100%), so that a caller can render `used / total * 100`
//! with two decimal places while the library stays in exact integer
//! arithmetic. A derivation over an empty total is defined to be zero,
//! never a division fault.

use vstd::prelude::*;

verus! {

/// `used / total * 100`, in hundredths of a percent, and `0` when
/// `total == 0`.
pub open spec fn percent_of(used: int, total: int) -> int {
    if total == 0 {
        0
    } else {
        used * 10000 / total
    }
}

/// `percent_of`, saturated to what a `u64` can carry.
pub open spec fn percent_sat(used: int, total: int) -> int {
    if percent_of(used, total) > u64::MAX {
        u64::MAX as int
    } else {
        percent_of(used, total)
    }
}

/// Derives a percentage in hundredths of a percent.
///
/// The zero-total rule: whenever `total == 0` the result is exactly
/// zero, whatever `used` holds.
pub fn percent_hundredths(used: u64, total: u64) -> (r: u64)
    ensures
        r == percent_sat(used as int, total as int),
        total == 0 ==> r == 0,
        used <= total ==> r <= 10000,
{
    if total == 0 {
        0
    } else {
        let wide: u128 = (used as u128) * 10000;
        let q: u128 = wide / (total as u128);
        proof {
            assert(q == percent_of(used as int, total as int));
            if used <= total {
                assert(used as int * 10000 <= total as int * 10000) by (nonlinear_arith)
                    requires
                        used as int <= total as int,
                ;
                assert(total as int * 10000 / total as int == 10000) by (nonlinear_arith)
                    requires
                        total as int > 0,
                ;
                assert(used as int * 10000 / total as int <= total as int * 10000 / total as int)
                    by (nonlinear_arith)
                    requires
                        total as int > 0,
                        used as int * 10000 <= total as int * 10000,
                ;
            }
        }
        if q > u64::MAX as u128 {
            u64::MAX
        } else {
            q as u64
        }
    }
}

} // verus!
