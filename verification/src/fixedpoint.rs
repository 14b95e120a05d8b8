//! Fixed-point representation of BACnet "Real" and "Double" property values.
//!
//! Analog present values such as `1.001` are held as a signed count of
//! thousandths (`1001`), so that the periodic increment of the simulated
//! sensor is exact and every statement about it can be proved.

use vstd::prelude::*;

verus! {

/// A decimal value held as a count of thousandths.
///
/// `Real { thousandths: 1001 }` stands for `1.001`,
/// `Real { thousandths: -5000 }` for `-5.0`.
#[derive(Clone, Copy, PartialEq, Eq, Structural, Debug)]
pub struct Real {
    pub thousandths: i64,
}

impl Real {
    /// Builds the value `n / 1000`.
    pub fn from_thousandths(n: i64) -> (r: Real)
        ensures
            r.thousandths == n,
    {
        Real { thousandths: n }
    }

    /// Adds `n` thousandths, stopping at the representable extremes
    /// instead of wrapping.
    pub fn saturating_add_thousandths(self, n: i64) -> (r: Real)
        ensures
            r.thousandths == spec_saturating_add(self.thousandths as int, n as int),
    {
        match self.thousandths.checked_add(n) {
            Some(sum) => Real { thousandths: sum },
            None => {
                if n > 0 {
                    Real { thousandths: i64::MAX }
                } else {
                    Real { thousandths: i64::MIN }
                }
            },
        }
    }
}

/// The sum of two signed values, clamped to the `i64` range.
pub open spec fn spec_saturating_add(a: int, b: int) -> int {
    if a + b > i64::MAX {
        i64::MAX as int
    } else if a + b < i64::MIN {
        i64::MIN as int
    } else {
        a + b
    }
}

} // verus!
