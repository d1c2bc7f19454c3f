//! Pricing: the minimum acceptable deposit for a storage order.
//!
//! The price of storing `file_size` bytes for `duration_days` days is
//! `file_size × duration_days × rate`, computed with overflow-checked
//! multiplication at each step; any overflow fails the whole operation rather
//! than wrapping.

use vstd::prelude::*;
use vstd::arithmetic::mul::lemma_mul_inequality;
use crate::errors::StorachaError;

verus! {

/// The mathematically required deposit for a storage order:
/// `file_size × duration_days × rate`, over unbounded integers.
pub open spec fn spec_required_amount(file_size: int, duration_days: int, rate: int) -> int {
    file_size * duration_days * rate
}

/// Computes the minimum acceptable deposit for `file_size` bytes stored for
/// `duration_days` days at `rate` currency units per byte per day.
///
/// Each multiplication is overflow-checked; the first step (`file_size ×
/// duration_days`) failing makes the whole computation fail even when a zero
/// rate would have brought the full product back in range.
pub fn required_deposit_amount(file_size: u64, duration_days: u32, rate: u64) -> (r: Result<
    u64,
    StorachaError,
>)
    ensures
        match r {
            Ok(v) => {
                &&& file_size * duration_days <= u64::MAX
                &&& spec_required_amount(file_size as int, duration_days as int, rate as int)
                    <= u64::MAX
                &&& v == spec_required_amount(file_size as int, duration_days as int, rate as int)
            },
            Err(e) => {
                &&& e == StorachaError::ArithmeticOverflow
                &&& (file_size * duration_days > u64::MAX || spec_required_amount(
                    file_size as int,
                    duration_days as int,
                    rate as int,
                ) > u64::MAX)
            },
        },
{
    let size_duration = match file_size.checked_mul(duration_days as u64) {
        Some(v) => v,
        None => {
            return Err(StorachaError::ArithmeticOverflow);
        },
    };
    match size_duration.checked_mul(rate) {
        Some(v) => Ok(v),
        None => Err(StorachaError::ArithmeticOverflow),
    }
}

/// Law (pricing monotonicity): the required amount is non-decreasing in the
/// file size, the duration, and the rate.
pub proof fn lemma_required_amount_monotonic(
    file_size1: int,
    duration1: int,
    rate1: int,
    file_size2: int,
    duration2: int,
    rate2: int,
)
    requires
        0 <= file_size1 <= file_size2,
        0 <= duration1 <= duration2,
        0 <= rate1 <= rate2,
    ensures
        spec_required_amount(file_size1, duration1, rate1) <= spec_required_amount(
            file_size2,
            duration2,
            rate2,
        ),
{
    assert(file_size1 * duration1 <= file_size2 * duration2) by (nonlinear_arith)
        requires
            0 <= file_size1 <= file_size2,
            0 <= duration1 <= duration2,
    ;
    assert(file_size1 * duration1 * rate1 <= file_size2 * duration2 * rate1) by {
        lemma_mul_inequality(file_size1 * duration1, file_size2 * duration2, rate1);
    };
    assert(file_size2 * duration2 * rate1 <= file_size2 * duration2 * rate2) by (nonlinear_arith)
        requires
            0 <= file_size2 * duration2,
            0 <= rate1 <= rate2,
    ;
}

} // verus!
