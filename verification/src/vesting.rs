//! Linear vesting: how much of a deposit a service provider may claim.
//!
//! A deposit of `deposit_amount` vests linearly over `duration_days ×
//! SLOTS_PER_DAY` time units (slots). A claim releases `rate_per_slot ×
//! elapsed` currency, where `rate_per_slot = deposit_amount / total_slots`
//! (integer division) and `elapsed` is the time since the last claim, capped
//! by what remains unclaimed. The integer division silently truncates, so the
//! sum of all claims over a deposit's lifetime can fall short of
//! `deposit_amount` by up to `total_slots − 1` units; the bounds proved here
//! make that rounding loss explicit rather than hiding it.

use vstd::prelude::*;
use vstd::arithmetic::div_mod::{lemma_div_pos_is_pos, lemma_fundamental_div_mod, lemma_mod_bound};
use vstd::arithmetic::mul::{lemma_mul_inequality, lemma_mul_nonnegative};
use crate::types::Deposit;

verus! {

/// How many atomic time units (slots) make up one day of storage.
pub const SLOTS_PER_DAY: u64 = 216_000;

/// The number of slots over which the whole deposit vests.
pub open spec fn spec_total_slots(d: Deposit) -> int {
    d.duration_days as int * SLOTS_PER_DAY as int
}

/// Slots elapsed since the last claim, saturating at zero if the clock would
/// otherwise run backwards.
pub open spec fn spec_elapsed(d: Deposit, now: u64) -> int {
    if now >= d.last_claimed_slot {
        now - d.last_claimed_slot
    } else {
        0
    }
}

/// Currency vested per slot: the deposit amount spread evenly over the whole
/// vesting horizon, truncated by integer division.
pub open spec fn spec_rate_per_slot(d: Deposit) -> int {
    d.deposit_amount as int / spec_total_slots(d)
}

/// Currency vested since the last claim, before capping.
pub open spec fn spec_claimable(d: Deposit, now: u64) -> int {
    spec_rate_per_slot(d) * spec_elapsed(d, now)
}

/// Currency committed to the deposit but not yet claimed, saturating at zero.
pub open spec fn spec_remaining(d: Deposit) -> int {
    if d.total_claimed <= d.deposit_amount {
        d.deposit_amount - d.total_claimed
    } else {
        0
    }
}

/// What one claim attempt at time `now` actually releases: the vested amount
/// capped by what remains.
pub open spec fn spec_actual_claim(d: Deposit, now: u64) -> int {
    if spec_claimable(d, now) <= spec_remaining(d) {
        spec_claimable(d, now)
    } else {
        spec_remaining(d)
    }
}

/// The deposit after one claim attempt at time `now`: a successful claim
/// advances the cursor and grows the claimed total; an empty one changes
/// nothing.
pub open spec fn spec_after_claim(d: Deposit, now: u64) -> Deposit {
    if spec_actual_claim(d, now) > 0 {
        Deposit {
            last_claimed_slot: now,
            total_claimed: (d.total_claimed + spec_actual_claim(d, now)) as u64,
            ..d
        }
    } else {
        d
    }
}

/// Computes the vested-but-unclaimed amount of `d` at time `now`.
///
/// When the mathematical `rate_per_slot × elapsed` no longer fits in 64 bits
/// it necessarily exceeds what remains unclaimed, so the cap decides and the
/// result is still exact.
pub fn claimable_now(d: &Deposit, now: u64) -> (r: u64)
    requires
        d.duration_days > 0,
    ensures
        r == spec_actual_claim(*d, now),
{
    proof {
        assert(d.duration_days as int * SLOTS_PER_DAY as int <= u64::MAX) by (nonlinear_arith)
            requires
                d.duration_days <= u32::MAX,
        ;
        assert(spec_total_slots(*d) > 0) by (nonlinear_arith)
            requires
                d.duration_days >= 1,
        ;
    }
    let elapsed: u64 = now.saturating_sub(d.last_claimed_slot);
    let total_slots: u64 = (d.duration_days as u64) * SLOTS_PER_DAY;
    let rate_per_slot: u64 = d.deposit_amount / total_slots;
    let remaining: u64 = d.deposit_amount.saturating_sub(d.total_claimed);
    match rate_per_slot.checked_mul(elapsed) {
        Some(claimable) => if claimable <= remaining {
            claimable
        } else {
            remaining
        },
        None => remaining,
    }
}

/// A claim never releases a negative amount, and never more than what
/// remains unclaimed.
pub proof fn lemma_actual_claim_bounds(d: Deposit, now: u64)
    requires
        d.wf(),
    ensures
        0 <= spec_actual_claim(d, now) <= d.deposit_amount - d.total_claimed,
{
    assert(spec_total_slots(d) > 0) by (nonlinear_arith)
        requires
            d.duration_days >= 1,
    ;
    lemma_div_pos_is_pos(d.deposit_amount as int, spec_total_slots(d));
    lemma_mul_nonnegative(spec_rate_per_slot(d), spec_elapsed(d, now));
}

/// A claim attempt leaves the deposit well-formed, never touches the size,
/// amount, duration, or creation slot, and grows the claimed total by exactly
/// what it released.
pub proof fn lemma_after_claim_wf(d: Deposit, now: u64)
    requires
        d.wf(),
    ensures
        spec_after_claim(d, now).wf(),
        spec_after_claim(d, now).total_claimed == d.total_claimed + spec_actual_claim(d, now),
        spec_after_claim(d, now).deposit_amount == d.deposit_amount,
        spec_after_claim(d, now).duration_days == d.duration_days,
        spec_after_claim(d, now).file_size == d.file_size,
        spec_after_claim(d, now).deposit_slot == d.deposit_slot,
        spec_after_claim(d, now).last_claimed_slot >= d.last_claimed_slot,
{
    lemma_actual_claim_bounds(d, now);
    if spec_actual_claim(d, now) > 0 {
        // A positive claim means a positive vested amount, so time has
        // actually advanced past the old cursor.
        if spec_elapsed(d, now) == 0 {
            assert(spec_claimable(d, now) == 0);
        }
    }
}

/// Law (vesting boundedness, second half): a claim made before any time has
/// elapsed since the last claim releases nothing.
pub proof fn lemma_no_time_no_claim(d: Deposit, now: u64)
    requires
        now <= d.last_claimed_slot,
    ensures
        spec_actual_claim(d, now) == 0,
{
    assert(spec_claimable(d, now) == 0);
}

/// Total currency released by a sequence of claim attempts at the given
/// times, each applied to the deposit state the previous one left behind.
pub open spec fn spec_claimed_over(d: Deposit, times: Seq<u64>) -> int
    decreases times.len(),
{
    if times.len() == 0 {
        0
    } else {
        spec_actual_claim(d, times[0]) + spec_claimed_over(
            spec_after_claim(d, times[0]),
            times.drop_first(),
        )
    }
}

/// Law (vesting boundedness): over any sequence of claims against one
/// deposit with no extension, the total released never exceeds what was
/// outstanding at the start — in particular, starting from a fresh deposit it
/// never exceeds `deposit_amount`.
pub proof fn lemma_vesting_bounded(d: Deposit, times: Seq<u64>)
    requires
        d.wf(),
    ensures
        0 <= spec_claimed_over(d, times) <= d.deposit_amount - d.total_claimed,
    decreases times.len(),
{
    if times.len() > 0 {
        lemma_actual_claim_bounds(d, times[0]);
        lemma_after_claim_wf(d, times[0]);
        lemma_vesting_bounded(spec_after_claim(d, times[0]), times.drop_first());
    }
}

/// How much must have been released by the time the claim cursor reached its
/// current position: the per-slot rate times the slots the cursor has
/// covered, capped by the deposit amount. Claims maintain the claimed total
/// at or above this floor; a fresh deposit starts exactly on it.
pub open spec fn spec_vested_floor(d: Deposit) -> int {
    let vested = spec_rate_per_slot(d) * (d.last_claimed_slot - d.deposit_slot);
    if vested <= d.deposit_amount {
        vested
    } else {
        d.deposit_amount as int
    }
}

/// One claim attempt keeps the claimed total at or above the vested floor.
pub proof fn lemma_claim_keeps_floor(d: Deposit, now: u64)
    requires
        d.wf(),
        d.total_claimed >= spec_vested_floor(d),
    ensures
        spec_after_claim(d, now).total_claimed >= spec_vested_floor(spec_after_claim(d, now)),
{
    lemma_actual_claim_bounds(d, now);
    lemma_after_claim_wf(d, now);
    let a = spec_actual_claim(d, now);
    let q = spec_rate_per_slot(d);
    let post = spec_after_claim(d, now);
    if a > 0 {
        assert(spec_elapsed(d, now) > 0);
        assert(spec_rate_per_slot(post) == q);
        if a == spec_remaining(d) {
            // The cap decided: everything committed has now been released,
            // and the floor never exceeds the deposit amount.
            assert(post.total_claimed == d.deposit_amount);
        } else {
            // The linear formula decided: the old floor plus the newly vested
            // span covers the floor at the advanced cursor.
            assert(a == q * (now - d.last_claimed_slot));
            if spec_vested_floor(d) == d.deposit_amount as int {
                // Then the old claimed total already equals the full amount,
                // so nothing remained and the cap would have decided.
                assert(spec_remaining(d) == 0);
                assert(false);
            }
            assert(q * (d.last_claimed_slot - d.deposit_slot) + q * (now - d.last_claimed_slot)
                == q * (now - d.deposit_slot)) by (nonlinear_arith);
            assert(post.total_claimed >= q * (now - d.deposit_slot));
        }
    }
}

/// At or past the full vesting horizon, a claimed total that sits on the
/// vested floor has released the whole deposit, short of at most the
/// rounding loss of `total_slots − 1` units.
pub proof fn lemma_floor_terminal(d: Deposit)
    requires
        d.wf(),
        d.total_claimed >= spec_vested_floor(d),
        d.last_claimed_slot - d.deposit_slot >= spec_total_slots(d),
    ensures
        d.total_claimed >= d.deposit_amount - (spec_total_slots(d) - 1),
{
    let ts = spec_total_slots(d);
    let q = spec_rate_per_slot(d);
    assert(spec_total_slots(d) > 0) by (nonlinear_arith)
        requires
            d.duration_days >= 1,
    ;
    lemma_div_pos_is_pos(d.deposit_amount as int, ts);
    lemma_mul_inequality(ts, d.last_claimed_slot - d.deposit_slot, q);
    lemma_fundamental_div_mod(d.deposit_amount as int, ts);
    lemma_mod_bound(d.deposit_amount as int, ts);
    assert(ts * q == q * ts) by (nonlinear_arith);
    assert(q * (d.last_claimed_slot - d.deposit_slot) >= d.deposit_amount - (ts - 1));
}

/// The deposit left behind by a sequence of claim attempts at the given
/// times.
pub open spec fn spec_after_claims(d: Deposit, times: Seq<u64>) -> Deposit
    decreases times.len(),
{
    if times.len() == 0 {
        d
    } else {
        spec_after_claims(spec_after_claim(d, times[0]), times.drop_first())
    }
}

/// A sequence of claims keeps the deposit well-formed and its claimed total
/// at or above the vested floor, and never touches the schedule fields.
pub proof fn lemma_claims_keep_floor(d: Deposit, times: Seq<u64>)
    requires
        d.wf(),
        d.total_claimed >= spec_vested_floor(d),
    ensures
        spec_after_claims(d, times).wf(),
        spec_after_claims(d, times).total_claimed >= spec_vested_floor(spec_after_claims(d, times)),
        spec_after_claims(d, times).deposit_amount == d.deposit_amount,
        spec_after_claims(d, times).duration_days == d.duration_days,
        spec_after_claims(d, times).deposit_slot == d.deposit_slot,
    decreases times.len(),
{
    if times.len() > 0 {
        lemma_after_claim_wf(d, times[0]);
        lemma_claim_keeps_floor(d, times[0]);
        lemma_claims_keep_floor(spec_after_claim(d, times[0]), times.drop_first());
    }
}

/// Law (full-vesting terminal behavior): starting from a fresh deposit, once
/// a sequence of claims has carried the cursor to or past the full vesting
/// horizon, the claims together have released the whole deposit amount, short
/// of at most the integer-division rounding loss of `total_slots − 1`
/// currency units.
pub proof fn lemma_full_vesting(d: Deposit, times: Seq<u64>)
    requires
        d.wf(),
        d.total_claimed == 0,
        d.last_claimed_slot == d.deposit_slot,
        spec_after_claims(d, times).last_claimed_slot - d.deposit_slot >= spec_total_slots(d),
    ensures
        spec_after_claims(d, times).total_claimed >= d.deposit_amount - (spec_total_slots(d) - 1),
        spec_after_claims(d, times).total_claimed <= d.deposit_amount,
{
    assert(spec_vested_floor(d) == 0) by {
        assert(spec_rate_per_slot(d) * 0 == 0) by (nonlinear_arith);
    };
    lemma_claims_keep_floor(d, times);
    lemma_floor_terminal(spec_after_claims(d, times));
}

/// Law (full-vesting terminal behavior, single claim): a single claim on a
/// fresh deposit at or past the full vesting horizon releases the whole
/// deposit amount, short of at most the rounding loss of `total_slots − 1`
/// units.
pub proof fn lemma_full_vesting_single(d: Deposit, now: u64)
    requires
        d.wf(),
        d.total_claimed == 0,
        d.last_claimed_slot == d.deposit_slot,
        now - d.deposit_slot >= spec_total_slots(d),
    ensures
        d.deposit_amount - (spec_total_slots(d) - 1) <= spec_after_claim(d, now).total_claimed
            <= d.deposit_amount,
{
    let ts = spec_total_slots(d);
    let q = spec_rate_per_slot(d);
    assert(spec_total_slots(d) > 0) by (nonlinear_arith)
        requires
            d.duration_days >= 1,
    ;
    lemma_actual_claim_bounds(d, now);
    lemma_after_claim_wf(d, now);
    lemma_div_pos_is_pos(d.deposit_amount as int, ts);
    lemma_mul_inequality(ts, spec_elapsed(d, now), q);
    lemma_fundamental_div_mod(d.deposit_amount as int, ts);
    lemma_mod_bound(d.deposit_amount as int, ts);
    assert(ts * q == q * ts) by (nonlinear_arith);
    assert(spec_claimable(d, now) >= d.deposit_amount - (ts - 1));
}

} // verus!
