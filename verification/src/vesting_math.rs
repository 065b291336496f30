use crate::state::Vesting;
use vstd::arithmetic::div_mod::{
    lemma_div_is_ordered, lemma_div_multiples_vanish, lemma_div_pos_is_pos,
};
use vstd::arithmetic::mul::{
    lemma_mul_inequality, lemma_mul_is_commutative, lemma_mul_nonnegative, lemma_mul_upper_bound,
};
use vstd::prelude::*;

verus! {

/// The linear vesting curve: nothing before the cliff, the whole grant
/// from the end of the duration, and the exact floored proportion
/// `total * elapsed / duration` in between.
pub open spec fn spec_vested_amount(v: Vesting, now: int) -> int {
    let elapsed = now - v.start_ts;
    if elapsed < v.cliff_seconds {
        0
    } else if elapsed >= v.duration_seconds {
        v.total_amount as int
    } else {
        v.total_amount * elapsed / (v.duration_seconds as int)
    }
}

/// The vested amount always lies between zero and the full grant.
pub proof fn lemma_vested_amount_range(v: Vesting, now: int)
    requires
        v.wf(),
    ensures
        0 <= spec_vested_amount(v, now) <= v.total_amount,
{
    let elapsed = now - v.start_ts;
    let total = v.total_amount as int;
    let duration = v.duration_seconds as int;
    if v.cliff_seconds <= elapsed < v.duration_seconds {
        lemma_mul_nonnegative(total, elapsed);
        lemma_div_pos_is_pos(total * elapsed, duration);
        lemma_mul_inequality(elapsed, duration, total);
        lemma_mul_is_commutative(elapsed, total);
        lemma_mul_is_commutative(duration, total);
        lemma_div_is_ordered(total * elapsed, total * duration, duration);
        lemma_mul_is_commutative(total, duration);
        lemma_div_multiples_vanish(total, duration);
    }
}

/// The vested amount never decreases as time advances.
pub proof fn lemma_vested_amount_monotonic(v: Vesting, n1: int, n2: int)
    requires
        v.wf(),
        n1 <= n2,
    ensures
        spec_vested_amount(v, n1) <= spec_vested_amount(v, n2),
{
    let e1 = n1 - v.start_ts;
    let e2 = n2 - v.start_ts;
    let total = v.total_amount as int;
    let duration = v.duration_seconds as int;
    lemma_vested_amount_range(v, n1);
    lemma_vested_amount_range(v, n2);
    if v.cliff_seconds <= e1 < v.duration_seconds && v.cliff_seconds <= e2 < v.duration_seconds {
        lemma_mul_inequality(e1, e2, total);
        lemma_mul_is_commutative(e1, total);
        lemma_mul_is_commutative(e2, total);
        lemma_div_is_ordered(total * e1, total * e2, duration);
    }
}

/// Before the cliff ends, nothing has vested.
pub proof fn lemma_vested_amount_before_cliff(v: Vesting, now: int)
    requires
        v.wf(),
        now < v.start_ts + v.cliff_seconds,
    ensures
        spec_vested_amount(v, now) == 0,
{
}

/// From the end of the vesting duration on, the whole grant has vested.
pub proof fn lemma_vested_amount_after_duration(v: Vesting, now: int)
    requires
        v.wf(),
        now >= v.start_ts + v.duration_seconds,
    ensures
        spec_vested_amount(v, now) == v.total_amount,
{
}

/// Computes the vested amount of a schedule at a given time.
///
/// The multiplication runs at double width, so the exact floored
/// proportion is returned for every representable schedule and time.
pub fn calculate_vested_amount(vesting: &Vesting, current_ts: i64) -> (vested: u64)
    requires
        vesting.wf(),
    ensures
        vested == spec_vested_amount(*vesting, current_ts as int),
{
    if current_ts < vesting.start_ts {
        // The grant has not begun: elapsed time is negative, hence
        // below the (non-negative) cliff.
        return 0;
    }
    let elapsed_wide: i128 = (current_ts as i128) - (vesting.start_ts as i128);
    let elapsed: u64 = elapsed_wide as u64;
    assert(elapsed == current_ts - vesting.start_ts);
    if elapsed < vesting.cliff_seconds {
        return 0;
    }
    if elapsed >= vesting.duration_seconds {
        return vesting.total_amount;
    }
    proof {
        lemma_mul_upper_bound(
            vesting.total_amount as int,
            u64::MAX as int,
            elapsed as int,
            u64::MAX as int,
        );
    }
    let numerator: u128 = (vesting.total_amount as u128) * (elapsed as u128);
    let quotient: u128 = numerator / (vesting.duration_seconds as u128);
    proof {
        lemma_vested_amount_range(*vesting, current_ts as int);
    }
    quotient as u64
}

} // verus!
