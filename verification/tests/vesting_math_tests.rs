use presale::state::Vesting;
use presale::vesting_math::calculate_vested_amount;

fn schedule(total: u64, start: i64, cliff: u64, duration: u64) -> Vesting {
    Vesting {
        beneficiary: [7u8; 32],
        total_amount: total,
        released: 0,
        start_ts: start,
        cliff_seconds: cliff,
        duration_seconds: duration,
        revocable: true,
        revoked: false,
    }
}

#[test]
fn vested_follows_the_linear_curve() {
    let v = schedule(1000, 0, 100, 1000);
    assert_eq!(calculate_vested_amount(&v, 50), 0);
    assert_eq!(calculate_vested_amount(&v, 100), 100);
    assert_eq!(calculate_vested_amount(&v, 550), 550);
    assert_eq!(calculate_vested_amount(&v, 1000), 1000);
    assert_eq!(calculate_vested_amount(&v, 5000), 1000);
}

#[test]
fn vested_is_zero_before_start() {
    let v = schedule(1000, 100, 0, 1000);
    assert_eq!(calculate_vested_amount(&v, 99), 0);
    assert_eq!(calculate_vested_amount(&v, -5000), 0);
    assert_eq!(calculate_vested_amount(&v, i64::MIN), 0);
}

#[test]
fn vested_is_zero_through_the_whole_cliff() {
    let v = schedule(1000, 0, 100, 1000);
    assert_eq!(calculate_vested_amount(&v, 0), 0);
    assert_eq!(calculate_vested_amount(&v, 99), 0);
    // The first instant past the cliff already vests proportionally.
    assert_eq!(calculate_vested_amount(&v, 100), 100);
}

#[test]
fn vested_rounds_down() {
    let v = schedule(10, 0, 0, 3);
    assert_eq!(calculate_vested_amount(&v, 1), 3);
    assert_eq!(calculate_vested_amount(&v, 2), 6);
    assert_eq!(calculate_vested_amount(&v, 3), 10);
}

#[test]
fn vested_with_negative_start_counts_elapsed_across_zero() {
    let v = schedule(1000, -1000, 0, 1000);
    assert_eq!(calculate_vested_amount(&v, -500), 500);
    assert_eq!(calculate_vested_amount(&v, 0), 1000);
}

#[test]
fn vested_handles_extreme_widths_exactly() {
    // The elapsed time spans nearly the whole signed 64-bit range and
    // the product needs double width; the floored proportion is exact.
    let v = schedule(u64::MAX, i64::MIN, 0, u64::MAX);
    assert_eq!(calculate_vested_amount(&v, i64::MAX), u64::MAX);
    assert_eq!(calculate_vested_amount(&v, -1), 9223372036854775807);
}

#[test]
fn vested_when_cliff_equals_duration_jumps_to_full() {
    let v = schedule(1000, 0, 1000, 1000);
    assert_eq!(calculate_vested_amount(&v, 999), 0);
    assert_eq!(calculate_vested_amount(&v, 1000), 1000);
}

#[test]
fn vested_is_monotonic_over_a_sweep() {
    let v = schedule(997, 0, 50, 731);
    let mut prev = 0u64;
    let mut now: i64 = -10;
    while now <= 800 {
        let cur = calculate_vested_amount(&v, now);
        assert!(cur >= prev);
        prev = cur;
        now += 1;
    }
    assert_eq!(prev, 997);
}
