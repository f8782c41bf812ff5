use stake_warmup::warmup::{
    apply_epoch_step, calculate_stake_warmup, is_settled, StakeSnapshot, WarmupConfig,
};

fn quarter_rates() -> WarmupConfig {
    WarmupConfig {
        warmup_numerator: 1,
        warmup_denominator: 4,
        cooldown_numerator: 1,
        cooldown_denominator: 4,
    }
}

#[test]
fn already_settled_returns_zero() {
    let snapshot = StakeSnapshot { effective: 1000, activating: 10, deactivating: 10 };
    assert!(is_settled(&snapshot));
    assert_eq!(calculate_stake_warmup(snapshot, &quarter_rates()), 0);
}

#[test]
fn zero_effective_returns_finite_count() {
    let snapshot = StakeSnapshot { effective: 0, activating: 100, deactivating: 0 };
    assert!(!is_settled(&snapshot));
    let epochs = calculate_stake_warmup(snapshot, &quarter_rates());
    assert_eq!(epochs, 1);
}

#[test]
fn rate_cap_bounds_single_step() {
    let snapshot = StakeSnapshot { effective: 100, activating: 100, deactivating: 0 };
    let stepped = apply_epoch_step(&snapshot, &quarter_rates());
    assert_eq!(stepped, StakeSnapshot { effective: 125, activating: 75, deactivating: 0 });
}

#[test]
fn cooldown_cap_uses_updated_effective() {
    let snapshot = StakeSnapshot { effective: 100, activating: 100, deactivating: 30 };
    let stepped = apply_epoch_step(&snapshot, &quarter_rates());
    // Warmup first: effective rises to 125, so the cooldown cap is
    // floor(125 / 4) = 31 and all 30 deactivating units drain at once.
    assert_eq!(stepped, StakeSnapshot { effective: 95, activating: 75, deactivating: 0 });
}

#[test]
fn quarter_rate_converges_in_single_digit_epochs() {
    let snapshot = StakeSnapshot { effective: 1000, activating: 1000, deactivating: 0 };
    let epochs = calculate_stake_warmup(snapshot, &quarter_rates());
    assert_eq!(epochs, 3);
    assert!(epochs < 10);
}

#[test]
fn threshold_is_strict() {
    // Exactly 5% activating is not yet settled; just below it is.
    let at_threshold = StakeSnapshot { effective: 100, activating: 5, deactivating: 0 };
    assert!(!is_settled(&at_threshold));
    let below_threshold = StakeSnapshot { effective: 100, activating: 4, deactivating: 0 };
    assert!(is_settled(&below_threshold));
    assert_eq!(calculate_stake_warmup(at_threshold, &quarter_rates()), 1);
}

#[test]
fn cooldown_drains_over_epochs() {
    let snapshot = StakeSnapshot { effective: 1000, activating: 0, deactivating: 300 };
    assert_eq!(calculate_stake_warmup(snapshot, &quarter_rates()), 2);
}

#[test]
fn large_totals_simulate_without_overflow() {
    let config = quarter_rates();
    let settled_large =
        StakeSnapshot { effective: u64::MAX - 100, activating: 50, deactivating: 50 };
    assert_eq!(calculate_stake_warmup(settled_large, &config), 0);
    let big = u64::MAX / 2;
    let large = StakeSnapshot { effective: big, activating: big / 10, deactivating: 0 };
    assert_eq!(calculate_stake_warmup(large, &config), 1);
}

#[test]
fn repeated_steps_never_grow_moving_stake() {
    let config = quarter_rates();
    let mut snapshot = StakeSnapshot { effective: 50, activating: 900, deactivating: 400 };
    let total = 50 + 900 + 400;
    let mut moving = snapshot.activating + snapshot.deactivating;
    for _ in 0..20 {
        snapshot = apply_epoch_step(&snapshot, &config);
        assert!(snapshot.activating + snapshot.deactivating <= moving);
        assert!(snapshot.effective <= total);
        moving = snapshot.activating + snapshot.deactivating;
    }
}

#[test]
fn simulation_count_never_exceeds_moving_stake() {
    let config = quarter_rates();
    let snapshot = StakeSnapshot { effective: 1, activating: 7, deactivating: 3 };
    let epochs = calculate_stake_warmup(snapshot, &config);
    assert!(epochs <= 7 + 3);
}
