//! Pure simulator for the chain's stake warmup/cooldown curve.
//!
//! Network-wide stake moves between three buckets: `activating` stake folds
//! into `effective` stake, and `deactivating` stake drains out of `effective`,
//! each capped per epoch by a rate expressed as a fraction of the effective
//! stake. The simulator iterates hypothetical future epochs until both the
//! activating and the deactivating fraction of the effective stake fall below
//! the settling threshold, and reports how many epochs that takes.

use vstd::arithmetic::div_mod::{
    lemma_div_is_ordered, lemma_div_multiples_vanish, lemma_div_pos_is_pos,
};
use vstd::arithmetic::mul::{
    lemma_mul_inequality, lemma_mul_is_commutative, lemma_mul_nonnegative, lemma_mul_upper_bound,
};
use vstd::prelude::*;

verus! {

/// Numerator of the settling threshold: stake counts as settled once both the
/// activating and the deactivating ratio are strictly below 1/20 (5%).
pub const SETTLED_THRESHOLD_NUMERATOR: u64 = 1;

/// Denominator of the settling threshold.
pub const SETTLED_THRESHOLD_DENOMINATOR: u64 = 20;

/// Network-wide stake totals for one epoch, as recorded in the chain's stake
/// history. The simulator works on a copy of such a record; historical entries
/// themselves are immutable once the chain has written them.
#[derive(Clone, Copy, PartialEq, Eq, Debug)]
pub struct StakeSnapshot {
    /// Stake counted toward consensus this epoch.
    pub effective: u64,
    /// Stake newly delegated, not yet effective.
    pub activating: u64,
    /// Stake being withdrawn, still effective until cooled down.
    pub deactivating: u64,
}

/// Per-epoch caps on how much stake may warm up or cool down, each a fraction
/// in (0, 1] given as numerator over denominator.
#[derive(Clone, Copy, PartialEq, Eq, Debug)]
pub struct WarmupConfig {
    /// Numerator of the largest fraction of effective stake that may newly
    /// activate in one epoch.
    pub warmup_numerator: u64,
    /// Denominator of the warmup rate.
    pub warmup_denominator: u64,
    /// Numerator of the largest fraction of effective stake that may
    /// deactivate in one epoch.
    pub cooldown_numerator: u64,
    /// Denominator of the cooldown rate.
    pub cooldown_denominator: u64,
}

impl WarmupConfig {
    /// Both rates are fractions in (0, 1].
    pub open spec fn valid(self) -> bool {
        &&& 0 < self.warmup_numerator <= self.warmup_denominator
        &&& 0 < self.cooldown_numerator <= self.cooldown_denominator
    }
}

/// All stake of a snapshot, summed without overflow.
pub open spec fn total_stake(s: StakeSnapshot) -> int {
    s.effective + s.activating + s.deactivating
}

/// The snapshot's total fits the machine word, so that one epoch step can be
/// computed in `u64` arithmetic.
pub open spec fn bounded(s: StakeSnapshot) -> bool {
    total_stake(s) <= u64::MAX
}

/// Denominator used for the warming/cooling ratios: the effective stake,
/// floored at 1 so that a snapshot with zero effective stake yields finite
/// ratios instead of a division by zero.
pub open spec fn effective_floor(s: StakeSnapshot) -> int {
    if s.effective == 0 {
        1
    } else {
        s.effective as int
    }
}

/// Both the activating and the deactivating ratio of the snapshot are
/// strictly below the settling threshold.
pub open spec fn settled(s: StakeSnapshot) -> bool {
    &&& (s.activating as int) * (SETTLED_THRESHOLD_DENOMINATOR as int) < effective_floor(s) * (
    SETTLED_THRESHOLD_NUMERATOR as int)
    &&& (s.deactivating as int) * (SETTLED_THRESHOLD_DENOMINATOR as int) < effective_floor(s) * (
    SETTLED_THRESHOLD_NUMERATOR as int)
}

/// Stake that warms up in one epoch step: the activating stake, capped by the
/// warmup rate applied to the effective stake.
pub open spec fn warmup_amount(s: StakeSnapshot, c: WarmupConfig) -> int {
    let cap = (s.effective as int) * (c.warmup_numerator as int) / (c.warmup_denominator as int);
    if s.activating as int <= cap {
        s.activating as int
    } else {
        cap
    }
}

/// Stake that cools down in one epoch step: the deactivating stake, capped by
/// the cooldown rate applied to the effective stake as it stands after the
/// warmup of the same step, matching the chain's per-epoch settlement order.
pub open spec fn cooldown_amount(s: StakeSnapshot, c: WarmupConfig) -> int {
    let warmed = s.effective as int + warmup_amount(s, c);
    let cap = warmed * (c.cooldown_numerator as int) / (c.cooldown_denominator as int);
    if s.deactivating as int <= cap {
        s.deactivating as int
    } else {
        cap
    }
}

/// One epoch of stake settlement: warmup folds into the effective stake,
/// then cooldown drains out of it.
pub open spec fn epoch_step(s: StakeSnapshot, c: WarmupConfig) -> StakeSnapshot {
    StakeSnapshot {
        effective: (s.effective + warmup_amount(s, c) - cooldown_amount(s, c)) as u64,
        activating: (s.activating - warmup_amount(s, c)) as u64,
        deactivating: (s.deactivating - cooldown_amount(s, c)) as u64,
    }
}

/// An epoch step that moves no stake at all: with zero effective stake the
/// rate caps are zero, so the snapshot would never change again.
pub open spec fn step_stalled(s: StakeSnapshot, c: WarmupConfig) -> bool {
    warmup_amount(s, c) == 0 && cooldown_amount(s, c) == 0
}

/// Number of future epochs until the snapshot settles: zero if it is already
/// settled, and one for a snapshot that is not settled but can never change
/// (so the caller re-checks after one more epoch instead of spinning).
pub open spec fn simulated_epochs(s: StakeSnapshot, c: WarmupConfig) -> nat
    decreases s.activating + s.deactivating,
        when c.valid()
{
    if settled(s) {
        0
    } else if step_stalled(s, c) {
        1
    } else {
        proof {
            lemma_amount_bounds(s, c);
        }
        (1 + simulated_epochs(epoch_step(s, c), c)) as nat
    }
}

/// Both per-step amounts are within the buckets they drain and within the
/// effective stake that backs them.
pub proof fn lemma_amount_bounds(s: StakeSnapshot, c: WarmupConfig)
    requires
        c.valid(),
    ensures
        0 <= warmup_amount(s, c) <= s.activating,
        0 <= cooldown_amount(s, c) <= s.deactivating,
        cooldown_amount(s, c) <= s.effective + warmup_amount(s, c),
{
    let e = s.effective as int;
    let wn = c.warmup_numerator as int;
    let wd = c.warmup_denominator as int;
    lemma_mul_nonnegative(e, wn);
    lemma_div_pos_is_pos(e * wn, wd);
    lemma_mul_inequality(wn, wd, e);
    lemma_mul_is_commutative(e, wn);
    lemma_mul_is_commutative(e, wd);
    lemma_div_is_ordered(e * wn, e * wd, wd);
    lemma_div_multiples_vanish(e, wd);
    let warmed = e + warmup_amount(s, c);
    let cn = c.cooldown_numerator as int;
    let cd = c.cooldown_denominator as int;
    lemma_mul_nonnegative(warmed, cn);
    lemma_div_pos_is_pos(warmed * cn, cd);
    lemma_mul_inequality(cn, cd, warmed);
    lemma_mul_is_commutative(warmed, cn);
    lemma_mul_is_commutative(warmed, cd);
    lemma_div_is_ordered(warmed * cn, warmed * cd, cd);
    lemma_div_multiples_vanish(warmed, cd);
}

/// One epoch step neither destroys a bucket nor creates stake: the activating
/// and deactivating buckets only shrink, and the effective stake stays within
/// the snapshot's original total.
pub proof fn lemma_epoch_step(s: StakeSnapshot, c: WarmupConfig)
    requires
        c.valid(),
        bounded(s),
    ensures
        epoch_step(s, c).activating == s.activating - warmup_amount(s, c),
        epoch_step(s, c).deactivating == s.deactivating - cooldown_amount(s, c),
        epoch_step(s, c).effective == s.effective + warmup_amount(s, c) - cooldown_amount(s, c),
        epoch_step(s, c).activating + epoch_step(s, c).deactivating <= s.activating
            + s.deactivating,
        epoch_step(s, c).effective <= total_stake(s),
        total_stake(epoch_step(s, c)) <= total_stake(s),
        bounded(epoch_step(s, c)),
{
    lemma_amount_bounds(s, c);
}

/// The snapshot after `n` epoch steps.
pub open spec fn epoch_step_n(s: StakeSnapshot, c: WarmupConfig, n: nat) -> StakeSnapshot
    decreases n,
{
    if n == 0 {
        s
    } else {
        epoch_step(epoch_step_n(s, c, (n - 1) as nat), c)
    }
}

/// Law: however often the epoch step is applied, the sum of activating and
/// deactivating stake never increases, and the effective stake stays within
/// `[0, effective + activating + deactivating]` of the original snapshot —
/// the warmup arithmetic neither creates nor destroys stake.
pub proof fn lemma_warmup_preserves_totals(s: StakeSnapshot, c: WarmupConfig, n: nat)
    requires
        c.valid(),
        bounded(s),
    ensures
        epoch_step_n(s, c, n).activating + epoch_step_n(s, c, n).deactivating <= s.activating
            + s.deactivating,
        0 <= epoch_step_n(s, c, n).effective <= total_stake(s),
        total_stake(epoch_step_n(s, c, n)) <= total_stake(s),
        bounded(epoch_step_n(s, c, n)),
    decreases n,
{
    if n > 0 {
        lemma_warmup_preserves_totals(s, c, (n - 1) as nat);
        lemma_epoch_step(epoch_step_n(s, c, (n - 1) as nat), c);
    }
}

/// Law: the simulation terminates within a bounded number of epochs — never
/// more steps than there is activating and deactivating stake to move, since
/// every counted step either moves at least one unit of stake or is the one
/// terminal step of a snapshot that can never change.
pub proof fn lemma_simulated_epochs_bounded(s: StakeSnapshot, c: WarmupConfig)
    requires
        c.valid(),
    ensures
        simulated_epochs(s, c) <= s.activating + s.deactivating,
    decreases s.activating + s.deactivating,
{
    if settled(s) {
    } else if step_stalled(s, c) {
        assert(effective_floor(s) >= 1);
    } else {
        lemma_amount_bounds(s, c);
        lemma_simulated_epochs_bounded(epoch_step(s, c), c);
    }
}

/// `value * numerator / denominator`, rounded down, computed without overflow
/// through a 128-bit intermediate.
fn mul_div_floor(value: u64, numerator: u64, denominator: u64) -> (r: u64)
    requires
        0 < denominator,
        numerator <= denominator,
    ensures
        r as int == (value as int) * (numerator as int) / (denominator as int),
{
    proof {
        let v = value as int;
        let n = numerator as int;
        let d = denominator as int;
        lemma_mul_upper_bound(v, u64::MAX as int, n, u64::MAX as int);
        lemma_mul_nonnegative(v, n);
        lemma_div_pos_is_pos(v * n, d);
        lemma_mul_inequality(n, d, v);
        lemma_mul_is_commutative(v, n);
        lemma_mul_is_commutative(v, d);
        lemma_div_is_ordered(v * n, v * d, d);
        lemma_div_multiples_vanish(v, d);
    }
    let product: u128 = (value as u128) * (numerator as u128);
    let quotient: u128 = product / (denominator as u128);
    quotient as u64
}

/// Whether both the activating and the deactivating ratio of the snapshot
/// are strictly below the settling threshold.
pub fn is_settled(snapshot: &StakeSnapshot) -> (r: bool)
    ensures
        r == settled(*snapshot),
{
    proof {
        lemma_mul_upper_bound(
            snapshot.activating as int,
            u64::MAX as int,
            SETTLED_THRESHOLD_DENOMINATOR as int,
            u64::MAX as int,
        );
        lemma_mul_upper_bound(
            snapshot.deactivating as int,
            u64::MAX as int,
            SETTLED_THRESHOLD_DENOMINATOR as int,
            u64::MAX as int,
        );
        lemma_mul_upper_bound(
            effective_floor(*snapshot),
            u64::MAX as int,
            SETTLED_THRESHOLD_NUMERATOR as int,
            u64::MAX as int,
        );
    }
    let floor: u64 = if snapshot.effective == 0 {
        1
    } else {
        snapshot.effective
    };
    let activating_scaled: u128 = (snapshot.activating as u128) * (
    SETTLED_THRESHOLD_DENOMINATOR as u128);
    let deactivating_scaled: u128 = (snapshot.deactivating as u128) * (
    SETTLED_THRESHOLD_DENOMINATOR as u128);
    let floor_scaled: u128 = (floor as u128) * (SETTLED_THRESHOLD_NUMERATOR as u128);
    activating_scaled < floor_scaled && deactivating_scaled < floor_scaled
}

/// The amounts one epoch step would move: stake that warms up and stake that
/// cools down, in the chain's settlement order.
fn step_amounts(snapshot: &StakeSnapshot, config: &WarmupConfig) -> (r: (u64, u64))
    requires
        config.valid(),
        bounded(*snapshot),
    ensures
        r.0 == warmup_amount(*snapshot, *config),
        r.1 == cooldown_amount(*snapshot, *config),
{
    proof {
        lemma_amount_bounds(*snapshot, *config);
    }
    let warmup_cap: u64 = mul_div_floor(
        snapshot.effective,
        config.warmup_numerator,
        config.warmup_denominator,
    );
    let warmup_stake: u64 = if snapshot.activating <= warmup_cap {
        snapshot.activating
    } else {
        warmup_cap
    };
    let warmed: u64 = snapshot.effective + warmup_stake;
    let cooldown_cap: u64 = mul_div_floor(
        warmed,
        config.cooldown_numerator,
        config.cooldown_denominator,
    );
    let cooldown_stake: u64 = if snapshot.deactivating <= cooldown_cap {
        snapshot.deactivating
    } else {
        cooldown_cap
    };
    (warmup_stake, cooldown_stake)
}

/// One epoch of stake settlement, applied to a copy of the snapshot: warmup
/// folds into the effective stake, then cooldown — capped against the already
/// warmed-up effective stake — drains out of it.
pub fn apply_epoch_step(snapshot: &StakeSnapshot, config: &WarmupConfig) -> (r: StakeSnapshot)
    requires
        config.valid(),
        bounded(*snapshot),
    ensures
        r == epoch_step(*snapshot, *config),
        bounded(r),
{
    proof {
        lemma_epoch_step(*snapshot, *config);
    }
    let amounts: (u64, u64) = step_amounts(snapshot, config);
    StakeSnapshot {
        effective: snapshot.effective + amounts.0 - amounts.1,
        activating: snapshot.activating - amounts.0,
        deactivating: snapshot.deactivating - amounts.1,
    }
}

/// Number of future epochs until the snapshot settles below the threshold:
/// `0` if it is already settled, and `1` for a snapshot that is not settled
/// but that no epoch step can change (zero effective stake zeroes both rate
/// caps), so that the caller re-checks after the next epoch instead of
/// predicting an infinite wait.
pub fn calculate_stake_warmup(snapshot: StakeSnapshot, config: &WarmupConfig) -> (epochs: u64)
    requires
        config.valid(),
        bounded(snapshot),
    ensures
        epochs == simulated_epochs(snapshot, *config),
{
    proof {
        lemma_simulated_epochs_bounded(snapshot, *config);
    }
    let mut entry: StakeSnapshot = snapshot;
    let mut epochs: u64 = 0;
    loop
        invariant
            config.valid(),
            bounded(entry),
            epochs + simulated_epochs(entry, *config) == simulated_epochs(snapshot, *config),
            simulated_epochs(snapshot, *config) <= u64::MAX,
        decreases entry.activating + entry.deactivating,
    {
        if is_settled(&entry) {
            return epochs;
        }
        let amounts: (u64, u64) = step_amounts(&entry, config);
        if amounts.0 == 0 && amounts.1 == 0 {
            return epochs + 1;
        }
        proof {
            lemma_epoch_step(entry, *config);
        }
        entry = StakeSnapshot {
            effective: entry.effective + amounts.0 - amounts.1,
            activating: entry.activating - amounts.0,
            deactivating: entry.deactivating - amounts.1,
        };
        epochs = epochs + 1;
    }
}

} // verus!
