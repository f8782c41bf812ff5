//! Stake warmup prediction and activation waiting for a proof-of-stake chain.
//!
//! The `warmup` module holds a pure simulator that, from a network-wide stake
//! snapshot and the chain's warmup/cooldown rate caps, computes how many more
//! epochs must pass before the activating and deactivating fractions of the
//! stake fall below the settling threshold.
//!
//! The `waiter` module holds the decision logic of a polling loop that drives
//! the simulator against live chain state: it is a state machine from observed
//! chain events (epoch info, slot numbers, stake history entries) to the next
//! state and the effects to perform (sleeps and notifications). The caller
//! performs the actual data fetching, sleeping and notifying, and feeds the
//! results back in as events.

pub mod waiter;
pub mod warmup;
