//! Decision logic of the activation wait loop.
//!
//! The waiter polls live chain state until a delegated stake has finished
//! activating. It is written as a state machine: the state names what the
//! driver must fetch next (epoch info, a slot number, or a stake history
//! entry), the driver performs the fetch together with any pending sleeps and
//! notifications, and hands the outcome back as a [`ChainEvent`]. Each
//! transition also yields the [`Effects`] — a notification and a pause — that
//! the driver performs before the next fetch. `Done` and `Aborted` are
//! terminal: the driver returns on `Done` and routes an `Aborted` fault to
//! the notification sink's fatal path.
//!
//! One polling round works through the states `Polling` (fetch epoch info),
//! `FetchingSlot` (capture the slot that opens the round), `FetchingHistory`
//! (look up the stake snapshot of the last completed epoch and simulate its
//! warmup), and `CheckingLiveness` (fetch the slot once more; a slot number
//! unchanged across the whole round means the chain has stalled and epoch
//! timing predictions are meaningless). A missing history entry is not a
//! failure: the round ends early with a short wall-clock backoff and no
//! liveness probe, and the next round retries.

use crate::warmup::{bounded, calculate_stake_warmup, simulated_epochs, StakeSnapshot, WarmupConfig};
use vstd::prelude::*;

verus! {

/// Seconds of wall-clock backoff before re-polling after a missing stake
/// history entry. This pause is not epoch-aligned: the gap is expected to
/// close on chain time of its own.
pub const DATA_GAP_BACKOFF_SECONDS: u64 = 5;

/// The live chain's position, re-fetched fresh on every polling round and
/// never cached across rounds.
#[derive(Clone, Copy, PartialEq, Eq, Debug)]
pub struct EpochContext {
    /// The epoch currently in progress.
    pub epoch: u64,
    /// Offset of the current slot within that epoch.
    pub slot_index: u64,
    /// Length of that epoch in slots.
    pub slots_in_epoch: u64,
}

impl EpochContext {
    /// The slot offset lies within the epoch.
    pub open spec fn wf(self) -> bool {
        self.slot_index <= self.slots_in_epoch
    }
}

/// The caller's question: has the stake delegated to activate at this epoch
/// finished activating?
#[derive(Clone, Copy, PartialEq, Eq, Debug)]
pub struct ActivationRequest {
    /// The epoch at which the delegated stake starts to activate.
    pub activation_epoch: u64,
}

/// A progress message for the notification sink; the driver renders it.
#[derive(Clone, Copy, PartialEq, Eq, Debug)]
pub enum Notice {
    /// The waiter sleeps until the named activation epoch has finished.
    AwaitingEpochEnd {
        /// The epoch being awaited.
        activation_epoch: u64,
    },
    /// The simulator predicts more warmup epochs; the waiter sleeps out the
    /// epoch in progress and re-checks at the boundary.
    AwaitingWarmup {
        /// The last completed epoch, whose snapshot was simulated.
        current_epoch: u64,
        /// The epoch at which the warmup is predicted to be finished.
        predicted_epoch: u64,
    },
    /// The stake history holds no entry yet for the queried epoch; the
    /// waiter backs off briefly and retries.
    HistoryGap {
        /// The epoch whose entry was missing.
        epoch: u64,
    },
}

/// An unrecoverable condition; the driver routes it to the notification
/// sink's fatal path and stops.
#[derive(Clone, Copy, PartialEq, Eq, Debug)]
pub enum Fault {
    /// Fetching epoch info failed at the transport level.
    EpochInfoUnavailable,
    /// Fetching the current slot failed at the transport level.
    SlotUnavailable,
    /// The slot number did not advance across one whole polling round.
    ChainStalled {
        /// The slot the chain was stuck at.
        slot: u64,
    },
}

/// A blocking pause the driver must perform.
#[derive(Clone, Copy, PartialEq, Eq, Debug)]
pub enum Pause {
    /// Sleep for this many slots of chain time.
    Slots {
        /// How many slots to sleep through.
        count: u64,
    },
    /// Sleep [`DATA_GAP_BACKOFF_SECONDS`] of wall-clock time.
    Backoff,
}

/// What one transition asks of the driver, performed before the next fetch.
#[derive(Clone, Copy, PartialEq, Eq, Debug)]
pub struct Effects {
    /// A message for the notification sink, if any.
    pub notice: Option<Notice>,
    /// A pause to perform, if any.
    pub pause: Option<Pause>,
}

/// What the chain reported, handed back by the driver to answer the fetch
/// its state asked for.
#[derive(Clone, Copy, PartialEq, Eq, Debug)]
pub enum ChainEvent {
    /// Fetching epoch info succeeded.
    EpochInfo {
        /// The chain's position.
        context: EpochContext,
    },
    /// Fetching epoch info failed at the transport level.
    EpochInfoFailed,
    /// Fetching the current slot succeeded.
    Slot {
        /// The current slot number.
        slot: u64,
    },
    /// Fetching the current slot failed at the transport level.
    SlotFailed,
    /// The stake history holds an entry for the queried epoch.
    HistoryEntry {
        /// That entry.
        snapshot: StakeSnapshot,
    },
    /// The stake history holds no entry for the queried epoch; this is a
    /// data gap, distinct from a transport failure.
    HistoryEntryAbsent,
}

/// The waiter's state; each non-terminal variant names what the driver must
/// fetch next.
#[derive(Clone, Copy, PartialEq, Eq, Debug)]
pub enum WaiterState {
    /// Fetch epoch info next.
    Polling,
    /// Epoch info is in hand; fetch the slot that opens this round next.
    FetchingSlot {
        /// The chain's position, fetched this round.
        context: EpochContext,
    },
    /// Fetch the stake history entry for [`completed_epoch`] of the context.
    FetchingHistory {
        /// The chain's position, fetched this round.
        context: EpochContext,
        /// The slot that opened this round.
        probe_slot: u64,
    },
    /// Fetch the current slot once more to confirm the chain advanced past
    /// the slot that opened this round.
    CheckingLiveness {
        /// The slot that opened this round.
        probe_slot: u64,
        /// Whether a live chain ends the wait (the simulator reported the
        /// stake settled) or starts the next round.
        done_when_live: bool,
    },
    /// Terminal: the stake has finished activating.
    Done,
    /// Terminal: an unrecoverable condition was met.
    Aborted {
        /// What went wrong.
        fault: Fault,
    },
}

impl WaiterState {
    /// Every epoch context a state carries is well-formed.
    pub open spec fn wf(self) -> bool {
        match self {
            WaiterState::FetchingSlot { context } => context.wf(),
            WaiterState::FetchingHistory { context, .. } => context.wf(),
            _ => true,
        }
    }

    /// The wait has ended, well or badly.
    pub open spec fn is_terminal(self) -> bool {
        match self {
            WaiterState::Done => true,
            WaiterState::Aborted { .. } => true,
            _ => false,
        }
    }
}

/// The most recent fully completed epoch: the one before the epoch in
/// progress, clamped at zero. The history entry for the epoch in progress
/// does not exist yet; during the chain's very first epoch no entry exists
/// at all, and the clamped query finds none, which the waiter treats as a
/// data gap.
pub open spec fn spec_completed_epoch(context: EpochContext) -> u64 {
    if context.epoch == 0 {
        0
    } else {
        (context.epoch - 1) as u64
    }
}

/// Exec counterpart of [`spec_completed_epoch`]; the driver uses it to know
/// which epoch's history entry the `FetchingHistory` state asks for.
pub fn completed_epoch(context: &EpochContext) -> (r: u64)
    ensures
        r == spec_completed_epoch(*context),
{
    if context.epoch == 0 {
        0
    } else {
        context.epoch - 1
    }
}

/// The epoch at which the simulator predicts the warmup to be finished,
/// clamped to the machine word.
pub open spec fn predicted_epoch(current: u64, epochs_needed: nat) -> u64 {
    if current + epochs_needed > u64::MAX {
        u64::MAX
    } else {
        (current + epochs_needed) as u64
    }
}

/// No notification and no pause.
pub open spec fn no_effects() -> Effects {
    Effects { notice: None, pause: None }
}

/// Which events may answer which state: the driver hands back exactly what
/// the state asked it to fetch, and terminal states take no event.
pub open spec fn accepts(state: WaiterState, event: ChainEvent) -> bool {
    match state {
        WaiterState::Polling => event is EpochInfo || event is EpochInfoFailed,
        WaiterState::FetchingSlot { .. } => event is Slot || event is SlotFailed,
        WaiterState::FetchingHistory { .. } => event is HistoryEntry || event is HistoryEntryAbsent,
        WaiterState::CheckingLiveness { .. } => event is Slot || event is SlotFailed,
        WaiterState::Done => false,
        WaiterState::Aborted { .. } => false,
    }
}

/// What must hold of an event before it is fed in: contexts are well-formed,
/// and a history entry's totals fit the machine word.
pub open spec fn event_wf(event: ChainEvent) -> bool {
    match event {
        ChainEvent::EpochInfo { context } => context.wf(),
        ChainEvent::HistoryEntry { snapshot } => bounded(snapshot),
        _ => true,
    }
}

/// The waiter's transition relation: from the current state and the event
/// the driver fetched, the effects to perform and the next state.
pub open spec fn spec_step(state: WaiterState, event: ChainEvent, config: WarmupConfig) -> (
    Effects,
    WaiterState,
) {
    match (state, event) {
        (WaiterState::Polling, ChainEvent::EpochInfo { context }) => (
            no_effects(),
            WaiterState::FetchingSlot { context },
        ),
        (WaiterState::Polling, ChainEvent::EpochInfoFailed) => (
            no_effects(),
            WaiterState::Aborted { fault: Fault::EpochInfoUnavailable },
        ),
        (WaiterState::FetchingSlot { context }, ChainEvent::Slot { slot }) => (
            no_effects(),
            WaiterState::FetchingHistory { context, probe_slot: slot },
        ),
        (WaiterState::FetchingSlot { .. }, ChainEvent::SlotFailed) => (
            no_effects(),
            WaiterState::Aborted { fault: Fault::SlotUnavailable },
        ),
        (
            WaiterState::FetchingHistory { context, probe_slot },
            ChainEvent::HistoryEntry { snapshot },
        ) => {
            let epochs_needed = simulated_epochs(snapshot, config);
            if epochs_needed == 0 {
                (no_effects(), WaiterState::CheckingLiveness { probe_slot, done_when_live: true })
            } else {
                (
                    Effects {
                        notice: Some(
                            Notice::AwaitingWarmup {
                                current_epoch: spec_completed_epoch(context),
                                predicted_epoch: predicted_epoch(
                                    spec_completed_epoch(context),
                                    epochs_needed,
                                ),
                            },
                        ),
                        pause: Some(
                            Pause::Slots {
                                count: (context.slots_in_epoch - context.slot_index) as u64,
                            },
                        ),
                    },
                    WaiterState::CheckingLiveness { probe_slot, done_when_live: false },
                )
            }
        },
        (WaiterState::FetchingHistory { context, .. }, ChainEvent::HistoryEntryAbsent) => (
            Effects {
                notice: Some(Notice::HistoryGap { epoch: spec_completed_epoch(context) }),
                pause: Some(Pause::Backoff),
            },
            WaiterState::Polling,
        ),
        (
            WaiterState::CheckingLiveness { probe_slot, done_when_live },
            ChainEvent::Slot { slot },
        ) => {
            if slot == probe_slot {
                (no_effects(), WaiterState::Aborted { fault: Fault::ChainStalled { slot } })
            } else if done_when_live {
                (no_effects(), WaiterState::Done)
            } else {
                (no_effects(), WaiterState::Polling)
            }
        },
        (WaiterState::CheckingLiveness { .. }, ChainEvent::SlotFailed) => (
            no_effects(),
            WaiterState::Aborted { fault: Fault::SlotUnavailable },
        ),
        _ => (no_effects(), state),
    }
}

/// Feed one fetched event into the waiter.
pub fn waiter_step(state: &WaiterState, event: &ChainEvent, config: &WarmupConfig) -> (r: (
    Effects,
    WaiterState,
))
    requires
        config.valid(),
        state.wf(),
        accepts(*state, *event),
        event_wf(*event),
    ensures
        r == spec_step(*state, *event, *config),
        r.1.wf(),
{
    match (*state, *event) {
        (WaiterState::Polling, ChainEvent::EpochInfo { context }) => (
            Effects { notice: None, pause: None },
            WaiterState::FetchingSlot { context },
        ),
        (WaiterState::Polling, ChainEvent::EpochInfoFailed) => (
            Effects { notice: None, pause: None },
            WaiterState::Aborted { fault: Fault::EpochInfoUnavailable },
        ),
        (WaiterState::FetchingSlot { context }, ChainEvent::Slot { slot }) => (
            Effects { notice: None, pause: None },
            WaiterState::FetchingHistory { context, probe_slot: slot },
        ),
        (WaiterState::FetchingSlot { .. }, ChainEvent::SlotFailed) => (
            Effects { notice: None, pause: None },
            WaiterState::Aborted { fault: Fault::SlotUnavailable },
        ),
        (
            WaiterState::FetchingHistory { context, probe_slot },
            ChainEvent::HistoryEntry { snapshot },
        ) => {
            let epochs_needed: u64 = calculate_stake_warmup(snapshot, config);
            if epochs_needed == 0 {
                (
                    Effects { notice: None, pause: None },
                    WaiterState::CheckingLiveness { probe_slot, done_when_live: true },
                )
            } else {
                let current: u64 = completed_epoch(&context);
                let predicted: u64 = if epochs_needed > u64::MAX - current {
                    u64::MAX
                } else {
                    current + epochs_needed
                };
                (
                    Effects {
                        notice: Some(
                            Notice::AwaitingWarmup {
                                current_epoch: current,
                                predicted_epoch: predicted,
                            },
                        ),
                        pause: Some(
                            Pause::Slots { count: context.slots_in_epoch - context.slot_index },
                        ),
                    },
                    WaiterState::CheckingLiveness { probe_slot, done_when_live: false },
                )
            }
        },
        (WaiterState::FetchingHistory { context, .. }, ChainEvent::HistoryEntryAbsent) => (
            Effects {
                notice: Some(Notice::HistoryGap { epoch: completed_epoch(&context) }),
                pause: Some(Pause::Backoff),
            },
            WaiterState::Polling,
        ),
        (
            WaiterState::CheckingLiveness { probe_slot, done_when_live },
            ChainEvent::Slot { slot },
        ) => {
            if slot == probe_slot {
                (
                    Effects { notice: None, pause: None },
                    WaiterState::Aborted { fault: Fault::ChainStalled { slot } },
                )
            } else if done_when_live {
                (Effects { notice: None, pause: None }, WaiterState::Done)
            } else {
                (Effects { notice: None, pause: None }, WaiterState::Polling)
            }
        },
        (WaiterState::CheckingLiveness { .. }, ChainEvent::SlotFailed) => (
            Effects { notice: None, pause: None },
            WaiterState::Aborted { fault: Fault::SlotUnavailable },
        ),
        _ => (Effects { notice: None, pause: None }, *state),
    }
}

/// Epochs still to sleep through before the requested activation epoch has
/// fully finished: one more than the activation epoch, less the epoch in
/// progress, and zero once the chain is already past that point.
pub open spec fn boundary_epochs(request: ActivationRequest, context: EpochContext) -> int {
    if request.activation_epoch + 1 >= context.epoch {
        request.activation_epoch + 1 - context.epoch
    } else {
        0
    }
}

/// What beginning a wait does: when the activation epoch has not finished
/// yet, announce the wait and sleep through the remaining slots of the
/// boundary epochs; either way the waiter then starts its first polling
/// round.
pub open spec fn spec_start(
    request: ActivationRequest,
    context: EpochContext,
    slots_per_epoch: u64,
) -> (Effects, WaiterState) {
    let epochs = boundary_epochs(request, context);
    if epochs > 0 {
        (
            Effects {
                notice: Some(
                    Notice::AwaitingEpochEnd { activation_epoch: request.activation_epoch },
                ),
                pause: Some(
                    Pause::Slots { count: (epochs * slots_per_epoch - context.slot_index) as u64 },
                ),
            },
            WaiterState::Polling,
        )
    } else {
        (no_effects(), WaiterState::Polling)
    }
}

/// Begin a wait: the effects to perform (announcing and sleeping past the
/// end of the activation epoch, when it has not finished yet) and the first
/// polling state.
pub fn start_waiter(request: &ActivationRequest, context: &EpochContext, slots_per_epoch: u64) -> (r:
    (Effects, WaiterState))
    requires
        request.activation_epoch < u64::MAX,
        boundary_epochs(*request, *context) * slots_per_epoch <= u64::MAX,
        boundary_epochs(*request, *context) > 0 ==> context.slot_index <= boundary_epochs(
            *request,
            *context,
        ) * slots_per_epoch,
    ensures
        r == spec_start(*request, *context, slots_per_epoch),
        r.1.wf(),
{
    let target: u64 = request.activation_epoch + 1;
    let epochs: u64 = if target >= context.epoch {
        target - context.epoch
    } else {
        0
    };
    if epochs > 0 {
        let slots: u64 = epochs * slots_per_epoch - context.slot_index;
        (
            Effects {
                notice: Some(
                    Notice::AwaitingEpochEnd { activation_epoch: request.activation_epoch },
                ),
                pause: Some(Pause::Slots { count: slots }),
            },
            WaiterState::Polling,
        )
    } else {
        (Effects { notice: None, pause: None }, WaiterState::Polling)
    }
}

} // verus!
