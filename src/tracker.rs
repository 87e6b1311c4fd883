//! Waiting for a submitted transaction to be included and confirmed.

use vstd::prelude::*;

verus! {

/// Overall confirmation deadline, in milliseconds after submission.
pub const DEFAULT_DEADLINE_MS: u64 = 120_000;

/// Pause between two polls of the endpoint, in milliseconds.
pub const DEFAULT_POLL_INTERVAL_MS: u64 = 1_000;

/// What the endpoint reports about an included transaction.
#[derive(Debug)]
pub struct DeploymentReceipt {
    /// Transaction hash, as hex text.
    pub tx_hash: String,
    /// Whether execution succeeded (status 1) rather than reverted.
    pub success: bool,
    /// Address of the created contract, as hex text.
    pub contract_address: Option<String>,
    pub gas_used: Option<u64>,
    pub effective_gas_price: Option<u64>,
    /// Height of the block that includes the transaction.
    pub block_number: Option<u64>,
    /// Number of log entries (events) the transaction emitted.
    pub event_count: u32,
}

/// Parameters of one confirmation wait.
#[derive(Clone, Copy, Debug)]
pub struct TrackerSettings {
    /// Blocks wanted on top of the including block before success.
    pub confirmations: u64,
    /// Gas limit the transaction was sent with.
    pub gas_limit: u64,
    /// Time after submission at which waiting gives up.
    pub deadline_ms: u64,
    /// Pause between two polls.
    pub poll_interval_ms: u64,
}

/// Where a submitted transaction stands.
#[derive(Debug)]
pub enum TrackerState {
    /// Sent; no usable receipt seen yet.
    Submitted,
    /// A successful receipt is held; waiting for confirmation depth.
    Included { receipt: DeploymentReceipt, block_number: u64 },
    /// Included and confirmed to the wanted depth.
    Success { receipt: DeploymentReceipt },
    /// Included, but execution failed. `gas_limit_reached` says that the
    /// gas used reached the gas limit, the likely cause.
    Reverted { receipt: DeploymentReceipt, gas_limit_reached: bool },
    /// The deadline passed first.
    TimedOut,
}

/// What the endpoint answered to the last poll, and when.
pub enum TrackerEvent {
    /// Answer to a receipt query, `elapsed_ms` after submission.
    Receipt { receipt: Option<DeploymentReceipt>, elapsed_ms: u64 },
    /// Answer to a block-height query, `elapsed_ms` after submission.
    BlockHeight { height: u64, elapsed_ms: u64 },
}

/// What the caller must do next.
#[derive(Clone, Copy, Debug, PartialEq, Eq, Structural)]
pub enum TrackerAction {
    /// Wait `delay_ms`, then ask for the receipt.
    PollReceipt { delay_ms: u64 },
    /// Wait `delay_ms`, then ask for the current block height.
    PollBlockHeight { delay_ms: u64 },
    /// Nothing more: the state is terminal.
    Stop,
}

impl TrackerState {
    /// Success, revert and timeout end the wait.
    pub open spec fn is_terminal(self) -> bool {
        self is Success || self is Reverted || self is TimedOut
    }
}

/// Blocks mined on top of `included`, given the current height; zero when
/// the height is below it.
pub open spec fn depth(height: u64, included: u64) -> u64 {
    if height >= included {
        (height - included) as u64
    } else {
        0
    }
}

/// The action a state asks for when it has nothing new to go on.
pub open spec fn resting_action(state: TrackerState) -> TrackerAction {
    match state {
        TrackerState::Submitted => TrackerAction::PollReceipt { delay_ms: 0 },
        TrackerState::Included { .. } => TrackerAction::PollBlockHeight { delay_ms: 0 },
        _ => TrackerAction::Stop,
    }
}

/// One transition of the confirmation wait.
///
/// From `Submitted`, a receipt that reports a revert ends in `Reverted`; a
/// successful one ends in `Success` when no confirmations are wanted, and
/// otherwise moves to `Included` and asks for the block height. No receipt
/// (or one without a block number) before the deadline means: poll again
/// after the interval; at or past the deadline, `TimedOut`. In `Included`,
/// a height whose depth over the including block reaches the wanted count
/// gives `Success`; otherwise the deadline decides between another poll and
/// `TimedOut`. Terminal states stay, and an answer to a question that was
/// not asked changes nothing.
pub open spec fn tracker_next(
    s: TrackerSettings,
    state: TrackerState,
    event: TrackerEvent,
) -> (TrackerState, TrackerAction) {
    match (state, event) {
        (TrackerState::Submitted, TrackerEvent::Receipt { receipt, elapsed_ms }) => {
            match receipt {
                Some(r) => if !r.success {
                    (
                        TrackerState::Reverted {
                            gas_limit_reached: r.gas_used is Some && r.gas_used->0 >= s.gas_limit,
                            receipt: r,
                        },
                        TrackerAction::Stop,
                    )
                } else if s.confirmations == 0 {
                    (TrackerState::Success { receipt: r }, TrackerAction::Stop)
                } else if r.block_number is Some {
                    (
                        TrackerState::Included { block_number: r.block_number->0, receipt: r },
                        TrackerAction::PollBlockHeight { delay_ms: 0 },
                    )
                } else if elapsed_ms >= s.deadline_ms {
                    (TrackerState::TimedOut, TrackerAction::Stop)
                } else {
                    (
                        TrackerState::Submitted,
                        TrackerAction::PollReceipt { delay_ms: s.poll_interval_ms },
                    )
                },
                None => if elapsed_ms >= s.deadline_ms {
                    (TrackerState::TimedOut, TrackerAction::Stop)
                } else {
                    (
                        TrackerState::Submitted,
                        TrackerAction::PollReceipt { delay_ms: s.poll_interval_ms },
                    )
                },
            }
        },
        (
            TrackerState::Included { receipt, block_number },
            TrackerEvent::BlockHeight { height, elapsed_ms },
        ) => {
            if depth(height, block_number) >= s.confirmations {
                (TrackerState::Success { receipt }, TrackerAction::Stop)
            } else if elapsed_ms >= s.deadline_ms {
                (TrackerState::TimedOut, TrackerAction::Stop)
            } else {
                (
                    TrackerState::Included { receipt, block_number },
                    TrackerAction::PollBlockHeight { delay_ms: s.poll_interval_ms },
                )
            }
        },
        (other, _) => (other, resting_action(other)),
    }
}

fn wait_or_give_up(s: &TrackerSettings, elapsed_ms: u64, poll_height: bool) -> (r: (bool, TrackerAction))
    ensures
        r.0 == (elapsed_ms >= s.deadline_ms),
        r.0 ==> r.1 == TrackerAction::Stop,
        !r.0 && poll_height ==> r.1 == (TrackerAction::PollBlockHeight { delay_ms: s.poll_interval_ms }),
        !r.0 && !poll_height ==> r.1 == (TrackerAction::PollReceipt { delay_ms: s.poll_interval_ms }),
{
    if elapsed_ms >= s.deadline_ms {
        (true, TrackerAction::Stop)
    } else if poll_height {
        (false, TrackerAction::PollBlockHeight { delay_ms: s.poll_interval_ms })
    } else {
        (false, TrackerAction::PollReceipt { delay_ms: s.poll_interval_ms })
    }
}

/// Performs one transition of the confirmation wait (see `tracker_next`).
pub fn tracker_step(s: &TrackerSettings, state: TrackerState, event: TrackerEvent) -> (r: (
    TrackerState,
    TrackerAction,
))
    ensures
        r == tracker_next(*s, state, event),
{
    match (state, event) {
        (TrackerState::Submitted, TrackerEvent::Receipt { receipt, elapsed_ms }) => {
            match receipt {
                Some(r) => {
                    if !r.success {
                        let reached = match r.gas_used {
                            Some(used) => used >= s.gas_limit,
                            None => false,
                        };
                        (TrackerState::Reverted { gas_limit_reached: reached, receipt: r }, TrackerAction::Stop)
                    } else if s.confirmations == 0 {
                        (TrackerState::Success { receipt: r }, TrackerAction::Stop)
                    } else {
                        match r.block_number {
                            Some(b) => (
                                TrackerState::Included { block_number: b, receipt: r },
                                TrackerAction::PollBlockHeight { delay_ms: 0 },
                            ),
                            None => {
                                let (expired, action) = wait_or_give_up(s, elapsed_ms, false);
                                if expired {
                                    (TrackerState::TimedOut, action)
                                } else {
                                    (TrackerState::Submitted, action)
                                }
                            },
                        }
                    }
                },
                None => {
                    let (expired, action) = wait_or_give_up(s, elapsed_ms, false);
                    if expired {
                        (TrackerState::TimedOut, action)
                    } else {
                        (TrackerState::Submitted, action)
                    }
                },
            }
        },
        (
            TrackerState::Included { receipt, block_number },
            TrackerEvent::BlockHeight { height, elapsed_ms },
        ) => {
            let reached = height.saturating_sub(block_number);
            assert(reached == depth(height, block_number));
            if reached >= s.confirmations {
                (TrackerState::Success { receipt }, TrackerAction::Stop)
            } else {
                let (expired, action) = wait_or_give_up(s, elapsed_ms, true);
                if expired {
                    (TrackerState::TimedOut, action)
                } else {
                    (TrackerState::Included { receipt, block_number }, action)
                }
            }
        },
        (other, _) => {
            let action = match &other {
                TrackerState::Submitted => TrackerAction::PollReceipt { delay_ms: 0 },
                TrackerState::Included { .. } => TrackerAction::PollBlockHeight { delay_ms: 0 },
                _ => TrackerAction::Stop,
            };
            (other, action)
        },
    }
}

} // verus!

verus! {

/// The state after the `k+1`-th receipt poll against an endpoint that never
/// has a receipt, when poll `i` is answered `i` poll intervals after
/// submission.
pub open spec fn silent_run(s: TrackerSettings, k: nat) -> TrackerState
    decreases k,
{
    let prev = if k == 0 {
        TrackerState::Submitted
    } else {
        silent_run(s, (k - 1) as nat)
    };
    tracker_next(
        s,
        prev,
        TrackerEvent::Receipt { receipt: None, elapsed_ms: (k * s.poll_interval_ms) as u64 },
    ).0
}

proof fn silent_run_phases(s: TrackerSettings, k: nat)
    requires
        s.poll_interval_ms > 0,
        k * s.poll_interval_ms < s.deadline_ms + s.poll_interval_ms,
        s.deadline_ms + s.poll_interval_ms <= u64::MAX,
    ensures
        k * s.poll_interval_ms < s.deadline_ms ==> silent_run(s, k) is Submitted,
        k * s.poll_interval_ms >= s.deadline_ms ==> silent_run(s, k) is TimedOut,
    decreases k,
{
    if k > 0 {
        let j = (k - 1) as nat;
        assert(j * s.poll_interval_ms == k * s.poll_interval_ms - s.poll_interval_ms)
            by (nonlinear_arith)
            requires
                j == k - 1,
        ;
        silent_run_phases(s, j);
    }
}

/// Against an endpoint that never returns a receipt, the wait is still on
/// at every poll answered before the deadline, and it has timed out at the
/// first poll answered at or after it, which comes less than one poll
/// interval after the deadline.
pub proof fn law_silent_endpoint_times_out(s: TrackerSettings, k: nat)
    requires
        s.poll_interval_ms > 0,
        s.deadline_ms + s.poll_interval_ms <= u64::MAX,
    ensures
        k * s.poll_interval_ms < s.deadline_ms ==> silent_run(s, k) is Submitted,
        ({
            let first = ((s.deadline_ms + s.poll_interval_ms - 1) / (s.poll_interval_ms as int)) as nat;
            &&& s.deadline_ms <= first * s.poll_interval_ms
            &&& first * s.poll_interval_ms < s.deadline_ms + s.poll_interval_ms
            &&& silent_run(s, first) is TimedOut
            &&& k < first ==> silent_run(s, k) is Submitted
        }),
{
    let d = s.deadline_ms as int;
    let i = s.poll_interval_ms as int;
    let first = ((d + i - 1) / i) as nat;
    assert(d <= first * i && first * i < d + i) by (nonlinear_arith)
        requires
            i > 0,
            d >= 0,
            first == (d + i - 1) / i,
    ;
    silent_run_phases(s, first);
    if k < first {
        assert(k * i < d) by (nonlinear_arith)
            requires
                i > 0,
                k < first,
                first == (d + i - 1) / i,
        ;
    }
    if k * i < d {
        assert(k * i < d + i);
        silent_run_phases(s, k);
    }
}

/// A successful receipt seen on the first poll with no confirmations wanted
/// ends the wait in `Success` with that receipt, and no block height is
/// asked for. A reverted receipt ends it in `Reverted` at once, with the
/// gas-limit hint set exactly when the gas used reached the limit.
pub proof fn law_first_receipt_decides(
    s: TrackerSettings,
    receipt: DeploymentReceipt,
    elapsed_ms: u64,
)
    ensures
        receipt.success && s.confirmations == 0 ==> tracker_next(
            s,
            TrackerState::Submitted,
            TrackerEvent::Receipt { receipt: Some(receipt), elapsed_ms },
        ) == (TrackerState::Success { receipt }, TrackerAction::Stop),
        !receipt.success ==> tracker_next(
            s,
            TrackerState::Submitted,
            TrackerEvent::Receipt { receipt: Some(receipt), elapsed_ms },
        ) == (TrackerState::Reverted {
            receipt,
            gas_limit_reached: receipt.gas_used is Some && receipt.gas_used->0 >= s.gas_limit,
        }, TrackerAction::Stop),
        !receipt.success && receipt.gas_used == Some(s.gas_limit) ==> tracker_next(
            s,
            TrackerState::Submitted,
            TrackerEvent::Receipt { receipt: Some(receipt), elapsed_ms },
        ).0->Reverted_gas_limit_reached,
{
}

/// A terminal state never changes, whatever the endpoint answers, and asks
/// for nothing more.
pub proof fn law_terminal_states_stay(s: TrackerSettings, state: TrackerState, e: TrackerEvent)
    requires
        state.is_terminal(),
    ensures
        tracker_next(s, state, e) == (state, TrackerAction::Stop),
{
}

} // verus!
