//! The signal lifecycle: publication, resolution, cancellation.
//!
//! A signal is `Open` from publication until it is either resolved (by an
//! oracle, with a result and PnL) or cancelled (by the strategy owner).
//! Both terminal states are final: a second resolution or cancellation is
//! rejected and leaves the signal untouched.
use vstd::prelude::*;

use crate::model::spec_stats;
use crate::model::StateModel;
use crate::pnl::calculate_signal_result;
use crate::pnl::entry_of;
use crate::pnl::spec_pnl_bps;
use crate::pnl::spec_signal_result;
use crate::state::AgentHubState;
use crate::types::AgentHubError;
use crate::types::PublishSignalInput;
use crate::types::Signal;
use crate::types::SignalResult;
use crate::types::SignalStatus;
use crate::types::MAX_MARKET_VALUE;

verus! {

broadcast use
    vstd::std_specs::hash::group_hash_axioms,
    crate::model::lemma_vec_map_view_contains,
    crate::model::lemma_vec_map_view_index,
    crate::model::lemma_vec_map_view_insert,
    crate::model::lemma_vec_map_view_remove;

/// What `publish_signal` does. It fails with `InvalidConfidence` iff the
/// confidence exceeds 10000 bps, else with `StrategyNotFound` iff the
/// strategy is absent, else with `NotAuthorized` iff the caller does not
/// own it. Otherwise it stores a fresh open signal under the next signal
/// id, expiring `horizon_secs` after `now`, and appends the id to the
/// strategy's history.
pub open spec fn publish_post(
    pre: AgentHubState,
    post: AgentHubState,
    owner: u64,
    input: PublishSignalInput,
    now: u64,
    r: Result<u64, AgentHubError>,
) -> bool {
    let m = pre@;
    if input.confidence_bps > 10000 {
        r == Err::<u64, AgentHubError>(AgentHubError::InvalidConfidence) && post@ == m
    } else if !m.strategies.contains_key(input.strategy_id) {
        r == Err::<u64, AgentHubError>(AgentHubError::StrategyNotFound) && post@ == m
    } else if m.strategies[input.strategy_id].owner != owner {
        r == Err::<u64, AgentHubError>(AgentHubError::NotAuthorized) && post@ == m
    } else {
        let id = m.next_signal_id;
        let signal = Signal {
            id,
            strategy_id: input.strategy_id,
            created_at: now,
            expires_at: (now + input.horizon_secs * 1_000_000) as u64,
            direction: input.direction,
            entry_value: input.entry_value,
            confidence_bps: input.confidence_bps,
            status: SignalStatus::Open,
            result: None,
            pnl_bps: None,
            resolved_value: None,
        };
        let old_list = if m.signals_by_strategy.contains_key(input.strategy_id) {
            m.signals_by_strategy[input.strategy_id]
        } else {
            Seq::empty()
        };
        &&& r == Ok::<u64, AgentHubError>(id)
        &&& post@ == StateModel {
            signals: m.signals.insert(id, signal),
            signals_by_strategy: m.signals_by_strategy.insert(
                input.strategy_id,
                old_list.push(id),
            ),
            next_signal_id: (id + 1) as u64,
            ..m
        }
    }
}

/// What `resolve_signal` does. It fails with `SignalNotFound` iff the
/// signal is absent, else with `SignalAlreadyResolved` iff the signal is
/// not open (resolved and cancelled signals alike). Otherwise it stores
/// the outcome and PnL of `crate::pnl` on the signal, marks it resolved,
/// and recomputes the owning strategy's statistics.
pub open spec fn resolve_post(
    pre: AgentHubState,
    post: AgentHubState,
    signal_id: u64,
    resolved_value: u64,
    r: Result<(SignalResult, i64), AgentHubError>,
) -> bool {
    let m = pre@;
    if !m.signals.contains_key(signal_id) {
        r == Err::<(SignalResult, i64), AgentHubError>(AgentHubError::SignalNotFound) && post@ == m
    } else if m.signals[signal_id].status != SignalStatus::Open {
        r == Err::<(SignalResult, i64), AgentHubError>(AgentHubError::SignalAlreadyResolved)
            && post@ == m
    } else {
        let signal = m.signals[signal_id];
        let res = spec_signal_result(signal.direction, entry_of(signal.entry_value), resolved_value);
        let pnl = spec_pnl_bps(signal.direction, entry_of(signal.entry_value), resolved_value);
        let updated = Signal {
            status: SignalStatus::Resolved,
            result: Some(res),
            pnl_bps: Some(pnl as i64),
            resolved_value: Some(resolved_value),
            ..signal
        };
        let mid = StateModel { signals: m.signals.insert(signal_id, updated), ..m };
        &&& r == Ok::<(SignalResult, i64), AgentHubError>((res, pnl as i64))
        &&& post@ == StateModel {
            strategy_stats: mid.strategy_stats.insert(
                signal.strategy_id,
                spec_stats(mid, signal.strategy_id),
            ),
            ..mid
        }
    }
}

/// What `cancel_signal` does. It fails with `SignalNotFound` iff the signal
/// is absent, else with `StrategyNotFound` iff its strategy vanished, else
/// with `NotAuthorized` iff the caller does not own the strategy, else with
/// `SignalAlreadyResolved` iff the signal is resolved, else with
/// `SignalNotOpen` iff it is already cancelled. Otherwise it marks the
/// signal cancelled; cancelled signals never count toward statistics and no
/// recompute happens.
pub open spec fn cancel_post(
    pre: AgentHubState,
    post: AgentHubState,
    caller: u64,
    signal_id: u64,
    r: Result<(), AgentHubError>,
) -> bool {
    let m = pre@;
    if !m.signals.contains_key(signal_id) {
        r == Err::<(), AgentHubError>(AgentHubError::SignalNotFound) && post@ == m
    } else if !m.strategies.contains_key(m.signals[signal_id].strategy_id) {
        r == Err::<(), AgentHubError>(AgentHubError::StrategyNotFound) && post@ == m
    } else if m.strategies[m.signals[signal_id].strategy_id].owner != caller {
        r == Err::<(), AgentHubError>(AgentHubError::NotAuthorized) && post@ == m
    } else if m.signals[signal_id].status == SignalStatus::Resolved {
        r == Err::<(), AgentHubError>(AgentHubError::SignalAlreadyResolved) && post@ == m
    } else if m.signals[signal_id].status == SignalStatus::Cancelled {
        r == Err::<(), AgentHubError>(AgentHubError::SignalNotOpen) && post@ == m
    } else {
        &&& r == Ok::<(), AgentHubError>(())
        &&& post@ == StateModel {
            signals: m.signals.insert(
                signal_id,
                Signal { status: SignalStatus::Cancelled, ..m.signals[signal_id] },
            ),
            ..m
        }
    }
}

/// Runtime check of `Signal::wf`.
pub fn signal_wf_check(signal: &Signal) -> (b: bool)
    ensures
        b == signal.wf(),
{
    let fields_none = signal.result.is_none() && signal.pnl_bps.is_none()
        && signal.resolved_value.is_none();
    let fields_some = signal.result.is_some() && signal.pnl_bps.is_some()
        && signal.resolved_value.is_some();
    let status_ok = match signal.status {
        SignalStatus::Open => fields_none,
        SignalStatus::Cancelled => fields_none,
        SignalStatus::Resolved => fields_some,
    };
    let entry_ok = match signal.entry_value {
        Some(e) => e <= MAX_MARKET_VALUE,
        None => true,
    };
    status_ok && entry_ok
}

/// What the `SignalBroadcast` handler does: it upserts the embedded signal
/// by its id when the record is structurally well-formed, and silently
/// drops it otherwise. No ownership or subscription-validity check is made:
/// the relay deliberately trusts the sending shard, and the structural
/// check only keeps the local store's invariants.
pub open spec fn broadcast_post(pre: AgentHubState, post: AgentHubState, signal: Signal) -> bool {
    let m = pre@;
    if signal.wf() {
        post@ == StateModel { signals: m.signals.insert(signal.id, signal), ..m }
    } else {
        post@ == m
    }
}

impl AgentHubState {
    /// Stores a signal broadcast by another shard, keyed by its own id.
    /// Malformed records are dropped silently (message handlers have no
    /// error channel).
    pub fn handle_signal_broadcast(&mut self, signal: Signal)
        requires
            old(self).wf(),
        ensures
            final(self).wf(),
            broadcast_post(*old(self), *final(self), signal),
    {
        let ghost m = self@;
        if !signal_wf_check(&signal) {
            return ;
        }
        self.signals.insert(signal.id, signal);
        proof {
            assert(self@ =~~= (StateModel { signals: m.signals.insert(signal.id, signal), ..m }));
        }
    }

    /// Publishes a signal under a strategy of the caller and returns the
    /// allocated signal id.
    ///
    /// The machine-limit preconditions: the id counter must have room for
    /// one more allocation, the entry value must be small enough that a
    /// later resolution can scale it to basis points, and the expiry time
    /// `now + horizon_secs * 1_000_000` must fit in a `u64` timestamp.
    pub fn publish_signal(&mut self, owner: u64, input: PublishSignalInput, now: u64) -> (r: Result<
        u64,
        AgentHubError,
    >)
        requires
            old(self).wf(),
            old(self)@.next_signal_id < u64::MAX,
            input.entry_value matches Some(e) ==> e <= MAX_MARKET_VALUE,
            now + input.horizon_secs * 1_000_000 <= u64::MAX,
        ensures
            final(self).wf(),
            publish_post(*old(self), *final(self), owner, input, now, r),
    {
        let ghost m = self@;
        if input.confidence_bps > 10000 {
            return Err(AgentHubError::InvalidConfidence);
        }
        let strategy_owner: u64 = match self.strategies.get(&input.strategy_id) {
            Some(s) => s.owner,
            None => {
                return Err(AgentHubError::StrategyNotFound);
            },
        };
        if strategy_owner != owner {
            return Err(AgentHubError::NotAuthorized);
        }

        let id = self.next_signal_id;
        self.next_signal_id = id + 1;

        let expires_at: u64 = now + input.horizon_secs * 1_000_000;
        let signal = Signal {
            id,
            strategy_id: input.strategy_id,
            created_at: now,
            expires_at,
            direction: input.direction,
            entry_value: input.entry_value,
            confidence_bps: input.confidence_bps,
            status: SignalStatus::Open,
            result: None,
            pnl_bps: None,
            resolved_value: None,
        };
        self.signals.insert(id, signal);

        let mut signal_ids: Vec<u64> = match self.signals_by_strategy.remove(&input.strategy_id) {
            Some(v) => v,
            None => Vec::new(),
        };
        signal_ids.push(id);
        let ghost new_list = signal_ids@;
        self.signals_by_strategy.insert(input.strategy_id, signal_ids);

        proof {
            let old_list = if m.signals_by_strategy.contains_key(input.strategy_id) {
                m.signals_by_strategy[input.strategy_id]
            } else {
                Seq::<u64>::empty()
            };
            assert(new_list == old_list.push(id));
            assert(self@ =~~= (StateModel {
                signals: m.signals.insert(id, signal),
                signals_by_strategy: m.signals_by_strategy.insert(
                    input.strategy_id,
                    old_list.push(id),
                ),
                next_signal_id: (id + 1) as u64,
                ..m
            }));
        }
        Ok(id)
    }

    /// Resolves an open signal against the observed value and returns the
    /// outcome and PnL. This is a privileged oracle action: no caller
    /// authorization is checked. Triggers a statistics recompute for the
    /// owning strategy.
    pub fn resolve_signal(&mut self, signal_id: u64, resolved_value: u64) -> (r: Result<
        (SignalResult, i64),
        AgentHubError,
    >)
        requires
            old(self).wf(),
            resolved_value <= MAX_MARKET_VALUE,
        ensures
            final(self).wf(),
            resolve_post(*old(self), *final(self), signal_id, resolved_value, r),
    {
        let ghost m = self@;
        let signal: Signal = match self.signals.get(&signal_id) {
            Some(s) => *s,
            None => {
                return Err(AgentHubError::SignalNotFound);
            },
        };
        if signal.status != SignalStatus::Open {
            return Err(AgentHubError::SignalAlreadyResolved);
        }

        let (result, pnl_bps) = calculate_signal_result(&signal, resolved_value);

        let mut updated = signal;
        updated.status = SignalStatus::Resolved;
        updated.result = Some(result);
        updated.pnl_bps = Some(pnl_bps);
        updated.resolved_value = Some(resolved_value);

        let strategy_id = signal.strategy_id;
        self.signals.insert(signal_id, updated);
        proof {
            assert(self@ =~~= (StateModel { signals: m.signals.insert(signal_id, updated), ..m }));
        }

        self.update_strategy_stats(strategy_id);

        Ok((result, pnl_bps))
    }

    /// Cancels an open signal of the caller. Cancelled signals are excluded
    /// from all statistics recomputes, and cancellation succeeds at most
    /// once: a resolved signal reports `SignalAlreadyResolved`, an already
    /// cancelled one `SignalNotOpen`.
    pub fn cancel_signal(&mut self, caller: u64, signal_id: u64) -> (r: Result<(), AgentHubError>)
        requires
            old(self).wf(),
        ensures
            final(self).wf(),
            cancel_post(*old(self), *final(self), caller, signal_id, r),
    {
        let ghost m = self@;
        let signal: Signal = match self.signals.get(&signal_id) {
            Some(s) => *s,
            None => {
                return Err(AgentHubError::SignalNotFound);
            },
        };
        let strategy_owner: u64 = match self.strategies.get(&signal.strategy_id) {
            Some(s) => s.owner,
            None => {
                return Err(AgentHubError::StrategyNotFound);
            },
        };
        if strategy_owner != caller {
            return Err(AgentHubError::NotAuthorized);
        }
        if signal.status == SignalStatus::Resolved {
            return Err(AgentHubError::SignalAlreadyResolved);
        }
        if signal.status == SignalStatus::Cancelled {
            return Err(AgentHubError::SignalNotOpen);
        }

        let mut updated = signal;
        updated.status = SignalStatus::Cancelled;
        self.signals.insert(signal_id, updated);
        proof {
            assert(self@ =~~= (StateModel { signals: m.signals.insert(signal_id, updated), ..m }));
        }
        Ok(())
    }
}

} // verus!
