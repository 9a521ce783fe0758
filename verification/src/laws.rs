//! Laws of the hub, proved from the operation contracts.
//!
//! Each lemma states a guarantee that spans more than one call or holds of
//! every reachable state, over the same `*_post` predicates the executable
//! operations ensure.
use vstd::prelude::*;

use crate::model::count_resolved;
use crate::model::count_result;
use crate::model::follower_count_of;
use crate::model::followers_wf;
use crate::model::sum_pnl;
use crate::pnl::spec_pnl_bps;
use crate::pnl::spec_signal_result;
use crate::signals::cancel_post;
use crate::signals::publish_post;
use crate::signals::resolve_post;
use crate::social::followers_list;
use crate::state::AgentHubState;
use crate::types::AgentHubError;
use crate::types::Direction;
use crate::types::PublishSignalInput;
use crate::types::Signal;
use crate::types::SignalResult;
use crate::types::SignalStatus;

verus! {

/// For every confidence above 10000 bps, publication fails with
/// `InvalidConfidence` and no signal is created: the signal store, the
/// strategy histories and the id counter are exactly what they were.
pub proof fn law_invalid_confidence_creates_nothing(
    pre: AgentHubState,
    post: AgentHubState,
    owner: u64,
    input: PublishSignalInput,
    now: u64,
    r: Result<u64, AgentHubError>,
)
    requires
        input.confidence_bps > 10000,
        publish_post(pre, post, owner, input, now, r),
    ensures
        r == Err::<u64, AgentHubError>(AgentHubError::InvalidConfidence),
        post@ == pre@,
        post@.signals == pre@.signals,
        post@.signals_by_strategy == pre@.signals_by_strategy,
        post@.next_signal_id == pre@.next_signal_id,
{
}

/// Resolving a signal twice: the second resolution is rejected with
/// `SignalAlreadyResolved` and changes nothing, whatever value it carries —
/// in particular the signal's result fields still hold the outcome of the
/// first resolution.
pub proof fn law_second_resolve_rejected(
    s0: AgentHubState,
    s1: AgentHubState,
    s2: AgentHubState,
    signal_id: u64,
    v1: u64,
    v2: u64,
    r1: Result<(SignalResult, i64), AgentHubError>,
    r2: Result<(SignalResult, i64), AgentHubError>,
)
    requires
        resolve_post(s0, s1, signal_id, v1, r1),
        r1 is Ok,
        resolve_post(s1, s2, signal_id, v2, r2),
    ensures
        r2 == Err::<(SignalResult, i64), AgentHubError>(AgentHubError::SignalAlreadyResolved),
        s2@ == s1@,
        s2@.signals[signal_id] == s1@.signals[signal_id],
        s1@.signals[signal_id].status == SignalStatus::Resolved,
{
    assert(s1@.signals.contains_key(signal_id));
}

/// A missing or zero entry value, or a zero resolved value, always pushes
/// with zero PnL, whatever the direction.
pub proof fn law_degenerate_resolution_pushes(direction: Direction, entry: u64, resolved: u64)
    requires
        entry == 0 || resolved == 0,
    ensures
        spec_signal_result(direction, entry, resolved) == SignalResult::Push,
        spec_pnl_bps(direction, entry, resolved) == 0,
{
}

/// In every well-formed state — and every operation of this crate takes a
/// well-formed state to a well-formed state — a strategy's stored follower
/// figure equals the number of accounts currently following it, and each
/// account appears in its follower list at most once. The figure is a
/// `u64` count of a list, so it is never negative.
pub proof fn law_follower_count_consistent(s: AgentHubState, strategy_id: u64)
    requires
        s.wf(),
        s@.strategy_stats.contains_key(strategy_id),
    ensures
        s@.strategy_stats[strategy_id].followers == follower_count_of(s@, strategy_id),
        followers_wf(followers_list(s@, strategy_id), strategy_id),
{
    if !s@.followers.contains_key(strategy_id) {
        assert(followers_wf(Seq::<crate::types::Follower>::empty(), strategy_id));
    }
}

/// In every well-formed state — so after every resolve, for every strategy
/// — the stored outcome counts partition the resolved total:
/// `total_signals == winning_signals + losing_signals + push_signals`.
pub proof fn law_stats_partition(s: AgentHubState, strategy_id: u64)
    requires
        s.wf(),
        s@.strategy_stats.contains_key(strategy_id),
    ensures
        s@.strategy_stats[strategy_id].total_signals
            == s@.strategy_stats[strategy_id].winning_signals
            + s@.strategy_stats[strategy_id].losing_signals
            + s@.strategy_stats[strategy_id].push_signals,
{
}

/// Cancelling a terminal signal fails and changes nothing: a resolved
/// signal reports `SignalAlreadyResolved`, an already cancelled one
/// `SignalNotOpen`.
pub proof fn law_cancel_terminal(
    pre: AgentHubState,
    post: AgentHubState,
    caller: u64,
    signal_id: u64,
    r: Result<(), AgentHubError>,
)
    requires
        cancel_post(pre, post, caller, signal_id, r),
        pre@.signals.contains_key(signal_id),
        pre@.strategies.contains_key(pre@.signals[signal_id].strategy_id),
        pre@.strategies[pre@.signals[signal_id].strategy_id].owner == caller,
        pre@.signals[signal_id].status != SignalStatus::Open,
    ensures
        post@ == pre@,
        pre@.signals[signal_id].status == SignalStatus::Resolved ==> r == Err::<
            (),
            AgentHubError,
        >(AgentHubError::SignalAlreadyResolved),
        pre@.signals[signal_id].status == SignalStatus::Cancelled ==> r == Err::<
            (),
            AgentHubError,
        >(AgentHubError::SignalNotOpen),
{
}

/// Cancelling an open signal succeeds exactly once: after the first
/// successful cancellation the signal is cancelled, and a second attempt by
/// the same caller fails with `SignalNotOpen` and changes nothing.
pub proof fn law_cancel_once(
    s0: AgentHubState,
    s1: AgentHubState,
    s2: AgentHubState,
    caller: u64,
    signal_id: u64,
    r1: Result<(), AgentHubError>,
    r2: Result<(), AgentHubError>,
)
    requires
        cancel_post(s0, s1, caller, signal_id, r1),
        r1 is Ok,
        cancel_post(s1, s2, caller, signal_id, r2),
    ensures
        s1@.signals[signal_id].status == SignalStatus::Cancelled,
        r2 == Err::<(), AgentHubError>(AgentHubError::SignalNotOpen),
        s2@ == s1@,
{
    assert(s1@.signals.contains_key(signal_id));
}

/// A cancelled signal is excluded from every statistics recompute: the
/// counts and the PnL sum over any id list are the same as if the signal
/// were not stored at all.
pub proof fn law_cancelled_not_counted(
    signals: Map<u64, Signal>,
    ids: Seq<u64>,
    signal_id: u64,
    r: SignalResult,
)
    requires
        signals.contains_key(signal_id),
        signals[signal_id].status == SignalStatus::Cancelled,
    ensures
        count_resolved(signals, ids) == count_resolved(signals.remove(signal_id), ids),
        count_result(signals, ids, r) == count_result(signals.remove(signal_id), ids, r),
        sum_pnl(signals, ids) == sum_pnl(signals.remove(signal_id), ids),
    decreases ids.len(),
{
    if ids.len() > 0 {
        law_cancelled_not_counted(signals, ids.drop_last(), signal_id, r);
    }
}

} // verus!
