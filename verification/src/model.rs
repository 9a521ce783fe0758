//! Mathematical model of a shard's state.
//!
//! `StateModel` is the specification-level image of the executable state:
//! every stored collection becomes a `Map` or `Seq`. The contracts of all
//! operations are stated over this model, and the well-formedness predicate
//! `StateModel::wf` collects the invariants every operation preserves.
use vstd::prelude::*;

use crate::types::AgentStrategy;
use crate::types::Follower;
use crate::types::Signal;
use crate::types::SignalResult;
use crate::types::SignalStatus;
use crate::types::Strategist;
use crate::types::StrategyStats;
use crate::types::Subscription;
use crate::types::SubscriptionOffer;

verus! {

/// Specification image of one shard's entire state.
#[verifier::ext_equal]
pub ghost struct StateModel {
    pub hub_chain_id: Option<u64>,
    /// Registered strategists, by account.
    pub strategists: Map<u64, Strategist>,
    /// All strategies, by id.
    pub strategies: Map<u64, AgentStrategy>,
    /// All signals, by id; broadcast signals from other shards land here too.
    pub signals: Map<u64, Signal>,
    /// Ids of the signals published locally under each strategy, oldest first.
    pub signals_by_strategy: Map<u64, Seq<u64>>,
    /// Last recomputed statistics of each strategy.
    pub strategy_stats: Map<u64, StrategyStats>,
    /// Current followers of each strategy, oldest first.
    pub followers: Map<u64, Seq<Follower>>,
    pub next_strategy_id: u64,
    pub next_signal_id: u64,
    /// Subscription offers, by strategist account.
    pub subscription_offers: Map<u64, SubscriptionOffer>,
    /// Local subscription records, by token.
    pub subscriptions: Map<u128, Subscription>,
    /// Tokens of the subscriptions each local subscriber holds.
    pub subscriptions_by_subscriber: Map<u64, Seq<u128>>,
    /// Tokens of the subscriptions granted by each local strategist.
    pub subscribers_by_strategist: Map<u64, Seq<u128>>,
    pub next_subscription_id: u64,
}

/// The spec image of a map whose values are vectors: each vector replaced by
/// its sequence view.
pub open spec fn vec_map_view<K, T>(m: Map<K, Vec<T>>) -> Map<K, Seq<T>> {
    m.map_values(|v: Vec<T>| v@)
}

pub broadcast proof fn lemma_vec_map_view_contains<K, T>(m: Map<K, Vec<T>>, k: K)
    ensures
        #[trigger] vec_map_view(m).contains_key(k) <==> m.contains_key(k),
{
}

pub broadcast proof fn lemma_vec_map_view_index<K, T>(m: Map<K, Vec<T>>, k: K)
    ensures
        m.contains_key(k) ==> #[trigger] vec_map_view(m)[k] == m[k]@,
{
}

pub broadcast proof fn lemma_vec_map_view_insert<K, T>(m: Map<K, Vec<T>>, k: K, v: Vec<T>)
    ensures
        #[trigger] vec_map_view(m.insert(k, v)) == vec_map_view(m).insert(k, v@),
{
    assert(vec_map_view(m.insert(k, v)) =~= vec_map_view(m).insert(k, v@));
}

pub broadcast proof fn lemma_vec_map_view_remove<K, T>(m: Map<K, Vec<T>>, k: K)
    ensures
        #[trigger] vec_map_view(m.remove(k)) == vec_map_view(m).remove(k),
{
    assert(vec_map_view(m.remove(k)) =~= vec_map_view(m).remove(k));
}

/// The token of the subscription allocated under counter value `seq` for a
/// request stamped `timestamp`: an injective pairing of the two.
pub open spec fn spec_subscription_token(seq: u64, timestamp: u64) -> u128 {
    ((seq as int) * 0x1_0000_0000_0000_0000 + timestamp) as u128
}

/// Builds the subscription token from the strategist shard's counter value
/// and the request timestamp.
pub fn subscription_token(seq: u64, timestamp: u64) -> (t: u128)
    ensures
        t == spec_subscription_token(seq, timestamp),
{
    (seq as u128) * 0x1_0000_0000_0000_0000u128 + (timestamp as u128)
}

/// Whether a signal counts toward statistics: it must be stored and
/// resolved. Open and cancelled signals never count.
pub open spec fn counted(signals: Map<u64, Signal>, id: u64) -> bool {
    signals.contains_key(id) && signals[id].status == SignalStatus::Resolved
}

/// How many of the listed signal ids count toward statistics.
pub open spec fn count_resolved(signals: Map<u64, Signal>, ids: Seq<u64>) -> nat
    decreases ids.len(),
{
    if ids.len() == 0 {
        0nat
    } else {
        count_resolved(signals, ids.drop_last()) + (if counted(signals, ids.last()) {
            1nat
        } else {
            0nat
        })
    }
}

/// How many of the listed signal ids count toward statistics with outcome `r`.
pub open spec fn count_result(signals: Map<u64, Signal>, ids: Seq<u64>, r: SignalResult) -> nat
    decreases ids.len(),
{
    if ids.len() == 0 {
        0nat
    } else {
        count_result(signals, ids.drop_last(), r) + (if counted(signals, ids.last())
            && signals[ids.last()].result == Some(r) {
            1nat
        } else {
            0nat
        })
    }
}

/// The PnL a stored signal contributes to the total: its recorded PnL, or
/// zero when none is recorded.
pub open spec fn pnl_or_zero(p: Option<i64>) -> int {
    match p {
        Some(v) => v as int,
        None => 0int,
    }
}

/// Exact sum of the PnL of the listed signals that count toward statistics.
pub open spec fn sum_pnl(signals: Map<u64, Signal>, ids: Seq<u64>) -> int
    decreases ids.len(),
{
    if ids.len() == 0 {
        0int
    } else {
        sum_pnl(signals, ids.drop_last()) + (if counted(signals, ids.last()) {
            pnl_or_zero(signals[ids.last()].pnl_bps)
        } else {
            0int
        })
    }
}

/// An integer clamped to the `i64` range.
pub open spec fn clamp_i64(x: int) -> i64 {
    if x > i64::MAX {
        i64::MAX
    } else if x < i64::MIN {
        i64::MIN
    } else {
        x as i64
    }
}

/// An integer clamped to the `i32` range.
pub open spec fn clamp_i32(x: int) -> i32 {
    if x > i32::MAX {
        i32::MAX
    } else if x < i32::MIN {
        i32::MIN
    } else {
        x as i32
    }
}

/// Division by a positive divisor, truncated toward zero (unlike `/` on
/// `int`, which is Euclidean).
pub open spec fn div_trunc_by_pos(x: int, d: int) -> int
    recommends
        d >= 1,
{
    if x >= 0 {
        x / d
    } else {
        -((-x) / d)
    }
}

/// The signal ids ever published locally under a strategy, oldest first.
pub open spec fn ids_of(m: StateModel, sid: u64) -> Seq<u64> {
    if m.signals_by_strategy.contains_key(sid) {
        m.signals_by_strategy[sid]
    } else {
        Seq::empty()
    }
}

/// The number of accounts currently following a strategy.
pub open spec fn follower_count_of(m: StateModel, sid: u64) -> nat {
    if m.followers.contains_key(sid) {
        m.followers[sid].len()
    } else {
        0nat
    }
}

/// The statistics a recompute produces for a strategy: counts over the
/// resolved signals in its history, the win rate and average in basis
/// points, the PnL total (clamped to `i64` when the exact sum does not
/// fit), and the current follower count.
pub open spec fn spec_stats(m: StateModel, sid: u64) -> StrategyStats {
    let ids = ids_of(m, sid);
    let total = count_resolved(m.signals, ids);
    let wins = count_result(m.signals, ids, SignalResult::Win);
    let losses = count_result(m.signals, ids, SignalResult::Lose);
    let pushes = count_result(m.signals, ids, SignalResult::Push);
    let total_clamped = clamp_i64(sum_pnl(m.signals, ids));
    StrategyStats {
        strategy_id: sid,
        total_signals: total as u64,
        winning_signals: wins as u64,
        losing_signals: losses as u64,
        push_signals: pushes as u64,
        win_rate_bps: if total > 0 {
            (wins * 10000 / total) as u32
        } else {
            0u32
        },
        avg_pnl_bps: if total > 0 {
            clamp_i32(div_trunc_by_pos(total_clamped as int, total as int))
        } else {
            0i32
        },
        total_pnl_bps: total_clamped,
        followers: follower_count_of(m, sid) as u64,
    }
}

/// A strategy's signal-id list is strictly increasing (publication order)
/// and stays below the id counter, so a freshly allocated id never repeats
/// an id already listed.
pub open spec fn id_list_wf(l: Seq<u64>, next_signal_id: u64) -> bool {
    &&& forall|i: int, j: int| #![trigger l[i], l[j]] 0 <= i < j < l.len() ==> l[i] < l[j]
    &&& forall|i: int| 0 <= i < l.len() ==> #[trigger] l[i] < next_signal_id
}

/// A strategy's follower list holds each account at most once, and every
/// entry points back at the strategy.
pub open spec fn followers_wf(l: Seq<Follower>, sid: u64) -> bool {
    &&& forall|i: int, j: int|
        #![trigger l[i], l[j]]
        0 <= i < j < l.len() ==> l[i].follower != l[j].follower
    &&& forall|i: int| 0 <= i < l.len() ==> (#[trigger] l[i]).strategy_id == sid
}

/// A stored statistics record is internally consistent: the outcome counts
/// partition the total, and the follower figure equals the number of
/// accounts currently following.
pub open spec fn stats_wf(st: StrategyStats, fcount: nat) -> bool {
    &&& st.total_signals == st.winning_signals + st.losing_signals + st.push_signals
    &&& st.followers == fcount
}

impl StateModel {
    /// The state of a freshly instantiated shard: empty stores, all id
    /// counters at 1.
    pub open spec fn init(hub_chain_id: Option<u64>) -> StateModel {
        StateModel {
            hub_chain_id,
            strategists: Map::empty(),
            strategies: Map::empty(),
            signals: Map::empty(),
            signals_by_strategy: Map::empty(),
            strategy_stats: Map::empty(),
            followers: Map::empty(),
            next_strategy_id: 1u64,
            next_signal_id: 1u64,
            subscription_offers: Map::empty(),
            subscriptions: Map::empty(),
            subscriptions_by_subscriber: Map::empty(),
            subscribers_by_strategist: Map::empty(),
            next_subscription_id: 1u64,
        }
    }

    /// Invariants that hold of a shard's state after instantiation and are
    /// preserved by every operation and message handler.
    pub open spec fn wf(self) -> bool {
        &&& self.next_strategy_id >= 1
        &&& self.next_signal_id >= 1
        &&& self.next_subscription_id >= 1
        &&& forall|id: u64|
            #[trigger] self.signals.contains_key(id) ==> self.signals[id].wf()
                && self.signals[id].id == id
        &&& forall|sid: u64|
            #[trigger] self.signals_by_strategy.contains_key(sid) ==> id_list_wf(
                self.signals_by_strategy[sid],
                self.next_signal_id,
            )
        &&& forall|sid: u64|
            #[trigger] self.followers.contains_key(sid) ==> followers_wf(self.followers[sid], sid)
        &&& forall|sid: u64|
            #[trigger] self.strategy_stats.contains_key(sid) ==> stats_wf(
                self.strategy_stats[sid],
                follower_count_of(self, sid),
            )
        &&& forall|sid: u64|
            #[trigger] self.strategies.contains_key(sid) ==> self.strategies[sid].id == sid && 1
                <= sid < self.next_strategy_id
    }
}

/// The first index of `l` whose element satisfies `p`, or `l.len()` when no
/// element does.
pub open spec fn find_first<T>(l: Seq<T>, p: spec_fn(T) -> bool) -> int
    decreases l.len(),
{
    if l.len() == 0 {
        0int
    } else if p(l[0]) {
        0int
    } else {
        1 + find_first(l.drop_first(), p)
    }
}

/// Characterizes `find_first`: it lands on the first satisfying element, or
/// on `l.len()` exactly when no element satisfies `p`.
pub proof fn lemma_find_first<T>(l: Seq<T>, p: spec_fn(T) -> bool)
    ensures
        0 <= find_first(l, p) <= l.len(),
        find_first(l, p) < l.len() ==> p(l[find_first(l, p)]),
        forall|j: int| 0 <= j < find_first(l, p) ==> !p(#[trigger] l[j]),
        (exists|j: int| 0 <= j < l.len() && p(#[trigger] l[j])) ==> find_first(l, p) < l.len(),
    decreases l.len(),
{
    if l.len() == 0 {
    } else if p(l[0]) {
    } else {
        lemma_find_first(l.drop_first(), p);
        assert forall|j: int| 0 <= j < find_first(l, p) implies !p(l[j]) by {
            if j >= 1 {
                assert(l.drop_first()[j - 1] == l[j]);
            }
        }
        if exists|j: int| 0 <= j < l.len() && p(l[j]) {
            let j = choose|j: int| 0 <= j < l.len() && p(l[j]);
            assert(l.drop_first()[j - 1] == l[j]);
        }
        if find_first(l, p) < l.len() {
            assert(l.drop_first()[find_first(l.drop_first(), p)] == l[find_first(l, p)]);
        }
    }
}

/// Bounds of the statistics counters: no count exceeds the length of the
/// id list, and the per-outcome counts never exceed the resolved total.
pub proof fn lemma_counts_le_len(signals: Map<u64, Signal>, ids: Seq<u64>, r: SignalResult)
    ensures
        count_result(signals, ids, r) <= count_resolved(signals, ids) <= ids.len(),
    decreases ids.len(),
{
    if ids.len() > 0 {
        lemma_counts_le_len(signals, ids.drop_last(), r);
    }
}

/// Every resolved, well-formed signal has exactly one of the three
/// outcomes, so the outcome counts partition the resolved total.
pub proof fn lemma_count_partition(signals: Map<u64, Signal>, ids: Seq<u64>)
    requires
        forall|id: u64| #[trigger] signals.contains_key(id) ==> signals[id].wf(),
    ensures
        count_resolved(signals, ids) == count_result(signals, ids, SignalResult::Win)
            + count_result(signals, ids, SignalResult::Lose) + count_result(
            signals,
            ids,
            SignalResult::Push,
        ),
    decreases ids.len(),
{
    if ids.len() > 0 {
        lemma_count_partition(signals, ids.drop_last());
        if counted(signals, ids.last()) {
            let s = signals[ids.last()];
            assert(s.wf());
            match s.result {
                Some(SignalResult::Win) => {
                    assert(s.result == Some(SignalResult::Win));
                },
                Some(SignalResult::Lose) => {
                    assert(s.result == Some(SignalResult::Lose));
                },
                Some(SignalResult::Push) => {
                    assert(s.result == Some(SignalResult::Push));
                },
                None => {
                    assert(false);
                },
            }
        }
    }
}

/// The exact PnL sum of `n` signals lies within `n` times the `i64` range,
/// so an `i128` accumulator never overflows.
pub proof fn lemma_sum_pnl_bounds(signals: Map<u64, Signal>, ids: Seq<u64>)
    ensures
        -(ids.len() * 0x8000_0000_0000_0000) <= sum_pnl(signals, ids) <= ids.len()
            * 0x7FFF_FFFF_FFFF_FFFF,
    decreases ids.len(),
{
    if ids.len() > 0 {
        lemma_sum_pnl_bounds(signals, ids.drop_last());
    }
}

/// One step of the statistics fold: extending the processed prefix by one
/// id adds exactly that id's contribution.
pub proof fn lemma_counts_take_step(signals: Map<u64, Signal>, ids: Seq<u64>, i: int, r: SignalResult)
    requires
        0 <= i < ids.len(),
    ensures
        count_resolved(signals, ids.take(i + 1)) == count_resolved(signals, ids.take(i)) + (
        if counted(signals, ids[i]) {
            1nat
        } else {
            0nat
        }),
        count_result(signals, ids.take(i + 1), r) == count_result(signals, ids.take(i), r) + (
        if counted(signals, ids[i]) && signals[ids[i]].result == Some(r) {
            1nat
        } else {
            0nat
        }),
        sum_pnl(signals, ids.take(i + 1)) == sum_pnl(signals, ids.take(i)) + (if counted(
            signals,
            ids[i],
        ) {
            pnl_or_zero(signals[ids[i]].pnl_bps)
        } else {
            0int
        }),
{
    assert(ids.take(i + 1).drop_last() =~= ids.take(i));
    assert(ids.take(i + 1).last() == ids[i]);
}

} // verus!
