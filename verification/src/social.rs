//! Follower registry and statistics aggregation.
//!
//! `follow_strategy` / `unfollow_strategy` maintain the follow relation and
//! keep the stored follower figure in step; `update_strategy_stats` is the
//! full recompute over a strategy's signal history. The recompute never
//! fails: signals that are missing from the store are skipped.
use vstd::prelude::*;

use crate::model::count_resolved;
use crate::model::count_result;
use crate::model::followers_wf;
use crate::model::ids_of;
use crate::model::lemma_count_partition;
use crate::model::lemma_counts_take_step;
use crate::model::spec_stats;
use crate::model::sum_pnl;
use crate::model::StateModel;
use crate::state::AgentHubState;
use crate::types::AgentHubError;
use crate::types::Follower;
use crate::types::SignalResult;
use crate::types::SignalStatus;
use crate::types::StrategyStats;

verus! {

broadcast use
    vstd::std_specs::hash::group_hash_axioms,
    crate::model::lemma_vec_map_view_contains,
    crate::model::lemma_vec_map_view_index,
    crate::model::lemma_vec_map_view_insert,
    crate::model::lemma_vec_map_view_remove;

/// The follower entries of a strategy, oldest first; empty when none were
/// ever recorded.
pub open spec fn followers_list(m: StateModel, sid: u64) -> Seq<Follower> {
    if m.followers.contains_key(sid) {
        m.followers[sid]
    } else {
        Seq::empty()
    }
}

/// Whether an account currently follows a strategy.
pub open spec fn is_follower(m: StateModel, sid: u64, account: u64) -> bool {
    exists|i: int|
        0 <= i < followers_list(m, sid).len() && (#[trigger] followers_list(m, sid)[i]).follower
            == account
}

/// What a statistics recompute does: it stores exactly `spec_stats` for the
/// strategy and touches nothing else. It has no failure outcome.
pub open spec fn update_stats_post(pre: AgentHubState, post: AgentHubState, sid: u64) -> bool {
    post@ == StateModel {
        strategy_stats: pre@.strategy_stats.insert(sid, spec_stats(pre@, sid)),
        ..pre@
    }
}

/// What `follow_strategy` does: it fails iff the strategy is absent or the
/// account already follows it, and otherwise appends one follower entry and
/// stores the new follower count in the strategy's statistics.
pub open spec fn follow_post(
    pre: AgentHubState,
    post: AgentHubState,
    account: u64,
    sid: u64,
    auto_copy: bool,
    max_exposure_units: u64,
    now: u64,
    r: Result<(), AgentHubError>,
) -> bool {
    let m = pre@;
    if !m.strategies.contains_key(sid) {
        r == Err::<(), AgentHubError>(AgentHubError::StrategyNotFound) && post@ == m
    } else if is_follower(m, sid, account) {
        r == Err::<(), AgentHubError>(AgentHubError::AlreadyFollowing) && post@ == m
    } else {
        let entry = Follower {
            strategy_id: sid,
            follower: account,
            auto_copy,
            max_exposure_units,
            created_at: now,
        };
        let new_list = followers_list(m, sid).push(entry);
        let stats0 = if m.strategy_stats.contains_key(sid) {
            m.strategy_stats[sid]
        } else {
            StrategyStats::spec_default()
        };
        &&& r == Ok::<(), AgentHubError>(())
        &&& post@ == StateModel {
            followers: m.followers.insert(sid, new_list),
            strategy_stats: m.strategy_stats.insert(
                sid,
                StrategyStats { followers: new_list.len() as u64, ..stats0 },
            ),
            ..m
        }
    }
}

/// What `unfollow_strategy` does: it fails iff the account does not follow
/// the strategy, and otherwise removes that account's single entry and
/// stores the decremented follower count in the strategy's statistics.
pub open spec fn unfollow_post(
    pre: AgentHubState,
    post: AgentHubState,
    account: u64,
    sid: u64,
    r: Result<(), AgentHubError>,
) -> bool {
    let m = pre@;
    if !is_follower(m, sid, account) {
        r == Err::<(), AgentHubError>(AgentHubError::NotFollowing) && post@ == m
    } else {
        let idx = choose|i: int|
            0 <= i < followers_list(m, sid).len() && (#[trigger] followers_list(m, sid)[i]).follower
                == account;
        let new_list = followers_list(m, sid).remove(idx);
        let stats0 = if m.strategy_stats.contains_key(sid) {
            m.strategy_stats[sid]
        } else {
            StrategyStats::spec_default()
        };
        &&& r == Ok::<(), AgentHubError>(())
        &&& post@ == StateModel {
            followers: m.followers.insert(sid, new_list),
            strategy_stats: m.strategy_stats.insert(
                sid,
                StrategyStats { followers: new_list.len() as u64, ..stats0 },
            ),
            ..m
        }
    }
}

impl AgentHubState {
    /// Recomputes a strategy's statistics from its full signal history plus
    /// the current follower count, and stores the result. Linear in the
    /// strategy's total signal count; never fails; signals that fail to
    /// load are skipped.
    pub fn update_strategy_stats(&mut self, strategy_id: u64)
        requires
            old(self).wf(),
        ensures
            final(self).wf(),
            update_stats_post(*old(self), *final(self), strategy_id),
    {
        let ghost m = self@;
        let empty_ids: Vec<u64> = Vec::new();
        let ids: &Vec<u64> = match self.signals_by_strategy.get(&strategy_id) {
            Some(v) => v,
            None => &empty_ids,
        };
        proof {
            assert(ids@ == ids_of(m, strategy_id));
        }

        let mut total_signals: u64 = 0;
        let mut winning_signals: u64 = 0;
        let mut losing_signals: u64 = 0;
        let mut push_signals: u64 = 0;
        let mut total_pnl: i128 = 0;
        let n: usize = ids.len();
        let mut i: usize = 0;
        while i < n
            invariant
                *self == *old(self),
                self@ == m,
                ids@ == ids_of(m, strategy_id),
                0 <= i <= ids@.len(),
                n == ids@.len(),
                total_signals == count_resolved(m.signals, ids@.take(i as int)),
                winning_signals == count_result(m.signals, ids@.take(i as int), SignalResult::Win),
                losing_signals == count_result(m.signals, ids@.take(i as int), SignalResult::Lose),
                push_signals == count_result(m.signals, ids@.take(i as int), SignalResult::Push),
                total_pnl == sum_pnl(m.signals, ids@.take(i as int)),
                total_signals <= i,
                winning_signals <= total_signals,
                losing_signals <= total_signals,
                push_signals <= total_signals,
                -((i as int) * 0x8000_0000_0000_0000) <= total_pnl <= (i as int)
                    * 0x7FFF_FFFF_FFFF_FFFF,
            decreases ids@.len() - i,
        {
            let id = ids[i];
            match self.signals.get(&id) {
                Some(signal) => {
                    if signal.status == SignalStatus::Resolved {
                        total_signals = total_signals + 1;
                        let p: i64 = match signal.pnl_bps {
                            Some(p) => p,
                            None => 0,
                        };
                        total_pnl = total_pnl + (p as i128);
                        match signal.result {
                            Some(SignalResult::Win) => {
                                winning_signals = winning_signals + 1;
                            },
                            Some(SignalResult::Lose) => {
                                losing_signals = losing_signals + 1;
                            },
                            Some(SignalResult::Push) => {
                                push_signals = push_signals + 1;
                            },
                            None => {},
                        }
                    }
                },
                None => {},
            }
            proof {
                lemma_counts_take_step(m.signals, ids@, i as int, SignalResult::Win);
                lemma_counts_take_step(m.signals, ids@, i as int, SignalResult::Lose);
                lemma_counts_take_step(m.signals, ids@, i as int, SignalResult::Push);
            }
            i = i + 1;
        }
        proof {
            assert(ids@.take(ids@.len() as int) =~= ids@);
        }

        let win_rate_bps: u32 = if total_signals > 0 {
            proof {
                assert(total_signals * 10000 >= winning_signals * 10000 >= 0) by (nonlinear_arith)
                    requires
                        0 <= winning_signals <= total_signals,
                {
                }
                assert((winning_signals as int) * 10000 / (total_signals as int) <= 10000)
                    by (nonlinear_arith)
                    requires
                        0 < total_signals,
                        0 <= winning_signals * 10000 <= total_signals * 10000,
                {
                }
            }
            (((winning_signals as u128) * 10000) / (total_signals as u128)) as u32
        } else {
            0
        };

        let total_pnl_bps: i64 = if total_pnl > i64::MAX as i128 {
            i64::MAX
        } else if total_pnl < i64::MIN as i128 {
            i64::MIN
        } else {
            total_pnl as i64
        };

        let avg_pnl_bps: i32 = if total_signals > 0 {
            if total_pnl_bps >= 0 {
                let q: u64 = (total_pnl_bps as u64) / total_signals;
                if q > i32::MAX as u64 {
                    i32::MAX
                } else {
                    q as i32
                }
            } else {
                let magnitude: u64 = (-(total_pnl_bps as i128)) as u64;
                let q: u64 = magnitude / total_signals;
                if q >= 2_147_483_649 {
                    i32::MIN
                } else {
                    (-(q as i64)) as i32
                }
            }
        } else {
            0
        };

        let followers_cnt: u64 = match self.followers.get(&strategy_id) {
            Some(v) => v.len() as u64,
            None => 0,
        };

        let stats = StrategyStats {
            strategy_id,
            total_signals,
            winning_signals,
            losing_signals,
            push_signals,
            win_rate_bps,
            avg_pnl_bps,
            total_pnl_bps,
            followers: followers_cnt,
        };
        proof {
            assert(stats == spec_stats(m, strategy_id));
            lemma_count_partition(m.signals, ids@);
        }
        self.strategy_stats.insert(strategy_id, stats);
        proof {
            assert(self@ =~~= (StateModel {
                strategy_stats: m.strategy_stats.insert(strategy_id, spec_stats(m, strategy_id)),
                ..m
            }));
        }
    }

    /// Makes `account` a follower of the strategy. Fails with
    /// `StrategyNotFound` when the strategy does not exist and
    /// `AlreadyFollowing` when the relation already exists; otherwise
    /// records the relation and stores the incremented follower count in
    /// the strategy's statistics.
    pub fn follow_strategy(
        &mut self,
        account: u64,
        strategy_id: u64,
        auto_copy: bool,
        max_exposure_units: u64,
        now: u64,
    ) -> (r: Result<(), AgentHubError>)
        requires
            old(self).wf(),
        ensures
            final(self).wf(),
            follow_post(
                *old(self),
                *final(self),
                account,
                strategy_id,
                auto_copy,
                max_exposure_units,
                now,
                r,
            ),
    {
        let ghost m = self@;
        if !self.strategies.contains_key(&strategy_id) {
            return Err(AgentHubError::StrategyNotFound);
        }
        let empty: Vec<Follower> = Vec::new();
        let list_ref: &Vec<Follower> = match self.followers.get(&strategy_id) {
            Some(v) => v,
            None => &empty,
        };
        proof {
            assert(list_ref@ == followers_list(m, strategy_id));
        }
        let n: usize = list_ref.len();
        let mut i: usize = 0;
        while i < n
            invariant
                *self == *old(self),
                m == self@,
                m.wf(),
                m.strategies.contains_key(strategy_id),
                n == list_ref@.len(),
                0 <= i <= n,
                list_ref@ == followers_list(m, strategy_id),
                forall|j: int| 0 <= j < i ==> (#[trigger] list_ref@[j]).follower != account,
            decreases n - i,
        {
            if list_ref[i].follower == account {
                return Err(AgentHubError::AlreadyFollowing);
            }
            i = i + 1;
        }
        proof {
            assert(!is_follower(m, strategy_id, account));
        }

        let mut list: Vec<Follower> = match self.followers.remove(&strategy_id) {
            Some(v) => v,
            None => Vec::new(),
        };
        let entry = Follower {
            strategy_id,
            follower: account,
            auto_copy,
            max_exposure_units,
            created_at: now,
        };
        list.push(entry);
        let cnt: u64 = list.len() as u64;
        let ghost new_list = list@;
        self.followers.insert(strategy_id, list);

        let stats0: StrategyStats = match self.strategy_stats.get(&strategy_id) {
            Some(s) => *s,
            None => StrategyStats::default(),
        };
        let stats = StrategyStats { followers: cnt, ..stats0 };
        self.strategy_stats.insert(strategy_id, stats);
        proof {
            assert(self@.followers =~= m.followers.insert(strategy_id, new_list));
            assert(self@ =~~= (StateModel {
                followers: m.followers.insert(strategy_id, new_list),
                strategy_stats: m.strategy_stats.insert(strategy_id, stats),
                ..m
            }));
            assert(followers_wf(new_list, strategy_id));
        }
        Ok(())
    }

    /// Removes `account` from the strategy's followers. Fails with
    /// `NotFollowing` when the relation does not exist; otherwise removes
    /// the single entry and stores the decremented follower count in the
    /// strategy's statistics.
    pub fn unfollow_strategy(&mut self, account: u64, strategy_id: u64) -> (r: Result<
        (),
        AgentHubError,
    >)
        requires
            old(self).wf(),
        ensures
            final(self).wf(),
            unfollow_post(*old(self), *final(self), account, strategy_id, r),
    {
        let ghost m = self@;
        let empty: Vec<Follower> = Vec::new();
        let list_ref: &Vec<Follower> = match self.followers.get(&strategy_id) {
            Some(v) => v,
            None => &empty,
        };
        proof {
            assert(list_ref@ == followers_list(m, strategy_id));
        }
        let n: usize = list_ref.len();
        let mut idx: usize = 0;
        let mut found: bool = false;
        let mut i: usize = 0;
        while i < n
            invariant
                *self == *old(self),
                m == self@,
                m.wf(),
                n == list_ref@.len(),
                0 <= i <= n,
                list_ref@ == followers_list(m, strategy_id),
                found ==> idx < i && list_ref@[idx as int].follower == account,
                !found ==> forall|j: int|
                    0 <= j < i ==> (#[trigger] list_ref@[j]).follower != account,
            decreases n - i,
        {
            if !found && list_ref[i].follower == account {
                found = true;
                idx = i;
            }
            i = i + 1;
        }
        if !found {
            proof {
                assert(!is_follower(m, strategy_id, account));
            }
            return Err(AgentHubError::NotFollowing);
        }
        proof {
            assert(is_follower(m, strategy_id, account));
        }

        let mut list: Vec<Follower> = match self.followers.remove(&strategy_id) {
            Some(v) => v,
            None => {
                proof {
                    assert(false);
                }
                Vec::new()
            },
        };
        list.remove(idx);
        let cnt: u64 = list.len() as u64;
        let ghost new_list = list@;
        self.followers.insert(strategy_id, list);

        let stats0: StrategyStats = match self.strategy_stats.get(&strategy_id) {
            Some(s) => *s,
            None => StrategyStats::default(),
        };
        let stats = StrategyStats { followers: cnt, ..stats0 };
        self.strategy_stats.insert(strategy_id, stats);
        proof {
            let c = choose|j: int|
                0 <= j < followers_list(m, strategy_id).len() && (#[trigger] followers_list(
                    m,
                    strategy_id,
                )[j]).follower == account;
            assert(followers_wf(followers_list(m, strategy_id), strategy_id));
            assert(c == idx);
            assert(self@.followers =~= m.followers.insert(strategy_id, new_list));
            assert(self@ =~~= (StateModel {
                followers: m.followers.insert(strategy_id, new_list),
                strategy_stats: m.strategy_stats.insert(strategy_id, stats),
                ..m
            }));
            assert forall|a: int, b: int|
                0 <= a < b < new_list.len() implies new_list[a].follower
                != new_list[b].follower by {
                assert(followers_wf(followers_list(m, strategy_id), strategy_id));
            }
            assert(followers_wf(new_list, strategy_id));
        }
        Ok(())
    }
}

} // verus!
