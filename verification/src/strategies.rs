//! Strategist registration and strategy creation.
use vstd::prelude::*;

use crate::model::StateModel;
use crate::state::AgentHubState;
use crate::types::AgentHubError;
use crate::types::AgentStrategy;
use crate::types::CreateStrategyInput;
use crate::types::Strategist;
use crate::types::StrategyStats;
use crate::types::Follower;

verus! {

broadcast use
    vstd::std_specs::hash::group_hash_axioms,
    crate::model::lemma_vec_map_view_contains,
    crate::model::lemma_vec_map_view_index,
    crate::model::lemma_vec_map_view_insert,
    crate::model::lemma_vec_map_view_remove;

/// What `register_strategist` does: it fails iff the account is already
/// registered, and otherwise records the strategist.
pub open spec fn register_post(
    pre: AgentHubState,
    post: AgentHubState,
    owner: u64,
    display_name: String,
    now: u64,
    r: Result<u64, AgentHubError>,
) -> bool {
    let m = pre@;
    if m.strategists.contains_key(owner) {
        r == Err::<u64, AgentHubError>(AgentHubError::StrategistAlreadyRegistered) && post@ == m
    } else {
        &&& r == Ok::<u64, AgentHubError>(owner)
        &&& post@ == StateModel {
            strategists: m.strategists.insert(
                owner,
                Strategist { owner, display_name, created_at: now },
            ),
            ..m
        }
    }
}

/// What `create_strategy` does: it fails iff the caller is not a registered
/// strategist, and otherwise stores the strategy under the next id
/// (starting at 1, strictly increasing, never reused), an empty signal
/// list, all-zero statistics and an empty follower list.
pub open spec fn create_post(
    pre: AgentHubState,
    post: AgentHubState,
    owner: u64,
    input: CreateStrategyInput,
    now: u64,
    r: Result<u64, AgentHubError>,
) -> bool {
    let m = pre@;
    if !m.strategists.contains_key(owner) {
        r == Err::<u64, AgentHubError>(AgentHubError::StrategistNotRegistered) && post@ == m
    } else {
        let id = m.next_strategy_id;
        let strategy = AgentStrategy {
            id,
            owner,
            name: input.name,
            description: input.description,
            market_kind: input.market_kind,
            base_market: input.base_market,
            is_public: input.is_public,
            is_ai_controlled: input.is_ai_controlled,
            created_at: now,
        };
        &&& r == Ok::<u64, AgentHubError>(id)
        &&& post@ == StateModel {
            strategies: m.strategies.insert(id, strategy),
            signals_by_strategy: m.signals_by_strategy.insert(id, Seq::empty()),
            strategy_stats: m.strategy_stats.insert(
                id,
                StrategyStats { strategy_id: id, ..StrategyStats::spec_default() },
            ),
            followers: m.followers.insert(id, Seq::empty()),
            next_strategy_id: (id + 1) as u64,
            ..m
        }
    }
}

impl AgentHubState {
    /// Registers the caller as a strategist. Fails with
    /// `StrategistAlreadyRegistered` when the account is already registered.
    pub fn register_strategist(&mut self, owner: u64, display_name: String, now: u64) -> (r:
        Result<u64, AgentHubError>)
        requires
            old(self).wf(),
        ensures
            final(self).wf(),
            register_post(*old(self), *final(self), owner, display_name, now, r),
    {
        let ghost m = self@;
        if self.strategists.contains_key(&owner) {
            return Err(AgentHubError::StrategistAlreadyRegistered);
        }
        let strategist = Strategist { owner, display_name, created_at: now };
        self.strategists.insert(owner, strategist);
        proof {
            assert(self@ =~~= (StateModel {
                strategists: m.strategists.insert(owner, strategist),
                ..m
            }));
        }
        Ok(owner)
    }

    /// Creates a strategy owned by the caller. Fails with
    /// `StrategistNotRegistered` when the caller is not registered;
    /// otherwise allocates the next strategy id and initializes the
    /// strategy's signal list, statistics and follower list.
    ///
    /// The id counter is a machine `u64`: the caller must leave room for
    /// one more allocation.
    pub fn create_strategy(&mut self, owner: u64, input: CreateStrategyInput, now: u64) -> (r:
        Result<u64, AgentHubError>)
        requires
            old(self).wf(),
            old(self)@.next_strategy_id < u64::MAX,
        ensures
            final(self).wf(),
            create_post(*old(self), *final(self), owner, input, now, r),
    {
        let ghost m = self@;
        if !self.strategists.contains_key(&owner) {
            return Err(AgentHubError::StrategistNotRegistered);
        }
        let id = self.next_strategy_id;
        self.next_strategy_id = id + 1;

        let strategy = AgentStrategy {
            id,
            owner,
            name: input.name,
            description: input.description,
            market_kind: input.market_kind,
            base_market: input.base_market,
            is_public: input.is_public,
            is_ai_controlled: input.is_ai_controlled,
            created_at: now,
        };
        self.strategies.insert(id, strategy);

        let signal_ids: Vec<u64> = Vec::new();
        self.signals_by_strategy.insert(id, signal_ids);

        let mut stats = StrategyStats::default();
        stats.strategy_id = id;
        self.strategy_stats.insert(id, stats);

        let follower_list: Vec<Follower> = Vec::new();
        self.followers.insert(id, follower_list);

        proof {
            assert(self@ =~~= (StateModel {
                strategies: m.strategies.insert(id, strategy),
                signals_by_strategy: m.signals_by_strategy.insert(id, Seq::empty()),
                strategy_stats: m.strategy_stats.insert(
                    id,
                    StrategyStats { strategy_id: id, ..StrategyStats::spec_default() },
                ),
                followers: m.followers.insert(id, Seq::empty()),
                next_strategy_id: (id + 1) as u64,
                ..m
            }));
        }
        Ok(id)
    }
}

} // verus!
