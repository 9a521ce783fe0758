//! Executable state of one shard.
//!
//! `AgentHubState` is the in-memory store the verified operations work on.
//! Its view is the `StateModel` of the contracts. The unverified driver
//! owns one value of this type per shard, persists it, and feeds it the
//! operations and messages that arrive.
use vstd::prelude::*;

use std::collections::HashMap;

use crate::model::vec_map_view;
use crate::model::StateModel;
use crate::types::AgentStrategy;
use crate::types::Follower;
use crate::types::Signal;
use crate::types::Strategist;
use crate::types::StrategyStats;
use crate::types::Subscription;
use crate::types::SubscriptionOffer;

verus! {

broadcast use
    vstd::std_specs::hash::group_hash_axioms,
    crate::model::lemma_vec_map_view_contains,
    crate::model::lemma_vec_map_view_index,
    crate::model::lemma_vec_map_view_insert;

/// The application state stored on each shard.
pub struct AgentHubState {
    /// Hub shard for cross-shard coordination, when one was configured.
    pub hub_chain_id: Option<u64>,
    /// Registered strategists, by account.
    pub strategists: HashMap<u64, Strategist>,
    /// All strategies, by id.
    pub strategies: HashMap<u64, AgentStrategy>,
    /// All signals, by id.
    pub signals: HashMap<u64, Signal>,
    /// Ids of locally published signals per strategy, oldest first.
    pub signals_by_strategy: HashMap<u64, Vec<u64>>,
    /// Last recomputed statistics per strategy.
    pub strategy_stats: HashMap<u64, StrategyStats>,
    /// Current followers per strategy, oldest first.
    pub followers: HashMap<u64, Vec<Follower>>,
    /// Next strategy id to allocate; starts at 1, never reused.
    pub next_strategy_id: u64,
    /// Next signal id to allocate; starts at 1, never reused.
    pub next_signal_id: u64,
    /// Subscription offers, by strategist account.
    pub subscription_offers: HashMap<u64, SubscriptionOffer>,
    /// Local subscription records, by token.
    pub subscriptions: HashMap<u128, Subscription>,
    /// Subscription tokens held by each local subscriber.
    pub subscriptions_by_subscriber: HashMap<u64, Vec<u128>>,
    /// Subscription tokens granted by each local strategist.
    pub subscribers_by_strategist: HashMap<u64, Vec<u128>>,
    /// Next subscription counter value; starts at 1, never reused.
    pub next_subscription_id: u64,
}

impl View for AgentHubState {
    type V = StateModel;

    open spec fn view(&self) -> StateModel {
        StateModel {
            hub_chain_id: self.hub_chain_id,
            strategists: self.strategists@,
            strategies: self.strategies@,
            signals: self.signals@,
            signals_by_strategy: vec_map_view(self.signals_by_strategy@),
            strategy_stats: self.strategy_stats@,
            followers: vec_map_view(self.followers@),
            next_strategy_id: self.next_strategy_id,
            next_signal_id: self.next_signal_id,
            subscription_offers: self.subscription_offers@,
            subscriptions: self.subscriptions@,
            subscriptions_by_subscriber: vec_map_view(self.subscriptions_by_subscriber@),
            subscribers_by_strategist: vec_map_view(self.subscribers_by_strategist@),
            next_subscription_id: self.next_subscription_id,
        }
    }
}

impl AgentHubState {
    /// The state invariants, stated over the model.
    pub open spec fn wf(&self) -> bool {
        self@.wf()
    }

    /// Instantiates a shard: empty stores, every id counter at 1. The hub
    /// shard identifier is recorded when the driver could parse one.
    pub fn new(hub_chain_id: Option<u64>) -> (s: Self)
        ensures
            s@ == StateModel::init(hub_chain_id),
            s.wf(),
    {
        let s = AgentHubState {
            hub_chain_id,
            strategists: HashMap::new(),
            strategies: HashMap::new(),
            signals: HashMap::new(),
            signals_by_strategy: HashMap::new(),
            strategy_stats: HashMap::new(),
            followers: HashMap::new(),
            next_strategy_id: 1,
            next_signal_id: 1,
            subscription_offers: HashMap::new(),
            subscriptions: HashMap::new(),
            subscriptions_by_subscriber: HashMap::new(),
            subscribers_by_strategist: HashMap::new(),
            next_subscription_id: 1,
        };
        proof {
            assert(s@ =~~= StateModel::init(hub_chain_id));
        }
        s
    }

    /// Looks a signal up by id.
    pub fn signal(&self, id: u64) -> (r: Option<&Signal>)
        ensures
            match r {
                Some(s) => self@.signals.contains_key(id) && *s == self@.signals[id],
                None => !self@.signals.contains_key(id),
            },
    {
        self.signals.get(&id)
    }

    /// Looks a strategy up by id.
    pub fn strategy(&self, id: u64) -> (r: Option<&AgentStrategy>)
        ensures
            match r {
                Some(s) => self@.strategies.contains_key(id) && *s == self@.strategies[id],
                None => !self@.strategies.contains_key(id),
            },
    {
        self.strategies.get(&id)
    }

    /// The last recomputed statistics of a strategy.
    pub fn strategy_stats(&self, strategy_id: u64) -> (r: Option<&StrategyStats>)
        ensures
            match r {
                Some(s) => self@.strategy_stats.contains_key(strategy_id) && *s
                    == self@.strategy_stats[strategy_id],
                None => !self@.strategy_stats.contains_key(strategy_id),
            },
    {
        self.strategy_stats.get(&strategy_id)
    }

    /// Whether an account is registered as a strategist.
    pub fn is_strategist(&self, owner: u64) -> (r: bool)
        ensures
            r == self@.strategists.contains_key(owner),
    {
        self.strategists.contains_key(&owner)
    }

    /// A strategist's subscription offer, when one exists.
    pub fn subscription_offer(&self, strategist: u64) -> (r: Option<&SubscriptionOffer>)
        ensures
            match r {
                Some(o) => self@.subscription_offers.contains_key(strategist) && *o
                    == self@.subscription_offers[strategist],
                None => !self@.subscription_offers.contains_key(strategist),
            },
    {
        self.subscription_offers.get(&strategist)
    }

    /// A local subscription record, by token.
    pub fn subscription(&self, token: u128) -> (r: Option<&Subscription>)
        ensures
            match r {
                Some(s) => self@.subscriptions.contains_key(token) && *s
                    == self@.subscriptions[token],
                None => !self@.subscriptions.contains_key(token),
            },
    {
        self.subscriptions.get(&token)
    }
}

} // verus!
