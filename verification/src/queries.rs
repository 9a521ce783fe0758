//! Read-only projections over a shard's state, as served to clients.
//!
//! These never mutate: each returns a value of the state plus filtering,
//! ordering and pagination. Strategies and locally published signals have
//! dense ids starting at 1, so listing walks the id range; lists of
//! subscriptions follow the stored token indexes.
use vstd::prelude::*;

use crate::model::StateModel;
use crate::social::is_follower;
use crate::state::AgentHubState;
use crate::subscriptions::has_active_subscription;
use crate::subscriptions::tokens_of;
use crate::subscriptions::granted_of;
use crate::types::AgentStrategy;
use crate::types::Follower;
use crate::types::MarketKind;
use crate::types::Signal;
use crate::types::SignalStatus;
use crate::types::StrategyWithStats;
use crate::types::Subscription;

verus! {

broadcast use
    vstd::std_specs::hash::group_hash_axioms,
    crate::model::lemma_vec_map_view_contains,
    crate::model::lemma_vec_map_view_index,
    crate::model::lemma_vec_map_view_insert,
    crate::model::lemma_vec_map_view_remove;

/// The window `offset..offset+limit` of a sequence: what a paginated query
/// returns of its full result.
pub open spec fn paginate<T>(s: Seq<T>, offset: nat, limit: nat) -> Seq<T> {
    if offset >= s.len() {
        Seq::empty()
    } else if offset + limit >= s.len() {
        s.subrange(offset as int, s.len() as int)
    } else {
        s.subrange(offset as int, (offset + limit) as int)
    }
}

/// The filter of the strategy listings: visibility, owner, market kind and
/// base market, each checked only when asked for.
pub open spec fn strategy_passes(
    s: AgentStrategy,
    require_public: bool,
    owner: Option<u64>,
    market_kind: Option<MarketKind>,
    base_market: Option<Seq<char>>,
) -> bool {
    &&& (require_public ==> s.is_public)
    &&& (owner matches Some(o) ==> s.owner == o)
    &&& (market_kind matches Some(k) ==> s.market_kind == k)
    &&& (base_market matches Some(b) ==> s.base_market@ == b)
}

/// The strategies with id below `upto` that pass the filter, in id order.
pub open spec fn matching_strategies(
    m: StateModel,
    upto: int,
    require_public: bool,
    owner: Option<u64>,
    market_kind: Option<MarketKind>,
    base_market: Option<Seq<char>>,
) -> Seq<AgentStrategy>
    decreases upto,
{
    if upto <= 1 {
        Seq::empty()
    } else {
        let prev = matching_strategies(m, upto - 1, require_public, owner, market_kind, base_market);
        let id = (upto - 1) as u64;
        if m.strategies.contains_key(id) && strategy_passes(
            m.strategies[id],
            require_public,
            owner,
            market_kind,
            base_market,
        ) {
            prev.push(m.strategies[id])
        } else {
            prev
        }
    }
}

/// The view of an optional filter string.
pub open spec fn filter_view(s: Option<String>) -> Option<Seq<char>> {
    match s {
        Some(b) => Some(b@),
        None => None,
    }
}

/// The stored subscription records behind a token list, in list order;
/// tokens without a record are skipped. With `active_only`, inactive
/// records are skipped too.
pub open spec fn stored_subscriptions(
    subs: Map<u128, Subscription>,
    tokens: Seq<u128>,
    active_only: bool,
) -> Seq<Subscription>
    decreases tokens.len(),
{
    if tokens.len() == 0 {
        Seq::empty()
    } else {
        let prev = stored_subscriptions(subs, tokens.drop_last(), active_only);
        let t = tokens.last();
        if subs.contains_key(t) && (!active_only || subs[t].is_active) {
            prev.push(subs[t])
        } else {
            prev
        }
    }
}

impl AgentHubState {
    /// Whether an account currently follows a strategy.
    pub fn is_following(&self, strategy_id: u64, follower: u64) -> (r: bool)
        ensures
            r == is_follower(self@, strategy_id, follower),
    {
        let ghost m = self@;
        let empty: Vec<Follower> = Vec::new();
        let list: &Vec<Follower> = match self.followers.get(&strategy_id) {
            Some(v) => v,
            None => &empty,
        };
        proof {
            assert(list@ == crate::social::followers_list(m, strategy_id));
        }
        let n: usize = list.len();
        let mut i: usize = 0;
        while i < n
            invariant
                m == self@,
                n == list@.len(),
                0 <= i <= n,
                list@ == crate::social::followers_list(m, strategy_id),
                forall|j: int| 0 <= j < i ==> (#[trigger] list@[j]).follower != follower,
            decreases n - i,
        {
            if list[i].follower == follower {
                return true;
            }
            i = i + 1;
        }
        false
    }

    /// Whether the subscriber holds an active subscription to the
    /// strategist on this shard.
    pub fn is_subscribed(&self, subscriber: u64, strategist: u64) -> (r: bool)
        ensures
            r == has_active_subscription(self@, subscriber, strategist),
    {
        let ghost m = self@;
        let empty: Vec<u128> = Vec::new();
        let tokens: &Vec<u128> = match self.subscriptions_by_subscriber.get(&subscriber) {
            Some(v) => v,
            None => &empty,
        };
        proof {
            assert(tokens@ == tokens_of(m, subscriber));
        }
        let n: usize = tokens.len();
        let mut i: usize = 0;
        while i < n
            invariant
                m == self@,
                n == tokens@.len(),
                0 <= i <= n,
                tokens@ == tokens_of(m, subscriber),
                forall|j: int|
                    0 <= j < i ==> !crate::subscriptions::matches_active(
                        m.subscriptions,
                        #[trigger] tokens@[j],
                        strategist,
                    ),
            decreases n - i,
        {
            let token = tokens[i];
            match self.subscriptions.get(&token) {
                Some(sub) => {
                    if sub.strategist == strategist && sub.is_active {
                        return true;
                    }
                },
                None => {},
            }
            i = i + 1;
        }
        false
    }

    /// All public strategies passing the optional market filters, in id
    /// order, paginated by `offset` and `limit`.
    pub fn public_strategies(
        &self,
        market_kind: Option<MarketKind>,
        base_market: Option<String>,
        limit: usize,
        offset: usize,
    ) -> (r: Vec<AgentStrategy>)
        requires
            self.wf(),
        ensures
            r@ == paginate(
                matching_strategies(
                    self@,
                    self@.next_strategy_id as int,
                    true,
                    None,
                    market_kind,
                    filter_view(base_market),
                ),
                offset as nat,
                limit as nat,
            ),
    {
        let all = self.collect_strategies(true, None, market_kind, &base_market);
        proof {
            assert(filter_view(base_market) == match &base_market {
                Some(b) => Some::<Seq<char>>(b@),
                None => None::<Seq<char>>,
            });
        }
        paginate_strategies(all, offset, limit)
    }

    /// The strategies a given account owns, in id order.
    pub fn my_strategies(&self, owner: u64) -> (r: Vec<AgentStrategy>)
        requires
            self.wf(),
        ensures
            r@ == matching_strategies(
                self@,
                self@.next_strategy_id as int,
                false,
                Some(owner),
                None,
                None,
            ),
    {
        self.collect_strategies(false, Some(owner), None, &None)
    }

    /// Walks the dense strategy id range and collects the strategies that
    /// pass the filter, in id order.
    fn collect_strategies(
        &self,
        require_public: bool,
        owner: Option<u64>,
        market_kind: Option<MarketKind>,
        base_market: &Option<String>,
    ) -> (r: Vec<AgentStrategy>)
        requires
            self.wf(),
        ensures
            r@ == matching_strategies(
                self@,
                self@.next_strategy_id as int,
                require_public,
                owner,
                market_kind,
                filter_view(*base_market),
            ),
    {
        let ghost m = self@;
        let next = self.next_strategy_id;
        let mut out: Vec<AgentStrategy> = Vec::new();
        let mut id: u64 = 1;
        while id < next
            invariant
                1 <= id <= next,
                next == m.next_strategy_id,
                m == self@,
                out@ == matching_strategies(
                    m,
                    id as int,
                    require_public,
                    owner,
                    market_kind,
                    filter_view(*base_market),
                ),
            decreases next - id,
        {
            match self.strategies.get(&id) {
                Some(s) => {
                    let mut keep = !require_public || s.is_public;
                    keep = keep && match owner {
                        Some(o) => s.owner == o,
                        None => true,
                    };
                    keep = keep && match market_kind {
                        Some(k) => s.market_kind == k,
                        None => true,
                    };
                    keep = keep && match base_market {
                        Some(b) => s.base_market.eq(b),
                        None => true,
                    };
                    if keep {
                        out.push(s.clone());
                    }
                },
                None => {},
            }
            id = id + 1;
        }
        out
    }

    /// Every subscription record held for a subscriber, in token order;
    /// inactive records included.
    pub fn my_subscriptions(&self, subscriber: u64) -> (r: Vec<Subscription>)
        ensures
            r@ == stored_subscriptions(self@.subscriptions, tokens_of(self@, subscriber), false),
    {
        let ghost m = self@;
        let empty: Vec<u128> = Vec::new();
        let tokens: &Vec<u128> = match self.subscriptions_by_subscriber.get(&subscriber) {
            Some(v) => v,
            None => &empty,
        };
        proof {
            assert(tokens@ == tokens_of(m, subscriber));
        }
        self.collect_subscriptions(tokens, false, Ghost(tokens_of(m, subscriber)))
    }

    /// The active subscriptions granted by a local strategist, in token
    /// order.
    pub fn subscribers_of(&self, strategist: u64) -> (r: Vec<Subscription>)
        ensures
            r@ == stored_subscriptions(self@.subscriptions, granted_of(self@, strategist), true),
    {
        let ghost m = self@;
        let empty: Vec<u128> = Vec::new();
        let tokens: &Vec<u128> = match self.subscribers_by_strategist.get(&strategist) {
            Some(v) => v,
            None => &empty,
        };
        proof {
            assert(tokens@ == granted_of(m, strategist));
        }
        self.collect_subscriptions(tokens, true, Ghost(granted_of(m, strategist)))
    }

    /// Loads the records behind a token list, skipping missing ones and,
    /// with `active_only`, inactive ones.
    fn collect_subscriptions(
        &self,
        tokens: &Vec<u128>,
        active_only: bool,
        list: Ghost<Seq<u128>>,
    ) -> (r: Vec<Subscription>)
        requires
            tokens@ == list@,
        ensures
            r@ == stored_subscriptions(self@.subscriptions, list@, active_only),
    {
        let ghost m = self@;
        let n: usize = tokens.len();
        let mut out: Vec<Subscription> = Vec::new();
        let mut i: usize = 0;
        while i < n
            invariant
                n == tokens@.len(),
                0 <= i <= n,
                m == self@,
                tokens@ == list@,
                out@ == stored_subscriptions(m.subscriptions, list@.take(i as int), active_only),
            decreases n - i,
        {
            let token = tokens[i];
            match self.subscriptions.get(&token) {
                Some(sub) => {
                    if !active_only || sub.is_active {
                        out.push(*sub);
                    }
                },
                None => {},
            }
            proof {
                assert(list@.take(i + 1).drop_last() =~= list@.take(i as int));
                assert(list@.take(i + 1).last() == list@[i as int]);
            }
            i = i + 1;
        }
        proof {
            assert(list@.take(n as int) =~= list@);
        }
        out
    }
}

/// The pagination window of a strategy list.
fn paginate_strategies(v: Vec<AgentStrategy>, offset: usize, limit: usize) -> (r: Vec<
    AgentStrategy,
>)
    ensures
        r@ == paginate(v@, offset as nat, limit as nat),
{
    let n = v.len();
    let mut out: Vec<AgentStrategy> = Vec::new();
    if offset >= n {
        proof {
            assert(out@ =~= paginate(v@, offset as nat, limit as nat));
        }
        return out;
    }
    let end: usize = if limit >= n - offset {
        n
    } else {
        offset + limit
    };
    let mut i: usize = offset;
    while i < end
        invariant
            offset <= i <= end <= n,
            n == v@.len(),
            offset < n,
            end == if (limit as int) >= n - offset {
                n as int
            } else {
                offset + limit
            },
            out@ == v@.subrange(offset as int, i as int),
        decreases end - i,
    {
        out.push(v[i].clone());
        proof {
            assert(out@ =~= v@.subrange(offset as int, i + 1));
        }
        i = i + 1;
    }
    proof {
        assert(out@ =~= paginate(v@, offset as nat, limit as nat));
    }
    out
}

/// Newest-first ordering on signals.
pub open spec fn sorted_by_created_desc(s: Seq<Signal>) -> bool {
    forall|i: int, j: int| #![trigger s[i], s[j]] 0 <= i < j < s.len() ==> s[i].created_at >= s[j].created_at
}

/// The leaderboard ordering: higher win rate first, ties broken by higher
/// total PnL. Total: any two entries are comparable.
pub open spec fn ranked_ge(a: StrategyWithStats, b: StrategyWithStats) -> bool {
    ||| a.stats.win_rate_bps > b.stats.win_rate_bps
    ||| (a.stats.win_rate_bps == b.stats.win_rate_bps && a.stats.total_pnl_bps
        >= b.stats.total_pnl_bps)
}

/// Best-first leaderboard ordering on a sequence.
pub open spec fn sorted_by_rank_desc(s: Seq<StrategyWithStats>) -> bool {
    forall|i: int, j: int| #![trigger s[i], s[j]] 0 <= i < j < s.len() ==> ranked_ge(s[i], s[j])
}

/// The stored signals behind an id list, in list order; missing ids are
/// skipped.
pub open spec fn signals_for(signals: Map<u64, Signal>, ids: Seq<u64>) -> Seq<Signal>
    decreases ids.len(),
{
    if ids.len() == 0 {
        Seq::empty()
    } else {
        let prev = signals_for(signals, ids.drop_last());
        if signals.contains_key(ids.last()) {
            prev.push(signals[ids.last()])
        } else {
            prev
        }
    }
}

/// The locally published signals with id below `upto`, in id order; with
/// `open_only`, only the open ones.
pub open spec fn local_signals(m: StateModel, upto: int, open_only: bool) -> Seq<Signal>
    decreases upto,
{
    if upto <= 1 {
        Seq::empty()
    } else {
        let prev = local_signals(m, upto - 1, open_only);
        let id = (upto - 1) as u64;
        if m.signals.contains_key(id) && (!open_only || m.signals[id].status
            == SignalStatus::Open) {
            prev.push(m.signals[id])
        } else {
            prev
        }
    }
}

/// The public strategies with at least one resolved signal, paired with
/// their statistics, in id order.
pub open spec fn ranked_strategies(m: StateModel, upto: int) -> Seq<StrategyWithStats>
    decreases upto,
{
    if upto <= 1 {
        Seq::empty()
    } else {
        let prev = ranked_strategies(m, upto - 1);
        let id = (upto - 1) as u64;
        if m.strategies.contains_key(id) && m.strategies[id].is_public
            && m.strategy_stats.contains_key(id) && m.strategy_stats[id].total_signals > 0 {
            prev.push(StrategyWithStats { strategy: m.strategies[id], stats: m.strategy_stats[id] })
        } else {
            prev
        }
    }
}

/// Sorts signals newest first by selection of the maximum: the result is a
/// permutation of the input ordered by `created_at` descending. The
/// relative order of signals with equal timestamps is unspecified.
fn sort_signals_desc(input: Vec<Signal>) -> (r: Vec<Signal>)
    ensures
        r@.to_multiset() == input@.to_multiset(),
        sorted_by_created_desc(r@),
{
    broadcast use vstd::seq_lib::group_to_multiset_ensures, vstd::multiset::group_multiset_axioms;

    let mut rest = input;
    let mut out: Vec<Signal> = Vec::new();
    while rest.len() > 0
        invariant
            out@.to_multiset().add(rest@.to_multiset()) =~= input@.to_multiset(),
            sorted_by_created_desc(out@),
            forall|i: int, j: int|
                #![trigger out@[i], rest@[j]]
                0 <= i < out@.len() && 0 <= j < rest@.len() ==> out@[i].created_at
                    >= rest@[j].created_at,
        decreases rest.len(),
    {
        let mut best: usize = 0;
        let mut k: usize = 1;
        while k < rest.len()
            invariant
                0 <= best < k <= rest@.len(),
                rest@.len() > 0,
                forall|j: int|
                    0 <= j < k ==> rest@[best as int].created_at >= (#[trigger] rest@[j]).created_at,
            decreases rest@.len() - k,
        {
            if rest[k].created_at > rest[best].created_at {
                best = k;
            }
            k = k + 1;
        }
        let ghost old_out = out@;
        let ghost old_rest = rest@;
        let chosen = rest.remove(best);
        out.push(chosen);
        proof {
            assert(rest@ =~= old_rest.remove(best as int));
            assert(old_rest.contains(chosen));
            assert(out@.to_multiset().add(rest@.to_multiset()) =~= input@.to_multiset()) by {
                old_out.to_multiset_ensures();
                old_rest.to_multiset_ensures();
                assert(out@ == old_out.push(chosen));
                assert(out@.to_multiset() =~= old_out.to_multiset().insert(chosen));
                assert(rest@.to_multiset() =~= old_rest.to_multiset().remove(chosen));
                assert(old_rest.to_multiset().count(chosen) > 0);
            }
            assert forall|i: int, j: int|
                #![trigger out@[i], rest@[j]]
                0 <= i < out@.len() && 0 <= j < rest@.len() implies out@[i].created_at
                >= rest@[j].created_at by {
                assert(rest@[j] == if j < best as int {
                    old_rest[j]
                } else {
                    old_rest[j + 1]
                });
            }
        }
    }
    out
}

/// Sorts leaderboard entries best first by selection of the maximum under
/// `ranked_ge`. The relative order of entries with equal rank keys is
/// unspecified.
fn sort_ranked_desc(input: Vec<StrategyWithStats>) -> (r: Vec<StrategyWithStats>)
    ensures
        r@.to_multiset() == input@.to_multiset(),
        sorted_by_rank_desc(r@),
{
    broadcast use vstd::seq_lib::group_to_multiset_ensures, vstd::multiset::group_multiset_axioms;

    let mut rest = input;
    let mut out: Vec<StrategyWithStats> = Vec::new();
    while rest.len() > 0
        invariant
            out@.to_multiset().add(rest@.to_multiset()) =~= input@.to_multiset(),
            sorted_by_rank_desc(out@),
            forall|i: int, j: int|
                #![trigger out@[i], rest@[j]]
                0 <= i < out@.len() && 0 <= j < rest@.len() ==> ranked_ge(out@[i], rest@[j]),
        decreases rest.len(),
    {
        let mut best: usize = 0;
        let mut k: usize = 1;
        while k < rest.len()
            invariant
                0 <= best < k <= rest@.len(),
                rest@.len() > 0,
                forall|j: int| 0 <= j < k ==> ranked_ge(rest@[best as int], #[trigger] rest@[j]),
            decreases rest@.len() - k,
        {
            let better = rest[k].stats.win_rate_bps > rest[best].stats.win_rate_bps
                || (rest[k].stats.win_rate_bps == rest[best].stats.win_rate_bps
                    && rest[k].stats.total_pnl_bps > rest[best].stats.total_pnl_bps);
            if better {
                best = k;
            }
            k = k + 1;
        }
        let ghost old_out = out@;
        let ghost old_rest = rest@;
        let chosen = rest.remove(best);
        out.push(chosen);
        proof {
            assert(rest@ =~= old_rest.remove(best as int));
            assert(old_rest.contains(chosen));
            assert(out@.to_multiset().add(rest@.to_multiset()) =~= input@.to_multiset()) by {
                old_out.to_multiset_ensures();
                old_rest.to_multiset_ensures();
                assert(out@ == old_out.push(chosen));
                assert(out@.to_multiset() =~= old_out.to_multiset().insert(chosen));
                assert(rest@.to_multiset() =~= old_rest.to_multiset().remove(chosen));
                assert(old_rest.to_multiset().count(chosen) > 0);
            }
            assert forall|i: int, j: int|
                #![trigger out@[i], rest@[j]]
                0 <= i < out@.len() && 0 <= j < rest@.len() implies ranked_ge(
                out@[i],
                rest@[j],
            ) by {
                assert(rest@[j] == if j < best as int {
                    old_rest[j]
                } else {
                    old_rest[j + 1]
                });
            }
        }
    }
    out
}

/// The pagination window of a signal list.
fn paginate_signals(v: &Vec<Signal>, offset: usize, limit: usize) -> (r: Vec<Signal>)
    ensures
        r@ == paginate(v@, offset as nat, limit as nat),
{
    let n = v.len();
    let mut out: Vec<Signal> = Vec::new();
    if offset >= n {
        proof {
            assert(out@ =~= paginate(v@, offset as nat, limit as nat));
        }
        return out;
    }
    let end: usize = if limit >= n - offset {
        n
    } else {
        offset + limit
    };
    let mut i: usize = offset;
    while i < end
        invariant
            offset <= i <= end <= n,
            n == v@.len(),
            offset < n,
            end == if (limit as int) >= n - offset {
                n as int
            } else {
                offset + limit
            },
            out@ == v@.subrange(offset as int, i as int),
        decreases end - i,
    {
        out.push(v[i]);
        proof {
            assert(out@ =~= v@.subrange(offset as int, i + 1));
        }
        i = i + 1;
    }
    proof {
        assert(out@ =~= paginate(v@, offset as nat, limit as nat));
    }
    out
}

impl AgentHubState {
    /// The signals of one strategy, newest first, paginated. The result is
    /// the stored signals of the strategy's history in some
    /// newest-first order, windowed by `offset` and `limit`.
    pub fn strategy_signals(&self, strategy_id: u64, limit: usize, offset: usize) -> (r: Vec<
        Signal,
    >)
        ensures
            exists|s: Seq<Signal>|
                {
                    &&& #[trigger] sorted_by_created_desc(s)
                    &&& s.to_multiset() == signals_for(
                        self@.signals,
                        crate::model::ids_of(self@, strategy_id),
                    ).to_multiset()
                    &&& r@ == paginate(s, offset as nat, limit as nat)
                },
    {
        let ghost m = self@;
        let empty: Vec<u64> = Vec::new();
        let ids: &Vec<u64> = match self.signals_by_strategy.get(&strategy_id) {
            Some(v) => v,
            None => &empty,
        };
        proof {
            assert(ids@ == crate::model::ids_of(m, strategy_id));
        }
        let n: usize = ids.len();
        let mut found: Vec<Signal> = Vec::new();
        let mut i: usize = 0;
        while i < n
            invariant
                m == self@,
                n == ids@.len(),
                0 <= i <= n,
                ids@ == crate::model::ids_of(m, strategy_id),
                found@ == signals_for(m.signals, ids@.take(i as int)),
            decreases n - i,
        {
            match self.signals.get(&ids[i]) {
                Some(signal) => {
                    found.push(*signal);
                },
                None => {},
            }
            proof {
                assert(ids@.take(i + 1).drop_last() =~= ids@.take(i as int));
                assert(ids@.take(i + 1).last() == ids@[i as int]);
            }
            i = i + 1;
        }
        proof {
            assert(ids@.take(n as int) =~= ids@);
        }
        let sorted = sort_signals_desc(found);
        let ghost witness = sorted@;
        let r = paginate_signals(&sorted, offset, limit);
        proof {
            assert(sorted_by_created_desc(witness) && witness.to_multiset() == signals_for(
                m.signals,
                crate::model::ids_of(m, strategy_id),
            ).to_multiset() && r@ == paginate(witness, offset as nat, limit as nat));
        }
        r
    }

    /// The locally published signals that are still open, newest first,
    /// truncated to `limit`. Signals stored by broadcast under ids outside
    /// the local dense range are not listed.
    pub fn open_signals(&self, limit: usize) -> (r: Vec<Signal>)
        requires
            self.wf(),
        ensures
            exists|s: Seq<Signal>|
                {
                    &&& #[trigger] sorted_by_created_desc(s)
                    &&& s.to_multiset() == local_signals(
                        self@,
                        self@.next_signal_id as int,
                        true,
                    ).to_multiset()
                    &&& r@ == paginate(s, 0, limit as nat)
                },
    {
        let found = self.collect_local_signals(true);
        let sorted = sort_signals_desc(found);
        let ghost witness = sorted@;
        let r = paginate_signals(&sorted, 0, limit);
        proof {
            assert(sorted_by_created_desc(witness) && witness.to_multiset() == local_signals(
                self@,
                self@.next_signal_id as int,
                true,
            ).to_multiset() && r@ == paginate(witness, 0, limit as nat));
        }
        r
    }

    /// The most recently published local signals, newest first, truncated
    /// to `limit`.
    pub fn recent_signals(&self, limit: usize) -> (r: Vec<Signal>)
        requires
            self.wf(),
        ensures
            exists|s: Seq<Signal>|
                {
                    &&& #[trigger] sorted_by_created_desc(s)
                    &&& s.to_multiset() == local_signals(
                        self@,
                        self@.next_signal_id as int,
                        false,
                    ).to_multiset()
                    &&& r@ == paginate(s, 0, limit as nat)
                },
    {
        let found = self.collect_local_signals(false);
        let sorted = sort_signals_desc(found);
        let ghost witness = sorted@;
        let r = paginate_signals(&sorted, 0, limit);
        proof {
            assert(sorted_by_created_desc(witness) && witness.to_multiset() == local_signals(
                self@,
                self@.next_signal_id as int,
                false,
            ).to_multiset() && r@ == paginate(witness, 0, limit as nat));
        }
        r
    }

    /// Walks the dense local signal id range and collects the stored
    /// signals, in id order.
    fn collect_local_signals(&self, open_only: bool) -> (r: Vec<Signal>)
        requires
            self.wf(),
        ensures
            r@ == local_signals(self@, self@.next_signal_id as int, open_only),
    {
        let ghost m = self@;
        let next = self.next_signal_id;
        let mut out: Vec<Signal> = Vec::new();
        let mut id: u64 = 1;
        while id < next
            invariant
                1 <= id <= next,
                next == m.next_signal_id,
                m == self@,
                out@ == local_signals(m, id as int, open_only),
            decreases next - id,
        {
            match self.signals.get(&id) {
                Some(signal) => {
                    if !open_only || signal.status == SignalStatus::Open {
                        out.push(*signal);
                    }
                },
                None => {},
            }
            id = id + 1;
        }
        out
    }

    /// The leaderboard: public strategies with at least one resolved
    /// signal, ordered by win rate and then total PnL, best first,
    /// truncated to `limit`.
    pub fn top_strategies(&self, limit: usize) -> (r: Vec<StrategyWithStats>)
        requires
            self.wf(),
        ensures
            exists|s: Seq<StrategyWithStats>|
                {
                    &&& #[trigger] sorted_by_rank_desc(s)
                    &&& s.to_multiset() == ranked_strategies(
                        self@,
                        self@.next_strategy_id as int,
                    ).to_multiset()
                    &&& r@ == paginate(s, 0, limit as nat)
                },
    {
        let ghost m = self@;
        let next = self.next_strategy_id;
        let mut found: Vec<StrategyWithStats> = Vec::new();
        let mut id: u64 = 1;
        while id < next
            invariant
                1 <= id <= next,
                next == m.next_strategy_id,
                m == self@,
                found@ == ranked_strategies(m, id as int),
            decreases next - id,
        {
            match self.strategies.get(&id) {
                Some(strategy) => {
                    if strategy.is_public {
                        match self.strategy_stats.get(&id) {
                            Some(stats) => {
                                if stats.total_signals > 0 {
                                    found.push(
                                        StrategyWithStats {
                                            strategy: strategy.clone(),
                                            stats: *stats,
                                        },
                                    );
                                }
                            },
                            None => {},
                        }
                    }
                },
                None => {},
            }
            id = id + 1;
        }
        let sorted = sort_ranked_desc(found);
        let ghost witness = sorted@;
        let mut out: Vec<StrategyWithStats> = Vec::new();
        let n = sorted.len();
        let end: usize = if limit >= n {
            n
        } else {
            limit
        };
        let mut i: usize = 0;
        while i < end
            invariant
                0 <= i <= end <= n,
                n == sorted@.len(),
                end == if (limit as int) >= n as int {
                    n as int
                } else {
                    limit as int
                },
                out@ == sorted@.subrange(0, i as int),
            decreases end - i,
        {
            out.push(sorted[i].clone());
            proof {
                assert(out@ =~= sorted@.subrange(0, i + 1));
            }
            i = i + 1;
        }
        proof {
            assert(out@ =~= paginate(witness, 0, limit as nat));
            assert(sorted_by_rank_desc(witness) && witness.to_multiset() == ranked_strategies(
                m,
                m.next_strategy_id as int,
            ).to_multiset() && out@ == paginate(witness, 0, limit as nat));
        }
        out
    }
}

} // verus!
