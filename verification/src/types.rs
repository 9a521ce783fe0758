//! Data model of the hub.
//!
//! Accounts, shards and timestamps cross this library's boundary as plain
//! integers: an account is a `u64` identifier, a shard (chain) is a `u64`
//! identifier, and a timestamp is microseconds since the epoch as a `u64`.
//! The unverified driver converts between these and whatever richer
//! representations the host runtime uses.
use vstd::prelude::*;

verus! {

/// Basis-point scale: 10000 bps = 100%.
pub const BPS_SCALE: u64 = 10000;

/// Thirty days in microseconds, the fixed validity window of a subscription.
pub const THIRTY_DAYS_MICROS: u64 = 30 * 24 * 60 * 60 * 1_000_000;

/// Largest entry or resolved market value accepted for PnL computation:
/// `i64::MAX / 10000`, so that a price move scaled to basis points always
/// fits in an `i64`.
pub const MAX_MARKET_VALUE: u64 = 922_337_203_685_477;

/// Market category a strategy trades on.
#[derive(Debug, Clone, Copy, PartialEq, Eq, Structural)]
pub enum MarketKind {
    /// Crypto markets (e.g. BTC or ETH prices via an oracle).
    Crypto,
    /// Sports betting markets.
    Sports,
    /// External prediction applications.
    PredictionApp,
}

impl Default for MarketKind {
    fn default() -> (r: Self)
        ensures
            r == MarketKind::Crypto,
    {
        MarketKind::Crypto
    }
}

/// Predicted direction of a signal.
#[derive(Debug, Clone, Copy, PartialEq, Eq, Structural)]
pub enum Direction {
    Up,
    Down,
    Over,
    Under,
    Yes,
    No,
}

/// Lifecycle status of a signal: `Open` is the only non-terminal state.
#[derive(Debug, Clone, Copy, PartialEq, Eq, Structural)]
pub enum SignalStatus {
    Open,
    Resolved,
    Cancelled,
}

impl Default for SignalStatus {
    fn default() -> (r: Self)
        ensures
            r == SignalStatus::Open,
    {
        SignalStatus::Open
    }
}

/// Outcome of a resolved signal.
#[derive(Debug, Clone, Copy, PartialEq, Eq, Structural)]
pub enum SignalResult {
    Win,
    Lose,
    Push,
}

/// A registered strategist account.
#[derive(Debug, Clone, PartialEq, Eq)]
pub struct Strategist {
    pub owner: u64,
    pub display_name: String,
    pub created_at: u64,
}

/// A signal-publishing strategy owned by a strategist.
#[derive(Debug, PartialEq, Eq)]
pub struct AgentStrategy {
    pub id: u64,
    pub owner: u64,
    pub name: String,
    pub description: String,
    pub market_kind: MarketKind,
    /// Base market, e.g. "BTC-USD".
    pub base_market: String,
    pub is_public: bool,
    pub is_ai_controlled: bool,
    pub created_at: u64,
}

impl Clone for AgentStrategy {
    /// An exact copy: every field of the clone equals the original's.
    fn clone(&self) -> (res: Self)
        ensures
            res == *self,
    {
        AgentStrategy {
            id: self.id,
            owner: self.owner,
            name: self.name.clone(),
            description: self.description.clone(),
            market_kind: self.market_kind,
            base_market: self.base_market.clone(),
            is_public: self.is_public,
            is_ai_controlled: self.is_ai_controlled,
            created_at: self.created_at,
        }
    }
}

/// A trading signal published under a strategy.
#[derive(Debug, Clone, Copy, PartialEq, Eq)]
pub struct Signal {
    pub id: u64,
    pub strategy_id: u64,
    pub created_at: u64,
    pub expires_at: u64,
    pub direction: Direction,
    /// Entry price or value at signal time; `None` when unknown.
    pub entry_value: Option<u64>,
    /// Confidence in basis points, 0 to 10000.
    pub confidence_bps: u16,
    pub status: SignalStatus,
    pub result: Option<SignalResult>,
    /// PnL in basis points, always stated in the strategist's favor.
    pub pnl_bps: Option<i64>,
    /// Observed value the signal was resolved against.
    pub resolved_value: Option<u64>,
}

impl Signal {
    /// Structural invariant of a stored signal: the resolution fields are
    /// populated exactly when the signal is resolved, and the entry value is
    /// small enough that resolving the signal can scale it to basis points.
    pub open spec fn wf(self) -> bool {
        &&& self.status == SignalStatus::Open ==> self.result is None && self.pnl_bps is None
            && self.resolved_value is None
        &&& self.status == SignalStatus::Cancelled ==> self.result is None && self.pnl_bps is None
            && self.resolved_value is None
        &&& self.status == SignalStatus::Resolved ==> self.result is Some && self.pnl_bps is Some
            && self.resolved_value is Some
        &&& self.entry_value matches Some(e) ==> e <= MAX_MARKET_VALUE
    }
}

/// Aggregated performance statistics of one strategy, recomputed in full
/// from the signal history. Counters cover resolved signals only; the PnL
/// totals are clamped to their field's range when the exact value would not
/// fit.
#[derive(Debug, Clone, Copy, PartialEq, Eq, Structural)]
pub struct StrategyStats {
    pub strategy_id: u64,
    pub total_signals: u64,
    pub winning_signals: u64,
    pub losing_signals: u64,
    pub push_signals: u64,
    /// Win rate in basis points, 0 to 10000.
    pub win_rate_bps: u32,
    /// Average PnL in basis points, truncated toward zero.
    pub avg_pnl_bps: i32,
    pub total_pnl_bps: i64,
    pub followers: u64,
}

impl StrategyStats {
    /// The all-zero statistics record.
    pub open spec fn spec_default() -> StrategyStats {
        StrategyStats {
            strategy_id: 0u64,
            total_signals: 0u64,
            winning_signals: 0u64,
            losing_signals: 0u64,
            push_signals: 0u64,
            win_rate_bps: 0u32,
            avg_pnl_bps: 0i32,
            total_pnl_bps: 0i64,
            followers: 0u64,
        }
    }
}

impl Default for StrategyStats {
    fn default() -> (r: Self)
        ensures
            r == StrategyStats::spec_default(),
    {
        StrategyStats {
            strategy_id: 0,
            total_signals: 0,
            winning_signals: 0,
            losing_signals: 0,
            push_signals: 0,
            win_rate_bps: 0,
            avg_pnl_bps: 0,
            total_pnl_bps: 0,
            followers: 0,
        }
    }
}

/// A strategy together with its statistics, for leaderboard views.
#[derive(Debug, PartialEq, Eq)]
pub struct StrategyWithStats {
    pub strategy: AgentStrategy,
    pub stats: StrategyStats,
}

impl Clone for StrategyWithStats {
    /// An exact copy: every field of the clone equals the original's.
    fn clone(&self) -> (res: Self)
        ensures
            res == *self,
    {
        StrategyWithStats { strategy: self.strategy.clone(), stats: self.stats }
    }
}

/// One follow relationship.
#[derive(Debug, Clone, Copy, PartialEq, Eq)]
pub struct Follower {
    pub strategy_id: u64,
    pub follower: u64,
    pub auto_copy: bool,
    pub max_exposure_units: u64,
    pub created_at: u64,
}

/// Key of a follow relationship: strategy and follower account.
#[derive(Debug, Clone, Copy, PartialEq, Eq, Structural)]
pub struct FollowerKey {
    pub strategy_id: u64,
    pub follower: u64,
}

/// A strategist's standing offer to be subscribed to.
#[derive(Debug, Clone, PartialEq, Eq)]
pub struct SubscriptionOffer {
    pub strategist: u64,
    pub description: Option<String>,
    pub is_enabled: bool,
}

/// One side's local record of a cross-shard subscription. The subscriber
/// shard and the strategist shard each hold their own copy under the same
/// token; the copies are never reconciled and may disagree on
/// `start_timestamp`.
#[derive(Debug, Clone, Copy, PartialEq, Eq)]
pub struct Subscription {
    /// Token identifying the subscription: the strategist shard's counter
    /// value paired with the request timestamp (see `subscription_token`).
    pub id: u128,
    pub subscriber: u64,
    pub subscriber_chain_id: u64,
    pub strategist: u64,
    pub strategist_chain_id: u64,
    pub start_timestamp: u64,
    pub end_timestamp: u64,
    pub is_active: bool,
}

/// Input of `create_strategy`.
#[derive(Debug, Clone, PartialEq, Eq)]
pub struct CreateStrategyInput {
    pub name: String,
    pub description: String,
    pub market_kind: MarketKind,
    pub base_market: String,
    pub is_public: bool,
    pub is_ai_controlled: bool,
}

/// Input of `publish_signal`.
#[derive(Debug, Clone, Copy, PartialEq, Eq)]
pub struct PublishSignalInput {
    pub strategy_id: u64,
    pub direction: Direction,
    /// Signal horizon in seconds.
    pub horizon_secs: u64,
    /// Confidence in basis points, 0 to 10000.
    pub confidence_bps: u16,
    /// Entry value; may be absent when the caller has no price.
    pub entry_value: Option<u64>,
}

/// Operations a caller can submit on its own shard.
#[derive(Debug, Clone, PartialEq, Eq)]
pub enum Operation {
    /// Register the caller as a strategist.
    RegisterStrategist { display_name: String },
    /// Create a new strategy owned by the caller.
    CreateAgentStrategy {
        name: String,
        description: String,
        market_kind: MarketKind,
        base_market: String,
        is_public: bool,
        is_ai_controlled: bool,
    },
    /// Publish a new signal under a strategy of the caller.
    PublishSignal {
        strategy_id: u64,
        direction: Direction,
        horizon_secs: u64,
        confidence_bps: u16,
        entry_value: Option<u64>,
    },
    /// Resolve an open signal with the observed value (oracle action, no
    /// caller authorization).
    ResolveSignal { signal_id: u64, resolved_value: u64 },
    /// Cancel an open signal of the caller.
    CancelSignal { signal_id: u64 },
    /// Follow a strategy.
    FollowStrategy { strategy_id: u64, auto_copy: bool, max_exposure_units: u64 },
    /// Unfollow a strategy.
    UnfollowStrategy { strategy_id: u64 },
    /// Recompute a strategy's statistics.
    UpdateStats { strategy_id: u64 },
    /// Open (or re-enable) the caller's subscription offer.
    EnableSubscription { description: Option<String> },
    /// Disable the caller's subscription offer.
    DisableSubscription,
    /// Ask a strategist on another shard for a subscription. The shard
    /// identifier is `None` when the caller-supplied identifier did not
    /// parse; the request message is then not sent.
    SubscribeToStrategist { strategist: u64, strategist_chain_id: Option<u64> },
    /// Deactivate the caller's local subscription to a strategist.
    UnsubscribeFromStrategist { strategist: u64 },
}

/// Messages exchanged between shards. Delivery is asynchronous, unordered
/// and at-least-once; handlers have no error channel and drop inapplicable
/// messages silently.
#[derive(Debug, Clone, PartialEq, Eq)]
pub enum Message {
    /// Notification that a signal resolved elsewhere; triggers a local
    /// stats recompute.
    SignalResolved { signal_id: u64, strategy_id: u64, result: SignalResult, pnl_bps: i64 },
    /// First handshake step, delivered to the strategist's shard.
    SubscriptionRequest { subscriber: u64, subscriber_chain_id: u64, timestamp: u64 },
    /// Second handshake step, delivered back to the subscriber's shard.
    SubscriptionConfirmed {
        subscription_id: u128,
        strategist: u64,
        strategist_chain_id: u64,
        end_timestamp: u64,
    },
    /// A signal pushed to a subscriber's shard, stored without ownership
    /// checks (an explicit trust boundary).
    SignalBroadcast { signal: Signal, strategy_name: String, strategist: u64 },
}

/// A message together with the shard it is addressed to. Operations return
/// these; the driver performs the actual sends.
#[derive(Debug, Clone, PartialEq, Eq)]
pub struct OutboundMessage {
    pub destination: u64,
    pub message: Message,
}

/// Response of the operation dispatcher: one success variant per operation,
/// or a uniform error with a human-readable message.
#[derive(Debug, Clone, PartialEq, Eq)]
pub enum AgentHubResponse {
    Okay,
    StrategistRegistered { owner: u64 },
    StrategyCreated { id: u64 },
    SignalPublished { id: u64 },
    SignalResolved { id: u64, result: SignalResult, pnl_bps: i64 },
    SignalCancelled { id: u64 },
    Followed { strategy_id: u64 },
    Unfollowed { strategy_id: u64 },
    SubscriptionEnabled { strategist: u64 },
    SubscriptionDisabled { strategist: u64 },
    /// Acknowledges that a subscription request was issued at the given
    /// time; the subscription itself is created only when the confirmation
    /// message arrives.
    Subscribed { requested_at: u64 },
    Unsubscribed { strategist: u64 },
    Error { message: String },
}

/// Validation failures of the hub's operations.
#[derive(Debug, Clone, PartialEq, Eq)]
pub enum AgentHubError {
    NotAuthenticated,
    StrategistNotRegistered,
    StrategistAlreadyRegistered,
    StrategyNotFound,
    SignalNotFound,
    SignalAlreadyResolved,
    SignalNotOpen,
    NotAuthorized,
    AlreadyFollowing,
    NotFollowing,
    InvalidConfidence,
    AlreadySubscribed,
    NotSubscribed,
    Internal(String),
}

impl AgentHubError {
    /// The human-readable message of this error.
    pub open spec fn message_view(self) -> Seq<char> {
        match self {
            AgentHubError::NotAuthenticated => "Not authenticated"@,
            AgentHubError::StrategistNotRegistered => "Strategist not registered"@,
            AgentHubError::StrategistAlreadyRegistered => "Strategist already registered"@,
            AgentHubError::StrategyNotFound => "Strategy not found"@,
            AgentHubError::SignalNotFound => "Signal not found"@,
            AgentHubError::SignalAlreadyResolved => "Signal already resolved"@,
            AgentHubError::SignalNotOpen => "Signal not open"@,
            AgentHubError::NotAuthorized => "Not authorized"@,
            AgentHubError::AlreadyFollowing => "Already following"@,
            AgentHubError::NotFollowing => "Not following"@,
            AgentHubError::InvalidConfidence => "Invalid confidence value"@,
            AgentHubError::AlreadySubscribed => "Already subscribed"@,
            AgentHubError::NotSubscribed => "Not subscribed"@,
            AgentHubError::Internal(m) => "Internal error: "@ + m@,
        }
    }

    /// Renders the error as its message string.
    pub fn message(&self) -> (r: String)
        ensures
            r@ == self.message_view(),
    {
        match self {
            AgentHubError::NotAuthenticated => "Not authenticated".to_owned(),
            AgentHubError::StrategistNotRegistered => "Strategist not registered".to_owned(),
            AgentHubError::StrategistAlreadyRegistered => {
                "Strategist already registered".to_owned()
            },
            AgentHubError::StrategyNotFound => "Strategy not found".to_owned(),
            AgentHubError::SignalNotFound => "Signal not found".to_owned(),
            AgentHubError::SignalAlreadyResolved => "Signal already resolved".to_owned(),
            AgentHubError::SignalNotOpen => "Signal not open".to_owned(),
            AgentHubError::NotAuthorized => "Not authorized".to_owned(),
            AgentHubError::AlreadyFollowing => "Already following".to_owned(),
            AgentHubError::NotFollowing => "Not following".to_owned(),
            AgentHubError::InvalidConfidence => "Invalid confidence value".to_owned(),
            AgentHubError::AlreadySubscribed => "Already subscribed".to_owned(),
            AgentHubError::NotSubscribed => "Not subscribed".to_owned(),
            AgentHubError::Internal(m) => {
                let mut s = "Internal error: ".to_owned();
                s.append(m.as_str());
                s
            },
        }
    }
}

impl AgentHubResponse {
    /// Wraps an error into the uniform error response.
    pub fn from_error(error: AgentHubError) -> (r: Self)
        ensures
            r matches AgentHubResponse::Error { message } && message@ == error.message_view(),
    {
        AgentHubResponse::Error { message: error.message() }
    }
}

/// Instantiation argument of a shard: the hub shard's identifier as text.
/// The driver parses it; an unparsable identifier is silently ignored.
#[derive(Debug, Clone, PartialEq, Eq)]
pub struct InstantiationArgument {
    pub hub_chain_id: String,
}

} // verus!
