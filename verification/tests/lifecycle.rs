use agent_hub::state::AgentHubState;
use agent_hub::types::AgentHubError;
use agent_hub::types::CreateStrategyInput;
use agent_hub::types::Direction;
use agent_hub::types::MarketKind;
use agent_hub::types::PublishSignalInput;
use agent_hub::types::SignalResult;
use agent_hub::types::SignalStatus;

const ALICE: u64 = 11;
const BOB: u64 = 22;

fn strategy_input(name: &str) -> CreateStrategyInput {
    CreateStrategyInput {
        name: name.to_string(),
        description: "momentum bot".to_string(),
        market_kind: MarketKind::Crypto,
        base_market: "BTC-USD".to_string(),
        is_public: true,
        is_ai_controlled: true,
    }
}

fn signal_input(strategy_id: u64, direction: Direction, entry: Option<u64>) -> PublishSignalInput {
    PublishSignalInput {
        strategy_id,
        direction,
        horizon_secs: 300,
        confidence_bps: 8000,
        entry_value: entry,
    }
}

fn hub_with_strategy() -> (AgentHubState, u64) {
    let mut hub = AgentHubState::new(None);
    hub.register_strategist(ALICE, "Alice".to_string(), 1_000).unwrap();
    let sid = hub.create_strategy(ALICE, strategy_input("alpha"), 2_000).unwrap();
    (hub, sid)
}

#[test]
fn register_twice_fails() {
    let mut hub = AgentHubState::new(None);
    assert_eq!(hub.register_strategist(ALICE, "Alice".to_string(), 1_000), Ok(ALICE));
    assert_eq!(
        hub.register_strategist(ALICE, "Alice again".to_string(), 2_000),
        Err(AgentHubError::StrategistAlreadyRegistered)
    );
}

#[test]
fn create_requires_registration() {
    let mut hub = AgentHubState::new(None);
    assert_eq!(
        hub.create_strategy(BOB, strategy_input("alpha"), 1_000),
        Err(AgentHubError::StrategistNotRegistered)
    );
}

#[test]
fn strategy_ids_start_at_one_and_increase() {
    let mut hub = AgentHubState::new(None);
    hub.register_strategist(ALICE, "Alice".to_string(), 1_000).unwrap();
    assert_eq!(hub.create_strategy(ALICE, strategy_input("a"), 2_000), Ok(1));
    assert_eq!(hub.create_strategy(ALICE, strategy_input("b"), 3_000), Ok(2));
    assert_eq!(hub.next_strategy_id, 3);
}

#[test]
fn publish_allocates_signal_ids_and_expiry() {
    let (mut hub, sid) = hub_with_strategy();
    let id = hub.publish_signal(ALICE, signal_input(sid, Direction::Up, Some(100)), 5_000_000).unwrap();
    assert_eq!(id, 1);
    let signal = hub.signal(id).unwrap();
    assert_eq!(signal.strategy_id, sid);
    assert_eq!(signal.created_at, 5_000_000);
    assert_eq!(signal.expires_at, 5_000_000 + 300 * 1_000_000);
    assert_eq!(signal.status, SignalStatus::Open);
    assert_eq!(signal.result, None);
    assert_eq!(signal.pnl_bps, None);
    assert_eq!(signal.resolved_value, None);

    let second = hub.publish_signal(ALICE, signal_input(sid, Direction::Down, None), 6_000_000).unwrap();
    assert_eq!(second, 2);
    assert_eq!(hub.next_signal_id, 3);
}

#[test]
fn invalid_confidence_creates_no_signal() {
    let (mut hub, sid) = hub_with_strategy();
    let mut input = signal_input(sid, Direction::Up, Some(100));
    input.confidence_bps = 10_001;
    let before = hub.next_signal_id;
    assert_eq!(
        hub.publish_signal(ALICE, input, 5_000_000),
        Err(AgentHubError::InvalidConfidence)
    );
    assert_eq!(hub.next_signal_id, before);
    assert!(hub.signal(before).is_none());

    // A confidence of exactly 10000 bps is accepted.
    let mut input = signal_input(sid, Direction::Up, Some(100));
    input.confidence_bps = 10_000;
    assert!(hub.publish_signal(ALICE, input, 5_000_000).is_ok());
}

#[test]
fn publish_checks_strategy_and_owner() {
    let (mut hub, sid) = hub_with_strategy();
    assert_eq!(
        hub.publish_signal(ALICE, signal_input(sid + 7, Direction::Up, Some(100)), 5_000),
        Err(AgentHubError::StrategyNotFound)
    );
    assert_eq!(
        hub.publish_signal(BOB, signal_input(sid, Direction::Up, Some(100)), 5_000),
        Err(AgentHubError::NotAuthorized)
    );
}

#[test]
fn resolve_stores_result_fields() {
    let (mut hub, sid) = hub_with_strategy();
    let id = hub.publish_signal(ALICE, signal_input(sid, Direction::Up, Some(20000)), 5_000).unwrap();
    let (result, pnl) = hub.resolve_signal(id, 22000).unwrap();
    assert_eq!(result, SignalResult::Win);
    assert_eq!(pnl, 1000);
    let signal = hub.signal(id).unwrap();
    assert_eq!(signal.status, SignalStatus::Resolved);
    assert_eq!(signal.result, Some(SignalResult::Win));
    assert_eq!(signal.pnl_bps, Some(1000));
    assert_eq!(signal.resolved_value, Some(22000));
}

#[test]
fn resolve_missing_signal_fails() {
    let mut hub = AgentHubState::new(None);
    assert_eq!(hub.resolve_signal(1, 100), Err(AgentHubError::SignalNotFound));
}

#[test]
fn resolving_twice_keeps_first_result() {
    let (mut hub, sid) = hub_with_strategy();
    let id = hub.publish_signal(ALICE, signal_input(sid, Direction::Up, Some(20000)), 5_000).unwrap();
    hub.resolve_signal(id, 22000).unwrap();
    assert_eq!(hub.resolve_signal(id, 18000), Err(AgentHubError::SignalAlreadyResolved));
    let signal = hub.signal(id).unwrap();
    assert_eq!(signal.result, Some(SignalResult::Win));
    assert_eq!(signal.pnl_bps, Some(1000));
    assert_eq!(signal.resolved_value, Some(22000));
}

#[test]
fn resolving_cancelled_signal_fails() {
    let (mut hub, sid) = hub_with_strategy();
    let id = hub.publish_signal(ALICE, signal_input(sid, Direction::Up, Some(100)), 5_000).unwrap();
    hub.cancel_signal(ALICE, id).unwrap();
    assert_eq!(hub.resolve_signal(id, 110), Err(AgentHubError::SignalAlreadyResolved));
}

#[test]
fn cancel_checks_signal_strategy_and_owner() {
    let (mut hub, sid) = hub_with_strategy();
    assert_eq!(hub.cancel_signal(ALICE, 9), Err(AgentHubError::SignalNotFound));
    let id = hub.publish_signal(ALICE, signal_input(sid, Direction::Up, Some(100)), 5_000).unwrap();
    assert_eq!(hub.cancel_signal(BOB, id), Err(AgentHubError::NotAuthorized));
}

#[test]
fn cancel_succeeds_exactly_once() {
    let (mut hub, sid) = hub_with_strategy();
    let id = hub.publish_signal(ALICE, signal_input(sid, Direction::Up, Some(100)), 5_000).unwrap();
    assert_eq!(hub.cancel_signal(ALICE, id), Ok(()));
    assert_eq!(hub.signal(id).unwrap().status, SignalStatus::Cancelled);
    assert_eq!(hub.cancel_signal(ALICE, id), Err(AgentHubError::SignalNotOpen));
}

#[test]
fn cancelling_resolved_signal_reports_already_resolved() {
    let (mut hub, sid) = hub_with_strategy();
    let id = hub.publish_signal(ALICE, signal_input(sid, Direction::Up, Some(100)), 5_000).unwrap();
    hub.resolve_signal(id, 110).unwrap();
    assert_eq!(hub.cancel_signal(ALICE, id), Err(AgentHubError::SignalAlreadyResolved));
}

#[test]
fn cancelled_signal_is_excluded_from_stats() {
    let (mut hub, sid) = hub_with_strategy();
    let keep = hub.publish_signal(ALICE, signal_input(sid, Direction::Up, Some(100)), 5_000).unwrap();
    let drop = hub.publish_signal(ALICE, signal_input(sid, Direction::Up, Some(100)), 6_000).unwrap();
    hub.cancel_signal(ALICE, drop).unwrap();
    hub.resolve_signal(keep, 110).unwrap();
    let stats = hub.strategy_stats(sid).unwrap();
    assert_eq!(stats.total_signals, 1);
    assert_eq!(stats.winning_signals, 1);

    // A later recompute still ignores the cancelled signal.
    hub.update_strategy_stats(sid);
    let stats = hub.strategy_stats(sid).unwrap();
    assert_eq!(stats.total_signals, 1);
}

#[test]
fn defaults_match_the_data_model() {
    assert_eq!(MarketKind::default(), MarketKind::Crypto);
    assert_eq!(
        agent_hub::types::SignalStatus::default(),
        agent_hub::types::SignalStatus::Open
    );
    let stats = agent_hub::types::StrategyStats::default();
    assert_eq!(stats.total_signals, 0);
    assert_eq!(stats.followers, 0);
    assert_eq!(stats.total_pnl_bps, 0);
}

#[test]
fn error_messages_match_taxonomy() {
    assert_eq!(AgentHubError::StrategyNotFound.message(), "Strategy not found");
    assert_eq!(AgentHubError::SignalAlreadyResolved.message(), "Signal already resolved");
    assert_eq!(AgentHubError::NotAuthenticated.message(), "Not authenticated");
    assert_eq!(
        AgentHubError::Internal("storage".to_string()).message(),
        "Internal error: storage"
    );
}
