use agent_hub::state::AgentHubState;
use agent_hub::types::CreateStrategyInput;
use agent_hub::types::Direction;
use agent_hub::types::MarketKind;
use agent_hub::types::PublishSignalInput;
use agent_hub::types::SignalStatus;

const ALICE: u64 = 11;
const BOB: u64 = 22;

fn strategy_input(name: &str, market_kind: MarketKind, base_market: &str, public: bool) -> CreateStrategyInput {
    CreateStrategyInput {
        name: name.to_string(),
        description: "bot".to_string(),
        market_kind,
        base_market: base_market.to_string(),
        is_public: public,
        is_ai_controlled: true,
    }
}

fn signal_input(strategy_id: u64, entry: u64) -> PublishSignalInput {
    PublishSignalInput {
        strategy_id,
        direction: Direction::Up,
        horizon_secs: 300,
        confidence_bps: 8000,
        entry_value: Some(entry),
    }
}

fn populated_hub() -> AgentHubState {
    let mut hub = AgentHubState::new(None);
    hub.register_strategist(ALICE, "Alice".to_string(), 1_000).unwrap();
    hub.register_strategist(BOB, "Bob".to_string(), 1_100).unwrap();
    // 1: public crypto, 2: private crypto, 3: public sports, 4: public crypto (other market)
    hub.create_strategy(ALICE, strategy_input("alpha", MarketKind::Crypto, "BTC-USD", true), 2_000).unwrap();
    hub.create_strategy(ALICE, strategy_input("hidden", MarketKind::Crypto, "BTC-USD", false), 2_100).unwrap();
    hub.create_strategy(BOB, strategy_input("hoops", MarketKind::Sports, "NBA", true), 2_200).unwrap();
    hub.create_strategy(BOB, strategy_input("ether", MarketKind::Crypto, "ETH-USD", true), 2_300).unwrap();
    hub
}

#[test]
fn public_strategies_filters_and_paginates() {
    let hub = populated_hub();
    let all = hub.public_strategies(None, None, 50, 0);
    let names: Vec<&str> = all.iter().map(|s| s.name.as_str()).collect();
    assert_eq!(names, ["alpha", "hoops", "ether"]);

    let crypto = hub.public_strategies(Some(MarketKind::Crypto), None, 50, 0);
    let names: Vec<&str> = crypto.iter().map(|s| s.name.as_str()).collect();
    assert_eq!(names, ["alpha", "ether"]);

    let btc = hub.public_strategies(None, Some("BTC-USD".to_string()), 50, 0);
    let names: Vec<&str> = btc.iter().map(|s| s.name.as_str()).collect();
    assert_eq!(names, ["alpha"]);

    let second_page = hub.public_strategies(None, None, 1, 1);
    let names: Vec<&str> = second_page.iter().map(|s| s.name.as_str()).collect();
    assert_eq!(names, ["hoops"]);

    let beyond = hub.public_strategies(None, None, 10, 5);
    assert!(beyond.is_empty());
}

#[test]
fn my_strategies_lists_both_visibilities() {
    let hub = populated_hub();
    let mine = hub.my_strategies(ALICE);
    let alices: Vec<&str> = mine.iter().map(|s| s.name.as_str()).collect();
    assert_eq!(alices, ["alpha", "hidden"]);
    assert!(hub.my_strategies(999).is_empty());
}

#[test]
fn strategy_signals_come_newest_first() {
    let mut hub = populated_hub();
    hub.publish_signal(ALICE, signal_input(1, 100), 10_000).unwrap();
    hub.publish_signal(ALICE, signal_input(1, 200), 30_000).unwrap();
    hub.publish_signal(ALICE, signal_input(1, 300), 20_000).unwrap();
    let signals = hub.strategy_signals(1, 50, 0);
    let created: Vec<u64> = signals.iter().map(|s| s.created_at).collect();
    assert_eq!(created, [30_000, 20_000, 10_000]);

    let paged = hub.strategy_signals(1, 1, 1);
    assert_eq!(paged.len(), 1);
    assert_eq!(paged[0].created_at, 20_000);

    assert!(hub.strategy_signals(99, 50, 0).is_empty());
}

#[test]
fn open_and_recent_signals() {
    let mut hub = populated_hub();
    let a = hub.publish_signal(ALICE, signal_input(1, 100), 10_000).unwrap();
    let b = hub.publish_signal(ALICE, signal_input(1, 200), 20_000).unwrap();
    hub.publish_signal(BOB, signal_input(3, 300), 30_000).unwrap();
    hub.resolve_signal(a, 110).unwrap();
    hub.cancel_signal(ALICE, b).unwrap();

    let open = hub.open_signals(50);
    assert_eq!(open.len(), 1);
    assert_eq!(open[0].created_at, 30_000);
    assert_eq!(open[0].status, SignalStatus::Open);

    let recent = hub.recent_signals(2);
    let created: Vec<u64> = recent.iter().map(|s| s.created_at).collect();
    assert_eq!(created, [30_000, 20_000]);
}

#[test]
fn top_strategies_orders_by_win_rate_then_pnl() {
    let mut hub = populated_hub();
    // Strategy 1: one win, one loss -> 5000 bps win rate.
    let s = hub.publish_signal(ALICE, signal_input(1, 100), 10_000).unwrap();
    hub.resolve_signal(s, 110).unwrap();
    let s = hub.publish_signal(ALICE, signal_input(1, 100), 11_000).unwrap();
    hub.resolve_signal(s, 90).unwrap();
    // Strategy 3: one win of +2000 bps -> 10000 bps win rate.
    let s = hub.publish_signal(BOB, signal_input(3, 100), 12_000).unwrap();
    hub.resolve_signal(s, 120).unwrap();
    // Strategy 4: one win of +1000 bps -> 10000 bps win rate, lower PnL.
    let s = hub.publish_signal(BOB, signal_input(4, 100), 13_000).unwrap();
    hub.resolve_signal(s, 110).unwrap();
    // Strategy 2 is private and never listed, even with resolved signals.
    let s = hub.publish_signal(ALICE, signal_input(2, 100), 14_000).unwrap();
    hub.resolve_signal(s, 110).unwrap();

    let top = hub.top_strategies(10);
    let names: Vec<&str> = top.iter().map(|e| e.strategy.name.as_str()).collect();
    assert_eq!(names, ["hoops", "ether", "alpha"]);

    let top_one = hub.top_strategies(1);
    assert_eq!(top_one.len(), 1);
    assert_eq!(top_one[0].strategy.name, "hoops");
}

#[test]
fn top_strategies_skips_unresolved() {
    let mut hub = populated_hub();
    hub.publish_signal(ALICE, signal_input(1, 100), 10_000).unwrap();
    // Published but never resolved: no entry on the leaderboard.
    assert!(hub.top_strategies(10).is_empty());
}

#[test]
fn follow_relation_is_queryable() {
    let mut hub = populated_hub();
    assert!(!hub.is_following(1, BOB));
    hub.follow_strategy(BOB, 1, false, 0, 5_000).unwrap();
    assert!(hub.is_following(1, BOB));
    hub.unfollow_strategy(BOB, 1).unwrap();
    assert!(!hub.is_following(1, BOB));
}

#[test]
fn subscription_queries_follow_the_records() {
    let mut hub = AgentHubState::new(None);
    assert!(!hub.is_subscribed(BOB, ALICE));
    assert!(hub.my_subscriptions(BOB).is_empty());

    // Two confirmations install two records for Bob; one is then
    // deactivated.
    hub.handle_subscription_confirmed(Some(BOB), 501, ALICE, 1, 900_000, 2, 10_000);
    hub.handle_subscription_confirmed(Some(BOB), 502, 77, 1, 900_000, 2, 11_000);
    assert!(hub.is_subscribed(BOB, ALICE));
    assert_eq!(hub.my_subscriptions(BOB).len(), 2);

    hub.unsubscribe_from_strategist(BOB, ALICE).unwrap();
    assert!(!hub.is_subscribed(BOB, ALICE));
    assert!(hub.is_subscribed(BOB, 77));
    // Inactive records still show up in the subscriber's own listing.
    assert_eq!(hub.my_subscriptions(BOB).len(), 2);
}

#[test]
fn subscribers_of_lists_active_grants() {
    let mut hub = AgentHubState::new(None);
    hub.register_strategist(ALICE, "Alice".to_string(), 1_000).unwrap();
    hub.enable_subscription(ALICE, None).unwrap();
    hub.handle_subscription_request(Some(ALICE), BOB, 2, 5_000, 1);
    hub.handle_subscription_request(Some(ALICE), 77, 3, 6_000, 1);
    let grants = hub.subscribers_of(ALICE);
    assert_eq!(grants.len(), 2);
    assert_eq!(grants[0].subscriber, BOB);
    assert_eq!(grants[1].subscriber, 77);
    assert!(hub.subscribers_of(BOB).is_empty());
}
