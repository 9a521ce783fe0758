use agent_hub::state::AgentHubState;
use agent_hub::types::AgentHubResponse;
use agent_hub::types::Direction;
use agent_hub::types::MarketKind;
use agent_hub::types::Operation;
use agent_hub::types::SignalResult;

const ALICE: u64 = 11;
const CHAIN: u64 = 1;

#[test]
fn operations_require_a_signer() {
    let mut hub = AgentHubState::new(None);
    let (response, out) = hub.execute_operation(
        None,
        Operation::RegisterStrategist { display_name: "Alice".to_string() },
        1_000,
        CHAIN,
    );
    assert_eq!(
        response,
        AgentHubResponse::Error { message: "Not authenticated".to_string() }
    );
    assert!(out.is_none());
}

#[test]
fn full_signal_lifecycle_through_the_dispatcher() {
    let mut hub = AgentHubState::new(Some(CHAIN));

    let (response, _) = hub.execute_operation(
        Some(ALICE),
        Operation::RegisterStrategist { display_name: "Alice".to_string() },
        1_000,
        CHAIN,
    );
    assert_eq!(response, AgentHubResponse::StrategistRegistered { owner: ALICE });

    let (response, _) = hub.execute_operation(
        Some(ALICE),
        Operation::CreateAgentStrategy {
            name: "alpha".to_string(),
            description: "momentum bot".to_string(),
            market_kind: MarketKind::Crypto,
            base_market: "BTC-USD".to_string(),
            is_public: true,
            is_ai_controlled: true,
        },
        2_000,
        CHAIN,
    );
    let strategy_id = match response {
        AgentHubResponse::StrategyCreated { id } => id,
        other => panic!("unexpected response {:?}", other),
    };
    assert_eq!(strategy_id, 1);

    let (response, _) = hub.execute_operation(
        Some(ALICE),
        Operation::PublishSignal {
            strategy_id,
            direction: Direction::Up,
            horizon_secs: 300,
            confidence_bps: 8000,
            entry_value: Some(100),
        },
        3_000_000,
        CHAIN,
    );
    let signal_id = match response {
        AgentHubResponse::SignalPublished { id } => id,
        other => panic!("unexpected response {:?}", other),
    };

    let (response, _) = hub.execute_operation(
        Some(ALICE),
        Operation::ResolveSignal { signal_id, resolved_value: 110 },
        4_000_000,
        CHAIN,
    );
    assert_eq!(
        response,
        AgentHubResponse::SignalResolved {
            id: signal_id,
            result: SignalResult::Win,
            pnl_bps: 1000
        }
    );

    let stats = hub.strategy_stats(strategy_id).unwrap();
    assert_eq!(stats.total_signals, 1);
    assert_eq!(stats.winning_signals, 1);
    assert_eq!(stats.win_rate_bps, 10_000);
    assert_eq!(stats.total_pnl_bps, 1000);
}

#[test]
fn dispatcher_maps_errors_to_messages() {
    let mut hub = AgentHubState::new(None);
    let (response, _) = hub.execute_operation(
        Some(ALICE),
        Operation::CancelSignal { signal_id: 1 },
        1_000,
        CHAIN,
    );
    assert_eq!(
        response,
        AgentHubResponse::Error { message: "Signal not found".to_string() }
    );

    let (response, _) = hub.execute_operation(
        Some(ALICE),
        Operation::UnfollowStrategy { strategy_id: 1 },
        1_000,
        CHAIN,
    );
    assert_eq!(
        response,
        AgentHubResponse::Error { message: "Not following".to_string() }
    );
}

#[test]
fn follow_and_stats_refresh_through_the_dispatcher() {
    let mut hub = AgentHubState::new(None);
    hub.execute_operation(
        Some(ALICE),
        Operation::RegisterStrategist { display_name: "Alice".to_string() },
        1_000,
        CHAIN,
    );
    hub.execute_operation(
        Some(ALICE),
        Operation::CreateAgentStrategy {
            name: "alpha".to_string(),
            description: "bot".to_string(),
            market_kind: MarketKind::Sports,
            base_market: "NBA".to_string(),
            is_public: false,
            is_ai_controlled: false,
        },
        2_000,
        CHAIN,
    );

    let (response, _) = hub.execute_operation(
        Some(99),
        Operation::FollowStrategy { strategy_id: 1, auto_copy: true, max_exposure_units: 50 },
        3_000,
        CHAIN,
    );
    assert_eq!(response, AgentHubResponse::Followed { strategy_id: 1 });

    let (response, _) = hub.execute_operation(
        Some(ALICE),
        Operation::UpdateStats { strategy_id: 1 },
        4_000,
        CHAIN,
    );
    assert_eq!(response, AgentHubResponse::Okay);
    assert_eq!(hub.strategy_stats(1).unwrap().followers, 1);

    let (response, _) = hub.execute_operation(
        Some(99),
        Operation::UnfollowStrategy { strategy_id: 1 },
        5_000,
        CHAIN,
    );
    assert_eq!(response, AgentHubResponse::Unfollowed { strategy_id: 1 });
    assert_eq!(hub.strategy_stats(1).unwrap().followers, 0);
}

#[test]
fn subscription_handshake_through_the_dispatchers() {
    let strategist: u64 = 7;
    let subscriber: u64 = 42;
    let strategist_chain: u64 = 1;
    let subscriber_chain: u64 = 2;

    let mut strategist_hub = AgentHubState::new(None);
    strategist_hub.execute_operation(
        Some(strategist),
        Operation::RegisterStrategist { display_name: "Strategist".to_string() },
        1_000,
        strategist_chain,
    );
    let (response, _) = strategist_hub.execute_operation(
        Some(strategist),
        Operation::EnableSubscription { description: None },
        2_000,
        strategist_chain,
    );
    assert_eq!(response, AgentHubResponse::SubscriptionEnabled { strategist });

    let mut subscriber_hub = AgentHubState::new(None);
    let (response, request) = subscriber_hub.execute_operation(
        Some(subscriber),
        Operation::SubscribeToStrategist {
            strategist,
            strategist_chain_id: Some(strategist_chain),
        },
        5_000,
        subscriber_chain,
    );
    assert_eq!(response, AgentHubResponse::Subscribed { requested_at: 5_000 });
    let request = request.expect("request sent");
    assert_eq!(request.destination, strategist_chain);

    // Deliver the request; the strategist shard answers with a confirmation.
    let confirmation = strategist_hub
        .execute_message(Some(strategist), request.message, 6_000, strategist_chain)
        .expect("confirmation sent");
    assert_eq!(confirmation.destination, subscriber_chain);

    // Deliver the confirmation; the subscriber shard now has exactly one
    // active subscription whose strategist matches.
    subscriber_hub.execute_message(Some(subscriber), confirmation.message, 7_000, subscriber_chain);
    let tokens = subscriber_hub.subscriptions_by_subscriber.get(&subscriber).unwrap();
    assert_eq!(tokens.len(), 1);
    let record = subscriber_hub.subscription(tokens[0]).unwrap();
    assert_eq!(record.strategist, strategist);
    assert!(record.is_active);

    // A second subscribe before any unsubscribe fails.
    let (response, out) = subscriber_hub.execute_operation(
        Some(subscriber),
        Operation::SubscribeToStrategist {
            strategist,
            strategist_chain_id: Some(strategist_chain),
        },
        8_000,
        subscriber_chain,
    );
    assert_eq!(
        response,
        AgentHubResponse::Error { message: "Already subscribed".to_string() }
    );
    assert!(out.is_none());
}

#[test]
fn unparsable_strategist_chain_sends_no_request() {
    let mut hub = AgentHubState::new(None);
    let (response, out) = hub.execute_operation(
        Some(42),
        Operation::SubscribeToStrategist { strategist: 7, strategist_chain_id: None },
        5_000,
        CHAIN,
    );
    assert_eq!(response, AgentHubResponse::Subscribed { requested_at: 5_000 });
    assert!(out.is_none());
}
