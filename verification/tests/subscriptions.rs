use agent_hub::state::AgentHubState;
use agent_hub::types::AgentHubError;
use agent_hub::types::Direction;
use agent_hub::types::Message;
use agent_hub::types::Signal;
use agent_hub::types::SignalResult;
use agent_hub::types::SignalStatus;

const STRATEGIST: u64 = 7;
const SUBSCRIBER: u64 = 42;
const STRATEGIST_CHAIN: u64 = 1;
const SUBSCRIBER_CHAIN: u64 = 2;

fn strategist_hub() -> AgentHubState {
    let mut hub = AgentHubState::new(None);
    hub.register_strategist(STRATEGIST, "Strategist".to_string(), 1_000).unwrap();
    hub
}

#[test]
fn enable_requires_registration() {
    let mut hub = AgentHubState::new(None);
    assert_eq!(
        hub.enable_subscription(SUBSCRIBER, None),
        Err(AgentHubError::StrategistNotRegistered)
    );
}

#[test]
fn enable_and_disable_offer() {
    let mut hub = strategist_hub();
    hub.enable_subscription(STRATEGIST, Some("daily signals".to_string())).unwrap();
    let offer = hub.subscription_offer(STRATEGIST).unwrap();
    assert!(offer.is_enabled);
    assert_eq!(offer.description, Some("daily signals".to_string()));

    hub.disable_subscription(STRATEGIST);
    let offer = hub.subscription_offer(STRATEGIST).unwrap();
    assert!(!offer.is_enabled);
    assert_eq!(offer.description, Some("daily signals".to_string()));
}

#[test]
fn disable_without_offer_is_a_noop() {
    let mut hub = strategist_hub();
    hub.disable_subscription(STRATEGIST);
    assert!(hub.subscription_offer(STRATEGIST).is_none());
}

#[test]
fn request_against_disabled_offer_is_dropped() {
    let mut hub = strategist_hub();
    // No offer at all: dropped.
    let out = hub.handle_subscription_request(
        Some(STRATEGIST),
        SUBSCRIBER,
        SUBSCRIBER_CHAIN,
        5_000,
        STRATEGIST_CHAIN,
    );
    assert!(out.is_none());
    assert_eq!(hub.next_subscription_id, 1);

    // Disabled offer: dropped too.
    hub.enable_subscription(STRATEGIST, None).unwrap();
    hub.disable_subscription(STRATEGIST);
    let out = hub.handle_subscription_request(
        Some(STRATEGIST),
        SUBSCRIBER,
        SUBSCRIBER_CHAIN,
        5_000,
        STRATEGIST_CHAIN,
    );
    assert!(out.is_none());
    assert_eq!(hub.next_subscription_id, 1);
}

#[test]
fn handshake_creates_one_record_per_side() {
    let mut strategist_hub = strategist_hub();
    strategist_hub.enable_subscription(STRATEGIST, None).unwrap();
    let mut subscriber_hub = AgentHubState::new(None);

    // Subscriber shard: issue the request.
    let (pending, request) = subscriber_hub.subscribe_to_strategist(
        SUBSCRIBER,
        STRATEGIST,
        Some(STRATEGIST_CHAIN),
        SUBSCRIBER_CHAIN,
        5_000,
    );
    assert_eq!(pending, Ok(5_000));
    let request = request.expect("a request message is sent");
    assert_eq!(request.destination, STRATEGIST_CHAIN);

    // No local record yet: a pending subscriber has nothing stored.
    assert_eq!(
        subscriber_hub.unsubscribe_from_strategist(SUBSCRIBER, STRATEGIST),
        Err(AgentHubError::NotSubscribed)
    );

    // Strategist shard: handle the request, which stores its own record.
    let confirmation = strategist_hub
        .execute_message(Some(STRATEGIST), request.message, 6_000, STRATEGIST_CHAIN)
        .expect("a confirmation is sent");
    assert_eq!(confirmation.destination, SUBSCRIBER_CHAIN);
    let token = match &confirmation.message {
        Message::SubscriptionConfirmed { subscription_id, strategist, strategist_chain_id, end_timestamp } => {
            assert_eq!(*strategist, STRATEGIST);
            assert_eq!(*strategist_chain_id, STRATEGIST_CHAIN);
            // Thirty days after the request timestamp, in microseconds.
            assert_eq!(*end_timestamp, 5_000 + 30 * 24 * 60 * 60 * 1_000_000);
            *subscription_id
        },
        other => panic!("unexpected message {:?}", other),
    };
    let strategist_side = strategist_hub.subscription(token).expect("record stored");
    assert_eq!(strategist_side.subscriber, SUBSCRIBER);
    assert_eq!(strategist_side.strategist, STRATEGIST);
    assert_eq!(strategist_side.start_timestamp, 5_000);
    assert!(strategist_side.is_active);

    // Subscriber shard: handle the confirmation; its copy starts at the
    // local time, not at the request time.
    let out = subscriber_hub.execute_message(
        Some(SUBSCRIBER),
        confirmation.message,
        9_999,
        SUBSCRIBER_CHAIN,
    );
    assert!(out.is_none());
    let subscriber_side = subscriber_hub.subscription(token).expect("record stored");
    assert_eq!(subscriber_side.subscriber, SUBSCRIBER);
    assert_eq!(subscriber_side.strategist, STRATEGIST);
    assert_eq!(subscriber_side.start_timestamp, 9_999);
    assert!(subscriber_side.is_active);

    // A second subscribe before any unsubscribe now fails.
    let (second, out) = subscriber_hub.subscribe_to_strategist(
        SUBSCRIBER,
        STRATEGIST,
        Some(STRATEGIST_CHAIN),
        SUBSCRIBER_CHAIN,
        12_000,
    );
    assert_eq!(second, Err(AgentHubError::AlreadySubscribed));
    assert!(out.is_none());
}

#[test]
fn unsubscribe_flips_only_the_local_record() {
    let mut hub = AgentHubState::new(None);
    // Install a subscriber-side record directly via the confirmation path.
    hub.handle_subscription_confirmed(
        Some(SUBSCRIBER),
        77,
        STRATEGIST,
        STRATEGIST_CHAIN,
        999_000,
        SUBSCRIBER_CHAIN,
        8_000,
    );
    assert!(hub.subscription(77).unwrap().is_active);

    assert_eq!(hub.unsubscribe_from_strategist(SUBSCRIBER, STRATEGIST), Ok(()));
    assert!(!hub.subscription(77).unwrap().is_active);

    // Unsubscribing again finds no active record.
    assert_eq!(
        hub.unsubscribe_from_strategist(SUBSCRIBER, STRATEGIST),
        Err(AgentHubError::NotSubscribed)
    );

    // A fresh handshake can re-establish the relation under a new token.
    hub.handle_subscription_confirmed(
        Some(SUBSCRIBER),
        78,
        STRATEGIST,
        STRATEGIST_CHAIN,
        999_000,
        SUBSCRIBER_CHAIN,
        9_000,
    );
    assert!(hub.subscription(78).unwrap().is_active);
    assert_eq!(hub.unsubscribe_from_strategist(SUBSCRIBER, STRATEGIST), Ok(()));
}

#[test]
fn request_without_signer_falls_back_to_subscriber_identity() {
    // The deliberate trust decision of the protocol: with no authenticated
    // signer, the offer lookup uses the subscriber's own account.
    let mut hub = AgentHubState::new(None);
    hub.register_strategist(SUBSCRIBER, "Impersonated".to_string(), 1_000).unwrap();
    hub.enable_subscription(SUBSCRIBER, None).unwrap();
    let out = hub.handle_subscription_request(None, SUBSCRIBER, SUBSCRIBER_CHAIN, 5_000, STRATEGIST_CHAIN);
    assert!(out.is_some());
    let token = match out.unwrap().message {
        Message::SubscriptionConfirmed { subscription_id, .. } => subscription_id,
        other => panic!("unexpected message {:?}", other),
    };
    assert_eq!(hub.subscription(token).unwrap().strategist, SUBSCRIBER);
}

#[test]
fn broadcast_upserts_well_formed_signals() {
    let mut hub = AgentHubState::new(None);
    let signal = Signal {
        id: 900,
        strategy_id: 3,
        created_at: 1_000,
        expires_at: 2_000,
        direction: Direction::Up,
        entry_value: Some(100),
        confidence_bps: 5000,
        status: SignalStatus::Resolved,
        result: Some(SignalResult::Win),
        pnl_bps: Some(1000),
        resolved_value: Some(110),
    };
    let out = hub.execute_message(
        None,
        Message::SignalBroadcast {
            signal,
            strategy_name: "alpha".to_string(),
            strategist: STRATEGIST,
        },
        5_000,
        SUBSCRIBER_CHAIN,
    );
    assert!(out.is_none());
    let stored = hub.signal(900).unwrap();
    assert_eq!(stored.strategy_id, 3);
    assert_eq!(stored.result, Some(SignalResult::Win));
}

#[test]
fn broadcast_drops_malformed_signals() {
    let mut hub = AgentHubState::new(None);
    // An open signal claiming a result is inconsistent and is dropped.
    let signal = Signal {
        id: 901,
        strategy_id: 3,
        created_at: 1_000,
        expires_at: 2_000,
        direction: Direction::Up,
        entry_value: Some(100),
        confidence_bps: 5000,
        status: SignalStatus::Open,
        result: Some(SignalResult::Win),
        pnl_bps: None,
        resolved_value: None,
    };
    hub.handle_signal_broadcast(signal);
    assert!(hub.signal(901).is_none());
}

#[test]
fn signal_resolved_message_triggers_recompute() {
    let mut hub = AgentHubState::new(None);
    let out = hub.execute_message(
        None,
        Message::SignalResolved {
            signal_id: 1,
            strategy_id: 5,
            result: SignalResult::Win,
            pnl_bps: 1000,
        },
        5_000,
        STRATEGIST_CHAIN,
    );
    assert!(out.is_none());
    // The strategy has no history here: the recompute stores zero stats.
    let stats = hub.strategy_stats(5).unwrap();
    assert_eq!(stats.total_signals, 0);
    assert_eq!(stats.strategy_id, 5);
}
