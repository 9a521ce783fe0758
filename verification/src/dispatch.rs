//! The operation and message dispatchers: the thin boundary between the
//! shard runtime and the verified components.
//!
//! An operation enters with the authenticated signer (or none), the current
//! time, and the shard's own identifier; it returns the caller-facing
//! response and at most one outbound cross-shard message for the driver to
//! deliver. A message enters the same way and may answer with at most one
//! message of its own.
use vstd::prelude::*;

use crate::model::StateModel;
use crate::signals::broadcast_post;
use crate::signals::cancel_post;
use crate::signals::publish_post;
use crate::signals::resolve_post;
use crate::social::follow_post;
use crate::social::unfollow_post;
use crate::social::update_stats_post;
use crate::state::AgentHubState;
use crate::strategies::create_post;
use crate::strategies::register_post;
use crate::subscriptions::confirmed_post;
use crate::subscriptions::disable_post;
use crate::subscriptions::enable_post;
use crate::subscriptions::request_post;
use crate::subscriptions::subscribe_post;
use crate::subscriptions::unsubscribe_post;
use crate::types::AgentHubError;
use crate::types::AgentHubResponse;
use crate::types::CreateStrategyInput;
use crate::types::Message;
use crate::types::Operation;
use crate::types::OutboundMessage;
use crate::types::PublishSignalInput;
use crate::types::SignalResult;
use crate::types::MAX_MARKET_VALUE;

verus! {

/// Whether `r` is the uniform error response carrying `e`'s message.
pub open spec fn error_response(r: AgentHubResponse, e: AgentHubError) -> bool {
    r matches AgentHubResponse::Error { message } && message@ == e.message_view()
}

/// The machine-limit preconditions of an operation, checked by the driver
/// before dispatch: counters must have room, and the values an operation
/// scales must be small enough that the arithmetic fits its integer types.
/// On inputs outside these bounds the arithmetic would overflow, so they
/// are excluded up front.
pub open spec fn operation_requires(m: StateModel, op: Operation, now: u64) -> bool {
    match op {
        Operation::CreateAgentStrategy { .. } => m.next_strategy_id < u64::MAX,
        Operation::PublishSignal { horizon_secs, entry_value, .. } => {
            &&& m.next_signal_id < u64::MAX
            &&& (entry_value matches Some(e) ==> e <= MAX_MARKET_VALUE)
            &&& now + horizon_secs * 1_000_000 <= u64::MAX
        },
        Operation::ResolveSignal { resolved_value, .. } => resolved_value <= MAX_MARKET_VALUE,
        _ => true,
    }
}

impl AgentHubState {
    /// Routes one caller-issued operation to its component. Without an
    /// authenticated signer every operation is rejected with
    /// `NotAuthenticated` and nothing changes; otherwise the component's
    /// own contract (the `*_post` predicate named per arm) determines the
    /// new state, and the response carries the operation's identifiers or
    /// the error's message.
    pub fn execute_operation(
        &mut self,
        signer: Option<u64>,
        op: Operation,
        now: u64,
        own_chain: u64,
    ) -> (r: (AgentHubResponse, Option<OutboundMessage>))
        requires
            old(self).wf(),
            signer is Some ==> operation_requires(old(self)@, op, now),
        ensures
            final(self).wf(),
            signer is None ==> final(self)@ == old(self)@ && r.1 is None && error_response(
                r.0,
                AgentHubError::NotAuthenticated,
            ),
            signer matches Some(owner) ==> {
                &&& (op matches Operation::RegisterStrategist { display_name } ==> r.1 is None
                    && exists|ir: Result<u64, AgentHubError>|
                    {
                        &&& #[trigger] register_post(
                            *old(self),
                            *final(self),
                            owner,
                            display_name,
                            now,
                            ir,
                        )
                        &&& match ir {
                            Ok(id) => r.0 == AgentHubResponse::StrategistRegistered { owner: id },
                            Err(e) => error_response(r.0, e),
                        }
                    })
                &&& (op matches Operation::CreateAgentStrategy {
                    name,
                    description,
                    market_kind,
                    base_market,
                    is_public,
                    is_ai_controlled,
                } ==> r.1 is None && exists|ir: Result<u64, AgentHubError>|
                    {
                        &&& #[trigger] create_post(
                            *old(self),
                            *final(self),
                            owner,
                            CreateStrategyInput {
                                name,
                                description,
                                market_kind,
                                base_market,
                                is_public,
                                is_ai_controlled,
                            },
                            now,
                            ir,
                        )
                        &&& match ir {
                            Ok(id) => r.0 == AgentHubResponse::StrategyCreated { id },
                            Err(e) => error_response(r.0, e),
                        }
                    })
                &&& (op matches Operation::PublishSignal {
                    strategy_id,
                    direction,
                    horizon_secs,
                    confidence_bps,
                    entry_value,
                } ==> r.1 is None && exists|ir: Result<u64, AgentHubError>|
                    {
                        &&& #[trigger] publish_post(
                            *old(self),
                            *final(self),
                            owner,
                            PublishSignalInput {
                                strategy_id,
                                direction,
                                horizon_secs,
                                confidence_bps,
                                entry_value,
                            },
                            now,
                            ir,
                        )
                        &&& match ir {
                            Ok(id) => r.0 == AgentHubResponse::SignalPublished { id },
                            Err(e) => error_response(r.0, e),
                        }
                    })
                &&& (op matches Operation::ResolveSignal { signal_id, resolved_value } ==> r.1
                    is None && exists|ir: Result<(SignalResult, i64), AgentHubError>|
                    {
                        &&& #[trigger] resolve_post(
                            *old(self),
                            *final(self),
                            signal_id,
                            resolved_value,
                            ir,
                        )
                        &&& match ir {
                            Ok(outcome) => r.0 == AgentHubResponse::SignalResolved {
                                id: signal_id,
                                result: outcome.0,
                                pnl_bps: outcome.1,
                            },
                            Err(e) => error_response(r.0, e),
                        }
                    })
                &&& (op matches Operation::CancelSignal { signal_id } ==> r.1 is None && exists|
                    ir: Result<(), AgentHubError>,
                |
                    {
                        &&& #[trigger] cancel_post(*old(self), *final(self), owner, signal_id, ir)
                        &&& match ir {
                            Ok(u) => r.0 == AgentHubResponse::SignalCancelled { id: signal_id },
                            Err(e) => error_response(r.0, e),
                        }
                    })
                &&& (op matches Operation::FollowStrategy {
                    strategy_id,
                    auto_copy,
                    max_exposure_units,
                } ==> r.1 is None && exists|ir: Result<(), AgentHubError>|
                    {
                        &&& #[trigger] follow_post(
                            *old(self),
                            *final(self),
                            owner,
                            strategy_id,
                            auto_copy,
                            max_exposure_units,
                            now,
                            ir,
                        )
                        &&& match ir {
                            Ok(u) => r.0 == AgentHubResponse::Followed { strategy_id },
                            Err(e) => error_response(r.0, e),
                        }
                    })
                &&& (op matches Operation::UnfollowStrategy { strategy_id } ==> r.1 is None
                    && exists|ir: Result<(), AgentHubError>|
                    {
                        &&& #[trigger] unfollow_post(
                            *old(self),
                            *final(self),
                            owner,
                            strategy_id,
                            ir,
                        )
                        &&& match ir {
                            Ok(u) => r.0 == AgentHubResponse::Unfollowed { strategy_id },
                            Err(e) => error_response(r.0, e),
                        }
                    })
                &&& (op matches Operation::UpdateStats { strategy_id } ==> r.1 is None
                    && update_stats_post(*old(self), *final(self), strategy_id) && r.0
                    == AgentHubResponse::Okay)
                &&& (op matches Operation::EnableSubscription { description } ==> r.1 is None
                    && exists|ir: Result<(), AgentHubError>|
                    {
                        &&& #[trigger] enable_post(
                            *old(self),
                            *final(self),
                            owner,
                            description,
                            ir,
                        )
                        &&& match ir {
                            Ok(u) => r.0 == AgentHubResponse::SubscriptionEnabled {
                                strategist: owner,
                            },
                            Err(e) => error_response(r.0, e),
                        }
                    })
                &&& (op matches Operation::DisableSubscription ==> r.1 is None && disable_post(
                    *old(self),
                    *final(self),
                    owner,
                ) && r.0 == AgentHubResponse::SubscriptionDisabled { strategist: owner })
                &&& (op matches Operation::SubscribeToStrategist {
                    strategist,
                    strategist_chain_id,
                } ==> exists|ir: Result<u64, AgentHubError>|
                    {
                        &&& #[trigger] subscribe_post(
                            *old(self),
                            *final(self),
                            owner,
                            strategist,
                            strategist_chain_id,
                            own_chain,
                            now,
                            ir,
                            r.1,
                        )
                        &&& match ir {
                            Ok(ts) => r.0 == AgentHubResponse::Subscribed { requested_at: ts },
                            Err(e) => error_response(r.0, e),
                        }
                    })
                &&& (op matches Operation::UnsubscribeFromStrategist { strategist } ==> r.1 is None
                    && exists|ir: Result<(), AgentHubError>|
                    {
                        &&& #[trigger] unsubscribe_post(
                            *old(self),
                            *final(self),
                            owner,
                            strategist,
                            ir,
                        )
                        &&& match ir {
                            Ok(u) => r.0 == AgentHubResponse::Unsubscribed { strategist },
                            Err(e) => error_response(r.0, e),
                        }
                    })
            },
    {
        let owner: u64 = match signer {
            Some(o) => o,
            None => {
                return (AgentHubResponse::from_error(AgentHubError::NotAuthenticated), None);
            },
        };
        match op {
            Operation::RegisterStrategist { display_name } => {
                match self.register_strategist(owner, display_name, now) {
                    Ok(id) => (AgentHubResponse::StrategistRegistered { owner: id }, None),
                    Err(e) => (AgentHubResponse::from_error(e), None),
                }
            },
            Operation::CreateAgentStrategy {
                name,
                description,
                market_kind,
                base_market,
                is_public,
                is_ai_controlled,
            } => {
                let input = CreateStrategyInput {
                    name,
                    description,
                    market_kind,
                    base_market,
                    is_public,
                    is_ai_controlled,
                };
                match self.create_strategy(owner, input, now) {
                    Ok(id) => (AgentHubResponse::StrategyCreated { id }, None),
                    Err(e) => (AgentHubResponse::from_error(e), None),
                }
            },
            Operation::PublishSignal {
                strategy_id,
                direction,
                horizon_secs,
                confidence_bps,
                entry_value,
            } => {
                let input = PublishSignalInput {
                    strategy_id,
                    direction,
                    horizon_secs,
                    confidence_bps,
                    entry_value,
                };
                match self.publish_signal(owner, input, now) {
                    Ok(id) => (AgentHubResponse::SignalPublished { id }, None),
                    Err(e) => (AgentHubResponse::from_error(e), None),
                }
            },
            Operation::ResolveSignal { signal_id, resolved_value } => {
                match self.resolve_signal(signal_id, resolved_value) {
                    Ok((result, pnl_bps)) => (
                        AgentHubResponse::SignalResolved { id: signal_id, result, pnl_bps },
                        None,
                    ),
                    Err(e) => (AgentHubResponse::from_error(e), None),
                }
            },
            Operation::CancelSignal { signal_id } => {
                match self.cancel_signal(owner, signal_id) {
                    Ok(()) => (AgentHubResponse::SignalCancelled { id: signal_id }, None),
                    Err(e) => (AgentHubResponse::from_error(e), None),
                }
            },
            Operation::FollowStrategy { strategy_id, auto_copy, max_exposure_units } => {
                match self.follow_strategy(owner, strategy_id, auto_copy, max_exposure_units, now) {
                    Ok(()) => (AgentHubResponse::Followed { strategy_id }, None),
                    Err(e) => (AgentHubResponse::from_error(e), None),
                }
            },
            Operation::UnfollowStrategy { strategy_id } => {
                match self.unfollow_strategy(owner, strategy_id) {
                    Ok(()) => (AgentHubResponse::Unfollowed { strategy_id }, None),
                    Err(e) => (AgentHubResponse::from_error(e), None),
                }
            },
            Operation::UpdateStats { strategy_id } => {
                self.update_strategy_stats(strategy_id);
                (AgentHubResponse::Okay, None)
            },
            Operation::EnableSubscription { description } => {
                match self.enable_subscription(owner, description) {
                    Ok(()) => (AgentHubResponse::SubscriptionEnabled { strategist: owner }, None),
                    Err(e) => (AgentHubResponse::from_error(e), None),
                }
            },
            Operation::DisableSubscription => {
                self.disable_subscription(owner);
                (AgentHubResponse::SubscriptionDisabled { strategist: owner }, None)
            },
            Operation::SubscribeToStrategist { strategist, strategist_chain_id } => {
                let (res, out) = self.subscribe_to_strategist(
                    owner,
                    strategist,
                    strategist_chain_id,
                    own_chain,
                    now,
                );
                match res {
                    Ok(ts) => (AgentHubResponse::Subscribed { requested_at: ts }, out),
                    Err(e) => (AgentHubResponse::from_error(e), out),
                }
            },
            Operation::UnsubscribeFromStrategist { strategist } => {
                match self.unsubscribe_from_strategist(owner, strategist) {
                    Ok(()) => (AgentHubResponse::Unsubscribed { strategist }, None),
                    Err(e) => (AgentHubResponse::from_error(e), None),
                }
            },
        }
    }

    /// Routes one inbound cross-shard message to its handler. Handlers have
    /// no error channel: each either applies its effect (the `*_post`
    /// predicate named per arm) or drops the message.
    pub fn execute_message(
        &mut self,
        signer: Option<u64>,
        message: Message,
        now: u64,
        own_chain: u64,
    ) -> (out: Option<OutboundMessage>)
        requires
            old(self).wf(),
        ensures
            final(self).wf(),
            message matches Message::SignalResolved { strategy_id, .. } ==> update_stats_post(
                *old(self),
                *final(self),
                strategy_id,
            ) && out is None,
            message matches Message::SubscriptionRequest {
                subscriber,
                subscriber_chain_id,
                timestamp,
            } ==> request_post(
                *old(self),
                *final(self),
                signer,
                subscriber,
                subscriber_chain_id,
                timestamp,
                own_chain,
                out,
            ),
            message matches Message::SubscriptionConfirmed {
                subscription_id,
                strategist,
                strategist_chain_id,
                end_timestamp,
            } ==> confirmed_post(
                *old(self),
                *final(self),
                signer,
                subscription_id,
                strategist,
                strategist_chain_id,
                end_timestamp,
                own_chain,
                now,
            ) && out is None,
            message matches Message::SignalBroadcast { signal, .. } ==> broadcast_post(
                *old(self),
                *final(self),
                signal,
            ) && out is None,
    {
        match message {
            Message::SignalResolved { signal_id: _, strategy_id, result: _, pnl_bps: _ } => {
                self.update_strategy_stats(strategy_id);
                None
            },
            Message::SubscriptionRequest { subscriber, subscriber_chain_id, timestamp } => {
                self.handle_subscription_request(
                    signer,
                    subscriber,
                    subscriber_chain_id,
                    timestamp,
                    own_chain,
                )
            },
            Message::SubscriptionConfirmed {
                subscription_id,
                strategist,
                strategist_chain_id,
                end_timestamp,
            } => {
                self.handle_subscription_confirmed(
                    signer,
                    subscription_id,
                    strategist,
                    strategist_chain_id,
                    end_timestamp,
                    own_chain,
                    now,
                );
                None
            },
            Message::SignalBroadcast { signal, strategy_name: _, strategist: _ } => {
                self.handle_signal_broadcast(signal);
                None
            },
        }
    }
}

} // verus!
