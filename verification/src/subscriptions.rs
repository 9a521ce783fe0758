//! The cross-shard subscription protocol.
//!
//! A three-message handshake: the subscriber's shard sends a
//! `SubscriptionRequest`; the strategist's shard, when its offer is
//! enabled, stores its own `Subscription` record and answers with
//! `SubscriptionConfirmed`; the subscriber's shard then stores an
//! independent local record under the same token. The two records are never
//! reconciled. Message handlers have no error channel: a request against a
//! missing or disabled offer is dropped silently, and the subscriber can
//! not tell a dropped request from a lost one.
use vstd::prelude::*;

use crate::model::find_first;
use crate::model::lemma_find_first;
use crate::model::spec_subscription_token;
use crate::model::subscription_token;
use crate::model::StateModel;
use crate::state::AgentHubState;
use crate::types::AgentHubError;
use crate::types::Message;
use crate::types::OutboundMessage;
use crate::types::Subscription;
use crate::types::SubscriptionOffer;
use crate::types::THIRTY_DAYS_MICROS;

verus! {

broadcast use
    vstd::std_specs::hash::group_hash_axioms,
    crate::model::lemma_vec_map_view_contains,
    crate::model::lemma_vec_map_view_index,
    crate::model::lemma_vec_map_view_insert,
    crate::model::lemma_vec_map_view_remove;

/// The identity an inbound message handler acts for: the authenticated
/// signer when one is present, else the fallback account taken from the
/// message itself. The fallback is a deliberate trust decision of the
/// protocol: an unauthenticated handling context attributes the message to
/// the account named in it.
pub open spec fn effective_identity(signer: Option<u64>, fallback: u64) -> u64 {
    match signer {
        Some(s) => s,
        None => fallback,
    }
}

/// The subscription tokens held by a local subscriber account.
pub open spec fn tokens_of(m: StateModel, subscriber: u64) -> Seq<u128> {
    if m.subscriptions_by_subscriber.contains_key(subscriber) {
        m.subscriptions_by_subscriber[subscriber]
    } else {
        Seq::empty()
    }
}

/// The subscription tokens granted by a local strategist account.
pub open spec fn granted_of(m: StateModel, strategist: u64) -> Seq<u128> {
    if m.subscribers_by_strategist.contains_key(strategist) {
        m.subscribers_by_strategist[strategist]
    } else {
        Seq::empty()
    }
}

/// Whether `token` names a stored, active subscription to `strategist`.
pub open spec fn matches_active(
    subs: Map<u128, Subscription>,
    token: u128,
    strategist: u64,
) -> bool {
    subs.contains_key(token) && subs[token].strategist == strategist && subs[token].is_active
}

/// Whether the subscriber holds any active subscription to the strategist.
pub open spec fn has_active_subscription(m: StateModel, subscriber: u64, strategist: u64) -> bool {
    exists|i: int|
        0 <= i < tokens_of(m, subscriber).len() && matches_active(
            m.subscriptions,
            #[trigger] tokens_of(m, subscriber)[i],
            strategist,
        )
}

/// What `enable_subscription` does: it fails iff the caller is not a
/// registered strategist, and otherwise stores an enabled offer, replacing
/// any previous one.
pub open spec fn enable_post(
    pre: AgentHubState,
    post: AgentHubState,
    owner: u64,
    description: Option<String>,
    r: Result<(), AgentHubError>,
) -> bool {
    let m = pre@;
    if !m.strategists.contains_key(owner) {
        r == Err::<(), AgentHubError>(AgentHubError::StrategistNotRegistered) && post@ == m
    } else {
        &&& r == Ok::<(), AgentHubError>(())
        &&& post@ == StateModel {
            subscription_offers: m.subscription_offers.insert(
                owner,
                SubscriptionOffer { strategist: owner, description, is_enabled: true },
            ),
            ..m
        }
    }
}

/// What `disable_subscription` does: it flips the caller's offer off when
/// one exists and does nothing otherwise; it never fails.
pub open spec fn disable_post(pre: AgentHubState, post: AgentHubState, owner: u64) -> bool {
    let m = pre@;
    if m.subscription_offers.contains_key(owner) {
        post@ == StateModel {
            subscription_offers: m.subscription_offers.insert(
                owner,
                SubscriptionOffer { is_enabled: false, ..m.subscription_offers[owner] },
            ),
            ..m
        }
    } else {
        post@ == m
    }
}

/// What `subscribe_to_strategist` does: it fails iff the subscriber already
/// holds an active subscription to the strategist. Otherwise no local
/// record is created yet: the operation only emits a `SubscriptionRequest`
/// to the strategist's shard (none when the shard identifier did not
/// parse) and acknowledges the pending request with its timestamp.
pub open spec fn subscribe_post(
    pre: AgentHubState,
    post: AgentHubState,
    subscriber: u64,
    strategist: u64,
    strategist_chain: Option<u64>,
    own_chain: u64,
    now: u64,
    r: Result<u64, AgentHubError>,
    out: Option<OutboundMessage>,
) -> bool {
    let m = pre@;
    if has_active_subscription(m, subscriber, strategist) {
        r == Err::<u64, AgentHubError>(AgentHubError::AlreadySubscribed) && post@ == m
            && out is None
    } else {
        &&& r == Ok::<u64, AgentHubError>(now)
        &&& post@ == m
        &&& out == match strategist_chain {
            Some(c) => Some(
                OutboundMessage {
                    destination: c,
                    message: Message::SubscriptionRequest {
                        subscriber,
                        subscriber_chain_id: own_chain,
                        timestamp: now,
                    },
                },
            ),
            None => None,
        }
    }
}

/// What `unsubscribe_from_strategist` does: it fails iff the subscriber
/// holds no active subscription to the strategist; otherwise it flips
/// `is_active` off on the first matching local record only. The
/// strategist's shard is not notified.
pub open spec fn unsubscribe_post(
    pre: AgentHubState,
    post: AgentHubState,
    subscriber: u64,
    strategist: u64,
    r: Result<(), AgentHubError>,
) -> bool {
    let m = pre@;
    if !has_active_subscription(m, subscriber, strategist) {
        r == Err::<(), AgentHubError>(AgentHubError::NotSubscribed) && post@ == m
    } else {
        let tokens = tokens_of(m, subscriber);
        let idx = find_first(tokens, |t: u128| matches_active(m.subscriptions, t, strategist));
        let token = tokens[idx];
        &&& r == Ok::<(), AgentHubError>(())
        &&& post@ == StateModel {
            subscriptions: m.subscriptions.insert(
                token,
                Subscription { is_active: false, ..m.subscriptions[token] },
            ),
            ..m
        }
    }
}

/// What the `SubscriptionRequest` handler does. With an enabled offer for
/// the effective strategist, and room for the end timestamp and the
/// counter, it allocates the next counter value, stores the strategist-side
/// record under the derived token, indexes it, and emits the confirmation
/// back to the subscriber's shard; in every other case it drops the request
/// silently (best effort, no NACK).
pub open spec fn request_post(
    pre: AgentHubState,
    post: AgentHubState,
    signer: Option<u64>,
    subscriber: u64,
    subscriber_chain: u64,
    timestamp: u64,
    own_chain: u64,
    out: Option<OutboundMessage>,
) -> bool {
    let m = pre@;
    let strategist = effective_identity(signer, subscriber);
    let enabled = m.subscription_offers.contains_key(strategist)
        && m.subscription_offers[strategist].is_enabled;
    let fits = timestamp + THIRTY_DAYS_MICROS <= u64::MAX && m.next_subscription_id < u64::MAX;
    if enabled && fits {
        let seq = m.next_subscription_id;
        let token = spec_subscription_token(seq, timestamp);
        let end = (timestamp + THIRTY_DAYS_MICROS) as u64;
        let record = Subscription {
            id: token,
            subscriber,
            subscriber_chain_id: subscriber_chain,
            strategist,
            strategist_chain_id: own_chain,
            start_timestamp: timestamp,
            end_timestamp: end,
            is_active: true,
        };
        &&& post@ == StateModel {
            subscriptions: m.subscriptions.insert(token, record),
            subscribers_by_strategist: m.subscribers_by_strategist.insert(
                strategist,
                granted_of(m, strategist).push(token),
            ),
            next_subscription_id: (seq + 1) as u64,
            ..m
        }
        &&& out == Some(
            OutboundMessage {
                destination: subscriber_chain,
                message: Message::SubscriptionConfirmed {
                    subscription_id: token,
                    strategist,
                    strategist_chain_id: own_chain,
                    end_timestamp: end,
                },
            },
        )
    } else {
        post@ == m && out is None
    }
}

/// What the `SubscriptionConfirmed` handler does: it stores the
/// subscriber-side record under the received token — with the local time as
/// its start, so the two sides' records may disagree — and indexes it for
/// the effective subscriber. It never fails; a duplicate confirmation
/// overwrites the record and indexes the token a second time.
pub open spec fn confirmed_post(
    pre: AgentHubState,
    post: AgentHubState,
    signer: Option<u64>,
    token: u128,
    strategist: u64,
    strategist_chain: u64,
    end_timestamp: u64,
    own_chain: u64,
    now: u64,
) -> bool {
    let m = pre@;
    let subscriber = effective_identity(signer, strategist);
    let record = Subscription {
        id: token,
        subscriber,
        subscriber_chain_id: own_chain,
        strategist,
        strategist_chain_id: strategist_chain,
        start_timestamp: now,
        end_timestamp,
        is_active: true,
    };
    post@ == StateModel {
        subscriptions: m.subscriptions.insert(token, record),
        subscriptions_by_subscriber: m.subscriptions_by_subscriber.insert(
            subscriber,
            tokens_of(m, subscriber).push(token),
        ),
        ..m
    }
}

impl AgentHubState {
    /// Opens (or re-enables) the caller's subscription offer.
    pub fn enable_subscription(&mut self, owner: u64, description: Option<String>) -> (r: Result<
        (),
        AgentHubError,
    >)
        requires
            old(self).wf(),
        ensures
            final(self).wf(),
            enable_post(*old(self), *final(self), owner, description, r),
    {
        let ghost m = self@;
        if !self.strategists.contains_key(&owner) {
            return Err(AgentHubError::StrategistNotRegistered);
        }
        let offer = SubscriptionOffer { strategist: owner, description, is_enabled: true };
        self.subscription_offers.insert(owner, offer);
        proof {
            assert(self@ =~~= (StateModel {
                subscription_offers: m.subscription_offers.insert(owner, offer),
                ..m
            }));
        }
        Ok(())
    }

    /// Disables the caller's subscription offer when one exists. Never
    /// fails: disabling a missing offer is a no-op.
    pub fn disable_subscription(&mut self, owner: u64)
        requires
            old(self).wf(),
        ensures
            final(self).wf(),
            disable_post(*old(self), *final(self), owner),
    {
        let ghost m = self@;
        let updated: Option<SubscriptionOffer> = match self.subscription_offers.remove(&owner) {
            Some(offer) => {
                let mut o = offer;
                o.is_enabled = false;
                Some(o)
            },
            None => None,
        };
        match updated {
            Some(o) => {
                let ghost off = o;
                self.subscription_offers.insert(owner, o);
                proof {
                    assert(off == (SubscriptionOffer {
                        is_enabled: false,
                        ..m.subscription_offers[owner]
                    }));
                    assert(self@ =~~= (StateModel {
                        subscription_offers: m.subscription_offers.insert(owner, off),
                        ..m
                    }));
                }
            },
            None => {
                proof {
                    assert(self@ =~~= m);
                }
            },
        }
    }

    /// Asks for a subscription to a strategist hosted on another shard.
    /// Returns the pending request's timestamp and the request message to
    /// deliver; no local record exists until the confirmation arrives.
    pub fn subscribe_to_strategist(
        &mut self,
        subscriber: u64,
        strategist: u64,
        strategist_chain: Option<u64>,
        own_chain: u64,
        now: u64,
    ) -> (r: (Result<u64, AgentHubError>, Option<OutboundMessage>))
        requires
            old(self).wf(),
        ensures
            final(self).wf(),
            subscribe_post(
                *old(self),
                *final(self),
                subscriber,
                strategist,
                strategist_chain,
                own_chain,
                now,
                r.0,
                r.1,
            ),
    {
        let ghost m = self@;
        let empty: Vec<u128> = Vec::new();
        let tokens: &Vec<u128> = match self.subscriptions_by_subscriber.get(&subscriber) {
            Some(v) => v,
            None => &empty,
        };
        proof {
            assert(tokens@ == tokens_of(m, subscriber));
        }
        let n: usize = tokens.len();
        let mut i: usize = 0;
        while i < n
            invariant
                *self == *old(self),
                m == self@,
                m.wf(),
                n == tokens@.len(),
                0 <= i <= n,
                tokens@ == tokens_of(m, subscriber),
                forall|j: int|
                    0 <= j < i ==> !matches_active(
                        m.subscriptions,
                        #[trigger] tokens@[j],
                        strategist,
                    ),
            decreases n - i,
        {
            let token = tokens[i];
            match self.subscriptions.get(&token) {
                Some(sub) => {
                    if sub.strategist == strategist && sub.is_active {
                        return (Err(AgentHubError::AlreadySubscribed), None);
                    }
                },
                None => {},
            }
            i = i + 1;
        }
        proof {
            assert(!has_active_subscription(m, subscriber, strategist));
        }
        let out: Option<OutboundMessage> = match strategist_chain {
            Some(c) => Some(
                OutboundMessage {
                    destination: c,
                    message: Message::SubscriptionRequest {
                        subscriber,
                        subscriber_chain_id: own_chain,
                        timestamp: now,
                    },
                },
            ),
            None => None,
        };
        (Ok(now), out)
    }

    /// Deactivates the subscriber's first active local subscription to the
    /// strategist. The strategist-side record on the other shard stays
    /// active; only a fresh handshake can re-establish the relation here.
    pub fn unsubscribe_from_strategist(&mut self, subscriber: u64, strategist: u64) -> (r: Result<
        (),
        AgentHubError,
    >)
        requires
            old(self).wf(),
        ensures
            final(self).wf(),
            unsubscribe_post(*old(self), *final(self), subscriber, strategist, r),
    {
        let ghost m = self@;
        let empty: Vec<u128> = Vec::new();
        let tokens: &Vec<u128> = match self.subscriptions_by_subscriber.get(&subscriber) {
            Some(v) => v,
            None => &empty,
        };
        proof {
            assert(tokens@ == tokens_of(m, subscriber));
        }
        let n: usize = tokens.len();
        let mut idx: usize = 0;
        let mut found: bool = false;
        let mut i: usize = 0;
        while i < n
            invariant
                *self == *old(self),
                m == self@,
                n == tokens@.len(),
                0 <= i <= n,
                tokens@ == tokens_of(m, subscriber),
                found ==> idx < i && matches_active(m.subscriptions, tokens@[idx as int], strategist)
                    && forall|j: int|
                    0 <= j < idx ==> !matches_active(
                        m.subscriptions,
                        #[trigger] tokens@[j],
                        strategist,
                    ),
                !found ==> forall|j: int|
                    0 <= j < i ==> !matches_active(
                        m.subscriptions,
                        #[trigger] tokens@[j],
                        strategist,
                    ),
            decreases n - i,
        {
            if !found {
                let token = tokens[i];
                match self.subscriptions.get(&token) {
                    Some(sub) => {
                        if sub.strategist == strategist && sub.is_active {
                            found = true;
                            idx = i;
                        }
                    },
                    None => {},
                }
            }
            i = i + 1;
        }
        if !found {
            proof {
                assert(!has_active_subscription(m, subscriber, strategist));
            }
            return Err(AgentHubError::NotSubscribed);
        }

        let token: u128 = tokens[idx];
        proof {
            assert(has_active_subscription(m, subscriber, strategist));
            let p = |t: u128| matches_active(m.subscriptions, t, strategist);
            lemma_find_first(tokens_of(m, subscriber), p);
            let f = find_first(tokens_of(m, subscriber), p);
            assert(f == idx as int) by {
                if f < idx as int {
                    assert(!p(tokens_of(m, subscriber)[f]));
                } else if f > idx as int {
                    assert(!p(tokens_of(m, subscriber)[idx as int]));
                }
            }
        }
        let updated: Subscription = match self.subscriptions.get(&token) {
            Some(sub) => {
                let mut s = *sub;
                s.is_active = false;
                s
            },
            None => {
                proof {
                    assert(false);
                }
                return Err(AgentHubError::NotSubscribed);
            },
        };
        self.subscriptions.insert(token, updated);
        proof {
            assert(self@ =~~= (StateModel {
                subscriptions: m.subscriptions.insert(
                    token,
                    Subscription { is_active: false, ..m.subscriptions[token] },
                ),
                ..m
            }));
        }
        Ok(())
    }

    /// Handles an inbound `SubscriptionRequest` on the strategist's shard.
    /// The effective strategist is the authenticated signer, falling back
    /// to the subscriber named in the message when no signer is present.
    /// Returns the confirmation to send, or `None` when the request was
    /// dropped (missing or disabled offer, or no room for the end
    /// timestamp or the counter).
    pub fn handle_subscription_request(
        &mut self,
        signer: Option<u64>,
        subscriber: u64,
        subscriber_chain: u64,
        timestamp: u64,
        own_chain: u64,
    ) -> (out: Option<OutboundMessage>)
        requires
            old(self).wf(),
        ensures
            final(self).wf(),
            request_post(
                *old(self),
                *final(self),
                signer,
                subscriber,
                subscriber_chain,
                timestamp,
                own_chain,
                out,
            ),
    {
        let ghost m = self@;
        let strategist: u64 = match signer {
            Some(s) => s,
            None => subscriber,
        };
        let enabled: bool = match self.subscription_offers.get(&strategist) {
            Some(offer) => offer.is_enabled,
            None => false,
        };
        if !enabled {
            return None;
        }
        if timestamp > u64::MAX - THIRTY_DAYS_MICROS || self.next_subscription_id == u64::MAX {
            return None;
        }

        let seq = self.next_subscription_id;
        self.next_subscription_id = seq + 1;
        let token = subscription_token(seq, timestamp);
        let end_timestamp: u64 = timestamp + THIRTY_DAYS_MICROS;

        let record = Subscription {
            id: token,
            subscriber,
            subscriber_chain_id: subscriber_chain,
            strategist,
            strategist_chain_id: own_chain,
            start_timestamp: timestamp,
            end_timestamp,
            is_active: true,
        };
        self.subscriptions.insert(token, record);

        let mut granted: Vec<u128> = match self.subscribers_by_strategist.remove(&strategist) {
            Some(v) => v,
            None => Vec::new(),
        };
        granted.push(token);
        let ghost new_granted = granted@;
        self.subscribers_by_strategist.insert(strategist, granted);

        proof {
            assert(new_granted == granted_of(m, strategist).push(token));
            assert(self@ =~~= (StateModel {
                subscriptions: m.subscriptions.insert(token, record),
                subscribers_by_strategist: m.subscribers_by_strategist.insert(
                    strategist,
                    granted_of(m, strategist).push(token),
                ),
                next_subscription_id: (seq + 1) as u64,
                ..m
            }));
        }
        Some(
            OutboundMessage {
                destination: subscriber_chain,
                message: Message::SubscriptionConfirmed {
                    subscription_id: token,
                    strategist,
                    strategist_chain_id: own_chain,
                    end_timestamp,
                },
            },
        )
    }

    /// Handles an inbound `SubscriptionConfirmed` on the subscriber's
    /// shard: stores the local copy of the subscription — started at the
    /// local current time, not the original request time — and indexes the
    /// token. The effective subscriber is the authenticated signer, falling
    /// back to the strategist named in the message.
    pub fn handle_subscription_confirmed(
        &mut self,
        signer: Option<u64>,
        subscription_id: u128,
        strategist: u64,
        strategist_chain: u64,
        end_timestamp: u64,
        own_chain: u64,
        now: u64,
    )
        requires
            old(self).wf(),
        ensures
            final(self).wf(),
            confirmed_post(
                *old(self),
                *final(self),
                signer,
                subscription_id,
                strategist,
                strategist_chain,
                end_timestamp,
                own_chain,
                now,
            ),
    {
        let ghost m = self@;
        let subscriber: u64 = match signer {
            Some(s) => s,
            None => strategist,
        };
        let record = Subscription {
            id: subscription_id,
            subscriber,
            subscriber_chain_id: own_chain,
            strategist,
            strategist_chain_id: strategist_chain,
            start_timestamp: now,
            end_timestamp,
            is_active: true,
        };
        self.subscriptions.insert(subscription_id, record);

        let mut tokens: Vec<u128> = match self.subscriptions_by_subscriber.remove(&subscriber) {
            Some(v) => v,
            None => Vec::new(),
        };
        tokens.push(subscription_id);
        let ghost new_tokens = tokens@;
        self.subscriptions_by_subscriber.insert(subscriber, tokens);

        proof {
            assert(new_tokens == tokens_of(m, subscriber).push(subscription_id));
            assert(self@ =~~= (StateModel {
                subscriptions: m.subscriptions.insert(subscription_id, record),
                subscriptions_by_subscriber: m.subscriptions_by_subscriber.insert(
                    subscriber,
                    tokens_of(m, subscriber).push(subscription_id),
                ),
                ..m
            }));
        }
    }
}

} // verus!
