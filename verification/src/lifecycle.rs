//! How subscriptions come into being, are funded, and are paused, resumed and cancelled.
use crate::address::Address;
use crate::error::{Error, Failure, Reply};
use crate::events::Event;
use crate::status::{can_transition, legal_move, SubscriptionStatus};
use crate::store::listed;
use crate::types::{PlanTemplate, Subscription, MAX_SUBSCRIPTION_ID, MAX_WRITE_PATH_SCAN_DEPTH};
use crate::vault::{settles, sound, SubscriptionVault, VaultState};
use vstd::prelude::*;

verus! {

/// What a subscriber and a merchant agree on.
#[derive(Debug, Clone, Copy, PartialEq, Eq)]
pub struct SubscriptionTerms {
    pub subscriber: Address,
    pub merchant: Address,
    pub token: Address,
    pub amount: i128,
    pub interval_seconds: u64,
    pub usage_enabled: bool,
    pub lifetime_cap: Option<i128>,
    pub expires_at: Option<u64>,
}

/// A subscription that may still be charged, now or after it has been resumed or funded.
pub open spec fn is_open(subscription: Subscription) -> bool {
    subscription.status != SubscriptionStatus::Cancelled && subscription.status
        != SubscriptionStatus::Expired && subscription.status != SubscriptionStatus::Archived
}

/// What the subscription `id` commits `subscriber` to in `token`, per interval.
pub open spec fn commitment(
    subscriptions: Map<u32, Subscription>,
    subscriber: Address,
    token: Address,
    id: u32,
) -> int {
    if subscriptions.contains_key(id) && subscriptions[id].subscriber == subscriber
        && subscriptions[id].token == token && is_open(subscriptions[id]) {
        subscriptions[id].amount as int
    } else {
        0
    }
}

/// What the subscriptions below `end` commit `subscriber` to in `token`, per interval.
pub open spec fn exposure(
    subscriptions: Map<u32, Subscription>,
    subscriber: Address,
    token: Address,
    end: nat,
) -> int
    decreases end,
{
    if end == 0 {
        0
    } else {
        exposure(subscriptions, subscriber, token, (end - 1) as nat) + commitment(
            subscriptions,
            subscriber,
            token,
            (end - 1) as u32,
        )
    }
}

impl VaultState {
    /// The most that `subscriber` may commit to in `token`; zero stands for no limit.
    pub open spec fn limit_of(self, subscriber: Address, token: Address) -> int {
        if self.credit_limits.contains_key((subscriber, token)) {
            self.credit_limits[(subscriber, token)] as int
        } else {
            0
        }
    }

    /// Why the vault does not take a subscription on.
    pub open spec fn admission_refusal(self, terms: SubscriptionTerms) -> Option<Failure> {
        let limit = self.limit_of(terms.subscriber, terms.token);
        if terms.amount <= 0 || (terms.lifetime_cap matches Some(cap) && cap <= 0) {
            Some(Failure::Contract(Error::InvalidAmount))
        } else if limit > 0 && self.next_id > MAX_WRITE_PATH_SCAN_DEPTH {
            Some(Failure::Contract(Error::InvalidInput))
        } else if limit > 0 && exposure(
            self.subscriptions,
            terms.subscriber,
            terms.token,
            self.next_id as nat,
        ) + terms.amount > limit {
            Some(Failure::Contract(Error::CreditLimitExceeded))
        } else if self.next_id == MAX_SUBSCRIPTION_ID || listed(
            self.merchant_index,
            terms.merchant,
        ).len() == u32::MAX || listed(self.token_index, terms.token).len() == u32::MAX {
            Some(Failure::Contract(Error::SubscriptionLimitReached))
        } else {
            None
        }
    }

    /// The record of a subscription that starts now.
    pub open spec fn fresh(self, terms: SubscriptionTerms) -> Subscription {
        Subscription {
            subscriber: terms.subscriber,
            merchant: terms.merchant,
            token: terms.token,
            amount: terms.amount,
            interval_seconds: terms.interval_seconds,
            last_payment_timestamp: self.timestamp,
            status: SubscriptionStatus::Active,
            prepaid_balance: 0,
            usage_enabled: terms.usage_enabled,
            lifetime_cap: terms.lifetime_cap,
            lifetime_charged: 0,
            start_time: self.timestamp,
            expires_at: terms.expires_at,
            grace_start_timestamp: None,
        }
    }

    /// The state with one more subscription.
    pub open spec fn admitted(self, terms: SubscriptionTerms) -> VaultState {
        VaultState {
            next_id: (self.next_id + 1) as u32,
            subscriptions: self.subscriptions.insert(self.next_id, self.fresh(terms)),
            merchant_index: self.merchant_index.insert(
                terms.merchant,
                listed(self.merchant_index, terms.merchant).push(self.next_id),
            ),
            token_index: self.token_index.insert(
                terms.token,
                listed(self.token_index, terms.token).push(self.next_id),
            ),
            events: self.events.push(
                Event::SubscriptionCreated {
                    subscription_id: self.next_id,
                    subscriber: terms.subscriber,
                    merchant: terms.merchant,
                    token: terms.token,
                    amount: terms.amount,
                    interval_seconds: terms.interval_seconds,
                    lifetime_cap: terms.lifetime_cap,
                    expires_at: terms.expires_at,
                    timestamp: self.timestamp,
                },
            ),
            ..self
        }
    }

    pub open spec fn create_refusal(self, terms: SubscriptionTerms) -> Option<Failure> {
        if !self.signed(terms.subscriber) {
            Some(Failure::Abort)
        } else {
            self.admission_refusal(terms)
        }
    }

    pub open spec fn plan_refusal(self, plan: PlanTemplate) -> Option<Failure> {
        if !self.signed(plan.merchant) {
            Some(Failure::Abort)
        } else if plan.amount <= 0 || (plan.lifetime_cap matches Some(cap) && cap <= 0) {
            Some(Failure::Contract(Error::InvalidAmount))
        } else if self.plans.len() >= MAX_SUBSCRIPTION_ID {
            Some(Failure::Contract(Error::SubscriptionLimitReached))
        } else {
            None
        }
    }

    /// The state with one more plan.
    pub open spec fn planned(self, plan: PlanTemplate) -> VaultState {
        VaultState { plans: self.plans.push(plan), ..self }.published(
            Event::PlanTemplateCreated {
                plan_template_id: self.plans.len() as u32,
                merchant: plan.merchant,
                token: plan.token,
                amount: plan.amount,
                interval_seconds: plan.interval_seconds,
                usage_enabled: plan.usage_enabled,
                lifetime_cap: plan.lifetime_cap,
                timestamp: self.timestamp,
            },
        )
    }

    /// The terms of a subscription to plan `plan_id`.
    pub open spec fn plan_terms(self, subscriber: Address, plan_id: u32) -> SubscriptionTerms {
        let plan = self.plans[plan_id as int];
        SubscriptionTerms {
            subscriber,
            merchant: plan.merchant,
            token: plan.token,
            amount: plan.amount,
            interval_seconds: plan.interval_seconds,
            usage_enabled: plan.usage_enabled,
            lifetime_cap: plan.lifetime_cap,
            expires_at: None,
        }
    }

    pub open spec fn subscribe_refusal(self, subscriber: Address, plan_id: u32) -> Option<Failure> {
        if !self.signed(subscriber) {
            Some(Failure::Abort)
        } else if plan_id >= self.plans.len() {
            Some(Failure::Contract(Error::NotFound))
        } else {
            self.admission_refusal(self.plan_terms(subscriber, plan_id))
        }
    }

    /// Why `authorizer` cannot move subscription `id` to status `target`.
    pub open spec fn move_refusal(
        self,
        id: u32,
        authorizer: Address,
        target: SubscriptionStatus,
    ) -> Option<Failure> {
        let subscription = self.subscriptions[id];
        if !self.signed(authorizer) {
            Some(Failure::Abort)
        } else if !self.subscriptions.contains_key(id) {
            Some(Failure::Contract(Error::NotFound))
        } else if authorizer != subscription.subscriber && authorizer != subscription.merchant {
            Some(Failure::Contract(Error::Forbidden))
        } else if !legal_move(subscription.status, target) {
            Some(Failure::Contract(Error::InvalidStatusTransition))
        } else if target == SubscriptionStatus::Active && is_underfunded(subscription) {
            Some(Failure::Contract(Error::InsufficientBalance))
        } else {
            None
        }
    }

    /// The event that tells of a move of subscription `id` to status `target`.
    pub open spec fn move_event(
        self,
        id: u32,
        authorizer: Address,
        target: SubscriptionStatus,
    ) -> Event {
        let subscription = self.subscriptions[id];
        if target == SubscriptionStatus::Paused {
            Event::SubscriptionPaused {
                subscription_id: id,
                subscriber: subscription.subscriber,
                merchant: subscription.merchant,
                authorizer,
                timestamp: self.timestamp,
            }
        } else if target == SubscriptionStatus::Active {
            Event::SubscriptionResumed {
                subscription_id: id,
                subscriber: subscription.subscriber,
                merchant: subscription.merchant,
                authorizer,
                timestamp: self.timestamp,
            }
        } else {
            Event::SubscriptionCancelled {
                subscription_id: id,
                subscriber: subscription.subscriber,
                merchant: subscription.merchant,
                token: subscription.token,
                authorizer,
                refund_amount: subscription.prepaid_balance,
                timestamp: self.timestamp,
            }
        }
    }

    /// The state with subscription `id` in status `target`. A subscription that is there already
    /// stays as it is, and nothing is published.
    pub open spec fn moved(
        self,
        id: u32,
        authorizer: Address,
        target: SubscriptionStatus,
    ) -> VaultState {
        let subscription = self.subscriptions[id];
        if subscription.status == target {
            self
        } else {
            self.with_subscription(
                id,
                Subscription { status: target, grace_start_timestamp: None, ..subscription },
            ).published(self.move_event(id, authorizer, target))
        }
    }

    /// Why a deposit is not taken. `wallet` is what the payer can pay in the token.
    pub open spec fn deposit_refusal(
        self,
        id: u32,
        payer: Address,
        amount: i128,
        wallet: i128,
    ) -> Option<Failure> {
        let subscription = self.subscriptions[id];
        if !self.signed(payer) {
            Some(Failure::Abort)
        } else if !self.subscriptions.contains_key(id) {
            Some(Failure::Contract(Error::NotFound))
        } else if amount <= 0 {
            Some(Failure::Contract(Error::InvalidAmount))
        } else if amount < self.config.min_topup {
            Some(Failure::Contract(Error::BelowMinimumTopup))
        } else if wallet < amount {
            Some(Failure::Token)
        } else if subscription.prepaid_balance + amount > i128::MAX {
            Some(Failure::Contract(Error::Overflow))
        } else {
            None
        }
    }

    /// Subscription `id` after a deposit: an underfunded subscription whose balance covers the next
    /// charge again is active again.
    pub open spec fn funded(self, id: u32, amount: i128) -> Subscription {
        let subscription = self.subscriptions[id];
        let balance = (subscription.prepaid_balance + amount) as i128;
        if is_waiting_for_funds(subscription) && balance >= subscription.amount {
            Subscription {
                prepaid_balance: balance,
                status: SubscriptionStatus::Active,
                grace_start_timestamp: None,
                ..subscription
            }
        } else {
            Subscription { prepaid_balance: balance, ..subscription }
        }
    }

    /// The state after a deposit.
    pub open spec fn deposited(self, id: u32, payer: Address, amount: i128) -> VaultState {
        let subscription = self.subscriptions[id];
        let funded = self.funded(id, amount);
        let paid = self.with_subscription(id, funded).published(
            Event::FundsDeposited {
                subscription_id: id,
                subscriber: payer,
                token: subscription.token,
                amount,
                new_balance: funded.prepaid_balance,
                timestamp: self.timestamp,
            },
        );
        if funded.status != subscription.status {
            paid.published(
                Event::SubscriptionRecoveryReady {
                    subscription_id: id,
                    subscriber: subscription.subscriber,
                    prepaid_balance: funded.prepaid_balance,
                    required_amount: subscription.amount,
                    timestamp: self.timestamp,
                },
            )
        } else {
            paid
        }
    }
}

/// A charge has failed, and only funds bring the subscription back.
pub open spec fn is_waiting_for_funds(subscription: Subscription) -> bool {
    subscription.status == SubscriptionStatus::InsufficientBalance || subscription.status
        == SubscriptionStatus::GracePeriod
}

/// Waiting for funds, with a balance that does not cover the next charge.
pub open spec fn is_underfunded(subscription: Subscription) -> bool {
    is_waiting_for_funds(subscription) && subscription.prepaid_balance < subscription.amount
}

/// Commitments are never negative, so exposure grows with the range it is taken over.
pub proof fn lemma_exposure_grows(
    state: VaultState,
    subscriber: Address,
    token: Address,
    a: nat,
    b: nat,
)
    requires
        state.wf(),
        a <= b <= u32::MAX,
    ensures
        0 <= exposure(state.subscriptions, subscriber, token, a) <= exposure(
            state.subscriptions,
            subscriber,
            token,
            b,
        ),
    decreases b,
{
    if a < b {
        lemma_exposure_grows(state, subscriber, token, a, (b - 1) as nat);
    } else if a > 0 {
        lemma_exposure_grows(state, subscriber, token, (a - 1) as nat, (a - 1) as nat);
    }
}

/// Replacing a stored subscription by a sound one keeps the vault well-formed.
pub proof fn lemma_store_keeps_wf(state: VaultState, id: u32, subscription: Subscription)
    requires
        state.wf(),
        sound(subscription),
    ensures
        state.with_subscription(id, subscription).wf(),
{
}

/// Taking a subscription on keeps the vault well-formed.
pub proof fn lemma_admitted_keeps_wf(state: VaultState, terms: SubscriptionTerms)
    requires
        state.wf(),
        state.admission_refusal(terms) is None,
    ensures
        state.admitted(terms).wf(),
{
    let after = state.admitted(terms);
    assert forall|owner: Address| #[trigger]
        listed(after.merchant_index, owner).len() <= u32::MAX by {
        assert(listed(state.merchant_index, owner).len() <= u32::MAX);
    }
    assert forall|owner: Address| #[trigger]
        listed(after.token_index, owner).len() <= u32::MAX by {
        assert(listed(state.token_index, owner).len() <= u32::MAX);
    }
    assert forall|owner: Address, i: int|
        0 <= i < listed(
            after.merchant_index,
            owner,
        ).len() implies after.subscriptions.contains_key(
        #[trigger] listed(after.merchant_index, owner)[i],
    ) by {
        if i < listed(state.merchant_index, owner).len() {
            assert(state.subscriptions.contains_key(listed(state.merchant_index, owner)[i]));
        }
    }
    assert forall|owner: Address, i: int|
        0 <= i < listed(after.token_index, owner).len() implies after.subscriptions.contains_key(
        #[trigger] listed(after.token_index, owner)[i],
    ) by {
        if i < listed(state.token_index, owner).len() {
            assert(state.subscriptions.contains_key(listed(state.token_index, owner)[i]));
        }
    }
}

impl SubscriptionVault {
    /// The stored subscription `id`.
    pub fn get_subscription(&self, id: u32) -> (reply: Reply<Subscription>)
        ensures
            reply == (if self@.subscriptions.contains_key(id) {
                Ok::<Subscription, Failure>(self@.subscriptions[id])
            } else {
                Err::<Subscription, Failure>(Failure::Contract(Error::NotFound))
            }),
    {
        match self.find(id) {
            Some(subscription) => Ok(subscription),
            None => Err(Failure::Contract(Error::NotFound)),
        }
    }

    /// Whether the commitments of a subscriber leave no room for `amount` more under `limit`.
    fn exceeds_limit(&self, subscriber: Address, token: Address, amount: i128, limit: i128) -> (exceeds:
        bool)
        requires
            self@.wf(),
            amount > 0,
        ensures
            exceeds == (exposure(self@.subscriptions, subscriber, token, self@.next_id as nat)
                + amount > limit),
    {
        let ghost state = self@;
        if amount > limit {
            proof {
                lemma_exposure_grows(state, subscriber, token, 0, state.next_id as nat);
            }
            return true;
        }
        let mut room: i128 = limit - amount;
        let mut id: u32 = 0;
        let end: u32 = self.next_id();
        while id < end
            invariant
                state == self@,
                state.wf(),
                0 <= room,
                id <= end == state.next_id,
                room == limit - amount - exposure(
                    state.subscriptions,
                    subscriber,
                    token,
                    id as nat,
                ),
            decreases end - id,
        {
            if let Some(subscription) = self.find(id) {
                if subscription.subscriber == subscriber && subscription.token == token
                    && subscription.status != SubscriptionStatus::Cancelled && subscription.status
                    != SubscriptionStatus::Expired && subscription.status
                    != SubscriptionStatus::Archived {
                    if subscription.amount > room {
                        proof {
                            lemma_exposure_grows(
                                state,
                                subscriber,
                                token,
                                (id + 1) as nat,
                                state.next_id as nat,
                            );
                        }
                        return true;
                    }
                    room = room - subscription.amount;
                }
            }
            id += 1;
        }
        false
    }

    /// Takes a subscription on.
    fn take_on(&mut self, terms: SubscriptionTerms) -> (reply: Reply<u32>)
        requires
            old(self)@.wf(),
        ensures
            settles(
                old(self)@,
                final(self)@,
                reply,
                old(self)@.admission_refusal(terms),
                old(self)@.next_id,
                old(self)@.admitted(terms),
            ),
            final(self)@.wf(),
    {
        if terms.amount <= 0 {
            return Err(Failure::Contract(Error::InvalidAmount));
        }
        if let Some(cap) = terms.lifetime_cap {
            if cap <= 0 {
                return Err(Failure::Contract(Error::InvalidAmount));
            }
        }
        if let Some(limit) = self.credit_limit(terms.subscriber, terms.token) {
            if limit > 0 {
                if self.next_id() > MAX_WRITE_PATH_SCAN_DEPTH {
                    return Err(Failure::Contract(Error::InvalidInput));
                }
                if self.exceeds_limit(terms.subscriber, terms.token, terms.amount, limit) {
                    return Err(Failure::Contract(Error::CreditLimitExceeded));
                }
            }
        }
        let id: u32 = self.next_id();
        proof {
            assert(listed(self@.merchant_index, terms.merchant).len() <= u32::MAX);
            assert(listed(self@.token_index, terms.token).len() <= u32::MAX);
        }
        if id == MAX_SUBSCRIPTION_ID || self.merchant_list_len(terms.merchant) == u32::MAX as usize
            || self.token_list_len(terms.token) == u32::MAX as usize {
            return Err(Failure::Contract(Error::SubscriptionLimitReached));
        }
        proof {
            lemma_admitted_keeps_wf(self@, terms);
        }
        let now: u64 = self.now();
        self.set_next_id(id + 1);
        self.store(
            id,
            Subscription {
                subscriber: terms.subscriber,
                merchant: terms.merchant,
                token: terms.token,
                amount: terms.amount,
                interval_seconds: terms.interval_seconds,
                last_payment_timestamp: now,
                status: SubscriptionStatus::Active,
                prepaid_balance: 0,
                usage_enabled: terms.usage_enabled,
                lifetime_cap: terms.lifetime_cap,
                lifetime_charged: 0,
                start_time: now,
                expires_at: terms.expires_at,
                grace_start_timestamp: None,
            },
        );
        self.list_subscription(terms.merchant, terms.token, id);
        self.publish(
            Event::SubscriptionCreated {
                subscription_id: id,
                subscriber: terms.subscriber,
                merchant: terms.merchant,
                token: terms.token,
                amount: terms.amount,
                interval_seconds: terms.interval_seconds,
                lifetime_cap: terms.lifetime_cap,
                expires_at: terms.expires_at,
                timestamp: now,
            },
        );
        Ok(id)
    }

    /// Creates a subscription that is settled in the token of the vault.
    pub fn create_subscription(
        &mut self,
        subscriber: Address,
        merchant: Address,
        amount: i128,
        interval_seconds: u64,
        usage_enabled: bool,
        lifetime_cap: Option<i128>,
        expires_at: Option<u64>,
    ) -> (reply: Reply<u32>)
        requires
            old(self)@.wf(),
        ensures
            ({
                let terms = SubscriptionTerms {
                    subscriber,
                    merchant,
                    token: old(self)@.config.token,
                    amount,
                    interval_seconds,
                    usage_enabled,
                    lifetime_cap,
                    expires_at,
                };
                settles(
                    old(self)@,
                    final(self)@,
                    reply,
                    old(self)@.create_refusal(terms),
                    old(self)@.next_id,
                    old(self)@.admitted(terms),
                )
            }),
            reply matches Ok(id) ==> {
                let made = final(self)@.subscriptions[id];
                &&& final(self)@.subscriptions.contains_key(id)
                &&& made.subscriber == subscriber
                &&& made.merchant == merchant
                &&& made.token == old(self)@.config.token
                &&& made.amount == amount
                &&& made.interval_seconds == interval_seconds
                &&& made.usage_enabled == usage_enabled
                &&& made.lifetime_cap == lifetime_cap
                &&& made.expires_at == expires_at
            },
            final(self)@.wf(),
    {
        if !self.has_signed(subscriber) {
            return Err(Failure::Abort);
        }
        let token = self.config().token;
        self.take_on(
            SubscriptionTerms {
                subscriber,
                merchant,
                token,
                amount,
                interval_seconds,
                usage_enabled,
                lifetime_cap,
                expires_at,
            },
        )
    }

    /// Offers a plan that is settled in the token of the vault.
    pub fn create_plan_template(
        &mut self,
        merchant: Address,
        amount: i128,
        interval_seconds: u64,
        usage_enabled: bool,
        lifetime_cap: Option<i128>,
    ) -> (reply: Reply<u32>)
        requires
            old(self)@.wf(),
        ensures
            ({
                let plan = PlanTemplate {
                    merchant,
                    token: old(self)@.config.token,
                    amount,
                    interval_seconds,
                    usage_enabled,
                    lifetime_cap,
                };
                settles(
                    old(self)@,
                    final(self)@,
                    reply,
                    old(self)@.plan_refusal(plan),
                    old(self)@.plans.len() as u32,
                    old(self)@.planned(plan),
                )
            }),
            reply matches Ok(plan_id) ==> {
                let offered = final(self)@.plans[plan_id as int];
                &&& plan_id == old(self)@.plans.len()
                &&& plan_id < final(self)@.plans.len()
                &&& offered.merchant == merchant
                &&& offered.token == old(self)@.config.token
                &&& offered.amount == amount
                &&& offered.interval_seconds == interval_seconds
                &&& offered.usage_enabled == usage_enabled
                &&& offered.lifetime_cap == lifetime_cap
            },
            final(self)@.wf(),
    {
        if !self.has_signed(merchant) {
            return Err(Failure::Abort);
        }
        if amount <= 0 {
            return Err(Failure::Contract(Error::InvalidAmount));
        }
        if let Some(cap) = lifetime_cap {
            if cap <= 0 {
                return Err(Failure::Contract(Error::InvalidAmount));
            }
        }
        let count: usize = self.plan_count();
        if count >= MAX_SUBSCRIPTION_ID as usize {
            return Err(Failure::Contract(Error::SubscriptionLimitReached));
        }
        let token = self.config().token;
        let timestamp: u64 = self.now();
        self.add_plan(
            PlanTemplate { merchant, token, amount, interval_seconds, usage_enabled, lifetime_cap },
        );
        self.publish(
            Event::PlanTemplateCreated {
                plan_template_id: count as u32,
                merchant,
                token,
                amount,
                interval_seconds,
                usage_enabled,
                lifetime_cap,
                timestamp,
            },
        );
        Ok(count as u32)
    }

    /// Creates a subscription on the terms of a plan.
    pub fn create_subscription_from_plan(&mut self, subscriber: Address, plan_id: u32) -> (reply:
        Reply<u32>)
        requires
            old(self)@.wf(),
        ensures
            settles(
                old(self)@,
                final(self)@,
                reply,
                old(self)@.subscribe_refusal(subscriber, plan_id),
                old(self)@.next_id,
                old(self)@.admitted(old(self)@.plan_terms(subscriber, plan_id)),
            ),
            reply matches Ok(id) ==> {
                let plan = old(self)@.plans[plan_id as int];
                let made = final(self)@.subscriptions[id];
                &&& plan_id < old(self)@.plans.len()
                &&& final(self)@.subscriptions.contains_key(id)
                &&& made.subscriber == subscriber
                &&& made.merchant == plan.merchant
                &&& made.token == plan.token
                &&& made.amount == plan.amount
                &&& made.interval_seconds == plan.interval_seconds
                &&& made.usage_enabled == plan.usage_enabled
                &&& made.lifetime_cap == plan.lifetime_cap
            },
            final(self)@.wf(),
    {
        if !self.has_signed(subscriber) {
            return Err(Failure::Abort);
        }
        if plan_id as usize >= self.plan_count() {
            return Err(Failure::Contract(Error::NotFound));
        }
        let plan = self.plan(plan_id as usize);
        self.take_on(
            SubscriptionTerms {
                subscriber,
                merchant: plan.merchant,
                token: plan.token,
                amount: plan.amount,
                interval_seconds: plan.interval_seconds,
                usage_enabled: plan.usage_enabled,
                lifetime_cap: plan.lifetime_cap,
                expires_at: None,
            },
        )
    }

    /// Moves a subscription to a status that one of its parties asks for.
    fn move_subscription(&mut self, id: u32, authorizer: Address, target: SubscriptionStatus) -> (reply:
        Reply<()>)
        requires
            old(self)@.wf(),
            target == SubscriptionStatus::Paused || target == SubscriptionStatus::Active || target
                == SubscriptionStatus::Cancelled,
        ensures
            settles(
                old(self)@,
                final(self)@,
                reply,
                old(self)@.move_refusal(id, authorizer, target),
                (),
                old(self)@.moved(id, authorizer, target),
            ),
            final(self)@.wf(),
    {
        if !self.has_signed(authorizer) {
            return Err(Failure::Abort);
        }
        let subscription = match self.find(id) {
            Some(subscription) => subscription,
            None => return Err(Failure::Contract(Error::NotFound)),
        };
        if authorizer != subscription.subscriber && authorizer != subscription.merchant {
            return Err(Failure::Contract(Error::Forbidden));
        }
        if !can_transition(&subscription.status, &target) {
            return Err(Failure::Contract(Error::InvalidStatusTransition));
        }
        if target == SubscriptionStatus::Active && (subscription.status
            == SubscriptionStatus::InsufficientBalance || subscription.status
            == SubscriptionStatus::GracePeriod) && subscription.prepaid_balance
            < subscription.amount {
            return Err(Failure::Contract(Error::InsufficientBalance));
        }
        if subscription.status == target {
            return Ok(());
        }
        let timestamp: u64 = self.now();
        let changed = Subscription { status: target, grace_start_timestamp: None, ..subscription };
        proof {
            lemma_store_keeps_wf(self@, id, changed);
        }
        self.store(id, changed);
        match target {
            SubscriptionStatus::Paused => self.publish(
                Event::SubscriptionPaused {
                    subscription_id: id,
                    subscriber: subscription.subscriber,
                    merchant: subscription.merchant,
                    authorizer,
                    timestamp,
                },
            ),
            SubscriptionStatus::Active => self.publish(
                Event::SubscriptionResumed {
                    subscription_id: id,
                    subscriber: subscription.subscriber,
                    merchant: subscription.merchant,
                    authorizer,
                    timestamp,
                },
            ),
            _ => self.publish(
                Event::SubscriptionCancelled {
                    subscription_id: id,
                    subscriber: subscription.subscriber,
                    merchant: subscription.merchant,
                    token: subscription.token,
                    authorizer,
                    refund_amount: subscription.prepaid_balance,
                    timestamp,
                },
            ),
        }
        Ok(())
    }

    /// Pauses a subscription on behalf of its subscriber or its merchant.
    pub fn pause_subscription(&mut self, id: u32, authorizer: Address) -> (reply: Reply<()>)
        requires
            old(self)@.wf(),
        ensures
            settles(
                old(self)@,
                final(self)@,
                reply,
                old(self)@.move_refusal(id, authorizer, SubscriptionStatus::Paused),
                (),
                old(self)@.moved(id, authorizer, SubscriptionStatus::Paused),
            ),
            final(self)@.wf(),
    {
        self.move_subscription(id, authorizer, SubscriptionStatus::Paused)
    }

    /// Resumes a subscription on behalf of its subscriber or its merchant.
    pub fn resume_subscription(&mut self, id: u32, authorizer: Address) -> (reply: Reply<()>)
        requires
            old(self)@.wf(),
        ensures
            settles(
                old(self)@,
                final(self)@,
                reply,
                old(self)@.move_refusal(id, authorizer, SubscriptionStatus::Active),
                (),
                old(self)@.moved(id, authorizer, SubscriptionStatus::Active),
            ),
            final(self)@.wf(),
    {
        self.move_subscription(id, authorizer, SubscriptionStatus::Active)
    }

    /// Cancels a subscription on behalf of its subscriber or its merchant.
    pub fn cancel_subscription(&mut self, id: u32, authorizer: Address) -> (reply: Reply<()>)
        requires
            old(self)@.wf(),
        ensures
            settles(
                old(self)@,
                final(self)@,
                reply,
                old(self)@.move_refusal(id, authorizer, SubscriptionStatus::Cancelled),
                (),
                old(self)@.moved(id, authorizer, SubscriptionStatus::Cancelled),
            ),
            final(self)@.wf(),
    {
        self.move_subscription(id, authorizer, SubscriptionStatus::Cancelled)
    }

    /// Why a deposit would be refused, if so.
    pub fn check_deposit(&self, id: u32, subscriber: Address, amount: i128, wallet: i128) -> (refusal:
        Option<Failure>)
        ensures
            refusal == self@.deposit_refusal(id, subscriber, amount, wallet),
            self@.signers.covers(subscriber) && self@.subscriptions.contains_key(id) && 0 < amount
                < self@.config.min_topup ==> refusal == Some(
                Failure::Contract(Error::BelowMinimumTopup),
            ),
            refusal is None ==> 0 < amount <= wallet && self@.config.min_topup <= amount,
    {
        if !self.has_signed(subscriber) {
            return Some(Failure::Abort);
        }
        let subscription = match self.find(id) {
            Some(subscription) => subscription,
            None => return Some(Failure::Contract(Error::NotFound)),
        };
        if amount <= 0 {
            return Some(Failure::Contract(Error::InvalidAmount));
        }
        if amount < self.config().min_topup {
            return Some(Failure::Contract(Error::BelowMinimumTopup));
        }
        if wallet < amount {
            return Some(Failure::Token);
        }
        match subscription.prepaid_balance.checked_add(amount) {
            Some(_) => None,
            None => Some(Failure::Contract(Error::Overflow)),
        }
    }

    /// Adds funds to a subscription. Anyone may pay; `wallet` is what the payer can pay in the
    /// token of the subscription.
    pub fn deposit_funds(&mut self, id: u32, subscriber: Address, amount: i128, wallet: i128) -> (reply:
        Reply<()>)
        requires
            old(self)@.wf(),
        ensures
            settles(
                old(self)@,
                final(self)@,
                reply,
                old(self)@.deposit_refusal(id, subscriber, amount, wallet),
                (),
                old(self)@.deposited(id, subscriber, amount),
            ),
            reply is Ok ==> {
                &&& 0 < amount <= wallet
                &&& old(self)@.config.min_topup <= amount
                &&& final(self)@.subscriptions[id].prepaid_balance == old(
                    self,
                )@.subscriptions[id].prepaid_balance + amount
            },
            final(self)@.wf(),
    {
        if let Some(failure) = self.check_deposit(id, subscriber, amount, wallet) {
            return Err(failure);
        }
        let subscription = match self.find(id) {
            Some(subscription) => subscription,
            None => return Err(Failure::Contract(Error::NotFound)),
        };
        let balance: i128 = subscription.prepaid_balance + amount;
        let timestamp: u64 = self.now();
        let recovered = (subscription.status == SubscriptionStatus::InsufficientBalance
            || subscription.status == SubscriptionStatus::GracePeriod) && balance
            >= subscription.amount;
        let funded = if recovered {
            Subscription {
                prepaid_balance: balance,
                status: SubscriptionStatus::Active,
                grace_start_timestamp: None,
                ..subscription
            }
        } else {
            Subscription { prepaid_balance: balance, ..subscription }
        };
        proof {
            lemma_store_keeps_wf(self@, id, funded);
        }
        self.store(id, funded);
        self.publish(
            Event::FundsDeposited {
                subscription_id: id,
                subscriber,
                token: subscription.token,
                amount,
                new_balance: balance,
                timestamp,
            },
        );
        if recovered {
            self.publish(
                Event::SubscriptionRecoveryReady {
                    subscription_id: id,
                    subscriber: subscription.subscriber,
                    prepaid_balance: balance,
                    required_amount: subscription.amount,
                    timestamp,
                },
            );
        }
        Ok(())
    }
}

} // verus!
