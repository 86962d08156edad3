//! How subscriptions and plans come about, are moved and are funded, told by what stands in the vault
//! before and after.
use crate::address::Address;
use crate::charging::turned_down;
use crate::error::{Error, Failure};
use crate::events::Event;
use crate::host::{as_numbers, host_items};
use crate::laws::{law_every_history_goes_on, law_every_request_goes_on};
use crate::lifecycle::{exposure, SubscriptionTerms};
use crate::requests::{Call, Request};
use crate::status::SubscriptionStatus;
use crate::types::{PlanTemplate, Subscription, MAX_WRITE_PATH_SCAN_DEPTH};
use crate::vault::{initial_state, VaultState};
use vstd::prelude::*;

verus! {

/// The identifiers that an index lists under an account, oldest first.
pub open spec fn ids_under(index: Map<Address, Seq<u32>>, owner: Address) -> Seq<u32> {
    if index.contains_key(owner) {
        index[owner]
    } else {
        Seq::empty()
    }
}

/// Why a vault does not take a subscription on, once it is signed for.
pub open spec fn admission_is_answered(
    state: VaultState,
    agreed: SubscriptionTerms,
    answer: Option<Failure>,
) -> bool {
    let holder = (agreed.subscriber, agreed.token);
    let limited = state.credit_limits.contains_key(holder) && 0 < state.credit_limits[holder];
    let priced = 0 < agreed.amount && (agreed.lifetime_cap matches Some(cap) ==> 0 < cap);
    let in_reach = !limited || state.next_id <= MAX_WRITE_PATH_SCAN_DEPTH;
    let committed = exposure(
        state.subscriptions,
        agreed.subscriber,
        agreed.token,
        state.next_id as nat,
    );
    let affordable = !limited || committed + agreed.amount <= state.credit_limits[holder];
    let countable = state.next_id < u32::MAX && ids_under(
        state.merchant_index,
        agreed.merchant,
    ).len() != u32::MAX && ids_under(state.token_index, agreed.token).len() != u32::MAX;
    &&& answer == turned_down(Error::InvalidAmount) <==> !priced
    &&& answer == turned_down(Error::InvalidInput) <==> priced && !in_reach
    &&& answer == turned_down(Error::CreditLimitExceeded) <==> priced && in_reach && !affordable
    &&& answer == turned_down(Error::SubscriptionLimitReached) <==> priced && in_reach && affordable
        && !countable
    &&& answer is None <==> priced && in_reach && affordable && countable
}

/// From `before` to `after`, one subscription on the terms `agreed` is added: active, without funds,
/// starting now, listed last under its merchant and under its token, and published. Nothing else
/// changes.
pub open spec fn adds_subscription(
    before: VaultState,
    after: VaultState,
    agreed: SubscriptionTerms,
) -> bool {
    let id = before.next_id;
    let added = after.subscriptions[id];
    &&& after.next_id == id + 1
    &&& after.subscriptions == before.subscriptions.insert(id, added)
    &&& added.subscriber == agreed.subscriber
    &&& added.merchant == agreed.merchant
    &&& added.token == agreed.token
    &&& added.amount == agreed.amount
    &&& added.interval_seconds == agreed.interval_seconds
    &&& added.usage_enabled == agreed.usage_enabled
    &&& added.lifetime_cap == agreed.lifetime_cap
    &&& added.expires_at == agreed.expires_at
    &&& added.status == SubscriptionStatus::Active
    &&& added.prepaid_balance == 0
    &&& added.lifetime_charged == 0
    &&& added.start_time == before.timestamp
    &&& added.last_payment_timestamp == before.timestamp
    &&& added.grace_start_timestamp is None
    &&& after.merchant_index == before.merchant_index.insert(
        agreed.merchant,
        ids_under(before.merchant_index, agreed.merchant).push(id),
    )
    &&& after.token_index == before.token_index.insert(
        agreed.token,
        ids_under(before.token_index, agreed.token).push(id),
    )
    &&& after.events == before.events.push(
        Event::SubscriptionCreated {
            subscription_id: id,
            subscriber: agreed.subscriber,
            merchant: agreed.merchant,
            token: agreed.token,
            amount: agreed.amount,
            interval_seconds: agreed.interval_seconds,
            lifetime_cap: agreed.lifetime_cap,
            expires_at: agreed.expires_at,
            timestamp: before.timestamp,
        },
    )
    &&& after == (VaultState {
        next_id: after.next_id,
        subscriptions: after.subscriptions,
        merchant_index: after.merchant_index,
        token_index: after.token_index,
        events: after.events,
        ..before
    })
}

/// A subscription is created on the terms that were asked for, in the token of the vault, and is
/// turned down for a reason.
pub proof fn law_creation_does_what_it_says(state: VaultState, terms: SubscriptionTerms)
    ensures
        ({
            let request = Request::CreateSubscription { terms };
            let agreed = SubscriptionTerms { token: state.config.token, ..terms };
            let signed = state.signers.covers(terms.subscriber);
            &&& !signed ==> state.refusal(request) == Some(Failure::Abort)
            &&& signed ==> admission_is_answered(state, agreed, state.refusal(request))
            &&& state.refusal(request) is None ==> adds_subscription(
                state,
                state.after(request),
                agreed,
            )
        }),
{
}

/// A plan is offered by its merchant, in the token of the vault, under the next free number; it is
/// turned down for a reason.
pub proof fn law_plans_are_offered_as_they_are_asked_for(state: VaultState, plan: PlanTemplate)
    ensures
        ({
            let request = Request::CreatePlanTemplate { plan };
            let after = state.after(request);
            let signed = state.signers.covers(plan.merchant);
            let priced = 0 < plan.amount && (plan.lifetime_cap matches Some(cap) ==> 0 < cap);
            let countable = state.plans.len() < u32::MAX;
            let refusal = state.refusal(request);
            let number = state.plans.len() as int;
            &&& refusal == Some(Failure::Abort) <==> !signed
            &&& refusal == turned_down(Error::InvalidAmount) <==> signed && !priced
            &&& refusal == turned_down(Error::SubscriptionLimitReached) <==> signed && priced
                && !countable
            &&& refusal is None <==> signed && priced && countable
            &&& refusal is None ==> {
                &&& after.plans.len() == number + 1
                &&& after.plans.take(number) == state.plans
                &&& after.plans[number].merchant == plan.merchant
                &&& after.plans[number].token == state.config.token
                &&& after.plans[number].amount == plan.amount
                &&& after.plans[number].interval_seconds == plan.interval_seconds
                &&& after.plans[number].usage_enabled == plan.usage_enabled
                &&& after.plans[number].lifetime_cap == plan.lifetime_cap
                &&& after.events == state.events.push(
                    Event::PlanTemplateCreated {
                        plan_template_id: number as u32,
                        merchant: plan.merchant,
                        token: state.config.token,
                        amount: plan.amount,
                        interval_seconds: plan.interval_seconds,
                        usage_enabled: plan.usage_enabled,
                        lifetime_cap: plan.lifetime_cap,
                        timestamp: state.timestamp,
                    },
                )
                &&& after == (VaultState { plans: after.plans, events: after.events, ..state })
            }
        }),
{
    let after = state.after(Request::CreatePlanTemplate { plan });
    if state.refusal(Request::CreatePlanTemplate { plan }) is None {
        assert(after.plans.take(state.plans.len() as int) =~= state.plans);
    }
}

/// A subscription to a plan is made on the terms of that plan, without an end, and is turned down for
/// a reason.
pub proof fn law_subscribing_does_what_it_says(state: VaultState, subscriber: Address, plan_id: u32)
    ensures
        ({
            let request = Request::CreateSubscriptionFromPlan { subscriber, plan_id };
            let agreed = SubscriptionTerms {
                subscriber,
                merchant: state.plans[plan_id as int].merchant,
                token: state.plans[plan_id as int].token,
                amount: state.plans[plan_id as int].amount,
                interval_seconds: state.plans[plan_id as int].interval_seconds,
                usage_enabled: state.plans[plan_id as int].usage_enabled,
                lifetime_cap: state.plans[plan_id as int].lifetime_cap,
                expires_at: None,
            };
            let signed = state.signers.covers(subscriber);
            let offered = plan_id < state.plans.len();
            &&& !signed ==> state.refusal(request) == Some(Failure::Abort)
            &&& signed && !offered ==> state.refusal(request) == turned_down(Error::NotFound)
            &&& signed && offered ==> admission_is_answered(state, agreed, state.refusal(request))
            &&& state.refusal(request) is None ==> adds_subscription(
                state,
                state.after(request),
                agreed,
            )
        }),
{
}

/// A batch of charges leaves the plans, the lists and the identifiers in use as they are.
proof fn lemma_batches_keep_the_books(state: VaultState, ids: Seq<u32>)
    requires
        state.wf(),
        state.counter_is_ahead(),
    ensures
        state.all_attempted(ids).plans == state.plans,
        state.all_attempted(ids).merchant_index == state.merchant_index,
        state.all_attempted(ids).token_index == state.token_index,
        state.all_attempted(ids).subscriptions.dom() == state.subscriptions.dom(),
        state.all_attempted(ids).next_id == state.next_id,
    decreases ids.len(),
{
    if ids.len() > 0 {
        lemma_batches_keep_the_books(state, ids.drop_last());
        let earlier = state.all_attempted(ids.drop_last());
        assert(earlier.attempted(ids.last()).subscriptions.dom() =~= earlier.subscriptions.dom());
    }
}

/// Plans are only ever added, whatever is asked.
proof fn lemma_plans_stay(state: VaultState, request: Request)
    requires
        state.wf(),
        state.counter_is_ahead(),
    ensures
        state.plans.is_prefix_of(state.after(request).plans),
{
    let after = state.after(request);
    match request {
        Request::CreatePlanTemplate { plan } => {
            law_plans_are_offered_as_they_are_asked_for(state, plan);
        },
        Request::ChargeSubscription { id } => {
            assert(after == state.attempted(id));
            assert(after.plans == state.plans);
        },
        Request::BatchCharge { ids } => {
            lemma_batches_keep_the_books(state, as_numbers(host_items(ids)));
        },
        _ => {
            assert(after.plans == state.plans);
        },
    }
}

/// Plans are only ever added, whatever is asked over time.
proof fn lemma_plans_stay_over_time(state: VaultState, calls: Seq<Call>)
    requires
        state.wf(),
        state.counter_is_ahead(),
    ensures
        state.plans.is_prefix_of(state.after_all(calls).plans),
    decreases calls.len(),
{
    if calls.len() > 0 {
        let earlier = state.after_all(calls.drop_last());
        lemma_plans_stay_over_time(state, calls.drop_last());
        law_every_history_goes_on(state, calls.drop_last());
        lemma_plans_stay(earlier.at(calls.last()), calls.last().request);
        let later = state.after_all(calls);
        assert forall|i: int| 0 <= i < state.plans.len() implies state.plans[i] == later.plans[i] by {
            assert(state.plans[i] == earlier.plans[i]);
        }
    }
}

/// A plan keeps its terms: whatever is asked in between, and whatever other plans are offered, a
/// subscription made from the plan carries the merchant, the amount, the interval, the usage flag and
/// the cap with which the plan was offered.
pub proof fn law_plans_keep_their_terms(
    state: VaultState,
    plan: PlanTemplate,
    between: Seq<Call>,
    later: Call,
    subscriber: Address,
)
    requires
        state.wf(),
        state.counter_is_ahead(),
        state.refusal(Request::CreatePlanTemplate { plan }) is None,
        later.request == (Request::CreateSubscriptionFromPlan {
            subscriber,
            plan_id: state.plans.len() as u32,
        }),
        state.after(Request::CreatePlanTemplate { plan }).after_all(between).at(later).refusal(
            later.request,
        ) is None,
    ensures
        ({
            let asked = state.after(Request::CreatePlanTemplate { plan }).after_all(between).at(later);
            let made = asked.after(later.request).subscriptions[asked.next_id];
            &&& asked.after(later.request).subscriptions.contains_key(asked.next_id)
            &&& !asked.subscriptions.contains_key(asked.next_id)
            &&& made.subscriber == subscriber
            &&& made.merchant == plan.merchant
            &&& made.amount == plan.amount
            &&& made.interval_seconds == plan.interval_seconds
            &&& made.usage_enabled == plan.usage_enabled
            &&& made.lifetime_cap == plan.lifetime_cap
            &&& made.token == state.config.token
            &&& made.start_time == later.timestamp
        }),
{
    let offered = state.after(Request::CreatePlanTemplate { plan });
    law_plans_are_offered_as_they_are_asked_for(state, plan);
    law_every_request_goes_on(state, Request::CreatePlanTemplate { plan });
    law_every_history_goes_on(offered, between);
    lemma_plans_stay_over_time(offered, between);
    let asked = offered.after_all(between).at(later);
    assert(offered.plans[state.plans.len() as int] == asked.plans[state.plans.len() as int]);
    law_subscribing_does_what_it_says(asked, subscriber, state.plans.len() as u32);
}

/// What a stored subscription adds to the commitments of a subscriber in a token: its amount, unless
/// it has ended.
pub open spec fn adds_commitment(
    subscription: Subscription,
    subscriber: Address,
    token: Address,
) -> int {
    if subscription.subscriber == subscriber && subscription.token == token && subscription.status
        != SubscriptionStatus::Cancelled && subscription.status != SubscriptionStatus::Expired
        && subscription.status != SubscriptionStatus::Archived {
        subscription.amount as int
    } else {
        0
    }
}

/// Commitments add up: without subscriptions there are none, and every subscription that is stored, or
/// stored anew, counts with its amount as long as it has not ended.
pub proof fn law_commitments_add_up(
    subscriptions: Map<u32, Subscription>,
    id: u32,
    next: Subscription,
    subscriber: Address,
    token: Address,
    end: nat,
)
    requires
        end <= u32::MAX,
    ensures
        exposure(Map::<u32, Subscription>::empty(), subscriber, token, end) == 0,
        exposure(subscriptions.insert(id, next), subscriber, token, end) == exposure(
            subscriptions,
            subscriber,
            token,
            end,
        ) + if id < end {
            adds_commitment(next, subscriber, token) - if subscriptions.contains_key(id) {
                adds_commitment(subscriptions[id], subscriber, token)
            } else {
                0
            }
        } else {
            0
        },
    decreases end,
{
    if end > 0 {
        law_commitments_add_up(subscriptions, id, next, subscriber, token, (end - 1) as nat);
    }
}

/// A subscriber with a credit limit never commits to more than it by a new subscription, and cancelling
/// a subscription gives the room back.
pub proof fn law_credit_limits_hold(state: VaultState, terms: SubscriptionTerms, limit: i128)
    requires
        state.wf(),
        state.counter_is_ahead(),
        state.refusal(Request::CreateSubscription { terms }) is None,
        state.credit_limits.contains_key((terms.subscriber, state.config.token)),
        state.credit_limits[(terms.subscriber, state.config.token)] == limit,
        limit > 0,
    ensures
        ({
            let after = state.after(Request::CreateSubscription { terms });
            let committed = exposure(
                state.subscriptions,
                terms.subscriber,
                state.config.token,
                state.next_id as nat,
            );
            &&& exposure(
                after.subscriptions,
                terms.subscriber,
                state.config.token,
                after.next_id as nat,
            ) == committed + terms.amount
            &&& committed + terms.amount <= limit
            &&& exposure(
                after.after(
                    Request::CancelSubscription { id: state.next_id, authorizer: terms.subscriber },
                ).subscriptions,
                terms.subscriber,
                state.config.token,
                after.next_id as nat,
            ) == committed
        }),
{
    let after = state.after(Request::CreateSubscription { terms });
    let added = after.subscriptions[state.next_id];
    let id = state.next_id;
    let end = after.next_id as nat;
    let cancelled = after.after(
        Request::CancelSubscription { id, authorizer: terms.subscriber },
    );
    law_creation_does_what_it_says(state, terms);
    law_moves_do_what_they_say(after, id, terms.subscriber);
    law_commitments_add_up(
        state.subscriptions,
        id,
        added,
        terms.subscriber,
        state.config.token,
        end,
    );
    law_commitments_add_up(
        after.subscriptions,
        id,
        cancelled.subscriptions[id],
        terms.subscriber,
        state.config.token,
        end,
    );
    assert(!state.subscriptions.contains_key(id));
}

/// From `before` to `after`, a party moves subscription `id` to another status: the subscription stays
/// as it is but for the status and the start of a grace period, and `told` is published. A subscription
/// that is there already stays as it is, and nothing is published.
pub open spec fn moves_subscription(
    before: VaultState,
    after: VaultState,
    id: u32,
    target: SubscriptionStatus,
    told: Event,
) -> bool {
    if before.subscriptions[id].status == target {
        after == before
    } else {
        after == (VaultState {
            subscriptions: before.subscriptions.insert(
                id,
                Subscription {
                    status: target,
                    grace_start_timestamp: None,
                    ..before.subscriptions[id]
                },
            ),
            events: before.events.push(told),
            ..before
        })
    }
}

/// Pausing takes an active subscription, resuming one that is paused or waits for funds that are there
/// by now, and cancelling any that has not run out. They take one of the parties; and to ask for the
/// status that a subscription is in is no fault.
pub proof fn law_moves_do_what_they_say(state: VaultState, id: u32, authorizer: Address)
    ensures
        ({
            let pause = Request::PauseSubscription { id, authorizer };
            let resume = Request::ResumeSubscription { id, authorizer };
            let cancel = Request::CancelSubscription { id, authorizer };
            let subscription = state.subscriptions[id];
            let status = subscription.status;
            let signed = state.signers.covers(authorizer);
            let stored = signed && state.subscriptions.contains_key(id);
            let party = stored && (authorizer == subscription.subscriber || authorizer
                == subscription.merchant);
            let waits = status == SubscriptionStatus::InsufficientBalance || status
                == SubscriptionStatus::GracePeriod;
            let can_pause = status == SubscriptionStatus::Active || status
                == SubscriptionStatus::Paused;
            let can_resume = can_pause || waits;
            let can_cancel = can_resume || status == SubscriptionStatus::Cancelled;
            let funded = subscription.amount <= subscription.prepaid_balance;
            let (p, r, c) = (state.refusal(pause), state.refusal(resume), state.refusal(cancel));
            &&& !signed ==> p == Some(Failure::Abort) && r == Some(Failure::Abort) && c == Some(
                Failure::Abort,
            )
            &&& signed && !stored ==> p == turned_down(Error::NotFound) && r == turned_down(
                Error::NotFound,
            ) && c == turned_down(Error::NotFound)
            &&& stored && !party ==> p == turned_down(Error::Forbidden) && r == turned_down(
                Error::Forbidden,
            ) && c == turned_down(Error::Forbidden)
            &&& party && !can_pause ==> p == turned_down(Error::InvalidStatusTransition)
            &&& party && !can_resume ==> r == turned_down(Error::InvalidStatusTransition)
            &&& party && waits && !funded ==> r == turned_down(Error::InsufficientBalance)
            &&& party && !can_cancel ==> c == turned_down(Error::InvalidStatusTransition)
            &&& p is None <==> party && can_pause
            &&& r is None <==> party && can_resume && (waits ==> funded)
            &&& c is None <==> party && can_cancel
            &&& p is None ==> moves_subscription(
                state,
                state.after(pause),
                id,
                SubscriptionStatus::Paused,
                Event::SubscriptionPaused {
                    subscription_id: id,
                    subscriber: subscription.subscriber,
                    merchant: subscription.merchant,
                    authorizer,
                    timestamp: state.timestamp,
                },
            )
            &&& r is None ==> moves_subscription(
                state,
                state.after(resume),
                id,
                SubscriptionStatus::Active,
                Event::SubscriptionResumed {
                    subscription_id: id,
                    subscriber: subscription.subscriber,
                    merchant: subscription.merchant,
                    authorizer,
                    timestamp: state.timestamp,
                },
            )
            &&& c is None ==> moves_subscription(
                state,
                state.after(cancel),
                id,
                SubscriptionStatus::Cancelled,
                Event::SubscriptionCancelled {
                    subscription_id: id,
                    subscriber: subscription.subscriber,
                    merchant: subscription.merchant,
                    token: subscription.token,
                    authorizer,
                    refund_amount: subscription.prepaid_balance,
                    timestamp: state.timestamp,
                },
            )
        }),
{
}

/// Why a deposit is turned down. A deposit has to reach the smallest deposit by itself, whatever the
/// subscription holds, and the payer has to be able to pay it.
pub proof fn law_deposits_are_turned_down_for_a_reason(
    state: VaultState,
    id: u32,
    payer: Address,
    amount: i128,
    wallet: i128,
)
    ensures
        ({
            let refusal = state.refusal(Request::DepositFunds { id, payer, amount, wallet });
            let signed = state.signers.covers(payer);
            let stored = signed && state.subscriptions.contains_key(id);
            let positive = stored && 0 < amount;
            let large = positive && state.config.min_topup <= amount;
            let payable = large && amount <= wallet;
            let room = state.subscriptions[id].prepaid_balance + amount <= i128::MAX;
            &&& refusal == Some(Failure::Abort) <==> !signed
            &&& refusal == turned_down(Error::NotFound) <==> signed && !stored
            &&& refusal == turned_down(Error::InvalidAmount) <==> stored && !positive
            &&& refusal == turned_down(Error::BelowMinimumTopup) <==> positive && !large
            &&& refusal == Some(Failure::Token) <==> large && !payable
            &&& refusal == turned_down(Error::Overflow) <==> payable && !room
            &&& refusal is None <==> payable && room
        }),
{
}

/// A positive deposit below the smallest deposit is turned down as such, however much or little the
/// subscription holds, whoever pays, and whatever can be paid; and it changes nothing.
pub proof fn law_small_deposits_are_turned_down(
    state: VaultState,
    id: u32,
    payer: Address,
    amount: i128,
    wallet: i128,
    balance: i128,
)
    requires
        state.subscriptions.contains_key(id),
        state.signers.covers(payer),
        0 < amount < state.config.min_topup,
    ensures
        ({
            let deposit = Request::DepositFunds { id, payer, amount, wallet };
            let other = VaultState {
                subscriptions: state.subscriptions.insert(
                    id,
                    Subscription { prepaid_balance: balance, ..state.subscriptions[id] },
                ),
                ..state
            };
            &&& state.refusal(deposit) == turned_down(Error::BelowMinimumTopup)
            &&& other.refusal(deposit) == turned_down(Error::BelowMinimumTopup)
            &&& state.after(deposit) == state
        }),
{
}

/// A deposit adds its amount to the balance of the subscription. One that waited for funds and now has
/// what the next charge takes is active again, and that is published after the deposit. Nothing else
/// changes.
pub proof fn law_deposits_do_what_they_say(
    state: VaultState,
    id: u32,
    payer: Address,
    amount: i128,
    wallet: i128,
)
    requires
        state.refusal(Request::DepositFunds { id, payer, amount, wallet }) is None,
    ensures
        ({
            let before = state.subscriptions[id];
            let after = state.after(Request::DepositFunds { id, payer, amount, wallet });
            let now = after.subscriptions[id];
            let back = (before.status == SubscriptionStatus::InsufficientBalance || before.status
                == SubscriptionStatus::GracePeriod) && before.amount <= before.prepaid_balance
                + amount;
            &&& now.prepaid_balance == before.prepaid_balance + amount
            &&& now == (Subscription {
                prepaid_balance: now.prepaid_balance,
                status: if back {
                    SubscriptionStatus::Active
                } else {
                    before.status
                },
                grace_start_timestamp: if back {
                    None
                } else {
                    before.grace_start_timestamp
                },
                ..before
            })
            &&& after.subscriptions == state.subscriptions.insert(id, now)
            &&& after.events == state.events + seq![
                Event::FundsDeposited {
                    subscription_id: id,
                    subscriber: payer,
                    token: before.token,
                    amount,
                    new_balance: now.prepaid_balance,
                    timestamp: state.timestamp,
                },
            ] + (if back {
                seq![
                    Event::SubscriptionRecoveryReady {
                        subscription_id: id,
                        subscriber: before.subscriber,
                        prepaid_balance: now.prepaid_balance,
                        required_amount: before.amount,
                        timestamp: state.timestamp,
                    },
                ]
            } else {
                seq![]
            })
            &&& after == (VaultState {
                subscriptions: after.subscriptions,
                events: after.events,
                ..state
            })
        }),
{
    let after = state.after(Request::DepositFunds { id, payer, amount, wallet });
    assert(after.events =~= state.events + after.events.skip(state.events.len() as int));
}

/// Every list of an index is in ascending order, and names exactly the stored subscriptions that
/// belong under its account.
pub open spec fn lists_exactly(
    subscriptions: Map<u32, Subscription>,
    index: Map<Address, Seq<u32>>,
    owner_of: spec_fn(Subscription) -> Address,
) -> bool {
    &&& forall|owner: Address, i: int|
        0 <= i < ids_under(index, owner).len() ==> subscriptions.contains_key(
            #[trigger] ids_under(index, owner)[i],
        ) && owner_of(subscriptions[ids_under(index, owner)[i]]) == owner
    &&& forall|owner: Address, i: int, j: int|
        0 <= i < j < ids_under(index, owner).len() ==> #[trigger] ids_under(index, owner)[i]
            < #[trigger] ids_under(index, owner)[j]
    &&& forall|id: u32| #[trigger]
        subscriptions.contains_key(id) ==> ids_under(index, owner_of(subscriptions[id])).contains(id)
}

/// Both indexes list the subscriptions exactly.
pub open spec fn indexes_are_exact(state: VaultState) -> bool {
    &&& lists_exactly(
        state.subscriptions,
        state.merchant_index,
        |subscription: Subscription| subscription.merchant,
    )
    &&& lists_exactly(
        state.subscriptions,
        state.token_index,
        |subscription: Subscription| subscription.token,
    )
}

/// An index that lists exactly goes on doing so when a subscription is added and listed.
proof fn lemma_listing_stays_exact(
    before: Map<u32, Subscription>,
    after: Map<u32, Subscription>,
    index: Map<Address, Seq<u32>>,
    owner_of: spec_fn(Subscription) -> Address,
    id: u32,
    added: Subscription,
)
    requires
        lists_exactly(before, index, owner_of),
        after == before.insert(id, added),
        forall|other: u32| #[trigger] before.contains_key(other) ==> other < id,
    ensures
        lists_exactly(
            after,
            index.insert(owner_of(added), ids_under(index, owner_of(added)).push(id)),
            owner_of,
        ),
{
    let longer = index.insert(owner_of(added), ids_under(index, owner_of(added)).push(id));
    assert forall|owner: Address, i: int|
        0 <= i < ids_under(longer, owner).len() implies after.contains_key(
        #[trigger] ids_under(longer, owner)[i],
    ) && owner_of(after[ids_under(longer, owner)[i]]) == owner by {
        if i < ids_under(index, owner).len() {
            assert(ids_under(longer, owner)[i] == ids_under(index, owner)[i]);
        }
    }
    assert forall|owner: Address, i: int, j: int|
        0 <= i < j < ids_under(longer, owner).len() implies #[trigger] ids_under(longer, owner)[i]
        < #[trigger] ids_under(longer, owner)[j] by {
        assert(ids_under(longer, owner)[i] == ids_under(index, owner)[i]);
        if j < ids_under(index, owner).len() {
            assert(ids_under(longer, owner)[j] == ids_under(index, owner)[j]);
        }
    }
    assert forall|other: u32| #[trigger] after.contains_key(other) implies ids_under(
        longer,
        owner_of(after[other]),
    ).contains(other) by {
        let list = ids_under(longer, owner_of(after[other]));
        if other == id {
            assert(list[list.len() - 1] == id);
        } else {
            let shorter = ids_under(index, owner_of(before[other]));
            assert(shorter.contains(other));
            let at = choose|i: int| 0 <= i < shorter.len() && shorter[i] == other;
            assert(list[at] == other);
        }
    }
}

/// Whatever is asked, the lists of merchants and tokens stay exact.
proof fn lemma_requests_keep_indexes_exact(state: VaultState, request: Request)
    requires
        state.wf(),
        state.counter_is_ahead(),
        indexes_are_exact(state),
    ensures
        indexes_are_exact(state.after(request)),
{
    let after = state.after(request);
    let merchant_of = |subscription: Subscription| subscription.merchant;
    let token_of = |subscription: Subscription| subscription.token;
    law_every_request_goes_on(state, request);
    let creates = request is CreateSubscription || request is CreateSubscriptionFromPlan;
    if creates && state.refusal(request) is None {
        let id = state.next_id;
        let added = after.subscriptions[id];
        lemma_listing_stays_exact(
            state.subscriptions,
            after.subscriptions,
            state.merchant_index,
            merchant_of,
            id,
            added,
        );
        lemma_listing_stays_exact(
            state.subscriptions,
            after.subscriptions,
            state.token_index,
            token_of,
            id,
            added,
        );
    } else {
        if let Request::BatchCharge { ids } = request {
            lemma_batches_keep_the_books(state, as_numbers(host_items(ids)));
        }
        assert(after.subscriptions.dom() =~= state.subscriptions.dom());
        assert(after.merchant_index == state.merchant_index);
        assert(after.token_index == state.token_index);
        assert forall|id: u32| #[trigger] state.subscriptions.contains_key(id) implies
            after.subscriptions[id].merchant == state.subscriptions[id].merchant
            && after.subscriptions[id].token == state.subscriptions[id].token by {}
        lemma_same_owners_are_listed(
            state.subscriptions,
            after.subscriptions,
            state.merchant_index,
            merchant_of,
        );
        lemma_same_owners_are_listed(
            state.subscriptions,
            after.subscriptions,
            state.token_index,
            token_of,
        );
    }
}

/// Subscriptions that keep their owners stay listed.
proof fn lemma_same_owners_are_listed(
    before: Map<u32, Subscription>,
    after: Map<u32, Subscription>,
    index: Map<Address, Seq<u32>>,
    owner_of: spec_fn(Subscription) -> Address,
)
    requires
        lists_exactly(before, index, owner_of),
        after.dom() == before.dom(),
        forall|id: u32| #[trigger]
            before.contains_key(id) ==> owner_of(after[id]) == owner_of(before[id]),
    ensures
        lists_exactly(after, index, owner_of),
{
    assert forall|id: u32| after.contains_key(id) == before.contains_key(id) by {
        assert(after.dom().contains(id) == before.dom().contains(id));
    }
}

/// From the first call on, and whatever is asked, every subscription is listed once under its merchant
/// and once under its token, in the order in which the subscriptions were made, and no list names
/// anything else.
pub proof fn law_every_subscription_is_listed_once(
    token: Address,
    token_decimals: u32,
    admin: Address,
    min_topup: i128,
    grace_period: u64,
    calls: Seq<Call>,
)
    ensures
        indexes_are_exact(
            initial_state(token, token_decimals, admin, min_topup, grace_period).after_all(calls),
        ),
    decreases calls.len(),
{
    let start = initial_state(token, token_decimals, admin, min_topup, grace_period);
    if calls.len() > 0 {
        let earlier = start.after_all(calls.drop_last());
        law_every_subscription_is_listed_once(
            token,
            token_decimals,
            admin,
            min_topup,
            grace_period,
            calls.drop_last(),
        );
        law_every_history_goes_on(start, calls.drop_last());
        lemma_requests_keep_indexes_exact(earlier.at(calls.last()), calls.last().request);
    }
}

/// A vault that has just been set up has the settings that were given, no fee, no stop, no oracle, one
/// accepted token, and holds nothing else. Its first subscription gets identifier zero.
pub proof fn law_vaults_start_out_empty(
    token: Address,
    token_decimals: u32,
    admin: Address,
    min_topup: i128,
    grace_period: u64,
)
    ensures
        ({
            let start = initial_state(token, token_decimals, admin, min_topup, grace_period);
            &&& start.timestamp == 0
            &&& start.config.admin == admin
            &&& start.config.token == token
            &&& start.config.token_decimals == token_decimals
            &&& start.config.min_topup == min_topup
            &&& start.config.grace_period == grace_period
            &&& start.config.protocol_fee is None
            &&& !start.config.emergency_stop
            &&& !start.config.oracle.enabled && start.config.oracle.oracle is None
            &&& start.next_id == 0
            &&& forall|id: u32| !(#[trigger] start.subscriptions.contains_key(id))
            &&& start.plans.len() == 0
            &&& forall|owner: Address| (#[trigger] ids_under(start.merchant_index, owner)).len() == 0
            &&& forall|owner: Address| (#[trigger] ids_under(start.token_index, owner)).len() == 0
            &&& forall|pair: (Address, Address)| !(#[trigger] start.balances.contains_key(pair))
            &&& forall|pair: (Address, Address)| !(#[trigger] start.credit_limits.contains_key(pair))
            &&& forall|other: Address| #[trigger]
                start.accepted_tokens.contains_key(other) <==> other == token
            &&& start.accepted_tokens[token] == token_decimals
            &&& forall|account: Address| !(#[trigger] start.blocklist.contains_key(account))
            &&& forall|account: Address| !(#[trigger] start.paused_merchants.contains(account))
            &&& forall|id: u32| !(#[trigger] start.usage_limits.contains_key(id))
            &&& start.recovery_ids.len() == 0
            &&& forall|id: u32| !(#[trigger] start.statements.contains_key(id))
            &&& forall|note: (u32, Seq<char>)| !(#[trigger] start.metadata.contains_key(note))
            &&& start.events.len() == 0
        }),
{
}

} // verus!
