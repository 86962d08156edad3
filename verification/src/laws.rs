//! What holds of the vault as a whole, whatever is asked of it.
use crate::address::Address;
use crate::admin::lemma_compacted_keeps_wf;
use crate::billing::{debited, due, lemma_fee_is_a_share, lemma_stated_keeps_wf};
use crate::error::{Error, Failure};
use crate::host::{as_numbers, host_items};
use crate::lifecycle::{
    is_underfunded, is_waiting_for_funds, lemma_admitted_keeps_wf, lemma_store_keeps_wf,
    SubscriptionTerms,
};
use crate::requests::{Call, Request};
use crate::status::{legal_move, SubscriptionStatus};
use crate::store::listed;
use crate::types::{BillingChargeKind, ChargeExecutionResult, Subscription, BASIS_POINTS};
use crate::vault::{sound, VaultState};
use vstd::prelude::*;

verus! {

/// What the parties agreed on is the same in both records.
pub open spec fn same_agreement(one: Subscription, other: Subscription) -> bool {
    &&& one.subscriber == other.subscriber
    &&& one.merchant == other.merchant
    &&& one.token == other.token
    &&& one.amount == other.amount
    &&& one.interval_seconds == other.interval_seconds
    &&& one.usage_enabled == other.usage_enabled
    &&& one.lifetime_cap == other.lifetime_cap
    &&& one.start_time == other.start_time
    &&& one.expires_at == other.expires_at
}

/// A subscription that is never billed again.
pub open spec fn has_ended(subscription: Subscription) -> bool {
    subscription.status == SubscriptionStatus::Cancelled || subscription.status
        == SubscriptionStatus::Expired
}

/// `after` is a later record of the subscription `before`: the agreement is kept, what has ended
/// stays as it ended, and the lifetime total does not fall.
pub open spec fn continues(before: Subscription, after: Subscription) -> bool {
    &&& same_agreement(before, after)
    &&& has_ended(before) ==> after.status == before.status
    &&& before.lifetime_charged <= after.lifetime_charged
}

/// `after` is a later state of the vault `before`: events and recoveries are only added, identifiers
/// are not given back, and every subscription goes on.
pub open spec fn succeeds(before: VaultState, after: VaultState) -> bool {
    &&& before.events.is_prefix_of(after.events)
    &&& before.next_id <= after.next_id
    &&& before.recovery_ids.is_prefix_of(after.recovery_ids)
    &&& forall|id: u32| #[trigger]
        before.subscriptions.contains_key(id) ==> after.subscriptions.contains_key(id) && continues(
            before.subscriptions[id],
            after.subscriptions[id],
        )
}

/// A later state of a later state is a later state.
proof fn lemma_succeeds_is_transitive(a: VaultState, b: VaultState, c: VaultState)
    requires
        succeeds(a, b),
        succeeds(b, c),
    ensures
        succeeds(a, c),
{
    assert forall|id: u32| #[trigger]
        a.subscriptions.contains_key(id) implies c.subscriptions.contains_key(id) && continues(
        a.subscriptions[id],
        c.subscriptions[id],
    ) by {
        assert(b.subscriptions.contains_key(id));
    }
    assert forall|i: int| 0 <= i < a.events.len() implies a.events[i] == c.events[i] by {
        assert(a.events[i] == b.events[i]);
    }
    assert forall|i: int| 0 <= i < a.recovery_ids.len() implies a.recovery_ids[i]
        == c.recovery_ids[i] by {
        assert(a.recovery_ids[i] == b.recovery_ids[i]);
    }
}

/// An interval charge keeps the vault sound.
proof fn lemma_interval_charge_keeps_wf(state: VaultState, id: u32)
    requires
        state.wf(),
        state.charge_refusal(id) is None,
        state.charge_outcome(id) == ChargeExecutionResult::Charged,
    ensures
        state.interval_charged(id).wf(),
{
    let before = state.subscriptions[id];
    let after = Subscription {
        last_payment_timestamp: state.timestamp,
        ..debited(before, before.amount)
    };
    lemma_store_keeps_wf(state, id, after);
    let shared = state.with_subscription(id, after).shared_out(
        before.merchant,
        before.token,
        before.amount,
    );
    assert(shared.wf());
    lemma_stated_keeps_wf(
        shared,
        id,
        before.amount,
        before.merchant,
        BillingChargeKind::Interval,
        before.last_payment_timestamp,
        state.timestamp,
    );
}

/// A charge outside the interval keeps the vault sound.
proof fn lemma_one_off_charge_keeps_wf(state: VaultState, id: u32, merchant: Address, amount: i128)
    requires
        state.wf(),
        state.one_off_refusal(id, merchant, amount) is None,
    ensures
        state.one_off_charged(id, amount).wf(),
{
    let before = state.subscriptions[id];
    lemma_store_keeps_wf(state, id, debited(before, amount));
    let credited = state.with_subscription(id, debited(before, amount)).credited(
        before.merchant,
        before.token,
        amount as int,
    );
    assert(credited.wf());
    lemma_stated_keeps_wf(
        credited,
        id,
        amount,
        before.merchant,
        BillingChargeKind::OneOff,
        state.timestamp,
        state.timestamp,
    );
}

/// An attempt to charge a subscription leads to a sound, later state.
pub proof fn law_attempts_go_on(state: VaultState, id: u32)
    requires
        state.wf(),
        state.counter_is_ahead(),
    ensures
        state.attempted(id).wf(),
        state.attempted(id).counter_is_ahead(),
        succeeds(state, state.attempted(id)),
{
    if state.charge_refusal(id) is None {
        let before = state.subscriptions[id];
        match state.charge_outcome(id) {
            ChargeExecutionResult::Expired => {},
            ChargeExecutionResult::InsufficientBalance => {},
            ChargeExecutionResult::Charged => {
                lemma_interval_charge_keeps_wf(state, id);
            },
        }
    }
}

/// A batch of charges leads to a sound, later state.
pub proof fn law_batches_go_on(state: VaultState, ids: Seq<u32>)
    requires
        state.wf(),
        state.counter_is_ahead(),
    ensures
        state.all_attempted(ids).wf(),
        state.all_attempted(ids).counter_is_ahead(),
        succeeds(state, state.all_attempted(ids)),
    decreases ids.len(),
{
    if ids.len() > 0 {
        law_batches_go_on(state, ids.drop_last());
        law_attempts_go_on(state.all_attempted(ids.drop_last()), ids.last());
        lemma_succeeds_is_transitive(
            state,
            state.all_attempted(ids.drop_last()),
            state.all_attempted(ids),
        );
    }
}

/// A state that differs only in settings, lists and added events is sound, and later.
proof fn lemma_settings_go_on(state: VaultState, after: VaultState)
    requires
        state.wf(),
        state.counter_is_ahead(),
        after.subscriptions == state.subscriptions,
        after.next_id == state.next_id,
        after.merchant_index == state.merchant_index,
        after.token_index == state.token_index,
        after.statements == state.statements,
        after.config.protocol_fee matches Some(fee) ==> fee.fee_bps <= BASIS_POINTS,
        state.events.is_prefix_of(after.events),
        state.recovery_ids.is_prefix_of(after.recovery_ids),
    ensures
        after.wf(),
        after.counter_is_ahead(),
        succeeds(state, after),
{
}

/// A state in which one subscription goes on, and events are added, is sound, and later.
proof fn lemma_subscription_goes_on(state: VaultState, id: u32, next: Subscription, after: VaultState)
    requires
        state.wf(),
        state.counter_is_ahead(),
        state.subscriptions.contains_key(id),
        continues(state.subscriptions[id], next),
        sound(next),
        state.events.is_prefix_of(after.events),
        after == (VaultState { events: after.events, ..state.with_subscription(id, next) }),
    ensures
        after.wf(),
        after.counter_is_ahead(),
        succeeds(state, after),
{
    lemma_store_keeps_wf(state, id, next);
}

/// Whatever is asked of a sound vault, it stays sound, and the outcome is a later state: agreements
/// are kept, what has ended stays as it ended, and published events stay published.
pub proof fn law_every_request_goes_on(state: VaultState, request: Request)
    requires
        state.wf(),
        state.counter_is_ahead(),
    ensures
        state.after(request).wf(),
        state.after(request).counter_is_ahead(),
        succeeds(state, state.after(request)),
{
    let after = state.after(request);
    if state.refusal(request) is None {
        match request {
            Request::CreateSubscription { terms } => {
                lemma_admitted_keeps_wf(state, state.local_terms(terms));
            },
            Request::CreateSubscriptionFromPlan { subscriber, plan_id } => {
                lemma_admitted_keeps_wf(state, state.plan_terms(subscriber, plan_id));
            },
            Request::PauseSubscription { id, .. }
            | Request::ResumeSubscription { id, .. }
            | Request::CancelSubscription { id, .. }
            | Request::DepositFunds { id, .. }
            | Request::WithdrawSubscriberFunds { id, .. }
            | Request::PartialRefund { id, .. } => {
                assert(state.with_subscription(id, state.subscriptions[id]).subscriptions
                    =~= state.subscriptions);
                lemma_subscription_goes_on(state, id, after.subscriptions[id], after);
            },
            Request::ChargeSubscription { id } => {
                law_attempts_go_on(state, id);
            },
            Request::BatchCharge { ids } => {
                law_batches_go_on(state, as_numbers(host_items(ids)));
            },
            Request::ChargeOneOff { id, merchant, amount } => {
                lemma_one_off_charge_keeps_wf(state, id, merchant, amount);
            },
            Request::CompactBillingStatements { admin, id, keep } => {
                lemma_compacted_keeps_wf(state, id, state.keeps(keep));
            },
            _ => {
                lemma_settings_go_on(state, after);
            },
        }
    }
}

/// Whatever is asked of a sound vault over time, it stays sound, and the outcome is a later state.
pub proof fn law_every_history_goes_on(state: VaultState, calls: Seq<Call>)
    requires
        state.wf(),
        state.counter_is_ahead(),
    ensures
        state.after_all(calls).wf(),
        state.after_all(calls).counter_is_ahead(),
        succeeds(state, state.after_all(calls)),
    decreases calls.len(),
{
    if calls.len() > 0 {
        let earlier = state.after_all(calls.drop_last());
        let called = earlier.at(calls.last());
        law_every_history_goes_on(state, calls.drop_last());
        lemma_settings_go_on(earlier, called);
        law_every_request_goes_on(called, calls.last().request);
        lemma_succeeds_is_transitive(state, earlier, called);
        lemma_succeeds_is_transitive(state, called, state.after_all(calls));
    }
}

/// Charges never take a subscription past its lifetime cap, whatever is asked over time.
pub proof fn law_lifetime_caps_hold(state: VaultState, calls: Seq<Call>, id: u32)
    requires
        state.wf(),
        state.counter_is_ahead(),
        state.after_all(calls).subscriptions.contains_key(id),
    ensures
        ({
            let subscription = state.after_all(calls).subscriptions[id];
            subscription.lifetime_cap matches Some(cap) ==> subscription.lifetime_charged <= cap
        }),
{
    law_every_history_goes_on(state, calls);
}

/// A request that is refused changes nothing and publishes nothing.
pub proof fn law_refused_requests_change_nothing(state: VaultState, request: Request)
    requires
        state.refusal(request) is Some,
    ensures
        state.after(request) == state,
{
}

/// A subscription changes its status only by moves of the state machine. (A batch is a sequence of
/// such steps.)
pub proof fn law_status_changes_follow_the_state_machine(
    state: VaultState,
    request: Request,
    id: u32,
)
    requires
        state.counter_is_ahead(),
        state.subscriptions.contains_key(id),
        !(request is BatchCharge),
    ensures
        state.after(request).subscriptions.contains_key(id),
        legal_move(
            state.subscriptions[id].status,
            state.after(request).subscriptions[id].status,
        ),
{
    match request {
        Request::CreateSubscription { .. } | Request::CreateSubscriptionFromPlan { .. } => {},
        Request::PauseSubscription { .. }
        | Request::ResumeSubscription { .. }
        | Request::CancelSubscription { .. } => {},
        Request::DepositFunds { .. } => {},
        Request::ChargeSubscription { id: charged } => {
            law_attempts_follow_the_state_machine(state, charged, id);
        },
        Request::ChargeOneOff { .. } => {},
        Request::WithdrawSubscriberFunds { .. } | Request::PartialRefund { .. } => {},
        _ => {
            assert(state.after(request).subscriptions == state.subscriptions);
        },
    }
}

/// An attempt to charge a subscription moves it, and any other, only by a move of the state machine.
pub proof fn law_attempts_follow_the_state_machine(state: VaultState, attempted: u32, id: u32)
    requires
        state.subscriptions.contains_key(id),
    ensures
        state.attempted(attempted).subscriptions.contains_key(id),
        legal_move(
            state.subscriptions[id].status,
            state.attempted(attempted).subscriptions[id].status,
        ),
{
}

/// A batch charges like single charges in the order of the list: what comes later does not change
/// what came before, and the next charge is attempted in the state that the others left.
pub proof fn law_batch_is_a_sequence_of_single_charges(state: VaultState, ids: Seq<u32>, id: u32)
    ensures
        state.all_attempted(ids.push(id)) == state.all_attempted(ids).attempted(id),
        state.all_results(ids.push(id)) == state.all_results(ids).push(
            state.all_attempted(ids).attempt_result(id),
        ),
        state.all_results(ids).len() == ids.len(),
{
    let longer = ids.push(id);
    assert(longer.drop_last() =~= ids);
    assert(longer.take(ids.len() as int) =~= ids);
    assert forall|i: int| 0 <= i < ids.len() implies state.all_results(longer)[i]
        == state.all_results(ids)[i] by {
        assert(longer.take(i) =~= ids.take(i));
        assert(longer[i] == ids[i]);
    }
    assert(state.all_results(longer) =~= state.all_results(ids).push(
        state.all_attempted(ids).attempt_result(id),
    ));
}

/// Without the signature that it needs, a request aborts.
pub proof fn law_unsigned_requests_abort(state: VaultState, request: Request)
    requires
        request.signer(state) matches Some(account) && !state.signed(account),
    ensures
        state.refusal(request) == Some(Failure::Abort),
{
}

/// One who signs but is not the admin is turned away from what takes the admin.
pub proof fn law_admin_requests_take_the_admin(state: VaultState, request: Request)
    requires
        request.acting_admin() matches Some(account) && state.signed(account) && account
            != state.config.admin,
    ensures
        state.refusal(request) == Some(Failure::Contract(request.denial())),
{
}

/// From the moment of the rotation on, the new admin holds the office and the old one is turned away
/// from everything that takes it.
pub proof fn law_rotation_takes_effect_at_once(
    state: VaultState,
    admin: Address,
    new_admin: Address,
    request: Request,
)
    requires
        state.refusal(Request::RotateAdmin { admin, new_admin }) is None,
        admin != new_admin,
        request.acting_admin() == Some(admin),
    ensures
        ({
            let rotated = state.after(Request::RotateAdmin { admin, new_admin });
            &&& rotated.config.admin == new_admin
            &&& rotated.refusal(request) == Some(Failure::Contract(request.denial()))
            &&& rotated.signed(new_admin) ==> rotated.admin_refusal(new_admin, request.denial())
                is None
        }),
{
    let rotated = state.after(Request::RotateAdmin { admin, new_admin });
    law_admin_requests_take_the_admin(rotated, request);
}

/// A rotated admin no longer puts anyone on the blocklist, customers apart.
pub proof fn law_rotation_ends_blocking(
    state: VaultState,
    admin: Address,
    new_admin: Address,
    subscriber: Address,
    reason: Option<String>,
)
    requires
        state.refusal(Request::RotateAdmin { admin, new_admin }) is None,
        admin != new_admin,
        !state.is_customer(admin, subscriber),
    ensures
        state.after(Request::RotateAdmin { admin, new_admin }).refusal(
            Request::AddToBlocklist { authorizer: admin, subscriber, reason },
        ) == Some(Failure::Contract(Error::Forbidden)),
{
    let rotated = state.after(Request::RotateAdmin { admin, new_admin });
    assert(rotated.is_customer(admin, subscriber) == state.is_customer(admin, subscriber));
}

/// Moving a subscription to the status that it was just moved to succeeds and changes nothing.
pub proof fn law_moves_are_idempotent(
    state: VaultState,
    id: u32,
    authorizer: Address,
    target: SubscriptionStatus,
)
    requires
        state.move_refusal(id, authorizer, target) is None,
    ensures
        ({
            let moved = state.moved(id, authorizer, target);
            &&& moved.subscriptions[id].status == target
            &&& moved.move_refusal(id, authorizer, target) is None
            &&& moved.moved(id, authorizer, target) == moved
        }),
{
}

/// Resuming undoes pausing: the subscription is as it was.
pub proof fn law_resuming_undoes_pausing(state: VaultState, id: u32, authorizer: Address)
    requires
        state.move_refusal(id, authorizer, SubscriptionStatus::Paused) is None,
        state.subscriptions[id].status == SubscriptionStatus::Active,
        state.subscriptions[id].grace_start_timestamp is None,
    ensures
        ({
            let paused = state.moved(id, authorizer, SubscriptionStatus::Paused);
            &&& paused.move_refusal(id, authorizer, SubscriptionStatus::Active) is None
            &&& paused.moved(id, authorizer, SubscriptionStatus::Active).subscriptions
                == state.subscriptions
        }),
{
    let resumed = state.moved(id, authorizer, SubscriptionStatus::Paused).moved(
        id,
        authorizer,
        SubscriptionStatus::Active,
    );
    assert(resumed.subscriptions =~= state.subscriptions);
}

/// A party of a subscription may move it, in one role or in both, as far as the state machine and the
/// balance allow; nobody else may.
pub proof fn law_parties_and_only_parties_move_a_subscription(
    state: VaultState,
    id: u32,
    authorizer: Address,
    target: SubscriptionStatus,
)
    requires
        state.subscriptions.contains_key(id),
        state.signed(authorizer),
    ensures
        ({
            let subscription = state.subscriptions[id];
            let is_party = authorizer == subscription.subscriber || authorizer
                == subscription.merchant;
            &&& !is_party ==> state.move_refusal(id, authorizer, target) == Some(
                Failure::Contract(Error::Forbidden),
            )
            &&& is_party ==> (state.move_refusal(id, authorizer, target) is None <==> legal_move(
                subscription.status,
                target,
            ) && !(target == SubscriptionStatus::Active && is_underfunded(subscription)))
        }),
{
}

/// A deposit that covers the next charge brings an underfunded subscription back; any other deposit
/// leaves the status alone.
pub proof fn law_deposits_bring_subscriptions_back(
    state: VaultState,
    id: u32,
    payer: Address,
    amount: i128,
    wallet: i128,
)
    requires
        state.deposit_refusal(id, payer, amount, wallet) is None,
    ensures
        ({
            let before = state.subscriptions[id];
            let after = state.deposited(id, payer, amount).subscriptions[id];
            &&& after.prepaid_balance == before.prepaid_balance + amount
            &&& is_waiting_for_funds(before) && after.prepaid_balance >= before.amount
                ==> after.status == SubscriptionStatus::Active
            &&& !(is_waiting_for_funds(before) && after.prepaid_balance >= before.amount)
                ==> after.status == before.status
        }),
{
}

/// Once a subscription has been charged, it is not charged again before another interval has passed.
pub proof fn law_one_charge_per_interval(state: VaultState, id: u32, later: u64)
    requires
        state.charge_refusal(id) is None,
        state.charge_outcome(id) == ChargeExecutionResult::Charged,
        state.timestamp <= later < state.timestamp + state.subscriptions[id].interval_seconds,
    ensures
        ({
            let charged = VaultState { timestamp: later, ..state.charged(id) };
            charged.charge_refusal(id) is Some || charged.charge_outcome(id)
                == ChargeExecutionResult::Expired
        }),
{
}

/// A charge that the balance does not cover takes nothing, and sets the subscription back: into its
/// grace period at first, and out of it when that is over.
pub proof fn law_failed_charges_take_nothing(state: VaultState, id: u32)
    requires
        state.charge_refusal(id) is None,
        state.charge_outcome(id) == ChargeExecutionResult::InsufficientBalance,
    ensures
        ({
            let before = state.subscriptions[id];
            let after = state.charged(id).subscriptions[id];
            &&& after.prepaid_balance == before.prepaid_balance
            &&& after.lifetime_charged == before.lifetime_charged
            &&& state.charged(id).balances == state.balances
            &&& state.timestamp < due(before) + state.config.grace_period ==> after.status
                == SubscriptionStatus::GracePeriod
            &&& state.timestamp >= due(before) + state.config.grace_period ==> after.status
                == SubscriptionStatus::InsufficientBalance
        }),
{
}

/// An interval charge is shared out without remainder: what leaves the balance reaches the merchant
/// and the treasury, and the treasury's share is rounded down.
pub proof fn law_charges_are_shared_out_exactly(state: VaultState, id: u32)
    requires
        state.wf(),
        state.charge_refusal(id) is None,
        state.charge_outcome(id) == ChargeExecutionResult::Charged,
    ensures
        ({
            let before = state.subscriptions[id];
            let charged = state.charged(id);
            let fee = state.fee(before.amount as int);
            let treasury = state.config.protocol_fee->0.treasury;
            &&& 0 <= fee <= before.amount
            &&& charged.subscriptions[id].prepaid_balance == before.prepaid_balance - before.amount
            &&& fee == 0 || treasury == before.merchant ==> charged.earned(
                before.merchant,
                before.token,
            ) == state.earned(before.merchant, before.token) + before.amount
            &&& fee > 0 && treasury != before.merchant ==> charged.earned(
                before.merchant,
                before.token,
            ) == state.earned(before.merchant, before.token) + before.amount - fee
                && charged.earned(treasury, before.token) == state.earned(treasury, before.token)
                + fee
        }),
{
    lemma_fee_is_a_share(state, state.subscriptions[id].amount as int);
}

/// A new subscription is counted once with its merchant and once with its token.
pub proof fn law_creation_counts_once(state: VaultState, terms: SubscriptionTerms)
    requires
        state.create_refusal(terms) is None,
    ensures
        ({
            let after = state.admitted(terms);
            &&& after.next_id == state.next_id + 1
            &&& listed(after.merchant_index, terms.merchant) == listed(
                state.merchant_index,
                terms.merchant,
            ).push(state.next_id)
            &&& listed(after.token_index, terms.token) == listed(
                state.token_index,
                terms.token,
            ).push(state.next_id)
            &&& forall|other: Address|
                other != terms.merchant ==> #[trigger] listed(after.merchant_index, other)
                    == listed(state.merchant_index, other)
            &&& forall|other: Address|
                other != terms.token ==> #[trigger] listed(after.token_index, other) == listed(
                    state.token_index,
                    other,
                )
        }),
{
}

/// A recovery is carried out once: whatever is asked in between, and whoever is admin by then, the
/// same recovery is a replay.
pub proof fn law_recoveries_happen_once(
    state: VaultState,
    request: Request,
    between: Seq<Call>,
    again: Call,
)
    requires
        state.wf(),
        state.counter_is_ahead(),
        request is RecoverStrandedFunds,
        state.refusal(request) is None,
        again.request is RecoverStrandedFunds,
        again.request->RecoverStrandedFunds_recovery_id@
            == request->RecoverStrandedFunds_recovery_id@,
        again.request->RecoverStrandedFunds_amount > 0,
        again.request->RecoverStrandedFunds_admin == state.after(request).after_all(
            between,
        ).config.admin,
        again.signers.covers(again.request->RecoverStrandedFunds_admin),
    ensures
        state.after(request).after_all(between).at(again).refusal(again.request) == Some(
            Failure::Contract(Error::Replay),
        ),
{
    let ids = state.recovery_ids;
    let id = request->RecoverStrandedFunds_recovery_id@;
    let recovered = state.after(request);
    let later = recovered.after_all(between);
    law_every_request_goes_on(state, request);
    law_every_history_goes_on(recovered, between);
    assert(recovered.recovery_ids[ids.len() as int] == id);
    assert(later.recovery_ids[ids.len() as int] == id);
    assert(later.at(again).recovery_ids.contains(id));
}

/// A subscriber withdraws the whole balance of a cancelled subscription, and withdraws it once.
pub proof fn law_balances_are_withdrawn_once(
    state: VaultState,
    id: u32,
    subscriber: Address,
    held: i128,
    held_then: i128,
)
    requires
        state.withdrawal_refusal(id, subscriber, held) is None,
    ensures
        state.subscriber_withdrawn(id).subscriptions[id].prepaid_balance == 0,
        state.subscriber_withdrawn(id).withdrawal_refusal(id, subscriber, held_then) == Some(
            Failure::Contract(Error::InsufficientBalance),
        ),
{
}

} // verus!
