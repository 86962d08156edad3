//! What charging does, told by what stands in the vault before and after.
use crate::address::Address;
use crate::billing::lemma_fee_is_a_share;
use crate::error::{Error, Failure};
use crate::events::Event;
use crate::host::{as_numbers, holds_numbers, host_items};
use crate::requests::Request;
use crate::status::SubscriptionStatus;
use crate::types::{
    BillingChargeKind, BillingStatement, ChargeExecutionResult, ProtocolFee, Subscription,
};
use crate::vault::VaultState;
use vstd::prelude::*;

verus! {

/// The vault itself turns a request down, and says why.
pub open spec fn turned_down(error: Error) -> Option<Failure> {
    Some(Failure::Contract(error))
}

/// What stands in a book of amounts for an account and a token; nothing counts as zero.
pub open spec fn amount_of(
    book: Map<(Address, Address), i128>,
    account: Address,
    token: Address,
) -> int {
    if book.contains_key((account, token)) {
        book[(account, token)] as int
    } else {
        0
    }
}

/// The statements that a subscription has, oldest first.
pub open spec fn statements_of(state: VaultState, id: u32) -> Seq<BillingStatement> {
    if state.statements.contains_key(id) {
        state.statements[id].statements
    } else {
        Seq::empty()
    }
}

/// The number that the next statement of a subscription gets.
pub open spec fn next_number(state: VaultState, id: u32) -> int {
    if state.statements.contains_key(id) {
        state.statements[id].next_sequence as int
    } else {
        0
    }
}

/// `fee` is the whole part of the share that the configured basis points make of `amount`.
pub open spec fn is_fee(state: VaultState, amount: i128, fee: int) -> bool {
    match state.config.protocol_fee {
        Some(ProtocolFee { fee_bps, .. }) => fee * 10_000 <= amount * fee_bps < (fee + 1) * 10_000,
        None => fee == 0,
    }
}

/// What comes in for an account when a charge is shared out with `fee` for the treasury.
pub open spec fn share_of(
    state: VaultState,
    charged: Subscription,
    fee: int,
    account: Address,
    token: Address,
) -> int {
    (if account == charged.merchant && token == charged.token {
        charged.amount - fee
    } else {
        0
    }) + (if state.config.protocol_fee matches Some(paid) && account == paid.treasury && token
        == charged.token {
        fee
    } else {
        0
    })
}

/// A charge of a subscription is attempted at this time: it stands in a status in which it is
/// charged, its time has not run out, and an interval has passed since it was last charged.
pub open spec fn is_due(state: VaultState, id: u32) -> bool {
    let subscription = state.subscriptions[id];
    &&& state.subscriptions.contains_key(id)
    &&& subscription.status == SubscriptionStatus::Active || subscription.status
        == SubscriptionStatus::GracePeriod
    &&& subscription.expires_at matches Some(end) ==> state.timestamp < end
    &&& subscription.last_payment_timestamp + subscription.interval_seconds <= state.timestamp
}

/// All numbers that an interval charge adds to have room for it.
pub open spec fn has_room(state: VaultState, id: u32, fee: int) -> bool {
    let subscription = state.subscriptions[id];
    &&& subscription.lifetime_charged + subscription.amount <= i128::MAX
    &&& next_number(state, id) < u32::MAX
    &&& amount_of(state.balances, subscription.merchant, subscription.token) + share_of(
        state,
        subscription,
        fee,
        subscription.merchant,
        subscription.token,
    ) <= i128::MAX
    &&& state.config.protocol_fee matches Some(paid) ==> fee == 0 || amount_of(
        state.balances,
        paid.treasury,
        subscription.token,
    ) + share_of(state, subscription, fee, paid.treasury, subscription.token) <= i128::MAX
}

/// There is one fee, and it is what the vault takes.
proof fn lemma_fee_is_determined(state: VaultState, amount: i128, fee: int)
    requires
        state.wf(),
        amount >= 0,
        is_fee(state, amount, fee),
    ensures
        fee == state.fee(amount as int),
        0 <= fee <= amount,
{
    lemma_fee_is_a_share(state, amount as int);
    if let Some(paid) = state.config.protocol_fee {
        let product = amount * paid.fee_bps;
        let quotient = product / 10_000;
        assert(quotient * 10_000 <= product < (quotient + 1) * 10_000);
        assert(fee == quotient) by (nonlinear_arith)
            requires
                quotient * 10_000 <= product < (quotient + 1) * 10_000,
                fee * 10_000 <= product < (fee + 1) * 10_000,
        ;
    }
}

/// Why an interval charge is turned down: there is no such subscription, it is not in a status in
/// which it is charged, its interval is not over, the charge would take it past its lifetime cap, or a
/// number would leave its range. A subscription whose time has run out is not turned down.
pub proof fn law_interval_charges_are_turned_down_for_a_reason(state: VaultState, id: u32, fee: int)
    requires
        state.wf(),
        is_fee(state, state.subscriptions[id].amount, fee),
    ensures
        ({
            let subscription = state.subscriptions[id];
            let refusal = state.refusal(Request::ChargeSubscription { id });
            let stored = state.subscriptions.contains_key(id);
            let charged_status = subscription.status == SubscriptionStatus::Active
                || subscription.status == SubscriptionStatus::GracePeriod;
            let ran_out = subscription.expires_at matches Some(end) && end <= state.timestamp;
            let over = subscription.last_payment_timestamp + subscription.interval_seconds;
            let past_cap = subscription.lifetime_cap matches Some(cap) && cap
                < subscription.lifetime_charged + subscription.amount;
            let covered = subscription.amount <= subscription.prepaid_balance;
            &&& refusal == turned_down(Error::NotFound) <==> !stored
            &&& refusal == turned_down(Error::NotActive) <==> stored && !charged_status
            &&& refusal == turned_down(Error::IntervalNotElapsed) <==> stored && charged_status
                && !ran_out && state.timestamp < over <= u64::MAX
            &&& refusal == turned_down(Error::LifetimeCapReached) <==> is_due(state, id) && past_cap
            &&& refusal == turned_down(Error::Overflow) <==> (stored && charged_status && !ran_out
                && over > u64::MAX) || (is_due(state, id) && !past_cap && covered && !has_room(
                state,
                id,
                fee,
            ))
            &&& refusal is None <==> (stored && charged_status && ran_out) || (is_due(state, id)
                && !past_cap && (covered ==> has_room(state, id, fee)))
        }),
{
    if state.subscriptions.contains_key(id) {
        lemma_fee_is_determined(state, state.subscriptions[id].amount, fee);
    }
}

/// A charge that is due, covered by the balance and within the lifetime cap is carried out. The
/// amount leaves the balance and is added to the lifetime total; the interval starts anew; the
/// merchant gets the amount less the fee, and the treasury the fee; a statement is added; and what
/// happened is published, the fee and the end of the cap after the charge. Nothing else changes.
pub proof fn law_interval_charges_do_what_they_say(state: VaultState, id: u32, fee: int)
    requires
        state.wf(),
        is_due(state, id),
        state.subscriptions[id].amount <= state.subscriptions[id].prepaid_balance,
        state.subscriptions[id].lifetime_cap matches Some(cap)
            ==> state.subscriptions[id].lifetime_charged + state.subscriptions[id].amount <= cap,
        is_fee(state, state.subscriptions[id].amount, fee),
        has_room(state, id, fee),
    ensures
        state.refusal(Request::ChargeSubscription { id }) is None,
        state.charge_outcome(id) == ChargeExecutionResult::Charged,
        ({
            let before = state.subscriptions[id];
            let after = state.after(Request::ChargeSubscription { id });
            let now = after.subscriptions[id];
            let capped = before.lifetime_cap == Some(now.lifetime_charged);
            &&& now.prepaid_balance == before.prepaid_balance - before.amount
            &&& now.lifetime_charged == before.lifetime_charged + before.amount
            &&& now.last_payment_timestamp == state.timestamp
            &&& now.status == if capped {
                SubscriptionStatus::Cancelled
            } else {
                SubscriptionStatus::Active
            }
            &&& now == (Subscription {
                prepaid_balance: now.prepaid_balance,
                lifetime_charged: now.lifetime_charged,
                last_payment_timestamp: now.last_payment_timestamp,
                status: now.status,
                grace_start_timestamp: None,
                ..before
            })
            &&& after.subscriptions == state.subscriptions.insert(id, now)
            &&& forall|account: Address, token: Address| #[trigger]
                amount_of(after.balances, account, token) == amount_of(
                    state.balances,
                    account,
                    token,
                ) + share_of(state, before, fee, account, token)
            &&& next_number(after, id) == next_number(state, id) + 1
            &&& statements_of(after, id) == statements_of(state, id).push(
                BillingStatement {
                    subscription_id: id,
                    sequence: next_number(state, id) as u32,
                    amount: before.amount,
                    merchant: before.merchant,
                    kind: BillingChargeKind::Interval,
                    period_start: before.last_payment_timestamp,
                    period_end: state.timestamp,
                },
            )
            &&& after.statements == state.statements.insert(id, after.statements[id])
            &&& after.events == state.events + seq![
                Event::SubscriptionCharged {
                    subscription_id: id,
                    subscriber: before.subscriber,
                    merchant: before.merchant,
                    token: before.token,
                    amount: before.amount,
                    lifetime_charged: now.lifetime_charged,
                    remaining_balance: now.prepaid_balance,
                    timestamp: state.timestamp,
                },
            ] + (if fee > 0 {
                seq![
                    Event::ProtocolFeeCharged {
                        subscription_id: id,
                        treasury: state.config.protocol_fee->0.treasury,
                        fee_amount: fee as i128,
                        merchant_amount: (before.amount - fee) as i128,
                        timestamp: state.timestamp,
                    },
                ]
            } else {
                seq![]
            }) + (if capped {
                seq![
                    Event::LifetimeCapReached {
                        subscription_id: id,
                        lifetime_cap: now.lifetime_charged,
                        lifetime_charged: now.lifetime_charged,
                        timestamp: state.timestamp,
                    },
                ]
            } else {
                seq![]
            })
            &&& after == (VaultState {
                subscriptions: after.subscriptions,
                balances: after.balances,
                statements: after.statements,
                events: after.events,
                ..state
            })
        }),
{
    let before = state.subscriptions[id];
    lemma_fee_is_determined(state, before.amount, fee);
    law_interval_charges_are_turned_down_for_a_reason(state, id, fee);
    let after = state.after(Request::ChargeSubscription { id });
    assert(after == state.interval_charged(id));
    assert(after.events =~= state.events + after.events.skip(state.events.len() as int));
}

/// A charge that the balance does not cover takes nothing. The subscription is in its grace period
/// while less than that period has passed since the charge fell due, and short of funds afterwards;
/// the grace period began at the first charge that failed. The failure is published.
pub proof fn law_uncovered_charges_do_what_they_say(state: VaultState, id: u32)
    requires
        state.wf(),
        is_due(state, id),
        state.subscriptions[id].prepaid_balance < state.subscriptions[id].amount,
        state.subscriptions[id].lifetime_cap matches Some(cap)
            ==> state.subscriptions[id].lifetime_charged + state.subscriptions[id].amount <= cap,
    ensures
        state.refusal(Request::ChargeSubscription { id }) is None,
        state.charge_outcome(id) == ChargeExecutionResult::InsufficientBalance,
        ({
            let before = state.subscriptions[id];
            let after = state.after(Request::ChargeSubscription { id });
            let now = after.subscriptions[id];
            let late = state.timestamp - before.last_payment_timestamp - before.interval_seconds;
            let missing = before.amount - before.prepaid_balance;
            &&& late < state.config.grace_period ==> now.status == SubscriptionStatus::GracePeriod
                && now.grace_start_timestamp == if before.status
                == SubscriptionStatus::GracePeriod {
                before.grace_start_timestamp
            } else {
                Some(state.timestamp)
            }
            &&& late >= state.config.grace_period ==> now.status
                == SubscriptionStatus::InsufficientBalance && now.grace_start_timestamp is None
            &&& now == (Subscription {
                status: now.status,
                grace_start_timestamp: now.grace_start_timestamp,
                ..before
            })
            &&& after.subscriptions == state.subscriptions.insert(id, now)
            &&& after.events == state.events.push(
                Event::SubscriptionChargeFailed {
                    subscription_id: id,
                    merchant: before.merchant,
                    required_amount: before.amount,
                    available_balance: before.prepaid_balance,
                    shortfall: if missing > i128::MAX {
                        i128::MAX
                    } else {
                        missing as i128
                    },
                    resulting_status: now.status,
                    timestamp: state.timestamp,
                },
            )
            &&& after == (VaultState {
                subscriptions: after.subscriptions,
                events: after.events,
                ..state
            })
        }),
{
}

/// A charge that finds the time of a subscription run out takes nothing, and ends the subscription.
pub proof fn law_charges_end_what_has_run_out(state: VaultState, id: u32)
    requires
        state.subscriptions.contains_key(id),
        state.subscriptions[id].status == SubscriptionStatus::Active
            || state.subscriptions[id].status == SubscriptionStatus::GracePeriod,
        state.subscriptions[id].expires_at matches Some(end) && end <= state.timestamp,
    ensures
        state.refusal(Request::ChargeSubscription { id }) is None,
        state.charge_outcome(id) == ChargeExecutionResult::Expired,
        ({
            let after = state.after(Request::ChargeSubscription { id });
            after == (VaultState {
                subscriptions: state.subscriptions.insert(
                    id,
                    Subscription {
                        status: SubscriptionStatus::Expired,
                        grace_start_timestamp: None,
                        ..state.subscriptions[id]
                    },
                ),
                events: state.events.push(
                    Event::SubscriptionExpired { subscription_id: id, timestamp: state.timestamp },
                ),
                ..state
            })
        }),
{
}

/// Why a one-off charge is turned down.
pub proof fn law_one_off_charges_are_turned_down_for_a_reason(
    state: VaultState,
    id: u32,
    merchant: Address,
    amount: i128,
)
    ensures
        ({
            let subscription = state.subscriptions[id];
            let refusal = state.refusal(Request::ChargeOneOff { id, merchant, amount });
            let signed = state.signers.covers(merchant);
            let stored = signed && state.subscriptions.contains_key(id);
            let own = stored && merchant == subscription.merchant;
            let positive = own && 0 < amount;
            let active = positive && subscription.status == SubscriptionStatus::Active;
            let covered = active && amount <= subscription.prepaid_balance;
            let past_cap = subscription.lifetime_cap matches Some(cap) && cap
                < subscription.lifetime_charged + amount;
            let room = subscription.lifetime_charged + amount <= i128::MAX && next_number(state, id)
                < u32::MAX && amount_of(state.balances, merchant, subscription.token) + amount
                <= i128::MAX;
            &&& refusal == Some(Failure::Abort) <==> !signed
            &&& refusal == turned_down(Error::NotFound) <==> signed && !stored
            &&& refusal == turned_down(Error::Unauthorized) <==> stored && !own
            &&& refusal == turned_down(Error::InvalidAmount) <==> own && !positive
            &&& refusal == turned_down(Error::NotActive) <==> positive && !active
            &&& refusal == turned_down(Error::InsufficientBalance) <==> active && !covered
            &&& refusal == turned_down(Error::LifetimeCapReached) <==> covered && past_cap
            &&& refusal == turned_down(Error::Overflow) <==> covered && !past_cap && !room
            &&& refusal is None <==> covered && !past_cap && room
        }),
{
}

/// A one-off charge takes the amount from the balance, adds it to the lifetime total and to what the
/// merchant has earned in the token of the subscription, adds a statement, and is published. No fee
/// is taken, nobody else gets anything, and the interval goes on. Nothing else changes.
pub proof fn law_one_off_charges_do_what_they_say(
    state: VaultState,
    id: u32,
    merchant: Address,
    amount: i128,
)
    requires
        state.wf(),
        state.refusal(Request::ChargeOneOff { id, merchant, amount }) is None,
    ensures
        ({
            let before = state.subscriptions[id];
            let after = state.after(Request::ChargeOneOff { id, merchant, amount });
            let now = after.subscriptions[id];
            let capped = before.lifetime_cap == Some(now.lifetime_charged);
            &&& now.prepaid_balance == before.prepaid_balance - amount
            &&& now.lifetime_charged == before.lifetime_charged + amount
            &&& now.status == if capped {
                SubscriptionStatus::Cancelled
            } else {
                SubscriptionStatus::Active
            }
            &&& now == (Subscription {
                prepaid_balance: now.prepaid_balance,
                lifetime_charged: now.lifetime_charged,
                status: now.status,
                grace_start_timestamp: None,
                ..before
            })
            &&& after.subscriptions == state.subscriptions.insert(id, now)
            &&& amount_of(after.balances, merchant, before.token) == amount_of(
                state.balances,
                merchant,
                before.token,
            ) + amount
            &&& forall|account: Address, token: Address|
                account != merchant || token != before.token ==> #[trigger] amount_of(
                    after.balances,
                    account,
                    token,
                ) == amount_of(state.balances, account, token)
            &&& next_number(after, id) == next_number(state, id) + 1
            &&& statements_of(after, id) == statements_of(state, id).push(
                BillingStatement {
                    subscription_id: id,
                    sequence: next_number(state, id) as u32,
                    amount,
                    merchant,
                    kind: BillingChargeKind::OneOff,
                    period_start: state.timestamp,
                    period_end: state.timestamp,
                },
            )
            &&& after.statements == state.statements.insert(id, after.statements[id])
            &&& after.events == state.events + seq![
                Event::OneOffCharged {
                    subscription_id: id,
                    subscriber: before.subscriber,
                    merchant,
                    token: before.token,
                    amount,
                    remaining_balance: now.prepaid_balance,
                    timestamp: state.timestamp,
                },
            ] + (if capped {
                seq![
                    Event::LifetimeCapReached {
                        subscription_id: id,
                        lifetime_cap: now.lifetime_charged,
                        lifetime_charged: now.lifetime_charged,
                        timestamp: state.timestamp,
                    },
                ]
            } else {
                seq![]
            })
            &&& after == (VaultState {
                subscriptions: after.subscriptions,
                balances: after.balances,
                statements: after.statements,
                events: after.events,
                ..state
            })
        }),
{
    let after = state.after(Request::ChargeOneOff { id, merchant, amount });
    assert(after.events =~= state.events + after.events.skip(state.events.len() as int));
}

/// Whatever the charge, for an interval or one-off: a charge that leaves the lifetime total at the cap
/// ends the subscription, and any other leaves it active.
pub proof fn law_charges_cancel_exactly_at_the_cap(state: VaultState, request: Request, id: u32)
    requires
        state.wf(),
        state.refusal(request) is None,
        request == (Request::ChargeSubscription { id }) && state.charge_outcome(id)
            == ChargeExecutionResult::Charged || (request is ChargeOneOff
            && request->ChargeOneOff_id == id),
    ensures
        ({
            let now = state.after(request).subscriptions[id];
            &&& state.subscriptions[id].lifetime_charged < now.lifetime_charged
            &&& now.lifetime_cap == state.subscriptions[id].lifetime_cap
            &&& now.lifetime_cap == Some(now.lifetime_charged) ==> now.status
                == SubscriptionStatus::Cancelled
            &&& now.lifetime_cap != Some(now.lifetime_charged) ==> now.status
                == SubscriptionStatus::Active
        }),
{
}

/// A subscription that a charge has taken to its cap pays its remaining balance back to the
/// subscriber, all of it, and is not charged again.
pub proof fn law_a_capped_subscription_is_paid_back(
    state: VaultState,
    request: Request,
    id: u32,
    later: u64,
    held: i128,
)
    requires
        state.wf(),
        state.refusal(request) is None,
        request == (Request::ChargeSubscription { id }) && state.charge_outcome(id)
            == ChargeExecutionResult::Charged || (request is ChargeOneOff
            && request->ChargeOneOff_id == id),
        state.after(request).subscriptions[id].lifetime_cap == Some(
            state.after(request).subscriptions[id].lifetime_charged,
        ),
        state.signers.covers(state.subscriptions[id].subscriber),
        0 < state.after(request).subscriptions[id].prepaid_balance <= held,
    ensures
        ({
            let capped = VaultState { timestamp: later, ..state.after(request) };
            let subscriber = state.subscriptions[id].subscriber;
            let withdrawal = Request::WithdrawSubscriberFunds { id, subscriber, held };
            &&& capped.refusal(withdrawal) is None
            &&& capped.after(withdrawal).subscriptions[id].prepaid_balance == 0
            &&& capped.refusal(Request::ChargeSubscription { id }) == turned_down(Error::NotActive)
        }),
{
    law_charges_cancel_exactly_at_the_cap(state, request, id);
}

/// A single charge of a batch is a charge for an interval, and is reported by whether it was carried
/// out; if it was not, by the code of the reason.
pub proof fn law_attempts_are_charges(state: VaultState, id: u32)
    ensures
        state.attempted(id) == state.after(Request::ChargeSubscription { id }),
        ({
            let refusal = state.refusal(Request::ChargeSubscription { id });
            let result = state.attempt_result(id);
            let outcome = state.charge_outcome(id);
            &&& result.success <==> refusal is None && outcome == ChargeExecutionResult::Charged
            &&& result.success ==> result.error_code == 0
            &&& refusal matches Some(Failure::Contract(error)) ==> result.error_code == error.code()
            &&& refusal is None && outcome == ChargeExecutionResult::InsufficientBalance
                ==> result.error_code == 1003
            &&& refusal is None && outcome == ChargeExecutionResult::Expired ==> result.error_code
                == 1014
        }),
{
}

/// A batch takes the signature of the admin and a list of identifiers. It leaves the vault as charges
/// for an interval leave it that come one after the other, in the order of the list.
pub proof fn law_batches_are_charges_in_order(
    state: VaultState,
    ids: soroban_sdk::Vec<u32>,
    between: Seq<VaultState>,
)
    requires
        between.len() == host_items(ids).len() + 1,
        between[0] == state,
        forall|i: int|
            0 <= i < host_items(ids).len() ==> #[trigger] between[i + 1] == between[i].after(
                Request::ChargeSubscription { id: host_items(ids)[i]->0 },
            ),
    ensures
        ({
            let batch = Request::BatchCharge { ids };
            let results = state.all_results(as_numbers(host_items(ids)));
            let taken = state.signers.covers(state.config.admin) && (forall|i: int|
                0 <= i < host_items(ids).len() ==> #[trigger] host_items(ids)[i] is Some);
            &&& taken ==> state.refusal(batch) is None && state.after(batch) == between.last()
            &&& !taken ==> state.refusal(batch) == Some(Failure::Abort)
            &&& results.len() == host_items(ids).len()
            &&& forall|i: int|
                0 <= i < results.len() ==> #[trigger] results[i] == between[i].attempt_result(
                    host_items(ids)[i]->0,
                )
        }),
{
    let numbers = as_numbers(host_items(ids));
    assert forall|i: int| 0 <= i < between.len() implies #[trigger] between[i]
        == state.all_attempted(numbers.take(i)) by {
        lemma_prefix_is_attempted(state, numbers, between, i);
    }
    assert(numbers.take(numbers.len() as int) =~= numbers);
    assert(holds_numbers(host_items(ids)) == forall|i: int|
        0 <= i < host_items(ids).len() ==> #[trigger] host_items(ids)[i] is Some);
}

/// The states between charges are those after the first of them.
proof fn lemma_prefix_is_attempted(
    state: VaultState,
    ids: Seq<u32>,
    between: Seq<VaultState>,
    i: int,
)
    requires
        between.len() == ids.len() + 1,
        between[0] == state,
        forall|i: int|
            0 <= i < ids.len() ==> #[trigger] between[i + 1] == between[i].after(
                Request::ChargeSubscription { id: ids[i] },
            ),
        0 <= i <= ids.len(),
    ensures
        between[i] == state.all_attempted(ids.take(i)),
    decreases i,
{
    if i > 0 {
        lemma_prefix_is_attempted(state, ids, between, i - 1);
        assert(between[(i - 1) + 1] == between[i - 1].after(
            Request::ChargeSubscription { id: ids[i - 1] },
        ));
        assert(ids.take(i).drop_last() =~= ids.take(i - 1));
        assert(ids.take(i).last() == ids[i - 1]);
    }
}

} // verus!
