//! What paying out does, told by what stands in the vault before and after.
use crate::address::Address;
use crate::charging::{amount_of, turned_down};
use crate::error::{Error, Failure};
use crate::events::Event;
use crate::requests::Request;
use crate::status::SubscriptionStatus;
use crate::types::{RecoveryReason, Subscription};
use crate::vault::VaultState;
use vstd::prelude::*;

verus! {

/// Why earnings are not paid out, if they are not: it takes the signature of the account, earnings in
/// the token, a positive amount that they cover, and a vault that can pay it.
pub open spec fn payout_is_answered(
    state: VaultState,
    account: Address,
    token: Address,
    amount: i128,
    held: i128,
    answer: Option<Failure>,
) -> bool {
    let signed = state.signers.covers(account);
    let known = signed && state.balances.contains_key((account, token));
    let positive = known && 0 < amount;
    let covered = positive && amount <= state.balances[(account, token)];
    &&& answer == Some(Failure::Abort) <==> !signed
    &&& answer == turned_down(Error::NotFound) <==> signed && !known
    &&& answer == turned_down(Error::InvalidAmount) <==> known && !positive
    &&& answer == turned_down(Error::InsufficientBalance) <==> positive && !covered
    &&& answer == Some(Failure::Token) <==> covered && held < amount
    &&& answer is None <==> covered && amount <= held
}

/// From `before` to `after`, `amount` leaves what `account` has earned in `token`, and `told` is
/// published. Nothing else changes.
pub open spec fn takes_earnings(
    before: VaultState,
    after: VaultState,
    account: Address,
    token: Address,
    amount: i128,
    told: Event,
) -> bool {
    &&& amount_of(after.balances, account, token) == amount_of(before.balances, account, token)
        - amount
    &&& after.balances == before.balances.insert(
        (account, token),
        after.balances[(account, token)],
    )
    &&& after == (VaultState {
        balances: after.balances,
        events: before.events.push(told),
        ..before
    })
}

/// A merchant is paid out of what the merchant has earned in a token, and of nothing else.
pub proof fn law_merchant_withdrawals_do_what_they_say(
    state: VaultState,
    merchant: Address,
    token: Address,
    amount: i128,
    held: i128,
)
    ensures
        ({
            let request = Request::WithdrawMerchantTokenFunds { merchant, token, amount, held };
            &&& payout_is_answered(state, merchant, token, amount, held, state.refusal(request))
            &&& state.refusal(request) is None ==> takes_earnings(
                state,
                state.after(request),
                merchant,
                token,
                amount,
                Event::MerchantWithdrawal {
                    merchant,
                    token,
                    amount,
                    remaining_balance: (amount_of(state.balances, merchant, token)
                        - amount) as i128,
                    timestamp: state.timestamp,
                },
            )
        }),
{
}

/// A refund by a merchant is paid out of what the merchant has earned in a token, and of nothing else.
pub proof fn law_merchant_refunds_do_what_they_say(
    state: VaultState,
    merchant: Address,
    subscriber: Address,
    token: Address,
    amount: i128,
    held: i128,
)
    ensures
        ({
            let request = Request::MerchantRefund { merchant, subscriber, token, amount, held };
            &&& payout_is_answered(state, merchant, token, amount, held, state.refusal(request))
            &&& state.refusal(request) is None ==> takes_earnings(
                state,
                state.after(request),
                merchant,
                token,
                amount,
                Event::MerchantRefund {
                    merchant,
                    subscriber,
                    token,
                    amount,
                    timestamp: state.timestamp,
                },
            )
        }),
{
}

/// A subscriber is paid the whole balance of a cancelled subscription, and of no other. Nothing else
/// changes.
pub proof fn law_subscriber_withdrawals_do_what_they_say(
    state: VaultState,
    id: u32,
    subscriber: Address,
    held: i128,
)
    ensures
        ({
            let request = Request::WithdrawSubscriberFunds { id, subscriber, held };
            let refusal = state.refusal(request);
            let after = state.after(request);
            let subscription = state.subscriptions[id];
            let signed = state.signers.covers(subscriber);
            let stored = signed && state.subscriptions.contains_key(id);
            let own = stored && subscriber == subscription.subscriber;
            let cancelled = own && subscription.status == SubscriptionStatus::Cancelled;
            let filled = cancelled && 0 < subscription.prepaid_balance;
            let payable = filled && subscription.prepaid_balance <= held;
            &&& refusal == Some(Failure::Abort) <==> !signed
            &&& refusal == turned_down(Error::NotFound) <==> signed && !stored
            &&& refusal == turned_down(Error::Forbidden) <==> stored && !own
            &&& refusal == turned_down(Error::InvalidStatusTransition) <==> own && !cancelled
            &&& refusal == turned_down(Error::InsufficientBalance) <==> cancelled && !filled
            &&& refusal == Some(Failure::Token) <==> filled && !payable
            &&& refusal is None <==> payable
            &&& refusal is None ==> after == (VaultState {
                subscriptions: state.subscriptions.insert(
                    id,
                    Subscription { prepaid_balance: 0, ..subscription },
                ),
                events: state.events.push(
                    Event::SubscriberWithdrawal {
                        subscription_id: id,
                        subscriber,
                        token: subscription.token,
                        amount: subscription.prepaid_balance,
                        timestamp: state.timestamp,
                    },
                ),
                ..state
            })
        }),
{
}

/// The admin pays part of a balance back, to the subscriber whose balance it is. Nothing else changes.
pub proof fn law_partial_refunds_do_what_they_say(
    state: VaultState,
    admin: Address,
    id: u32,
    subscriber: Address,
    amount: i128,
    held: i128,
)
    ensures
        ({
            let request = Request::PartialRefund { admin, id, subscriber, amount, held };
            let refusal = state.refusal(request);
            let after = state.after(request);
            let before = state.subscriptions[id];
            let now = after.subscriptions[id];
            let signed = state.signers.covers(admin);
            let office = signed && admin == state.config.admin;
            let stored = office && state.subscriptions.contains_key(id);
            let own = stored && subscriber == before.subscriber;
            let positive = own && 0 < amount;
            let covered = positive && amount <= before.prepaid_balance;
            let payable = covered && amount <= held;
            &&& refusal == Some(Failure::Abort) <==> !signed
            &&& refusal == turned_down(Error::Unauthorized) <==> signed && !office
            &&& refusal == turned_down(Error::NotFound) <==> office && !stored
            &&& refusal == turned_down(Error::InvalidInput) <==> stored && !own
            &&& refusal == turned_down(Error::InvalidAmount) <==> own && !positive
            &&& refusal == turned_down(Error::InsufficientBalance) <==> positive && !covered
            &&& refusal == Some(Failure::Token) <==> covered && !payable
            &&& refusal is None <==> payable
            &&& refusal is None ==> {
                &&& now.prepaid_balance == before.prepaid_balance - amount
                &&& now == (Subscription { prepaid_balance: now.prepaid_balance, ..before })
                &&& after == (VaultState {
                    subscriptions: state.subscriptions.insert(id, now),
                    events: state.events.push(
                        Event::PartialRefund {
                            subscription_id: id,
                            subscriber,
                            token: before.token,
                            amount,
                            timestamp: state.timestamp,
                        },
                    ),
                    ..state
                })
            }
        }),
{
}

/// The admin pays stranded funds out under a name that has not been used before. The name is used from
/// then on; balances and earnings stay as they are.
pub proof fn law_recoveries_do_what_they_say(
    state: VaultState,
    admin: Address,
    token: Address,
    recipient: Address,
    amount: i128,
    recovery_id: String,
    reason: RecoveryReason,
    held: i128,
)
    ensures
        ({
            let request = Request::RecoverStrandedFunds {
                admin,
                token,
                recipient,
                amount,
                recovery_id,
                reason,
                held,
            };
            let refusal = state.refusal(request);
            let after = state.after(request);
            let signed = state.signers.covers(admin);
            let office = signed && admin == state.config.admin;
            let positive = office && 0 < amount;
            let unused = positive && (forall|i: int|
                0 <= i < state.recovery_ids.len() ==> #[trigger] state.recovery_ids[i]
                    != recovery_id@);
            let payable = unused && amount <= held;
            &&& refusal == Some(Failure::Abort) <==> !signed
            &&& refusal == turned_down(Error::Unauthorized) <==> signed && !office
            &&& refusal == turned_down(Error::InvalidAmount) <==> office && !positive
            &&& refusal == turned_down(Error::Replay) <==> positive && !unused
            &&& refusal == Some(Failure::Token) <==> unused && !payable
            &&& refusal is None <==> payable
            &&& refusal is None ==> after == (VaultState {
                recovery_ids: state.recovery_ids.push(recovery_id@),
                events: state.events.push(
                    Event::Recovery {
                        admin,
                        recipient,
                        token,
                        amount,
                        reason,
                        timestamp: state.timestamp,
                    },
                ),
                ..state
            })
        }),
{
}

} // verus!
