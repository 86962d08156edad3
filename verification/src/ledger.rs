//! What the vault owes, and that charging moves money without making or losing any.
use crate::address::Address;
use crate::billing::{debited, lemma_fee_is_a_share};
use crate::host::{as_numbers, host_items};
use crate::requests::{Call, Request};
use crate::types::{ChargeExecutionResult, Subscription};
use crate::vault::VaultState;
use vstd::prelude::*;

verus! {

/// What subscription `id` holds in `token`.
pub open spec fn prepaid(subscriptions: Map<u32, Subscription>, token: Address, id: int) -> int {
    if subscriptions.contains_key(id as u32) && subscriptions[id as u32].token == token {
        subscriptions[id as u32].prepaid_balance as int
    } else {
        0
    }
}

/// What the subscriptions below `end` hold in `token`.
pub open spec fn total_prepaid(
    subscriptions: Map<u32, Subscription>,
    token: Address,
    end: nat,
) -> int
    decreases end,
{
    if end == 0 {
        0
    } else {
        total_prepaid(subscriptions, token, (end - 1) as nat) + prepaid(
            subscriptions,
            token,
            end - 1,
        )
    }
}

/// What account `id` has earned in `token`.
pub open spec fn earned_by(
    balances: Map<(Address, Address), i128>,
    token: Address,
    id: int,
) -> int {
    let holder = (Address { id: id as u64 }, token);
    if balances.contains_key(holder) {
        balances[holder] as int
    } else {
        0
    }
}

/// What the accounts below `end` have earned in `token`.
pub open spec fn total_earned(
    balances: Map<(Address, Address), i128>,
    token: Address,
    end: nat,
) -> int
    decreases end,
{
    if end == 0 {
        0
    } else {
        total_earned(balances, token, (end - 1) as nat) + earned_by(balances, token, end - 1)
    }
}

impl VaultState {
    /// What the vault owes in `token`: the balances of all subscriptions, and all earnings.
    pub open spec fn owes(self, token: Address) -> int {
        total_prepaid(self.subscriptions, token, 0x1_0000_0000) + total_earned(
            self.balances,
            token,
            0x1_0000_0000_0000_0000,
        )
    }

    /// What a request that is not refused brings into the vault in `token`, less what it pays out of
    /// balances and earnings.
    pub open spec fn inflow(self, request: Request, token: Address) -> int {
        match request {
            Request::DepositFunds { id, amount, .. } => if self.subscriptions[id].token == token {
                amount as int
            } else {
                0
            },
            Request::WithdrawMerchantTokenFunds { token: paid, amount, .. } => if paid == token {
                -amount
            } else {
                0
            },
            Request::MerchantRefund { token: paid, amount, .. } => if paid == token {
                -amount
            } else {
                0
            },
            Request::WithdrawSubscriberFunds { id, .. } => -prepaid(
                self.subscriptions,
                token,
                id as int,
            ),
            Request::PartialRefund { id, amount, .. } => if self.subscriptions[id].token == token {
                -amount
            } else {
                0
            },
            _ => 0,
        }
    }

    /// What comes in over a sequence of calls, less what is paid out.
    pub open spec fn total_inflow(self, calls: Seq<Call>, token: Address) -> int
        decreases calls.len(),
    {
        if calls.len() == 0 {
            0
        } else {
            let called = self.after_all(calls.drop_last()).at(calls.last());
            let request = calls.last().request;
            self.total_inflow(calls.drop_last(), token) + if called.refusal(request) is Some {
                0
            } else {
                called.inflow(request, token)
            }
        }
    }
}

/// Replacing one subscription changes the total by the difference that it makes.
proof fn lemma_prepaid_after_store(
    subscriptions: Map<u32, Subscription>,
    id: u32,
    next: Subscription,
    token: Address,
    end: nat,
)
    requires
        end <= 0x1_0000_0000,
    ensures
        total_prepaid(subscriptions.insert(id, next), token, end) == total_prepaid(
            subscriptions,
            token,
            end,
        ) + if id < end {
            prepaid(subscriptions.insert(id, next), token, id as int) - prepaid(
                subscriptions,
                token,
                id as int,
            )
        } else {
            0
        },
    decreases end,
{
    if end > 0 {
        lemma_prepaid_after_store(subscriptions, id, next, token, (end - 1) as nat);
        if id != end - 1 {
            assert((end - 1) as u32 != id);
        }
    }
}

/// Setting one balance changes the total by the difference that it makes.
proof fn lemma_earned_after_set(
    balances: Map<(Address, Address), i128>,
    account: Address,
    paid: Address,
    amount: i128,
    token: Address,
    end: nat,
)
    requires
        end <= 0x1_0000_0000_0000_0000,
    ensures
        total_earned(balances.insert((account, paid), amount), token, end) == total_earned(
            balances,
            token,
            end,
        ) + if account.id < end && paid == token {
            amount - earned_by(balances, token, account.id as int)
        } else {
            0
        },
    decreases end,
{
    if end > 0 {
        lemma_earned_after_set(balances, account, paid, amount, token, (end - 1) as nat);
        if account.id != end - 1 {
            assert((end - 1) as u64 != account.id);
            assert(Address { id: (end - 1) as u64 } != account);
        } else {
            assert(Address { id: (end - 1) as u64 } == account);
        }
    }
}

/// What storing a subscription does to what the vault owes.
proof fn lemma_owes_after_store(state: VaultState, id: u32, next: Subscription, token: Address)
    ensures
        state.with_subscription(id, next).owes(token) == state.owes(token) + prepaid(
            state.with_subscription(id, next).subscriptions,
            token,
            id as int,
        ) - prepaid(state.subscriptions, token, id as int),
{
    lemma_prepaid_after_store(state.subscriptions, id, next, token, 0x1_0000_0000);
}

/// What setting earnings does to what the vault owes.
proof fn lemma_owes_after_set(
    state: VaultState,
    account: Address,
    paid: Address,
    amount: i128,
    token: Address,
)
    ensures
        state.with_balance(account, paid, amount).owes(token) == state.owes(token) + if paid
            == token {
            amount - state.earned(account, token)
        } else {
            0
        },
{
    lemma_earned_after_set(
        state.balances,
        account,
        paid,
        amount,
        token,
        0x1_0000_0000_0000_0000,
    );
}

/// Sharing a charge out adds its amount to what the vault owes.
proof fn lemma_owes_after_sharing(
    state: VaultState,
    merchant: Address,
    paid: Address,
    amount: i128,
    token: Address,
)
    requires
        state.wf(),
        0 <= amount,
        state.can_share_out(merchant, paid, amount),
    ensures
        state.shared_out(merchant, paid, amount).owes(token) == state.owes(token) + if paid
            == token {
            amount as int
        } else {
            0
        },
{
    lemma_fee_is_a_share(state, amount as int);
    let fee = state.fee(amount as int);
    let credited = state.credited(merchant, paid, amount - fee);
    lemma_owes_after_set(
        state,
        merchant,
        paid,
        (state.earned(merchant, paid) + amount - fee) as i128,
        token,
    );
    if fee > 0 {
        let treasury = state.config.protocol_fee->0.treasury;
        lemma_owes_after_set(
            credited,
            treasury,
            paid,
            (credited.earned(treasury, paid) + fee) as i128,
            token,
        );
    }
}

/// Charging moves money from a balance to earnings: what the vault owes stays the same.
pub proof fn law_attempts_conserve_money(state: VaultState, id: u32, token: Address)
    requires
        state.wf(),
    ensures
        state.attempted(id).owes(token) == state.owes(token),
{
    if state.charge_refusal(id) is None {
        let before = state.subscriptions[id];
        match state.charge_outcome(id) {
            ChargeExecutionResult::Expired => {
                lemma_owes_after_store(state, id, state.expired(id).subscriptions[id], token);
            },
            ChargeExecutionResult::InsufficientBalance => {
                lemma_owes_after_store(state, id, state.charge_failed(id).subscriptions[id], token);
            },
            ChargeExecutionResult::Charged => {
                let after = Subscription {
                    last_payment_timestamp: state.timestamp,
                    ..debited(before, before.amount)
                };
                let debited = state.with_subscription(id, after);
                crate::lifecycle::lemma_store_keeps_wf(state, id, after);
                lemma_owes_after_store(state, id, after, token);
                lemma_owes_after_sharing(
                    debited,
                    before.merchant,
                    before.token,
                    before.amount,
                    token,
                );
            },
        }
    }
}

/// A batch of charges leaves what the vault owes the same.
pub proof fn law_batches_conserve_money(state: VaultState, ids: Seq<u32>, token: Address)
    requires
        state.wf(),
        state.counter_is_ahead(),
    ensures
        state.all_attempted(ids).owes(token) == state.owes(token),
    decreases ids.len(),
{
    if ids.len() > 0 {
        law_batches_conserve_money(state, ids.drop_last(), token);
        crate::laws::law_batches_go_on(state, ids.drop_last());
        law_attempts_conserve_money(state.all_attempted(ids.drop_last()), ids.last(), token);
    }
}

/// Money is neither made nor lost: what the vault owes changes by what comes in and what is paid out,
/// and by nothing else.
pub proof fn law_every_request_conserves_money(state: VaultState, request: Request, token: Address)
    requires
        state.wf(),
        state.counter_is_ahead(),
    ensures
        state.after(request).owes(token) == state.owes(token) + if state.refusal(request) is Some {
            0
        } else {
            state.inflow(request, token)
        },
{
    let after = state.after(request);
    if state.refusal(request) is None {
        match request {
            Request::CreateSubscription { .. } | Request::CreateSubscriptionFromPlan { .. } => {
                assert(!state.subscriptions.contains_key(state.next_id));
                lemma_owes_after_store(
                    state,
                    state.next_id,
                    after.subscriptions[state.next_id],
                    token,
                );
            },
            Request::PauseSubscription { id, .. }
            | Request::ResumeSubscription { id, .. }
            | Request::CancelSubscription { id, .. }
            | Request::DepositFunds { id, .. }
            | Request::WithdrawSubscriberFunds { id, .. }
            | Request::PartialRefund { id, .. } => {
                assert(state.with_subscription(id, state.subscriptions[id]).subscriptions
                    =~= state.subscriptions);
                lemma_owes_after_store(state, id, after.subscriptions[id], token);
            },
            Request::ChargeSubscription { id } => {
                law_attempts_conserve_money(state, id, token);
            },
            Request::BatchCharge { ids } => {
                law_batches_conserve_money(state, as_numbers(host_items(ids)), token);
            },
            Request::ChargeOneOff { id, merchant, amount } => {
                let before = state.subscriptions[id];
                let debited = state.with_subscription(id, debited(before, amount));
                lemma_owes_after_store(state, id, debited.subscriptions[id], token);
                lemma_owes_after_set(
                    debited,
                    before.merchant,
                    before.token,
                    (state.earned(before.merchant, before.token) + amount) as i128,
                    token,
                );
            },
            Request::WithdrawMerchantTokenFunds { merchant, token: paid, amount, .. } => {
                lemma_owes_after_set(
                    state,
                    merchant,
                    paid,
                    (state.earned(merchant, paid) - amount) as i128,
                    token,
                );
            },
            Request::MerchantRefund { merchant, token: paid, amount, .. } => {
                lemma_owes_after_set(
                    state,
                    merchant,
                    paid,
                    (state.earned(merchant, paid) - amount) as i128,
                    token,
                );
            },
            _ => {
                assert(after.subscriptions == state.subscriptions);
                assert(after.balances == state.balances);
            },
        }
    }
}

/// Over any sequence of calls, what the vault owes in a token is what it owed before, with what has
/// come in and without what has been paid out.
pub proof fn law_every_history_conserves_money(
    state: VaultState,
    calls: Seq<Call>,
    token: Address,
)
    requires
        state.wf(),
        state.counter_is_ahead(),
    ensures
        state.after_all(calls).owes(token) == state.owes(token) + state.total_inflow(calls, token),
    decreases calls.len(),
{
    if calls.len() > 0 {
        law_every_history_conserves_money(state, calls.drop_last(), token);
        crate::laws::law_every_history_goes_on(state, calls.drop_last());
        law_every_request_conserves_money(
            state.after_all(calls.drop_last()).at(calls.last()),
            calls.last().request,
            token,
        );
    }
}

} // verus!
