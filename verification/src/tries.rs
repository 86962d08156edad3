//! What the tries of the harness amount to: which requests they make, and which tokens move with them.
use crate::address::Address;
use crate::error::{Error, Failure, Signers};
use crate::harness::{holding, reply_text, sendable, sent, FuzzHarness};
use crate::host::{as_numbers, holds_numbers, host_items};
use crate::policy::{allowed, denial};
use crate::requests::Request;
use crate::roles::{Operation, Role};
use crate::status::SubscriptionStatus;
use crate::types::{OracleConfig, RecoveryReason, UsageLimits};
use crate::vault::VaultState;
use vstd::prelude::*;

verus! {

/// The request that a try of `op` in the name of `address` makes. A recovery goes by `name`, and a batch
/// is the list `batch`.
pub open spec fn tried(
    harness: FuzzHarness,
    holdings: Map<(Address, Address), i128>,
    op: Operation,
    address: Address,
    fresh: Address,
    name: String,
    batch: soroban_sdk::Vec<u32>,
) -> Request {
    let id = harness.subscription_id;
    let token = harness.token;
    let subscriber = harness.subscriber;
    let to_address = sendable(holdings, token, harness.contract, address);
    let to_subscriber = sendable(holdings, token, harness.contract, subscriber);
    match op {
        Operation::SetMinTopup => Request::SetMinTopup { admin: address, min_topup: 2_000_000 },
        Operation::RotateAdmin => Request::RotateAdmin {
            admin: address,
            new_admin: harness.new_admin,
        },
        Operation::SetProtocolFee => Request::SetProtocolFee {
            admin: address,
            treasury: harness.new_admin,
            fee_bps: 0,
        },
        Operation::RecoverStrandedFunds => Request::RecoverStrandedFunds {
            admin: address,
            token,
            recipient: fresh,
            amount: 1,
            recovery_id: name,
            reason: RecoveryReason::UserOverpayment,
            held: sendable(holdings, token, harness.contract, fresh),
        },
        Operation::EnableEmergencyStop => Request::EnableEmergencyStop { admin: address },
        Operation::DisableEmergencyStop => Request::DisableEmergencyStop { admin: address },
        Operation::DepositFunds => Request::DepositFunds {
            id,
            payer: address,
            amount: 5_000_000,
            wallet: sendable(holdings, token, address, harness.contract),
        },
        Operation::CancelSubscription => Request::CancelSubscription { id, authorizer: address },
        Operation::PauseSubscription => Request::PauseSubscription { id, authorizer: address },
        Operation::ResumeSubscription => Request::ResumeSubscription { id, authorizer: address },
        Operation::ChargeOneOff => Request::ChargeOneOff {
            id,
            merchant: address,
            amount: 1_000_000,
        },
        Operation::WithdrawSubscriberFunds => Request::WithdrawSubscriberFunds {
            id,
            subscriber: address,
            held: to_address,
        },
        Operation::WithdrawMerchantFunds | Operation::WithdrawMerchantTokenFunds =>
            Request::WithdrawMerchantTokenFunds {
                merchant: address,
                token,
                amount: 1_000_000,
                held: to_address,
            },
        Operation::PauseMerchant => Request::PauseMerchant { merchant: harness.merchant },
        Operation::UnpauseMerchant => Request::UnpauseMerchant { merchant: harness.merchant },
        Operation::MerchantRefund => Request::MerchantRefund {
            merchant: address,
            subscriber,
            token,
            amount: 1_000_000,
            held: to_subscriber,
        },
        Operation::ConfigureUsageLimits => Request::ConfigureUsageLimits {
            merchant: address,
            id,
            limits: UsageLimits {
                rate_limit_max_calls: Some(100),
                rate_window_seconds: 3600,
                burst_min_interval_seconds: 60,
                usage_cap: None,
            },
        },
        Operation::PartialRefund => Request::PartialRefund {
            admin: address,
            id,
            subscriber,
            amount: 1_000_000,
            held: to_subscriber,
        },
        Operation::BatchCharge => Request::BatchCharge { ids: batch },
        Operation::AddAcceptedToken => Request::AddAcceptedToken {
            admin: address,
            token: fresh,
            decimals: 6,
        },
        Operation::RemoveAcceptedToken => Request::RemoveAcceptedToken {
            admin: address,
            token: fresh,
        },
        Operation::SetSubscriberCreditLimit => Request::SetSubscriberCreditLimit {
            admin: address,
            subscriber,
            token,
            credit_limit: 100_000_000,
        },
        Operation::ExportContractSnapshot => Request::ExportContractSnapshot { admin: address },
        Operation::ExportSubscriptionSummary => Request::ExportSubscriptionSummary {
            admin: address,
            id,
        },
        Operation::ExportSubscriptionSummaries => Request::ExportSubscriptionSummaries {
            admin: address,
            start: 0,
            limit: 1,
        },
        Operation::SetBillingRetention => Request::SetBillingRetention {
            admin: address,
            retention: 5,
        },
        Operation::CompactBillingStatements => Request::CompactBillingStatements {
            admin: address,
            id,
            keep: None,
        },
        Operation::SetOracleConfig => Request::SetOracleConfig {
            admin: address,
            oracle: OracleConfig { enabled: false, oracle: None, max_age_seconds: 0 },
        },
        Operation::AddToBlocklist => Request::AddToBlocklist {
            authorizer: address,
            subscriber: harness.blocklist_victim,
            reason: None,
        },
        Operation::RemoveFromBlocklist => Request::RemoveFromBlocklist {
            admin: address,
            subscriber: harness.blocklist_victim,
        },
    }
}

/// A try is answered as its request is answered, and leaves the vault as its request leaves it.
pub proof fn law_tries_are_requests(
    harness: FuzzHarness,
    p: VaultState,
    holdings: Map<(Address, Address), i128>,
    op: Operation,
    address: Address,
    fresh: Address,
    name: String,
    batch: soroban_sdk::Vec<u32>,
)
    requires
        name@ == "auth-fuzz-recovery-1"@,
        host_items(batch) == seq![Some(harness.subscription_id)],
        p.config.token == harness.token,
    ensures
        ({
            let request = tried(harness, holdings, op, address, fresh, name, batch);
            &&& harness.verdict(p, holdings, op, address, fresh) == p.refusal(request)
            &&& p.refusal(request) is None ==> harness.performed(p, op, address, fresh) == p.after(
                request,
            )
        }),
{
    if op == Operation::BatchCharge {
        assert(holds_numbers(host_items(batch)));
        assert(as_numbers(host_items(batch)) =~= seq![harness.subscription_id]);
    }
}

/// The vault is prepared for a try by the requests that it takes, all of them with everyone's signature:
/// there is a stop to be lifted, a pause to be ended, a balance to be charged, earnings to be paid out,
/// a token to be removed, an entry to be deleted.
pub proof fn law_preparations_are_requests(
    harness: FuzzHarness,
    op: Operation,
    is_allowed: bool,
    fresh: Address,
)
    requires
        harness.can_prepare(op),
    ensures
        ({
            let s = VaultState { signers: Signers::Everyone, ..harness.vault@ };
            let p = harness.prepared(op, is_allowed, fresh);
            let id = harness.subscription_id;
            let payer = harness.subscriber;
            let wallet = sendable(harness.holdings@, harness.token, payer, harness.contract);
            let ready = match op {
                Operation::DisableEmergencyStop => s.after(
                    Request::EnableEmergencyStop { admin: harness.admin },
                ),
                Operation::ResumeSubscription => s.after(
                    Request::PauseSubscription { id, authorizer: payer },
                ),
                Operation::ChargeOneOff => s.after(
                    Request::DepositFunds { id, payer, amount: 20_000_000, wallet },
                ),
                Operation::WithdrawSubscriberFunds => s.after(
                    Request::DepositFunds { id, payer, amount: 10_000_000, wallet },
                ).after(Request::CancelSubscription { id, authorizer: payer }),
                Operation::WithdrawMerchantFunds
                | Operation::WithdrawMerchantTokenFunds
                | Operation::MerchantRefund
                | Operation::PartialRefund => s.after(
                    Request::DepositFunds { id, payer, amount: 50_000_000, wallet },
                ).after(
                    Request::ChargeOneOff { id, merchant: harness.merchant, amount: 10_000_000 },
                ),
                Operation::UnpauseMerchant => s.after(
                    Request::PauseMerchant { merchant: harness.merchant },
                ),
                Operation::RemoveAcceptedToken => s.after(
                    Request::AddAcceptedToken { admin: harness.admin, token: fresh, decimals: 6 },
                ),
                Operation::RemoveFromBlocklist => s.after(
                    Request::AddToBlocklist {
                        authorizer: harness.admin,
                        subscriber: harness.blocklist_victim,
                        reason: None,
                    },
                ),
                _ => s,
            };
            let by_signature = op == Operation::BatchCharge || op == Operation::PauseMerchant || op
                == Operation::UnpauseMerchant;
            p == (VaultState {
                signers: if by_signature && !is_allowed {
                    Signers::Nobody
                } else {
                    Signers::Everyone
                },
                ..ready
            })
        }),
{
}

/// An account can send what it holds, as long as the receiver has room for it: never more than it holds,
/// never more than there is room for, and all of it if there is room.
pub proof fn law_accounts_send_what_they_hold(
    holdings: Map<(Address, Address), i128>,
    token: Address,
    from: Address,
    to: Address,
)
    ensures
        ({
            let most = sendable(holdings, token, from, to);
            let held = holding(holdings, token, from);
            let there = holding(holdings, token, to);
            &&& held == if holdings.contains_key((from, token)) {
                holdings[(from, token)]
            } else {
                0
            }
            &&& most <= held
            &&& from == to ==> most == held
            &&& from != to && 0 < there ==> there + most <= i128::MAX
            &&& there + held <= i128::MAX ==> most == held
            &&& most < held ==> there + most == i128::MAX
        }),
{
}

/// Sending takes an amount from one account and gives it to another; nobody else's holdings change, and
/// no other token's.
pub proof fn law_sending_moves_tokens(
    holdings: Map<(Address, Address), i128>,
    token: Address,
    from: Address,
    to: Address,
    amount: i128,
    account: Address,
    other: Address,
)
    requires
        0 < amount <= sendable(holdings, token, from, to),
    ensures
        ({
            let after = sent(holdings, token, from, to, amount);
            &&& holding(after, token, account) == holding(holdings, token, account) - (if account
                == from {
                amount as int
            } else {
                0
            }) + (if account == to {
                amount as int
            } else {
                0
            })
            &&& other != token ==> holding(after, other, account) == holding(
                holdings,
                other,
                account,
            )
        }),
{
}

/// Tokens move with a try exactly as it pays: a deposit from the payer to the vault, a withdrawal from
/// the vault to the one who withdraws, a refund from the vault to the subscriber, a recovery from the
/// vault to the recipient; and with no other try.
pub proof fn law_tokens_move_with_the_tries(
    harness: FuzzHarness,
    p: VaultState,
    holdings: Map<(Address, Address), i128>,
    op: Operation,
    address: Address,
    fresh: Address,
    account: Address,
)
    requires
        harness.verdict(p, holdings, op, address, fresh) is None,
        p.config.token == harness.token,
        p.subscriptions[harness.subscription_id].token == harness.token,
    ensures
        ({
            let after = harness.paid(p, holdings, op, address, fresh);
            let contract = harness.contract;
            let (from, to, amount): (Address, Address, int) = match op {
                Operation::DepositFunds => (address, contract, 5_000_000),
                Operation::WithdrawSubscriberFunds => (
                    contract,
                    address,
                    p.subscriptions[harness.subscription_id].prepaid_balance as int,
                ),
                Operation::WithdrawMerchantFunds | Operation::WithdrawMerchantTokenFunds => (
                    contract,
                    address,
                    1_000_000,
                ),
                Operation::MerchantRefund | Operation::PartialRefund => (
                    contract,
                    harness.subscriber,
                    1_000_000,
                ),
                Operation::RecoverStrandedFunds => (contract, fresh, 1),
                _ => (contract, contract, 0),
            };
            &&& holding(after, harness.token, account) == holding(holdings, harness.token, account)
                - (if account == from {
                amount
            } else {
                0
            }) + (if account == to {
                amount
            } else {
                0
            })
        }),
{
}

/// The admin may do what neither party is there for; the parties share moves and deposits; what is paid
/// out of a subscription is the subscriber's, and what is earned is the merchant's.
pub proof fn law_privileges_go_by_the_caller(op: Operation)
    ensures
        ({
            let shared = op == Operation::DepositFunds || op == Operation::CancelSubscription || op
                == Operation::PauseSubscription || op == Operation::ResumeSubscription;
            let subscribers = op == Operation::WithdrawSubscriberFunds;
            let merchants = op == Operation::ChargeOneOff || op
                == Operation::WithdrawMerchantFunds || op == Operation::WithdrawMerchantTokenFunds
                || op == Operation::PauseMerchant || op == Operation::UnpauseMerchant || op
                == Operation::ConfigureUsageLimits || op == Operation::MerchantRefund;
            &&& allowed(op, Role::Subscriber) <==> shared || subscribers
            &&& allowed(op, Role::Merchant) <==> shared || merchants
            &&& allowed(op, Role::Admin) <==> !shared && !subscribers && !merchants
            &&& !allowed(op, Role::Stranger)
        }),
{
}

/// One who is turned away is unauthorized, but for the fee, the blocklist, the moves and the withdrawal
/// of a subscription and its usage limits, which are forbidden.
pub proof fn law_denials_go_by_the_operation(op: Operation)
    ensures
        denial(op) == Error::Unauthorized || denial(op) == Error::Forbidden,
        denial(op) == Error::Forbidden <==> op == Operation::SetProtocolFee || op
            == Operation::AddToBlocklist || op == Operation::CancelSubscription || op
            == Operation::PauseSubscription || op == Operation::ResumeSubscription || op
            == Operation::WithdrawSubscriberFunds || op == Operation::ConfigureUsageLimits,
{
}

/// A harness on which nothing has been tried has one plan, offered by the merchant, and one active and
/// empty subscription to it, made by the subscriber without an end and without a cap; and the accounts
/// that will pay hold tokens.
pub proof fn law_harnesses_start_with_one_subscription(harness: FuzzHarness, id: u32)
    requires
        harness.is_set_up(),
    ensures
        ({
            let state = harness.vault@;
            let made = state.subscriptions[harness.subscription_id];
            &&& state.subscriptions.contains_key(id) <==> id == harness.subscription_id
            &&& made.subscriber == harness.subscriber
            &&& made.merchant == harness.merchant
            &&& made.token == harness.token
            &&& made.amount == 10_000_000
            &&& made.interval_seconds == 2_592_000
            &&& made.usage_enabled
            &&& made.lifetime_cap is None
            &&& made.expires_at is None
            &&& made.status == SubscriptionStatus::Active
            &&& made.prepaid_balance == 0
            &&& made.start_time == 1_000
            &&& state.timestamp == 1_000
            &&& state.config.admin == harness.admin
            &&& state.config.token == harness.token
            &&& state.config.min_topup == 1_000_000
            &&& state.config.grace_period == 7 * 24 * 60 * 60
            &&& state.plans.len() == 1
            &&& state.plans[0].merchant == harness.merchant
            &&& state.plans[0].amount == 10_000_000
            &&& holding(harness.holdings@, harness.token, harness.subscriber) == 1_000_000_000
            &&& holding(harness.holdings@, harness.token, harness.merchant) == 100_000_000
            &&& holding(harness.holdings@, harness.token, harness.contract) == 100_000_000
            &&& holding(harness.holdings@, harness.token, harness.stranger) == 0
        }),
{
    let accounts = seq![
        harness.contract,
        harness.admin,
        harness.subscriber,
        harness.merchant,
        harness.stranger,
        harness.new_admin,
        harness.blocklist_victim,
        harness.token,
    ];
    assert(accounts.no_duplicates());
    assert(accounts[0] != accounts[2] && accounts[0] != accounts[3] && accounts[2] != accounts[3]);
    assert(accounts[4] != accounts[0] && accounts[4] != accounts[2] && accounts[4] != accounts[3]);
}

/// The name of an error.
pub open spec fn error_name(error: Error) -> Seq<char> {
    match error {
        Error::InvalidStatusTransition => "InvalidStatusTransition"@,
        Error::Unauthorized => "Unauthorized"@,
        Error::BelowMinimumTopup => "BelowMinimumTopup"@,
        Error::Forbidden => "Forbidden"@,
        Error::NotFound => "NotFound"@,
        Error::IntervalNotElapsed => "IntervalNotElapsed"@,
        Error::NotActive => "NotActive"@,
        Error::InsufficientBalance => "InsufficientBalance"@,
        Error::InvalidAmount => "InvalidAmount"@,
        Error::Replay => "Replay"@,
        Error::Overflow => "Overflow"@,
        Error::LifetimeCapReached => "LifetimeCapReached"@,
        Error::SubscriptionLimitReached => "SubscriptionLimitReached"@,
        Error::SubscriptionExpired => "SubscriptionExpired"@,
        Error::InvalidInput => "InvalidInput"@,
        Error::CreditLimitExceeded => "CreditLimitExceeded"@,
    }
}

/// A refusal is written by the name of its error, in the brackets of an error that the vault itself
/// answers with; a success by what it hands back, in the brackets of a success.
pub proof fn law_replies_are_written_by_name(error: Error, value: Seq<char>)
    ensures
        reply_text(Some(Failure::Contract(error)), value) == "Err(Ok("@ + error_name(error) + "))"@,
        reply_text(None, value) == "Ok(Ok("@ + value + "))"@,
{
    reveal_strlit("Err(Ok(");
    reveal_strlit("))");
    match error {
        Error::InvalidStatusTransition => {
            reveal_strlit("InvalidStatusTransition");
            reveal_strlit("Err(Ok(InvalidStatusTransition))");
        },
        Error::Unauthorized => {
            reveal_strlit("Unauthorized");
            reveal_strlit("Err(Ok(Unauthorized))");
        },
        Error::BelowMinimumTopup => {
            reveal_strlit("BelowMinimumTopup");
            reveal_strlit("Err(Ok(BelowMinimumTopup))");
        },
        Error::Forbidden => {
            reveal_strlit("Forbidden");
            reveal_strlit("Err(Ok(Forbidden))");
        },
        Error::NotFound => {
            reveal_strlit("NotFound");
            reveal_strlit("Err(Ok(NotFound))");
        },
        Error::IntervalNotElapsed => {
            reveal_strlit("IntervalNotElapsed");
            reveal_strlit("Err(Ok(IntervalNotElapsed))");
        },
        Error::NotActive => {
            reveal_strlit("NotActive");
            reveal_strlit("Err(Ok(NotActive))");
        },
        Error::InsufficientBalance => {
            reveal_strlit("InsufficientBalance");
            reveal_strlit("Err(Ok(InsufficientBalance))");
        },
        Error::InvalidAmount => {
            reveal_strlit("InvalidAmount");
            reveal_strlit("Err(Ok(InvalidAmount))");
        },
        Error::Replay => {
            reveal_strlit("Replay");
            reveal_strlit("Err(Ok(Replay))");
        },
        Error::Overflow => {
            reveal_strlit("Overflow");
            reveal_strlit("Err(Ok(Overflow))");
        },
        Error::LifetimeCapReached => {
            reveal_strlit("LifetimeCapReached");
            reveal_strlit("Err(Ok(LifetimeCapReached))");
        },
        Error::SubscriptionLimitReached => {
            reveal_strlit("SubscriptionLimitReached");
            reveal_strlit("Err(Ok(SubscriptionLimitReached))");
        },
        Error::SubscriptionExpired => {
            reveal_strlit("SubscriptionExpired");
            reveal_strlit("Err(Ok(SubscriptionExpired))");
        },
        Error::InvalidInput => {
            reveal_strlit("InvalidInput");
            reveal_strlit("Err(Ok(InvalidInput))");
        },
        Error::CreditLimitExceeded => {
            reveal_strlit("CreditLimitExceeded");
            reveal_strlit("Err(Ok(CreditLimitExceeded))");
        },
    }
    assert(reply_text(Some(Failure::Contract(error)), value) =~= "Err(Ok("@ + error_name(error)
        + "))"@);
}

} // verus!
