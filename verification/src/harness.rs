//! A fully set up vault on which every operation can be tried in every role.
use crate::address::{Address, AddressGenerator};
use crate::admin::summaries;
use crate::error::{discard, Error, Failure, Reply, Signers};
use crate::events::Event;
use crate::host::{host_list_of, new_environment};
use crate::lifecycle::SubscriptionTerms;
use crate::policy::{
    allowed, denial, is_operation_allowed, needs_merchant_signature, privilege, reads_as_denial,
    reads_as_success,
};
use crate::roles::{Operation, Role};
use crate::statements::history;
use crate::status::SubscriptionStatus;
use crate::store::AmountBook;
use crate::text::{mentions, stands_at};
use crate::types::{
    CompactionSummary, Config, OracleConfig, PlanTemplate, ProtocolFee, RecoveryReason,
    SubscriptionSummary, UsageLimits,
};
use crate::vault::{initial_state, SubscriptionVault, VaultState};
use crate::wording::{
    charge_results_text, compaction_text, number_text, snapshot_text, summaries_text, summary_text,
    write_charge_results, write_compaction, write_number, write_snapshot, write_summaries,
    write_summary,
};
use vstd::prelude::*;

verus! {

/// The vault, the accounts that take part, and one subscription between two of them.
pub struct FuzzHarness {
    /// The host environment in which batches are put together.
    pub env: soroban_sdk::Env,
    pub vault: SubscriptionVault,
    /// Accounts that nobody uses yet.
    pub addresses: AddressGenerator,
    /// What each account holds in tokens.
    pub holdings: AmountBook,
    /// The account of the vault itself.
    pub contract: Address,
    pub admin: Address,
    pub subscriber: Address,
    pub merchant: Address,
    pub stranger: Address,
    pub new_admin: Address,
    pub token: Address,
    pub subscription_id: u32,
    /// An account without any subscription.
    pub blocklist_victim: Address,
}

/// The state with other signatures.
pub open spec fn signed_by(state: VaultState, signers: Signers) -> VaultState {
    VaultState { signers, ..state }
}

/// The state after a deposit was asked for, taken or not.
pub open spec fn deposit_tried(
    state: VaultState,
    id: u32,
    payer: Address,
    amount: i128,
    wallet: i128,
) -> VaultState {
    if state.deposit_refusal(id, payer, amount, wallet) is None {
        state.deposited(id, payer, amount)
    } else {
        state
    }
}

/// The state after a one-off charge was asked for, made or not.
pub open spec fn one_off_tried(state: VaultState, id: u32, merchant: Address, amount: i128) -> VaultState {
    if state.one_off_refusal(id, merchant, amount) is None {
        state.one_off_charged(id, amount)
    } else {
        state
    }
}

/// The state after a cancellation was asked for, carried out or not.
pub open spec fn cancel_tried(state: VaultState, id: u32, authorizer: Address) -> VaultState {
    if state.move_refusal(id, authorizer, SubscriptionStatus::Cancelled) is None {
        state.moved(id, authorizer, SubscriptionStatus::Cancelled)
    } else {
        state
    }
}

/// The state after an account was to be put on the blocklist, put there or not.
pub open spec fn blocking_tried(state: VaultState, authorizer: Address, subscriber: Address) -> VaultState {
    if state.blocking_refusal(authorizer, subscriber) is None {
        state.blocked(authorizer, subscriber, None)
    } else {
        state
    }
}

/// The signatures that accompany a try of `op`. Everyone signs, so that it is the vault that tells
/// the callers apart; but where an operation goes by the signature alone, an outsider has none.
pub open spec fn mocks(op: Operation, is_allowed: bool) -> Signers {
    if !is_allowed && (op == Operation::BatchCharge || needs_merchant_signature(op)) {
        Signers::Nobody
    } else {
        Signers::Everyone
    }
}

/// What `account` holds in `token`.
pub open spec fn holding(
    holdings: Map<(Address, Address), i128>,
    token: Address,
    account: Address,
) -> i128 {
    if holdings.contains_key((account, token)) {
        holdings[(account, token)]
    } else {
        0
    }
}

/// The most that `from` can send to `to`: what it holds, as far as there is room for it.
pub open spec fn sendable(
    holdings: Map<(Address, Address), i128>,
    token: Address,
    from: Address,
    to: Address,
) -> i128 {
    let available = holding(holdings, token, from);
    let there = holding(holdings, token, to);
    if from == to || there <= 0 || available + there <= i128::MAX {
        available
    } else {
        (i128::MAX - there) as i128
    }
}

/// The holdings once `from` has sent `amount` to `to`.
pub open spec fn sent(
    holdings: Map<(Address, Address), i128>,
    token: Address,
    from: Address,
    to: Address,
    amount: i128,
) -> Map<(Address, Address), i128> {
    let debited = holdings.insert(
        (from, token),
        (holding(holdings, token, from) - amount) as i128,
    );
    debited.insert((to, token), (holding(debited, token, to) + amount) as i128)
}

impl FuzzHarness {

    /// The account that acts in a role.
    pub open spec fn account(&self, role: Role) -> Address {
        match role {
            Role::Admin => self.admin,
            Role::Subscriber => self.subscriber,
            Role::Merchant => self.merchant,
            Role::Stranger => self.stranger,
        }
    }

    /// The plan that the subscription is on.
    pub open spec fn offered_plan(&self) -> PlanTemplate {
        PlanTemplate {
            merchant: self.merchant,
            token: self.token,
            amount: 10_000_000,
            interval_seconds: 2_592_000,
            usage_enabled: true,
            lifetime_cap: None,
        }
    }

    /// The terms of the subscription.
    pub open spec fn agreed_terms(&self) -> SubscriptionTerms {
        SubscriptionTerms {
            subscriber: self.subscriber,
            merchant: self.merchant,
            token: self.token,
            amount: 10_000_000,
            interval_seconds: 2_592_000,
            usage_enabled: true,
            lifetime_cap: None,
            expires_at: None,
        }
    }

    /// The state of the vault once the subscription has been made.
    pub open spec fn set_up_state(&self) -> VaultState {
        VaultState {
            timestamp: 1_000,
            ..initial_state(self.token, 6, self.admin, 1_000_000, 604_800)
        }.planned(self.offered_plan()).admitted(self.agreed_terms())
    }

    /// All accounts are different from each other and from those that nobody uses yet.
    pub open spec fn accounts_differ(&self) -> bool {
        let accounts = seq![
            self.contract,
            self.admin,
            self.subscriber,
            self.merchant,
            self.stranger,
            self.new_admin,
            self.blocklist_victim,
            self.token,
        ];
        &&& accounts.no_duplicates()
        &&& forall|i: int|
            0 <= i < accounts.len() ==> self.addresses.issued().contains(#[trigger] accounts[i])
        &&& !self.addresses.issued().contains(self.addresses.upcoming())
    }

    /// Nothing has been tried yet.
    pub open spec fn is_set_up(&self) -> bool {
        &&& self.vault@ == self.set_up_state()
        &&& self.subscription_id == 0
        &&& self.accounts_differ()
        &&& self.addresses.remaining() == u64::MAX - 8
        &&& self.holdings@ == Map::<(Address, Address), i128>::empty().insert(
            (self.subscriber, self.token),
            1_000_000_000,
        ).insert((self.merchant, self.token), 100_000_000).insert(
            (self.contract, self.token),
            100_000_000,
        )
    }

    /// The two harnesses have the same accounts and the same subscription.
    pub open spec fn same_cast(&self, other: &FuzzHarness) -> bool {
        &&& self.contract == other.contract
        &&& self.admin == other.admin
        &&& self.subscriber == other.subscriber
        &&& self.merchant == other.merchant
        &&& self.stranger == other.stranger
        &&& self.new_admin == other.new_admin
        &&& self.token == other.token
        &&& self.subscription_id == other.subscription_id
        &&& self.blocklist_victim == other.blocklist_victim
    }

    /// The steps that have to succeed before `op` can be tried do succeed.
    pub open spec fn can_prepare(&self, op: Operation) -> bool {
        let s = signed_by(self.vault@, Signers::Everyone);
        match op {
            Operation::DisableEmergencyStop | Operation::RemoveAcceptedToken => self.admin
                == s.config.admin,
            Operation::ResumeSubscription => s.move_refusal(
                self.subscription_id,
                self.subscriber,
                SubscriptionStatus::Paused,
            ) is None,
            _ => true,
        }
    }

    /// The state in which `op` is tried: what the operation needs has been prepared with everyone's
    /// signature, and the signatures for the try itself are in place.
    pub open spec fn prepared(&self, op: Operation, is_allowed: bool, fresh: Address) -> VaultState {
        let s = signed_by(self.vault@, Signers::Everyone);
        let id = self.subscription_id;
        let wallet = sendable(self.holdings@, self.token, self.subscriber, self.contract);
        match op {
            Operation::DisableEmergencyStop => s.stop_switched(true),
            Operation::ResumeSubscription => s.moved(
                id,
                self.subscriber,
                SubscriptionStatus::Paused,
            ),
            Operation::ChargeOneOff => deposit_tried(s, id, self.subscriber, 20_000_000, wallet),
            Operation::WithdrawSubscriberFunds => cancel_tried(
                deposit_tried(s, id, self.subscriber, 10_000_000, wallet),
                id,
                self.subscriber,
            ),
            Operation::WithdrawMerchantFunds
            | Operation::WithdrawMerchantTokenFunds
            | Operation::MerchantRefund
            | Operation::PartialRefund => one_off_tried(
                deposit_tried(s, id, self.subscriber, 50_000_000, wallet),
                id,
                self.merchant,
                10_000_000,
            ),
            Operation::UnpauseMerchant => signed_by(
                s.merchant_switched(self.merchant, true),
                mocks(op, is_allowed),
            ),
            Operation::PauseMerchant => signed_by(s, mocks(op, is_allowed)),
            Operation::RemoveAcceptedToken => VaultState {
                accepted_tokens: s.accepted_tokens.insert(fresh, 6),
                ..s
            },
            Operation::RemoveFromBlocklist => blocking_tried(s, self.admin, self.blocklist_victim),
            Operation::BatchCharge => signed_by(s, mocks(op, is_allowed)),
            _ => s,
        }
    }

    /// What the subscriber pays into the subscription before `op` is tried; zero stands for nothing.
    pub open spec fn advance(op: Operation) -> i128 {
        match op {
            Operation::ChargeOneOff => 20_000_000,
            Operation::WithdrawSubscriberFunds => 10_000_000,
            Operation::WithdrawMerchantFunds
            | Operation::WithdrawMerchantTokenFunds
            | Operation::MerchantRefund
            | Operation::PartialRefund => 50_000_000,
            _ => 0,
        }
    }

    /// The holdings once what `op` needs has been prepared.
    pub open spec fn prepared_holdings(&self, op: Operation) -> Map<(Address, Address), i128> {
        let wallet = sendable(self.holdings@, self.token, self.subscriber, self.contract);
        if Self::advance(op) > 0 && signed_by(self.vault@, Signers::Everyone).deposit_refusal(
            self.subscription_id,
            self.subscriber,
            Self::advance(op),
            wallet,
        ) is None {
            sent(
                self.holdings@,
                self.token,
                self.subscriber,
                self.contract,
                Self::advance(op),
            )
        } else {
            self.holdings@
        }
    }

    /// Why the try of `op` by `address` is refused, in state `p` and with holdings `h`. Operations that
    /// need one more account use `fresh`.
    pub open spec fn verdict(
        &self,
        p: VaultState,
        h: Map<(Address, Address), i128>,
        op: Operation,
        address: Address,
        fresh: Address,
    ) -> Option<Failure> {
        match op {
            Operation::SetMinTopup => p.admin_refusal(address, Error::Unauthorized),
            Operation::RotateAdmin => p.admin_refusal(address, Error::Unauthorized),
            Operation::SetProtocolFee => p.fee_refusal(address, 0),
            Operation::RecoverStrandedFunds => p.recovery_refusal(
                address,
                1,
                "auth-fuzz-recovery-1"@,
                sendable(h, self.token, self.contract, fresh),
            ),
            Operation::EnableEmergencyStop => p.admin_refusal(address, Error::Unauthorized),
            Operation::DisableEmergencyStop => p.admin_refusal(address, Error::Unauthorized),
            Operation::DepositFunds => p.deposit_refusal(
                self.subscription_id,
                address,
                5_000_000,
                sendable(h, self.token, address, self.contract),
            ),
            Operation::CancelSubscription => p.move_refusal(
                self.subscription_id,
                address,
                SubscriptionStatus::Cancelled,
            ),
            Operation::PauseSubscription => p.move_refusal(
                self.subscription_id,
                address,
                SubscriptionStatus::Paused,
            ),
            Operation::ResumeSubscription => p.move_refusal(
                self.subscription_id,
                address,
                SubscriptionStatus::Active,
            ),
            Operation::ChargeOneOff => p.one_off_refusal(self.subscription_id, address, 1_000_000),
            Operation::WithdrawSubscriberFunds => p.withdrawal_refusal(
                self.subscription_id,
                address,
                sendable(h, self.token, self.contract, address),
            ),
            Operation::WithdrawMerchantFunds => p.payout_refusal(
                address,
                p.config.token,
                1_000_000,
                sendable(h, self.token, self.contract, address),
            ),
            Operation::WithdrawMerchantTokenFunds => p.payout_refusal(
                address,
                self.token,
                1_000_000,
                sendable(h, self.token, self.contract, address),
            ),
            Operation::PauseMerchant => p.signature_refusal(self.merchant),
            Operation::UnpauseMerchant => p.signature_refusal(self.merchant),
            Operation::MerchantRefund => p.payout_refusal(
                address,
                self.token,
                1_000_000,
                sendable(h, self.token, self.contract, self.subscriber),
            ),
            Operation::ConfigureUsageLimits => p.usage_refusal(address, self.subscription_id),
            Operation::PartialRefund => p.partial_refund_refusal(
                address,
                self.subscription_id,
                self.subscriber,
                1_000_000,
                sendable(h, self.token, self.contract, self.subscriber),
            ),
            Operation::BatchCharge => p.signature_refusal(p.config.admin),
            Operation::AddAcceptedToken => p.admin_refusal(address, Error::Unauthorized),
            Operation::RemoveAcceptedToken => p.token_removal_refusal(address, fresh),
            Operation::SetSubscriberCreditLimit => p.admin_refusal(address, Error::Unauthorized),
            Operation::ExportContractSnapshot => p.admin_refusal(address, Error::Unauthorized),
            Operation::ExportSubscriptionSummary => p.admin_lookup_refusal(
                address,
                self.subscription_id,
            ),
            Operation::ExportSubscriptionSummaries => p.export_refusal(address, 1),
            Operation::SetBillingRetention => p.admin_refusal(address, Error::Unauthorized),
            Operation::CompactBillingStatements => p.admin_lookup_refusal(
                address,
                self.subscription_id,
            ),
            Operation::SetOracleConfig => p.admin_refusal(address, Error::Unauthorized),
            Operation::AddToBlocklist => p.blocking_refusal(address, self.blocklist_victim),
            Operation::RemoveFromBlocklist => p.unblocking_refusal(address, self.blocklist_victim),
        }
    }

    /// The state after a try of `op` by `address` that is not refused.
    pub open spec fn performed(
        &self,
        p: VaultState,
        op: Operation,
        address: Address,
        fresh: Address,
    ) -> VaultState {
        match op {
            Operation::SetMinTopup => p.with_config(Config { min_topup: 2_000_000, ..p.config }),
            Operation::RotateAdmin => p.with_config(
                Config { admin: self.new_admin, ..p.config },
            ).published(
                Event::AdminRotated {
                    old_admin: address,
                    new_admin: self.new_admin,
                    timestamp: p.timestamp,
                },
            ),
            Operation::SetProtocolFee => p.with_config(
                Config {
                    protocol_fee: Some(ProtocolFee { treasury: self.new_admin, fee_bps: 0 }),
                    ..p.config
                },
            ).published(
                Event::ProtocolFeeConfigured {
                    admin: address,
                    treasury: self.new_admin,
                    fee_bps: 0,
                    timestamp: p.timestamp,
                },
            ),
            Operation::RecoverStrandedFunds => p.recovered(
                self.token,
                fresh,
                1,
                "auth-fuzz-recovery-1"@,
                RecoveryReason::UserOverpayment,
            ),
            Operation::EnableEmergencyStop => p.stop_switched(true),
            Operation::DisableEmergencyStop => p.stop_switched(false),
            Operation::DepositFunds => p.deposited(self.subscription_id, address, 5_000_000),
            Operation::CancelSubscription => p.moved(
                self.subscription_id,
                address,
                SubscriptionStatus::Cancelled,
            ),
            Operation::PauseSubscription => p.moved(
                self.subscription_id,
                address,
                SubscriptionStatus::Paused,
            ),
            Operation::ResumeSubscription => p.moved(
                self.subscription_id,
                address,
                SubscriptionStatus::Active,
            ),
            Operation::ChargeOneOff => p.one_off_charged(self.subscription_id, 1_000_000),
            Operation::WithdrawSubscriberFunds => p.subscriber_withdrawn(self.subscription_id),
            Operation::WithdrawMerchantFunds => p.merchant_withdrawn(
                address,
                p.config.token,
                1_000_000,
            ),
            Operation::WithdrawMerchantTokenFunds => p.merchant_withdrawn(
                address,
                self.token,
                1_000_000,
            ),
            Operation::PauseMerchant => p.merchant_switched(self.merchant, true),
            Operation::UnpauseMerchant => p.merchant_switched(self.merchant, false),
            Operation::MerchantRefund => p.merchant_refunded(
                address,
                self.subscriber,
                self.token,
                1_000_000,
            ),
            Operation::ConfigureUsageLimits => VaultState {
                usage_limits: p.usage_limits.insert(
                    self.subscription_id,
                    UsageLimits {
                        rate_limit_max_calls: Some(100),
                        rate_window_seconds: 3600,
                        burst_min_interval_seconds: 60,
                        usage_cap: None,
                    },
                ),
                ..p
            },
            Operation::PartialRefund => p.partially_refunded(self.subscription_id, 1_000_000),
            Operation::BatchCharge => p.all_attempted(seq![self.subscription_id]),
            Operation::AddAcceptedToken => VaultState {
                accepted_tokens: p.accepted_tokens.insert(fresh, 6),
                ..p
            },
            Operation::RemoveAcceptedToken => VaultState {
                accepted_tokens: p.accepted_tokens.remove(fresh),
                ..p
            },
            Operation::SetSubscriberCreditLimit => VaultState {
                credit_limits: p.credit_limits.insert((self.subscriber, self.token), 100_000_000),
                ..p
            },
            Operation::ExportContractSnapshot => p,
            Operation::ExportSubscriptionSummary => p,
            Operation::ExportSubscriptionSummaries => p,
            Operation::SetBillingRetention => p.with_config(
                Config { billing_retention: 5, ..p.config },
            ),
            Operation::CompactBillingStatements => p.compacted(
                self.subscription_id,
                p.config.billing_retention,
            ),
            Operation::SetOracleConfig => p.with_config(
                Config {
                    oracle: OracleConfig { enabled: false, oracle: None, max_age_seconds: 0 },
                    ..p.config
                },
            ),
            Operation::AddToBlocklist => p.blocked(address, self.blocklist_victim, None),
            Operation::RemoveFromBlocklist => p.unblocked(address, self.blocklist_victim),
        }
    }

    /// The holdings after a try of `op` by `address` that is not refused.
    pub open spec fn paid(
        &self,
        p: VaultState,
        h: Map<(Address, Address), i128>,
        op: Operation,
        address: Address,
        fresh: Address,
    ) -> Map<(Address, Address), i128> {
        match op {
            Operation::RecoverStrandedFunds => sent(h, self.token, self.contract, fresh, 1),
            Operation::DepositFunds => sent(h, self.token, address, self.contract, 5_000_000),
            Operation::WithdrawSubscriberFunds => sent(
                h,
                self.token,
                self.contract,
                address,
                p.subscriptions[self.subscription_id].prepaid_balance,
            ),
            Operation::WithdrawMerchantFunds | Operation::WithdrawMerchantTokenFunds => sent(
                h,
                self.token,
                self.contract,
                address,
                1_000_000,
            ),
            Operation::MerchantRefund | Operation::PartialRefund => sent(
                h,
                self.token,
                self.contract,
                self.subscriber,
                1_000_000,
            ),
            _ => h,
        }
    }

    /// The text of what a try of `op` that is not refused hands back.
    pub open spec fn value_text(&self, p: VaultState, op: Operation) -> Seq<char> {
        match op {
            Operation::WithdrawSubscriberFunds => number_text(
                p.subscriptions[self.subscription_id].prepaid_balance as int,
            ),
            Operation::BatchCharge => charge_results_text(
                p.all_results(seq![self.subscription_id]),
            ),
            Operation::ExportContractSnapshot => snapshot_text(p.snapshot()),
            Operation::ExportSubscriptionSummary => summary_text(
                SubscriptionSummary {
                    subscription_id: self.subscription_id,
                    subscription: p.subscriptions[self.subscription_id],
                },
            ),
            Operation::ExportSubscriptionSummaries => summaries_text(
                summaries(p.subscriptions, 0, p.export_end(0, 1)),
            ),
            Operation::CompactBillingStatements => {
                let before = history(p.statements, self.subscription_id);
                compaction_text(
                    CompactionSummary {
                        pruned: before.excess(p.config.billing_retention) as u32,
                        kept: before.trimmed(p.config.billing_retention).statements.len() as u32,
                    },
                )
            },
            _ => "()"@,
        }
    }

    /// Sets a vault up, offers a plan, subscribes to it, and mints tokens to those who will pay.
    pub fn setup() -> (harness: FuzzHarness)
        ensures
            harness.is_set_up(),
            harness.vault@.wf(),
    {
        let env = new_environment();
        let mut addresses = AddressGenerator::new();
        let contract = addresses.generate();
        let admin = addresses.generate();
        let subscriber = addresses.generate();
        let merchant = addresses.generate();
        let stranger = addresses.generate();
        let new_admin = addresses.generate();
        let blocklist_victim = addresses.generate();
        let token = addresses.generate();
        let mut vault = SubscriptionVault::init(token, 6, admin, 1_000_000, 604_800);
        vault.set_timestamp(1_000);
        let plan_id: u32 = match vault.create_plan_template(
            merchant,
            10_000_000,
            2_592_000,
            true,
            None,
        ) {
            Ok(plan_id) => plan_id,
            Err(_) => 0,
        };
        let subscription_id: u32 = match vault.create_subscription_from_plan(subscriber, plan_id) {
            Ok(id) => id,
            Err(_) => 0,
        };
        let mut holdings = AmountBook::new();
        holdings.set(subscriber, token, 1_000_000_000);
        holdings.set(merchant, token, 100_000_000);
        holdings.set(contract, token, 100_000_000);
        let harness = FuzzHarness {
            env,
            vault,
            addresses,
            holdings,
            contract,
            admin,
            subscriber,
            merchant,
            stranger,
            new_admin,
            token,
            subscription_id,
            blocklist_victim,
        };
        proof {
            harness.addresses.law_upcoming_is_unused();
            assert(harness.vault@ =~= harness.set_up_state());
            assert(harness.accounts_differ());
        }
        harness
    }

    /// The account that acts in a role.
    pub fn get_address(&self, role: Role) -> (address: Address)
        ensures
            address == self.account(role),
    {
        match role {
            Role::Admin => self.admin,
            Role::Subscriber => self.subscriber,
            Role::Merchant => self.merchant,
            Role::Stranger => self.stranger,
        }
    }

    /// The error with which the vault answers a role that may not carry an operation out.
    pub fn expected_error_when_denied(op: Operation, _role: Role) -> (error: Error)
        ensures
            error == denial(op),
    {
        match op {
            Operation::SetProtocolFee | Operation::AddToBlocklist => Error::Forbidden,
            Operation::CancelSubscription
            | Operation::PauseSubscription
            | Operation::ResumeSubscription
            | Operation::WithdrawSubscriberFunds
            | Operation::ConfigureUsageLimits => Error::Forbidden,
            _ => Error::Unauthorized,
        }
    }

    /// Whether a role may carry an operation out.
    pub fn is_allowed(&self, op: Operation, caller: Role) -> (permitted: bool)
        ensures
            permitted == allowed(op, caller),
    {
        is_operation_allowed(op, caller)
    }

    /// Whether an outsider's try goes without the merchant's signature.
    fn merchant_op_requires_real_auth_failure(&self, op: Operation) -> (required: bool)
        ensures
            required == needs_merchant_signature(op),
    {
        matches!(op, Operation::PauseMerchant | Operation::UnpauseMerchant)
    }

    /// Puts the signatures for a try in place.
    fn set_auth_mocks(&mut self, op: Operation, is_allowed: bool)
        requires
            old(self).vault@.wf(),
        ensures
            final(self).vault@ == signed_by(old(self).vault@, mocks(op, is_allowed)),
            final(self).vault@.wf(),
            final(self).holdings == old(self).holdings,
            final(self).same_cast(old(self)),
            final(self).addresses == old(self).addresses,
            final(self).env == old(self).env,
    {
        let signers = if op == Operation::BatchCharge {
            if is_allowed {
                Signers::Everyone
            } else {
                Signers::Nobody
            }
        } else if !is_allowed && self.merchant_op_requires_real_auth_failure(op) {
            Signers::Nobody
        } else {
            Signers::Everyone
        };
        self.vault.set_signers(signers);
    }

    /// What `account` holds in the token of the harness.
    fn held_by(&self, account: Address) -> (amount: i128)
        ensures
            amount == holding(self.holdings@, self.token, account),
    {
        match self.holdings.get(account, self.token) {
            Some(amount) => amount,
            None => 0,
        }
    }

    /// The most that `from` can send to `to`.
    fn can_send(&self, from: Address, to: Address) -> (amount: i128)
        ensures
            amount == sendable(self.holdings@, self.token, from, to),
    {
        let available: i128 = self.held_by(from);
        let there: i128 = self.held_by(to);
        if from == to || there <= 0 || available <= i128::MAX - there {
            available
        } else {
            i128::MAX - there
        }
    }

    /// Sends `amount` from one account to another.
    fn send(&mut self, from: Address, to: Address, amount: i128)
        requires
            0 < amount <= sendable(old(self).holdings@, old(self).token, from, to),
        ensures
            final(self).holdings@ == sent(old(self).holdings@, old(self).token, from, to, amount),
            final(self).vault == old(self).vault,
            final(self).addresses == old(self).addresses,
            final(self).env == old(self).env,
            final(self).same_cast(old(self)),
    {
        let token = self.token;
        let left: i128 = self.held_by(from) - amount;
        self.holdings.set(from, token, left);
        let there: i128 = self.held_by(to) + amount;
        self.holdings.set(to, token, there);
    }

    /// Has the subscriber pay into the subscription, if the vault takes it.
    fn pay_in(&mut self, amount: i128)
        requires
            old(self).vault@.wf(),
            0 < amount,
        ensures
            ({
                let id = old(self).subscription_id;
                let subscriber = old(self).subscriber;
                let wallet = sendable(
                    old(self).holdings@,
                    old(self).token,
                    subscriber,
                    old(self).contract,
                );
                &&& final(self).vault@ == deposit_tried(
                    old(self).vault@,
                    id,
                    subscriber,
                    amount,
                    wallet,
                )
                &&& final(self).holdings@ == (if old(self).vault@.deposit_refusal(
                    id,
                    subscriber,
                    amount,
                    wallet,
                ) is None {
                    sent(
                        old(self).holdings@,
                        old(self).token,
                        subscriber,
                        old(self).contract,
                        amount,
                    )
                } else {
                    old(self).holdings@
                })
            }),
            final(self).vault@.wf(),
            final(self).addresses == old(self).addresses,
            final(self).env == old(self).env,
            final(self).same_cast(old(self)),
    {
        let subscriber = self.subscriber;
        let contract = self.contract;
        let wallet: i128 = self.can_send(subscriber, contract);
        if self.vault.deposit_funds(self.subscription_id, subscriber, amount, wallet).is_ok() {
            self.send(subscriber, contract, amount);
        }
    }

    /// Prepares what `op` needs, and puts the signatures for the try in place.
    fn prepare(&mut self, op: Operation, is_allowed: bool, fresh: Address)
        requires
            old(self).vault@.wf(),
            old(self).can_prepare(op),
        ensures
            final(self).vault@ == old(self).prepared(op, is_allowed, fresh),
            final(self).holdings@ == old(self).prepared_holdings(op),
            final(self).vault@.wf(),
            final(self).same_cast(old(self)),
            final(self).addresses == old(self).addresses,
            final(self).env == old(self).env,
    {
        self.vault.set_signers(Signers::Everyone);
        let id: u32 = self.subscription_id;
        match op {
            Operation::DisableEmergencyStop => {
                let _ = self.vault.enable_emergency_stop(self.admin);
            },
            Operation::ResumeSubscription => {
                let _ = self.vault.pause_subscription(id, self.subscriber);
            },
            Operation::ChargeOneOff => {
                self.pay_in(20_000_000);
            },
            Operation::WithdrawSubscriberFunds => {
                self.pay_in(10_000_000);
                let _ = self.vault.cancel_subscription(id, self.subscriber);
            },
            Operation::WithdrawMerchantFunds
            | Operation::WithdrawMerchantTokenFunds
            | Operation::MerchantRefund
            | Operation::PartialRefund => {
                self.pay_in(50_000_000);
                let _ = self.vault.charge_one_off(id, self.merchant, 10_000_000);
            },
            Operation::UnpauseMerchant => {
                let _ = self.vault.pause_merchant(self.merchant);
                self.set_auth_mocks(op, is_allowed);
            },
            Operation::PauseMerchant => self.set_auth_mocks(op, is_allowed),
            Operation::RemoveAcceptedToken => {
                let _ = self.vault.add_accepted_token(self.admin, fresh, 6);
            },
            Operation::RemoveFromBlocklist => {
                let _ = self.vault.add_to_blocklist(self.admin, self.blocklist_victim, None);
            },
            _ => self.set_auth_mocks(op, is_allowed),
        }
    }

    /// Carries `op` out in the name of `address`, and returns the text of what it hands back.
    fn invoke(&mut self, op: Operation, address: Address, fresh: Address) -> (reply: Reply<String>)
        requires
            old(self).vault@.wf(),
        ensures
            ({
                let p = old(self).vault@;
                let h = old(self).holdings@;
                match old(self).verdict(p, h, op, address, fresh) {
                    Some(failure) => {
                        &&& reply == Err::<String, Failure>(failure)
                        &&& final(self).vault@ == p
                        &&& final(self).holdings@ == h
                    },
                    None => {
                        &&& reply is Ok
                        &&& (reply->Ok_0)@ == old(self).value_text(p, op)
                        &&& final(self).vault@ == old(self).performed(p, op, address, fresh)
                        &&& final(self).holdings@ == old(self).paid(p, h, op, address, fresh)
                    },
                }
            }),
            final(self).vault@.wf(),
            final(self).same_cast(old(self)),
            final(self).addresses == old(self).addresses,
    {
        let token = self.token;
        let contract = self.contract;
        let id: u32 = self.subscription_id;
        match op {
            Operation::SetMinTopup => unit(self.vault.set_min_topup(address, 2_000_000)),
            Operation::RotateAdmin => unit(self.vault.rotate_admin(address, self.new_admin)),
            Operation::SetProtocolFee => unit(
                self.vault.set_protocol_fee(address, self.new_admin, 0),
            ),
            Operation::RecoverStrandedFunds => {
                let held: i128 = self.can_send(contract, fresh);
                let reply = self.vault.recover_stranded_funds(
                    address,
                    token,
                    fresh,
                    1,
                    "auth-fuzz-recovery-1".to_owned(),
                    RecoveryReason::UserOverpayment,
                    held,
                );
                if reply.is_ok() {
                    self.send(contract, fresh, 1);
                }
                unit(reply)
            },
            Operation::EnableEmergencyStop => unit(self.vault.enable_emergency_stop(address)),
            Operation::DisableEmergencyStop => unit(self.vault.disable_emergency_stop(address)),
            Operation::DepositFunds => {
                let wallet: i128 = self.can_send(address, contract);
                let reply = self.vault.deposit_funds(id, address, 5_000_000, wallet);
                if reply.is_ok() {
                    self.send(address, contract, 5_000_000);
                }
                unit(reply)
            },
            Operation::CancelSubscription => unit(self.vault.cancel_subscription(id, address)),
            Operation::PauseSubscription => unit(self.vault.pause_subscription(id, address)),
            Operation::ResumeSubscription => unit(self.vault.resume_subscription(id, address)),
            Operation::ChargeOneOff => unit(self.vault.charge_one_off(id, address, 1_000_000)),
            Operation::WithdrawSubscriberFunds => {
                let held: i128 = self.can_send(contract, address);
                match self.vault.withdraw_subscriber_funds(id, address, held) {
                    Ok(amount) => {
                        self.send(contract, address, amount);
                        Ok(write_number(amount))
                    },
                    Err(failure) => Err(failure),
                }
            },
            Operation::WithdrawMerchantFunds => {
                let held: i128 = self.can_send(contract, address);
                let reply = self.vault.withdraw_merchant_funds(address, 1_000_000, held);
                if reply.is_ok() {
                    self.send(contract, address, 1_000_000);
                }
                unit(reply)
            },
            Operation::WithdrawMerchantTokenFunds => {
                let held: i128 = self.can_send(contract, address);
                let reply = self.vault.withdraw_merchant_token_funds(
                    address,
                    token,
                    1_000_000,
                    held,
                );
                if reply.is_ok() {
                    self.send(contract, address, 1_000_000);
                }
                unit(reply)
            },
            Operation::PauseMerchant => unit(self.vault.pause_merchant(self.merchant)),
            Operation::UnpauseMerchant => unit(self.vault.unpause_merchant(self.merchant)),
            Operation::MerchantRefund => {
                let subscriber = self.subscriber;
                let held: i128 = self.can_send(contract, subscriber);
                let reply = self.vault.merchant_refund(
                    address,
                    subscriber,
                    token,
                    1_000_000,
                    held,
                );
                if reply.is_ok() {
                    self.send(contract, subscriber, 1_000_000);
                }
                unit(reply)
            },
            Operation::ConfigureUsageLimits => unit(
                self.vault.configure_usage_limits(address, id, Some(100), 3600, 60, None),
            ),
            Operation::PartialRefund => {
                let subscriber = self.subscriber;
                let held: i128 = self.can_send(contract, subscriber);
                let reply = self.vault.partial_refund(address, id, subscriber, 1_000_000, held);
                if reply.is_ok() {
                    self.send(contract, subscriber, 1_000_000);
                }
                unit(reply)
            },
            Operation::BatchCharge => {
                let ids = [id];
                let batch = host_list_of(&self.env, &ids);
                assert(ids@ =~= seq![id]);
                match self.vault.batch_charge(&batch) {
                    Ok(results) => Ok(write_charge_results(&results)),
                    Err(failure) => Err(failure),
                }
            },
            Operation::AddAcceptedToken => unit(self.vault.add_accepted_token(address, fresh, 6)),
            Operation::RemoveAcceptedToken => unit(
                self.vault.remove_accepted_token(address, fresh),
            ),
            Operation::SetSubscriberCreditLimit => unit(
                self.vault.set_subscriber_credit_limit(
                    address,
                    self.subscriber,
                    token,
                    100_000_000,
                ),
            ),
            Operation::ExportContractSnapshot => match self.vault.export_contract_snapshot(
                address,
            ) {
                Ok(snapshot) => Ok(write_snapshot(&self.env, &snapshot)),
                Err(failure) => Err(failure),
            },
            Operation::ExportSubscriptionSummary => match self.vault.export_subscription_summary(
                address,
                id,
            ) {
                Ok(summary) => Ok(write_summary(&self.env, &summary)),
                Err(failure) => Err(failure),
            },
            Operation::ExportSubscriptionSummaries =>
            match self.vault.export_subscription_summaries(address, 0, 1) {
                Ok(page) => Ok(write_summaries(&self.env, &page)),
                Err(failure) => Err(failure),
            },
            Operation::SetBillingRetention => unit(self.vault.set_billing_retention(address, 5)),
            Operation::CompactBillingStatements => match self.vault.compact_billing_statements(
                address,
                id,
                None,
            ) {
                Ok(summary) => Ok(write_compaction(&summary)),
                Err(failure) => Err(failure),
            },
            Operation::SetOracleConfig => unit(
                self.vault.set_oracle_config(address, false, None, 0),
            ),
            Operation::AddToBlocklist => unit(
                self.vault.add_to_blocklist(address, self.blocklist_victim, None),
            ),
            Operation::RemoveFromBlocklist => unit(
                self.vault.remove_from_blocklist(address, self.blocklist_victim),
            ),
        }
    }

    /// Tries `op` in the name of `address`, after preparing what it needs, and returns the text of
    /// what it hands back.
    fn try_for_text(&mut self, op: Operation, address: Address, is_allowed: bool) -> (reply: Reply<
        String,
    >)
        requires
            old(self).vault@.wf(),
            old(self).can_prepare(op),
            old(self).addresses.remaining() > 0,
        ensures
            ({
                let fresh = old(self).addresses.upcoming();
                let p = old(self).prepared(op, is_allowed, fresh);
                let h = old(self).prepared_holdings(op);
                match old(self).verdict(p, h, op, address, fresh) {
                    Some(failure) => reply == Err::<String, Failure>(failure),
                    None => reply is Ok && (reply->Ok_0)@ == old(self).value_text(p, op),
                }
            }),
            final(self).is_after_try(old(self), op, address, is_allowed),
    {
        let fresh = self.addresses.generate();
        self.prepare(op, is_allowed, fresh);
        self.invoke(op, address, fresh)
    }

    /// This harness is `before` after a try of `op` by `address`: the vault and the holdings are as the
    /// try leaves them, and one more account is in use.
    pub open spec fn is_after_try(
        &self,
        before: &FuzzHarness,
        op: Operation,
        address: Address,
        is_allowed: bool,
    ) -> bool {
        let fresh = before.addresses.upcoming();
        let p = before.prepared(op, is_allowed, fresh);
        let h = before.prepared_holdings(op);
        let succeeds = before.verdict(p, h, op, address, fresh) is None;
        &&& self.vault@ == (if succeeds {
            before.performed(p, op, address, fresh)
        } else {
            p
        })
        &&& self.vault@.wf()
        &&& self.holdings@ == (if succeeds {
            before.paid(p, h, op, address, fresh)
        } else {
            h
        })
        &&& self.same_cast(before)
        &&& self.addresses.issued() == before.addresses.issued().insert(fresh)
        &&& self.addresses.remaining() == before.addresses.remaining() - 1
        &&& forall|n: nat| #[trigger] self.addresses.ahead(n) == before.addresses.ahead(n + 1)
    }

    /// Tries `op` in the name of `address`, after preparing what it needs.
    pub fn try_operation(&mut self, op: Operation, address: Address, is_allowed: bool) -> (reply:
        Reply<()>)
        requires
            old(self).vault@.wf(),
            old(self).can_prepare(op),
            old(self).addresses.remaining() > 0,
        ensures
            ({
                let fresh = old(self).addresses.upcoming();
                let p = old(self).prepared(op, is_allowed, fresh);
                let h = old(self).prepared_holdings(op);
                reply == (match old(self).verdict(p, h, op, address, fresh) {
                    Some(failure) => Err::<(), Failure>(failure),
                    None => Ok::<(), Failure>(()),
                })
            }),
            final(self).is_after_try(old(self), op, address, is_allowed),
    {
        discard(self.try_for_text(op, address, is_allowed))
    }

    /// Tries `op` in the name of `address`, and writes the reply out.
    pub fn try_debug(&mut self, op: Operation, address: Address, is_allowed: bool) -> (text: String)
        requires
            old(self).vault@.wf(),
            old(self).can_prepare(op),
            old(self).addresses.remaining() > 0,
        ensures
            ({
                let fresh = old(self).addresses.upcoming();
                let p = old(self).prepared(op, is_allowed, fresh);
                let h = old(self).prepared_holdings(op);
                text@ == reply_text(
                    old(self).verdict(p, h, op, address, fresh),
                    old(self).value_text(p, op),
                )
            }),
            final(self).is_after_try(old(self), op, address, is_allowed),
    {
        let reply = self.try_for_text(op, address, is_allowed);
        describe_reply(&reply)
    }
}

/// Writes out what a call without a result hands back.
fn unit(reply: Reply<()>) -> (outcome: Reply<String>)
    ensures
        match reply {
            Ok(_) => outcome is Ok && (outcome->Ok_0)@ == "()"@,
            Err(failure) => outcome == Err::<String, Failure>(failure),
        },
{
    match reply {
        Ok(_) => Ok("()".to_owned()),
        Err(failure) => Err(failure),
    }
}

/// The text of the reply to a call that is refused, or hands back what `value` says.
pub open spec fn reply_text(refusal: Option<Failure>, value: Seq<char>) -> Seq<char> {
    match refusal {
        None => "Ok(Ok("@ + value + "))"@,
        Some(Failure::Abort) => "Err(Err(Abort))"@,
        Some(Failure::Token) => "Err(Err(Contract(10)))"@,
        Some(Failure::Contract(error)) => match error {
            Error::InvalidStatusTransition => "Err(Ok(InvalidStatusTransition))"@,
            Error::Unauthorized => "Err(Ok(Unauthorized))"@,
            Error::BelowMinimumTopup => "Err(Ok(BelowMinimumTopup))"@,
            Error::Forbidden => "Err(Ok(Forbidden))"@,
            Error::NotFound => "Err(Ok(NotFound))"@,
            Error::IntervalNotElapsed => "Err(Ok(IntervalNotElapsed))"@,
            Error::NotActive => "Err(Ok(NotActive))"@,
            Error::InsufficientBalance => "Err(Ok(InsufficientBalance))"@,
            Error::InvalidAmount => "Err(Ok(InvalidAmount))"@,
            Error::Replay => "Err(Ok(Replay))"@,
            Error::Overflow => "Err(Ok(Overflow))"@,
            Error::LifetimeCapReached => "Err(Ok(LifetimeCapReached))"@,
            Error::SubscriptionLimitReached => "Err(Ok(SubscriptionLimitReached))"@,
            Error::SubscriptionExpired => "Err(Ok(SubscriptionExpired))"@,
            Error::InvalidInput => "Err(Ok(InvalidInput))"@,
            Error::CreditLimitExceeded => "Err(Ok(CreditLimitExceeded))"@,
        },
    }
}

/// Writes a reply out; a success comes with the text of what it hands back.
pub fn describe_reply(reply: &Reply<String>) -> (text: String)
    ensures
        text@ == (match *reply {
            Ok(value) => reply_text(None, value@),
            Err(failure) => reply_text(Some(failure), Seq::empty()),
        }),
{
    let failure: &str = match reply {
        Ok(value) => {
            let mut text = "Ok(Ok(".to_owned();
            text.append(value.as_str());
            text.append("))");
            return text;
        },
        Err(Failure::Abort) => "Err(Err(Abort))",
        Err(Failure::Token) => "Err(Err(Contract(10)))",
        Err(Failure::Contract(error)) => match error {
            Error::InvalidStatusTransition => "Err(Ok(InvalidStatusTransition))",
            Error::Unauthorized => "Err(Ok(Unauthorized))",
            Error::BelowMinimumTopup => "Err(Ok(BelowMinimumTopup))",
            Error::Forbidden => "Err(Ok(Forbidden))",
            Error::NotFound => "Err(Ok(NotFound))",
            Error::IntervalNotElapsed => "Err(Ok(IntervalNotElapsed))",
            Error::NotActive => "Err(Ok(NotActive))",
            Error::InsufficientBalance => "Err(Ok(InsufficientBalance))",
            Error::InvalidAmount => "Err(Ok(InvalidAmount))",
            Error::Replay => "Err(Ok(Replay))",
            Error::Overflow => "Err(Ok(Overflow))",
            Error::LifetimeCapReached => "Err(Ok(LifetimeCapReached))",
            Error::SubscriptionLimitReached => "Err(Ok(SubscriptionLimitReached))",
            Error::SubscriptionExpired => "Err(Ok(SubscriptionExpired))",
            Error::InvalidInput => "Err(Ok(InvalidInput))",
            Error::CreditLimitExceeded => "Err(Ok(CreditLimitExceeded))",
        },
    };
    failure.to_owned()
}

/// How a caller who may not carry `op` out is turned away on a freshly set up harness.
pub open spec fn turned_away(op: Operation) -> Failure {
    match op {
        Operation::BatchCharge | Operation::PauseMerchant | Operation::UnpauseMerchant =>
            Failure::Abort,
        Operation::DepositFunds => Failure::Token,
        Operation::WithdrawMerchantFunds
        | Operation::WithdrawMerchantTokenFunds
        | Operation::MerchantRefund => Failure::Contract(Error::NotFound),
        _ => Failure::Contract(denial(op)),
    }
}

/// The authorization matrix: on a freshly set up harness, whatever the operation and whatever the
/// role, the try succeeds exactly if the role may carry the operation out, and is turned away in the
/// one way that belongs to the operation otherwise.
pub proof fn law_authorization_matrix(harness: FuzzHarness, op: Operation, role: Role)
    requires
        harness.is_set_up(),
        harness.vault@.wf(),
    ensures
        harness.can_prepare(op),
        ({
            let address = harness.account(role);
            let fresh = harness.addresses.upcoming();
            let p = harness.prepared(op, allowed(op, role), fresh);
            let h = harness.prepared_holdings(op);
            harness.verdict(p, h, op, address, fresh) == (if allowed(op, role) {
                None
            } else {
                Some(turned_away(op))
            })
        }),
{
    let accounts = seq![
        harness.contract,
        harness.admin,
        harness.subscriber,
        harness.merchant,
        harness.stranger,
        harness.new_admin,
        harness.blocklist_victim,
        harness.token,
    ];
    assert(accounts.no_duplicates());
    assert(accounts[0] != accounts[1]);
    let s = signed_by(harness.vault@, Signers::Everyone);
    assert(s.subscriptions[0] == harness.set_up_state().fresh(harness.agreed_terms()));
}

/// On a freshly set up harness the text of every reply is what the authorization rules ask for.
pub proof fn law_authorization_matrix_reads_right(harness: FuzzHarness, op: Operation, role: Role)
    requires
        harness.is_set_up(),
        harness.vault@.wf(),
    ensures
        ({
            let address = harness.account(role);
            let fresh = harness.addresses.upcoming();
            let p = harness.prepared(op, allowed(op, role), fresh);
            let h = harness.prepared_holdings(op);
            let text = reply_text(
                harness.verdict(p, h, op, address, fresh),
                harness.value_text(p, op),
            );
            if allowed(op, role) {
                reads_as_success(text) && stands_at(text, "Ok(Ok("@, 0)
            } else {
                reads_as_denial(text, denial(op), op)
            }
        }),
{
    law_authorization_matrix(harness, op, role);
    let fresh = harness.addresses.upcoming();
    lemma_reply_texts(harness.value_text(harness.prepared(op, allowed(op, role), fresh), op));
}

/// The operation takes the admin, and needs no admin to prepare it.
pub open spec fn takes_the_admin_alone(op: Operation) -> bool {
    privilege(op) is AdminOnly && op != Operation::BatchCharge && op
        != Operation::DisableEmergencyStop && op != Operation::RemoveAcceptedToken && op
        != Operation::RemoveFromBlocklist
}

/// After a rotation that was tried on a freshly set up harness, the old admin is denied what takes
/// the admin, and the new admin is not.
pub proof fn law_rotation_shows_in_later_tries(
    fresh_harness: FuzzHarness,
    harness: FuzzHarness,
    op: Operation,
)
    requires
        fresh_harness.is_set_up(),
        fresh_harness.vault@.wf(),
        harness.is_after_try(&fresh_harness, Operation::RotateAdmin, fresh_harness.admin, true),
        takes_the_admin_alone(op),
    ensures
        harness.can_prepare(op),
        harness.addresses.remaining() > 0,
        ({
            let fresh = harness.addresses.upcoming();
            let h = harness.prepared_holdings(op);
            &&& harness.verdict(harness.prepared(op, false, fresh), h, op, harness.admin, fresh)
                == Some(Failure::Contract(denial(op)))
            &&& harness.verdict(harness.prepared(op, true, fresh), h, op, harness.new_admin, fresh)
                is None
        }),
{
    let accounts = seq![
        fresh_harness.contract,
        fresh_harness.admin,
        fresh_harness.subscriber,
        fresh_harness.merchant,
        fresh_harness.stranger,
        fresh_harness.new_admin,
        fresh_harness.blocklist_victim,
        fresh_harness.token,
    ];
    assert(accounts.no_duplicates());
    assert(accounts[0] != accounts[1]);
    let s = fresh_harness.set_up_state();
    assert(s.subscriptions[0] == s.fresh(fresh_harness.agreed_terms()));
}

/// The words that matter stand in the texts of the replies.
proof fn lemma_reply_texts(value: Seq<char>)
    ensures
        stands_at(reply_text(None, value), "Ok(Ok("@, 0),
        mentions("Err(Err(Abort))"@, "Abort"@),
        mentions("Err(Err(Contract(10)))"@, "Contract(10)"@),
        mentions("Err(Ok(NotFound))"@, "NotFound"@),
        mentions("Err(Ok(Unauthorized))"@, "Unauthorized"@),
        mentions("Err(Ok(Forbidden))"@, "Forbidden"@),
{
    reveal_strlit("Ok(Ok(");
    reveal_strlit("Err(Err(Abort))");
    reveal_strlit("Abort");
    reveal_strlit("Err(Err(Contract(10)))");
    reveal_strlit("Contract(10)");
    reveal_strlit("Err(Ok(NotFound))");
    reveal_strlit("NotFound");
    reveal_strlit("Err(Ok(Unauthorized))");
    reveal_strlit("Unauthorized");
    reveal_strlit("Err(Ok(Forbidden))");
    reveal_strlit("Forbidden");
    assert(reply_text(None, value).subrange(0, 6) =~= "Ok(Ok("@);
    assert("Err(Err(Abort))"@.subrange(8, 13) =~= "Abort"@);
    assert(stands_at("Err(Err(Abort))"@, "Abort"@, 8));
    assert("Err(Err(Contract(10)))"@.subrange(8, 20) =~= "Contract(10)"@);
    assert(stands_at("Err(Err(Contract(10)))"@, "Contract(10)"@, 8));
    assert("Err(Ok(NotFound))"@.subrange(7, 15) =~= "NotFound"@);
    assert(stands_at("Err(Ok(NotFound))"@, "NotFound"@, 7));
    assert("Err(Ok(Unauthorized))"@.subrange(7, 19) =~= "Unauthorized"@);
    assert(stands_at("Err(Ok(Unauthorized))"@, "Unauthorized"@, 7));
    assert("Err(Ok(Forbidden))"@.subrange(7, 16) =~= "Forbidden"@);
    assert(stands_at("Err(Ok(Forbidden))"@, "Forbidden"@, 7));
}

} // verus!
