//! Every request that the vault serves, in one place, and what holds whatever is asked of it.
use crate::address::Address;
use crate::error::{discard, Error, Failure, Reply, Signers};
use crate::events::Event;
use crate::host::{as_numbers, holds_numbers, host_items};
use crate::lifecycle::SubscriptionTerms;
use crate::status::SubscriptionStatus;
use crate::types::{
    Config, OracleConfig, PlanTemplate, ProtocolFee, RecoveryReason, UsageLimits,
};
use crate::vault::{reason_text, SubscriptionVault, VaultState};
use vstd::prelude::*;

verus! {

/// A request to the vault.
pub enum Request {
    /// The token of the terms does not count: the subscription is settled in the token of the vault.
    CreateSubscription { terms: SubscriptionTerms },
    /// The token of the plan does not count: the plan is settled in the token of the vault.
    CreatePlanTemplate { plan: PlanTemplate },
    CreateSubscriptionFromPlan { subscriber: Address, plan_id: u32 },
    PauseSubscription { id: u32, authorizer: Address },
    ResumeSubscription { id: u32, authorizer: Address },
    CancelSubscription { id: u32, authorizer: Address },
    DepositFunds { id: u32, payer: Address, amount: i128, wallet: i128 },
    ChargeSubscription { id: u32 },
    BatchCharge { ids: soroban_sdk::Vec<u32> },
    ChargeOneOff { id: u32, merchant: Address, amount: i128 },
    WithdrawMerchantTokenFunds { merchant: Address, token: Address, amount: i128, held: i128 },
    MerchantRefund {
        merchant: Address,
        subscriber: Address,
        token: Address,
        amount: i128,
        held: i128,
    },
    WithdrawSubscriberFunds { id: u32, subscriber: Address, held: i128 },
    PartialRefund { admin: Address, id: u32, subscriber: Address, amount: i128, held: i128 },
    RecoverStrandedFunds {
        admin: Address,
        token: Address,
        recipient: Address,
        amount: i128,
        recovery_id: String,
        reason: RecoveryReason,
        held: i128,
    },
    SetMinTopup { admin: Address, min_topup: i128 },
    RotateAdmin { admin: Address, new_admin: Address },
    SetProtocolFee { admin: Address, treasury: Address, fee_bps: u32 },
    EnableEmergencyStop { admin: Address },
    DisableEmergencyStop { admin: Address },
    PauseMerchant { merchant: Address },
    UnpauseMerchant { merchant: Address },
    ConfigureUsageLimits { merchant: Address, id: u32, limits: UsageLimits },
    AddAcceptedToken { admin: Address, token: Address, decimals: u32 },
    RemoveAcceptedToken { admin: Address, token: Address },
    SetSubscriberCreditLimit { admin: Address, subscriber: Address, token: Address, credit_limit: i128 },
    SetBillingRetention { admin: Address, retention: u32 },
    CompactBillingStatements { admin: Address, id: u32, keep: Option<u32> },
    SetOracleConfig { admin: Address, oracle: OracleConfig },
    AddToBlocklist { authorizer: Address, subscriber: Address, reason: Option<String> },
    RemoveFromBlocklist { admin: Address, subscriber: Address },
    SetMetadata { id: u32, authorizer: Address, key: String, value: String },
    DeleteMetadata { id: u32, authorizer: Address, key: String },
    ExportContractSnapshot { admin: Address },
    ExportSubscriptionSummary { admin: Address, id: u32 },
    ExportSubscriptionSummaries { admin: Address, start: u32, limit: u32 },
}

/// A request, with its time and the signatures that accompany it.
pub struct Call {
    pub timestamp: u64,
    pub signers: Signers,
    pub request: Request,
}

impl Request {
    /// The account that acts as the admin, where a request takes the admin.
    pub open spec fn acting_admin(self) -> Option<Address> {
        match self {
            Request::PartialRefund { admin, .. } => Some(admin),
            Request::RecoverStrandedFunds { admin, .. } => Some(admin),
            Request::SetMinTopup { admin, .. } => Some(admin),
            Request::RotateAdmin { admin, .. } => Some(admin),
            Request::SetProtocolFee { admin, .. } => Some(admin),
            Request::EnableEmergencyStop { admin } => Some(admin),
            Request::DisableEmergencyStop { admin } => Some(admin),
            Request::AddAcceptedToken { admin, .. } => Some(admin),
            Request::RemoveAcceptedToken { admin, .. } => Some(admin),
            Request::SetSubscriberCreditLimit { admin, .. } => Some(admin),
            Request::SetBillingRetention { admin, .. } => Some(admin),
            Request::CompactBillingStatements { admin, .. } => Some(admin),
            Request::SetOracleConfig { admin, .. } => Some(admin),
            Request::RemoveFromBlocklist { admin, .. } => Some(admin),
            Request::ExportContractSnapshot { admin } => Some(admin),
            Request::ExportSubscriptionSummary { admin, .. } => Some(admin),
            Request::ExportSubscriptionSummaries { admin, .. } => Some(admin),
            _ => None,
        }
    }

    /// How the vault answers one who acts as the admin and is not.
    pub open spec fn denial(self) -> Error {
        match self {
            Request::SetProtocolFee { .. } => Error::Forbidden,
            _ => Error::Unauthorized,
        }
    }

    /// The account whose signature a request needs; a charge for an interval needs none.
    pub open spec fn signer(self, state: VaultState) -> Option<Address> {
        match self {
            Request::CreateSubscription { terms } => Some(terms.subscriber),
            Request::CreatePlanTemplate { plan } => Some(plan.merchant),
            Request::CreateSubscriptionFromPlan { subscriber, .. } => Some(subscriber),
            Request::PauseSubscription { authorizer, .. } => Some(authorizer),
            Request::ResumeSubscription { authorizer, .. } => Some(authorizer),
            Request::CancelSubscription { authorizer, .. } => Some(authorizer),
            Request::DepositFunds { payer, .. } => Some(payer),
            Request::ChargeSubscription { .. } => None,
            Request::BatchCharge { .. } => Some(state.config.admin),
            Request::ChargeOneOff { merchant, .. } => Some(merchant),
            Request::WithdrawMerchantTokenFunds { merchant, .. } => Some(merchant),
            Request::MerchantRefund { merchant, .. } => Some(merchant),
            Request::WithdrawSubscriberFunds { subscriber, .. } => Some(subscriber),
            Request::PauseMerchant { merchant } => Some(merchant),
            Request::UnpauseMerchant { merchant } => Some(merchant),
            Request::ConfigureUsageLimits { merchant, .. } => Some(merchant),
            Request::AddToBlocklist { authorizer, .. } => Some(authorizer),
            Request::SetMetadata { authorizer, .. } => Some(authorizer),
            Request::DeleteMetadata { authorizer, .. } => Some(authorizer),
            _ => self.acting_admin(),
        }
    }
}

impl VaultState {
    /// The terms as the vault takes them: in its own token.
    pub open spec fn local_terms(self, terms: SubscriptionTerms) -> SubscriptionTerms {
        SubscriptionTerms { token: self.config.token, ..terms }
    }

    /// The plan as the vault takes it: in its own token.
    pub open spec fn local_plan(self, plan: PlanTemplate) -> PlanTemplate {
        PlanTemplate { token: self.config.token, ..plan }
    }

    /// Why a request is refused.
    pub open spec fn refusal(self, request: Request) -> Option<Failure> {
        match request {
            Request::CreateSubscription { terms } => self.create_refusal(self.local_terms(terms)),
            Request::CreatePlanTemplate { plan } => self.plan_refusal(self.local_plan(plan)),
            Request::CreateSubscriptionFromPlan { subscriber, plan_id } => self.subscribe_refusal(
                subscriber,
                plan_id,
            ),
            Request::PauseSubscription { id, authorizer } => self.move_refusal(
                id,
                authorizer,
                SubscriptionStatus::Paused,
            ),
            Request::ResumeSubscription { id, authorizer } => self.move_refusal(
                id,
                authorizer,
                SubscriptionStatus::Active,
            ),
            Request::CancelSubscription { id, authorizer } => self.move_refusal(
                id,
                authorizer,
                SubscriptionStatus::Cancelled,
            ),
            Request::DepositFunds { id, payer, amount, wallet } => self.deposit_refusal(
                id,
                payer,
                amount,
                wallet,
            ),
            Request::ChargeSubscription { id } => self.charge_refusal(id),
            Request::BatchCharge { ids } => if self.signed(self.config.admin) && holds_numbers(
                host_items(ids),
            ) {
                None
            } else {
                Some(Failure::Abort)
            },
            Request::ChargeOneOff { id, merchant, amount } => self.one_off_refusal(
                id,
                merchant,
                amount,
            ),
            Request::WithdrawMerchantTokenFunds { merchant, token, amount, held } =>
                self.payout_refusal(merchant, token, amount, held),
            Request::MerchantRefund { merchant, token, amount, held, .. } => self.payout_refusal(
                merchant,
                token,
                amount,
                held,
            ),
            Request::WithdrawSubscriberFunds { id, subscriber, held } => self.withdrawal_refusal(
                id,
                subscriber,
                held,
            ),
            Request::PartialRefund { admin, id, subscriber, amount, held } =>
                self.partial_refund_refusal(admin, id, subscriber, amount, held),
            Request::RecoverStrandedFunds { admin, amount, recovery_id, held, .. } =>
                self.recovery_refusal(admin, amount, recovery_id@, held),
            Request::SetProtocolFee { admin, fee_bps, .. } => self.fee_refusal(admin, fee_bps),
            Request::PauseMerchant { merchant } => self.signature_refusal(merchant),
            Request::UnpauseMerchant { merchant } => self.signature_refusal(merchant),
            Request::ConfigureUsageLimits { merchant, id, .. } => self.usage_refusal(merchant, id),
            Request::RemoveAcceptedToken { admin, token } => self.token_removal_refusal(
                admin,
                token,
            ),
            Request::CompactBillingStatements { admin, id, .. } => self.admin_lookup_refusal(
                admin,
                id,
            ),
            Request::AddToBlocklist { authorizer, subscriber, .. } => self.blocking_refusal(
                authorizer,
                subscriber,
            ),
            Request::RemoveFromBlocklist { admin, subscriber } => self.unblocking_refusal(
                admin,
                subscriber,
            ),
            Request::SetMetadata { id, authorizer, .. } => self.metadata_refusal(id, authorizer),
            Request::DeleteMetadata { id, authorizer, key } => self.erasure_refusal(
                id,
                authorizer,
                key@,
            ),
            Request::ExportSubscriptionSummary { admin, id } => self.admin_lookup_refusal(admin, id),
            Request::ExportSubscriptionSummaries { admin, limit, .. } => self.export_refusal(
                admin,
                limit,
            ),
            _ => self.admin_refusal(request.acting_admin()->0, request.denial()),
        }
    }

    /// The state after a request that is not refused.
    pub open spec fn effect(self, request: Request) -> VaultState {
        match request {
            Request::CreateSubscription { terms } => self.admitted(self.local_terms(terms)),
            Request::CreatePlanTemplate { plan } => self.planned(self.local_plan(plan)),
            Request::CreateSubscriptionFromPlan { subscriber, plan_id } => self.admitted(
                self.plan_terms(subscriber, plan_id),
            ),
            Request::PauseSubscription { id, authorizer } => self.moved(
                id,
                authorizer,
                SubscriptionStatus::Paused,
            ),
            Request::ResumeSubscription { id, authorizer } => self.moved(
                id,
                authorizer,
                SubscriptionStatus::Active,
            ),
            Request::CancelSubscription { id, authorizer } => self.moved(
                id,
                authorizer,
                SubscriptionStatus::Cancelled,
            ),
            Request::DepositFunds { id, payer, amount, .. } => self.deposited(id, payer, amount),
            Request::ChargeSubscription { id } => self.charged(id),
            Request::BatchCharge { ids } => self.all_attempted(as_numbers(host_items(ids))),
            Request::ChargeOneOff { id, amount, .. } => self.one_off_charged(id, amount),
            Request::WithdrawMerchantTokenFunds { merchant, token, amount, .. } =>
                self.merchant_withdrawn(merchant, token, amount),
            Request::MerchantRefund { merchant, subscriber, token, amount, .. } =>
                self.merchant_refunded(merchant, subscriber, token, amount),
            Request::WithdrawSubscriberFunds { id, .. } => self.subscriber_withdrawn(id),
            Request::PartialRefund { id, amount, .. } => self.partially_refunded(id, amount),
            Request::RecoverStrandedFunds { token, recipient, amount, recovery_id, reason, .. } =>
                self.recovered(token, recipient, amount, recovery_id@, reason),
            Request::SetMinTopup { min_topup, .. } => self.with_config(
                Config { min_topup, ..self.config },
            ),
            Request::RotateAdmin { admin, new_admin } => self.with_config(
                Config { admin: new_admin, ..self.config },
            ).published(
                Event::AdminRotated { old_admin: admin, new_admin, timestamp: self.timestamp },
            ),
            Request::SetProtocolFee { admin, treasury, fee_bps } => self.with_config(
                Config { protocol_fee: Some(ProtocolFee { treasury, fee_bps }), ..self.config },
            ).published(
                Event::ProtocolFeeConfigured {
                    admin,
                    treasury,
                    fee_bps,
                    timestamp: self.timestamp,
                },
            ),
            Request::EnableEmergencyStop { .. } => self.stop_switched(true),
            Request::DisableEmergencyStop { .. } => self.stop_switched(false),
            Request::PauseMerchant { merchant } => self.merchant_switched(merchant, true),
            Request::UnpauseMerchant { merchant } => self.merchant_switched(merchant, false),
            Request::ConfigureUsageLimits { id, limits, .. } => VaultState {
                usage_limits: self.usage_limits.insert(id, limits),
                ..self
            },
            Request::AddAcceptedToken { token, decimals, .. } => VaultState {
                accepted_tokens: self.accepted_tokens.insert(token, decimals),
                ..self
            },
            Request::RemoveAcceptedToken { token, .. } => VaultState {
                accepted_tokens: self.accepted_tokens.remove(token),
                ..self
            },
            Request::SetSubscriberCreditLimit { subscriber, token, credit_limit, .. } => VaultState {
                credit_limits: self.credit_limits.insert((subscriber, token), credit_limit),
                ..self
            },
            Request::SetBillingRetention { retention, .. } => self.with_config(
                Config { billing_retention: retention, ..self.config },
            ),
            Request::CompactBillingStatements { id, keep, .. } => self.compacted(
                id,
                self.keeps(keep),
            ),
            Request::SetOracleConfig { oracle, .. } => self.with_config(
                Config { oracle, ..self.config },
            ),
            Request::AddToBlocklist { authorizer, subscriber, reason } => self.blocked(
                authorizer,
                subscriber,
                reason_text(reason),
            ),
            Request::RemoveFromBlocklist { admin, subscriber } => self.unblocked(admin, subscriber),
            Request::SetMetadata { id, authorizer, key, value } => self.annotated(
                id,
                authorizer,
                key,
                value@,
            ),
            Request::DeleteMetadata { id, authorizer, key } => self.erased(id, authorizer, key),
            Request::ExportContractSnapshot { .. } => self,
            Request::ExportSubscriptionSummary { .. } => self,
            Request::ExportSubscriptionSummaries { .. } => self,
        }
    }

    /// The state after a request, refused or not.
    pub open spec fn after(self, request: Request) -> VaultState {
        if self.refusal(request) is Some {
            self
        } else {
            self.effect(request)
        }
    }

    /// The state at the time of a call, with the signatures that accompany it.
    pub open spec fn at(self, call: Call) -> VaultState {
        VaultState { timestamp: call.timestamp, signers: call.signers, ..self }
    }

    /// The state after calls that come one after the other.
    pub open spec fn after_all(self, calls: Seq<Call>) -> VaultState
        decreases calls.len(),
    {
        if calls.len() == 0 {
            self
        } else {
            self.after_all(calls.drop_last()).at(calls.last()).after(calls.last().request)
        }
    }

    /// The identifiers in use are behind the counter that hands them out.
    pub open spec fn counter_is_ahead(self) -> bool {
        forall|id: u32| #[trigger] self.subscriptions.contains_key(id) ==> id < self.next_id
    }
}

impl SubscriptionVault {
    /// Serves a request, and drops what it returns.
    pub fn serve(&mut self, request: Request) -> (reply: Reply<()>)
        requires
            old(self)@.wf(),
        ensures
            reply == (match old(self)@.refusal(request) {
                Some(failure) => Err::<(), Failure>(failure),
                None => Ok::<(), Failure>(()),
            }),
            final(self)@ == old(self)@.after(request),
            final(self)@.wf(),
    {
        match request {
            Request::CreateSubscription { terms } => discard(
                self.create_subscription(
                    terms.subscriber,
                    terms.merchant,
                    terms.amount,
                    terms.interval_seconds,
                    terms.usage_enabled,
                    terms.lifetime_cap,
                    terms.expires_at,
                ),
            ),
            Request::CreatePlanTemplate { plan } => discard(
                self.create_plan_template(
                    plan.merchant,
                    plan.amount,
                    plan.interval_seconds,
                    plan.usage_enabled,
                    plan.lifetime_cap,
                ),
            ),
            Request::CreateSubscriptionFromPlan { subscriber, plan_id } => discard(
                self.create_subscription_from_plan(subscriber, plan_id),
            ),
            Request::PauseSubscription { id, authorizer } => self.pause_subscription(id, authorizer),
            Request::ResumeSubscription { id, authorizer } => self.resume_subscription(
                id,
                authorizer,
            ),
            Request::CancelSubscription { id, authorizer } => self.cancel_subscription(
                id,
                authorizer,
            ),
            Request::DepositFunds { id, payer, amount, wallet } => self.deposit_funds(
                id,
                payer,
                amount,
                wallet,
            ),
            Request::ChargeSubscription { id } => discard(self.charge_subscription(id)),
            Request::BatchCharge { ids } => discard(self.batch_charge(&ids)),
            Request::ChargeOneOff { id, merchant, amount } => self.charge_one_off(
                id,
                merchant,
                amount,
            ),
            Request::WithdrawMerchantTokenFunds { merchant, token, amount, held } =>
                self.withdraw_merchant_token_funds(merchant, token, amount, held),
            Request::MerchantRefund { merchant, subscriber, token, amount, held } =>
                self.merchant_refund(merchant, subscriber, token, amount, held),
            Request::WithdrawSubscriberFunds { id, subscriber, held } => discard(
                self.withdraw_subscriber_funds(id, subscriber, held),
            ),
            Request::PartialRefund { admin, id, subscriber, amount, held } => self.partial_refund(
                admin,
                id,
                subscriber,
                amount,
                held,
            ),
            Request::RecoverStrandedFunds {
                admin,
                token,
                recipient,
                amount,
                recovery_id,
                reason,
                held,
            } => self.recover_stranded_funds(
                admin,
                token,
                recipient,
                amount,
                recovery_id,
                reason,
                held,
            ),
            Request::SetMinTopup { admin, min_topup } => self.set_min_topup(admin, min_topup),
            Request::RotateAdmin { admin, new_admin } => self.rotate_admin(admin, new_admin),
            Request::SetProtocolFee { admin, treasury, fee_bps } => self.set_protocol_fee(
                admin,
                treasury,
                fee_bps,
            ),
            Request::EnableEmergencyStop { admin } => self.enable_emergency_stop(admin),
            Request::DisableEmergencyStop { admin } => self.disable_emergency_stop(admin),
            Request::PauseMerchant { merchant } => self.pause_merchant(merchant),
            Request::UnpauseMerchant { merchant } => self.unpause_merchant(merchant),
            Request::ConfigureUsageLimits { merchant, id, limits } => self.configure_usage_limits(
                merchant,
                id,
                limits.rate_limit_max_calls,
                limits.rate_window_seconds,
                limits.burst_min_interval_seconds,
                limits.usage_cap,
            ),
            Request::AddAcceptedToken { admin, token, decimals } => self.add_accepted_token(
                admin,
                token,
                decimals,
            ),
            Request::RemoveAcceptedToken { admin, token } => self.remove_accepted_token(admin, token),
            Request::SetSubscriberCreditLimit { admin, subscriber, token, credit_limit } =>
                self.set_subscriber_credit_limit(admin, subscriber, token, credit_limit),
            Request::SetBillingRetention { admin, retention } => self.set_billing_retention(
                admin,
                retention,
            ),
            Request::CompactBillingStatements { admin, id, keep } => discard(
                self.compact_billing_statements(admin, id, keep),
            ),
            Request::SetOracleConfig { admin, oracle } => self.set_oracle_config(
                admin,
                oracle.enabled,
                oracle.oracle,
                oracle.max_age_seconds,
            ),
            Request::AddToBlocklist { authorizer, subscriber, reason } => self.add_to_blocklist(
                authorizer,
                subscriber,
                reason,
            ),
            Request::RemoveFromBlocklist { admin, subscriber } => self.remove_from_blocklist(
                admin,
                subscriber,
            ),
            Request::SetMetadata { id, authorizer, key, value } => self.set_metadata(
                id,
                authorizer,
                key,
                value,
            ),
            Request::DeleteMetadata { id, authorizer, key } => self.delete_metadata(
                id,
                authorizer,
                key,
            ),
            Request::ExportContractSnapshot { admin } => discard(self.export_contract_snapshot(admin)),
            Request::ExportSubscriptionSummary { admin, id } => discard(
                self.export_subscription_summary(admin, id),
            ),
            Request::ExportSubscriptionSummaries { admin, start, limit } => discard(
                self.export_subscription_summaries(admin, start, limit),
            ),
        }
    }
}

} // verus!
