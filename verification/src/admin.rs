//! Settings, exports and lists that the admin, and in places a merchant, is in charge of.
use crate::address::Address;
use crate::error::{Error, Failure, Reply};
use crate::events::Event;
use crate::statements::history;
use crate::store::listed;
use crate::types::{
    CompactionSummary, Config, ContractSnapshot, OracleConfig, ProtocolFee, Subscription,
    SubscriptionSummary, UsageLimits, BASIS_POINTS, MAX_SUBSCRIPTION_LIST_PAGE, STORAGE_VERSION,
};
use crate::vault::{reason_text, settles, SubscriptionVault, VaultState};
use vstd::prelude::*;

verus! {

/// The summaries of the stored subscriptions with identifiers from `start` up to `end`.
pub open spec fn summaries(subscriptions: Map<u32, Subscription>, start: int, end: int) -> Seq<
    SubscriptionSummary,
>
    decreases end - start,
{
    if start >= end {
        Seq::empty()
    } else if subscriptions.contains_key((end - 1) as u32) {
        summaries(subscriptions, start, end - 1).push(
            SubscriptionSummary {
                subscription_id: (end - 1) as u32,
                subscription: subscriptions[(end - 1) as u32],
            },
        )
    } else {
        summaries(subscriptions, start, end - 1)
    }
}

impl VaultState {
    pub open spec fn fee_refusal(self, admin: Address, fee_bps: u32) -> Option<Failure> {
        if self.admin_refusal(admin, Error::Forbidden) is Some {
            self.admin_refusal(admin, Error::Forbidden)
        } else if fee_bps > BASIS_POINTS {
            Some(Failure::Contract(Error::InvalidInput))
        } else {
            None
        }
    }

    /// The state with the emergency stop on or off. Nothing is published unless it changes.
    pub open spec fn stop_switched(self, on: bool) -> VaultState {
        if self.config.emergency_stop == on {
            self
        } else {
            self.with_config(Config { emergency_stop: on, ..self.config }).published(
                if on {
                    Event::EmergencyStopEnabled {
                        admin: self.config.admin,
                        timestamp: self.timestamp,
                    }
                } else {
                    Event::EmergencyStopDisabled {
                        admin: self.config.admin,
                        timestamp: self.timestamp,
                    }
                },
            )
        }
    }

    /// Why a merchant cannot switch the blanket pause.
    pub open spec fn signature_refusal(self, account: Address) -> Option<Failure> {
        if !self.signed(account) {
            Some(Failure::Abort)
        } else {
            None
        }
    }

    /// The state with the blanket pause of a merchant on or off. Nothing is published unless it
    /// changes.
    pub open spec fn merchant_switched(self, merchant: Address, paused: bool) -> VaultState {
        if self.paused_merchants.contains(merchant) == paused {
            self
        } else if paused {
            VaultState { paused_merchants: self.paused_merchants.insert(merchant), ..self }.published(
                Event::MerchantPaused { merchant, timestamp: self.timestamp },
            )
        } else {
            VaultState { paused_merchants: self.paused_merchants.remove(merchant), ..self }.published(
                Event::MerchantUnpaused { merchant, timestamp: self.timestamp },
            )
        }
    }

    pub open spec fn usage_refusal(self, merchant: Address, id: u32) -> Option<Failure> {
        if !self.signed(merchant) {
            Some(Failure::Abort)
        } else if !self.subscriptions.contains_key(id) {
            Some(Failure::Contract(Error::NotFound))
        } else if merchant != self.subscriptions[id].merchant {
            Some(Failure::Contract(Error::Forbidden))
        } else {
            None
        }
    }

    pub open spec fn token_removal_refusal(self, admin: Address, token: Address) -> Option<Failure> {
        if self.admin_refusal(admin, Error::Unauthorized) is Some {
            self.admin_refusal(admin, Error::Unauthorized)
        } else if !self.accepted_tokens.contains_key(token) {
            Some(Failure::Contract(Error::NotFound))
        } else {
            None
        }
    }

    /// Why the admin cannot have subscription `id`.
    pub open spec fn admin_lookup_refusal(self, admin: Address, id: u32) -> Option<Failure> {
        if self.admin_refusal(admin, Error::Unauthorized) is Some {
            self.admin_refusal(admin, Error::Unauthorized)
        } else if !self.subscriptions.contains_key(id) {
            Some(Failure::Contract(Error::NotFound))
        } else {
            None
        }
    }

    /// Why the admin cannot have a page of summaries.
    pub open spec fn export_refusal(self, admin: Address, limit: u32) -> Option<Failure> {
        if self.admin_refusal(admin, Error::Unauthorized) is Some {
            self.admin_refusal(admin, Error::Unauthorized)
        } else if limit == 0 || limit > MAX_SUBSCRIPTION_LIST_PAGE {
            Some(Failure::Contract(Error::InvalidInput))
        } else {
            None
        }
    }

    /// Where a page of summaries ends.
    pub open spec fn export_end(self, start: u32, limit: u32) -> int {
        if start + limit < self.next_id {
            start + limit
        } else {
            self.next_id as int
        }
    }

    pub open spec fn snapshot(self) -> ContractSnapshot {
        ContractSnapshot {
            admin: self.config.admin,
            token: self.config.token,
            min_topup: self.config.min_topup,
            next_id: self.next_id,
            storage_version: STORAGE_VERSION,
            timestamp: self.timestamp,
        }
    }

    /// How many statements a compaction keeps.
    pub open spec fn keeps(self, keep: Option<u32>) -> u32 {
        match keep {
            Some(count) => count,
            None => self.config.billing_retention,
        }
    }

    /// The state after a compaction of the statements of subscription `id`.
    pub open spec fn compacted(self, id: u32, keep: u32) -> VaultState {
        VaultState {
            statements: self.statements.insert(id, history(self.statements, id).trimmed(keep)),
            ..self
        }
    }

    /// `subscriber` has a subscription with `merchant`.
    pub open spec fn is_customer(self, merchant: Address, subscriber: Address) -> bool {
        exists|i: int|
            0 <= i < listed(self.merchant_index, merchant).len() && self.subscriptions[
            #[trigger] listed(self.merchant_index, merchant)[i]].subscriber == subscriber
    }

    /// Why `authorizer` cannot put `subscriber` on the blocklist: that takes the admin, or a merchant
    /// whose customer the subscriber is.
    pub open spec fn blocking_refusal(self, authorizer: Address, subscriber: Address) -> Option<
        Failure,
    > {
        if !self.signed(authorizer) {
            Some(Failure::Abort)
        } else if authorizer != self.config.admin && !self.is_customer(authorizer, subscriber) {
            Some(Failure::Contract(Error::Forbidden))
        } else {
            None
        }
    }

    /// The state with `subscriber` on the blocklist. If that was so before, the reason stays, and
    /// nothing is published.
    pub open spec fn blocked(
        self,
        authorizer: Address,
        subscriber: Address,
        reason: Option<Seq<char>>,
    ) -> VaultState {
        if self.blocklist.contains_key(subscriber) {
            self
        } else {
            VaultState { blocklist: self.blocklist.insert(subscriber, reason), ..self }.published(
                Event::BlocklistAdded { subscriber, added_by: authorizer },
            )
        }
    }

    pub open spec fn unblocking_refusal(self, admin: Address, subscriber: Address) -> Option<Failure> {
        if self.admin_refusal(admin, Error::Unauthorized) is Some {
            self.admin_refusal(admin, Error::Unauthorized)
        } else if !self.blocklist.contains_key(subscriber) {
            Some(Failure::Contract(Error::NotFound))
        } else {
            None
        }
    }

    /// The state with `subscriber` off the blocklist.
    pub open spec fn unblocked(self, admin: Address, subscriber: Address) -> VaultState {
        VaultState { blocklist: self.blocklist.remove(subscriber), ..self }.published(
            Event::BlocklistRemoved { subscriber, removed_by: admin },
        )
    }
}

impl SubscriptionVault {
    /// Sets the smallest deposit that is accepted.
    pub fn set_min_topup(
        &mut self,
        admin: Address,
        min_topup: i128,
    ) -> (reply: Reply<()>)
        requires
            old(self)@.wf(),
        ensures
            settles(
                old(self)@,
                final(self)@,
                reply,
                old(self)@.admin_refusal(admin, Error::Unauthorized),
                (),
                old(self)@.with_config(Config { min_topup, ..old(self)@.config }),
            ),
            final(self)@.wf(),
    {
        if let Some(failure) = self.refuse_unless_admin(admin, Error::Unauthorized) {
            return Err(failure);
        }
        let config = Config { min_topup, ..self.config() };
        self.set_config(config);
        Ok(())
    }

    /// Hands the office of the admin over.
    pub fn rotate_admin(
        &mut self,
        admin: Address,
        new_admin: Address,
    ) -> (reply: Reply<()>)
        requires
            old(self)@.wf(),
        ensures
            settles(
                old(self)@,
                final(self)@,
                reply,
                old(self)@.admin_refusal(admin, Error::Unauthorized),
                (),
                old(self)@.with_config(
                    Config { admin: new_admin, ..old(self)@.config },
                ).published(
                    Event::AdminRotated {
                        old_admin: admin,
                        new_admin,
                        timestamp: old(self)@.timestamp,
                    },
                ),
            ),
            final(self)@.wf(),
    {
        if let Some(failure) = self.refuse_unless_admin(admin, Error::Unauthorized) {
            return Err(failure);
        }
        let config = Config { admin: new_admin, ..self.config() };
        let timestamp: u64 = self.now();
        self.set_config(config);
        self.publish(Event::AdminRotated { old_admin: admin, new_admin, timestamp });
        Ok(())
    }

    /// Sets the share of interval charges that goes to the treasury.
    pub fn set_protocol_fee(
        &mut self,
        admin: Address,
        treasury: Address,
        fee_bps: u32,
    ) -> (reply: Reply<()>)
        requires
            old(self)@.wf(),
        ensures
            settles(
                old(self)@,
                final(self)@,
                reply,
                old(self)@.fee_refusal(admin, fee_bps),
                (),
                old(self)@.with_config(
                    Config {
                        protocol_fee: Some(ProtocolFee { treasury, fee_bps }),
                        ..old(self)@.config
                    },
                ).published(
                    Event::ProtocolFeeConfigured {
                        admin,
                        treasury,
                        fee_bps,
                        timestamp: old(self)@.timestamp,
                    },
                ),
            ),
            final(self)@.wf(),
    {
        if let Some(failure) = self.refuse_unless_admin(admin, Error::Forbidden) {
            return Err(failure);
        }
        if fee_bps > BASIS_POINTS {
            return Err(Failure::Contract(Error::InvalidInput));
        }
        let config = Config {
            protocol_fee: Some(ProtocolFee { treasury, fee_bps }),
            ..self.config()
        };
        let timestamp: u64 = self.now();
        self.set_config(config);
        self.publish(Event::ProtocolFeeConfigured { admin, treasury, fee_bps, timestamp });
        Ok(())
    }

    /// Switches the emergency stop on.
    pub fn enable_emergency_stop(
        &mut self,
        admin: Address,
    ) -> (reply: Reply<()>)
        requires
            old(self)@.wf(),
        ensures
            settles(
                old(self)@,
                final(self)@,
                reply,
                old(self)@.admin_refusal(admin, Error::Unauthorized),
                (),
                old(self)@.stop_switched(true),
            ),
            final(self)@.wf(),
    {
        if let Some(failure) = self.refuse_unless_admin(admin, Error::Unauthorized) {
            return Err(failure);
        }
        if self.config().emergency_stop {
            return Ok(());
        }
        let config = Config { emergency_stop: true, ..self.config() };
        let timestamp: u64 = self.now();
        self.set_config(config);
        self.publish(Event::EmergencyStopEnabled { admin, timestamp });
        Ok(())
    }

    /// Switches the emergency stop off.
    pub fn disable_emergency_stop(
        &mut self,
        admin: Address,
    ) -> (reply: Reply<()>)
        requires
            old(self)@.wf(),
        ensures
            settles(
                old(self)@,
                final(self)@,
                reply,
                old(self)@.admin_refusal(admin, Error::Unauthorized),
                (),
                old(self)@.stop_switched(false),
            ),
            final(self)@.wf(),
    {
        if let Some(failure) = self.refuse_unless_admin(admin, Error::Unauthorized) {
            return Err(failure);
        }
        if !self.config().emergency_stop {
            return Ok(());
        }
        let config = Config { emergency_stop: false, ..self.config() };
        let timestamp: u64 = self.now();
        self.set_config(config);
        self.publish(Event::EmergencyStopDisabled { admin, timestamp });
        Ok(())
    }

    /// Switches the blanket pause of a merchant on.
    pub fn pause_merchant(
        &mut self,
        merchant: Address,
    ) -> (reply: Reply<()>)
        requires
            old(self)@.wf(),
        ensures
            settles(
                old(self)@,
                final(self)@,
                reply,
                old(self)@.signature_refusal(merchant),
                (),
                old(self)@.merchant_switched(merchant, true),
            ),
            final(self)@.wf(),
    {
        if !self.has_signed(merchant) {
            return Err(Failure::Abort);
        }
        if self.is_merchant_paused(merchant) {
            return Ok(());
        }
        let timestamp: u64 = self.now();
        self.mark_merchant(merchant, true);
        self.publish(Event::MerchantPaused { merchant, timestamp });
        Ok(())
    }

    /// Switches the blanket pause of a merchant off.
    pub fn unpause_merchant(
        &mut self,
        merchant: Address,
    ) -> (reply: Reply<()>)
        requires
            old(self)@.wf(),
        ensures
            settles(
                old(self)@,
                final(self)@,
                reply,
                old(self)@.signature_refusal(merchant),
                (),
                old(self)@.merchant_switched(merchant, false),
            ),
            final(self)@.wf(),
    {
        if !self.has_signed(merchant) {
            return Err(Failure::Abort);
        }
        if !self.is_merchant_paused(merchant) {
            return Ok(());
        }
        let timestamp: u64 = self.now();
        self.mark_merchant(merchant, false);
        self.publish(Event::MerchantUnpaused { merchant, timestamp });
        Ok(())
    }

    /// Sets how often and how much a subscription may be charged for usage, on behalf of its merchant.
    pub fn configure_usage_limits(
        &mut self,
        merchant: Address,
        id: u32,
        rate_limit_max_calls: Option<u32>,
        rate_window_seconds: u64,
        burst_min_interval_seconds: u64,
        usage_cap: Option<i128>,
    ) -> (reply: Reply<()>)
        requires
            old(self)@.wf(),
        ensures
            settles(
                old(self)@,
                final(self)@,
                reply,
                old(self)@.usage_refusal(merchant, id),
                (),
                VaultState {
                    usage_limits: old(self)@.usage_limits.insert(
                        id,
                        UsageLimits {
                            rate_limit_max_calls,
                            rate_window_seconds,
                            burst_min_interval_seconds,
                            usage_cap,
                        },
                    ),
                    ..old(self)@
                },
            ),
            final(self)@.wf(),
    {
        if !self.has_signed(merchant) {
            return Err(Failure::Abort);
        }
        let subscription = match self.find(id) {
            Some(subscription) => subscription,
            None => return Err(Failure::Contract(Error::NotFound)),
        };
        if merchant != subscription.merchant {
            return Err(Failure::Contract(Error::Forbidden));
        }
        self.set_usage_limits(
            id,
            UsageLimits {
                rate_limit_max_calls,
                rate_window_seconds,
                burst_min_interval_seconds,
                usage_cap,
            },
        );
        Ok(())
    }

    /// Adds a token to the accepted ones.
    pub fn add_accepted_token(
        &mut self,
        admin: Address,
        token: Address,
        decimals: u32,
    ) -> (reply: Reply<()>)
        requires
            old(self)@.wf(),
        ensures
            settles(
                old(self)@,
                final(self)@,
                reply,
                old(self)@.admin_refusal(admin, Error::Unauthorized),
                (),
                VaultState {
                    accepted_tokens: old(self)@.accepted_tokens.insert(token, decimals),
                    ..old(self)@
                },
            ),
            final(self)@.wf(),
    {
        if let Some(failure) = self.refuse_unless_admin(admin, Error::Unauthorized) {
            return Err(failure);
        }
        self.accept_token(token, decimals);
        Ok(())
    }

    /// Takes a token from the accepted ones.
    pub fn remove_accepted_token(
        &mut self,
        admin: Address,
        token: Address,
    ) -> (reply: Reply<()>)
        requires
            old(self)@.wf(),
        ensures
            settles(
                old(self)@,
                final(self)@,
                reply,
                old(self)@.token_removal_refusal(admin, token),
                (),
                VaultState {
                    accepted_tokens: old(self)@.accepted_tokens.remove(token),
                    ..old(self)@
                },
            ),
            final(self)@.wf(),
    {
        if let Some(failure) = self.refuse_unless_admin(admin, Error::Unauthorized) {
            return Err(failure);
        }
        if !self.accepts_token(token) {
            return Err(Failure::Contract(Error::NotFound));
        }
        self.reject_token(token);
        Ok(())
    }

    /// Limits what a subscriber may commit to in a token; zero lifts the limit.
    pub fn set_subscriber_credit_limit(
        &mut self,
        admin: Address,
        subscriber: Address,
        token: Address,
        limit: i128,
    ) -> (reply: Reply<()>)
        requires
            old(self)@.wf(),
        ensures
            settles(
                old(self)@,
                final(self)@,
                reply,
                old(self)@.admin_refusal(admin, Error::Unauthorized),
                (),
                VaultState {
                    credit_limits: old(self)@.credit_limits.insert((subscriber, token), limit),
                    ..old(self)@
                },
            ),
            final(self)@.wf(),
    {
        if let Some(failure) = self.refuse_unless_admin(admin, Error::Unauthorized) {
            return Err(failure);
        }
        self.set_credit_limit(subscriber, token, limit);
        Ok(())
    }

    /// Sets how many statements a compaction keeps.
    pub fn set_billing_retention(
        &mut self,
        admin: Address,
        keep: u32,
    ) -> (reply: Reply<()>)
        requires
            old(self)@.wf(),
        ensures
            settles(
                old(self)@,
                final(self)@,
                reply,
                old(self)@.admin_refusal(admin, Error::Unauthorized),
                (),
                old(self)@.with_config(Config { billing_retention: keep, ..old(self)@.config }),
            ),
            final(self)@.wf(),
    {
        if let Some(failure) = self.refuse_unless_admin(admin, Error::Unauthorized) {
            return Err(failure);
        }
        let config = Config { billing_retention: keep, ..self.config() };
        self.set_config(config);
        Ok(())
    }

    /// Drops the oldest statements of a subscription, down to `keep` or to the configured number.
    pub fn compact_billing_statements(
        &mut self,
        admin: Address,
        id: u32,
        keep: Option<u32>,
    ) -> (reply: Reply<CompactionSummary>)
        requires
            old(self)@.wf(),
        ensures
            settles(
                old(self)@,
                final(self)@,
                reply,
                old(self)@.admin_lookup_refusal(admin, id),
                CompactionSummary {
                    pruned: history(old(self)@.statements, id).excess(old(self)@.keeps(keep)) as u32,
                    kept: history(old(self)@.statements, id).trimmed(
                        old(self)@.keeps(keep),
                    ).statements.len() as u32,
                },
                old(self)@.compacted(id, old(self)@.keeps(keep)),
            ),
            reply matches Ok(summary) ==> {
                let before = history(old(self)@.statements, id).statements;
                let kept = final(self)@.statements[id].statements;
                &&& summary.kept == kept.len()
                &&& summary.pruned == before.len() - kept.len()
                &&& kept == before.skip(summary.pruned as int)
            },
            final(self)@.wf(),
    {
        if let Some(failure) = self.refuse_unless_admin(admin, Error::Unauthorized) {
            return Err(failure);
        }
        if self.find(id).is_none() {
            return Err(Failure::Contract(Error::NotFound));
        }
        let count: u32 = match keep {
            Some(count) => count,
            None => self.config().billing_retention,
        };
        proof {
            lemma_compacted_keeps_wf(self@, id, count);
        }
        let book = self.statement_book_mut();
        let summary = book.compact(id, count);
        Ok(summary)
    }

    /// Sets where prices come from.
    pub fn set_oracle_config(
        &mut self,
        admin: Address,
        enabled: bool,
        oracle: Option<Address>,
        max_age_seconds: u64,
    ) -> (reply: Reply<()>)
        requires
            old(self)@.wf(),
        ensures
            settles(
                old(self)@,
                final(self)@,
                reply,
                old(self)@.admin_refusal(admin, Error::Unauthorized),
                (),
                old(self)@.with_config(
                    Config {
                        oracle: OracleConfig { enabled, oracle, max_age_seconds },
                        ..old(self)@.config
                    },
                ),
            ),
            final(self)@.wf(),
    {
        if let Some(failure) = self.refuse_unless_admin(admin, Error::Unauthorized) {
            return Err(failure);
        }
        let config = Config {
            oracle: OracleConfig { enabled, oracle, max_age_seconds },
            ..self.config()
        };
        self.set_config(config);
        Ok(())
    }

    /// Puts a subscriber on the blocklist, on behalf of the admin or of one of the subscriber's merchants.
    pub fn add_to_blocklist(
        &mut self,
        authorizer: Address,
        subscriber: Address,
        reason: Option<String>,
    ) -> (reply: Reply<()>)
        requires
            old(self)@.wf(),
        ensures
            settles(
                old(self)@,
                final(self)@,
                reply,
                old(self)@.blocking_refusal(authorizer, subscriber),
                (),
                old(self)@.blocked(authorizer, subscriber, reason_text(reason)),
            ),
            final(self)@.wf(),
    {
        if !self.has_signed(authorizer) {
            return Err(Failure::Abort);
        }
        if authorizer != self.config().admin && !self.has_customer(authorizer, subscriber) {
            return Err(Failure::Contract(Error::Forbidden));
        }
        if self.is_blocked(subscriber) {
            return Ok(());
        }
        self.block(subscriber, reason);
        self.publish(Event::BlocklistAdded { subscriber, added_by: authorizer });
        Ok(())
    }

    /// Takes a subscriber off the blocklist.
    pub fn remove_from_blocklist(
        &mut self,
        admin: Address,
        subscriber: Address,
    ) -> (reply: Reply<()>)
        requires
            old(self)@.wf(),
        ensures
            settles(
                old(self)@,
                final(self)@,
                reply,
                old(self)@.unblocking_refusal(admin, subscriber),
                (),
                old(self)@.unblocked(admin, subscriber),
            ),
            final(self)@.wf(),
    {
        if let Some(failure) = self.refuse_unless_admin(admin, Error::Unauthorized) {
            return Err(failure);
        }
        if !self.is_blocked(subscriber) {
            return Err(Failure::Contract(Error::NotFound));
        }
        self.unblock(subscriber);
        self.publish(Event::BlocklistRemoved { subscriber, removed_by: admin });
        Ok(())
    }

    /// The reason for which a subscriber is on the blocklist, if one was given.
    pub fn get_blocklist_reason(&self, subscriber: Address) -> (reply: Reply<Option<&String>>)
        ensures
            !self@.blocklist.contains_key(subscriber) ==> reply == Err::<Option<&String>, Failure>(
                Failure::Contract(Error::NotFound),
            ),
            self@.blocklist.contains_key(subscriber) ==> match self@.blocklist[subscriber] {
                Some(text) => reply is Ok && reply->Ok_0 is Some && (reply->Ok_0->0)@ == text,
                None => reply == Ok::<Option<&String>, Failure>(None),
            },
    {
        match self.blocking_reason(subscriber) {
            Some(Some(text)) => Ok(Some(text)),
            Some(None) => Ok(None),
            None => Err(Failure::Contract(Error::NotFound)),
        }
    }

    /// Whether `subscriber` has a subscription with `merchant`.
    fn has_customer(&self, merchant: Address, subscriber: Address) -> (found: bool)
        requires
            self@.wf(),
        ensures
            found == self@.is_customer(merchant, subscriber),
    {
        let len: usize = self.merchant_list_len(merchant);
        let mut i: usize = 0;
        while i < len
            invariant
                i <= len == listed(self@.merchant_index, merchant).len(),
                self@.wf(),
                forall|j: int|
                    0 <= j < i ==> self@.subscriptions[
                    #[trigger] listed(self@.merchant_index, merchant)[j]].subscriber != subscriber,
            decreases len - i,
        {
            let id: u32 = self.merchant_list_at(merchant, i);
            assert(self@.subscriptions.contains_key(
                listed(self@.merchant_index, merchant)[i as int],
            ));
            if let Some(subscription) = self.find(id) {
                if subscription.subscriber == subscriber {
                    return true;
                }
            }
            i += 1;
        }
        false
    }

    /// The settings of the vault, for the admin.
    pub fn export_contract_snapshot(&self, admin: Address) -> (reply: Reply<ContractSnapshot>)
        ensures
            settles(
                self@,
                self@,
                reply,
                self@.admin_refusal(admin, Error::Unauthorized),
                self@.snapshot(),
                self@,
            ),
    {
        if let Some(failure) = self.refuse_unless_admin(admin, Error::Unauthorized) {
            return Err(failure);
        }
        let config = self.config();
        Ok(
            ContractSnapshot {
                admin: config.admin,
                token: config.token,
                min_topup: config.min_topup,
                next_id: self.next_id(),
                storage_version: STORAGE_VERSION,
                timestamp: self.now(),
            },
        )
    }

    /// A subscription, for the admin.
    pub fn export_subscription_summary(&self, admin: Address, id: u32) -> (reply: Reply<
        SubscriptionSummary,
    >)
        ensures
            settles(
                self@,
                self@,
                reply,
                self@.admin_lookup_refusal(admin, id),
                SubscriptionSummary {
                    subscription_id: id,
                    subscription: self@.subscriptions[id],
                },
                self@,
            ),
    {
        if let Some(failure) = self.refuse_unless_admin(admin, Error::Unauthorized) {
            return Err(failure);
        }
        match self.find(id) {
            Some(subscription) => Ok(SubscriptionSummary { subscription_id: id, subscription }),
            None => Err(Failure::Contract(Error::NotFound)),
        }
    }

    /// The subscriptions with the `limit` identifiers from `start` on, for the admin.
    pub fn export_subscription_summaries(&self, admin: Address, start: u32, limit: u32) -> (reply:
        Reply<Vec<SubscriptionSummary>>)
        ensures
            match self@.export_refusal(admin, limit) {
                Some(failure) => reply == Err::<Vec<SubscriptionSummary>, Failure>(failure),
                None => reply matches Ok(page) && page@ == summaries(
                    self@.subscriptions,
                    start as int,
                    self@.export_end(start, limit),
                ),
            },
    {
        if let Some(failure) = self.refuse_unless_admin(admin, Error::Unauthorized) {
            return Err(failure);
        }
        if limit == 0 || limit > MAX_SUBSCRIPTION_LIST_PAGE {
            return Err(Failure::Contract(Error::InvalidInput));
        }
        let next: u32 = self.next_id();
        let mut page: Vec<SubscriptionSummary> = Vec::new();
        if start >= next {
            return Ok(page);
        }
        let end: u32 = if limit < next - start {
            start + limit
        } else {
            next
        };
        let mut id: u32 = start;
        while id < end
            invariant
                start <= id <= end,
                page@ == summaries(self@.subscriptions, start as int, id as int),
            decreases end - id,
        {
            if let Some(subscription) = self.find(id) {
                page.push(SubscriptionSummary { subscription_id: id, subscription });
            }
            id += 1;
        }
        Ok(page)
    }
}

/// Compacting statements keeps the vault well-formed.
pub proof fn lemma_compacted_keeps_wf(state: VaultState, id: u32, keep: u32)
    requires
        state.wf(),
    ensures
        state.compacted(id, keep).wf(),
        history(state.statements, id).statements.len() <= u32::MAX,
{
    let before = history(state.statements, id);
    assert(before.numbered());
    assert(before.trimmed(keep).numbered());
}

} // verus!
