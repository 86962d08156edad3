//! Paying money out: withdrawals, refunds and recoveries.
use crate::address::Address;
use crate::error::{Error, Failure, Reply};
use crate::events::Event;
use crate::lifecycle::lemma_store_keeps_wf;
use crate::status::SubscriptionStatus;
use crate::types::{RecoveryReason, Subscription};
use crate::vault::{settles, SubscriptionVault, VaultState};
use vstd::prelude::*;

verus! {

impl VaultState {
    /// Why `caller` cannot act as the admin; one who is not the admin is answered with `denial`.
    pub open spec fn admin_refusal(self, caller: Address, denial: Error) -> Option<Failure> {
        if !self.signed(caller) {
            Some(Failure::Abort)
        } else if caller != self.config.admin {
            Some(Failure::Contract(denial))
        } else {
            None
        }
    }

    /// Why `amount` cannot be paid out of what `account` has earned in `token`. `held` is what the
    /// vault can pay in the token.
    pub open spec fn payout_refusal(
        self,
        account: Address,
        token: Address,
        amount: i128,
        held: i128,
    ) -> Option<Failure> {
        if !self.signed(account) {
            Some(Failure::Abort)
        } else if !self.balances.contains_key((account, token)) {
            Some(Failure::Contract(Error::NotFound))
        } else if amount <= 0 {
            Some(Failure::Contract(Error::InvalidAmount))
        } else if self.balances[(account, token)] < amount {
            Some(Failure::Contract(Error::InsufficientBalance))
        } else if held < amount {
            Some(Failure::Token)
        } else {
            None
        }
    }

    /// The state with `amount` paid out of what `account` has earned in `token`.
    pub open spec fn paid_out(self, account: Address, token: Address, amount: i128) -> VaultState {
        self.with_balance(account, token, (self.earned(account, token) - amount) as i128)
    }

    /// The state after a merchant's withdrawal.
    pub open spec fn merchant_withdrawn(self, merchant: Address, token: Address, amount: i128) -> VaultState {
        self.paid_out(merchant, token, amount).published(
            Event::MerchantWithdrawal {
                merchant,
                token,
                amount,
                remaining_balance: (self.earned(merchant, token) - amount) as i128,
                timestamp: self.timestamp,
            },
        )
    }

    /// The state after a merchant's refund.
    pub open spec fn merchant_refunded(
        self,
        merchant: Address,
        subscriber: Address,
        token: Address,
        amount: i128,
    ) -> VaultState {
        self.paid_out(merchant, token, amount).published(
            Event::MerchantRefund {
                merchant,
                subscriber,
                token,
                amount,
                timestamp: self.timestamp,
            },
        )
    }

    /// Why a subscriber cannot withdraw the balance of subscription `id`. `held` is what the vault can
    /// pay in the token.
    pub open spec fn withdrawal_refusal(self, id: u32, subscriber: Address, held: i128) -> Option<
        Failure,
    > {
        let subscription = self.subscriptions[id];
        if !self.signed(subscriber) {
            Some(Failure::Abort)
        } else if !self.subscriptions.contains_key(id) {
            Some(Failure::Contract(Error::NotFound))
        } else if subscriber != subscription.subscriber {
            Some(Failure::Contract(Error::Forbidden))
        } else if subscription.status != SubscriptionStatus::Cancelled {
            Some(Failure::Contract(Error::InvalidStatusTransition))
        } else if subscription.prepaid_balance <= 0 {
            Some(Failure::Contract(Error::InsufficientBalance))
        } else if held < subscription.prepaid_balance {
            Some(Failure::Token)
        } else {
            None
        }
    }

    /// The state after a subscriber's withdrawal.
    pub open spec fn subscriber_withdrawn(self, id: u32) -> VaultState {
        let subscription = self.subscriptions[id];
        self.with_subscription(id, Subscription { prepaid_balance: 0, ..subscription }).published(
            Event::SubscriberWithdrawal {
                subscription_id: id,
                subscriber: subscription.subscriber,
                token: subscription.token,
                amount: subscription.prepaid_balance,
                timestamp: self.timestamp,
            },
        )
    }

    /// Why the admin cannot pay `amount` of the balance of subscription `id` back. `held` is what the
    /// vault can pay in the token.
    pub open spec fn partial_refund_refusal(
        self,
        admin: Address,
        id: u32,
        subscriber: Address,
        amount: i128,
        held: i128,
    ) -> Option<Failure> {
        let subscription = self.subscriptions[id];
        if self.admin_refusal(admin, Error::Unauthorized) is Some {
            self.admin_refusal(admin, Error::Unauthorized)
        } else if !self.subscriptions.contains_key(id) {
            Some(Failure::Contract(Error::NotFound))
        } else if subscriber != subscription.subscriber {
            Some(Failure::Contract(Error::InvalidInput))
        } else if amount <= 0 {
            Some(Failure::Contract(Error::InvalidAmount))
        } else if subscription.prepaid_balance < amount {
            Some(Failure::Contract(Error::InsufficientBalance))
        } else if held < amount {
            Some(Failure::Token)
        } else {
            None
        }
    }

    /// The state after a partial refund.
    pub open spec fn partially_refunded(self, id: u32, amount: i128) -> VaultState {
        let subscription = self.subscriptions[id];
        self.with_subscription(
            id,
            Subscription {
                prepaid_balance: (subscription.prepaid_balance - amount) as i128,
                ..subscription
            },
        ).published(
            Event::PartialRefund {
                subscription_id: id,
                subscriber: subscription.subscriber,
                token: subscription.token,
                amount,
                timestamp: self.timestamp,
            },
        )
    }

    /// Why the admin cannot recover stranded funds. `held` is what the vault can pay in the token.
    pub open spec fn recovery_refusal(
        self,
        admin: Address,
        amount: i128,
        recovery_id: Seq<char>,
        held: i128,
    ) -> Option<Failure> {
        if self.admin_refusal(admin, Error::Unauthorized) is Some {
            self.admin_refusal(admin, Error::Unauthorized)
        } else if amount <= 0 {
            Some(Failure::Contract(Error::InvalidAmount))
        } else if self.recovery_ids.contains(recovery_id) {
            Some(Failure::Contract(Error::Replay))
        } else if held < amount {
            Some(Failure::Token)
        } else {
            None
        }
    }

    /// The state after a recovery.
    pub open spec fn recovered(
        self,
        token: Address,
        recipient: Address,
        amount: i128,
        recovery_id: Seq<char>,
        reason: RecoveryReason,
    ) -> VaultState {
        VaultState { recovery_ids: self.recovery_ids.push(recovery_id), ..self }.published(
            Event::Recovery {
                admin: self.config.admin,
                recipient,
                token,
                amount,
                reason,
                timestamp: self.timestamp,
            },
        )
    }
}

impl SubscriptionVault {
    /// Why `caller` cannot act as the admin, if so.
    pub(crate) fn refuse_unless_admin(&self, caller: Address, denial: Error) -> (refusal: Option<
        Failure,
    >)
        ensures
            refusal == self@.admin_refusal(caller, denial),
    {
        if !self.has_signed(caller) {
            Some(Failure::Abort)
        } else if caller != self.config().admin {
            Some(Failure::Contract(denial))
        } else {
            None
        }
    }

    /// Pays out of what an account has earned, and returns what remains.
    fn pay_out(&mut self, account: Address, token: Address, amount: i128, held: i128) -> (reply:
        Reply<i128>)
        requires
            old(self)@.wf(),
        ensures
            settles(
                old(self)@,
                final(self)@,
                reply,
                old(self)@.payout_refusal(account, token, amount, held),
                (old(self)@.earned(account, token) - amount) as i128,
                old(self)@.paid_out(account, token, amount),
            ),
            final(self)@.wf(),
    {
        if !self.has_signed(account) {
            return Err(Failure::Abort);
        }
        let earned: i128 = match self.balance(account, token) {
            Some(earned) => earned,
            None => return Err(Failure::Contract(Error::NotFound)),
        };
        if amount <= 0 {
            return Err(Failure::Contract(Error::InvalidAmount));
        }
        if earned < amount {
            return Err(Failure::Contract(Error::InsufficientBalance));
        }
        if held < amount {
            return Err(Failure::Token);
        }
        self.set_balance(account, token, earned - amount);
        Ok(earned - amount)
    }

    /// Pays a merchant earnings in the token of the vault, of which it can pay `held`.
    pub fn withdraw_merchant_funds(&mut self, merchant: Address, amount: i128, held: i128) -> (reply:
        Reply<()>)
        requires
            old(self)@.wf(),
        ensures
            settles(
                old(self)@,
                final(self)@,
                reply,
                old(self)@.payout_refusal(merchant, old(self)@.config.token, amount, held),
                (),
                old(self)@.merchant_withdrawn(merchant, old(self)@.config.token, amount),
            ),
            final(self)@.wf(),
    {
        let token = self.config().token;
        self.withdraw_merchant_token_funds(merchant, token, amount, held)
    }

    /// Pays a merchant earnings in a token, of which the vault can pay `held`.
    pub fn withdraw_merchant_token_funds(
        &mut self,
        merchant: Address,
        token: Address,
        amount: i128,
        held: i128,
    ) -> (reply: Reply<()>)
        requires
            old(self)@.wf(),
        ensures
            settles(
                old(self)@,
                final(self)@,
                reply,
                old(self)@.payout_refusal(merchant, token, amount, held),
                (),
                old(self)@.merchant_withdrawn(merchant, token, amount),
            ),
            final(self)@.wf(),
    {
        let remaining_balance: i128 = match self.pay_out(merchant, token, amount, held) {
            Ok(remaining) => remaining,
            Err(failure) => return Err(failure),
        };
        let timestamp: u64 = self.now();
        self.publish(
            Event::MerchantWithdrawal { merchant, token, amount, remaining_balance, timestamp },
        );
        Ok(())
    }

    /// Pays a subscriber out of what a merchant has earned in a token, of which the vault can pay
    /// `held`.
    pub fn merchant_refund(
        &mut self,
        merchant: Address,
        subscriber: Address,
        token: Address,
        amount: i128,
        held: i128,
    ) -> (reply: Reply<()>)
        requires
            old(self)@.wf(),
        ensures
            settles(
                old(self)@,
                final(self)@,
                reply,
                old(self)@.payout_refusal(merchant, token, amount, held),
                (),
                old(self)@.merchant_refunded(merchant, subscriber, token, amount),
            ),
            final(self)@.wf(),
    {
        match self.pay_out(merchant, token, amount, held) {
            Ok(_) => {},
            Err(failure) => return Err(failure),
        }
        let timestamp: u64 = self.now();
        self.publish(Event::MerchantRefund { merchant, subscriber, token, amount, timestamp });
        Ok(())
    }

    /// Pays a subscriber the whole balance of a cancelled subscription, and returns the amount. `held`
    /// is what the vault can pay in the token.
    pub fn withdraw_subscriber_funds(&mut self, id: u32, subscriber: Address, held: i128) -> (reply:
        Reply<i128>)
        requires
            old(self)@.wf(),
        ensures
            settles(
                old(self)@,
                final(self)@,
                reply,
                old(self)@.withdrawal_refusal(id, subscriber, held),
                old(self)@.subscriptions[id].prepaid_balance,
                old(self)@.subscriber_withdrawn(id),
            ),
            final(self)@.wf(),
    {
        if !self.has_signed(subscriber) {
            return Err(Failure::Abort);
        }
        let before = match self.find(id) {
            Some(subscription) => subscription,
            None => return Err(Failure::Contract(Error::NotFound)),
        };
        if subscriber != before.subscriber {
            return Err(Failure::Contract(Error::Forbidden));
        }
        if before.status != SubscriptionStatus::Cancelled {
            return Err(Failure::Contract(Error::InvalidStatusTransition));
        }
        if before.prepaid_balance <= 0 {
            return Err(Failure::Contract(Error::InsufficientBalance));
        }
        if held < before.prepaid_balance {
            return Err(Failure::Token);
        }
        let after = Subscription { prepaid_balance: 0, ..before };
        proof {
            lemma_store_keeps_wf(self@, id, after);
        }
        let timestamp: u64 = self.now();
        self.store(id, after);
        self.publish(
            Event::SubscriberWithdrawal {
                subscription_id: id,
                subscriber,
                token: before.token,
                amount: before.prepaid_balance,
                timestamp,
            },
        );
        Ok(before.prepaid_balance)
    }

    /// Pays part of the balance of a subscription back to its subscriber, on behalf of the admin.
    /// `held` is what the vault can pay in the token.
    pub fn partial_refund(
        &mut self,
        admin: Address,
        id: u32,
        subscriber: Address,
        amount: i128,
        held: i128,
    ) -> (reply: Reply<()>)
        requires
            old(self)@.wf(),
        ensures
            settles(
                old(self)@,
                final(self)@,
                reply,
                old(self)@.partial_refund_refusal(admin, id, subscriber, amount, held),
                (),
                old(self)@.partially_refunded(id, amount),
            ),
            final(self)@.wf(),
    {
        if let Some(failure) = self.refuse_unless_admin(admin, Error::Unauthorized) {
            return Err(failure);
        }
        let before = match self.find(id) {
            Some(subscription) => subscription,
            None => return Err(Failure::Contract(Error::NotFound)),
        };
        if subscriber != before.subscriber {
            return Err(Failure::Contract(Error::InvalidInput));
        }
        if amount <= 0 {
            return Err(Failure::Contract(Error::InvalidAmount));
        }
        if before.prepaid_balance < amount {
            return Err(Failure::Contract(Error::InsufficientBalance));
        }
        if held < amount {
            return Err(Failure::Token);
        }
        let after = Subscription { prepaid_balance: before.prepaid_balance - amount, ..before };
        proof {
            lemma_store_keeps_wf(self@, id, after);
        }
        let timestamp: u64 = self.now();
        self.store(id, after);
        self.publish(
            Event::PartialRefund {
                subscription_id: id,
                subscriber,
                token: before.token,
                amount,
                timestamp,
            },
        );
        Ok(())
    }

    /// Pays stranded funds out, on behalf of the admin. `held` is what the vault can pay in the token.
    /// Balances and earnings stay as they are, and a recovery is carried out once.
    pub fn recover_stranded_funds(
        &mut self,
        admin: Address,
        token: Address,
        recipient: Address,
        amount: i128,
        recovery_id: String,
        reason: RecoveryReason,
        held: i128,
    ) -> (reply: Reply<()>)
        requires
            old(self)@.wf(),
        ensures
            settles(
                old(self)@,
                final(self)@,
                reply,
                old(self)@.recovery_refusal(admin, amount, recovery_id@, held),
                (),
                old(self)@.recovered(token, recipient, amount, recovery_id@, reason),
            ),
            final(self)@.wf(),
    {
        if let Some(failure) = self.refuse_unless_admin(admin, Error::Unauthorized) {
            return Err(failure);
        }
        if amount <= 0 {
            return Err(Failure::Contract(Error::InvalidAmount));
        }
        if self.has_recovered(&recovery_id) {
            return Err(Failure::Contract(Error::Replay));
        }
        if held < amount {
            return Err(Failure::Token);
        }
        let timestamp: u64 = self.now();
        self.note_recovery(recovery_id);
        self.publish(Event::Recovery { admin, recipient, token, amount, reason, timestamp });
        Ok(())
    }
}

} // verus!
