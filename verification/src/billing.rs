//! Charging subscriptions.
use crate::address::Address;
use crate::error::{Error, Failure, Reply};
use crate::events::Event;
use crate::host::{as_numbers, holds_numbers, host_items, host_list_get, host_list_len};
use crate::lifecycle::lemma_store_keeps_wf;
use crate::statements::history;
use crate::status::SubscriptionStatus;
use crate::types::{
    BatchChargeResult, BillingChargeKind, ChargeExecutionResult, Subscription, BASIS_POINTS,
};
use crate::vault::{settles, sound, SubscriptionVault, VaultState};
use vstd::prelude::*;

verus! {

/// When the next charge of a subscription falls due.
pub open spec fn due(subscription: Subscription) -> int {
    subscription.last_payment_timestamp + subscription.interval_seconds
}

/// Charges are attempted on active subscriptions, and on those in their grace period.
pub open spec fn is_chargeable(subscription: Subscription) -> bool {
    subscription.status == SubscriptionStatus::Active || subscription.status
        == SubscriptionStatus::GracePeriod
}

/// A charge of the subscription's amount would take it past its lifetime cap.
pub open spec fn exceeds_cap(subscription: Subscription, amount: i128) -> bool {
    subscription.lifetime_cap matches Some(cap) && subscription.lifetime_charged + amount > cap
}

/// A charge uses the lifetime cap up.
pub open spec fn uses_up_cap(subscription: Subscription, amount: i128) -> bool {
    subscription.lifetime_cap matches Some(cap) && subscription.lifetime_charged + amount >= cap
}

/// A subscription from whose balance `amount` has been charged. One that has used up its lifetime
/// cap is cancelled.
pub open spec fn debited(subscription: Subscription, amount: i128) -> Subscription {
    Subscription {
        prepaid_balance: (subscription.prepaid_balance - amount) as i128,
        lifetime_charged: (subscription.lifetime_charged + amount) as i128,
        status: if uses_up_cap(subscription, amount) {
            SubscriptionStatus::Cancelled
        } else {
            SubscriptionStatus::Active
        },
        grace_start_timestamp: None,
        ..subscription
    }
}

impl VaultState {
    /// The part of a charge that goes to the treasury, rounded down.
    pub open spec fn fee(self, amount: int) -> int {
        match self.config.protocol_fee {
            Some(fee) => amount * fee.fee_bps / (BASIS_POINTS as int),
            None => 0,
        }
    }

    pub open spec fn credited(self, account: Address, token: Address, amount: int) -> VaultState {
        self.with_balance(account, token, (self.earned(account, token) + amount) as i128)
    }

    /// The state with a charge shared out between the merchant and the treasury.
    pub open spec fn shared_out(self, merchant: Address, token: Address, amount: i128) -> VaultState {
        let fee = self.fee(amount as int);
        let paid = self.credited(merchant, token, amount - fee);
        if fee > 0 {
            paid.credited(self.config.protocol_fee->0.treasury, token, fee)
        } else {
            paid
        }
    }

    /// The balances have room for the shares of a charge.
    pub open spec fn can_share_out(self, merchant: Address, token: Address, amount: i128) -> bool {
        let fee = self.fee(amount as int);
        let paid = self.credited(merchant, token, amount - fee);
        &&& self.earned(merchant, token) + amount - fee <= i128::MAX
        &&& fee > 0 ==> paid.earned(self.config.protocol_fee->0.treasury, token) + fee <= i128::MAX
    }

    /// The state with one more billing statement.
    pub open spec fn stated(
        self,
        id: u32,
        amount: i128,
        merchant: Address,
        kind: BillingChargeKind,
        period_start: u64,
        period_end: u64,
    ) -> VaultState {
        VaultState {
            statements: self.statements.insert(
                id,
                history(self.statements, id).extended(
                    id,
                    amount,
                    merchant,
                    kind,
                    period_start,
                    period_end,
                ),
            ),
            ..self
        }
    }

    /// Why a charge of subscription `id` is not even attempted, or cannot be booked.
    pub open spec fn charge_refusal(self, id: u32) -> Option<Failure> {
        let subscription = self.subscriptions[id];
        if !self.subscriptions.contains_key(id) {
            Some(Failure::Contract(Error::NotFound))
        } else if !is_chargeable(subscription) {
            Some(Failure::Contract(Error::NotActive))
        } else if self.has_expired(subscription) {
            None
        } else if due(subscription) > u64::MAX {
            Some(Failure::Contract(Error::Overflow))
        } else if self.timestamp < due(subscription) {
            Some(Failure::Contract(Error::IntervalNotElapsed))
        } else if exceeds_cap(subscription, subscription.amount) {
            Some(Failure::Contract(Error::LifetimeCapReached))
        } else if subscription.prepaid_balance < subscription.amount {
            None
        } else if !self.can_book(id, subscription.amount) || !self.can_share_out(
            subscription.merchant,
            subscription.token,
            subscription.amount,
        ) {
            Some(Failure::Contract(Error::Overflow))
        } else {
            None
        }
    }

    /// The lifetime total and the statement numbers have room for a charge.
    pub open spec fn can_book(self, id: u32, amount: i128) -> bool {
        &&& self.subscriptions[id].lifetime_charged + amount <= i128::MAX
        &&& history(self.statements, id).next_sequence < u32::MAX
    }

    pub open spec fn has_expired(self, subscription: Subscription) -> bool {
        subscription.expires_at matches Some(end) && self.timestamp >= end
    }

    /// What a charge that is attempted comes to.
    pub open spec fn charge_outcome(self, id: u32) -> ChargeExecutionResult {
        let subscription = self.subscriptions[id];
        if self.has_expired(subscription) {
            ChargeExecutionResult::Expired
        } else if subscription.prepaid_balance < subscription.amount {
            ChargeExecutionResult::InsufficientBalance
        } else {
            ChargeExecutionResult::Charged
        }
    }

    /// The state after a charge that found subscription `id` past its expiration time.
    pub open spec fn expired(self, id: u32) -> VaultState {
        self.with_subscription(
            id,
            Subscription {
                status: SubscriptionStatus::Expired,
                grace_start_timestamp: None,
                ..self.subscriptions[id]
            },
        ).published(Event::SubscriptionExpired { subscription_id: id, timestamp: self.timestamp })
    }

    /// The status of a subscription whose balance did not cover a charge: for a while after the due
    /// time it is in its grace period.
    pub open spec fn failure_status(self, subscription: Subscription) -> SubscriptionStatus {
        if self.timestamp < due(subscription) + self.config.grace_period {
            SubscriptionStatus::GracePeriod
        } else {
            SubscriptionStatus::InsufficientBalance
        }
    }

    /// The state after a charge that the balance of subscription `id` did not cover.
    pub open spec fn charge_failed(self, id: u32) -> VaultState {
        let subscription = self.subscriptions[id];
        let status = self.failure_status(subscription);
        self.with_subscription(
            id,
            Subscription {
                status,
                grace_start_timestamp: if status != SubscriptionStatus::GracePeriod {
                    None
                } else if subscription.status == SubscriptionStatus::GracePeriod {
                    subscription.grace_start_timestamp
                } else {
                    Some(self.timestamp)
                },
                ..subscription
            },
        ).published(
            Event::SubscriptionChargeFailed {
                subscription_id: id,
                merchant: subscription.merchant,
                required_amount: subscription.amount,
                available_balance: subscription.prepaid_balance,
                shortfall: shortfall(subscription),
                resulting_status: status,
                timestamp: self.timestamp,
            },
        )
    }

    /// The state once the end of the lifetime cap has been announced, if the charge used it up.
    pub open spec fn cap_announced(self, id: u32, before: Subscription, amount: i128) -> VaultState {
        if uses_up_cap(before, amount) {
            self.published(
                Event::LifetimeCapReached {
                    subscription_id: id,
                    lifetime_cap: before.lifetime_cap->0,
                    lifetime_charged: (before.lifetime_charged + amount) as i128,
                    timestamp: self.timestamp,
                },
            )
        } else {
            self
        }
    }

    /// The state once the treasury's share has been announced, if there is one.
    pub open spec fn fee_announced(self, id: u32, amount: i128) -> VaultState {
        let fee = self.fee(amount as int);
        if fee > 0 {
            self.published(
                Event::ProtocolFeeCharged {
                    subscription_id: id,
                    treasury: self.config.protocol_fee->0.treasury,
                    fee_amount: fee as i128,
                    merchant_amount: (amount - fee) as i128,
                    timestamp: self.timestamp,
                },
            )
        } else {
            self
        }
    }

    /// The state after subscription `id` has been charged for an interval.
    pub open spec fn interval_charged(self, id: u32) -> VaultState {
        let before = self.subscriptions[id];
        let amount = before.amount;
        let after = Subscription {
            last_payment_timestamp: self.timestamp,
            ..debited(before, amount)
        };
        self.with_subscription(id, after).shared_out(before.merchant, before.token, amount).stated(
            id,
            amount,
            before.merchant,
            BillingChargeKind::Interval,
            before.last_payment_timestamp,
            self.timestamp,
        ).published(
            Event::SubscriptionCharged {
                subscription_id: id,
                subscriber: before.subscriber,
                merchant: before.merchant,
                token: before.token,
                amount,
                lifetime_charged: after.lifetime_charged,
                remaining_balance: after.prepaid_balance,
                timestamp: self.timestamp,
            },
        ).fee_announced(id, amount).cap_announced(id, before, amount)
    }

    /// The state after a charge of subscription `id` that is attempted.
    pub open spec fn charged(self, id: u32) -> VaultState {
        match self.charge_outcome(id) {
            ChargeExecutionResult::Expired => self.expired(id),
            ChargeExecutionResult::InsufficientBalance => self.charge_failed(id),
            ChargeExecutionResult::Charged => self.interval_charged(id),
        }
    }

    /// The state after an attempt to charge subscription `id`, refused or not.
    pub open spec fn attempted(self, id: u32) -> VaultState {
        if self.charge_refusal(id) is None {
            self.charged(id)
        } else {
            self
        }
    }

    /// How an attempt to charge subscription `id` is reported.
    pub open spec fn attempt_result(self, id: u32) -> BatchChargeResult {
        match self.charge_refusal(id) {
            Some(Failure::Contract(error)) => BatchChargeResult {
                success: false,
                error_code: error.code(),
            },
            Some(_) => BatchChargeResult { success: false, error_code: 0 },
            None => match self.charge_outcome(id) {
                ChargeExecutionResult::Charged => BatchChargeResult {
                    success: true,
                    error_code: 0,
                },
                ChargeExecutionResult::InsufficientBalance => BatchChargeResult {
                    success: false,
                    error_code: Error::InsufficientBalance.code(),
                },
                ChargeExecutionResult::Expired => BatchChargeResult {
                    success: false,
                    error_code: Error::SubscriptionExpired.code(),
                },
            },
        }
    }

    /// The state after attempts to charge the given subscriptions one after the other.
    pub open spec fn all_attempted(self, ids: Seq<u32>) -> VaultState
        decreases ids.len(),
    {
        if ids.len() == 0 {
            self
        } else {
            self.all_attempted(ids.drop_last()).attempted(ids.last())
        }
    }

    /// How attempts to charge the given subscriptions one after the other are reported.
    pub open spec fn all_results(self, ids: Seq<u32>) -> Seq<BatchChargeResult> {
        Seq::new(
            ids.len(),
            |i: int| self.all_attempted(ids.take(i)).attempt_result(ids[i]),
        )
    }

    /// Why a merchant's charge outside the interval is refused.
    pub open spec fn one_off_refusal(self, id: u32, merchant: Address, amount: i128) -> Option<
        Failure,
    > {
        let subscription = self.subscriptions[id];
        if !self.signed(merchant) {
            Some(Failure::Abort)
        } else if !self.subscriptions.contains_key(id) {
            Some(Failure::Contract(Error::NotFound))
        } else if merchant != subscription.merchant {
            Some(Failure::Contract(Error::Unauthorized))
        } else if amount <= 0 {
            Some(Failure::Contract(Error::InvalidAmount))
        } else if subscription.status != SubscriptionStatus::Active {
            Some(Failure::Contract(Error::NotActive))
        } else if subscription.prepaid_balance < amount {
            Some(Failure::Contract(Error::InsufficientBalance))
        } else if exceeds_cap(subscription, amount) {
            Some(Failure::Contract(Error::LifetimeCapReached))
        } else if !self.can_book(id, amount) || self.earned(merchant, subscription.token) + amount
            > i128::MAX {
            Some(Failure::Contract(Error::Overflow))
        } else {
            None
        }
    }

    /// The state after a merchant's charge outside the interval.
    pub open spec fn one_off_charged(self, id: u32, amount: i128) -> VaultState {
        let before = self.subscriptions[id];
        let after = debited(before, amount);
        self.with_subscription(id, after).credited(
            before.merchant,
            before.token,
            amount as int,
        ).stated(
            id,
            amount,
            before.merchant,
            BillingChargeKind::OneOff,
            self.timestamp,
            self.timestamp,
        ).published(
            Event::OneOffCharged {
                subscription_id: id,
                subscriber: before.subscriber,
                merchant: before.merchant,
                token: before.token,
                amount,
                remaining_balance: after.prepaid_balance,
                timestamp: self.timestamp,
            },
        ).cap_announced(id, before, amount)
    }
}

/// How much a subscription lacks for its next charge, or the largest number there is.
pub open spec fn shortfall(subscription: Subscription) -> i128 {
    if subscription.amount - subscription.prepaid_balance > i128::MAX {
        i128::MAX
    } else {
        (subscription.amount - subscription.prepaid_balance) as i128
    }
}

/// A fee is a share of the amount it is taken from.
pub proof fn lemma_fee_is_a_share(state: VaultState, amount: int)
    requires
        state.wf(),
        0 <= amount,
    ensures
        0 <= state.fee(amount) <= amount,
{
    if let Some(fee) = state.config.protocol_fee {
        let bps = fee.fee_bps as int;
        assert(0 <= amount * bps <= amount * 10_000) by (nonlinear_arith)
            requires
                0 <= amount,
                0 <= bps <= 10_000,
        ;
    }
}

/// Stating a charge keeps the vault well-formed.
pub proof fn lemma_stated_keeps_wf(
    state: VaultState,
    id: u32,
    amount: i128,
    merchant: Address,
    kind: BillingChargeKind,
    period_start: u64,
    period_end: u64,
)
    requires
        state.wf(),
        history(state.statements, id).next_sequence < u32::MAX,
    ensures
        state.stated(id, amount, merchant, kind, period_start, period_end).wf(),
{
    let before = history(state.statements, id);
    assert(before.numbered());
    crate::statements::law_histories_stay_numbered(
        before,
        id,
        amount,
        merchant,
        kind,
        period_start,
        period_end,
        0,
    );
}

/// The part of `amount` that `bps` basis points make, rounded down.
fn share(amount: i128, bps: u32) -> (part: i128)
    requires
        0 <= amount,
        bps <= BASIS_POINTS,
    ensures
        part == amount * bps / (BASIS_POINTS as int),
        0 <= part <= amount,
{
    let wholes: i128 = amount / 10_000;
    let rest: i128 = amount % 10_000;
    proof {
        let w = wholes as int;
        let r = rest as int;
        let b = bps as int;
        assert(amount == w * 10_000 + r);
        assert(amount * b == (w * b) * 10_000 + r * b) by (nonlinear_arith)
            requires
                amount == w * 10_000 + r,
        ;
        assert(0 <= w * b <= w * 10_000) by (nonlinear_arith)
            requires
                0 <= w,
                0 <= b <= 10_000,
        ;
        assert(0 <= r * b <= r * 10_000) by (nonlinear_arith)
            requires
                0 <= r,
                0 <= b <= 10_000,
        ;
    }
    wholes * bps as i128 + rest * bps as i128 / 10_000
}

impl SubscriptionVault {
    /// Adds to what an account has earned.
    fn credit(&mut self, account: Address, token: Address, amount: i128)
        requires
            0 <= amount,
            old(self)@.earned(account, token) + amount <= i128::MAX,
        ensures
            final(self)@ == old(self)@.credited(account, token, amount as int),
    {
        let before: i128 = match self.balance(account, token) {
            Some(balance) => balance,
            None => 0,
        };
        self.set_balance(account, token, before + amount);
    }

    /// What `account` has earned in `token`.
    fn earnings(&self, account: Address, token: Address) -> (amount: i128)
        ensures
            amount == self@.earned(account, token),
    {
        match self.balance(account, token) {
            Some(balance) => balance,
            None => 0,
        }
    }

    /// Adds a billing statement.
    fn state_charge(
        &mut self,
        id: u32,
        amount: i128,
        merchant: Address,
        kind: BillingChargeKind,
        period_start: u64,
        period_end: u64,
    )
        requires
            old(self)@.wf(),
            history(old(self)@.statements, id).next_sequence < u32::MAX,
        ensures
            final(self)@ == old(self)@.stated(
                id,
                amount,
                merchant,
                kind,
                period_start,
                period_end,
            ),
            final(self)@.wf(),
    {
        proof {
            lemma_stated_keeps_wf(self@, id, amount, merchant, kind, period_start, period_end);
        }
        let book = self.statement_book_mut();
        book.append(id, amount, merchant, kind, period_start, period_end);
    }

    /// Adds a billing statement to the history of a subscription.
    pub fn append_statement(
        &mut self,
        id: u32,
        amount: i128,
        merchant: Address,
        kind: BillingChargeKind,
        period_start: u64,
        period_end: u64,
    ) -> (result: Result<(), Error>)
        requires
            old(self)@.wf(),
        ensures
            history(old(self)@.statements, id).next_sequence == u32::MAX ==> result == Err::<
                (),
                Error,
            >(Error::Overflow) && final(self)@ == old(self)@,
            history(old(self)@.statements, id).next_sequence < u32::MAX ==> result == Ok::<
                (),
                Error,
            >(()) && final(self)@ == old(self)@.stated(
                id,
                amount,
                merchant,
                kind,
                period_start,
                period_end,
            ),
            final(self)@.wf(),
    {
        if self.statement_book().next_sequence(id) == u32::MAX {
            return Err(Error::Overflow);
        }
        self.state_charge(id, amount, merchant, kind, period_start, period_end);
        Ok(())
    }

    /// Books a charge that found the subscription past its expiration time.
    fn book_expiration(&mut self, id: u32, before: Subscription)
        requires
            old(self)@.wf(),
            old(self)@.subscriptions.contains_key(id),
            before == old(self)@.subscriptions[id],
        ensures
            final(self)@ == old(self)@.expired(id),
            final(self)@.wf(),
    {
        let after = Subscription {
            status: SubscriptionStatus::Expired,
            grace_start_timestamp: None,
            ..before
        };
        proof {
            lemma_store_keeps_wf(self@, id, after);
        }
        let timestamp: u64 = self.now();
        self.store(id, after);
        self.publish(Event::SubscriptionExpired { subscription_id: id, timestamp });
    }

    /// Books a charge that the balance did not cover.
    fn book_failure(&mut self, id: u32, before: Subscription)
        requires
            old(self)@.wf(),
            old(self)@.subscriptions.contains_key(id),
            before == old(self)@.subscriptions[id],
            before.prepaid_balance < before.amount,
            due(before) <= old(self)@.timestamp,
        ensures
            final(self)@ == old(self)@.charge_failed(id),
            final(self)@.wf(),
    {
        let timestamp: u64 = self.now();
        let late: u64 = timestamp - (before.last_payment_timestamp + before.interval_seconds);
        let status = if late < self.config().grace_period {
            SubscriptionStatus::GracePeriod
        } else {
            SubscriptionStatus::InsufficientBalance
        };
        let grace_start_timestamp: Option<u64> = if status != SubscriptionStatus::GracePeriod {
            None
        } else if before.status == SubscriptionStatus::GracePeriod {
            before.grace_start_timestamp
        } else {
            Some(timestamp)
        };
        let after = Subscription { status, grace_start_timestamp, ..before };
        proof {
            lemma_store_keeps_wf(self@, id, after);
        }
        let shortfall: i128 = match before.amount.checked_sub(before.prepaid_balance) {
            Some(shortfall) => shortfall,
            None => i128::MAX,
        };
        self.store(id, after);
        self.publish(
            Event::SubscriptionChargeFailed {
                subscription_id: id,
                merchant: before.merchant,
                required_amount: before.amount,
                available_balance: before.prepaid_balance,
                shortfall,
                resulting_status: status,
                timestamp,
            },
        );
    }

    /// Whether a charge of `amount` uses up, or would exceed, a lifetime cap.
    fn cap_use(before: &Subscription, amount: i128) -> (use_: (bool, bool))
        requires
            sound(*before),
            amount > 0,
        ensures
            use_.0 == uses_up_cap(*before, amount),
            use_.1 == exceeds_cap(*before, amount),
    {
        match before.lifetime_cap {
            Some(cap) => (cap - before.lifetime_charged <= amount, cap - before.lifetime_charged
                < amount),
            None => (false, false),
        }
    }

    /// Takes a charge from the balance of a subscription.
    fn debit(&mut self, id: u32, before: Subscription, amount: i128, last_payment_timestamp: u64) -> (after:
        Subscription)
        requires
            old(self)@.wf(),
            old(self)@.subscriptions.contains_key(id),
            before == old(self)@.subscriptions[id],
            0 < amount <= before.prepaid_balance,
            !exceeds_cap(before, amount),
            before.lifetime_charged + amount <= i128::MAX,
        ensures
            after == (Subscription { last_payment_timestamp, ..debited(before, amount) }),
            final(self)@ == old(self)@.with_subscription(id, after),
            final(self)@.wf(),
    {
        let (used_up, _) = SubscriptionVault::cap_use(&before, amount);
        let after = Subscription {
            prepaid_balance: before.prepaid_balance - amount,
            lifetime_charged: before.lifetime_charged + amount,
            status: if used_up {
                SubscriptionStatus::Cancelled
            } else {
                SubscriptionStatus::Active
            },
            grace_start_timestamp: None,
            last_payment_timestamp,
            ..before
        };
        proof {
            lemma_store_keeps_wf(self@, id, after);
        }
        self.store(id, after);
        after
    }

    /// Announces that a charge has used a lifetime cap up, if it has.
    fn announce_cap(&mut self, id: u32, before: Subscription, amount: i128)
        requires
            old(self)@.wf(),
            sound(before),
            amount > 0,
            before.lifetime_charged + amount <= i128::MAX,
        ensures
            final(self)@ == old(self)@.cap_announced(id, before, amount),
            final(self)@.wf(),
    {
        let timestamp: u64 = self.now();
        if let Some(cap) = before.lifetime_cap {
            if cap - before.lifetime_charged <= amount {
                self.publish(
                    Event::LifetimeCapReached {
                        subscription_id: id,
                        lifetime_cap: cap,
                        lifetime_charged: before.lifetime_charged + amount,
                        timestamp,
                    },
                );
            }
        }
    }

    /// The treasury and its share of a charge.
    fn treasury_share(&self, amount: i128) -> (share_: Option<(Address, i128)>)
        requires
            self@.wf(),
            0 <= amount,
        ensures
            share_ == (if self@.fee(amount as int) > 0 {
                Some((self@.config.protocol_fee->0.treasury, self@.fee(amount as int) as i128))
            } else {
                None
            }),
            0 <= self@.fee(amount as int) <= amount,
    {
        match self.config().protocol_fee {
            Some(fee) => {
                let part: i128 = share(amount, fee.fee_bps);
                if part > 0 {
                    Some((fee.treasury, part))
                } else {
                    None
                }
            },
            None => None,
        }
    }

    /// Whether the balances have room for the shares of a charge.
    fn has_room_for(&self, merchant: Address, token: Address, amount: i128) -> (room: bool)
        requires
            self@.wf(),
            0 <= amount,
        ensures
            room == self@.can_share_out(merchant, token, amount),
    {
        let earned: i128 = self.earnings(merchant, token);
        match self.treasury_share(amount) {
            Some((treasury, fee)) => {
                let net: i128 = amount - fee;
                match earned.checked_add(net) {
                    None => false,
                    Some(credited) => {
                        let held: i128 = if treasury == merchant {
                            credited
                        } else {
                            self.earnings(treasury, token)
                        };
                        held.checked_add(fee).is_some()
                    },
                }
            },
            None => earned.checked_add(amount).is_some(),
        }
    }

    /// Shares a charge out between the merchant and the treasury.
    fn share_out(&mut self, merchant: Address, token: Address, amount: i128)
        requires
            old(self)@.wf(),
            0 <= amount,
            old(self)@.can_share_out(merchant, token, amount),
        ensures
            final(self)@ == old(self)@.shared_out(merchant, token, amount),
            final(self)@.wf(),
    {
        match self.treasury_share(amount) {
            Some((treasury, fee)) => {
                self.credit(merchant, token, amount - fee);
                self.credit(treasury, token, fee);
            },
            None => self.credit(merchant, token, amount),
        }
    }

    /// Announces the treasury's share of a charge, if there is one.
    fn announce_fee(&mut self, id: u32, amount: i128)
        requires
            old(self)@.wf(),
            0 <= amount,
        ensures
            final(self)@ == old(self)@.fee_announced(id, amount),
            final(self)@.wf(),
    {
        let timestamp: u64 = self.now();
        if let Some((treasury, fee)) = self.treasury_share(amount) {
            self.publish(
                Event::ProtocolFeeCharged {
                    subscription_id: id,
                    treasury,
                    fee_amount: fee,
                    merchant_amount: amount - fee,
                    timestamp,
                },
            );
        }
    }

    /// Books an interval charge.
    fn book_interval(&mut self, id: u32, before: Subscription)
        requires
            old(self)@.wf(),
            old(self)@.subscriptions.contains_key(id),
            before == old(self)@.subscriptions[id],
            before.amount <= before.prepaid_balance,
            !exceeds_cap(before, before.amount),
            old(self)@.can_book(id, before.amount),
            old(self)@.can_share_out(before.merchant, before.token, before.amount),
        ensures
            final(self)@ == old(self)@.interval_charged(id),
            final(self)@.wf(),
    {
        let timestamp: u64 = self.now();
        let amount: i128 = before.amount;
        let after = self.debit(id, before, amount, timestamp);
        self.share_out(before.merchant, before.token, amount);
        self.state_charge(
            id,
            amount,
            before.merchant,
            BillingChargeKind::Interval,
            before.last_payment_timestamp,
            timestamp,
        );
        self.publish(
            Event::SubscriptionCharged {
                subscription_id: id,
                subscriber: before.subscriber,
                merchant: before.merchant,
                token: before.token,
                amount,
                lifetime_charged: after.lifetime_charged,
                remaining_balance: after.prepaid_balance,
                timestamp,
            },
        );
        self.announce_fee(id, amount);
        self.announce_cap(id, before, amount);
    }

    /// Charges a subscription for the interval that has elapsed. Anyone may ask for it.
    pub fn charge_subscription(&mut self, id: u32) -> (reply: Reply<ChargeExecutionResult>)
        requires
            old(self)@.wf(),
        ensures
            settles(
                old(self)@,
                final(self)@,
                reply,
                old(self)@.charge_refusal(id),
                old(self)@.charge_outcome(id),
                old(self)@.charged(id),
            ),
            reply == Ok::<ChargeExecutionResult, Failure>(ChargeExecutionResult::Charged) ==> {
                let before = old(self)@.subscriptions[id];
                let now = final(self)@.subscriptions[id];
                &&& now.prepaid_balance == before.prepaid_balance - before.amount
                &&& now.lifetime_charged == before.lifetime_charged + before.amount
                &&& now.status == if before.lifetime_cap == Some(now.lifetime_charged) {
                    SubscriptionStatus::Cancelled
                } else {
                    SubscriptionStatus::Active
                }
            },
            final(self)@.wf(),
    {
        let subscription = match self.find(id) {
            Some(subscription) => subscription,
            None => return Err(Failure::Contract(Error::NotFound)),
        };
        if subscription.status != SubscriptionStatus::Active && subscription.status
            != SubscriptionStatus::GracePeriod {
            return Err(Failure::Contract(Error::NotActive));
        }
        let now: u64 = self.now();
        if let Some(end) = subscription.expires_at {
            if now >= end {
                self.book_expiration(id, subscription);
                return Ok(ChargeExecutionResult::Expired);
            }
        }
        match subscription.last_payment_timestamp.checked_add(subscription.interval_seconds) {
            None => return Err(Failure::Contract(Error::Overflow)),
            Some(due_time) => if now < due_time {
                return Err(Failure::Contract(Error::IntervalNotElapsed));
            },
        }
        let amount: i128 = subscription.amount;
        let (_, exceeded) = SubscriptionVault::cap_use(&subscription, amount);
        if exceeded {
            return Err(Failure::Contract(Error::LifetimeCapReached));
        }
        if subscription.prepaid_balance < amount {
            self.book_failure(id, subscription);
            return Ok(ChargeExecutionResult::InsufficientBalance);
        }
        if subscription.lifetime_charged.checked_add(amount).is_none()
            || self.statement_book().next_sequence(id) == u32::MAX || !self.has_room_for(
            subscription.merchant,
            subscription.token,
            amount,
        ) {
            return Err(Failure::Contract(Error::Overflow));
        }
        self.book_interval(id, subscription);
        Ok(ChargeExecutionResult::Charged)
    }

    /// Charges a subscription and reports how it went.
    pub fn attempt_charge(&mut self, id: u32) -> (result: BatchChargeResult)
        requires
            old(self)@.wf(),
        ensures
            result == old(self)@.attempt_result(id),
            final(self)@ == old(self)@.attempted(id),
            final(self)@.wf(),
    {
        match self.charge_subscription(id) {
            Ok(ChargeExecutionResult::Charged) => BatchChargeResult {
                success: true,
                error_code: 0,
            },
            Ok(ChargeExecutionResult::InsufficientBalance) => BatchChargeResult {
                success: false,
                error_code: Error::InsufficientBalance.to_code(),
            },
            Ok(ChargeExecutionResult::Expired) => BatchChargeResult {
                success: false,
                error_code: Error::SubscriptionExpired.to_code(),
            },
            Err(Failure::Contract(error)) => BatchChargeResult {
                success: false,
                error_code: error.to_code(),
            },
            Err(_) => BatchChargeResult { success: false, error_code: 0 },
        }
    }

    /// Charges the listed subscriptions one after the other, on behalf of the admin. A charge that is
    /// refused does not stop the others. A list that holds anything but identifiers aborts the call.
    pub fn batch_charge(&mut self, ids: &soroban_sdk::Vec<u32>) -> (reply: Reply<
        Vec<BatchChargeResult>,
    >)
        requires
            old(self)@.wf(),
        ensures
            old(self)@.signed(old(self)@.config.admin) && holds_numbers(host_items(*ids)) ==> {
                &&& reply matches Ok(results) && results@ == old(self)@.all_results(
                    as_numbers(host_items(*ids)),
                )
                &&& final(self)@ == old(self)@.all_attempted(as_numbers(host_items(*ids)))
            },
            !(old(self)@.signed(old(self)@.config.admin) && holds_numbers(host_items(*ids))) ==> {
                &&& reply == Err::<Vec<BatchChargeResult>, Failure>(Failure::Abort)
                &&& final(self)@ == old(self)@
            },
            final(self)@.wf(),
    {
        let admin = self.config().admin;
        if !self.has_signed(admin) {
            return Err(Failure::Abort);
        }
        let len: u32 = host_list_len(ids);
        let mut batch: Vec<u32> = Vec::new();
        let mut i: u32 = 0;
        while i < len
            invariant
                i <= len == host_items(*ids).len(),
                batch@.len() == i,
                forall|j: int| 0 <= j < i ==> #[trigger] host_items(*ids)[j] == Some(batch@[j]),
                self@ == old(self)@,
                self@.wf(),
            decreases len - i,
        {
            match host_list_get(ids, i) {
                Some(id) => batch.push(id),
                None => {
                    assert(host_items(*ids)[i as int] is None);
                    return Err(Failure::Abort);
                },
            }
            i += 1;
        }
        assert(as_numbers(host_items(*ids)) =~= batch@);
        Ok(self.charge_each(&batch))
    }

    /// Charges subscriptions one after the other and reports how each charge went.
    pub fn charge_each(&mut self, ids: &[u32]) -> (results: Vec<BatchChargeResult>)
        requires
            old(self)@.wf(),
        ensures
            results@ == old(self)@.all_results(ids@),
            final(self)@ == old(self)@.all_attempted(ids@),
            final(self)@.wf(),
    {
        let mut results: Vec<BatchChargeResult> = Vec::new();
        let mut i: usize = 0;
        while i < ids.len()
            invariant
                i <= ids@.len(),
                self@.wf(),
                self@ == old(self)@.all_attempted(ids@.take(i as int)),
                results@ == old(self)@.all_results(ids@).take(i as int),
            decreases ids@.len() - i,
        {
            let result = self.attempt_charge(ids[i]);
            results.push(result);
            i += 1;
            proof {
                let done = ids@.take(i as int);
                assert(done.drop_last() =~= ids@.take(i - 1));
                assert(done.last() == ids@[i - 1]);
                assert(old(self)@.all_results(ids@).take(i as int) =~= old(self)@.all_results(
                    ids@,
                ).take(i - 1).push(result));
            }
        }
        assert(ids@.take(i as int) =~= ids@);
        assert(results@ =~= old(self)@.all_results(ids@));
        results
    }

    /// Charges a subscription outside its interval, on behalf of its merchant.
    pub fn charge_one_off(&mut self, id: u32, merchant: Address, amount: i128) -> (reply: Reply<()>)
        requires
            old(self)@.wf(),
        ensures
            settles(
                old(self)@,
                final(self)@,
                reply,
                old(self)@.one_off_refusal(id, merchant, amount),
                (),
                old(self)@.one_off_charged(id, amount),
            ),
            reply is Ok ==> {
                let before = old(self)@.subscriptions[id];
                let now = final(self)@.subscriptions[id];
                let earned = (merchant, before.token);
                &&& now.prepaid_balance == before.prepaid_balance - amount
                &&& now.lifetime_charged == before.lifetime_charged + amount
                &&& now.status == if before.lifetime_cap == Some(now.lifetime_charged) {
                    SubscriptionStatus::Cancelled
                } else {
                    SubscriptionStatus::Active
                }
                &&& final(self)@.balances.contains_key(earned)
                &&& final(self)@.balances[earned] == amount + if old(self)@.balances.contains_key(
                    earned,
                ) {
                    old(self)@.balances[earned] as int
                } else {
                    0
                }
                &&& final(self)@.balances == old(self)@.balances.insert(
                    earned,
                    final(self)@.balances[earned],
                )
            },
            final(self)@.wf(),
    {
        if !self.has_signed(merchant) {
            return Err(Failure::Abort);
        }
        let before = match self.find(id) {
            Some(subscription) => subscription,
            None => return Err(Failure::Contract(Error::NotFound)),
        };
        if merchant != before.merchant {
            return Err(Failure::Contract(Error::Unauthorized));
        }
        if amount <= 0 {
            return Err(Failure::Contract(Error::InvalidAmount));
        }
        if before.status != SubscriptionStatus::Active {
            return Err(Failure::Contract(Error::NotActive));
        }
        if before.prepaid_balance < amount {
            return Err(Failure::Contract(Error::InsufficientBalance));
        }
        let (_, exceeded) = SubscriptionVault::cap_use(&before, amount);
        if exceeded {
            return Err(Failure::Contract(Error::LifetimeCapReached));
        }
        if before.lifetime_charged.checked_add(amount).is_none()
            || self.statement_book().next_sequence(id) == u32::MAX || self.earnings(
            merchant,
            before.token,
        ).checked_add(amount).is_none() {
            return Err(Failure::Contract(Error::Overflow));
        }
        let timestamp: u64 = self.now();
        let after = self.debit(id, before, amount, before.last_payment_timestamp);
        self.credit(merchant, before.token, amount);
        self.state_charge(
            id,
            amount,
            merchant,
            BillingChargeKind::OneOff,
            timestamp,
            timestamp,
        );
        self.publish(
            Event::OneOffCharged {
                subscription_id: id,
                subscriber: before.subscriber,
                merchant,
                token: before.token,
                amount,
                remaining_balance: after.prepaid_balance,
                timestamp,
            },
        );
        self.announce_cap(id, before, amount);
        Ok(())
    }
}

} // verus!
