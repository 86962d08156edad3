//! The events that the vault publishes.
use crate::address::Address;
use crate::status::SubscriptionStatus;
use crate::types::RecoveryReason;
use vstd::prelude::*;

verus! {

/// One published event.
#[derive(Debug, PartialEq, Eq)]
pub enum Event {
    /// A subscription was created.
    SubscriptionCreated {
        subscription_id: u32,
        subscriber: Address,
        merchant: Address,
        token: Address,
        amount: i128,
        interval_seconds: u64,
        lifetime_cap: Option<i128>,
        expires_at: Option<u64>,
        timestamp: u64,
    },
    /// Funds were added to the balance of a subscription.
    FundsDeposited {
        subscription_id: u32,
        subscriber: Address,
        token: Address,
        amount: i128,
        new_balance: i128,
        timestamp: u64,
    },
    /// A subscription was charged for one interval.
    SubscriptionCharged {
        subscription_id: u32,
        subscriber: Address,
        merchant: Address,
        token: Address,
        amount: i128,
        lifetime_charged: i128,
        remaining_balance: i128,
        timestamp: u64,
    },
    /// A charge failed for lack of balance.
    SubscriptionChargeFailed {
        subscription_id: u32,
        merchant: Address,
        required_amount: i128,
        available_balance: i128,
        shortfall: i128,
        resulting_status: SubscriptionStatus,
        timestamp: u64,
    },
    /// A subscription was paused.
    SubscriptionPaused {
        subscription_id: u32,
        subscriber: Address,
        merchant: Address,
        authorizer: Address,
        timestamp: u64,
    },
    /// A subscription was resumed.
    SubscriptionResumed {
        subscription_id: u32,
        subscriber: Address,
        merchant: Address,
        authorizer: Address,
        timestamp: u64,
    },
    /// A subscription was cancelled by one of its parties.
    SubscriptionCancelled {
        subscription_id: u32,
        subscriber: Address,
        merchant: Address,
        token: Address,
        authorizer: Address,
        refund_amount: i128,
        timestamp: u64,
    },
    /// A subscription was found past its expiration time.
    SubscriptionExpired {
        subscription_id: u32,
        timestamp: u64,
    },
    /// A deposit covers the next charge of an underfunded subscription again.
    SubscriptionRecoveryReady {
        subscription_id: u32,
        subscriber: Address,
        prepaid_balance: i128,
        required_amount: i128,
        timestamp: u64,
    },
    /// A merchant withdrew earnings.
    MerchantWithdrawal {
        merchant: Address,
        token: Address,
        amount: i128,
        remaining_balance: i128,
        timestamp: u64,
    },
    /// A subscriber withdrew the balance of a cancelled subscription.
    SubscriberWithdrawal {
        subscription_id: u32,
        subscriber: Address,
        token: Address,
        amount: i128,
        timestamp: u64,
    },
    /// The admin paid part of a balance back to the subscriber.
    PartialRefund {
        subscription_id: u32,
        subscriber: Address,
        token: Address,
        amount: i128,
        timestamp: u64,
    },
    /// A merchant paid earnings back to a subscriber.
    MerchantRefund {
        merchant: Address,
        subscriber: Address,
        token: Address,
        amount: i128,
        timestamp: u64,
    },
    /// A merchant charged a subscription outside its interval.
    OneOffCharged {
        subscription_id: u32,
        subscriber: Address,
        merchant: Address,
        token: Address,
        amount: i128,
        remaining_balance: i128,
        timestamp: u64,
    },
    /// The admin handed over.
    AdminRotated {
        old_admin: Address,
        new_admin: Address,
        timestamp: u64,
    },
    /// The admin paid out stranded funds.
    Recovery {
        admin: Address,
        recipient: Address,
        token: Address,
        amount: i128,
        reason: RecoveryReason,
        timestamp: u64,
    },
    /// The emergency stop was switched on.
    EmergencyStopEnabled {
        admin: Address,
        timestamp: u64,
    },
    /// The emergency stop was switched off.
    EmergencyStopDisabled {
        admin: Address,
        timestamp: u64,
    },
    /// A merchant offered a plan.
    PlanTemplateCreated {
        plan_template_id: u32,
        merchant: Address,
        token: Address,
        amount: i128,
        interval_seconds: u64,
        usage_enabled: bool,
        lifetime_cap: Option<i128>,
        timestamp: u64,
    },
    /// A merchant switched the blanket pause on.
    MerchantPaused {
        merchant: Address,
        timestamp: u64,
    },
    /// A merchant switched the blanket pause off.
    MerchantUnpaused {
        merchant: Address,
        timestamp: u64,
    },
    /// A share of an interval charge went to the treasury.
    ProtocolFeeCharged {
        subscription_id: u32,
        treasury: Address,
        fee_amount: i128,
        merchant_amount: i128,
        timestamp: u64,
    },
    /// The protocol fee was set.
    ProtocolFeeConfigured {
        admin: Address,
        treasury: Address,
        fee_bps: u32,
        timestamp: u64,
    },
    /// A charge used up the lifetime cap and ended the subscription.
    LifetimeCapReached {
        subscription_id: u32,
        lifetime_cap: i128,
        lifetime_charged: i128,
        timestamp: u64,
    },
    /// Something was noted down on a subscription.
    MetadataSet {
        subscription_id: u32,
        key: String,
        authorizer: Address,
    },
    /// What was noted down on a subscription was deleted.
    MetadataDeleted {
        subscription_id: u32,
        key: String,
        authorizer: Address,
    },
    /// A subscriber was put on the blocklist.
    BlocklistAdded {
        subscriber: Address,
        added_by: Address,
    },
    /// A subscriber was taken off the blocklist.
    BlocklistRemoved {
        subscriber: Address,
        removed_by: Address,
    },
}

impl Event {
    /// The topic under which an event is published.
    pub open spec fn topic_text(self) -> Seq<char> {
        match self {
            Event::SubscriptionCreated { .. } => "created"@,
            Event::FundsDeposited { .. } => "deposited"@,
            Event::SubscriptionCharged { .. } => "charged"@,
            Event::SubscriptionChargeFailed { .. } => "charge_failed"@,
            Event::SubscriptionPaused { .. } => "sub_paused"@,
            Event::SubscriptionResumed { .. } => "sub_resumed"@,
            Event::SubscriptionCancelled { .. } => "subscription_cancelled"@,
            Event::SubscriptionExpired { .. } => "subscription_expired"@,
            Event::SubscriptionRecoveryReady { .. } => "recovery_ready"@,
            Event::MerchantWithdrawal { .. } => "withdrawn"@,
            Event::SubscriberWithdrawal { .. } => "sub_withdrawn"@,
            Event::PartialRefund { .. } => "partial_refund"@,
            Event::MerchantRefund { .. } => "merchant_refund"@,
            Event::OneOffCharged { .. } => "oneoff_ch"@,
            Event::AdminRotated { .. } => "admin_rotated"@,
            Event::Recovery { .. } => "recovery"@,
            Event::EmergencyStopEnabled { .. } => "emergency_stop_enabled"@,
            Event::EmergencyStopDisabled { .. } => "emergency_stop_disabled"@,
            Event::PlanTemplateCreated { .. } => "plan_created"@,
            Event::MerchantPaused { .. } => "merchant_paused"@,
            Event::MerchantUnpaused { .. } => "merchant_unpaused"@,
            Event::ProtocolFeeCharged { .. } => "protocol_fee_charged"@,
            Event::ProtocolFeeConfigured { .. } => "protocol_fee_configured"@,
            Event::LifetimeCapReached { .. } => "lifetime_cap_reached"@,
            Event::MetadataSet { .. } => "metadata_set"@,
            Event::MetadataDeleted { .. } => "metadata_deleted"@,
            Event::BlocklistAdded { .. } => "blocklist_added"@,
            Event::BlocklistRemoved { .. } => "blocklist_removed"@,
        }
    }

    /// The topic under which this event is published.
    pub fn topic(&self) -> (topic: &'static str)
        ensures
            topic@ == self.topic_text(),
    {
        match self {
            Event::SubscriptionCreated { .. } => "created",
            Event::FundsDeposited { .. } => "deposited",
            Event::SubscriptionCharged { .. } => "charged",
            Event::SubscriptionChargeFailed { .. } => "charge_failed",
            Event::SubscriptionPaused { .. } => "sub_paused",
            Event::SubscriptionResumed { .. } => "sub_resumed",
            Event::SubscriptionCancelled { .. } => "subscription_cancelled",
            Event::SubscriptionExpired { .. } => "subscription_expired",
            Event::SubscriptionRecoveryReady { .. } => "recovery_ready",
            Event::MerchantWithdrawal { .. } => "withdrawn",
            Event::SubscriberWithdrawal { .. } => "sub_withdrawn",
            Event::PartialRefund { .. } => "partial_refund",
            Event::MerchantRefund { .. } => "merchant_refund",
            Event::OneOffCharged { .. } => "oneoff_ch",
            Event::AdminRotated { .. } => "admin_rotated",
            Event::Recovery { .. } => "recovery",
            Event::EmergencyStopEnabled { .. } => "emergency_stop_enabled",
            Event::EmergencyStopDisabled { .. } => "emergency_stop_disabled",
            Event::PlanTemplateCreated { .. } => "plan_created",
            Event::MerchantPaused { .. } => "merchant_paused",
            Event::MerchantUnpaused { .. } => "merchant_unpaused",
            Event::ProtocolFeeCharged { .. } => "protocol_fee_charged",
            Event::ProtocolFeeConfigured { .. } => "protocol_fee_configured",
            Event::LifetimeCapReached { .. } => "lifetime_cap_reached",
            Event::MetadataSet { .. } => "metadata_set",
            Event::MetadataDeleted { .. } => "metadata_deleted",
            Event::BlocklistAdded { .. } => "blocklist_added",
            Event::BlocklistRemoved { .. } => "blocklist_removed",
        }
    }
}

/// Both events tell of the same kind of thing.
pub open spec fn same_kind(one: Event, other: Event) -> bool {
    match (one, other) {
        (Event::SubscriptionCreated { .. }, Event::SubscriptionCreated { .. }) => true,
        (Event::FundsDeposited { .. }, Event::FundsDeposited { .. }) => true,
        (Event::SubscriptionCharged { .. }, Event::SubscriptionCharged { .. }) => true,
        (Event::SubscriptionChargeFailed { .. }, Event::SubscriptionChargeFailed { .. }) => true,
        (Event::SubscriptionPaused { .. }, Event::SubscriptionPaused { .. }) => true,
        (Event::SubscriptionResumed { .. }, Event::SubscriptionResumed { .. }) => true,
        (Event::SubscriptionCancelled { .. }, Event::SubscriptionCancelled { .. }) => true,
        (Event::SubscriptionExpired { .. }, Event::SubscriptionExpired { .. }) => true,
        (Event::SubscriptionRecoveryReady { .. }, Event::SubscriptionRecoveryReady { .. }) => true,
        (Event::MerchantWithdrawal { .. }, Event::MerchantWithdrawal { .. }) => true,
        (Event::SubscriberWithdrawal { .. }, Event::SubscriberWithdrawal { .. }) => true,
        (Event::PartialRefund { .. }, Event::PartialRefund { .. }) => true,
        (Event::MerchantRefund { .. }, Event::MerchantRefund { .. }) => true,
        (Event::OneOffCharged { .. }, Event::OneOffCharged { .. }) => true,
        (Event::AdminRotated { .. }, Event::AdminRotated { .. }) => true,
        (Event::Recovery { .. }, Event::Recovery { .. }) => true,
        (Event::EmergencyStopEnabled { .. }, Event::EmergencyStopEnabled { .. }) => true,
        (Event::EmergencyStopDisabled { .. }, Event::EmergencyStopDisabled { .. }) => true,
        (Event::PlanTemplateCreated { .. }, Event::PlanTemplateCreated { .. }) => true,
        (Event::MerchantPaused { .. }, Event::MerchantPaused { .. }) => true,
        (Event::MerchantUnpaused { .. }, Event::MerchantUnpaused { .. }) => true,
        (Event::ProtocolFeeCharged { .. }, Event::ProtocolFeeCharged { .. }) => true,
        (Event::ProtocolFeeConfigured { .. }, Event::ProtocolFeeConfigured { .. }) => true,
        (Event::LifetimeCapReached { .. }, Event::LifetimeCapReached { .. }) => true,
        (Event::MetadataSet { .. }, Event::MetadataSet { .. }) => true,
        (Event::MetadataDeleted { .. }, Event::MetadataDeleted { .. }) => true,
        (Event::BlocklistAdded { .. }, Event::BlocklistAdded { .. }) => true,
        (Event::BlocklistRemoved { .. }, Event::BlocklistRemoved { .. }) => true,
        _ => false,
    }
}

/// A topic tells what kind of event is published under it.
pub proof fn law_topics_identify_the_kind_of_event(one: Event, other: Event)
    ensures
        one.topic_text() == other.topic_text() <==> same_kind(one, other),
{
    reveal_strlit("created");
    reveal_strlit("deposited");
    reveal_strlit("charged");
    reveal_strlit("charge_failed");
    reveal_strlit("sub_paused");
    reveal_strlit("sub_resumed");
    reveal_strlit("subscription_cancelled");
    reveal_strlit("subscription_expired");
    reveal_strlit("recovery_ready");
    reveal_strlit("withdrawn");
    reveal_strlit("sub_withdrawn");
    reveal_strlit("partial_refund");
    reveal_strlit("merchant_refund");
    reveal_strlit("oneoff_ch");
    reveal_strlit("admin_rotated");
    reveal_strlit("recovery");
    reveal_strlit("emergency_stop_enabled");
    reveal_strlit("emergency_stop_disabled");
    reveal_strlit("plan_created");
    reveal_strlit("merchant_paused");
    reveal_strlit("merchant_unpaused");
    reveal_strlit("protocol_fee_charged");
    reveal_strlit("protocol_fee_configured");
    reveal_strlit("lifetime_cap_reached");
    reveal_strlit("metadata_set");
    reveal_strlit("metadata_deleted");
    reveal_strlit("blocklist_added");
    reveal_strlit("blocklist_removed");
    // The length and two letters tell the topics apart.
    let a = one.topic_text();
    let b = other.topic_text();
    if a == b {
        assert(a.len() == b.len() && a[1] == b[1] && a[9] == b[9]);
        assert(same_kind(one, other));
    }
}

} // verus!
