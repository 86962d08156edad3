//! The records that the vault keeps and hands out.
use crate::address::Address;
use crate::status::SubscriptionStatus;
use vstd::prelude::*;

verus! {

/// The largest page that a subscription query returns.
pub const MAX_SUBSCRIPTION_LIST_PAGE: u32 = 100;

/// The most identifiers that one subscriber query looks at.
pub const MAX_SCAN_DEPTH: u32 = 1_000;

/// The most identifiers that a request which changes the vault may have to look at.
pub const MAX_WRITE_PATH_SCAN_DEPTH: u32 = 5_000;

/// The identifier that is never given to a subscription.
pub const MAX_SUBSCRIPTION_ID: u32 = u32::MAX;

/// The version of the layout in which the vault keeps its records.
pub const STORAGE_VERSION: u32 = 2;

/// A whole, in basis points.
pub const BASIS_POINTS: u32 = 10_000;

/// A standing agreement between a subscriber and a merchant.
#[derive(Debug, Clone, Copy, PartialEq, Eq)]
pub struct Subscription {
    pub subscriber: Address,
    pub merchant: Address,
    /// The token in which all charges are settled.
    pub token: Address,
    /// What one interval costs.
    pub amount: i128,
    pub interval_seconds: u64,
    pub last_payment_timestamp: u64,
    pub status: SubscriptionStatus,
    /// What the subscriber has deposited and not yet spent.
    pub prepaid_balance: i128,
    pub usage_enabled: bool,
    /// The most that may ever be charged.
    pub lifetime_cap: Option<i128>,
    /// What has been charged so far.
    pub lifetime_charged: i128,
    pub start_time: u64,
    pub expires_at: Option<u64>,
    /// When the current grace period began.
    pub grace_start_timestamp: Option<u64>,
}

/// The terms that a merchant offers to subscribers.
#[derive(Debug, Clone, Copy, PartialEq, Eq)]
pub struct PlanTemplate {
    pub merchant: Address,
    pub token: Address,
    pub amount: i128,
    pub interval_seconds: u64,
    pub usage_enabled: bool,
    pub lifetime_cap: Option<i128>,
}

/// What a billing statement was issued for.
#[derive(Debug, Clone, Copy, PartialEq, Eq, Structural)]
pub enum BillingChargeKind {
    Interval,
    OneOff,
}

/// The record of one charge.
#[derive(Debug, Clone, Copy, PartialEq, Eq)]
pub struct BillingStatement {
    pub subscription_id: u32,
    /// The place of this statement among all statements of its subscription.
    pub sequence: u32,
    pub amount: i128,
    pub merchant: Address,
    pub kind: BillingChargeKind,
    pub period_start: u64,
    pub period_end: u64,
}

/// One page of the statements of a subscription.
#[derive(Debug)]
pub struct BillingStatementsPage {
    pub statements: Vec<BillingStatement>,
    /// The sequence number at which the next page starts.
    pub next_cursor: Option<u32>,
    /// How many statements the subscription has in all.
    pub total: u32,
}

/// One page of the subscriptions of a subscriber.
#[derive(Debug)]
pub struct SubscriptionsPage {
    pub subscription_ids: Vec<u32>,
    /// The identifier at which the next page starts.
    pub next_start_id: Option<u32>,
}

/// What came of an attempt to charge a subscription.
#[derive(Debug, Clone, Copy, PartialEq, Eq, Structural)]
pub enum ChargeExecutionResult {
    Charged,
    /// The balance did not cover the amount, and the status says so now.
    InsufficientBalance,
    /// The subscription was past its expiration time, and the status says so now.
    Expired,
}

/// What came of one charge of a batch.
#[derive(Debug, Clone, Copy, PartialEq, Eq, Structural)]
pub struct BatchChargeResult {
    pub success: bool,
    /// Zero on success, the code of the error otherwise.
    pub error_code: u32,
}

/// Why funds that belong to no balance are paid out.
#[derive(Debug, Clone, Copy, PartialEq, Eq, Structural)]
pub enum RecoveryReason {
    UserOverpayment,
    FailedTransfer,
    ExpiredEscrow,
    SystemCorrection,
}

/// The share of every interval charge that goes to the treasury.
#[derive(Debug, Clone, Copy, PartialEq, Eq)]
pub struct ProtocolFee {
    pub treasury: Address,
    pub fee_bps: u32,
}

/// Where prices come from, and how old they may be.
#[derive(Debug, Clone, Copy, PartialEq, Eq)]
pub struct OracleConfig {
    pub enabled: bool,
    pub oracle: Option<Address>,
    pub max_age_seconds: u64,
}

/// A price and the time at which it held.
#[derive(Debug, Clone, Copy, PartialEq, Eq, Structural)]
pub struct OraclePrice {
    pub price: i128,
    pub timestamp: u64,
}

/// How often and how much a subscription may be charged for usage.
#[derive(Debug, Clone, Copy, PartialEq, Eq)]
pub struct UsageLimits {
    pub rate_limit_max_calls: Option<u32>,
    pub rate_window_seconds: u64,
    pub burst_min_interval_seconds: u64,
    pub usage_cap: Option<i128>,
}

/// The settings of the vault.
#[derive(Debug, Clone, Copy, PartialEq, Eq)]
pub struct Config {
    pub admin: Address,
    /// The token in which subscriptions are settled.
    pub token: Address,
    pub token_decimals: u32,
    /// The smallest deposit that is accepted.
    pub min_topup: i128,
    /// How long after its due time a failed charge leaves a subscription in its grace period.
    pub grace_period: u64,
    pub protocol_fee: Option<ProtocolFee>,
    pub emergency_stop: bool,
    pub oracle: OracleConfig,
    /// How many statements of a subscription a compaction keeps.
    pub billing_retention: u32,
}

/// The settings of the vault as they are exported.
#[derive(Debug, Clone, Copy, PartialEq, Eq)]
pub struct ContractSnapshot {
    pub admin: Address,
    pub token: Address,
    pub min_topup: i128,
    pub next_id: u32,
    pub storage_version: u32,
    pub timestamp: u64,
}

/// A subscription as it is exported.
#[derive(Debug, Clone, Copy, PartialEq, Eq)]
pub struct SubscriptionSummary {
    pub subscription_id: u32,
    pub subscription: Subscription,
}

/// What a compaction did to the statements of a subscription.
#[derive(Debug, Clone, Copy, PartialEq, Eq, Structural)]
pub struct CompactionSummary {
    pub pruned: u32,
    pub kept: u32,
}

} // verus!
