//! What the vault remembers, and the elementary ways to read and change it.
use crate::address::Address;
use crate::error::{Failure, Reply, Signers};
use crate::events::Event;
use crate::metadata::MetadataBook;
use crate::statements::{all_numbered, History, StatementBook};
use crate::store::{listed, AccountMap, AmountBook, IdIndex};
use crate::types::{
    Config, OracleConfig, PlanTemplate, Subscription, UsageLimits, BASIS_POINTS,
};
use std::collections::HashMap;
use vstd::prelude::*;

verus! {

broadcast use vstd::std_specs::hash::group_hash_axioms;

/// Everything that a call to the vault can depend on or change.
#[verifier::ext_equal]
pub struct VaultState {
    /// The time of the call.
    pub timestamp: u64,
    /// The signatures that accompany the call.
    pub signers: Signers,
    pub config: Config,
    /// The identifier of the next subscription.
    pub next_id: u32,
    pub subscriptions: Map<u32, Subscription>,
    pub plans: Seq<PlanTemplate>,
    /// The subscriptions of each merchant, oldest first.
    pub merchant_index: Map<Address, Seq<u32>>,
    /// The subscriptions settled in each token, oldest first.
    pub token_index: Map<Address, Seq<u32>>,
    /// What has been earned and not yet withdrawn, by account and token.
    pub balances: Map<(Address, Address), i128>,
    /// The most that a subscriber may commit to, by subscriber and token.
    pub credit_limits: Map<(Address, Address), i128>,
    /// The decimals of each accepted token.
    pub accepted_tokens: Map<Address, u32>,
    /// The blocked subscribers, each with the reason that was given, if any.
    pub blocklist: Map<Address, Option<Seq<char>>>,
    pub paused_merchants: Set<Address>,
    pub usage_limits: Map<u32, UsageLimits>,
    /// The recoveries that have been carried out.
    pub recovery_ids: Seq<Seq<char>>,
    pub statements: Map<u32, History>,
    /// What is noted down on subscriptions, by subscription and key.
    pub metadata: Map<(u32, Seq<char>), Seq<char>>,
    /// The published events, oldest first.
    pub events: Seq<Event>,
}

impl VaultState {
    pub open spec fn signed(self, account: Address) -> bool {
        self.signers.covers(account)
    }

    /// The state after `event` has been published.
    pub open spec fn published(self, event: Event) -> VaultState {
        VaultState { events: self.events.push(event), ..self }
    }

    /// The state with `subscription` stored under `id`.
    pub open spec fn with_subscription(self, id: u32, subscription: Subscription) -> VaultState {
        VaultState { subscriptions: self.subscriptions.insert(id, subscription), ..self }
    }

    pub open spec fn with_config(self, config: Config) -> VaultState {
        VaultState { config, ..self }
    }

    /// What `account` has earned in `token`.
    pub open spec fn earned(self, account: Address, token: Address) -> int {
        if self.balances.contains_key((account, token)) {
            self.balances[(account, token)] as int
        } else {
            0
        }
    }

    pub open spec fn with_balance(self, account: Address, token: Address, amount: i128) -> VaultState {
        VaultState { balances: self.balances.insert((account, token), amount), ..self }
    }

    /// Every list of an index is short enough to be counted, and names stored subscriptions only.
    pub open spec fn index_is_sound(self, index: Map<Address, Seq<u32>>) -> bool {
        &&& forall|owner: Address| #[trigger] listed(index, owner).len() <= u32::MAX
        &&& forall|owner: Address, i: int|
            0 <= i < listed(index, owner).len() ==> self.subscriptions.contains_key(
                #[trigger] listed(index, owner)[i],
            )
    }

    /// What every operation keeps.
    pub open spec fn wf(self) -> bool {
        &&& self.index_is_sound(self.merchant_index)
        &&& self.index_is_sound(self.token_index)
        &&& all_numbered(self.statements)
        &&& forall|id: u32| #[trigger]
            self.subscriptions.contains_key(id) ==> sound(self.subscriptions[id])
        &&& self.config.protocol_fee matches Some(fee) ==> fee.fee_bps <= BASIS_POINTS
    }
}

/// A subscription has a price, and its charges stay within its lifetime cap.
pub open spec fn sound(subscription: Subscription) -> bool {
    &&& subscription.amount > 0
    &&& 0 <= subscription.lifetime_charged
    &&& subscription.lifetime_cap matches Some(cap) ==> subscription.lifetime_charged <= cap
}

/// What a reason says.
pub open spec fn reason_text(reason: Option<String>) -> Option<Seq<char>> {
    match reason {
        Some(text) => Some(text@),
        None => None,
    }
}

/// The usual shape of a call: it is refused and nothing changes, or it comes back with `value` and
/// has the stated effect.
pub open spec fn settles<T>(
    before: VaultState,
    after: VaultState,
    reply: Reply<T>,
    refusal: Option<Failure>,
    value: T,
    effect: VaultState,
) -> bool {
    match refusal {
        Some(failure) => reply == Err::<T, Failure>(failure) && after == before,
        None => reply == Ok::<T, Failure>(value) && after == effect,
    }
}

/// A vault of prepaid subscriptions.
pub struct SubscriptionVault {
    timestamp: u64,
    signers: Signers,
    config: Config,
    next_id: u32,
    subscriptions: HashMap<u32, Subscription>,
    plans: Vec<PlanTemplate>,
    merchant_index: IdIndex,
    token_index: IdIndex,
    balances: AmountBook,
    credit_limits: AmountBook,
    accepted_tokens: AccountMap<u32>,
    blocklist: AccountMap<Option<String>>,
    paused_merchants: AccountMap<()>,
    usage_limits: HashMap<u32, UsageLimits>,
    recovery_ids: Vec<String>,
    statements: StatementBook,
    metadata: MetadataBook,
    events: Vec<Event>,
}

impl View for SubscriptionVault {
    type V = VaultState;

    closed spec fn view(&self) -> VaultState {
        VaultState {
            timestamp: self.timestamp,
            signers: self.signers,
            config: self.config,
            next_id: self.next_id,
            subscriptions: self.subscriptions@,
            plans: self.plans@,
            merchant_index: self.merchant_index@,
            token_index: self.token_index@,
            balances: self.balances@,
            credit_limits: self.credit_limits@,
            accepted_tokens: self.accepted_tokens@,
            blocklist: self.blocklist@.map_values(|reason: Option<String>| reason_text(reason)),
            paused_merchants: self.paused_merchants@.dom(),
            usage_limits: self.usage_limits@,
            recovery_ids: self.recovery_ids@.map_values(|id: String| id@),
            statements: self.statements@,
            metadata: self.metadata@,
            events: self.events@,
        }
    }
}

/// The state of a vault that has just been set up.
pub open spec fn initial_state(
    token: Address,
    token_decimals: u32,
    admin: Address,
    min_topup: i128,
    grace_period: u64,
) -> VaultState {
    VaultState {
        timestamp: 0,
        signers: Signers::Everyone,
        config: Config {
            admin,
            token,
            token_decimals,
            min_topup,
            grace_period,
            protocol_fee: None,
            emergency_stop: false,
            oracle: OracleConfig { enabled: false, oracle: None, max_age_seconds: 0 },
            billing_retention: u32::MAX,
        },
        next_id: 0,
        subscriptions: Map::empty(),
        plans: Seq::empty(),
        merchant_index: Map::empty(),
        token_index: Map::empty(),
        balances: Map::empty(),
        credit_limits: Map::empty(),
        accepted_tokens: Map::empty().insert(token, token_decimals),
        blocklist: Map::empty(),
        paused_merchants: Set::empty(),
        usage_limits: Map::empty(),
        recovery_ids: Seq::empty(),
        statements: Map::empty(),
        metadata: Map::empty(),
        events: Seq::empty(),
    }
}

impl SubscriptionVault {
    /// Sets up an empty vault. Its clock stands at zero, and every call counts as signed until
    /// [`set_signers`](SubscriptionVault::set_signers) says otherwise.
    pub fn init(
        token: Address,
        token_decimals: u32,
        admin: Address,
        min_topup: i128,
        grace_period: u64,
    ) -> (vault: SubscriptionVault)
        ensures
            vault@ == initial_state(token, token_decimals, admin, min_topup, grace_period),
            vault@.wf(),
    {
        let mut accepted_tokens = AccountMap::new();
        accepted_tokens.insert(token, token_decimals);
        let vault = SubscriptionVault {
            timestamp: 0,
            signers: Signers::Everyone,
            config: Config {
                admin,
                token,
                token_decimals,
                min_topup,
                grace_period,
                protocol_fee: None,
                emergency_stop: false,
                oracle: OracleConfig { enabled: false, oracle: None, max_age_seconds: 0 },
                billing_retention: u32::MAX,
            },
            next_id: 0,
            subscriptions: HashMap::new(),
            plans: Vec::new(),
            merchant_index: IdIndex::new(),
            token_index: IdIndex::new(),
            balances: AmountBook::new(),
            credit_limits: AmountBook::new(),
            accepted_tokens,
            blocklist: AccountMap::new(),
            paused_merchants: AccountMap::new(),
            usage_limits: HashMap::new(),
            recovery_ids: Vec::new(),
            statements: StatementBook::new(),
            metadata: MetadataBook::new(),
            events: Vec::new(),
        };
        assert(vault@ =~= initial_state(token, token_decimals, admin, min_topup, grace_period));
        vault
    }

    /// Sets the time of the calls that follow.
    pub fn set_timestamp(&mut self, timestamp: u64)
        ensures
            final(self)@ == (VaultState { timestamp, ..old(self)@ }),
    {
        self.timestamp = timestamp;
    }

    /// Sets the signatures that accompany the calls that follow.
    pub fn set_signers(&mut self, signers: Signers)
        ensures
            final(self)@ == (VaultState { signers, ..old(self)@ }),
    {
        self.signers = signers;
    }

    /// The published events, oldest first.
    pub fn events(&self) -> (events: &Vec<Event>)
        ensures
            events@ == self@.events,
    {
        &self.events
    }

    /// The current time.
    pub fn now(&self) -> (timestamp: u64)
        ensures
            timestamp == self@.timestamp,
    {
        self.timestamp
    }

    /// The current settings.
    pub fn config(&self) -> (config: Config)
        ensures
            config == self@.config,
    {
        self.config
    }

    /// The identifier that the next subscription gets.
    pub fn next_id(&self) -> (id: u32)
        ensures
            id == self@.next_id,
    {
        self.next_id
    }

    pub(crate) fn has_signed(&self, account: Address) -> (signed: bool)
        ensures
            signed == self@.signed(account),
    {
        self.signers.has_signed(account)
    }

    pub(crate) fn set_config(&mut self, config: Config)
        ensures
            final(self)@ == old(self)@.with_config(config),
    {
        self.config = config;
    }

    pub(crate) fn set_next_id(&mut self, next_id: u32)
        ensures
            final(self)@ == (VaultState { next_id, ..old(self)@ }),
    {
        self.next_id = next_id;
    }

    pub(crate) fn publish(&mut self, event: Event)
        ensures
            final(self)@ == old(self)@.published(event),
    {
        self.events.push(event);
    }

    pub(crate) fn find(&self, id: u32) -> (subscription: Option<Subscription>)
        ensures
            subscription == (if self@.subscriptions.contains_key(id) {
                Some(self@.subscriptions[id])
            } else {
                None
            }),
    {
        match self.subscriptions.get(&id) {
            Some(subscription) => Some(*subscription),
            None => None,
        }
    }

    pub(crate) fn store(&mut self, id: u32, subscription: Subscription)
        ensures
            final(self)@ == old(self)@.with_subscription(id, subscription),
    {
        self.subscriptions.insert(id, subscription);
    }

    pub(crate) fn plan_count(&self) -> (count: usize)
        ensures
            count == self@.plans.len(),
    {
        self.plans.len()
    }

    pub(crate) fn plan(&self, plan_id: usize) -> (plan: PlanTemplate)
        requires
            plan_id < self@.plans.len(),
        ensures
            plan == self@.plans[plan_id as int],
    {
        self.plans[plan_id]
    }

    pub(crate) fn add_plan(&mut self, plan: PlanTemplate)
        ensures
            final(self)@ == (VaultState { plans: old(self)@.plans.push(plan), ..old(self)@ }),
    {
        self.plans.push(plan);
    }

    /// Lists a subscription under its merchant and its token.
    pub(crate) fn list_subscription(&mut self, merchant: Address, token: Address, id: u32)
        ensures
            final(self)@ == (VaultState {
                merchant_index: old(self)@.merchant_index.insert(
                    merchant,
                    listed(old(self)@.merchant_index, merchant).push(id),
                ),
                token_index: old(self)@.token_index.insert(
                    token,
                    listed(old(self)@.token_index, token).push(id),
                ),
                ..old(self)@
            }),
    {
        self.merchant_index.add_id(merchant, id);
        self.token_index.add_id(token, id);
    }

    pub(crate) fn merchant_index(&self) -> (index: &IdIndex)
        ensures
            index@ == self@.merchant_index,
    {
        &self.merchant_index
    }

    pub(crate) fn token_index(&self) -> (index: &IdIndex)
        ensures
            index@ == self@.token_index,
    {
        &self.token_index
    }

    pub(crate) fn merchant_list_len(&self, merchant: Address) -> (len: usize)
        ensures
            len == listed(self@.merchant_index, merchant).len(),
    {
        self.merchant_index.count(merchant)
    }

    pub(crate) fn merchant_list_at(&self, merchant: Address, position: usize) -> (id: u32)
        requires
            position < listed(self@.merchant_index, merchant).len(),
        ensures
            id == listed(self@.merchant_index, merchant)[position as int],
    {
        self.merchant_index.id_at(merchant, position)
    }

    pub(crate) fn token_list_len(&self, token: Address) -> (len: usize)
        ensures
            len == listed(self@.token_index, token).len(),
    {
        self.token_index.count(token)
    }

    pub(crate) fn balance(&self, account: Address, token: Address) -> (amount: Option<i128>)
        ensures
            amount == (if self@.balances.contains_key((account, token)) {
                Some(self@.balances[(account, token)])
            } else {
                None
            }),
    {
        self.balances.get(account, token)
    }

    pub(crate) fn set_balance(&mut self, account: Address, token: Address, amount: i128)
        ensures
            final(self)@ == old(self)@.with_balance(account, token, amount),
    {
        self.balances.set(account, token, amount);
    }

    pub(crate) fn credit_limit(&self, subscriber: Address, token: Address) -> (limit: Option<i128>)
        ensures
            limit == (if self@.credit_limits.contains_key((subscriber, token)) {
                Some(self@.credit_limits[(subscriber, token)])
            } else {
                None
            }),
    {
        self.credit_limits.get(subscriber, token)
    }

    pub(crate) fn set_credit_limit(&mut self, subscriber: Address, token: Address, limit: i128)
        ensures
            final(self)@ == (VaultState {
                credit_limits: old(self)@.credit_limits.insert((subscriber, token), limit),
                ..old(self)@
            }),
    {
        self.credit_limits.set(subscriber, token, limit);
    }

    pub(crate) fn accepts_token(&self, token: Address) -> (accepted: bool)
        ensures
            accepted == self@.accepted_tokens.contains_key(token),
    {
        self.accepted_tokens.contains(token)
    }

    pub(crate) fn accept_token(&mut self, token: Address, decimals: u32)
        ensures
            final(self)@ == (VaultState {
                accepted_tokens: old(self)@.accepted_tokens.insert(token, decimals),
                ..old(self)@
            }),
    {
        self.accepted_tokens.insert(token, decimals);
    }

    pub(crate) fn reject_token(&mut self, token: Address)
        ensures
            final(self)@ == (VaultState {
                accepted_tokens: old(self)@.accepted_tokens.remove(token),
                ..old(self)@
            }),
    {
        self.accepted_tokens.remove(token);
    }

    pub(crate) fn is_blocked(&self, subscriber: Address) -> (blocked: bool)
        ensures
            blocked == self@.blocklist.contains_key(subscriber),
    {
        self.blocklist.contains(subscriber)
    }

    pub(crate) fn block(&mut self, subscriber: Address, reason: Option<String>)
        ensures
            final(self)@ == (VaultState {
                blocklist: old(self)@.blocklist.insert(subscriber, reason_text(reason)),
                ..old(self)@
            }),
    {
        self.blocklist.insert(subscriber, reason);
        assert(self@ =~= (VaultState {
            blocklist: old(self)@.blocklist.insert(subscriber, reason_text(reason)),
            ..old(self)@
        }));
    }

    pub(crate) fn blocking_reason(&self, subscriber: Address) -> (reason: Option<&Option<String>>)
        ensures
            reason is Some == self@.blocklist.contains_key(subscriber),
            reason matches Some(given) ==> reason_text(*given) == self@.blocklist[subscriber],
    {
        self.blocklist.get(subscriber)
    }

    pub(crate) fn unblock(&mut self, subscriber: Address)
        ensures
            final(self)@ == (VaultState {
                blocklist: old(self)@.blocklist.remove(subscriber),
                ..old(self)@
            }),
    {
        self.blocklist.remove(subscriber);
        assert(self@ =~= (VaultState {
            blocklist: old(self)@.blocklist.remove(subscriber),
            ..old(self)@
        }));
    }

    pub(crate) fn is_merchant_paused(&self, merchant: Address) -> (paused: bool)
        ensures
            paused == self@.paused_merchants.contains(merchant),
    {
        self.paused_merchants.contains(merchant)
    }

    pub(crate) fn mark_merchant(&mut self, merchant: Address, paused: bool)
        ensures
            final(self)@ == (VaultState {
                paused_merchants: if paused {
                    old(self)@.paused_merchants.insert(merchant)
                } else {
                    old(self)@.paused_merchants.remove(merchant)
                },
                ..old(self)@
            }),
    {
        if paused {
            self.paused_merchants.insert(merchant, ());
            assert(self@.paused_merchants =~= old(self)@.paused_merchants.insert(merchant));
        } else {
            self.paused_merchants.remove(merchant);
            assert(self@.paused_merchants =~= old(self)@.paused_merchants.remove(merchant));
        }
    }

    pub(crate) fn set_usage_limits(&mut self, id: u32, limits: UsageLimits)
        ensures
            final(self)@ == (VaultState {
                usage_limits: old(self)@.usage_limits.insert(id, limits),
                ..old(self)@
            }),
    {
        self.usage_limits.insert(id, limits);
    }

    pub(crate) fn has_recovered(&self, recovery_id: &String) -> (recovered: bool)
        ensures
            recovered == self@.recovery_ids.contains(recovery_id@),
    {
        let mut i: usize = 0;
        while i < self.recovery_ids.len()
            invariant
                i <= self.recovery_ids@.len(),
                forall|j: int| 0 <= j < i ==> self@.recovery_ids[j] != recovery_id@,
            decreases self.recovery_ids@.len() - i,
        {
            if self.recovery_ids[i] == *recovery_id {
                assert(self@.recovery_ids[i as int] == recovery_id@);
                return true;
            }
            i += 1;
        }
        false
    }

    pub(crate) fn note_recovery(&mut self, recovery_id: String)
        ensures
            final(self)@ == (VaultState {
                recovery_ids: old(self)@.recovery_ids.push(recovery_id@),
                ..old(self)@
            }),
    {
        self.recovery_ids.push(recovery_id);
        assert(self@.recovery_ids =~= old(self)@.recovery_ids.push(recovery_id@));
    }

    pub(crate) fn statement_book(&self) -> (book: &StatementBook)
        ensures
            book@ == self@.statements,
    {
        &self.statements
    }

    pub(crate) fn statement_book_mut(&mut self) -> (book: &mut StatementBook)
        ensures
            book@ == old(self)@.statements,
            final(self)@ == (VaultState { statements: final(book)@, ..old(self)@ }),
    {
        &mut self.statements
    }

    pub(crate) fn metadata_book(&self) -> (book: &MetadataBook)
        ensures
            book@ == self@.metadata,
    {
        &self.metadata
    }

    pub(crate) fn metadata_book_mut(&mut self) -> (book: &mut MetadataBook)
        ensures
            book@ == old(self)@.metadata,
            final(self)@ == (VaultState { metadata: final(book)@, ..old(self)@ }),
    {
        &mut self.metadata
    }
}

} // verus!
