//! Ready-made vaults and subscriptions, and ways to put a vault into a given condition.
use crate::address::{Address, AddressGenerator};
use crate::error::{Failure, Reply};
use crate::host::host_list_of;
use crate::lifecycle::{lemma_store_keeps_wf, SubscriptionTerms};
use crate::statements::history;
use crate::status::SubscriptionStatus;
use crate::store::AmountBook;
use crate::types::{BatchChargeResult, BillingChargeKind, ChargeExecutionResult, Subscription};
use crate::vault::{initial_state, SubscriptionVault, VaultState};
use vstd::prelude::*;

verus! {

/// Thirty days.
pub const INTERVAL: u64 = 2_592_000;

/// What one interval of a test subscription costs.
pub const AMOUNT: i128 = 10_000_000;

/// A balance that covers several intervals.
pub const PREPAID: i128 = 50_000_000;

/// The time at which the vaults for queries are set up.
pub const QUERY_START: u64 = 1_700_000_000;

/// Sets a vault up for a new token and a new admin: six decimals, a smallest deposit of one token,
/// seven days of grace.
pub fn setup_contract(addresses: &mut AddressGenerator) -> (set_up: (
    SubscriptionVault,
    Address,
    Address,
))
    requires
        old(addresses).remaining() >= 2,
    ensures
        set_up.2 == old(addresses).ahead(0),
        set_up.1 == old(addresses).ahead(1),
        set_up.1 != set_up.2,
        final(addresses).issued() == old(addresses).issued().insert(set_up.2).insert(set_up.1),
        final(addresses).remaining() == old(addresses).remaining() - 2,
        set_up.0@ == initial_state(set_up.1, 6, set_up.2, 1_000_000, 604_800),
        set_up.0@.wf(),
{
    let admin = addresses.generate();
    let token = addresses.generate();
    let vault = SubscriptionVault::init(token, 6, admin, 1_000_000, 604_800);
    (vault, token, admin)
}

/// Sets a vault up together with the source of accounts that it uses.
pub fn setup_test_env() -> (set_up: (AddressGenerator, SubscriptionVault, Address, Address))
    ensures
        set_up.2 != set_up.3,
        set_up.0.issued() == Set::<Address>::empty().insert(set_up.3).insert(set_up.2),
        set_up.0.remaining() == u64::MAX - 2,
        set_up.1@ == initial_state(set_up.2, 6, set_up.3, 1_000_000, 604_800),
        set_up.1@.wf(),
{
    let mut addresses = AddressGenerator::new();
    let (vault, token, admin) = setup_contract(&mut addresses);
    (addresses, vault, token, admin)
}

/// Sets a vault up for queries.
pub fn setup() -> (set_up: (AddressGenerator, SubscriptionVault, Address, Address))
    ensures
        set_up.2 != set_up.3,
        set_up.0.issued() == Set::<Address>::empty().insert(set_up.3).insert(set_up.2),
        set_up.0.remaining() == u64::MAX - 2,
        set_up.1@ == (VaultState {
            timestamp: QUERY_START,
            ..initial_state(set_up.2, 6, set_up.3, 1_000_000, 604_800)
        }),
        set_up.1@.wf(),
{
    let (addresses, mut vault, token, admin) = setup_test_env();
    vault.set_timestamp(QUERY_START);
    (addresses, vault, token, admin)
}

/// A new token.
pub fn create_secondary_token(addresses: &mut AddressGenerator) -> (token: Address)
    requires
        old(addresses).remaining() > 0,
    ensures
        token == old(addresses).upcoming(),
        !old(addresses).issued().contains(token),
        final(addresses).issued() == old(addresses).issued().insert(token),
        final(addresses).remaining() == old(addresses).remaining() - 1,
{
    addresses.generate()
}

/// A new token of which `recipient` holds `amount`.
pub fn create_token_and_mint(
    addresses: &mut AddressGenerator,
    holdings: &mut AmountBook,
    recipient: Address,
    amount: i128,
) -> (token: Address)
    requires
        old(addresses).remaining() > 0,
        0 <= amount,
    ensures
        token == old(addresses).upcoming(),
        !old(addresses).issued().contains(token),
        final(addresses).issued() == old(addresses).issued().insert(token),
        final(addresses).remaining() == old(addresses).remaining() - 1,
        final(holdings)@ == old(holdings)@.insert((recipient, token), amount),
{
    let token = create_secondary_token(addresses);
    holdings.set(recipient, token, amount);
    token
}

/// The terms of a test subscription.
pub open spec fn test_terms(state: VaultState, subscriber: Address, merchant: Address) -> SubscriptionTerms {
    SubscriptionTerms {
        subscriber,
        merchant,
        token: state.config.token,
        amount: AMOUNT,
        interval_seconds: INTERVAL,
        usage_enabled: false,
        lifetime_cap: None,
        expires_at: None,
    }
}

/// The state with one more test subscription, which is in status `status`.
pub open spec fn with_test_subscription(
    state: VaultState,
    subscriber: Address,
    merchant: Address,
    status: SubscriptionStatus,
) -> VaultState {
    let terms = test_terms(state, subscriber, merchant);
    state.admitted(terms).with_subscription(
        state.next_id,
        Subscription { status, ..state.fresh(terms) },
    )
}

/// Creates a subscription between two new accounts and puts it into a status.
pub fn create_test_subscription(
    addresses: &mut AddressGenerator,
    vault: &mut SubscriptionVault,
    status: SubscriptionStatus,
) -> (reply: Reply<(u32, Address, Address)>)
    requires
        old(vault)@.wf(),
        old(addresses).remaining() >= 2,
    ensures
        ({
            let subscriber = old(addresses).ahead(0);
            let merchant = old(addresses).ahead(1);
            match old(vault)@.create_refusal(test_terms(old(vault)@, subscriber, merchant)) {
                Some(failure) => {
                    &&& reply == Err::<(u32, Address, Address), Failure>(failure)
                    &&& final(vault)@ == old(vault)@
                },
                None => {
                    &&& reply == Ok::<(u32, Address, Address), Failure>(
                        (old(vault)@.next_id, subscriber, merchant),
                    )
                    &&& final(vault)@ == with_test_subscription(
                        old(vault)@,
                        subscriber,
                        merchant,
                        status,
                    )
                },
            }
        }),
        reply matches Ok((id, subscriber, merchant)) ==> {
            let made = final(vault)@.subscriptions[id];
            &&& final(vault)@.subscriptions.contains_key(id)
            &&& made.subscriber == subscriber
            &&& made.merchant == merchant
            &&& made.amount == AMOUNT
            &&& made.interval_seconds == INTERVAL
            &&& made.status == status
            &&& made.prepaid_balance == 0
        },
        final(vault)@.wf(),
        !old(addresses).issued().contains(old(addresses).ahead(0)),
        !old(addresses).issued().contains(old(addresses).ahead(1)),
        old(addresses).ahead(0) != old(addresses).ahead(1),
        final(addresses).issued() == old(addresses).issued().insert(
            old(addresses).ahead(0),
        ).insert(old(addresses).ahead(1)),
        final(addresses).remaining() == old(addresses).remaining() - 2,
        forall|n: nat| #[trigger] final(addresses).ahead(n) == old(addresses).ahead(n + 2),
{
    let subscriber = addresses.generate();
    let merchant = addresses.generate();
    let id: u32 = match vault.create_subscription(
        subscriber,
        merchant,
        AMOUNT,
        INTERVAL,
        false,
        None,
        None,
    ) {
        Ok(id) => id,
        Err(failure) => return Err(failure),
    };
    patch_status(vault, id, status);
    assert(vault@ =~= with_test_subscription(old(vault)@, subscriber, merchant, status));
    Ok((id, subscriber, merchant))
}

/// Puts a subscription into a status, whatever the state machine says.
pub fn patch_status(vault: &mut SubscriptionVault, id: u32, status: SubscriptionStatus)
    requires
        old(vault)@.wf(),
        old(vault)@.subscriptions.contains_key(id),
    ensures
        final(vault)@ == old(vault)@.with_subscription(
            id,
            Subscription { status, ..old(vault)@.subscriptions[id] },
        ),
        final(vault)@.wf(),
{
    if let Some(subscription) = vault.find(id) {
        let patched = Subscription { status, ..subscription };
        proof {
            lemma_store_keeps_wf(vault@, id, patched);
        }
        vault.store(id, patched);
    }
}

/// Gives a subscription a balance.
pub fn seed_balance(vault: &mut SubscriptionVault, id: u32, balance: i128)
    requires
        old(vault)@.wf(),
        old(vault)@.subscriptions.contains_key(id),
    ensures
        final(vault)@ == old(vault)@.with_subscription(
            id,
            Subscription { prepaid_balance: balance, ..old(vault)@.subscriptions[id] },
        ),
        final(vault)@.wf(),
{
    if let Some(subscription) = vault.find(id) {
        let funded = Subscription { prepaid_balance: balance, ..subscription };
        proof {
            lemma_store_keeps_wf(vault@, id, funded);
        }
        vault.store(id, funded);
    }
}

/// Sets the identifier that the next subscription gets.
pub fn seed_counter(vault: &mut SubscriptionVault, value: u32)
    requires
        old(vault)@.wf(),
    ensures
        final(vault)@ == (VaultState { next_id: value, ..old(vault)@ }),
        final(vault)@.wf(),
{
    vault.set_next_id(value);
}

/// Gives a merchant earnings.
pub fn seed_merchant_balance(
    vault: &mut SubscriptionVault,
    merchant: Address,
    token: Address,
    balance: i128,
)
    requires
        old(vault)@.wf(),
    ensures
        final(vault)@ == old(vault)@.with_balance(merchant, token, balance),
        final(vault)@.wf(),
{
    vault.set_balance(merchant, token, balance);
}

/// Reads several subscriptions at once.
pub fn snapshot_subscriptions(vault: &SubscriptionVault, ids: &[u32]) -> (subscriptions: Vec<
    Subscription,
>)
    requires
        forall|i: int|
            0 <= i < ids@.len() ==> vault@.subscriptions.contains_key(#[trigger] ids@[i]),
    ensures
        subscriptions@ == vault@.fetched(ids@),
        subscriptions@.len() == ids@.len(),
        forall|i: int|
            0 <= i < ids@.len() ==> #[trigger] subscriptions@[i] == vault@.subscriptions[ids@[i]],
{
    let mut subscriptions: Vec<Subscription> = Vec::new();
    let mut i: usize = 0;
    while i < ids.len()
        invariant
            i <= ids@.len(),
            forall|i: int|
                0 <= i < ids@.len() ==> vault@.subscriptions.contains_key(#[trigger] ids@[i]),
            subscriptions@ == vault@.fetched(ids@.take(i as int)),
        decreases ids@.len() - i,
    {
        if let Some(subscription) = vault.find(ids[i]) {
            subscriptions.push(subscription);
        }
        i += 1;
        assert(subscriptions@ =~= vault@.fetched(ids@.take(i as int)));
    }
    assert(ids@.take(i as int) =~= ids@);
    subscriptions
}

/// Results as pairs of success and code.
pub open spec fn result_codes(results: Seq<BatchChargeResult>) -> Seq<(bool, u32)> {
    results.map_values(|result: BatchChargeResult| (result.success, result.error_code))
}

/// Turns results into pairs of success and code.
fn codes_of(results: &Vec<BatchChargeResult>) -> (codes: Vec<(bool, u32)>)
    ensures
        codes@ == result_codes(results@),
{
    let mut codes: Vec<(bool, u32)> = Vec::new();
    let mut i: usize = 0;
    while i < results.len()
        invariant
            i <= results@.len(),
            codes@ == result_codes(results@).take(i as int),
        decreases results@.len() - i,
    {
        codes.push((results[i].success, results[i].error_code));
        i += 1;
        assert(codes@ =~= result_codes(results@).take(i as int));
    }
    assert(codes@ =~= result_codes(results@));
    codes
}

/// Charges subscriptions in one batch.
pub fn collect_batch_result_codes(
    env: &soroban_sdk::Env,
    vault: &mut SubscriptionVault,
    ids: &[u32],
) -> (codes: Vec<(bool, u32)>)
    requires
        old(vault)@.wf(),
        old(vault)@.signed(old(vault)@.config.admin),
        ids@.len() <= u32::MAX,
    ensures
        codes@ == result_codes(old(vault)@.all_results(ids@)),
        final(vault)@ == old(vault)@.all_attempted(ids@),
        final(vault)@.wf(),
{
    let batch = host_list_of(env, ids);
    match vault.batch_charge(&batch) {
        Ok(results) => codes_of(&results),
        Err(_) => Vec::new(),
    }
}

/// An attempt to charge one of the given subscriptions, one after the other, finds it past its
/// expiration time.
pub open spec fn finds_expired(state: VaultState, ids: Seq<u32>) -> bool {
    exists|i: int|
        0 <= i < ids.len() && (#[trigger] state.all_attempted(ids.take(i))).charge_refusal(ids[i])
            is None && state.all_attempted(ids.take(i)).charge_outcome(ids[i])
            == ChargeExecutionResult::Expired
}

/// Charges subscriptions call by call. None of them may turn out to be past its expiration time.
pub fn collect_single_charge_result_codes(vault: &mut SubscriptionVault, ids: &[u32]) -> (codes: Vec<
    (bool, u32),
>)
    requires
        old(vault)@.wf(),
        !finds_expired(old(vault)@, ids@),
    ensures
        codes@ == result_codes(old(vault)@.all_results(ids@)),
        final(vault)@ == old(vault)@.all_attempted(ids@),
        final(vault)@.wf(),
{
    let results = vault.charge_each(ids);
    codes_of(&results)
}

/// A subscription as it is put into a vault directly.
pub open spec fn mock_subscription(
    timestamp: u64,
    subscriber: Address,
    merchant: Address,
    token: Address,
) -> Subscription {
    Subscription {
        subscriber,
        merchant,
        token,
        amount: 10_000,
        interval_seconds: 2_592_000,
        last_payment_timestamp: timestamp,
        status: SubscriptionStatus::Active,
        prepaid_balance: 0,
        usage_enabled: false,
        lifetime_cap: None,
        lifetime_charged: 0,
        start_time: timestamp,
        expires_at: None,
        grace_start_timestamp: None,
    }
}

/// Makes up a subscription with a new merchant.
pub fn create_mock_sub(
    addresses: &mut AddressGenerator,
    vault: &SubscriptionVault,
    subscriber: Address,
    token: Address,
) -> (subscription: Subscription)
    requires
        old(addresses).remaining() > 0,
    ensures
        subscription == mock_subscription(
            vault@.timestamp,
            subscriber,
            old(addresses).upcoming(),
            token,
        ),
        !old(addresses).issued().contains(subscription.merchant),
        final(addresses).issued() == old(addresses).issued().insert(subscription.merchant),
        final(addresses).remaining() == old(addresses).remaining() - 1,
        forall|n: nat| #[trigger] final(addresses).ahead(n) == old(addresses).ahead(n + 1),
{
    let merchant = addresses.generate();
    Subscription {
        subscriber,
        merchant,
        token,
        amount: 10_000,
        interval_seconds: 2_592_000,
        last_payment_timestamp: vault.now(),
        status: SubscriptionStatus::Active,
        prepaid_balance: 0,
        usage_enabled: false,
        lifetime_cap: None,
        lifetime_charged: 0,
        start_time: vault.now(),
        expires_at: None,
        grace_start_timestamp: None,
    }
}

/// The stored subscriptions after `count` made-up ones have been put in from `start` on.
pub open spec fn with_mocks(
    state: VaultState,
    start: u32,
    count: u32,
    subscriber: Address,
    token: Address,
    merchants: spec_fn(int) -> Address,
) -> Map<u32, Subscription> {
    Map::new(
        |id: u32| start <= id < start + count || state.subscriptions.contains_key(id),
        |id: u32|
            if start <= id < start + count {
                mock_subscription(state.timestamp, subscriber, merchants(id - start), token)
            } else {
                state.subscriptions[id]
            },
    )
}

/// Puts made-up subscriptions into a vault, under the next identifiers. They are not listed under
/// their merchants or their token.
pub fn inject_subscriptions(
    addresses: &mut AddressGenerator,
    vault: &mut SubscriptionVault,
    count: u32,
    subscriber: Address,
    token: Address,
)
    requires
        old(vault)@.wf(),
        old(vault)@.next_id + count <= u32::MAX,
        old(addresses).remaining() >= count,
    ensures
        final(vault)@ == (VaultState {
            next_id: (old(vault)@.next_id + count) as u32,
            subscriptions: with_mocks(
                old(vault)@,
                old(vault)@.next_id,
                count,
                subscriber,
                token,
                |i: int| old(addresses).ahead(i as nat),
            ),
            ..old(vault)@
        }),
        final(vault)@.wf(),
        forall|i: nat|
            i < count ==> !old(addresses).issued().contains(#[trigger] old(addresses).ahead(i)),
        forall|i: nat, j: nat|
            i < j < count ==> #[trigger] old(addresses).ahead(i) != #[trigger] old(
                addresses,
            ).ahead(j),
        final(addresses).issued() == old(addresses).issued().union(
            old(addresses).next_accounts(count as nat),
        ),
        final(addresses).remaining() == old(addresses).remaining() - count,
        forall|n: nat| #[trigger] final(addresses).ahead(n) == old(addresses).ahead(
            (n + count) as nat,
        ),
{
    let ghost before = vault@;
    proof {
        old(addresses).law_ahead_is_unused(count as nat);
    }
    assert(old(addresses).next_accounts(0) =~= Set::<Address>::empty());
    let ghost merchants = |i: int| old(addresses).ahead(i as nat);
    let start: u32 = vault.next_id();
    let mut i: u32 = 0;
    assert(before.subscriptions =~= with_mocks(before, start, 0, subscriber, token, merchants));
    while i < count
        invariant
            i <= count,
            start + count <= u32::MAX,
            addresses.remaining() == old(addresses).remaining() - i,
            old(addresses).remaining() >= count,
            forall|n: nat| #[trigger] addresses.ahead(n) == old(addresses).ahead((n + i) as nat),
            addresses.issued() == old(addresses).issued().union(
                old(addresses).next_accounts(i as nat),
            ),
            merchants == (|i: int| old(addresses).ahead(i as nat)),
            vault@.wf(),
            vault@ == (VaultState {
                subscriptions: with_mocks(before, start, i, subscriber, token, merchants),
                ..before
            }),
        decreases count - i,
    {
        let ghost held = vault@.subscriptions;
        assert(addresses.upcoming() == merchants(i as int));
        let subscription = create_mock_sub(addresses, vault, subscriber, token);
        proof {
            lemma_store_keeps_wf(vault@, (start + i) as u32, subscription);
        }
        vault.store(start + i, subscription);
        i += 1;
        assert(old(addresses).next_accounts(i as nat) =~= old(addresses).next_accounts(
            (i - 1) as nat,
        ).insert(subscription.merchant));
        assert(addresses.issued() =~= old(addresses).issued().union(
            old(addresses).next_accounts(i as nat),
        ));
        assert(vault@.subscriptions =~= with_mocks(
            before,
            start,
            i,
            subscriber,
            token,
            merchants,
        ));
    }
    vault.set_next_id(start + count);
}

/// Creates a subscription in the token of the vault: a thousand units every thirty days.
pub fn create_sub_for_merchant_and_token(
    vault: &mut SubscriptionVault,
    subscriber: Address,
    merchant: Address,
    _token: Address,
) -> (reply: Reply<u32>)
    requires
        old(vault)@.wf(),
    ensures
        ({
            let terms = SubscriptionTerms {
                amount: 1_000,
                ..test_terms(old(vault)@, subscriber, merchant)
            };
            crate::vault::settles(
                old(vault)@,
                final(vault)@,
                reply,
                old(vault)@.create_refusal(terms),
                old(vault)@.next_id,
                old(vault)@.admitted(terms),
            )
        }),
        final(vault)@.wf(),
{
    vault.create_subscription(subscriber, merchant, 1_000, INTERVAL, false, None, None)
}

/// The state with `count` more statements, one for each of the intervals that follow the start of
/// the queries.
pub open spec fn with_statements(state: VaultState, id: u32, count: nat, merchant: Address) -> VaultState
    decreases count,
{
    if count == 0 {
        state
    } else {
        with_statements(state, id, (count - 1) as nat, merchant).stated(
            id,
            10_000,
            merchant,
            BillingChargeKind::Interval,
            (QUERY_START + INTERVAL * (count - 1)) as u64,
            (QUERY_START + INTERVAL * count) as u64,
        )
    }
}

/// Adds statements to the history of a subscription, one for each of the intervals that follow the
/// start of the queries.
pub fn inject_statements(vault: &mut SubscriptionVault, id: u32, count: u32, merchant: Address)
    requires
        old(vault)@.wf(),
        history(old(vault)@.statements, id).next_sequence + count <= u32::MAX,
    ensures
        final(vault)@ == with_statements(old(vault)@, id, count as nat, merchant),
        final(vault)@.wf(),
{
    let mut i: u32 = 0;
    while i < count
        invariant
            i <= count,
            vault@.wf(),
            vault@ == with_statements(old(vault)@, id, i as nat, merchant),
            history(vault@.statements, id).next_sequence == history(
                old(vault)@.statements,
                id,
            ).next_sequence + i,
            history(old(vault)@.statements, id).next_sequence + count <= u32::MAX,
        decreases count - i,
    {
        let period_start: u64 = QUERY_START + INTERVAL * i as u64;
        let _ = vault.append_statement(
            id,
            10_000,
            merchant,
            BillingChargeKind::Interval,
            period_start,
            period_start + INTERVAL,
        );
        i += 1;
    }
}

/// Injected statements come after those that are there, one for each interval from the start of the
/// queries on, each with the next number.
pub proof fn law_injected_statements_follow_the_intervals(
    state: VaultState,
    id: u32,
    count: nat,
    merchant: Address,
)
    requires
        history(state.statements, id).next_sequence + count <= u32::MAX,
    ensures
        ({
            let before = history(state.statements, id);
            let after = history(with_statements(state, id, count, merchant).statements, id);
            &&& after.next_sequence == before.next_sequence + count
            &&& after.statements.len() == before.statements.len() + count
            &&& after.statements.take(before.statements.len() as int) == before.statements
            &&& forall|i: int|
                #![trigger after.statements[before.statements.len() + i]]
                0 <= i < count ==> {
                    let added = after.statements[before.statements.len() + i];
                    &&& added.subscription_id == id
                    &&& added.sequence == before.next_sequence + i
                    &&& added.amount == 10_000
                    &&& added.merchant == merchant
                    &&& added.kind == BillingChargeKind::Interval
                    &&& added.period_start == 1_700_000_000 + 2_592_000 * i
                    &&& added.period_end == 1_700_000_000 + 2_592_000 * (i + 1)
                }
        }),
    decreases count,
{
    let before = history(state.statements, id);
    let after = history(with_statements(state, id, count, merchant).statements, id);
    if count > 0 {
        law_injected_statements_follow_the_intervals(state, id, (count - 1) as nat, merchant);
        let earlier = history(
            with_statements(state, id, (count - 1) as nat, merchant).statements,
            id,
        );
        assert(after.statements == earlier.statements.push(after.statements.last()));
        assert(after.statements.take(before.statements.len() as int) =~= earlier.statements.take(
            before.statements.len() as int,
        ));
        assert forall|i: int|
            #![trigger after.statements[before.statements.len() + i]]
            0 <= i < count - 1 implies after.statements[before.statements.len() + i]
            == earlier.statements[before.statements.len() + i] by {}
    } else {
        assert(after.statements.take(before.statements.len() as int) =~= before.statements);
    }
}

/// A test subscription and a made-up one are between the accounts that were named, in the token that was
/// named, for thirty days at a time, active, without funds, cap or end.
pub proof fn law_test_subscriptions_are_between_those_named(
    state: VaultState,
    subscriber: Address,
    merchant: Address,
    token: Address,
)
    ensures
        ({
            let terms = test_terms(state, subscriber, merchant);
            &&& terms.subscriber == subscriber
            &&& terms.merchant == merchant
            &&& terms.token == state.config.token
            &&& terms.amount == 10_000_000
            &&& terms.interval_seconds == 30 * 24 * 60 * 60
            &&& !terms.usage_enabled
            &&& terms.lifetime_cap is None
            &&& terms.expires_at is None
        }),
        ({
            let made_up = mock_subscription(state.timestamp, subscriber, merchant, token);
            &&& made_up.subscriber == subscriber
            &&& made_up.merchant == merchant
            &&& made_up.token == token
            &&& made_up.amount == 10_000
            &&& made_up.interval_seconds == 30 * 24 * 60 * 60
            &&& made_up.last_payment_timestamp == state.timestamp
            &&& made_up.start_time == state.timestamp
            &&& made_up.status == SubscriptionStatus::Active
            &&& made_up.prepaid_balance == 0
            &&& made_up.lifetime_charged == 0
            &&& made_up.lifetime_cap is None
            &&& made_up.expires_at is None
            &&& made_up.grace_start_timestamp is None
        }),
{
}

} // verus!
