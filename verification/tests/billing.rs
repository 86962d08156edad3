//! Charges, fees, caps, expiry, batches and statements.

use subscription_vault::address::{Address, AddressGenerator};
use subscription_vault::error::{Error, Failure};
use subscription_vault::events::Event;
use subscription_vault::fixtures::{
    collect_batch_result_codes, collect_single_charge_result_codes, create_test_subscription,
    inject_statements, seed_balance, seed_merchant_balance, setup_test_env, snapshot_subscriptions,
    AMOUNT, INTERVAL, PREPAID,
};
use subscription_vault::host::host_list_of;
use subscription_vault::status::SubscriptionStatus;
use subscription_vault::types::{BatchChargeResult, BillingChargeKind, ChargeExecutionResult};
use subscription_vault::vault::SubscriptionVault;
use soroban_sdk::TryFromVal;

const GRACE: u64 = 7 * 24 * 60 * 60;

/// More than the vault ever pays in these tests.
const HELD: i128 = 1_000_000_000_000;

fn refused<T>(error: Error) -> Result<T, Failure> {
    Err(Failure::Contract(error))
}

/// A vault with one active subscription that holds `balance`.
fn funded(balance: i128) -> (AddressGenerator, SubscriptionVault, Address, Address, u32, Address, Address) {
    let (mut addresses, mut vault, token, admin) = setup_test_env();
    let (id, subscriber, merchant) =
        create_test_subscription(&mut addresses, &mut vault, SubscriptionStatus::Active).unwrap();
    seed_balance(&mut vault, id, balance);
    (addresses, vault, token, admin, id, subscriber, merchant)
}

#[test]
fn a_charge_moves_the_amount_to_the_merchant() {
    let (_, mut vault, token, _, id, subscriber, merchant) = funded(PREPAID);
    vault.set_timestamp(INTERVAL);
    assert_eq!(vault.charge_subscription(id), Ok(ChargeExecutionResult::Charged));
    let after = vault.get_subscription(id).unwrap();
    assert_eq!(after.prepaid_balance, PREPAID - AMOUNT);
    assert_eq!(after.lifetime_charged, AMOUNT);
    assert_eq!(after.last_payment_timestamp, INTERVAL);
    assert_eq!(
        vault.events().last(),
        Some(&Event::SubscriptionCharged {
            subscription_id: id,
            subscriber,
            merchant,
            token,
            amount: AMOUNT,
            lifetime_charged: AMOUNT,
            remaining_balance: PREPAID - AMOUNT,
            timestamp: INTERVAL,
        })
    );
    assert_eq!(vault.events().last().unwrap().topic(), "charged");
    assert_eq!(vault.withdraw_merchant_funds(merchant, AMOUNT, HELD), Ok(()));
    assert_eq!(
        vault.withdraw_merchant_funds(merchant, 1, HELD),
        refused(Error::InsufficientBalance)
    );
}

#[test]
fn a_charge_before_the_interval_is_over_is_refused() {
    let (_, mut vault, _, _, id, _, _) = funded(PREPAID);
    let events = vault.events().len();
    vault.set_timestamp(INTERVAL - 1);
    assert_eq!(vault.charge_subscription(id), refused(Error::IntervalNotElapsed));
    vault.set_timestamp(INTERVAL);
    assert_eq!(vault.charge_subscription(id), Ok(ChargeExecutionResult::Charged));
    assert_eq!(vault.charge_subscription(id), refused(Error::IntervalNotElapsed));
    vault.set_timestamp(2 * INTERVAL);
    assert_eq!(vault.charge_subscription(id), Ok(ChargeExecutionResult::Charged));
    assert_eq!(vault.events().len(), events + 2);
}

#[test]
fn only_active_subscriptions_and_those_in_grace_are_charged() {
    for status in [
        SubscriptionStatus::Paused,
        SubscriptionStatus::Cancelled,
        SubscriptionStatus::InsufficientBalance,
        SubscriptionStatus::Expired,
        SubscriptionStatus::Archived,
    ] {
        let (mut addresses, mut vault, _, _) = setup_test_env();
        let (id, _, _) = create_test_subscription(&mut addresses, &mut vault, status).unwrap();
        seed_balance(&mut vault, id, PREPAID);
        vault.set_timestamp(INTERVAL);
        assert_eq!(vault.charge_subscription(id), refused(Error::NotActive));
    }
    let (mut addresses, mut vault, _, _) = setup_test_env();
    let (id, _, _) =
        create_test_subscription(&mut addresses, &mut vault, SubscriptionStatus::GracePeriod)
            .unwrap();
    seed_balance(&mut vault, id, PREPAID);
    vault.set_timestamp(INTERVAL);
    assert_eq!(vault.charge_subscription(id), Ok(ChargeExecutionResult::Charged));
    assert_eq!(
        vault.get_subscription(id).unwrap().status,
        SubscriptionStatus::Active
    );
    assert_eq!(vault.charge_subscription(99), refused(Error::NotFound));
}

#[test]
fn the_grace_period_ends_at_its_last_second() {
    let (_, mut vault, _, _, id, _, merchant) = funded(AMOUNT - 1);
    vault.set_timestamp(INTERVAL + GRACE - 1);
    assert_eq!(
        vault.charge_subscription(id),
        Ok(ChargeExecutionResult::InsufficientBalance)
    );
    let after = vault.get_subscription(id).unwrap();
    assert_eq!(after.status, SubscriptionStatus::GracePeriod);
    assert_eq!(after.grace_start_timestamp, Some(INTERVAL + GRACE - 1));
    assert_eq!(
        vault.events().last(),
        Some(&Event::SubscriptionChargeFailed {
            subscription_id: id,
            merchant,
            required_amount: AMOUNT,
            available_balance: AMOUNT - 1,
            shortfall: 1,
            resulting_status: SubscriptionStatus::GracePeriod,
            timestamp: INTERVAL + GRACE - 1,
        })
    );
    assert_eq!(vault.events().last().unwrap().topic(), "charge_failed");
    vault.set_timestamp(INTERVAL + GRACE);
    assert_eq!(
        vault.charge_subscription(id),
        Ok(ChargeExecutionResult::InsufficientBalance)
    );
    let after = vault.get_subscription(id).unwrap();
    assert_eq!(after.status, SubscriptionStatus::InsufficientBalance);
    assert_eq!(after.grace_start_timestamp, None);
    assert_eq!(after.prepaid_balance, AMOUNT - 1);
}

#[test]
fn the_treasury_gets_its_share_rounded_down() {
    let (mut addresses, mut vault, token, admin, id, _, merchant) = funded(PREPAID);
    let treasury = addresses.generate();
    assert_eq!(vault.set_protocol_fee(admin, treasury, 250), Ok(()));
    vault.set_timestamp(INTERVAL);
    assert_eq!(vault.charge_subscription(id), Ok(ChargeExecutionResult::Charged));
    assert_eq!(
        vault.events().last(),
        Some(&Event::ProtocolFeeCharged {
            subscription_id: id,
            treasury,
            fee_amount: 250_000,
            merchant_amount: 9_750_000,
            timestamp: INTERVAL,
        })
    );
    assert_eq!(vault.events().last().unwrap().topic(), "protocol_fee_charged");
    assert_eq!(vault.withdraw_merchant_funds(merchant, 9_750_000, HELD), Ok(()));
    assert_eq!(vault.withdraw_merchant_token_funds(treasury, token, 250_000, HELD), Ok(()));
    assert_eq!(
        vault.withdraw_merchant_token_funds(treasury, token, 1, HELD),
        refused(Error::InsufficientBalance)
    );

    // 10_000_000 * 3333 / 10_000 leaves no remainder; 9_999 * 3_333 / 10_000 does.
    let subscriber = addresses.generate();
    let odd = vault
        .create_subscription(subscriber, merchant, 9_999, INTERVAL, false, None, None)
        .unwrap();
    seed_balance(&mut vault, odd, 9_999);
    assert_eq!(vault.set_protocol_fee(admin, treasury, 3_333), Ok(()));
    vault.set_timestamp(2 * INTERVAL);
    assert_eq!(vault.charge_subscription(odd), Ok(ChargeExecutionResult::Charged));
    assert_eq!(vault.withdraw_merchant_token_funds(treasury, token, 3_332, HELD), Ok(()));
    assert_eq!(
        vault.withdraw_merchant_token_funds(treasury, token, 1, HELD),
        refused(Error::InsufficientBalance)
    );
    assert_eq!(vault.withdraw_merchant_funds(merchant, 6_667, HELD), Ok(()));
}

#[test]
fn a_fee_of_everything_and_a_fee_of_nothing() {
    let (mut addresses, mut vault, token, admin, id, _, merchant) = funded(PREPAID);
    let treasury = addresses.generate();
    assert_eq!(
        vault.set_protocol_fee(admin, treasury, 10_001),
        refused(Error::InvalidInput)
    );
    assert_eq!(vault.set_protocol_fee(admin, treasury, 10_000), Ok(()));
    assert_eq!(vault.events().last().unwrap().topic(), "protocol_fee_configured");
    vault.set_timestamp(INTERVAL);
    assert_eq!(vault.charge_subscription(id), Ok(ChargeExecutionResult::Charged));
    assert_eq!(vault.withdraw_merchant_token_funds(treasury, token, AMOUNT, HELD), Ok(()));
    assert_eq!(
        vault.withdraw_merchant_funds(merchant, 1, HELD),
        refused(Error::InsufficientBalance)
    );
    assert_eq!(vault.set_protocol_fee(admin, treasury, 0), Ok(()));
    vault.set_timestamp(2 * INTERVAL);
    assert_eq!(vault.charge_subscription(id), Ok(ChargeExecutionResult::Charged));
    assert_eq!(vault.events().last().unwrap().topic(), "charged");
    assert_eq!(vault.withdraw_merchant_funds(merchant, AMOUNT, HELD), Ok(()));
}

#[test]
fn a_lifetime_cap_ends_a_subscription() {
    let (mut addresses, mut vault, _, _) = setup_test_env();
    let subscriber = addresses.generate();
    let merchant = addresses.generate();
    let id = vault
        .create_subscription(subscriber, merchant, 40, INTERVAL, false, Some(100), None)
        .unwrap();
    seed_balance(&mut vault, id, 1_000);
    for round in 1..=2u64 {
        vault.set_timestamp(round * INTERVAL);
        assert_eq!(vault.charge_subscription(id), Ok(ChargeExecutionResult::Charged));
    }
    // Eighty are charged, and another forty would go past the cap.
    vault.set_timestamp(3 * INTERVAL);
    assert_eq!(vault.charge_subscription(id), refused(Error::LifetimeCapReached));
    assert_eq!(
        vault.charge_one_off(id, merchant, 21),
        refused(Error::LifetimeCapReached)
    );
    assert_eq!(vault.charge_one_off(id, merchant, 20), Ok(()));
    assert_eq!(
        vault.events().last(),
        Some(&Event::LifetimeCapReached {
            subscription_id: id,
            lifetime_cap: 100,
            lifetime_charged: 100,
            timestamp: 3 * INTERVAL,
        })
    );
    assert_eq!(vault.events().last().unwrap().topic(), "lifetime_cap_reached");
    let after = vault.get_subscription(id).unwrap();
    assert_eq!(after.status, SubscriptionStatus::Cancelled);
    assert_eq!(after.lifetime_charged, 100);
    assert_eq!(vault.withdraw_subscriber_funds(id, subscriber, HELD), Ok(900));
}

#[test]
fn an_expired_subscription_is_marked_at_its_next_charge() {
    let (mut addresses, mut vault, _, _) = setup_test_env();
    let subscriber = addresses.generate();
    let merchant = addresses.generate();
    let end = INTERVAL + 5;
    let id = vault
        .create_subscription(subscriber, merchant, AMOUNT, INTERVAL, false, None, Some(end))
        .unwrap();
    seed_balance(&mut vault, id, PREPAID);
    vault.set_timestamp(end - 1);
    assert_eq!(vault.charge_subscription(id), Ok(ChargeExecutionResult::Charged));
    vault.set_timestamp(end);
    assert_eq!(vault.charge_subscription(id), Ok(ChargeExecutionResult::Expired));
    assert_eq!(
        vault.events().last(),
        Some(&Event::SubscriptionExpired { subscription_id: id, timestamp: end })
    );
    assert_eq!(vault.events().last().unwrap().topic(), "subscription_expired");
    assert_eq!(
        vault.get_subscription(id).unwrap().status,
        SubscriptionStatus::Expired
    );
    assert_eq!(vault.charge_subscription(id), refused(Error::NotActive));
}

#[test]
fn numbers_that_leave_their_range_are_refused() {
    let (mut addresses, mut vault, token, _) = setup_test_env();
    let subscriber = addresses.generate();
    let merchant = addresses.generate();
    vault.set_timestamp(10);
    let never = vault
        .create_subscription(subscriber, merchant, AMOUNT, u64::MAX, false, None, None)
        .unwrap();
    assert_eq!(vault.charge_subscription(never), refused(Error::Overflow));
    let id = vault
        .create_subscription(subscriber, merchant, AMOUNT, INTERVAL, false, None, None)
        .unwrap();
    seed_balance(&mut vault, id, PREPAID);
    seed_merchant_balance(&mut vault, merchant, token, i128::MAX);
    vault.set_timestamp(10 + INTERVAL);
    assert_eq!(vault.charge_subscription(id), refused(Error::Overflow));
    assert_eq!(vault.charge_one_off(id, merchant, 1), refused(Error::Overflow));
    assert_eq!(
        vault.deposit_funds(id, subscriber, i128::MAX, i128::MAX),
        refused(Error::Overflow)
    );
    assert_eq!(vault.get_subscription(id).unwrap().prepaid_balance, PREPAID);
}

#[test]
fn a_merchant_charges_outside_the_interval() {
    let (mut addresses, mut vault, token, _, id, subscriber, merchant) = funded(PREPAID);
    let stranger = addresses.generate();
    assert_eq!(vault.charge_one_off(id, merchant, 0), refused(Error::InvalidAmount));
    assert_eq!(
        vault.charge_one_off(id, merchant, PREPAID + 1),
        refused(Error::InsufficientBalance)
    );
    assert_eq!(vault.charge_one_off(id, stranger, 1), refused(Error::Unauthorized));
    assert_eq!(vault.charge_one_off(id + 1, merchant, 1), refused(Error::NotFound));
    vault.set_timestamp(77);
    assert_eq!(vault.charge_one_off(id, merchant, 1_000), Ok(()));
    assert_eq!(
        vault.events().last(),
        Some(&Event::OneOffCharged {
            subscription_id: id,
            subscriber,
            merchant,
            token,
            amount: 1_000,
            remaining_balance: PREPAID - 1_000,
            timestamp: 77,
        })
    );
    assert_eq!(vault.events().last().unwrap().topic(), "oneoff_ch");
    let after = vault.get_subscription(id).unwrap();
    assert_eq!(after.last_payment_timestamp, 0);
    assert_eq!(after.lifetime_charged, 1_000);
    vault.pause_subscription(id, merchant).unwrap();
    assert_eq!(vault.charge_one_off(id, merchant, 1), refused(Error::NotActive));
}

#[test]
fn a_batch_charges_like_single_charges() {
    let env = soroban_sdk::Env::default();
    let build = || {
        let (mut addresses, mut vault, _, _) = setup_test_env();
        let mut ids: Vec<u32> = Vec::new();
        for balance in [PREPAID, 0, PREPAID, AMOUNT] {
            let (id, _, _) =
                create_test_subscription(&mut addresses, &mut vault, SubscriptionStatus::Active)
                    .unwrap();
            seed_balance(&mut vault, id, balance);
            ids.push(id);
        }
        let (paused, _, _) =
            create_test_subscription(&mut addresses, &mut vault, SubscriptionStatus::Paused)
                .unwrap();
        ids.push(paused);
        ids.push(77);
        ids.push(ids[0]);
        vault.set_timestamp(INTERVAL);
        (vault, ids)
    };
    let (mut together, ids) = build();
    let (mut apart, _) = build();
    let batch = collect_batch_result_codes(&env, &mut together, &ids);
    let single = collect_single_charge_result_codes(&mut apart, &ids);
    let expected = vec![
        (true, 0),
        (false, Error::InsufficientBalance.to_code()),
        (true, 0),
        (true, 0),
        (false, Error::NotActive.to_code()),
        (false, Error::NotFound.to_code()),
        (false, Error::IntervalNotElapsed.to_code()),
    ];
    assert_eq!(batch, expected);
    assert_eq!(single, expected);
    assert_eq!(
        snapshot_subscriptions(&together, &ids[..5]),
        snapshot_subscriptions(&apart, &ids[..5])
    );
    assert_eq!(together.events(), apart.events());
}

#[test]
fn an_expired_subscription_shows_in_a_batch() {
    let (mut addresses, mut vault, _, _) = setup_test_env();
    let subscriber = addresses.generate();
    let merchant = addresses.generate();
    let id = vault
        .create_subscription(subscriber, merchant, AMOUNT, INTERVAL, false, None, Some(1))
        .unwrap();
    vault.set_timestamp(1);
    assert_eq!(
        vault.attempt_charge(id),
        BatchChargeResult { success: false, error_code: 1014 }
    );
}

#[test]
fn an_empty_batch_is_no_failure() {
    let env = soroban_sdk::Env::default();
    let (_, mut vault, _, _) = setup_test_env();
    let batch = host_list_of(&env, &[]);
    assert_eq!(batch.len(), 0);
    assert_eq!(vault.batch_charge(&batch), Ok(Vec::new()));
}

#[test]
fn a_host_list_keeps_identifiers_in_their_order() {
    let env = soroban_sdk::Env::default();
    let batch = host_list_of(&env, &[7, 3, 3, u32::MAX]);
    assert_eq!(batch.len(), 4);
    assert_eq!(batch.get(0), Some(7));
    assert_eq!(batch.get(1), Some(3));
    assert_eq!(batch.get(2), Some(3));
    assert_eq!(batch.get(3), Some(u32::MAX));
    assert_eq!(batch.get(4), None);
}

/// A long list does not use up what the host grants to a call.
#[test]
fn a_long_list_goes_through() {
    let env = soroban_sdk::Env::default();
    let (_, mut vault, _, _) = setup_test_env();
    let ids: Vec<u32> = (0..4_000).collect();
    let batch = host_list_of(&env, &ids);
    let results = vault.batch_charge(&batch).unwrap();
    assert_eq!(results.len(), 4_000);
    assert!(results.iter().all(|r| r.error_code == Error::NotFound.to_code()));
}

#[test]
fn a_batch_with_anything_but_identifiers_aborts() {
    let env = soroban_sdk::Env::default();
    let (mut addresses, mut vault, _, _) = setup_test_env();
    let (id, _, _) =
        create_test_subscription(&mut addresses, &mut vault, SubscriptionStatus::Active).unwrap();
    seed_balance(&mut vault, id, PREPAID);
    vault.set_timestamp(INTERVAL);
    let mut mixed: soroban_sdk::Vec<soroban_sdk::Val> = soroban_sdk::Vec::new(&env);
    mixed.push_back(soroban_sdk::Val::from_u32(id).to_val());
    mixed.push_back(soroban_sdk::Symbol::new(&env, "intruder").to_val());
    let batch: soroban_sdk::Vec<u32> =
        soroban_sdk::Vec::try_from_val(&env, &mixed.to_val()).unwrap();
    assert_eq!(vault.batch_charge(&batch), Err(Failure::Abort));
    assert_eq!(vault.get_subscription(id).unwrap().prepaid_balance, PREPAID);
}

#[test]
fn charges_leave_numbered_statements() {
    let (_, mut vault, _, _, id, _, merchant) = funded(PREPAID);
    vault.set_timestamp(INTERVAL);
    vault.charge_subscription(id).unwrap();
    vault.charge_one_off(id, merchant, 5).unwrap();
    let page = vault.get_sub_statements_offset(id, 0, 10, false).unwrap();
    assert_eq!(page.total, 2);
    assert_eq!(page.statements[0].sequence, 0);
    assert_eq!(page.statements[0].amount, AMOUNT);
    assert_eq!(page.statements[0].kind, BillingChargeKind::Interval);
    assert_eq!(page.statements[0].period_start, 0);
    assert_eq!(page.statements[0].period_end, INTERVAL);
    assert_eq!(page.statements[1].sequence, 1);
    assert_eq!(page.statements[1].amount, 5);
    assert_eq!(page.statements[1].kind, BillingChargeKind::OneOff);
}

#[test]
fn compaction_keeps_the_newest_statements_and_their_numbers() {
    let (_, mut vault, _, admin, id, _, merchant) = funded(0);
    inject_statements(&mut vault, id, 10, merchant);
    let nothing = vault.compact_billing_statements(admin, id, None).unwrap();
    assert_eq!((nothing.pruned, nothing.kept), (0, 10));
    assert_eq!(vault.set_billing_retention(admin, 6), Ok(()));
    let some = vault.compact_billing_statements(admin, id, None).unwrap();
    assert_eq!((some.pruned, some.kept), (4, 6));
    let more = vault.compact_billing_statements(admin, id, Some(3)).unwrap();
    assert_eq!((more.pruned, more.kept), (3, 3));
    let page = vault.get_sub_statements_cursor(id, None, 10, true).unwrap();
    assert_eq!(page.total, 3);
    let numbers: Vec<u32> = page.statements.iter().map(|s| s.sequence).collect();
    assert_eq!(numbers, vec![9, 8, 7]);
    inject_statements(&mut vault, id, 1, merchant);
    let page = vault.get_sub_statements_offset(id, 3, 1, false).unwrap();
    assert_eq!(page.statements[0].sequence, 10);
    assert_eq!(
        vault.compact_billing_statements(admin, id + 1, None).err(),
        Some(Failure::Contract(Error::NotFound))
    );
}

#[test]
fn cursors_go_on_where_a_page_ended() {
    let (_, mut vault, _, _, id, _, merchant) = funded(0);
    inject_statements(&mut vault, id, 7, merchant);
    for newest_first in [false, true] {
        let mut numbers: Vec<u32> = Vec::new();
        let mut cursor: Option<u32> = None;
        loop {
            let page = vault.get_sub_statements_cursor(id, cursor, 3, newest_first).unwrap();
            assert_eq!(page.total, 7);
            numbers.extend(page.statements.iter().map(|s| s.sequence));
            cursor = page.next_cursor;
            if cursor.is_none() {
                break;
            }
        }
        let expected: Vec<u32> = if newest_first {
            vec![6, 5, 4, 3, 2, 1, 0]
        } else {
            vec![0, 1, 2, 3, 4, 5, 6]
        };
        assert_eq!(numbers, expected);
    }
}
