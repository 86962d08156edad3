//! Creation, deposits, payouts, settings and what the vault publishes.

use subscription_vault::address::Address;
use subscription_vault::error::{Error, Failure, Signers};
use subscription_vault::events::Event;
use subscription_vault::fixtures::{
    create_mock_sub, create_secondary_token, create_test_subscription, create_token_and_mint,
    inject_subscriptions,
    seed_balance, seed_counter, seed_merchant_balance, setup_contract, setup_test_env, AMOUNT,
    INTERVAL, PREPAID,
};
use subscription_vault::lifecycle::SubscriptionTerms;
use subscription_vault::oracle::MockOracle;
use subscription_vault::requests::Request;
use subscription_vault::status::SubscriptionStatus;
use subscription_vault::store::AmountBook;
use subscription_vault::types::{
    OraclePrice, RecoveryReason, MAX_SUBSCRIPTION_ID, MAX_WRITE_PATH_SCAN_DEPTH,
};

/// More than the vault ever pays in these tests.
const HELD: i128 = 1_000_000_000_000;

fn refused<T>(error: Error) -> Result<T, Failure> {
    Err(Failure::Contract(error))
}

#[test]
fn error_codes() {
    let codes = [
        (Error::InvalidStatusTransition, 400),
        (Error::Unauthorized, 401),
        (Error::BelowMinimumTopup, 402),
        (Error::Forbidden, 403),
        (Error::NotFound, 404),
        (Error::IntervalNotElapsed, 1001),
        (Error::NotActive, 1002),
        (Error::InsufficientBalance, 1003),
        (Error::InvalidAmount, 1006),
        (Error::Replay, 1007),
        (Error::Overflow, 1010),
        (Error::LifetimeCapReached, 1012),
        (Error::SubscriptionLimitReached, 1013),
        (Error::SubscriptionExpired, 1014),
        (Error::InvalidInput, 1015),
        (Error::CreditLimitExceeded, 1016),
    ];
    for (error, code) in codes {
        assert_eq!(error.to_code(), code);
    }
}

#[test]
fn a_new_subscription_starts_active_and_empty() {
    let (mut addresses, mut vault, token, _) = setup_test_env();
    let subscriber = addresses.generate();
    let merchant = addresses.generate();
    vault.set_timestamp(55);
    let id = vault
        .create_subscription(subscriber, merchant, AMOUNT, INTERVAL, true, Some(7), Some(99))
        .unwrap();
    assert_eq!(id, 0);
    assert_eq!(vault.next_id(), 1);
    let subscription = vault.get_subscription(id).unwrap();
    assert_eq!(subscription.subscriber, subscriber);
    assert_eq!(subscription.merchant, merchant);
    assert_eq!(subscription.token, token);
    assert_eq!(subscription.amount, AMOUNT);
    assert_eq!(subscription.interval_seconds, INTERVAL);
    assert_eq!(subscription.last_payment_timestamp, 55);
    assert_eq!(subscription.status, SubscriptionStatus::Active);
    assert_eq!(subscription.prepaid_balance, 0);
    assert!(subscription.usage_enabled);
    assert_eq!(subscription.lifetime_cap, Some(7));
    assert_eq!(subscription.lifetime_charged, 0);
    assert_eq!(subscription.start_time, 55);
    assert_eq!(subscription.expires_at, Some(99));
    assert_eq!(subscription.grace_start_timestamp, None);
    assert_eq!(
        vault.events().last(),
        Some(&Event::SubscriptionCreated {
            subscription_id: 0,
            subscriber,
            merchant,
            token,
            amount: AMOUNT,
            interval_seconds: INTERVAL,
            lifetime_cap: Some(7),
            expires_at: Some(99),
            timestamp: 55,
        })
    );
    assert_eq!(vault.events().last().unwrap().topic(), "created");
}

#[test]
fn creation_is_refused_for_a_reason() {
    let (mut addresses, mut vault, _, _) = setup_test_env();
    let subscriber = addresses.generate();
    let merchant = addresses.generate();
    assert_eq!(
        vault.create_subscription(subscriber, merchant, 0, INTERVAL, false, None, None),
        refused(Error::InvalidAmount)
    );
    assert_eq!(
        vault.create_subscription(subscriber, merchant, 1, INTERVAL, false, Some(0), None),
        refused(Error::InvalidAmount)
    );
    vault.set_signers(Signers::Only(merchant));
    assert_eq!(
        vault.create_subscription(subscriber, merchant, 1, INTERVAL, false, None, None),
        Err(Failure::Abort)
    );
    vault.set_signers(Signers::Everyone);
    seed_counter(&mut vault, MAX_SUBSCRIPTION_ID);
    assert_eq!(
        vault.create_subscription(subscriber, merchant, 1, INTERVAL, false, None, None),
        refused(Error::SubscriptionLimitReached)
    );
    assert!(vault.events().is_empty());
}

#[test]
fn a_credit_limit_counts_what_is_open() {
    let (mut addresses, mut vault, token, admin) = setup_test_env();
    let subscriber = addresses.generate();
    let merchant = addresses.generate();
    assert_eq!(vault.set_subscriber_credit_limit(admin, subscriber, token, 100), Ok(()));
    let first = vault
        .create_subscription(subscriber, merchant, 60, INTERVAL, false, None, None)
        .unwrap();
    assert_eq!(
        vault.create_subscription(subscriber, merchant, 41, INTERVAL, false, None, None),
        refused(Error::CreditLimitExceeded)
    );
    assert!(vault
        .create_subscription(subscriber, merchant, 40, INTERVAL, false, None, None)
        .is_ok());
    assert_eq!(
        vault.create_subscription(subscriber, merchant, 1, INTERVAL, false, None, None),
        refused(Error::CreditLimitExceeded)
    );
    // Another subscriber is not held to it.
    assert!(vault
        .create_subscription(merchant, subscriber, 1_000, INTERVAL, false, None, None)
        .is_ok());
    vault.cancel_subscription(first, subscriber).unwrap();
    assert!(vault
        .create_subscription(subscriber, merchant, 60, INTERVAL, false, None, None)
        .is_ok());
    assert_eq!(vault.set_subscriber_credit_limit(admin, subscriber, token, 0), Ok(()));
    assert!(vault
        .create_subscription(subscriber, merchant, 60, INTERVAL, false, None, None)
        .is_ok());
}

#[test]
fn the_scan_guard_needs_a_credit_limit() {
    let (mut addresses, mut vault, token, admin) = setup_test_env();
    let subscriber = addresses.generate();
    let merchant = addresses.generate();
    seed_counter(&mut vault, MAX_WRITE_PATH_SCAN_DEPTH + 1);
    assert!(vault
        .create_subscription(subscriber, merchant, 100, INTERVAL, false, None, None)
        .is_ok());
    seed_counter(&mut vault, MAX_WRITE_PATH_SCAN_DEPTH);
    assert_eq!(vault.set_subscriber_credit_limit(admin, subscriber, token, 1000), Ok(()));
    assert!(vault
        .create_subscription(subscriber, merchant, 100, INTERVAL, false, None, None)
        .is_ok());
}

#[test]
fn plans_set_the_terms() {
    let (mut addresses, mut vault, token, _) = setup_test_env();
    let merchant = addresses.generate();
    let subscriber = addresses.generate();
    assert_eq!(
        vault.create_plan_template(merchant, 0, INTERVAL, true, None),
        refused(Error::InvalidAmount)
    );
    let plan = vault
        .create_plan_template(merchant, 500, 60, true, Some(5_000))
        .unwrap();
    assert_eq!(plan, 0);
    assert_eq!(
        vault.events().last(),
        Some(&Event::PlanTemplateCreated {
            plan_template_id: 0,
            merchant,
            token,
            amount: 500,
            interval_seconds: 60,
            usage_enabled: true,
            lifetime_cap: Some(5_000),
            timestamp: 0,
        })
    );
    assert_eq!(vault.events().last().unwrap().topic(), "plan_created");
    assert_eq!(
        vault.create_subscription_from_plan(subscriber, 1),
        refused(Error::NotFound)
    );
    let id = vault.create_subscription_from_plan(subscriber, plan).unwrap();
    let subscription = vault.get_subscription(id).unwrap();
    assert_eq!(subscription.merchant, merchant);
    assert_eq!(subscription.amount, 500);
    assert_eq!(subscription.interval_seconds, 60);
    assert!(subscription.usage_enabled);
    assert_eq!(subscription.lifetime_cap, Some(5_000));
    assert_eq!(subscription.expires_at, None);
}

#[test]
fn deposits_are_refused_for_a_reason() {
    let (mut addresses, mut vault, _, _) = setup_test_env();
    let (id, subscriber, _) =
        create_test_subscription(&mut addresses, &mut vault, SubscriptionStatus::Active).unwrap();
    assert_eq!(
        vault.deposit_funds(id, subscriber, 0, PREPAID),
        refused(Error::InvalidAmount)
    );
    assert_eq!(
        vault.deposit_funds(id, subscriber, 999_999, PREPAID),
        refused(Error::BelowMinimumTopup)
    );
    assert_eq!(
        vault.deposit_funds(id, subscriber, 1_000_000, 999_999),
        Err(Failure::Token)
    );
    assert_eq!(
        vault.deposit_funds(id + 1, subscriber, 1_000_000, PREPAID),
        refused(Error::NotFound)
    );
    vault.set_signers(Signers::Nobody);
    assert_eq!(
        vault.deposit_funds(id, subscriber, 1_000_000, PREPAID),
        Err(Failure::Abort)
    );
}

#[test]
fn a_deposit_that_covers_the_next_charge_brings_a_subscription_back() {
    for status in [
        SubscriptionStatus::InsufficientBalance,
        SubscriptionStatus::GracePeriod,
    ] {
        let (mut addresses, mut vault, token, _) = setup_test_env();
        let (id, subscriber, _) =
            create_test_subscription(&mut addresses, &mut vault, status).unwrap();
        let payer = addresses.generate();
        assert_eq!(vault.deposit_funds(id, payer, AMOUNT - 1_000_000, PREPAID), Ok(()));
        assert_eq!(vault.get_subscription(id).unwrap().status, status);
        assert_eq!(
            vault.events().last(),
            Some(&Event::FundsDeposited {
                subscription_id: id,
                subscriber: payer,
                token,
                amount: AMOUNT - 1_000_000,
                new_balance: AMOUNT - 1_000_000,
                timestamp: 0,
            })
        );
        assert_eq!(vault.events().last().unwrap().topic(), "deposited");
        assert_eq!(
            vault.resume_subscription(id, subscriber),
            refused(Error::InsufficientBalance)
        );
        assert_eq!(vault.deposit_funds(id, payer, 1_000_000, PREPAID), Ok(()));
        assert_eq!(
            vault.get_subscription(id).unwrap().status,
            SubscriptionStatus::Active
        );
        assert_eq!(
            vault.events().last(),
            Some(&Event::SubscriptionRecoveryReady {
                subscription_id: id,
                subscriber,
                prepaid_balance: AMOUNT,
                required_amount: AMOUNT,
                timestamp: 0,
            })
        );
        assert_eq!(vault.events().last().unwrap().topic(), "recovery_ready");
    }
}

#[test]
fn moves_are_published_once() {
    let (mut addresses, mut vault, token, _) = setup_test_env();
    let (id, subscriber, merchant) =
        create_test_subscription(&mut addresses, &mut vault, SubscriptionStatus::Active).unwrap();
    seed_balance(&mut vault, id, PREPAID);
    let stranger = addresses.generate();
    let start = vault.events().len();
    assert_eq!(vault.pause_subscription(id, stranger), refused(Error::Forbidden));
    assert_eq!(vault.pause_subscription(id, subscriber), Ok(()));
    assert_eq!(vault.pause_subscription(id, merchant), Ok(()));
    assert_eq!(vault.resume_subscription(id, merchant), Ok(()));
    assert_eq!(vault.cancel_subscription(id, subscriber), Ok(()));
    assert_eq!(vault.cancel_subscription(id, subscriber), Ok(()));
    assert_eq!(
        vault.resume_subscription(id, subscriber),
        refused(Error::InvalidStatusTransition)
    );
    assert_eq!(vault.events().len(), start + 3);
    assert_eq!(
        vault.events()[start],
        Event::SubscriptionPaused {
            subscription_id: id,
            subscriber,
            merchant,
            authorizer: subscriber,
            timestamp: 0,
        }
    );
    assert_eq!(
        vault.events()[start + 1],
        Event::SubscriptionResumed {
            subscription_id: id,
            subscriber,
            merchant,
            authorizer: merchant,
            timestamp: 0,
        }
    );
    assert_eq!(
        vault.events()[start + 2],
        Event::SubscriptionCancelled {
            subscription_id: id,
            subscriber,
            merchant,
            token,
            authorizer: subscriber,
            refund_amount: PREPAID,
            timestamp: 0,
        }
    );
    let topics: Vec<&str> = vault.events()[start..].iter().map(|e| e.topic()).collect();
    assert_eq!(topics, vec!["sub_paused", "sub_resumed", "subscription_cancelled"]);
}

#[test]
fn a_subscriber_withdraws_after_cancelling_and_once() {
    let (mut addresses, mut vault, token, _) = setup_test_env();
    let (id, subscriber, merchant) =
        create_test_subscription(&mut addresses, &mut vault, SubscriptionStatus::Active).unwrap();
    seed_balance(&mut vault, id, PREPAID);
    assert_eq!(
        vault.withdraw_subscriber_funds(id, subscriber, HELD),
        refused(Error::InvalidStatusTransition)
    );
    vault.cancel_subscription(id, subscriber).unwrap();
    assert_eq!(
        vault.withdraw_subscriber_funds(id, merchant, HELD),
        refused(Error::Forbidden)
    );
    assert_eq!(vault.withdraw_subscriber_funds(id, subscriber, HELD), Ok(PREPAID));
    assert_eq!(
        vault.events().last(),
        Some(&Event::SubscriberWithdrawal {
            subscription_id: id,
            subscriber,
            token,
            amount: PREPAID,
            timestamp: 0,
        })
    );
    assert_eq!(vault.events().last().unwrap().topic(), "sub_withdrawn");
    assert_eq!(
        vault.withdraw_subscriber_funds(id, subscriber, HELD),
        refused(Error::InsufficientBalance)
    );
}

#[test]
fn earnings_are_paid_out_per_token() {
    let (mut addresses, mut vault, token, _) = setup_test_env();
    let merchant = addresses.generate();
    let subscriber = addresses.generate();
    let other = create_secondary_token(&mut addresses);
    assert_ne!(other, token);
    seed_merchant_balance(&mut vault, merchant, token, 100);
    seed_merchant_balance(&mut vault, merchant, other, 7);
    assert_eq!(vault.withdraw_merchant_funds(merchant, 30, HELD), Ok(()));
    assert_eq!(
        vault.events().last(),
        Some(&Event::MerchantWithdrawal {
            merchant,
            token,
            amount: 30,
            remaining_balance: 70,
            timestamp: 0,
        })
    );
    assert_eq!(vault.events().last().unwrap().topic(), "withdrawn");
    assert_eq!(
        vault.withdraw_merchant_token_funds(merchant, other, 8, HELD),
        refused(Error::InsufficientBalance)
    );
    assert_eq!(vault.withdraw_merchant_token_funds(merchant, other, 7, HELD), Ok(()));
    assert_eq!(
        vault.withdraw_merchant_funds(merchant, 0, HELD),
        refused(Error::InvalidAmount)
    );
    assert_eq!(vault.merchant_refund(merchant, subscriber, token, 70, HELD), Ok(()));
    assert_eq!(
        vault.events().last(),
        Some(&Event::MerchantRefund {
            merchant,
            subscriber,
            token,
            amount: 70,
            timestamp: 0,
        })
    );
    assert_eq!(vault.events().last().unwrap().topic(), "merchant_refund");
    assert_eq!(
        vault.merchant_refund(merchant, subscriber, token, 1, HELD),
        refused(Error::InsufficientBalance)
    );
    assert_eq!(vault.withdraw_merchant_funds(subscriber, 1, HELD), refused(Error::NotFound));
}

#[test]
fn the_admin_refunds_a_part_of_a_balance() {
    let (mut addresses, mut vault, token, admin) = setup_test_env();
    let (id, subscriber, merchant) =
        create_test_subscription(&mut addresses, &mut vault, SubscriptionStatus::Active).unwrap();
    seed_balance(&mut vault, id, 100);
    assert_eq!(
        vault.partial_refund(admin, id, merchant, 1, HELD),
        refused(Error::InvalidInput)
    );
    assert_eq!(
        vault.partial_refund(admin, id, subscriber, 101, HELD),
        refused(Error::InsufficientBalance)
    );
    assert_eq!(
        vault.partial_refund(admin, id, subscriber, -1, HELD),
        refused(Error::InvalidAmount)
    );
    assert_eq!(
        vault.partial_refund(subscriber, id, subscriber, 1, HELD),
        refused(Error::Unauthorized)
    );
    assert_eq!(vault.partial_refund(admin, id, subscriber, 60, HELD), Ok(()));
    assert_eq!(vault.get_subscription(id).unwrap().prepaid_balance, 40);
    assert_eq!(
        vault.events().last(),
        Some(&Event::PartialRefund {
            subscription_id: id,
            subscriber,
            token,
            amount: 60,
            timestamp: 0,
        })
    );
    assert_eq!(vault.events().last().unwrap().topic(), "partial_refund");
}

#[test]
fn a_recovery_is_carried_out_once() {
    let (mut addresses, mut vault, token, admin) = setup_test_env();
    let recipient = addresses.generate();
    let mut recover = |name: &str, amount: i128, held: i128| {
        vault.recover_stranded_funds(
            admin,
            token,
            recipient,
            amount,
            String::from(name),
            RecoveryReason::FailedTransfer,
            held,
        )
    };
    assert_eq!(recover("one", 0, 10), refused(Error::InvalidAmount));
    assert_eq!(recover("one", 11, 10), Err(Failure::Token));
    assert_eq!(recover("one", 10, 10), Ok(()));
    assert_eq!(recover("one", 10, 10), refused(Error::Replay));
    assert_eq!(recover("two", 5, 10), Ok(()));
    assert_eq!(
        vault.events().last(),
        Some(&Event::Recovery {
            admin,
            recipient,
            token,
            amount: 5,
            reason: RecoveryReason::FailedTransfer,
            timestamp: 0,
        })
    );
    assert_eq!(vault.events().last().unwrap().topic(), "recovery");
}

#[test]
fn the_stop_and_the_blanket_pause_are_published_when_they_change() {
    let (mut addresses, mut vault, _, admin) = setup_test_env();
    let merchant = addresses.generate();
    assert_eq!(vault.disable_emergency_stop(admin), Ok(()));
    assert_eq!(vault.enable_emergency_stop(admin), Ok(()));
    assert!(vault.config().emergency_stop);
    assert_eq!(vault.enable_emergency_stop(admin), Ok(()));
    assert_eq!(vault.disable_emergency_stop(admin), Ok(()));
    assert!(!vault.config().emergency_stop);
    assert_eq!(vault.unpause_merchant(merchant), Ok(()));
    assert_eq!(vault.pause_merchant(merchant), Ok(()));
    assert_eq!(vault.pause_merchant(merchant), Ok(()));
    assert_eq!(vault.unpause_merchant(merchant), Ok(()));
    assert_eq!(
        *vault.events(),
        vec![
            Event::EmergencyStopEnabled { admin, timestamp: 0 },
            Event::EmergencyStopDisabled { admin, timestamp: 0 },
            Event::MerchantPaused { merchant, timestamp: 0 },
            Event::MerchantUnpaused { merchant, timestamp: 0 },
        ]
    );
    let topics: Vec<&str> = vault.events().iter().map(|e| e.topic()).collect();
    assert_eq!(
        topics,
        vec![
            "emergency_stop_enabled",
            "emergency_stop_disabled",
            "merchant_paused",
            "merchant_unpaused",
        ]
    );
}

#[test]
fn a_merchant_blocks_customers_only() {
    let (mut addresses, mut vault, _, admin) = setup_test_env();
    let (_, subscriber, merchant) =
        create_test_subscription(&mut addresses, &mut vault, SubscriptionStatus::Active).unwrap();
    let stranger = addresses.generate();
    assert_eq!(
        vault.add_to_blocklist(merchant, stranger, None),
        refused(Error::Forbidden)
    );
    assert_eq!(vault.get_blocklist_reason(subscriber), refused(Error::NotFound));
    assert_eq!(
        vault.add_to_blocklist(merchant, subscriber, Some(String::from("chargebacks"))),
        Ok(())
    );
    assert_eq!(
        vault.get_blocklist_reason(subscriber),
        Ok(Some(&String::from("chargebacks")))
    );
    assert_eq!(
        vault.events().last(),
        Some(&Event::BlocklistAdded { subscriber, added_by: merchant })
    );
    assert_eq!(vault.events().last().unwrap().topic(), "blocklist_added");
    let count = vault.events().len();
    assert_eq!(vault.add_to_blocklist(admin, subscriber, None), Ok(()));
    assert_eq!(vault.events().len(), count);
    assert_eq!(
        vault.get_blocklist_reason(subscriber),
        Ok(Some(&String::from("chargebacks")))
    );
    assert_eq!(vault.add_to_blocklist(admin, stranger, None), Ok(()));
    assert_eq!(vault.get_blocklist_reason(stranger), Ok(None));
    assert_eq!(
        vault.remove_from_blocklist(merchant, subscriber),
        refused(Error::Unauthorized)
    );
    assert_eq!(vault.remove_from_blocklist(admin, subscriber), Ok(()));
    assert_eq!(
        vault.events().last(),
        Some(&Event::BlocklistRemoved { subscriber, removed_by: admin })
    );
    assert_eq!(vault.events().last().unwrap().topic(), "blocklist_removed");
    assert_eq!(
        vault.remove_from_blocklist(admin, subscriber),
        refused(Error::NotFound)
    );
}

#[test]
fn tokens_limits_and_prices_are_set() {
    let (mut addresses, mut vault, token, admin) = setup_test_env();
    let (id, subscriber, merchant) =
        create_test_subscription(&mut addresses, &mut vault, SubscriptionStatus::Active).unwrap();
    let other = addresses.generate();
    assert_eq!(
        vault.remove_accepted_token(admin, other),
        refused(Error::NotFound)
    );
    assert_eq!(vault.add_accepted_token(admin, other, 7), Ok(()));
    assert_eq!(vault.remove_accepted_token(admin, other), Ok(()));
    assert_eq!(vault.remove_accepted_token(admin, token), Ok(()));
    assert_eq!(vault.set_oracle_config(admin, true, Some(other), 60), Ok(()));
    assert_eq!(vault.config().oracle.oracle, Some(other));
    assert_eq!(vault.config().oracle.max_age_seconds, 60);
    assert_eq!(
        vault.configure_usage_limits(merchant, id, None, 1, 2, Some(3)),
        Ok(())
    );
    assert_eq!(
        vault.configure_usage_limits(subscriber, id, None, 1, 2, Some(3)),
        refused(Error::Forbidden)
    );
    assert_eq!(
        vault.configure_usage_limits(merchant, id + 1, None, 1, 2, Some(3)),
        refused(Error::NotFound)
    );
}

#[test]
fn exports_show_what_is_stored() {
    let (mut addresses, mut vault, token, admin) = setup_test_env();
    for _ in 0..3 {
        create_test_subscription(&mut addresses, &mut vault, SubscriptionStatus::Active).unwrap();
    }
    vault.set_timestamp(9);
    let snapshot = vault.export_contract_snapshot(admin).unwrap();
    assert_eq!(snapshot.admin, admin);
    assert_eq!(snapshot.token, token);
    assert_eq!(snapshot.min_topup, 1_000_000);
    assert_eq!(snapshot.next_id, 3);
    assert_eq!(snapshot.timestamp, 9);
    let one = vault.export_subscription_summary(admin, 1).unwrap();
    assert_eq!(one.subscription, vault.get_subscription(1).unwrap());
    assert_eq!(
        vault.export_subscription_summary(admin, 3),
        refused(Error::NotFound)
    );
    let page = vault.export_subscription_summaries(admin, 1, 5).unwrap();
    let ids: Vec<u32> = page.iter().map(|s| s.subscription_id).collect();
    assert_eq!(ids, vec![1, 2]);
    assert!(vault.export_subscription_summaries(admin, 3, 5).unwrap().is_empty());
    assert_eq!(
        vault.export_subscription_summaries(admin, 0, 0),
        refused(Error::InvalidInput)
    );
    assert_eq!(
        vault.export_subscription_summaries(admin, 0, 101),
        refused(Error::InvalidInput)
    );
}

#[test]
fn the_admin_hands_over() {
    let (mut addresses, mut vault, _, admin) = setup_test_env();
    let successor = addresses.generate();
    vault.set_timestamp(3);
    assert_eq!(
        vault.rotate_admin(successor, admin),
        refused(Error::Unauthorized)
    );
    assert_eq!(vault.rotate_admin(admin, successor), Ok(()));
    assert_eq!(
        vault.events().last(),
        Some(&Event::AdminRotated {
            old_admin: admin,
            new_admin: successor,
            timestamp: 3,
        })
    );
    assert_eq!(vault.events().last().unwrap().topic(), "admin_rotated");
    assert_eq!(vault.config().admin, successor);
    assert_eq!(vault.rotate_admin(admin, admin), refused(Error::Unauthorized));
    assert_eq!(vault.rotate_admin(successor, admin), Ok(()));
}

#[test]
fn metadata_is_read_back_and_its_value_is_not_published() {
    let (mut addresses, mut vault, _, _) = setup_test_env();
    let (id, subscriber, merchant) =
        create_test_subscription(&mut addresses, &mut vault, SubscriptionStatus::Active).unwrap();
    let stranger = addresses.generate();
    let key = || String::from("invoice");
    assert_eq!(
        vault.set_metadata(id, stranger, key(), String::from("x")),
        refused(Error::Forbidden)
    );
    assert_eq!(
        vault.set_metadata(id + 1, merchant, key(), String::from("x")),
        refused(Error::NotFound)
    );
    assert_eq!(vault.get_metadata(id, &key()), refused(Error::NotFound));
    assert_eq!(
        vault.set_metadata(id, merchant, key(), String::from("first")),
        Ok(())
    );
    assert_eq!(
        vault.set_metadata(id, merchant, String::from("other"), String::from("kept")),
        Ok(())
    );
    assert_eq!(
        vault.set_metadata(id, subscriber, key(), String::from("secret-value")),
        Ok(())
    );
    assert_eq!(vault.get_metadata(id, &key()), Ok(&String::from("secret-value")));
    assert_eq!(
        vault.events().last(),
        Some(&Event::MetadataSet {
            subscription_id: id,
            key: key(),
            authorizer: subscriber,
        })
    );
    assert_eq!(vault.events().last().unwrap().topic(), "metadata_set");
    assert!(!format!("{:?}", vault.events()).contains("secret-value"));
    assert_eq!(vault.delete_metadata(id, merchant, key()), Ok(()));
    assert_eq!(
        vault.events().last(),
        Some(&Event::MetadataDeleted {
            subscription_id: id,
            key: key(),
            authorizer: merchant,
        })
    );
    assert_eq!(vault.events().last().unwrap().topic(), "metadata_deleted");
    assert_eq!(vault.delete_metadata(id, merchant, key()), refused(Error::NotFound));
    assert_eq!(vault.get_metadata(id, &key()), refused(Error::NotFound));
    assert_eq!(
        vault.get_metadata(id, &String::from("other")),
        Ok(&String::from("kept"))
    );
}

#[test]
fn an_oracle_starts_at_zero_and_keeps_the_last_price() {
    let mut oracle = MockOracle::new();
    assert_eq!(oracle.latest_price(), OraclePrice { price: 0, timestamp: 0 });
    oracle.set_price(42, 7);
    oracle.set_price(-1, 8);
    assert_eq!(oracle.latest_price(), OraclePrice { price: -1, timestamp: 8 });
}

#[test]
fn tokens_are_minted_to_whom_they_belong() {
    let (mut addresses, vault, token, admin) = setup_test_env();
    let mut holdings = AmountBook::new();
    let recipient = addresses.generate();
    let other = create_token_and_mint(&mut addresses, &mut holdings, recipient, 500);
    assert_ne!(other, token);
    assert_eq!(holdings.get(recipient, other), Some(500));
    assert_eq!(holdings.get(admin, other), None);
    assert_eq!(holdings.get(recipient, token), None);
    let mock = create_mock_sub(&mut addresses, &vault, recipient, other);
    assert_eq!(mock.subscriber, recipient);
    assert_eq!(mock.amount, 10_000);
    assert_eq!(mock.interval_seconds, 2_592_000);
    let (second, second_token, second_admin) = setup_contract(&mut addresses);
    assert_ne!(second_token, token);
    assert_ne!(second_admin, admin);
    assert_eq!(second.config().grace_period, 604_800);
}

/// What the requests below bring in, less what they pay out, is what the vault owes in the end.
#[test]
fn requests_conserve_money() {
    let (mut addresses, mut vault, token, admin) = setup_test_env();
    let subscriber = addresses.generate();
    let merchant = addresses.generate();
    let treasury = addresses.generate();
    let terms = SubscriptionTerms {
        subscriber,
        merchant,
        token: Address { id: 0 },
        amount: AMOUNT,
        interval_seconds: INTERVAL,
        usage_enabled: false,
        lifetime_cap: None,
        expires_at: None,
    };
    assert_eq!(vault.serve(Request::CreateSubscription { terms }), Ok(()));
    assert_eq!(
        vault.serve(Request::SetProtocolFee { admin, treasury, fee_bps: 123 }),
        Ok(())
    );
    assert_eq!(
        vault.serve(Request::DepositFunds { id: 0, payer: merchant, amount: PREPAID, wallet: PREPAID }),
        Ok(())
    );
    vault.set_timestamp(INTERVAL);
    assert_eq!(vault.serve(Request::ChargeSubscription { id: 0 }), Ok(()));
    assert_eq!(
        vault.serve(Request::ChargeSubscription { id: 0 }),
        refused(Error::IntervalNotElapsed)
    );
    assert_eq!(
        vault.serve(Request::ChargeOneOff { id: 0, merchant, amount: 77 }),
        Ok(())
    );
    assert_eq!(
        vault.serve(Request::PartialRefund { admin, id: 0, subscriber, amount: 1_000, held: HELD }),
        Ok(())
    );
    assert_eq!(
        vault.serve(Request::CancelSubscription { id: 0, authorizer: merchant }),
        Ok(())
    );
    assert_eq!(vault.get_subscription(0).unwrap().token, token);
    let balance = vault.get_subscription(0).unwrap().prepaid_balance;
    let fee = 123_000;
    assert_eq!(balance, PREPAID - AMOUNT - 77 - 1_000);
    // Everything that is left can be paid out, and nothing more.
    assert_eq!(vault.withdraw_subscriber_funds(0, subscriber, HELD), Ok(balance));
    assert_eq!(vault.withdraw_merchant_funds(merchant, AMOUNT - fee + 77, HELD), Ok(()));
    assert_eq!(vault.withdraw_merchant_token_funds(treasury, token, fee, HELD), Ok(()));
    assert_eq!(
        vault.withdraw_merchant_funds(merchant, 1, HELD),
        refused(Error::InsufficientBalance)
    );
    assert_eq!(
        vault.withdraw_merchant_token_funds(treasury, token, 1, HELD),
        refused(Error::InsufficientBalance)
    );
}

/// A refused request leaves no trace.
#[test]
fn refused_requests_change_nothing() {
    let (mut addresses, mut vault, _, admin) = setup_test_env();
    let (id, _, _) =
        create_test_subscription(&mut addresses, &mut vault, SubscriptionStatus::Active).unwrap();
    let stranger = addresses.generate();
    let before = vault.get_subscription(id).unwrap();
    let config = vault.config();
    let events = vault.events().len();
    assert!(vault.serve(Request::RotateAdmin { admin: stranger, new_admin: stranger }).is_err());
    assert!(vault.serve(Request::CancelSubscription { id, authorizer: stranger }).is_err());
    assert!(vault.serve(Request::ExportContractSnapshot { admin: stranger }).is_err());
    vault.set_signers(Signers::Nobody);
    assert_eq!(
        vault.serve(Request::EnableEmergencyStop { admin }),
        Err(Failure::Abort)
    );
    assert_eq!(vault.get_subscription(id).unwrap(), before);
    assert_eq!(vault.config(), config);
    assert_eq!(vault.events().len(), events);
}

/// The vault pays no more than it holds.
#[test]
fn payouts_need_tokens() {
    let (mut addresses, mut vault, token, admin) = setup_test_env();
    let (id, subscriber, merchant) =
        create_test_subscription(&mut addresses, &mut vault, SubscriptionStatus::Active).unwrap();
    seed_balance(&mut vault, id, 100);
    seed_merchant_balance(&mut vault, merchant, token, 100);
    assert_eq!(vault.withdraw_merchant_funds(merchant, 100, 99), Err(Failure::Token));
    assert_eq!(
        vault.withdraw_merchant_token_funds(merchant, token, 100, 99),
        Err(Failure::Token)
    );
    assert_eq!(
        vault.merchant_refund(merchant, subscriber, token, 100, 99),
        Err(Failure::Token)
    );
    assert_eq!(
        vault.partial_refund(admin, id, subscriber, 100, 99),
        Err(Failure::Token)
    );
    vault.cancel_subscription(id, subscriber).unwrap();
    assert_eq!(
        vault.withdraw_subscriber_funds(id, subscriber, 99),
        Err(Failure::Token)
    );
    assert_eq!(vault.withdraw_subscriber_funds(id, subscriber, 100), Ok(100));
    assert_eq!(vault.withdraw_merchant_funds(merchant, 100, 100), Ok(()));
}

#[test]
fn every_new_account_is_another_one() {
    let (mut addresses, mut vault, token, admin) = setup_test_env();
    let one = create_mock_sub(&mut addresses, &vault, admin, token);
    let two = create_mock_sub(&mut addresses, &vault, admin, token);
    assert_ne!(one.merchant, two.merchant);
    let (_, subscriber, merchant) =
        create_test_subscription(&mut addresses, &mut vault, SubscriptionStatus::Active).unwrap();
    assert_ne!(subscriber, merchant);
    assert_ne!(merchant, two.merchant);
    inject_subscriptions(&mut addresses, &mut vault, 3, subscriber, token);
    let merchants: Vec<Address> = (1..4)
        .map(|id| vault.get_subscription(id).unwrap().merchant)
        .collect();
    assert_ne!(merchants[0], merchants[1]);
    assert_ne!(merchants[1], merchants[2]);
    assert_ne!(merchants[0], merchants[2]);
}

/// A recovery stays a replay, whoever is admin by then.
#[test]
fn a_recovery_is_not_repeated_by_a_later_admin() {
    let (mut addresses, mut vault, token, admin) = setup_test_env();
    let successor = addresses.generate();
    let recover = |by: Address| Request::RecoverStrandedFunds {
        admin: by,
        token,
        recipient: by,
        amount: 1,
        recovery_id: String::from("once"),
        reason: RecoveryReason::SystemCorrection,
        held: 5,
    };
    assert_eq!(vault.serve(recover(admin)), Ok(()));
    assert_eq!(vault.rotate_admin(admin, successor), Ok(()));
    assert_eq!(vault.serve(recover(admin)), refused(Error::Unauthorized));
    assert_eq!(vault.serve(recover(successor)), refused(Error::Replay));
}
