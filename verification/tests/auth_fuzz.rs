//! Every operation in every role.

use soroban_sdk::testutils::Address as _;
use subscription_vault::address::{Address, AddressGenerator};
use subscription_vault::error::{Error, Failure, Reply, Signers};
use subscription_vault::harness::{describe_reply, FuzzHarness};
use subscription_vault::host::host_list_of;
use subscription_vault::policy::{assert_auth_debug, assert_try_forbidden, assert_try_unauthorized};
use subscription_vault::roles::{Operation, Role};
use subscription_vault::status::SubscriptionStatus;
use subscription_vault::types::{CompactionSummary, RecoveryReason, Subscription, SubscriptionSummary};
use subscription_vault::vault::SubscriptionVault;
use subscription_vault::wording::{write_number, write_summaries, write_summary};

const EXPECTED_STORAGE_VERSION: u32 = 2;

/// The text of a reply, whatever it carries.
fn text<T: std::fmt::Debug>(reply: Reply<T>) -> String {
    describe_reply(&match reply {
        Ok(value) => Ok(format!("{value:?}")),
        Err(failure) => Err(failure),
    })
}

/// The text of a value, with the host's own texts for the first accounts that it hands out.
fn in_the_host<T: std::fmt::Debug>(value: T) -> String {
    let env = soroban_sdk::Env::default();
    let mut text = format!("{value:?}");
    for id in 1..=10u64 {
        let account = soroban_sdk::Address::generate(&env);
        text = text.replace(&format!("Address {{ id: {id} }}"), &format!("{account:?}"));
    }
    text
}

/// What a client prints of a successful call.
fn printed<T: std::fmt::Debug>(value: T) -> String {
    let reply: Result<Result<T, Error>, Failure> = Ok(Ok(value));
    in_the_host(reply)
}

#[test]
fn test_authorization_matrix_fuzz() {
    for &op in Operation::all() {
        for &role in Role::all() {
            let mut harness = FuzzHarness::setup();
            let address = harness.get_address(role);
            let expected_allowed = harness.is_allowed(op, role);
            let have = harness.try_debug(op, address, expected_allowed);
            if expected_allowed {
                assert!(
                    assert_auth_debug(true, &have, Error::Unauthorized, op, role),
                    "expected success for op={op:?} role={role:?} have={have}"
                );
            } else {
                let want = FuzzHarness::expected_error_when_denied(op, role);
                assert!(
                    assert_auth_debug(false, &have, want, op, role),
                    "expected {want:?} for op={op:?} role={role:?} have={have}"
                );
            }
        }
    }
}

#[test]
fn test_privileged_rejected_after_admin_rotation() {
    let mut h = FuzzHarness::setup();
    h.vault.set_signers(Signers::Everyone);
    assert!(h.vault.rotate_admin(h.admin, h.new_admin).is_ok());
    let old = h.admin;
    let treasury = h.new_admin;
    let recipient = h.addresses.generate();
    let held = 100_000_000;
    assert!(text(h.vault.export_contract_snapshot(h.new_admin)).contains("Ok(Ok("));
    assert!(assert_try_unauthorized(&text(h.vault.set_min_topup(old, 3_000_000))));
    assert!(assert_try_forbidden(&text(h.vault.set_protocol_fee(old, treasury, 0))));
    assert!(assert_try_forbidden(&text(
        h.vault.add_to_blocklist(old, h.blocklist_victim, None)
    )));
    assert!(assert_try_unauthorized(&text(h.vault.recover_stranded_funds(
        old,
        h.token,
        recipient,
        1,
        String::from("rotation-recovery-1"),
        RecoveryReason::UserOverpayment,
        held,
    ))));
    assert!(assert_try_unauthorized(&text(h.vault.export_contract_snapshot(old))));
    assert!(assert_try_unauthorized(&text(
        h.vault.export_subscription_summary(old, h.subscription_id)
    )));
    assert!(assert_try_unauthorized(&text(
        h.vault.export_subscription_summaries(old, 0, 1)
    )));
    assert!(assert_try_unauthorized(&text(h.vault.set_billing_retention(old, 3))));
    assert!(assert_try_unauthorized(&text(
        h.vault.set_oracle_config(old, false, None, 0)
    )));
}

#[test]
fn test_export_contract_snapshot_includes_storage_version() {
    let mut h = FuzzHarness::setup();
    h.vault.set_signers(Signers::Everyone);
    let snap = match h.vault.export_contract_snapshot(h.admin) {
        Ok(s) => s,
        o => panic!("export_contract_snapshot as admin: {o:?}"),
    };
    assert_eq!(snap.storage_version, EXPECTED_STORAGE_VERSION);
}

#[test]
fn test_admin_rotation_edge_case() {
    let mut harness = FuzzHarness::setup();
    let old_admin = harness.admin;
    let new_admin = harness.new_admin;

    harness.vault.set_signers(Signers::Everyone);
    assert!(harness.vault.rotate_admin(old_admin, new_admin).is_ok());

    assert!(assert_try_unauthorized(&text(
        harness.vault.set_min_topup(old_admin, 3_000_000)
    )));
    let res_new = text(harness.vault.set_min_topup(new_admin, 4_000_000));
    assert!(res_new.contains("Ok(Ok("));
    assert_eq!(harness.vault.config().min_topup, 4_000_000);
}

#[test]
fn test_identity_collision_subscriber_is_merchant() {
    let mut addresses = AddressGenerator::new();
    let admin = addresses.generate();
    let person = addresses.generate();
    let token = addresses.generate();

    let mut vault = SubscriptionVault::init(token, 6, admin, 1_000_000, 7 * 24 * 60 * 60);

    let plan_id = vault
        .create_plan_template(person, 10_000_000, 2592000, false, None)
        .unwrap();
    let sub_id = vault.create_subscription_from_plan(person, plan_id).unwrap();

    vault.pause_subscription(sub_id, person).unwrap();

    let sub = vault.get_subscription(sub_id).unwrap();
    assert_eq!(sub.status, SubscriptionStatus::Paused);
}

/// The replies to every operation in every role, word for word.
#[test]
fn denied_operations_are_answered_in_their_own_way() {
    for &op in Operation::all() {
        for &role in Role::all() {
            let mut harness = FuzzHarness::setup();
            let address = harness.get_address(role);
            let allowed = harness.is_allowed(op, role);
            let reply = harness.try_operation(op, address, allowed);
            let expected: Reply<()> = if allowed {
                Ok(())
            } else {
                Err(match op {
                    Operation::BatchCharge
                    | Operation::PauseMerchant
                    | Operation::UnpauseMerchant => Failure::Abort,
                    Operation::DepositFunds => Failure::Token,
                    Operation::WithdrawMerchantFunds
                    | Operation::WithdrawMerchantTokenFunds
                    | Operation::MerchantRefund => Failure::Contract(Error::NotFound),
                    _ => Failure::Contract(FuzzHarness::expected_error_when_denied(op, role)),
                })
            };
            assert_eq!(reply, expected, "op={op:?} role={role:?}");
        }
    }
}

#[test]
fn roles_and_operations_are_all_there() {
    assert_eq!(Role::all().len(), 4);
    assert_eq!(Operation::all().len(), 31);
    assert_eq!(Operation::all()[0], Operation::SetMinTopup);
    assert_eq!(Operation::all()[30], Operation::RemoveFromBlocklist);
}

#[test]
fn a_denial_is_told_from_a_success() {
    assert!(assert_auth_debug(
        true,
        "Ok(Ok(()))",
        Error::Unauthorized,
        Operation::SetMinTopup,
        Role::Admin
    ));
    assert!(!assert_auth_debug(
        true,
        "Err(Ok(Unauthorized))",
        Error::Unauthorized,
        Operation::SetMinTopup,
        Role::Admin
    ));
    assert!(!assert_auth_debug(
        false,
        "Ok(Ok(()))",
        Error::Unauthorized,
        Operation::SetMinTopup,
        Role::Stranger
    ));
    assert!(assert_auth_debug(
        false,
        "Err(Err(Abort))",
        Error::Unauthorized,
        Operation::BatchCharge,
        Role::Stranger
    ));
    assert!(!assert_auth_debug(
        false,
        "Err(Err(Abort))",
        Error::Unauthorized,
        Operation::SetMinTopup,
        Role::Stranger
    ));
    assert!(assert_auth_debug(
        false,
        "Err(Err(Contract(10)))",
        Error::Unauthorized,
        Operation::DepositFunds,
        Role::Stranger
    ));
    assert!(assert_auth_debug(
        false,
        "Err(Ok(NotFound))",
        Error::Unauthorized,
        Operation::MerchantRefund,
        Role::Stranger
    ));
    assert!(!assert_auth_debug(
        false,
        "Err(Ok(NotFound))",
        Error::Forbidden,
        Operation::AddToBlocklist,
        Role::Merchant
    ));
}

/// What an operation hands back stands in the text of the reply, word for word.
#[test]
fn the_text_of_a_reply_shows_what_was_handed_back() {
    let h = FuzzHarness::setup();
    let admin = h.admin;
    let try_as_admin = |op| FuzzHarness::setup().try_debug(op, admin, true);
    assert_eq!(try_as_admin(Operation::SetMinTopup), "Ok(Ok(()))");
    assert_eq!(
        try_as_admin(Operation::ExportContractSnapshot),
        printed(h.vault.export_contract_snapshot(admin).unwrap())
    );
    assert_eq!(
        try_as_admin(Operation::ExportSubscriptionSummary),
        printed(h.vault.export_subscription_summary(admin, 0).unwrap())
    );
    assert_eq!(
        try_as_admin(Operation::ExportSubscriptionSummaries),
        format!(
            "Ok(Ok(Vec(Ok({}))))",
            in_the_host(h.vault.export_subscription_summary(admin, 0).unwrap())
        )
    );
    assert_eq!(
        try_as_admin(Operation::CompactBillingStatements),
        printed(CompactionSummary { pruned: 0, kept: 0 })
    );
    assert_eq!(
        try_as_admin(Operation::BatchCharge),
        "Ok(Ok(Vec(Ok(BatchChargeResult { success: false, error_code: 1001 }))))"
    );
    let subscriber = h.subscriber;
    assert_eq!(
        FuzzHarness::setup().try_debug(Operation::WithdrawSubscriberFunds, subscriber, true),
        "Ok(Ok(10000000))"
    );
}

#[test]
fn records_are_written_out_field_by_field() {
    let env = soroban_sdk::Env::default();
    let account = Address { id: 7 };
    let subscription = Subscription {
        subscriber: account,
        merchant: account,
        token: account,
        amount: i128::MIN,
        interval_seconds: u64::MAX,
        last_payment_timestamp: 10,
        status: SubscriptionStatus::GracePeriod,
        prepaid_balance: -100,
        usage_enabled: true,
        lifetime_cap: Some(i128::MAX),
        lifetime_charged: 0,
        start_time: 9,
        expires_at: Some(99),
        grace_start_timestamp: None,
    };
    for status in [
        SubscriptionStatus::Active,
        SubscriptionStatus::Paused,
        SubscriptionStatus::Cancelled,
        SubscriptionStatus::InsufficientBalance,
        SubscriptionStatus::Expired,
        SubscriptionStatus::Archived,
    ] {
        let summary = SubscriptionSummary {
            subscription_id: 1,
            subscription: Subscription { status, ..subscription },
        };
        assert_eq!(write_summary(&env, &summary), in_the_host(summary));
    }
    let one = SubscriptionSummary { subscription_id: 1, subscription };
    let two = SubscriptionSummary { subscription_id: 2, subscription };
    let (first, second) = (in_the_host(one), in_the_host(two));
    assert_eq!(write_summaries(&env, &vec![]), "Vec()");
    assert_eq!(write_summaries(&env, &vec![one]), format!("Vec(Ok({first}))"));
    assert_eq!(write_summaries(&env, &vec![one, two]), format!("Vec(Ok({first}), Ok({second}))"));
    assert_eq!(format!("{:?}", host_list_of(&env, &[1, 2])), "Vec(Ok(1), Ok(2))");
    for n in [0, 9, 10, 1_234_567_890, -1, i128::MAX, i128::MIN] {
        assert_eq!(write_number(n), format!("{n}"));
    }
}

/// Where a batch is denied, nobody's signature counts, not even the admin's.
#[test]
fn a_denied_batch_goes_without_any_signature() {
    let mut h = FuzzHarness::setup();
    let admin = h.admin;
    assert_eq!(h.try_debug(Operation::BatchCharge, admin, false), "Err(Err(Abort))");
    assert_eq!(
        h.try_operation(Operation::BatchCharge, admin, true),
        Ok(())
    );
}

#[test]
fn a_rotation_shows_in_later_tries() {
    let mut h = FuzzHarness::setup();
    let (old, new) = (h.admin, h.new_admin);
    assert_eq!(h.try_debug(Operation::RotateAdmin, old, true), "Ok(Ok(()))");
    let denied = h.try_debug(Operation::SetMinTopup, old, false);
    let allowed = h.try_debug(Operation::SetMinTopup, new, true);
    assert!(denied.contains("Unauthorized"));
    assert!(allowed.contains("Ok(Ok("));
}

/// Tokens move with the tries: a payer runs out of them, and a withdrawal brings them back.
#[test]
fn tokens_move_with_the_tries() {
    let mut h = FuzzHarness::setup();
    let (merchant, contract, token) = (h.merchant, h.contract, h.token);
    for round in 1..=20 {
        assert_eq!(h.try_operation(Operation::DepositFunds, merchant, true), Ok(()));
        assert_eq!(h.holdings.get(merchant, token), Some(100_000_000 - round * 5_000_000));
        assert_eq!(h.holdings.get(contract, token), Some(100_000_000 + round * 5_000_000));
    }
    assert_eq!(
        h.try_operation(Operation::DepositFunds, merchant, true),
        Err(Failure::Token)
    );

    let mut h = FuzzHarness::setup();
    assert_eq!(
        h.try_operation(Operation::WithdrawMerchantFunds, merchant, true),
        Ok(())
    );
    assert_eq!(h.holdings.get(merchant, token), Some(101_000_000));
    assert_eq!(h.holdings.get(h.subscriber, token), Some(950_000_000));
    assert_eq!(h.holdings.get(contract, token), Some(149_000_000));

    let mut h = FuzzHarness::setup();
    let subscriber = h.subscriber;
    assert_eq!(
        h.try_operation(Operation::WithdrawSubscriberFunds, subscriber, true),
        Ok(())
    );
    assert_eq!(h.holdings.get(subscriber, token), Some(1_000_000_000));
    assert_eq!(h.holdings.get(contract, token), Some(100_000_000));

    let mut h = FuzzHarness::setup();
    let admin = h.admin;
    assert_eq!(h.try_operation(Operation::PartialRefund, admin, true), Ok(()));
    assert_eq!(h.holdings.get(subscriber, token), Some(951_000_000));
    assert_eq!(
        h.try_operation(Operation::RecoverStrandedFunds, admin, true),
        Ok(())
    );
    assert_eq!(h.holdings.get(contract, token), Some(148_999_999));
}
