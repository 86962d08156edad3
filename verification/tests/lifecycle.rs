//! The state machine, and the life of subscriptions under it.

use subscription_vault::address::{Address, AddressGenerator};
use subscription_vault::error::{Error, Failure, Reply};
use subscription_vault::fixtures::{
    create_test_subscription, patch_status, seed_balance, setup_test_env, AMOUNT, INTERVAL, PREPAID,
};
use subscription_vault::status::{
    can_transition, get_allowed_transitions, manual_can_transition, validate_status_transition,
    SubscriptionStatus,
};
use subscription_vault::types::ChargeExecutionResult;
use subscription_vault::vault::SubscriptionVault;
use subscription_vault::walk::{
    lcg_next, lifecycle_action_target, random_lifecycle_action, random_transition_action,
    transition_action_target, LifecycleAction,
};

const T0: u64 = 1_000;

const ALL_STATUSES: &[SubscriptionStatus] = &[
    SubscriptionStatus::Active,
    SubscriptionStatus::Paused,
    SubscriptionStatus::Cancelled,
    SubscriptionStatus::InsufficientBalance,
    SubscriptionStatus::GracePeriod,
];

/// What a client sees of a reply: the value, or a panic that names the error code.
fn call<T>(reply: Reply<T>) -> T {
    match reply {
        Ok(value) => value,
        Err(Failure::Contract(error)) => panic!("Error(Contract, #{})", error.to_code()),
        Err(failure) => panic!("{:?}", failure),
    }
}

fn create_subscription_detailed(
    addresses: &mut AddressGenerator,
    vault: &mut SubscriptionVault,
    amount: i128,
    interval: u64,
) -> (u32, Address, Address) {
    let subscriber = addresses.generate();
    let merchant = addresses.generate();
    let id = call(vault.create_subscription(
        subscriber, merchant, amount, interval, false, None, None,
    ));
    (id, subscriber, merchant)
}

fn assert_status(vault: &SubscriptionVault, id: u32, status: SubscriptionStatus) {
    assert_eq!(call(vault.get_subscription(id)).status, status);
}

#[test]
fn test_validate_status_transition_same_status_is_allowed() {
    assert!(
        validate_status_transition(&SubscriptionStatus::Active, &SubscriptionStatus::Active)
            .is_ok()
    );
    assert!(
        validate_status_transition(&SubscriptionStatus::Paused, &SubscriptionStatus::Paused)
            .is_ok()
    );
    assert!(validate_status_transition(
        &SubscriptionStatus::Cancelled,
        &SubscriptionStatus::Cancelled
    )
    .is_ok());
    assert!(validate_status_transition(
        &SubscriptionStatus::InsufficientBalance,
        &SubscriptionStatus::InsufficientBalance
    )
    .is_ok());
}

#[test]
fn test_validate_active_transitions() {
    assert!(
        validate_status_transition(&SubscriptionStatus::Active, &SubscriptionStatus::Paused)
            .is_ok()
    );
    assert!(validate_status_transition(
        &SubscriptionStatus::Active,
        &SubscriptionStatus::Cancelled
    )
    .is_ok());
    assert!(validate_status_transition(
        &SubscriptionStatus::Active,
        &SubscriptionStatus::InsufficientBalance
    )
    .is_ok());
}

#[test]
fn test_validate_paused_transitions() {
    assert!(
        validate_status_transition(&SubscriptionStatus::Paused, &SubscriptionStatus::Active)
            .is_ok()
    );
    assert!(validate_status_transition(
        &SubscriptionStatus::Paused,
        &SubscriptionStatus::Cancelled
    )
    .is_ok());
    assert_eq!(
        validate_status_transition(
            &SubscriptionStatus::Paused,
            &SubscriptionStatus::InsufficientBalance
        ),
        Err(Error::InvalidStatusTransition)
    );
}

#[test]
fn test_validate_insufficient_balance_transitions() {
    assert!(validate_status_transition(
        &SubscriptionStatus::InsufficientBalance,
        &SubscriptionStatus::Active
    )
    .is_ok());
    assert!(validate_status_transition(
        &SubscriptionStatus::InsufficientBalance,
        &SubscriptionStatus::Cancelled
    )
    .is_ok());
    assert_eq!(
        validate_status_transition(
            &SubscriptionStatus::InsufficientBalance,
            &SubscriptionStatus::Paused
        ),
        Err(Error::InvalidStatusTransition)
    );
}

#[test]
fn test_validate_cancelled_transitions_all_blocked() {
    assert_eq!(
        validate_status_transition(&SubscriptionStatus::Cancelled, &SubscriptionStatus::Active),
        Err(Error::InvalidStatusTransition)
    );
    assert_eq!(
        validate_status_transition(&SubscriptionStatus::Cancelled, &SubscriptionStatus::Paused),
        Err(Error::InvalidStatusTransition)
    );
    assert_eq!(
        validate_status_transition(
            &SubscriptionStatus::Cancelled,
            &SubscriptionStatus::InsufficientBalance
        ),
        Err(Error::InvalidStatusTransition)
    );
}

#[test]
fn test_can_transition_helper() {
    assert!(can_transition(
        &SubscriptionStatus::Active,
        &SubscriptionStatus::Paused
    ));
    assert!(can_transition(
        &SubscriptionStatus::Active,
        &SubscriptionStatus::Cancelled
    ));
    assert!(can_transition(
        &SubscriptionStatus::Paused,
        &SubscriptionStatus::Active
    ));
    assert!(!can_transition(
        &SubscriptionStatus::Cancelled,
        &SubscriptionStatus::Active
    ));
    assert!(!can_transition(
        &SubscriptionStatus::Cancelled,
        &SubscriptionStatus::Paused
    ));
    assert!(!can_transition(
        &SubscriptionStatus::Paused,
        &SubscriptionStatus::InsufficientBalance
    ));
}

#[test]
fn test_get_allowed_transitions() {
    let active_targets = get_allowed_transitions(&SubscriptionStatus::Active);
    assert!(active_targets.contains(&SubscriptionStatus::Paused));
    assert!(active_targets.contains(&SubscriptionStatus::Cancelled));
    assert!(active_targets.contains(&SubscriptionStatus::InsufficientBalance));

    let paused_targets = get_allowed_transitions(&SubscriptionStatus::Paused);
    assert_eq!(paused_targets.len(), 3);
    assert!(paused_targets.contains(&SubscriptionStatus::Active));
    assert!(paused_targets.contains(&SubscriptionStatus::Cancelled));
    assert!(paused_targets.contains(&SubscriptionStatus::Expired));

    assert_eq!(
        get_allowed_transitions(&SubscriptionStatus::Cancelled).len(),
        1
    );

    let ib_targets = get_allowed_transitions(&SubscriptionStatus::InsufficientBalance);
    assert_eq!(ib_targets.len(), 3);
}

#[test]
fn test_state_machine_property_transition_matrix_matches_manual_rules() {
    for from in ALL_STATUSES.iter() {
        let allowed = get_allowed_transitions(from);

        for to in ALL_STATUSES.iter() {
            let expected = manual_can_transition(from, to);
            assert_eq!(can_transition(from, to), expected);
            assert_eq!(validate_status_transition(from, to).is_ok(), expected);

            if from == to {
                assert!(!allowed.contains(to));
            } else {
                assert_eq!(allowed.contains(to), expected);
            }
        }
    }
}

#[test]
fn test_state_machine_property_random_transition_sequences_only_allow_legal_targets() {
    for start in ALL_STATUSES.iter() {
        for seed_base in 0..64u64 {
            let mut seed = seed_base + (start.clone() as u64) * 97;
            let mut current = start.clone();

            for _ in 0..24 {
                let action = random_transition_action(&mut seed);
                let target = transition_action_target(action);
                let expected = manual_can_transition(&current, &target);

                assert_eq!(can_transition(&current, &target), expected);
                assert_eq!(
                    validate_status_transition(&current, &target).is_ok(),
                    expected
                );

                if expected {
                    current = target;
                }
            }
        }
    }
}

#[test]
fn test_state_machine_property_lifecycle_entrypoints_follow_manual_model() {
    for start in ALL_STATUSES.iter() {
        for seed_base in 0..48u64 {
            let (mut addresses, mut vault, _token, _admin) = setup_test_env();
            let (id, subscriber, _) =
                call(create_test_subscription(&mut addresses, &mut vault, start.clone()));
            let mut expected = start.clone();
            let mut seed = seed_base + (start.clone() as u64) * 131;

            for _ in 0..12 {
                let action = random_lifecycle_action(&mut seed);
                let target = lifecycle_action_target(action);
                let should_succeed = manual_can_transition(&expected, &target);

                if action == LifecycleAction::Resume
                    && (expected == SubscriptionStatus::InsufficientBalance
                        || expected == SubscriptionStatus::GracePeriod)
                    && should_succeed
                {
                    let minted = AMOUNT;
                    call(vault.deposit_funds(id, subscriber, AMOUNT, minted));
                }

                let result = match action {
                    LifecycleAction::Pause => vault.pause_subscription(id, subscriber),
                    LifecycleAction::Resume => vault.resume_subscription(id, subscriber),
                    LifecycleAction::Cancel => vault.cancel_subscription(id, subscriber),
                };

                assert_eq!(result.is_ok(), should_succeed);

                let current = call(vault.get_subscription(id)).status;
                if should_succeed {
                    expected = target;
                    assert_eq!(current, expected);
                } else {
                    assert_eq!(current, expected);
                }
            }
        }
    }
}

#[test]
fn test_state_machine_property_charge_failures_and_recovery_paths_obey_rules() {
    for seed_base in 0..32u64 {
        let mut seed = seed_base;

        for step in 0..10 {
            let (mut addresses, mut vault, _token, _) = setup_test_env();
            let (id, subscriber, _) = call(create_test_subscription(
                &mut addresses,
                &mut vault,
                SubscriptionStatus::Active,
            ));
            let in_grace_window = lcg_next(&mut seed) % 2 == 0;
            let topup_amount = if lcg_next(&mut seed) % 2 == 0 {
                AMOUNT - 1
            } else {
                PREPAID
            };

            seed_balance(&mut vault, id, 0);
            let charge_time = if in_grace_window {
                T0 + INTERVAL + 1
            } else {
                T0 + INTERVAL + (7 * 24 * 60 * 60) + 1
            };
            vault.set_timestamp(charge_time + step as u64);

            let result = vault.charge_subscription(id);
            assert_eq!(result, Ok(ChargeExecutionResult::InsufficientBalance));

            let failed_status = call(vault.get_subscription(id)).status;
            if in_grace_window {
                assert_eq!(failed_status, SubscriptionStatus::GracePeriod);
            } else {
                assert_eq!(failed_status, SubscriptionStatus::InsufficientBalance);
            }

            let minted = topup_amount.max(1_000_000);
            call(vault.deposit_funds(id, subscriber, topup_amount.max(1_000_000), minted));

            let after_deposit = call(vault.get_subscription(id)).status;
            if topup_amount >= AMOUNT {
                assert_eq!(after_deposit, SubscriptionStatus::Active);
            } else {
                assert!(
                    after_deposit == SubscriptionStatus::InsufficientBalance
                        || after_deposit == SubscriptionStatus::GracePeriod
                );
            }

            if topup_amount >= AMOUNT {
                vault.set_timestamp(charge_time + INTERVAL + step as u64 + 1);
                let charge_again = vault.charge_subscription(id);
                assert!(charge_again.is_ok());
                assert_eq!(
                    call(vault.get_subscription(id)).status,
                    SubscriptionStatus::Active
                );
            } else {
                call(vault.cancel_subscription(id, subscriber));
                assert_eq!(
                    call(vault.get_subscription(id)).status,
                    SubscriptionStatus::Cancelled
                );
            }
        }
    }
}

#[test]
fn test_pause_subscription_from_active() {
    let (mut addresses, mut vault, _, _) = setup_test_env();
    let (id, subscriber, _) =
        create_subscription_detailed(&mut addresses, &mut vault, AMOUNT, INTERVAL);
    call(vault.pause_subscription(id, subscriber));
    assert_status(&vault, id, SubscriptionStatus::Paused);
}

#[test]
#[should_panic(expected = "Error(Contract, #400)")]
fn test_pause_subscription_from_cancelled_should_fail() {
    let (mut addresses, mut vault, _, _) = setup_test_env();
    let (id, subscriber, _) =
        create_subscription_detailed(&mut addresses, &mut vault, AMOUNT, INTERVAL);
    call(vault.cancel_subscription(id, subscriber));
    call(vault.pause_subscription(id, subscriber));
}

#[test]
fn test_pause_subscription_from_paused_is_idempotent() {
    let (mut addresses, mut vault, _, _) = setup_test_env();
    let (id, subscriber, _) =
        create_subscription_detailed(&mut addresses, &mut vault, AMOUNT, INTERVAL);
    call(vault.pause_subscription(id, subscriber));
    call(vault.pause_subscription(id, subscriber));
    assert_status(&vault, id, SubscriptionStatus::Paused);
}

#[test]
fn test_cancel_subscription_from_active() {
    let (mut addresses, mut vault, _, _) = setup_test_env();
    let (id, subscriber, _) =
        create_subscription_detailed(&mut addresses, &mut vault, AMOUNT, INTERVAL);
    call(vault.cancel_subscription(id, subscriber));
    assert_status(&vault, id, SubscriptionStatus::Cancelled);
}

#[test]
fn test_cancel_subscription_from_paused() {
    let (mut addresses, mut vault, _, _) = setup_test_env();
    let (id, subscriber, _) =
        create_subscription_detailed(&mut addresses, &mut vault, AMOUNT, INTERVAL);
    call(vault.pause_subscription(id, subscriber));
    call(vault.cancel_subscription(id, subscriber));
    assert_status(&vault, id, SubscriptionStatus::Cancelled);
}

#[test]
fn test_cancel_subscription_from_cancelled_is_idempotent() {
    let (mut addresses, mut vault, _, _) = setup_test_env();
    let (id, subscriber, _) =
        create_subscription_detailed(&mut addresses, &mut vault, AMOUNT, INTERVAL);
    call(vault.cancel_subscription(id, subscriber));
    call(vault.cancel_subscription(id, subscriber));
    assert_status(&vault, id, SubscriptionStatus::Cancelled);
}

#[test]
fn test_resume_subscription_from_paused() {
    let (mut addresses, mut vault, _, _) = setup_test_env();
    let (id, subscriber, _) =
        create_subscription_detailed(&mut addresses, &mut vault, AMOUNT, INTERVAL);
    call(vault.pause_subscription(id, subscriber));
    call(vault.resume_subscription(id, subscriber));
    assert_status(&vault, id, SubscriptionStatus::Active);
}

#[test]
#[should_panic(expected = "Error(Contract, #400)")]
fn test_resume_subscription_from_cancelled_should_fail() {
    let (mut addresses, mut vault, _, _) = setup_test_env();
    let (id, subscriber, _) =
        create_subscription_detailed(&mut addresses, &mut vault, AMOUNT, INTERVAL);
    call(vault.cancel_subscription(id, subscriber));
    call(vault.resume_subscription(id, subscriber));
}

#[test]
fn test_full_lifecycle_active_pause_resume() {
    let (mut addresses, mut vault, _, _) = setup_test_env();
    let (id, subscriber, _) =
        create_subscription_detailed(&mut addresses, &mut vault, AMOUNT, INTERVAL);
    call(vault.pause_subscription(id, subscriber));
    assert_eq!(
        call(vault.get_subscription(id)).status,
        SubscriptionStatus::Paused
    );
    call(vault.resume_subscription(id, subscriber));
    assert_eq!(
        call(vault.get_subscription(id)).status,
        SubscriptionStatus::Active
    );
    call(vault.pause_subscription(id, subscriber));
    assert_eq!(
        call(vault.get_subscription(id)).status,
        SubscriptionStatus::Paused
    );
}

#[test]
fn test_all_valid_transitions_coverage() {
    let (mut addresses, mut vault, _, _) = setup_test_env();

    // Active -> Paused
    {
        let (id, subscriber, _) =
            create_subscription_detailed(&mut addresses, &mut vault, AMOUNT, INTERVAL);
        call(vault.pause_subscription(id, subscriber));
        assert_status(&vault, id, SubscriptionStatus::Paused);
    }
    // Active -> Cancelled
    {
        let (id, subscriber, _) =
            create_subscription_detailed(&mut addresses, &mut vault, AMOUNT, INTERVAL);
        call(vault.cancel_subscription(id, subscriber));
        assert_status(&vault, id, SubscriptionStatus::Cancelled);
    }
    // Active -> InsufficientBalance (stored directly)
    {
        let (id, _, _) =
            create_subscription_detailed(&mut addresses, &mut vault, AMOUNT, INTERVAL);
        patch_status(&mut vault, id, SubscriptionStatus::InsufficientBalance);
        assert_status(&vault, id, SubscriptionStatus::InsufficientBalance);
    }
    // Paused -> Active
    {
        let (id, subscriber, _) =
            create_subscription_detailed(&mut addresses, &mut vault, AMOUNT, INTERVAL);
        call(vault.pause_subscription(id, subscriber));
        call(vault.resume_subscription(id, subscriber));
        assert_status(&vault, id, SubscriptionStatus::Active);
    }
    // Paused -> Cancelled
    {
        let (id, subscriber, _) =
            create_subscription_detailed(&mut addresses, &mut vault, AMOUNT, INTERVAL);
        call(vault.pause_subscription(id, subscriber));
        call(vault.cancel_subscription(id, subscriber));
        assert_status(&vault, id, SubscriptionStatus::Cancelled);
    }
}
