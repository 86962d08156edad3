//! Queries: pages, their order and their bounds.

use subscription_vault::error::{Failure, Reply};
use subscription_vault::fixtures::{
    create_sub_for_merchant_and_token, inject_statements, inject_subscriptions, seed_counter, setup,
};
use subscription_vault::types::{
    MAX_SCAN_DEPTH, MAX_SUBSCRIPTION_LIST_PAGE, MAX_WRITE_PATH_SCAN_DEPTH,
};

/// What a client sees of a reply: the value, or a panic that names the error code.
fn call<T>(reply: Reply<T>) -> T {
    match reply {
        Ok(value) => value,
        Err(Failure::Contract(error)) => panic!("Error(Contract, #{})", error.to_code()),
        Err(failure) => panic!("{:?}", failure),
    }
}

#[test]
fn test_subscriber_list_basic() {
    let (mut addresses, mut vault, token, _) = setup();
    let subscriber = addresses.generate();
    inject_subscriptions(&mut addresses, &mut vault, 5, subscriber, token);

    let page = call(vault.list_subscriptions_by_subscriber(subscriber, 0, 100));
    assert_eq!(page.subscription_ids.len(), 5);
    assert_eq!(page.next_start_id, None);
}

#[test]
fn test_subscriber_list_pagination() {
    let (mut addresses, mut vault, token, _) = setup();
    let subscriber = addresses.generate();
    inject_subscriptions(&mut addresses, &mut vault, 50, subscriber, token);

    // Fetch first 20
    let page1 = call(vault.list_subscriptions_by_subscriber(subscriber, 0, 20));
    assert_eq!(page1.subscription_ids.len(), 20);
    assert_eq!(page1.next_start_id, Some(20));

    // Fetch next 20
    let page2 = call(vault.list_subscriptions_by_subscriber(
        subscriber,
        page1.next_start_id.unwrap(),
        20,
    ));
    assert_eq!(page2.subscription_ids.len(), 20);
    assert_eq!(page2.next_start_id, Some(40));

    // Fetch last 10
    let page3 = call(vault.list_subscriptions_by_subscriber(
        subscriber,
        page2.next_start_id.unwrap(),
        20,
    ));
    assert_eq!(page3.subscription_ids.len(), 10);
    assert_eq!(page3.next_start_id, None);
}

#[test]
fn test_subscriber_list_scan_depth_boundary() {
    let (mut addresses, mut vault, token, _) = setup();
    let subscriber = addresses.generate();
    let other = addresses.generate();

    // Exactly MAX_SCAN_DEPTH + 10 subscriptions, all for `other`
    let total = MAX_SCAN_DEPTH + 10;
    inject_subscriptions(&mut addresses, &mut vault, total, other, token);

    // The query looks at MAX_SCAN_DEPTH identifiers, finds none, and says where to go on.
    let page1 = call(vault.list_subscriptions_by_subscriber(subscriber, 0, 10));
    assert_eq!(page1.subscription_ids.len(), 0);
    assert_eq!(page1.next_start_id, Some(MAX_SCAN_DEPTH));

    let page2 = call(vault.list_subscriptions_by_subscriber(
        subscriber,
        page1.next_start_id.unwrap(),
        10,
    ));
    assert_eq!(page2.subscription_ids.len(), 0);
    assert_eq!(page2.next_start_id, None);
}

#[test]
fn test_subscriber_list_sparse_ids() {
    let (mut addresses, mut vault, token, _) = setup();
    let subscriber = addresses.generate();
    let other = addresses.generate();

    inject_subscriptions(&mut addresses, &mut vault, 10, subscriber, token);
    inject_subscriptions(&mut addresses, &mut vault, 40, other, token);
    inject_subscriptions(&mut addresses, &mut vault, 10, subscriber, token);

    // 60 total subscriptions. subscriber has 0..10 and 50..60.
    let page = call(vault.list_subscriptions_by_subscriber(subscriber, 0, 100));
    assert_eq!(page.subscription_ids.len(), 20);
    assert_eq!(page.next_start_id, None);
}

#[test]
fn test_subscriber_list_limit_one() {
    let (mut addresses, mut vault, token, _) = setup();
    let subscriber = addresses.generate();
    inject_subscriptions(&mut addresses, &mut vault, 5, subscriber, token);

    let page = call(vault.list_subscriptions_by_subscriber(subscriber, 0, 1));
    assert_eq!(page.subscription_ids.len(), 1);
    assert_eq!(*page.subscription_ids.get(0).unwrap(), 0);
    assert_eq!(page.next_start_id, Some(1));
}

#[test]
fn test_subscriber_list_limit_max() {
    let (mut addresses, mut vault, token, _) = setup();
    let subscriber = addresses.generate();
    inject_subscriptions(
        &mut addresses,
        &mut vault,
        MAX_SUBSCRIPTION_LIST_PAGE,
        subscriber,
        token,
    );

    let page = call(vault.list_subscriptions_by_subscriber(
        subscriber,
        0,
        MAX_SUBSCRIPTION_LIST_PAGE,
    ));
    assert_eq!(
        page.subscription_ids.len() as u32,
        MAX_SUBSCRIPTION_LIST_PAGE
    );
}

#[test]
fn test_subscriber_list_empty() {
    let (mut addresses, vault, _token, _) = setup();
    let subscriber = addresses.generate();
    let page = call(vault.list_subscriptions_by_subscriber(subscriber, 0, 100));
    assert_eq!(page.subscription_ids.len(), 0);
    assert_eq!(page.next_start_id, None);
}

#[test]
#[should_panic(expected = "Error(Contract, #1015)")]
fn test_subscriber_list_invalid_limit_zero() {
    let (mut addresses, vault, _token, _) = setup();
    call(vault.list_subscriptions_by_subscriber(addresses.generate(), 0, 0));
}

#[test]
#[should_panic(expected = "Error(Contract, #1015)")]
fn test_subscriber_list_invalid_limit_overflow() {
    let (mut addresses, vault, _token, _) = setup();
    call(vault.list_subscriptions_by_subscriber(
        addresses.generate(),
        0,
        MAX_SUBSCRIPTION_LIST_PAGE + 1,
    ));
}

#[test]
fn test_merchant_query_basic() {
    let (mut addresses, mut vault, token, _) = setup();
    let merchant = addresses.generate();
    let subscriber = addresses.generate();

    for _ in 0..10 {
        call(create_sub_for_merchant_and_token(&mut vault, subscriber, merchant, token));
    }

    let page = call(vault.get_subscriptions_by_merchant(merchant, 0, 100));
    assert_eq!(page.len(), 10);
    assert_eq!(vault.get_merchant_subscription_count(merchant), 10);
}

#[test]
fn test_merchant_query_pagination() {
    let (mut addresses, mut vault, token, _) = setup();
    let merchant = addresses.generate();
    let subscriber = addresses.generate();

    for _ in 0..15 {
        call(create_sub_for_merchant_and_token(&mut vault, subscriber, merchant, token));
    }

    let page1 = call(vault.get_subscriptions_by_merchant(merchant, 0, 10));
    assert_eq!(page1.len(), 10);

    let page2 = call(vault.get_subscriptions_by_merchant(merchant, 10, 10));
    assert_eq!(page2.len(), 5);
}

#[test]
#[should_panic(expected = "Error(Contract, #1015)")]
fn test_merchant_query_limit_zero() {
    let (mut addresses, vault, _token, _) = setup();
    call(vault.get_subscriptions_by_merchant(addresses.generate(), 0, 0));
}

#[test]
#[should_panic(expected = "Error(Contract, #1015)")]
fn test_merchant_query_limit_overflow() {
    let (mut addresses, vault, _token, _) = setup();
    call(vault.get_subscriptions_by_merchant(
        addresses.generate(),
        0,
        MAX_SUBSCRIPTION_LIST_PAGE + 1,
    ));
}

#[test]
fn test_merchant_query_start_past_end() {
    let (mut addresses, mut vault, token, _) = setup();
    let merchant = addresses.generate();
    let subscriber = addresses.generate();

    call(create_sub_for_merchant_and_token(&mut vault, subscriber, merchant, token));

    let page = call(vault.get_subscriptions_by_merchant(merchant, 2, 10));
    assert_eq!(page.len(), 0);
}

#[test]
fn test_token_query_basic() {
    let (mut addresses, mut vault, token, _) = setup();
    let merchant = addresses.generate();
    let subscriber = addresses.generate();

    for _ in 0..10 {
        call(create_sub_for_merchant_and_token(&mut vault, subscriber, merchant, token));
    }

    let page = call(vault.get_subscriptions_by_token(token, 0, 100));
    assert_eq!(page.len(), 10);
    assert_eq!(vault.get_token_subscription_count(token), 10);
}

#[test]
fn test_token_query_pagination() {
    let (mut addresses, mut vault, token, _) = setup();
    let merchant = addresses.generate();
    let subscriber = addresses.generate();

    for _ in 0..15 {
        call(create_sub_for_merchant_and_token(&mut vault, subscriber, merchant, token));
    }

    let page1 = call(vault.get_subscriptions_by_token(token, 0, 10));
    assert_eq!(page1.len(), 10);

    let page2 = call(vault.get_subscriptions_by_token(token, 10, 10));
    assert_eq!(page2.len(), 5);
}

#[test]
#[should_panic(expected = "Error(Contract, #1015)")]
fn test_token_query_limit_zero() {
    let (_addresses, vault, token, _) = setup();
    call(vault.get_subscriptions_by_token(token, 0, 0));
}

#[test]
#[should_panic(expected = "Error(Contract, #1015)")]
fn test_token_query_limit_overflow() {
    let (_addresses, vault, token, _) = setup();
    call(vault.get_subscriptions_by_token(token, 0, MAX_SUBSCRIPTION_LIST_PAGE + 1));
}

#[test]
fn test_merchant_count_and_token_count() {
    let (mut addresses, mut vault, token, _) = setup();
    let merchant = addresses.generate();
    let subscriber = addresses.generate();

    assert_eq!(vault.get_merchant_subscription_count(merchant), 0);
    assert_eq!(vault.get_token_subscription_count(token), 0);

    call(create_sub_for_merchant_and_token(&mut vault, subscriber, merchant, token));

    assert_eq!(vault.get_merchant_subscription_count(merchant), 1);
    assert_eq!(vault.get_token_subscription_count(token), 1);
}

#[test]
#[should_panic(expected = "Error(Contract, #1015)")]
fn test_write_path_scan_depth_guard_triggers_for_large_contracts() {
    let (mut addresses, mut vault, token, admin) = setup();

    // A vault that has outgrown MAX_WRITE_PATH_SCAN_DEPTH.
    seed_counter(&mut vault, MAX_WRITE_PATH_SCAN_DEPTH + 1);

    let subscriber = addresses.generate();
    let merchant = addresses.generate();

    // A limit above zero makes the vault look at what the subscriber has committed to.
    call(vault.set_subscriber_credit_limit(admin, subscriber, token, 1000));

    call(vault.create_subscription(
        subscriber,
        merchant,
        100,
        30 * 24 * 60 * 60,
        false,
        None,
        None,
    ));
}

#[test]
fn test_subscriber_list_results_are_ascending() {
    let (mut addresses, mut vault, token, _) = setup();
    let subscriber = addresses.generate();
    inject_subscriptions(&mut addresses, &mut vault, 20, subscriber, token);

    let page = call(vault.list_subscriptions_by_subscriber(subscriber, 0, 20));
    assert_eq!(page.subscription_ids.len(), 20);

    // IDs must be in strictly ascending order.
    let mut prev = *page.subscription_ids.get(0).unwrap();
    let mut i = 1;
    while i < page.subscription_ids.len() {
        let current = *page.subscription_ids.get(i).unwrap();
        assert!(current > prev, "IDs must be ascending: {} <= {}", current, prev);
        prev = current;
        i += 1;
    }
}

#[test]
fn test_merchant_query_results_are_stable_across_pages() {
    let (mut addresses, mut vault, token, _) = setup();
    let merchant = addresses.generate();
    let subscriber = addresses.generate();

    for _ in 0..30 {
        call(create_sub_for_merchant_and_token(&mut vault, subscriber, merchant, token));
    }

    let total = vault.get_merchant_subscription_count(merchant);
    assert_eq!(total, 30);

    // Two consecutive pages must account for all subscriptions without gaps.
    let page1 = call(vault.get_subscriptions_by_merchant(merchant, 0, 15));
    let page2 = call(vault.get_subscriptions_by_merchant(merchant, 15, 15));
    assert_eq!(page1.len(), 15);
    assert_eq!(page2.len(), 15);
    assert_eq!((page1.len() + page2.len()) as u32, total);

    // A third page past the end must be empty.
    let page3 = call(vault.get_subscriptions_by_merchant(merchant, 30, 15));
    assert_eq!(page3.len(), 0);
}

#[test]
fn test_subscriber_isolation_no_cross_contamination() {
    let (mut addresses, mut vault, token, _) = setup();
    let alice = addresses.generate();
    let bob = addresses.generate();

    // Interleave: 5 alice, 5 bob, 5 alice.
    inject_subscriptions(&mut addresses, &mut vault, 5, alice, token);
    inject_subscriptions(&mut addresses, &mut vault, 5, bob, token);
    inject_subscriptions(&mut addresses, &mut vault, 5, alice, token);

    let alice_page = call(vault.list_subscriptions_by_subscriber(alice, 0, 100));
    let bob_page = call(vault.list_subscriptions_by_subscriber(bob, 0, 100));

    assert_eq!(alice_page.subscription_ids.len(), 10);
    assert_eq!(bob_page.subscription_ids.len(), 5);

    // None of bob's IDs should appear in alice's result.
    for alice_id in alice_page.subscription_ids.iter() {
        for bob_id in bob_page.subscription_ids.iter() {
            assert_ne!(
                alice_id, bob_id,
                "alice_id {} appeared in bob's result",
                alice_id
            );
        }
    }
}

#[test]
fn test_subscriber_list_exact_multiple_of_limit() {
    let (mut addresses, mut vault, token, _) = setup();
    let subscriber = addresses.generate();
    // Exactly 3 pages of 10.
    inject_subscriptions(&mut addresses, &mut vault, 30, subscriber, token);

    let page1 = call(vault.list_subscriptions_by_subscriber(subscriber, 0, 10));
    assert_eq!(page1.subscription_ids.len(), 10);
    // Should have a resume cursor since there are more IDs.
    assert!(page1.next_start_id.is_some());

    let page2 = call(vault.list_subscriptions_by_subscriber(
        subscriber,
        page1.next_start_id.unwrap(),
        10,
    ));
    assert_eq!(page2.subscription_ids.len(), 10);
    assert!(page2.next_start_id.is_some());

    let page3 = call(vault.list_subscriptions_by_subscriber(
        subscriber,
        page2.next_start_id.unwrap(),
        10,
    ));
    assert_eq!(page3.subscription_ids.len(), 10);
    // Last page, no more IDs.
    assert_eq!(page3.next_start_id, None);
}

#[test]
fn test_subscriber_list_start_beyond_range() {
    let (mut addresses, mut vault, token, _) = setup();
    let subscriber = addresses.generate();
    inject_subscriptions(&mut addresses, &mut vault, 5, subscriber, token);

    // The start is well past the highest identifier.
    let page = call(vault.list_subscriptions_by_subscriber(subscriber, 1000, 10));
    assert_eq!(page.subscription_ids.len(), 0);
    assert_eq!(page.next_start_id, None);
}

#[test]
fn test_merchant_query_start_at_exact_end() {
    let (mut addresses, mut vault, token, _) = setup();
    let merchant = addresses.generate();
    let subscriber = addresses.generate();

    for _ in 0..5 {
        call(create_sub_for_merchant_and_token(&mut vault, subscriber, merchant, token));
    }

    // Offset == count returns empty (not an error).
    let page = call(vault.get_subscriptions_by_merchant(merchant, 5, 10));
    assert_eq!(page.len(), 0);
}

#[test]
fn test_statements_empty_subscription() {
    let (mut addresses, mut vault, token, _) = setup();
    let subscriber = addresses.generate();
    let merchant = addresses.generate();

    let sub_id = call(create_sub_for_merchant_and_token(&mut vault, subscriber, merchant, token));

    // Offset style: zero statements should return empty page.
    let page = call(vault.get_sub_statements_offset(sub_id, 0, 10, true));
    assert_eq!(page.statements.len(), 0);
    assert_eq!(page.next_cursor, None);
    assert_eq!(page.total, 0);

    // Cursor style: same.
    let page2 = call(vault.get_sub_statements_cursor(sub_id, None, 10, true));
    assert_eq!(page2.statements.len(), 0);
    assert_eq!(page2.next_cursor, None);
    assert_eq!(page2.total, 0);
}

#[test]
#[should_panic(expected = "Error(Contract, #1015)")]
fn test_statements_offset_limit_zero() {
    let (mut addresses, mut vault, token, _) = setup();
    let subscriber = addresses.generate();
    let merchant = addresses.generate();
    let sub_id = call(create_sub_for_merchant_and_token(&mut vault, subscriber, merchant, token));
    call(vault.get_sub_statements_offset(sub_id, 0, 0, true));
}

#[test]
#[should_panic(expected = "Error(Contract, #1015)")]
fn test_statements_cursor_limit_zero() {
    let (mut addresses, mut vault, token, _) = setup();
    let subscriber = addresses.generate();
    let merchant = addresses.generate();
    let sub_id = call(create_sub_for_merchant_and_token(&mut vault, subscriber, merchant, token));
    call(vault.get_sub_statements_cursor(sub_id, None, 0, true));
}

#[test]
fn test_statements_offset_and_cursor_consistent() {
    let (mut addresses, mut vault, token, _) = setup();
    let subscriber = addresses.generate();
    let merchant = addresses.generate();
    let sub_id = call(create_sub_for_merchant_and_token(&mut vault, subscriber, merchant, token));

    inject_statements(&mut vault, sub_id, 5, merchant);

    let total_page = call(vault.get_sub_statements_offset(sub_id, 0, 100, false));
    assert_eq!(total_page.total, 5);
    assert_eq!(total_page.statements.len(), 5);

    // Paginate in groups of 2 and reconstruct.
    let p1 = call(vault.get_sub_statements_offset(sub_id, 0, 2, false));
    assert_eq!(p1.statements.len(), 2);
    assert!(p1.next_cursor.is_some());

    let p2 = call(vault.get_sub_statements_cursor(sub_id, p1.next_cursor, 2, false));
    assert_eq!(p2.statements.len(), 2);
    assert!(p2.next_cursor.is_some());

    let p3 = call(vault.get_sub_statements_cursor(sub_id, p2.next_cursor, 2, false));
    assert_eq!(p3.statements.len(), 1);
    assert_eq!(p3.next_cursor, None);

    // Sequences must be monotonically increasing, oldest first.
    let mut prev_seq = p1.statements.get(0).unwrap().sequence;
    let mut idx = 1;
    while idx < p1.statements.len() {
        let seq = p1.statements.get(idx).unwrap().sequence;
        assert!(seq > prev_seq);
        prev_seq = seq;
        idx += 1;
    }
}

#[test]
fn test_statements_newest_first_reverses_order() {
    let (mut addresses, mut vault, token, _) = setup();
    let subscriber = addresses.generate();
    let merchant = addresses.generate();
    let sub_id = call(create_sub_for_merchant_and_token(&mut vault, subscriber, merchant, token));

    inject_statements(&mut vault, sub_id, 4, merchant);

    let oldest_first = call(vault.get_sub_statements_offset(sub_id, 0, 10, false));
    let newest_first = call(vault.get_sub_statements_offset(sub_id, 0, 10, true));

    assert_eq!(oldest_first.total, newest_first.total);
    let n = oldest_first.statements.len();
    assert!(n > 0);

    // Sequences must be in reverse order, newest first.
    let mut i = 0;
    while i < n {
        let old_seq = oldest_first.statements.get(i).unwrap().sequence;
        let new_seq = newest_first.statements.get(n - 1 - i).unwrap().sequence;
        assert_eq!(old_seq, new_seq, "Sequence mismatch at index {}", i);
        i += 1;
    }
}

#[test]
fn test_token_query_start_past_end() {
    let (mut addresses, mut vault, token, _) = setup();
    let merchant = addresses.generate();
    let subscriber = addresses.generate();

    call(create_sub_for_merchant_and_token(&mut vault, subscriber, merchant, token));

    let page = call(vault.get_subscriptions_by_token(token, 5, 10));
    assert_eq!(page.len(), 0);
}

#[test]
fn test_token_query_count_increments() {
    let (mut addresses, mut vault, token, _) = setup();
    let merchant = addresses.generate();
    let subscriber = addresses.generate();

    assert_eq!(vault.get_token_subscription_count(token), 0);
    for expected in 1u32..=5 {
        call(create_sub_for_merchant_and_token(&mut vault, subscriber, merchant, token));
        assert_eq!(vault.get_token_subscription_count(token), expected);
    }
}
