//! Pseudo-random walks through the subscription state machine.
use crate::status::SubscriptionStatus;
use vstd::arithmetic::div_mod::{lemma_add_mod_noop, lemma_small_mod};
use vstd::prelude::*;

verus! {

/// What a party of a subscription can do with it.
#[derive(Debug, Clone, Copy, PartialEq, Eq, Structural)]
pub enum LifecycleAction {
    Pause,
    Resume,
    Cancel,
}

/// The successor of `seed` in a linear congruential sequence over the 64-bit integers.
pub open spec fn lcg_successor(seed: u64) -> int {
    (seed * 1664525 + 1013904223) % 0x1_0000_0000_0000_0000
}

/// Moves `seed` one step on and returns it.
pub fn lcg_next(seed: &mut u64) -> (value: u64)
    ensures
        value == lcg_successor(*old(seed)),
        *final(seed) == value,
{
    let scaled: u64 = seed.wrapping_mul(1664525);
    let next: u64 = scaled.wrapping_add(1013904223);
    proof {
        let m = 0x1_0000_0000_0000_0000int;
        lemma_add_mod_noop(*seed * 1664525, 1013904223, m);
        lemma_small_mod(1013904223, m as nat);
    }
    *seed = next;
    next
}

/// Draws one of five move numbers.
pub fn random_transition_action(seed: &mut u64) -> (action: u32)
    ensures
        *final(seed) == lcg_successor(*old(seed)),
        action == lcg_successor(*old(seed)) % 5,
{
    (lcg_next(seed) % 5) as u32
}

pub open spec fn action_target(action: int) -> SubscriptionStatus {
    if action % 5 == 0 {
        SubscriptionStatus::Active
    } else if action % 5 == 1 {
        SubscriptionStatus::Paused
    } else if action % 5 == 2 {
        SubscriptionStatus::Cancelled
    } else if action % 5 == 3 {
        SubscriptionStatus::InsufficientBalance
    } else {
        SubscriptionStatus::GracePeriod
    }
}

/// The billing status that a move number stands for.
pub fn transition_action_target(action: u32) -> (target: SubscriptionStatus)
    ensures
        target == action_target(action as int),
{
    match action % 5 {
        0 => SubscriptionStatus::Active,
        1 => SubscriptionStatus::Paused,
        2 => SubscriptionStatus::Cancelled,
        3 => SubscriptionStatus::InsufficientBalance,
        _ => SubscriptionStatus::GracePeriod,
    }
}

pub open spec fn drawn_action(value: int) -> LifecycleAction {
    if value % 3 == 0 {
        LifecycleAction::Pause
    } else if value % 3 == 1 {
        LifecycleAction::Resume
    } else {
        LifecycleAction::Cancel
    }
}

/// Draws one of the three lifecycle actions.
pub fn random_lifecycle_action(seed: &mut u64) -> (action: LifecycleAction)
    ensures
        *final(seed) == lcg_successor(*old(seed)),
        action == drawn_action(lcg_successor(*old(seed))),
{
    match lcg_next(seed) % 3 {
        0 => LifecycleAction::Pause,
        1 => LifecycleAction::Resume,
        _ => LifecycleAction::Cancel,
    }
}

pub open spec fn goal(action: LifecycleAction) -> SubscriptionStatus {
    match action {
        LifecycleAction::Pause => SubscriptionStatus::Paused,
        LifecycleAction::Resume => SubscriptionStatus::Active,
        LifecycleAction::Cancel => SubscriptionStatus::Cancelled,
    }
}

/// The status that a lifecycle action aims at.
pub fn lifecycle_action_target(action: LifecycleAction) -> (target: SubscriptionStatus)
    ensures
        target == goal(action),
{
    match action {
        LifecycleAction::Pause => SubscriptionStatus::Paused,
        LifecycleAction::Resume => SubscriptionStatus::Active,
        LifecycleAction::Cancel => SubscriptionStatus::Cancelled,
    }
}

/// The successor of a seed is a 64-bit number that differs from the seed, scaled by 1664525 and moved on
/// by 1013904223, by a multiple of the range.
pub proof fn law_successors_stay_in_range(seed: u64)
    ensures
        0 <= lcg_successor(seed) <= u64::MAX,
        exists|wraps: int|
            seed * 1664525 + 1013904223 == lcg_successor(seed) + #[trigger] (wraps
                * 0x1_0000_0000_0000_0000),
{
    let scaled = seed * 1664525 + 1013904223;
    let wraps = scaled / 0x1_0000_0000_0000_0000;
    assert(scaled == lcg_successor(seed) + wraps * 0x1_0000_0000_0000_0000);
}

/// The move numbers go through the billing statuses in rounds of five.
pub proof fn law_move_numbers_go_in_rounds(round: int)
    ensures
        action_target(5 * round) == SubscriptionStatus::Active,
        action_target(5 * round + 1) == SubscriptionStatus::Paused,
        action_target(5 * round + 2) == SubscriptionStatus::Cancelled,
        action_target(5 * round + 3) == SubscriptionStatus::InsufficientBalance,
        action_target(5 * round + 4) == SubscriptionStatus::GracePeriod,
{
}

/// The drawn actions go round by threes, and each aims at a status of its own.
pub proof fn law_drawn_actions_go_in_rounds(round: int)
    ensures
        drawn_action(3 * round) == LifecycleAction::Pause,
        drawn_action(3 * round + 1) == LifecycleAction::Resume,
        drawn_action(3 * round + 2) == LifecycleAction::Cancel,
        goal(drawn_action(3 * round)) == SubscriptionStatus::Paused,
        goal(drawn_action(3 * round + 1)) == SubscriptionStatus::Active,
        goal(drawn_action(3 * round + 2)) == SubscriptionStatus::Cancelled,
{
}

} // verus!
