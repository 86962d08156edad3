//! The subscription state machine.
use crate::error::Error;
use vstd::prelude::*;

verus! {

/// Where a subscription stands in its life.
#[derive(Debug, Clone, Copy, PartialEq, Eq, Structural)]
pub enum SubscriptionStatus {
    /// Billed at every interval.
    Active,
    /// Not billed until it is resumed.
    Paused,
    /// Ended by one of its parties, or by its lifetime cap.
    Cancelled,
    /// A charge failed and the grace period is over.
    InsufficientBalance,
    /// A charge failed and the subscriber still has time to top up.
    GracePeriod,
    /// Past its expiration time.
    Expired,
    /// Read-only.
    Archived,
}

/// The statuses that a subscription in status `from` can be moved to, its own status left out.
pub open spec fn targets(from: SubscriptionStatus) -> Seq<SubscriptionStatus> {
    match from {
        SubscriptionStatus::Active => seq![
            SubscriptionStatus::Paused,
            SubscriptionStatus::Cancelled,
            SubscriptionStatus::InsufficientBalance,
            SubscriptionStatus::GracePeriod,
            SubscriptionStatus::Expired,
        ],
        SubscriptionStatus::Paused => seq![
            SubscriptionStatus::Active,
            SubscriptionStatus::Cancelled,
            SubscriptionStatus::Expired,
        ],
        SubscriptionStatus::Cancelled => seq![SubscriptionStatus::Archived],
        SubscriptionStatus::InsufficientBalance => seq![
            SubscriptionStatus::Active,
            SubscriptionStatus::Cancelled,
            SubscriptionStatus::Expired,
        ],
        SubscriptionStatus::GracePeriod => seq![
            SubscriptionStatus::Active,
            SubscriptionStatus::Cancelled,
            SubscriptionStatus::InsufficientBalance,
            SubscriptionStatus::Expired,
        ],
        SubscriptionStatus::Expired => seq![SubscriptionStatus::Archived],
        SubscriptionStatus::Archived => seq![],
    }
}

/// A subscription may keep its status, or move to one of the targets of its status.
pub open spec fn legal_move(from: SubscriptionStatus, to: SubscriptionStatus) -> bool {
    from == to || match from {
        SubscriptionStatus::Active => to != SubscriptionStatus::Archived,
        SubscriptionStatus::Paused => to == SubscriptionStatus::Active || to
            == SubscriptionStatus::Cancelled || to == SubscriptionStatus::Expired,
        SubscriptionStatus::Cancelled => to == SubscriptionStatus::Archived,
        SubscriptionStatus::InsufficientBalance => to == SubscriptionStatus::Active || to
            == SubscriptionStatus::Cancelled || to == SubscriptionStatus::Expired,
        SubscriptionStatus::GracePeriod => to == SubscriptionStatus::Active || to
            == SubscriptionStatus::Cancelled || to == SubscriptionStatus::InsufficientBalance || to
            == SubscriptionStatus::Expired,
        SubscriptionStatus::Expired => to == SubscriptionStatus::Archived,
        SubscriptionStatus::Archived => false,
    }
}

/// Whether a subscription may go from `from` to `to`.
pub fn can_transition(from: &SubscriptionStatus, to: &SubscriptionStatus) -> (possible: bool)
    ensures
        possible == legal_move(*from, *to),
{
    if *from == *to {
        return true;
    }
    match from {
        SubscriptionStatus::Active => *to != SubscriptionStatus::Archived,
        SubscriptionStatus::Paused | SubscriptionStatus::InsufficientBalance => matches!(
            to,
            SubscriptionStatus::Active | SubscriptionStatus::Cancelled | SubscriptionStatus::Expired
        ),
        SubscriptionStatus::Cancelled | SubscriptionStatus::Expired => *to
            == SubscriptionStatus::Archived,
        SubscriptionStatus::GracePeriod => matches!(
            to,
            SubscriptionStatus::Active
                | SubscriptionStatus::Cancelled
                | SubscriptionStatus::InsufficientBalance
                | SubscriptionStatus::Expired
        ),
        SubscriptionStatus::Archived => false,
    }
}

/// Refuses a move that the state machine does not have.
pub fn validate_status_transition(from: &SubscriptionStatus, to: &SubscriptionStatus) -> (result:
    Result<(), Error>)
    ensures
        result == (if legal_move(*from, *to) {
            Ok::<(), Error>(())
        } else {
            Err::<(), Error>(Error::InvalidStatusTransition)
        }),
{
    if can_transition(from, to) {
        Ok(())
    } else {
        Err(Error::InvalidStatusTransition)
    }
}

/// The statuses that `status` can be moved to, `status` itself left out.
pub fn get_allowed_transitions(status: &SubscriptionStatus) -> (allowed:
    &'static [SubscriptionStatus])
    ensures
        allowed@ == targets(*status),
{
    match status {
        SubscriptionStatus::Active => &[
            SubscriptionStatus::Paused,
            SubscriptionStatus::Cancelled,
            SubscriptionStatus::InsufficientBalance,
            SubscriptionStatus::GracePeriod,
            SubscriptionStatus::Expired,
        ],
        SubscriptionStatus::Paused => &[
            SubscriptionStatus::Active,
            SubscriptionStatus::Cancelled,
            SubscriptionStatus::Expired,
        ],
        SubscriptionStatus::Cancelled => &[SubscriptionStatus::Archived],
        SubscriptionStatus::InsufficientBalance => &[
            SubscriptionStatus::Active,
            SubscriptionStatus::Cancelled,
            SubscriptionStatus::Expired,
        ],
        SubscriptionStatus::GracePeriod => &[
            SubscriptionStatus::Active,
            SubscriptionStatus::Cancelled,
            SubscriptionStatus::InsufficientBalance,
            SubscriptionStatus::Expired,
        ],
        SubscriptionStatus::Expired => &[SubscriptionStatus::Archived],
        SubscriptionStatus::Archived => &[],
    }
}

/// The statuses that billing and the parties of a subscription move it between.
pub open spec fn is_billing_status(status: SubscriptionStatus) -> bool {
    status != SubscriptionStatus::Expired && status != SubscriptionStatus::Archived
}

/// The moves between billing statuses, written out pair by pair.
pub open spec fn listed_move(from: SubscriptionStatus, to: SubscriptionStatus) -> bool {
    from == to || match (from, to) {
        (SubscriptionStatus::Active, SubscriptionStatus::Paused) => true,
        (SubscriptionStatus::Active, SubscriptionStatus::Cancelled) => true,
        (SubscriptionStatus::Active, SubscriptionStatus::InsufficientBalance) => true,
        (SubscriptionStatus::Active, SubscriptionStatus::GracePeriod) => true,
        (SubscriptionStatus::Paused, SubscriptionStatus::Active) => true,
        (SubscriptionStatus::Paused, SubscriptionStatus::Cancelled) => true,
        (SubscriptionStatus::InsufficientBalance, SubscriptionStatus::Active) => true,
        (SubscriptionStatus::InsufficientBalance, SubscriptionStatus::Cancelled) => true,
        (SubscriptionStatus::GracePeriod, SubscriptionStatus::Active) => true,
        (SubscriptionStatus::GracePeriod, SubscriptionStatus::Cancelled) => true,
        (SubscriptionStatus::GracePeriod, SubscriptionStatus::InsufficientBalance) => true,
        _ => false,
    }
}

/// The table of moves between billing statuses, read entry by entry.
pub fn manual_can_transition(from: &SubscriptionStatus, to: &SubscriptionStatus) -> (listed: bool)
    ensures
        listed == listed_move(*from, *to),
{
    if *from == *to {
        return true;
    }
    match (from, to) {
        (SubscriptionStatus::Active, SubscriptionStatus::Paused) => true,
        (SubscriptionStatus::Active, SubscriptionStatus::Cancelled) => true,
        (SubscriptionStatus::Active, SubscriptionStatus::InsufficientBalance) => true,
        (SubscriptionStatus::Active, SubscriptionStatus::GracePeriod) => true,
        (SubscriptionStatus::Paused, SubscriptionStatus::Active) => true,
        (SubscriptionStatus::Paused, SubscriptionStatus::Cancelled) => true,
        (SubscriptionStatus::InsufficientBalance, SubscriptionStatus::Active) => true,
        (SubscriptionStatus::InsufficientBalance, SubscriptionStatus::Cancelled) => true,
        (SubscriptionStatus::GracePeriod, SubscriptionStatus::Active) => true,
        (SubscriptionStatus::GracePeriod, SubscriptionStatus::Cancelled) => true,
        (SubscriptionStatus::GracePeriod, SubscriptionStatus::InsufficientBalance) => true,
        _ => false,
    }
}

/// Between billing statuses the state machine allows exactly the moves of the table.
pub proof fn law_table_and_state_machine_agree(from: SubscriptionStatus, to: SubscriptionStatus)
    requires
        is_billing_status(from),
        is_billing_status(to),
    ensures
        legal_move(from, to) == listed_move(from, to),
{
}

/// The listed targets of a status are, without repetition, the statuses it can move to other than
/// itself.
pub proof fn law_targets_are_the_proper_moves(from: SubscriptionStatus, to: SubscriptionStatus)
    ensures
        targets(from).no_duplicates(),
        targets(from).contains(to) <==> from != to && legal_move(from, to),
{
    let all = targets(from);
    if from != to && legal_move(from, to) {
        let at: int = match (from, to) {
            (SubscriptionStatus::Active, SubscriptionStatus::Paused) => 0,
            (SubscriptionStatus::Active, SubscriptionStatus::Cancelled) => 1,
            (SubscriptionStatus::Active, SubscriptionStatus::InsufficientBalance) => 2,
            (SubscriptionStatus::Active, SubscriptionStatus::GracePeriod) => 3,
            (SubscriptionStatus::Active, _) => 4,
            (SubscriptionStatus::GracePeriod, SubscriptionStatus::Expired) => 3,
            (_, SubscriptionStatus::Active) => 0,
            (_, SubscriptionStatus::Archived) => 0,
            (_, SubscriptionStatus::Cancelled) => 1,
            (_, _) => 2,
        };
        assert(all[at] == to);
    }
}

/// Once cancelled, a subscription can only be kept as it is or archived.
pub proof fn law_cancelled_is_final(to: SubscriptionStatus)
    requires
        legal_move(SubscriptionStatus::Cancelled, to),
    ensures
        to == SubscriptionStatus::Cancelled || to == SubscriptionStatus::Archived,
{
}

/// Which statuses lead to which, seen from the status that is reached: a subscription becomes active
/// again out of a pause or a lack of funds; only an active one is paused or enters its grace period; a
/// lack of funds is reached from there too; whatever has not ended can be cancelled or expire; and what
/// has ended can only be archived, after which nothing comes.
pub proof fn law_statuses_are_reached_from_where_they_should(
    from: SubscriptionStatus,
    to: SubscriptionStatus,
)
    ensures
        ({
            let active = from == SubscriptionStatus::Active;
            let paused = from == SubscriptionStatus::Paused;
            let short = from == SubscriptionStatus::InsufficientBalance;
            let grace = from == SubscriptionStatus::GracePeriod;
            let ended = from == SubscriptionStatus::Cancelled || from
                == SubscriptionStatus::Expired;
            legal_move(from, to) <==> from == to || match to {
                SubscriptionStatus::Active => paused || short || grace,
                SubscriptionStatus::Paused => active,
                SubscriptionStatus::GracePeriod => active,
                SubscriptionStatus::InsufficientBalance => active || grace,
                SubscriptionStatus::Cancelled => active || paused || short || grace,
                SubscriptionStatus::Expired => active || paused || short || grace,
                SubscriptionStatus::Archived => ended,
            }
        }),
{
}

} // verus!
