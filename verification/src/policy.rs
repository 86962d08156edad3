//! Who may do what, and how the others are answered.
use crate::error::Error;
use crate::roles::{Operation, Role};
use crate::text::{mentions, text_mentions};
use vstd::prelude::*;

verus! {

/// Whom an operation is reserved for.
pub enum Privilege {
    AdminOnly,
    SubscriberOnly,
    MerchantOnly,
    /// The two parties of a subscription.
    EitherParty,
}

/// Whom `op` is reserved for.
pub open spec fn privilege(op: Operation) -> Privilege {
    match op {
        Operation::WithdrawSubscriberFunds => Privilege::SubscriberOnly,
        Operation::DepositFunds
        | Operation::CancelSubscription
        | Operation::PauseSubscription
        | Operation::ResumeSubscription => Privilege::EitherParty,
        Operation::ChargeOneOff
        | Operation::WithdrawMerchantFunds
        | Operation::WithdrawMerchantTokenFunds
        | Operation::PauseMerchant
        | Operation::UnpauseMerchant
        | Operation::ConfigureUsageLimits
        | Operation::MerchantRefund => Privilege::MerchantOnly,
        _ => Privilege::AdminOnly,
    }
}

/// `caller` may carry `op` out.
pub open spec fn allowed(op: Operation, caller: Role) -> bool {
    match privilege(op) {
        Privilege::AdminOnly => caller == Role::Admin,
        Privilege::SubscriberOnly => caller == Role::Subscriber,
        Privilege::MerchantOnly => caller == Role::Merchant,
        Privilege::EitherParty => caller == Role::Subscriber || caller == Role::Merchant,
    }
}

/// Whether `caller` may carry `op` out.
pub fn is_operation_allowed(op: Operation, caller: Role) -> (permitted: bool)
    ensures
        permitted == allowed(op, caller),
{
    match op {
        Operation::SetMinTopup
        | Operation::RotateAdmin
        | Operation::SetProtocolFee
        | Operation::RecoverStrandedFunds
        | Operation::EnableEmergencyStop
        | Operation::DisableEmergencyStop
        | Operation::PartialRefund
        | Operation::BatchCharge
        | Operation::AddAcceptedToken
        | Operation::RemoveAcceptedToken
        | Operation::SetSubscriberCreditLimit
        | Operation::ExportContractSnapshot
        | Operation::ExportSubscriptionSummary
        | Operation::ExportSubscriptionSummaries
        | Operation::SetBillingRetention
        | Operation::CompactBillingStatements
        | Operation::SetOracleConfig
        | Operation::AddToBlocklist
        | Operation::RemoveFromBlocklist => caller == Role::Admin,
        Operation::WithdrawSubscriberFunds => caller == Role::Subscriber,
        Operation::DepositFunds
        | Operation::CancelSubscription
        | Operation::PauseSubscription
        | Operation::ResumeSubscription => {
            matches!(caller, Role::Subscriber | Role::Merchant)
        },
        Operation::ChargeOneOff
        | Operation::WithdrawMerchantFunds
        | Operation::WithdrawMerchantTokenFunds
        | Operation::PauseMerchant
        | Operation::UnpauseMerchant
        | Operation::ConfigureUsageLimits
        | Operation::MerchantRefund => caller == Role::Merchant,
    }
}

/// The error with which the vault answers a caller who may not carry `op` out.
pub open spec fn denial(op: Operation) -> Error {
    match op {
        Operation::SetProtocolFee
        | Operation::AddToBlocklist
        | Operation::CancelSubscription
        | Operation::PauseSubscription
        | Operation::ResumeSubscription
        | Operation::WithdrawSubscriberFunds
        | Operation::ConfigureUsageLimits => Error::Forbidden,
        _ => Error::Unauthorized,
    }
}

/// The operation is carried out in the merchant's own name, so a caller without the merchant's
/// signature is cut off before the vault decides anything.
pub open spec fn needs_merchant_signature(op: Operation) -> bool {
    op == Operation::PauseMerchant || op == Operation::UnpauseMerchant
}

/// The operation is paid out of a merchant's earnings, so a caller without any is answered that
/// there is nothing to pay out of.
pub open spec fn pays_out_earnings(op: Operation) -> bool {
    op == Operation::WithdrawMerchantFunds || op == Operation::WithdrawMerchantTokenFunds || op
        == Operation::MerchantRefund
}

/// Whether a missing signature counts as a denial of `op`.
pub fn merchant_op_needs_abort_ok(op: Operation) -> (needed: bool)
    ensures
        needed == needs_merchant_signature(op),
{
    matches!(op, Operation::PauseMerchant | Operation::UnpauseMerchant)
}

pub open spec fn tag_text(error: Error) -> Seq<char> {
    match error {
        Error::Unauthorized => "Unauthorized"@,
        Error::Forbidden => "Forbidden"@,
        _ => "Other"@,
    }
}

/// The name under which a denial shows up in the text of a reply.
pub fn error_variant_tag(e: Error) -> (tag: &'static str)
    ensures
        tag@ == tag_text(e),
{
    match e {
        Error::Unauthorized => "Unauthorized",
        Error::Forbidden => "Forbidden",
        _ => "Other",
    }
}

/// `have` is the text of a successful reply.
pub open spec fn reads_as_success(have: Seq<char>) -> bool {
    mentions(have, "Ok(Ok("@) || mentions(have, "Ok(Ok ("@)
}

/// `have` is the text of a reply that denies `op`, with the error `want` or in one of the ways that
/// are particular to the operation.
pub open spec fn reads_as_denial(have: Seq<char>, want: Error, op: Operation) -> bool {
    ||| mentions(have, tag_text(want))
    ||| (needs_merchant_signature(op) || op == Operation::BatchCharge) && mentions(have, "Abort"@)
    ||| op == Operation::DepositFunds && (mentions(have, "Contract(10)"@) || mentions(
        have,
        "Unauthorized"@,
    ))
    ||| pays_out_earnings(op) && mentions(have, "NotFound"@)
}

/// Whether the text of a reply is what the authorization rules ask for.
pub fn assert_auth_debug(allowed: bool, have: &str, want: Error, op: Operation, role: Role) -> (as_expected:
    bool)
    ensures
        as_expected == (if allowed {
            reads_as_success(have@)
        } else {
            reads_as_denial(have@, want, op)
        }),
{
    if allowed {
        return text_mentions(have, "Ok(Ok(") || text_mentions(have, "Ok(Ok (");
    }
    if text_mentions(have, error_variant_tag(want)) {
        return true;
    }
    if (merchant_op_needs_abort_ok(op) || op == Operation::BatchCharge) && text_mentions(
        have,
        "Abort",
    ) {
        return true;
    }
    if op == Operation::DepositFunds {
        return text_mentions(have, "Contract(10)") || text_mentions(have, "Unauthorized");
    }
    matches!(
        op,
        Operation::WithdrawMerchantFunds
            | Operation::WithdrawMerchantTokenFunds
            | Operation::MerchantRefund
    ) && text_mentions(have, "NotFound")
}

/// Whether the text of a reply names the error `Unauthorized`.
pub fn assert_try_unauthorized(s: &str) -> (as_expected: bool)
    ensures
        as_expected == mentions(s@, "Unauthorized"@),
{
    text_mentions(s, "Unauthorized")
}

/// Whether the text of a reply names the error `Forbidden`.
pub fn assert_try_forbidden(s: &str) -> (as_expected: bool)
    ensures
        as_expected == mentions(s@, "Forbidden"@),
{
    text_mentions(s, "Forbidden")
}

/// Every operation is open to someone, and none to everyone.
pub proof fn law_every_operation_has_a_holder_and_an_outsider(op: Operation)
    ensures
        exists|caller: Role| allowed(op, caller),
        !allowed(op, Role::Stranger),
{
    assert(allowed(op, Role::Admin) || allowed(op, Role::Subscriber) || allowed(
        op,
        Role::Merchant,
    ));
}

/// A reply that hands something back names it behind two words of success. A denial is told by the name
/// of the error; by a missing signature only for batches and for the blanket pause; by the token
/// contract only for deposits; and by missing earnings only where earnings are paid out.
pub proof fn law_replies_are_read_by_their_words(have: Seq<char>, op: Operation)
    ensures
        reads_as_success(have) <==> mentions(have, "Ok(Ok("@) || mentions(have, "Ok(Ok ("@),
        ({
            let by_signature = op == Operation::BatchCharge || op == Operation::PauseMerchant || op
                == Operation::UnpauseMerchant;
            let by_token = op == Operation::DepositFunds;
            let by_earnings = op == Operation::WithdrawMerchantFunds || op
                == Operation::WithdrawMerchantTokenFunds || op == Operation::MerchantRefund;
            let told_apart = (mentions(have, "Abort"@) && by_signature) || (mentions(
                have,
                "Contract(10)"@,
            ) && by_token) || (mentions(have, "NotFound"@) && by_earnings);
            &&& reads_as_denial(have, Error::Unauthorized, op) <==> mentions(have, "Unauthorized"@)
                || told_apart
            &&& reads_as_denial(have, Error::Forbidden, op) <==> mentions(have, "Forbidden"@) || (
            mentions(have, "Unauthorized"@) && by_token) || told_apart
        }),
{
}

} // verus!
