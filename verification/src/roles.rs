//! The principals that call into the vault, and the operations that are reserved for some of them.
use vstd::prelude::*;

verus! {

/// The four kinds of principal.
#[derive(Debug, Clone, Copy, PartialEq, Eq, Structural)]
pub enum Role {
    Admin,
    Subscriber,
    Merchant,
    Stranger,
}

/// Every role, in declaration order.
pub open spec fn every_role() -> Seq<Role> {
    seq![Role::Admin, Role::Subscriber, Role::Merchant, Role::Stranger]
}

impl Role {
    /// Every role, once.
    pub fn all() -> (roles: &'static [Role])
        ensures
            roles@ == every_role(),
    {
        &[Role::Admin, Role::Subscriber, Role::Merchant, Role::Stranger]
    }
}

/// An entry point of the vault that not every principal may use.
#[derive(Debug, Clone, Copy, PartialEq, Eq, Structural)]
pub enum Operation {
    SetMinTopup,
    RotateAdmin,
    SetProtocolFee,
    RecoverStrandedFunds,
    EnableEmergencyStop,
    DisableEmergencyStop,
    DepositFunds,
    CancelSubscription,
    PauseSubscription,
    ResumeSubscription,
    ChargeOneOff,
    WithdrawSubscriberFunds,
    WithdrawMerchantFunds,
    WithdrawMerchantTokenFunds,
    PauseMerchant,
    UnpauseMerchant,
    MerchantRefund,
    ConfigureUsageLimits,
    PartialRefund,
    BatchCharge,
    AddAcceptedToken,
    RemoveAcceptedToken,
    SetSubscriberCreditLimit,
    ExportContractSnapshot,
    ExportSubscriptionSummary,
    ExportSubscriptionSummaries,
    SetBillingRetention,
    CompactBillingStatements,
    SetOracleConfig,
    AddToBlocklist,
    RemoveFromBlocklist,
}

/// Every operation, in declaration order.
pub open spec fn every_operation() -> Seq<Operation> {
    seq![
        Operation::SetMinTopup,
        Operation::RotateAdmin,
        Operation::SetProtocolFee,
        Operation::RecoverStrandedFunds,
        Operation::EnableEmergencyStop,
        Operation::DisableEmergencyStop,
        Operation::DepositFunds,
        Operation::CancelSubscription,
        Operation::PauseSubscription,
        Operation::ResumeSubscription,
        Operation::ChargeOneOff,
        Operation::WithdrawSubscriberFunds,
        Operation::WithdrawMerchantFunds,
        Operation::WithdrawMerchantTokenFunds,
        Operation::PauseMerchant,
        Operation::UnpauseMerchant,
        Operation::MerchantRefund,
        Operation::ConfigureUsageLimits,
        Operation::PartialRefund,
        Operation::BatchCharge,
        Operation::AddAcceptedToken,
        Operation::RemoveAcceptedToken,
        Operation::SetSubscriberCreditLimit,
        Operation::ExportContractSnapshot,
        Operation::ExportSubscriptionSummary,
        Operation::ExportSubscriptionSummaries,
        Operation::SetBillingRetention,
        Operation::CompactBillingStatements,
        Operation::SetOracleConfig,
        Operation::AddToBlocklist,
        Operation::RemoveFromBlocklist,
    ]
}

impl Operation {
    /// Every operation, once.
    pub fn all() -> (operations: &'static [Operation])
        ensures
            operations@ == every_operation(),
    {
        &[
            Operation::SetMinTopup,
            Operation::RotateAdmin,
            Operation::SetProtocolFee,
            Operation::RecoverStrandedFunds,
            Operation::EnableEmergencyStop,
            Operation::DisableEmergencyStop,
            Operation::DepositFunds,
            Operation::CancelSubscription,
            Operation::PauseSubscription,
            Operation::ResumeSubscription,
            Operation::ChargeOneOff,
            Operation::WithdrawSubscriberFunds,
            Operation::WithdrawMerchantFunds,
            Operation::WithdrawMerchantTokenFunds,
            Operation::PauseMerchant,
            Operation::UnpauseMerchant,
            Operation::MerchantRefund,
            Operation::ConfigureUsageLimits,
            Operation::PartialRefund,
            Operation::BatchCharge,
            Operation::AddAcceptedToken,
            Operation::RemoveAcceptedToken,
            Operation::SetSubscriberCreditLimit,
            Operation::ExportContractSnapshot,
            Operation::ExportSubscriptionSummary,
            Operation::ExportSubscriptionSummaries,
            Operation::SetBillingRetention,
            Operation::CompactBillingStatements,
            Operation::SetOracleConfig,
            Operation::AddToBlocklist,
            Operation::RemoveFromBlocklist,
        ]
    }

    /// The place of an operation in the list of all operations.
    pub open spec fn place(self) -> int {
        match self {
            Operation::SetMinTopup => 0,
            Operation::RotateAdmin => 1,
            Operation::SetProtocolFee => 2,
            Operation::RecoverStrandedFunds => 3,
            Operation::EnableEmergencyStop => 4,
            Operation::DisableEmergencyStop => 5,
            Operation::DepositFunds => 6,
            Operation::CancelSubscription => 7,
            Operation::PauseSubscription => 8,
            Operation::ResumeSubscription => 9,
            Operation::ChargeOneOff => 10,
            Operation::WithdrawSubscriberFunds => 11,
            Operation::WithdrawMerchantFunds => 12,
            Operation::WithdrawMerchantTokenFunds => 13,
            Operation::PauseMerchant => 14,
            Operation::UnpauseMerchant => 15,
            Operation::MerchantRefund => 16,
            Operation::ConfigureUsageLimits => 17,
            Operation::PartialRefund => 18,
            Operation::BatchCharge => 19,
            Operation::AddAcceptedToken => 20,
            Operation::RemoveAcceptedToken => 21,
            Operation::SetSubscriberCreditLimit => 22,
            Operation::ExportContractSnapshot => 23,
            Operation::ExportSubscriptionSummary => 24,
            Operation::ExportSubscriptionSummaries => 25,
            Operation::SetBillingRetention => 26,
            Operation::CompactBillingStatements => 27,
            Operation::SetOracleConfig => 28,
            Operation::AddToBlocklist => 29,
            Operation::RemoveFromBlocklist => 30,
        }
    }
}

/// The list of roles holds every role exactly once.
pub proof fn law_roles_are_enumerated(role: Role)
    ensures
        every_role().contains(role),
        every_role().no_duplicates(),
{
    let at: int = match role {
        Role::Admin => 0,
        Role::Subscriber => 1,
        Role::Merchant => 2,
        Role::Stranger => 3,
    };
    assert(every_role()[at] == role);
}

/// The list of operations holds every operation exactly once.
pub proof fn law_operations_are_enumerated(operation: Operation)
    ensures
        every_operation().contains(operation),
        every_operation().no_duplicates(),
{
    assert(every_operation()[operation.place()] == operation);
    assert forall|i: int| 0 <= i < every_operation().len() implies (
    #[trigger] every_operation()[i]).place() == i by {}
}

} // verus!
