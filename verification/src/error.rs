//! Contract errors, their numeric codes, and the ways a call can fail.
use crate::address::Address;
use vstd::prelude::*;

verus! {

/// Why the vault refuses a request.
#[derive(Debug, Clone, Copy, PartialEq, Eq, Structural)]
pub enum Error {
    /// The requested status cannot be reached from the current one.
    InvalidStatusTransition,
    /// The caller is not the principal this entry point is reserved for.
    Unauthorized,
    /// A deposit is smaller than the configured minimum.
    BelowMinimumTopup,
    /// The caller has no part in the subscription or the configuration it addresses.
    Forbidden,
    /// No such subscription, plan, balance or entry.
    NotFound,
    /// The billing interval has not elapsed yet.
    IntervalNotElapsed,
    /// The subscription is in a status in which it cannot be charged.
    NotActive,
    /// The balance does not cover the amount.
    InsufficientBalance,
    /// The amount is not positive.
    InvalidAmount,
    /// The request has already been carried out.
    Replay,
    /// A sum or a timestamp leaves the range of its type.
    Overflow,
    /// The charge would take the subscription past its lifetime cap.
    LifetimeCapReached,
    /// Every identifier has been used.
    SubscriptionLimitReached,
    /// The subscription is past its expiration time.
    SubscriptionExpired,
    /// A parameter is out of range.
    InvalidInput,
    /// The subscriber's commitments would exceed the configured limit.
    CreditLimitExceeded,
}

impl Error {
    pub open spec fn code(self) -> u32 {
        match self {
            Error::InvalidStatusTransition => 400,
            Error::Unauthorized => 401,
            Error::BelowMinimumTopup => 402,
            Error::Forbidden => 403,
            Error::NotFound => 404,
            Error::IntervalNotElapsed => 1001,
            Error::NotActive => 1002,
            Error::InsufficientBalance => 1003,
            Error::InvalidAmount => 1006,
            Error::Replay => 1007,
            Error::Overflow => 1010,
            Error::LifetimeCapReached => 1012,
            Error::SubscriptionLimitReached => 1013,
            Error::SubscriptionExpired => 1014,
            Error::InvalidInput => 1015,
            Error::CreditLimitExceeded => 1016,
        }
    }

    /// The stable number under which clients see this error.
    pub fn to_code(self) -> (code: u32)
        ensures
            code == self.code(),
    {
        match self {
            Error::InvalidStatusTransition => 400,
            Error::Unauthorized => 401,
            Error::BelowMinimumTopup => 402,
            Error::Forbidden => 403,
            Error::NotFound => 404,
            Error::IntervalNotElapsed => 1001,
            Error::NotActive => 1002,
            Error::InsufficientBalance => 1003,
            Error::InvalidAmount => 1006,
            Error::Replay => 1007,
            Error::Overflow => 1010,
            Error::LifetimeCapReached => 1012,
            Error::SubscriptionLimitReached => 1013,
            Error::SubscriptionExpired => 1014,
            Error::InvalidInput => 1015,
            Error::CreditLimitExceeded => 1016,
        }
    }
}

/// Two different errors never share a code, and no error has code zero, which stands for success.
pub proof fn law_error_codes_identify_errors(a: Error, b: Error)
    ensures
        a.code() == b.code() ==> a == b,
        a.code() != 0,
{
}

/// How a call can fail.
#[derive(Debug, Clone, Copy, PartialEq, Eq, Structural)]
pub enum Failure {
    /// The vault refused the request.
    Contract(Error),
    /// The call is cut off before the vault decides anything: a required signature is missing, or an
    /// argument is not of its type.
    Abort,
    /// The token contract refused the transfer.
    Token,
}

/// What a call comes back with.
pub type Reply<T> = Result<T, Failure>;

/// The accounts whose signatures accompany a call.
#[derive(Debug, Clone, Copy, PartialEq, Eq, Structural)]
pub enum Signers {
    Everyone,
    Nobody,
    Only(Address),
}

impl Signers {
    pub open spec fn covers(self, address: Address) -> bool {
        match self {
            Signers::Everyone => true,
            Signers::Nobody => false,
            Signers::Only(signer) => signer == address,
        }
    }

    /// Whether `address` has signed.
    pub fn has_signed(&self, address: Address) -> (signed: bool)
        ensures
            signed == self.covers(address),
    {
        match self {
            Signers::Everyone => true,
            Signers::Nobody => false,
            Signers::Only(signer) => *signer == address,
        }
    }
}

/// Keeps of a reply only whether it is a success, and if not, why.
pub(crate) fn discard<T>(reply: Reply<T>) -> (outcome: Reply<()>)
    ensures
        outcome == (match reply {
            Ok(_) => Ok::<(), Failure>(()),
            Err(failure) => Err::<(), Failure>(failure),
        }),
{
    match reply {
        Ok(_) => Ok(()),
        Err(failure) => Err(failure),
    }
}

} // verus!
