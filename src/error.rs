use vstd::prelude::*;

verus! {

/// Every way in which a request to the contract can be refused.
#[derive(Debug, Clone, Copy, PartialEq, Eq, Structural)]
pub enum ContractError {
    /// The configuration record has not been written yet.
    NotInitialized,
    /// The caller is not allowed to perform the operation, or a token payment
    /// was forwarded while the policy asks for native coins.
    Unauthorized,
    /// A forwarded token payment does not match the configured amount.
    InsufficientFunds,
    /// Native funds of the right denomination but the wrong amount.
    PaymentMismatch,
    /// Native funds in a denomination other than the configured one.
    WrongDenom,
    /// Token payment forwarded by a token contract other than the configured one.
    UnrecognisedToken,
    /// Funds attached where nothing has to be paid.
    UnexpectedPayment,
    /// A direct call while the policy asks for a forwarded token payment.
    WrongPaymentChannel,
    /// No root name is held, so no path can be minted.
    NoRootToken,
    /// A root name is already held.
    ExistingRootToken,
    /// A token payment arrived while minting is free.
    NoPaymentPolicy,
    /// The payer may mint this path for free during the claim window.
    NoPaymentNeeded,
    /// There is no policy, or no balance, to collect.
    NoPaymentsToCollect,
    /// A payment policy with an amount of zero.
    InvalidPaymentAmount,
    /// The configured token address does not answer as a token contract.
    InvalidTokenReference,
    /// Only the owner of the matching top-level name may mint this path now.
    ClaimWindowActive,
}

} // verus!
