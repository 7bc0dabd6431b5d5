//! Error taxonomy for the pre-propose module: identity checks, policy
//! configuration, deposits, protocol violations and migration.

use vstd::prelude::*;
use crate::types::Status;

verus! {

/// Errors raised by submission-policy validation and evaluation.
#[derive(Clone, Debug, PartialEq, Eq)]
pub enum PreProposeSubmissionPolicyError {
    /// The policy would allow nobody to submit proposals.
    NoOneAllowed,
    /// The denylist and the allowlist share an address.
    DenylistAllowlistOverlap,
    /// The address asking to submit is not allowed to.
    Unauthorized,
    /// A field that only applies to the `Specific` variant was given
    /// while the active policy is `Anyone`.
    AnyoneInvalidUpdateFields,
}

/// Errors raised while checking a denomination.
#[derive(Clone, Debug, PartialEq, Eq)]
pub enum DenomError {
    /// A native denomination must be between 3 and 128 characters long.
    NativeDenomLength { len: usize },
    /// A native denomination must start with an ASCII letter.
    NonAlphabeticAscii,
    /// A native denomination may only contain ASCII letters, digits,
    /// and the separators `/`, `:`, `.`, `_`, `-`.
    InvalidCharacter,
    /// The contract-token address did not check out as a token.
    InvalidCw20,
}

/// Errors raised while collecting funds sent along with a submission.
#[derive(Clone, Debug, PartialEq, Eq)]
pub enum PaymentError {
    /// No funds were sent although a deposit is required.
    NoFunds,
    /// More than one denomination was sent.
    MultipleDenoms,
    /// The required denomination is not among the funds sent.
    MissingDenom,
}

/// Errors raised while taking or resolving a deposit.
#[derive(Clone, Debug, PartialEq, Eq)]
pub enum DepositError {
    /// The funds sent do not form a valid payment.
    Payment(PaymentError),
    /// The deposit denomination is invalid.
    Denom(DenomError),
    /// A configured deposit must be a positive amount.
    ZeroDeposit,
    /// The funds sent do not cover the required amount.
    InvalidDeposit { actual: u128, expected: u128 },
}

/// The error type of the gating contract.
#[derive(Clone, Debug, PartialEq, Eq)]
pub enum PreProposeError {
    /// The sender is not the DAO.
    NotDao,
    /// The sender is not the proposal module.
    NotModule,
    /// A proposal completion was reported with a non-terminal status.
    NotCompleted { status: Status },
    /// No denomination could be determined for a withdrawal.
    NoWithdrawalDenom,
    /// The balance to withdraw is zero.
    NothingToWithdraw,
    /// The submission policy rejected the request.
    SubmissionPolicy(PreProposeSubmissionPolicyError),
    /// Taking or checking the deposit failed.
    Deposit(DepositError),
    /// Checking a denomination failed.
    Denom(DenomError),
    /// An address to add to a list is already on it.
    AlreadyInList,
    /// The hook subscriber to add is already registered.
    HookAlreadyRegistered,
    /// No deposit is recorded under the given proposal id.
    NoSuchDeposit { proposal_id: u64 },
    /// The stored contract version is outside the supported migration range.
    CannotMigrateVersion { required: String, actual: String },
    /// The requested operation is not implemented.
    Unimplemented,
}

} // verus!
