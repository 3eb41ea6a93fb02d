//! The reasons for which a request is rejected.

use vstd::prelude::*;

verus! {

/// Why a request was rejected. A rejected request changes nothing.
#[derive(Clone, Copy, Debug, PartialEq, Eq, Structural, Hash)]
pub enum ErrorCode {
    /// The threshold is zero or larger than the number of owners.
    InvalidThreshold,
    /// More owners were named than a vault can hold.
    TooManyOwners,
    /// The requester is not among the owners of the vault.
    NotOwner,
    /// The requester has approved this proposal before.
    AlreadyApproved,
    /// Fewer owners have approved than the threshold asks for.
    NotEnoughApprovals,
    /// The proposal has reached its terminal state.
    AlreadyExecuted,
    /// The transfer would leave the vault below its minimum reserve.
    InsufficientFunds,
    /// The vault is not the one the proposal was made for.
    InvalidVault,
    /// The destination is not the one the proposal names.
    InvalidDestination,
}

impl ErrorCode {
    /// The fixed text that describes each reason.
    pub open spec fn message_text(self) -> Seq<char> {
        match self {
            ErrorCode::InvalidThreshold => "Invalid threshold: must be > 0 and <= number of owners"@,
            ErrorCode::TooManyOwners => "Too many owners: maximum 10 allowed"@,
            ErrorCode::NotOwner => "Signer is not an owner of this vault"@,
            ErrorCode::AlreadyApproved => "Proposal already approved by this signer"@,
            ErrorCode::NotEnoughApprovals => "Not enough approvals to execute proposal"@,
            ErrorCode::AlreadyExecuted => "Proposal already executed"@,
            ErrorCode::InsufficientFunds => "Vault has insufficient funds"@,
            ErrorCode::InvalidVault => "Invalid vault for this proposal"@,
            ErrorCode::InvalidDestination => "Invalid destination address"@,
        }
    }

    /// The human-readable cause of this rejection.
    pub fn message(&self) -> (text: &'static str)
        ensures
            text@ == self.message_text(),
    {
        match self {
            ErrorCode::InvalidThreshold => "Invalid threshold: must be > 0 and <= number of owners",
            ErrorCode::TooManyOwners => "Too many owners: maximum 10 allowed",
            ErrorCode::NotOwner => "Signer is not an owner of this vault",
            ErrorCode::AlreadyApproved => "Proposal already approved by this signer",
            ErrorCode::NotEnoughApprovals => "Not enough approvals to execute proposal",
            ErrorCode::AlreadyExecuted => "Proposal already executed",
            ErrorCode::InsufficientFunds => "Vault has insufficient funds",
            ErrorCode::InvalidVault => "Invalid vault for this proposal",
            ErrorCode::InvalidDestination => "Invalid destination address",
        }
    }
}

/// The answer to a request that was rejected for `reason`.
pub open spec fn rejected(reason: ErrorCode) -> Result<(), ErrorCode> {
    Err(reason)
}

} // verus!
