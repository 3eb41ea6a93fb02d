//! Snapshots of the storage accounts that a request touches.
//!
//! The ledger that stores the accounts authenticates the requesters, applies
//! each request as a whole or not at all, and derives the addresses. A
//! request is handed the accounts it names as plain values, one set per
//! kind of request, and hands them back as they are to be stored.

use vstd::prelude::*;
use crate::identity::Identity;
use crate::state::{Proposal, Vault};

verus! {

/// An account that holds nothing but a balance.
#[derive(Clone, Copy, Debug, PartialEq, Eq)]
pub struct Wallet {
    /// The address of the account.
    pub key: Identity,
    /// Its balance, in the ledger's native unit.
    pub balance: u64,
}

/// The account that stores a vault and holds the vault's pool of value.
#[derive(Clone, Debug, PartialEq, Eq)]
pub struct VaultAccount {
    /// The address of the account.
    pub key: Identity,
    /// The balance of the pool, in the ledger's native unit.
    pub balance: u64,
    /// The vault's record.
    pub data: Vault,
}

/// The accounts of a request to create a vault.
#[derive(Clone, Debug, PartialEq, Eq)]
pub struct CreateVault {
    /// The freshly allocated account that is to hold the vault.
    pub vault: VaultAccount,
    /// The seal of the address that was derived for the vault.
    pub bump: u8,
}

/// The accounts of a request to create a proposal.
#[derive(Clone, Debug, PartialEq, Eq)]
pub struct CreateProposal {
    /// The freshly allocated record that is to hold the proposal.
    pub proposal: Proposal,
    /// The vault the proposal draws on.
    pub vault: VaultAccount,
    /// Who makes the proposal.
    pub proposer: Identity,
    /// The seal of the address that was derived for the proposal.
    pub bump: u8,
}

/// The accounts of a request to approve a proposal.
#[derive(Clone, Debug, PartialEq, Eq)]
pub struct Approve {
    /// The proposal to approve.
    pub proposal: Proposal,
    /// The vault the proposal is said to draw on.
    pub vault: VaultAccount,
    /// Who approves.
    pub signer: Identity,
}

/// The accounts of a request to execute a proposal.
///
/// The vault and the destination are taken as two accounts, each with a
/// balance of its own.
#[derive(Clone, Debug, PartialEq, Eq)]
pub struct Execute {
    /// The proposal to execute.
    pub proposal: Proposal,
    /// The vault the value is to leave.
    pub vault: VaultAccount,
    /// The account the value is to reach.
    pub to: Wallet,
}

/// The accounts of a deposit into a vault.
///
/// The depositor and the vault are taken as two accounts, each with a
/// balance of its own.
#[derive(Clone, Debug, PartialEq, Eq)]
pub struct Deposit {
    /// Who pays in.
    pub depositor: Wallet,
    /// The vault that receives.
    pub vault: VaultAccount,
}

/// The accounts of a request to cancel a proposal.
#[derive(Clone, Debug, PartialEq, Eq)]
pub struct CancelProposal {
    /// The proposal to cancel.
    pub proposal: Proposal,
    /// The vault the proposal is said to draw on.
    pub vault: VaultAccount,
    /// Who cancels.
    pub canceller: Identity,
}

} // verus!
