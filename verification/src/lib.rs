//! Threshold-approval custody of a pool of value.
//!
//! A vault names a group of owners and a threshold. A transfer out of the
//! vault is first proposed by an owner, then approved by owners one at a
//! time, and moves value only once the number of distinct approvals has
//! reached the threshold and the vault would keep its minimum reserve.
//!
//! Every operation works on a snapshot of the accounts it touches and either
//! applies all of its effects or leaves the snapshot as it was.

pub mod identity;
pub mod error;
pub mod state;
pub mod accounts;
pub mod operations;
pub mod laws;

pub use accounts::{
    Approve, CancelProposal, CreateProposal, CreateVault, Deposit, Execute, VaultAccount, Wallet,
};
pub use error::ErrorCode;
pub use identity::Identity;
pub use operations::{
    approve, cancel_proposal, check_execute, create_proposal, create_vault, deposit, execute,
};
pub use state::{Proposal, Vault, MAX_OWNERS};
