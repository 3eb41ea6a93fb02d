//! The two persistent records, a vault and a proposal, with their
//! mathematical views and invariants.

use vstd::prelude::*;
use crate::identity::{contains, Identity};

verus! {

/// The largest number of owners a vault can have, and so the largest number
/// of approvals a proposal can collect.
pub const MAX_OWNERS: usize = 10;

/// The policy that governs one pool of value: who owns it, and how many of
/// the owners must approve a transfer out of it.
#[derive(Clone, Debug, PartialEq, Eq)]
pub struct Vault {
    /// The owners. Used as a set: only membership matters.
    pub owners: Vec<Identity>,
    /// How many distinct owners must approve a proposal before it executes.
    pub threshold: u8,
    /// The seal of the vault's derived address.
    pub bump: u8,
    /// How many proposals have been created for this vault so far.
    pub proposal_count: u64,
}

/// A vault as a mathematical value.
pub struct VaultView {
    pub owners: Seq<Identity>,
    pub threshold: nat,
    pub bump: u8,
    pub proposal_count: nat,
}

impl View for Vault {
    type V = VaultView;

    open spec fn view(&self) -> VaultView {
        VaultView {
            owners: self.owners@,
            threshold: self.threshold as nat,
            bump: self.bump,
            proposal_count: self.proposal_count as nat,
        }
    }
}

impl VaultView {
    /// The invariant of a vault: `0 < threshold <= |owners| <= MAX_OWNERS`.
    pub open spec fn wf(self) -> bool {
        0 < self.threshold <= self.owners.len() <= MAX_OWNERS
    }

    /// Whether `who` is one of the owners.
    pub open spec fn is_owner(self, who: Identity) -> bool {
        self.owners.contains(who)
    }
}

impl Vault {
    /// Whether `who` is one of the owners.
    pub fn is_owner(&self, who: &Identity) -> (found: bool)
        ensures
            found == self@.is_owner(*who),
    {
        contains(&self.owners, who)
    }
}

/// One proposed transfer out of a vault, with the approvals it has collected.
#[derive(Clone, Debug, PartialEq, Eq)]
pub struct Proposal {
    /// The address of the vault this proposal draws on.
    pub vault: Identity,
    /// Where the value goes.
    pub to: Identity,
    /// How much is to be moved.
    pub amount: u64,
    /// The owners who have approved, each at most once, in order of approval.
    pub approvals: Vec<Identity>,
    /// Set once, by execution or by cancellation, and never cleared.
    pub executed: bool,
    /// The vault's proposal count at the time of creation.
    pub proposal_id: u64,
    /// The seal of the proposal's derived address.
    pub bump: u8,
}

/// A proposal as a mathematical value.
pub struct ProposalView {
    pub vault: Identity,
    pub to: Identity,
    pub amount: nat,
    pub approvals: Seq<Identity>,
    pub executed: bool,
    pub proposal_id: nat,
    pub bump: u8,
}

impl View for Proposal {
    type V = ProposalView;

    open spec fn view(&self) -> ProposalView {
        ProposalView {
            vault: self.vault,
            to: self.to,
            amount: self.amount as nat,
            approvals: self.approvals@,
            executed: self.executed,
            proposal_id: self.proposal_id as nat,
            bump: self.bump,
        }
    }
}

impl ProposalView {
    /// Whether `who` has approved this proposal.
    pub open spec fn approved_by(self, who: Identity) -> bool {
        self.approvals.contains(who)
    }

    /// Whether the approvals have reached the vault's threshold.
    pub open spec fn has_quorum(self, vault: VaultView) -> bool {
        self.approvals.len() >= vault.threshold
    }

    /// The invariant of a proposal of the vault `vault` stored at `vault_key`:
    /// it refers back to that vault, was numbered by it, and its approvals are
    /// distinct owners of it.
    pub open spec fn wf(self, vault_key: Identity, vault: VaultView) -> bool {
        &&& self.vault == vault_key
        &&& self.proposal_id < vault.proposal_count
        &&& self.approvals.no_duplicates()
        &&& forall|i: int|
            0 <= i < self.approvals.len() ==> vault.is_owner(#[trigger] self.approvals[i])
    }

    /// Whether `later` can be a later state of this proposal: the terms are
    /// the same, the approvals of now are the first of those of later, and
    /// the terminal state, once reached, is kept.
    pub open spec fn precedes(self, later: ProposalView) -> bool {
        &&& later.vault == self.vault
        &&& later.to == self.to
        &&& later.amount == self.amount
        &&& later.proposal_id == self.proposal_id
        &&& later.bump == self.bump
        &&& self.approvals.is_prefix_of(later.approvals)
        &&& self.executed ==> later.executed
    }

    /// This proposal with one more approval, by `who`.
    pub open spec fn with_approval(self, who: Identity) -> ProposalView {
        ProposalView { approvals: self.approvals.push(who), ..self }
    }

    /// This proposal in its terminal state.
    pub open spec fn closed(self) -> ProposalView {
        ProposalView { executed: true, ..self }
    }
}

impl Proposal {
    /// Whether `who` has approved this proposal.
    pub fn approved_by(&self, who: &Identity) -> (found: bool)
        ensures
            found == self@.approved_by(*who),
    {
        contains(&self.approvals, who)
    }

    /// Whether the approvals have reached the threshold of `vault`.
    pub fn has_quorum(&self, vault: &Vault) -> (reached: bool)
        ensures
            reached == self@.has_quorum(vault@),
    {
        self.approvals.len() >= vault.threshold as usize
    }
}

} // verus!
