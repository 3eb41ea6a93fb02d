//! The six requests. Each one is checked against the snapshot it is given
//! and then applied to it; a rejected request leaves the snapshot as it was.

use vstd::prelude::*;
use crate::accounts::{Approve, CancelProposal, CreateProposal, CreateVault, Deposit, Execute};
use crate::error::{rejected, ErrorCode};
use crate::identity::Identity;
use crate::laws::{approval_keeps_invariants, proposal_creation_keeps_invariants};
use crate::state::{ProposalView, VaultView, MAX_OWNERS};

verus! {

/// Whether a vault that holds `balance` keeps at least `minimum_reserve`
/// once `amount` has left it. The difference is taken over the integers, so
/// an amount larger than the balance is never covered.
pub open spec fn covers(balance: u64, amount: u64, minimum_reserve: u64) -> bool {
    balance - amount >= minimum_reserve
}

/// What becomes of a request to execute: the first check that fails decides.
pub open spec fn execute_outcome(ctx: Execute, minimum_reserve: u64) -> Result<(), ErrorCode> {
    if ctx.proposal.executed {
        Err(ErrorCode::AlreadyExecuted)
    } else if !ctx.proposal@.has_quorum(ctx.vault.data@) {
        Err(ErrorCode::NotEnoughApprovals)
    } else if ctx.to.key != ctx.proposal.to {
        Err(ErrorCode::InvalidDestination)
    } else if ctx.proposal.vault != ctx.vault.key {
        Err(ErrorCode::InvalidVault)
    } else if !covers(ctx.vault.balance, ctx.proposal.amount, minimum_reserve) {
        Err(ErrorCode::InsufficientFunds)
    } else {
        Ok(())
    }
}

/// How an accepted execution changes the snapshot: the proposal reaches its
/// terminal state, the amount leaves the vault and reaches the destination,
/// and nothing else changes.
pub open spec fn execute_applied(pre: Execute, post: Execute) -> bool {
    &&& post.proposal@ == pre.proposal@.closed()
    &&& post.vault.balance == pre.vault.balance - pre.proposal.amount
    &&& post.to.balance == pre.to.balance + pre.proposal.amount
    &&& post.vault.key == pre.vault.key
    &&& post.vault.data@ == pre.vault.data@
    &&& post.to.key == pre.to.key
}

/// Says what `execute` would answer, and changes nothing.
pub fn check_execute(ctx: &Execute, minimum_reserve: u64) -> (r: Result<(), ErrorCode>)
    ensures
        r == execute_outcome(*ctx, minimum_reserve),
{
    if ctx.proposal.executed {
        return Err(ErrorCode::AlreadyExecuted);
    }
    if !ctx.proposal.has_quorum(&ctx.vault.data) {
        return Err(ErrorCode::NotEnoughApprovals);
    }
    if ctx.to.key != ctx.proposal.to {
        return Err(ErrorCode::InvalidDestination);
    }
    if ctx.proposal.vault != ctx.vault.key {
        return Err(ErrorCode::InvalidVault);
    }
    let amount: u64 = ctx.proposal.amount;
    if ctx.vault.balance < amount || ctx.vault.balance.saturating_sub(amount) < minimum_reserve {
        return Err(ErrorCode::InsufficientFunds);
    }
    Ok(())
}

/// Executes a proposal: moves its amount from the vault to the destination.
///
/// Anyone may ask for this; what gates it is the quorum. The checks run in
/// the order of `execute_outcome`. `minimum_reserve` is the balance that the
/// ledger asks the vault's account to keep. Where the request is accepted,
/// the destination must be able to hold what it receives.
pub fn execute(ctx: &mut Execute, minimum_reserve: u64) -> (r: Result<(), ErrorCode>)
    requires
        execute_outcome(*old(ctx), minimum_reserve) is Ok
            ==> old(ctx).to.balance + old(ctx).proposal.amount <= u64::MAX,
    ensures
        r == execute_outcome(*old(ctx), minimum_reserve),
        r is Ok <==> (!old(ctx).proposal.executed
            && old(ctx).proposal@.has_quorum(old(ctx).vault.data@)
            && old(ctx).to.key == old(ctx).proposal.to
            && old(ctx).proposal.vault == old(ctx).vault.key
            && old(ctx).vault.balance - old(ctx).proposal.amount >= minimum_reserve),
        r is Ok ==> execute_applied(*old(ctx), *final(ctx)),
        r is Err ==> *final(ctx) == *old(ctx),
        old(ctx).proposal@.precedes(final(ctx).proposal@),
        old(ctx).proposal@.wf(old(ctx).vault.key, old(ctx).vault.data@)
            ==> final(ctx).proposal@.wf(final(ctx).vault.key, final(ctx).vault.data@),
{
    match check_execute(ctx, minimum_reserve) {
        Err(reason) => {
            return Err(reason);
        },
        Ok(()) => {},
    }
    let amount: u64 = ctx.proposal.amount;
    ctx.proposal.executed = true;
    ctx.vault.balance = ctx.vault.balance - amount;
    ctx.to.balance = ctx.to.balance + amount;
    Ok(())
}

/// What becomes of a request to create a vault with these owners and this
/// threshold: the first check that fails decides.
pub open spec fn create_vault_outcome(
    owners: Seq<Identity>,
    threshold: u8,
) -> Result<(), ErrorCode> {
    if threshold == 0 || threshold > owners.len() {
        Err(ErrorCode::InvalidThreshold)
    } else if owners.len() > MAX_OWNERS {
        Err(ErrorCode::TooManyOwners)
    } else {
        Ok(())
    }
}

/// The record of a vault that has just been created.
pub open spec fn new_vault(owners: Seq<Identity>, threshold: u8, bump: u8) -> VaultView {
    VaultView { owners, threshold: threshold as nat, bump, proposal_count: 0 }
}

/// How an accepted creation changes the snapshot: the account holds the new
/// vault's record, and nothing else changes.
pub open spec fn create_vault_applied(
    pre: CreateVault,
    post: CreateVault,
    owners: Seq<Identity>,
    threshold: u8,
) -> bool {
    &&& post.vault.data@ == new_vault(owners, threshold, pre.bump)
    &&& post.vault.key == pre.vault.key
    &&& post.vault.balance == pre.vault.balance
    &&& post.bump == pre.bump
}

/// Creates a vault with the given owners and threshold.
///
/// The owners are taken as they come: an identity that is named twice stays
/// twice in the list and counts twice towards the limits.
pub fn create_vault(
    ctx: &mut CreateVault,
    owners: Vec<Identity>,
    threshold: u8,
) -> (r: Result<(), ErrorCode>)
    ensures
        r == create_vault_outcome(owners@, threshold),
        r is Ok <==> 0 < threshold <= owners@.len() <= MAX_OWNERS,
        r == rejected(ErrorCode::InvalidThreshold)
            <==> (threshold == 0 || threshold > owners@.len()),
        r == rejected(ErrorCode::TooManyOwners)
            <==> (0 < threshold <= owners@.len() && owners@.len() > MAX_OWNERS),
        r is Ok ==> create_vault_applied(*old(ctx), *final(ctx), owners@, threshold),
        r is Ok ==> final(ctx).vault.data@.wf(),
        r is Err ==> *final(ctx) == *old(ctx),
{
    if threshold == 0 {
        return Err(ErrorCode::InvalidThreshold);
    }
    if threshold as usize > owners.len() {
        return Err(ErrorCode::InvalidThreshold);
    }
    if owners.len() > MAX_OWNERS {
        return Err(ErrorCode::TooManyOwners);
    }
    ctx.vault.data.owners = owners;
    ctx.vault.data.threshold = threshold;
    ctx.vault.data.bump = ctx.bump;
    ctx.vault.data.proposal_count = 0;
    Ok(())
}

/// What becomes of a request to create a proposal: only an owner may make
/// one.
pub open spec fn create_proposal_outcome(ctx: CreateProposal) -> Result<(), ErrorCode> {
    if !ctx.vault.data@.is_owner(ctx.proposer) {
        Err(ErrorCode::NotOwner)
    } else {
        Ok(())
    }
}

/// The record of a proposal that has just been created for the vault
/// `vault` stored at `vault_key`.
pub open spec fn new_proposal(
    vault_key: Identity,
    vault: VaultView,
    to: Identity,
    amount: u64,
    bump: u8,
) -> ProposalView {
    ProposalView {
        vault: vault_key,
        to,
        amount: amount as nat,
        approvals: Seq::empty(),
        executed: false,
        proposal_id: vault.proposal_count,
        bump,
    }
}

/// How an accepted proposal changes the snapshot: the record holds the new
/// proposal, numbered by the vault's count, the count has gone up by one,
/// and nothing else changes.
pub open spec fn create_proposal_applied(
    pre: CreateProposal,
    post: CreateProposal,
    to: Identity,
    amount: u64,
) -> bool {
    &&& post.proposal@ == new_proposal(pre.vault.key, pre.vault.data@, to, amount, pre.bump)
    &&& post.vault.data@ == VaultView {
        proposal_count: pre.vault.data@.proposal_count + 1,
        ..pre.vault.data@
    }
    &&& post.vault.key == pre.vault.key
    &&& post.vault.balance == pre.vault.balance
    &&& post.proposer == pre.proposer
    &&& post.bump == pre.bump
}

/// Creates a proposal to move `amount` from the vault to `to`.
///
/// The amount is not held against the vault's balance: a proposal is a
/// request, not a reservation.
pub fn create_proposal(
    ctx: &mut CreateProposal,
    to: Identity,
    amount: u64,
) -> (r: Result<(), ErrorCode>)
    requires
        create_proposal_outcome(*old(ctx)) is Ok ==> old(ctx).vault.data.proposal_count < u64::MAX,
    ensures
        r == create_proposal_outcome(*old(ctx)),
        r is Ok <==> old(ctx).vault.data@.is_owner(old(ctx).proposer),
        r is Ok ==> create_proposal_applied(*old(ctx), *final(ctx), to, amount),
        r is Ok ==> final(ctx).proposal@.wf(final(ctx).vault.key, final(ctx).vault.data@),
        r is Err ==> *final(ctx) == *old(ctx),
        old(ctx).vault.data@.wf() ==> final(ctx).vault.data@.wf(),
{
    if !ctx.vault.data.is_owner(&ctx.proposer) {
        return Err(ErrorCode::NotOwner);
    }
    ctx.proposal.vault = ctx.vault.key;
    ctx.proposal.to = to;
    ctx.proposal.amount = amount;
    ctx.proposal.approvals = Vec::new();
    ctx.proposal.executed = false;
    ctx.proposal.proposal_id = ctx.vault.data.proposal_count;
    ctx.proposal.bump = ctx.bump;
    ctx.vault.data.proposal_count = ctx.vault.data.proposal_count + 1;
    proof {
        proposal_creation_keeps_invariants(*old(ctx), *ctx, to, amount);
    }
    Ok(())
}

/// What becomes of a request to approve: the first check that fails decides.
pub open spec fn approve_outcome(ctx: Approve) -> Result<(), ErrorCode> {
    if ctx.proposal.vault != ctx.vault.key {
        Err(ErrorCode::InvalidVault)
    } else if !ctx.vault.data@.is_owner(ctx.signer) {
        Err(ErrorCode::NotOwner)
    } else if ctx.proposal@.approved_by(ctx.signer) {
        Err(ErrorCode::AlreadyApproved)
    } else if ctx.proposal.executed {
        Err(ErrorCode::AlreadyExecuted)
    } else {
        Ok(())
    }
}

/// How an accepted approval changes the snapshot: the signer is the last of
/// the approvals, and nothing else changes.
pub open spec fn approve_applied(pre: Approve, post: Approve) -> bool {
    &&& post.proposal@ == pre.proposal@.with_approval(pre.signer)
    &&& post.vault == pre.vault
    &&& post.signer == pre.signer
}

/// Records the signer's approval of a proposal.
///
/// A second approval by the same signer is rejected, not ignored.
pub fn approve(ctx: &mut Approve) -> (r: Result<(), ErrorCode>)
    ensures
        r == approve_outcome(*old(ctx)),
        r is Ok ==> approve_applied(*old(ctx), *final(ctx)),
        r is Err ==> *final(ctx) == *old(ctx),
        old(ctx).proposal@.precedes(final(ctx).proposal@),
        old(ctx).proposal@.wf(old(ctx).vault.key, old(ctx).vault.data@)
            ==> final(ctx).proposal@.wf(final(ctx).vault.key, final(ctx).vault.data@),
{
    if ctx.proposal.vault != ctx.vault.key {
        return Err(ErrorCode::InvalidVault);
    }
    if !ctx.vault.data.is_owner(&ctx.signer) {
        return Err(ErrorCode::NotOwner);
    }
    if ctx.proposal.approved_by(&ctx.signer) {
        return Err(ErrorCode::AlreadyApproved);
    }
    if ctx.proposal.executed {
        return Err(ErrorCode::AlreadyExecuted);
    }
    ctx.proposal.approvals.push(ctx.signer);
    proof {
        approval_keeps_invariants(*old(ctx), *ctx);
    }
    Ok(())
}

/// What becomes of a request to cancel: the first check that fails decides.
pub open spec fn cancel_proposal_outcome(ctx: CancelProposal) -> Result<(), ErrorCode> {
    if ctx.proposal.vault != ctx.vault.key {
        Err(ErrorCode::InvalidVault)
    } else if ctx.proposal.executed {
        Err(ErrorCode::AlreadyExecuted)
    } else if !ctx.vault.data@.is_owner(ctx.canceller) {
        Err(ErrorCode::NotOwner)
    } else {
        Ok(())
    }
}

/// How an accepted cancellation changes the snapshot: the proposal reaches
/// its terminal state, and nothing else changes; no value moves.
pub open spec fn cancel_proposal_applied(pre: CancelProposal, post: CancelProposal) -> bool {
    &&& post.proposal@ == pre.proposal@.closed()
    &&& post.vault == pre.vault
    &&& post.canceller == pre.canceller
}

/// Cancels a proposal. It reaches the same terminal state as an executed
/// one, without any value having moved.
pub fn cancel_proposal(ctx: &mut CancelProposal) -> (r: Result<(), ErrorCode>)
    ensures
        r == cancel_proposal_outcome(*old(ctx)),
        r is Ok ==> cancel_proposal_applied(*old(ctx), *final(ctx)),
        r is Err ==> *final(ctx) == *old(ctx),
        old(ctx).proposal@.precedes(final(ctx).proposal@),
        old(ctx).proposal@.wf(old(ctx).vault.key, old(ctx).vault.data@)
            ==> final(ctx).proposal@.wf(final(ctx).vault.key, final(ctx).vault.data@),
{
    if ctx.proposal.vault != ctx.vault.key {
        return Err(ErrorCode::InvalidVault);
    }
    if ctx.proposal.executed {
        return Err(ErrorCode::AlreadyExecuted);
    }
    if !ctx.vault.data.is_owner(&ctx.canceller) {
        return Err(ErrorCode::NotOwner);
    }
    ctx.proposal.executed = true;
    Ok(())
}

/// How a deposit changes the snapshot: the amount leaves the depositor and
/// reaches the vault, and nothing else changes.
pub open spec fn deposit_applied(pre: Deposit, post: Deposit, amount: u64) -> bool {
    &&& post.depositor.balance == pre.depositor.balance - amount
    &&& post.vault.balance == pre.vault.balance + amount
    &&& post.depositor.key == pre.depositor.key
    &&& post.vault.key == pre.vault.key
    &&& post.vault.data == pre.vault.data
}

/// Pays `amount` from the depositor into the vault.
///
/// Anyone may deposit: neither the owners nor the threshold are consulted.
/// That the depositor holds the amount, and that the vault can hold it, is
/// for the ledger to see to.
pub fn deposit(ctx: &mut Deposit, amount: u64) -> (r: Result<(), ErrorCode>)
    requires
        old(ctx).depositor.balance >= amount,
        old(ctx).vault.balance + amount <= u64::MAX,
    ensures
        r is Ok,
        deposit_applied(*old(ctx), *final(ctx), amount),
{
    ctx.depositor.balance = ctx.depositor.balance - amount;
    ctx.vault.balance = ctx.vault.balance + amount;
    Ok(())
}

} // verus!
