//! What holds of the requests taken together: the invariants that every
//! request keeps, and what a second request meets after a first.

use vstd::prelude::*;
use vstd::set_lib::lemma_len_subset;
use crate::accounts::{Approve, CancelProposal, CreateProposal, Execute};
use crate::error::{rejected, ErrorCode};
use crate::identity::Identity;
use crate::operations::{
    approve_applied, approve_outcome, cancel_proposal_applied, cancel_proposal_outcome, covers,
    create_proposal_applied, create_vault_outcome, execute_applied, execute_outcome, new_vault,
};
use crate::state::{ProposalView, VaultView, MAX_OWNERS};

verus! {

/// A vault can be created exactly from owners and a threshold with
/// `0 < threshold <= |owners| <= MAX_OWNERS`, and the vault that is created
/// has the invariant of a vault. A threshold of zero, or one above the number
/// of owners, is rejected as such; otherwise more than `MAX_OWNERS` owners
/// are rejected as too many.
pub proof fn vault_creation(owners: Seq<Identity>, threshold: u8, bump: u8)
    ensures
        create_vault_outcome(owners, threshold) is Ok
            <==> 0 < threshold <= owners.len() <= MAX_OWNERS,
        create_vault_outcome(owners, threshold) is Ok ==> new_vault(owners, threshold, bump).wf(),
        create_vault_outcome(owners, threshold) == rejected(ErrorCode::InvalidThreshold)
            <==> (threshold == 0 || threshold > owners.len()),
        create_vault_outcome(owners, threshold) == rejected(ErrorCode::TooManyOwners)
            <==> (0 < threshold <= owners.len() && owners.len() > MAX_OWNERS),
{
}

/// A proposal never holds more approvals than its vault has owners, and so
/// never more than `MAX_OWNERS`.
pub proof fn approvals_bounded_by_owners(
    proposal: ProposalView,
    vault_key: Identity,
    vault: VaultView,
)
    requires
        proposal.wf(vault_key, vault),
    ensures
        proposal.approvals.len() <= vault.owners.len(),
        vault.wf() ==> proposal.approvals.len() <= MAX_OWNERS,
{
    let approvals = proposal.approvals;
    let owners = vault.owners;
    approvals.unique_seq_to_set();
    owners.lemma_cardinality_of_set();
    assert(approvals.to_set().subset_of(owners.to_set())) by {
        assert forall|who: Identity| approvals.to_set().contains(who) implies owners.to_set()
            .contains(who) by {
            let i = choose|i: int| 0 <= i < approvals.len() && approvals[i] == who;
            assert(vault.is_owner(approvals[i]));
        }
    }
    lemma_len_subset(approvals.to_set(), owners.to_set());
}

/// A new proposal has the invariant of a proposal of its vault, and the
/// vault keeps its own.
pub proof fn proposal_creation_keeps_invariants(
    pre: CreateProposal,
    post: CreateProposal,
    to: Identity,
    amount: u64,
)
    requires
        create_proposal_applied(pre, post, to, amount),
    ensures
        post.proposal@.wf(post.vault.key, post.vault.data@),
        pre.vault.data@.wf() ==> post.vault.data@.wf(),
{
}

/// Over time a proposal only gains approvals and never leaves its terminal
/// state: what holds from one state to a later one, and from that to a third,
/// holds from the first to the third.
pub proof fn history_only_grows(first: ProposalView, second: ProposalView, third: ProposalView)
    requires
        first.precedes(second),
        second.precedes(third),
    ensures
        first.precedes(third),
        first.approvals.len() <= second.approvals.len() <= third.approvals.len(),
        first.executed ==> third.executed,
        first.precedes(first),
{
    assert(first.approvals.is_prefix_of(third.approvals)) by {
        assert forall|i: int| 0 <= i < first.approvals.len() implies first.approvals[i]
            == third.approvals[i] by {
            assert(first.approvals[i] == second.approvals[i]);
        }
    }
}

/// An accepted approval adds exactly one approval, after those that were
/// there, and keeps the invariant of the proposal: each owner occurs among
/// the approvals at most once.
pub proof fn approval_keeps_invariants(pre: Approve, post: Approve)
    requires
        approve_outcome(pre) is Ok,
        approve_applied(pre, post),
    ensures
        post.proposal@.approvals.len() == pre.proposal@.approvals.len() + 1,
        pre.proposal@.precedes(post.proposal@),
        pre.proposal@.approvals.no_duplicates() ==> post.proposal@.approvals.no_duplicates(),
        pre.proposal@.wf(pre.vault.key, pre.vault.data@)
            ==> post.proposal@.wf(post.vault.key, post.vault.data@),
{
    let before = pre.proposal@.approvals;
    let after = post.proposal@.approvals;
    if before.no_duplicates() {
        assert forall|i: int, j: int|
            0 <= i < after.len() && 0 <= j < after.len() && i != j implies after[i]
            != after[j] by {
            if i < before.len() {
                assert(before.contains(before[i]));
            } else {
                assert(before.contains(before[j]));
            }
        }
    }
}

/// An accepted execution leaves the approvals as they were and keeps the
/// invariant of the proposal.
pub proof fn execution_keeps_invariants(pre: Execute, post: Execute)
    requires
        execute_applied(pre, post),
    ensures
        post.proposal@.approvals == pre.proposal@.approvals,
        pre.proposal@.precedes(post.proposal@),
        pre.proposal@.wf(pre.vault.key, pre.vault.data@)
            ==> post.proposal@.wf(post.vault.key, post.vault.data@),
{
}

/// An accepted cancellation leaves the approvals as they were and keeps the
/// invariant of the proposal.
pub proof fn cancellation_keeps_invariants(pre: CancelProposal, post: CancelProposal)
    requires
        cancel_proposal_applied(pre, post),
    ensures
        post.proposal@.approvals == pre.proposal@.approvals,
        pre.proposal@.precedes(post.proposal@),
        pre.proposal@.wf(pre.vault.key, pre.vault.data@)
            ==> post.proposal@.wf(post.vault.key, post.vault.data@),
{
}

/// Whoever has approved a proposal cannot approve it again: the second
/// request is rejected as already approved.
pub proof fn second_approval_is_rejected(first: Approve, second: Approve)
    requires
        approve_outcome(first) is Ok,
        approve_applied(first, second),
    ensures
        approve_outcome(second) == rejected(ErrorCode::AlreadyApproved),
{
    let before = first.proposal@.approvals;
    assert(before.push(first.signer)[before.len() as int] == first.signer);
}

/// The reserve is a sharp bound: a vault that holds the reserve and the
/// amount can pay the amount, and one that holds any less cannot.
pub proof fn reserve_is_sharp(balance: u64, amount: u64, minimum_reserve: u64)
    ensures
        covers(balance, amount, minimum_reserve) <==> balance >= minimum_reserve + amount,
{
}

/// A proposal in its terminal state cannot be executed, whatever the vault
/// holds and whoever asks.
pub proof fn terminal_proposal_cannot_execute(ctx: Execute, minimum_reserve: u64)
    requires
        ctx.proposal.executed,
    ensures
        execute_outcome(ctx, minimum_reserve) == rejected(ErrorCode::AlreadyExecuted),
{
}

/// A proposal that has been executed cannot be executed again.
pub proof fn second_execution_is_rejected(
    first: Execute,
    done: Execute,
    again: Execute,
    minimum_reserve: u64,
)
    requires
        execute_applied(first, done),
        again.proposal@ == done.proposal@,
    ensures
        execute_outcome(again, minimum_reserve) == rejected(ErrorCode::AlreadyExecuted),
{
}

/// A proposal that has been cancelled cannot be executed.
pub proof fn cancelled_proposal_cannot_execute(
    first: CancelProposal,
    done: CancelProposal,
    again: Execute,
    minimum_reserve: u64,
)
    requires
        cancel_proposal_applied(first, done),
        again.proposal@ == done.proposal@,
    ensures
        execute_outcome(again, minimum_reserve) == rejected(ErrorCode::AlreadyExecuted),
{
}

/// An owner of the vault can cancel any proposal of it that is not yet in
/// its terminal state, however many approvals it has, none included. The
/// cancellation moves no value, and a second one is rejected.
pub proof fn cancellation_by_owner(first: CancelProposal, second: CancelProposal)
    requires
        first.proposal.vault == first.vault.key,
        !first.proposal.executed,
        first.vault.data@.is_owner(first.canceller),
        cancel_proposal_applied(first, second),
    ensures
        cancel_proposal_outcome(first) is Ok,
        second.proposal.executed,
        second.vault.balance == first.vault.balance,
        cancel_proposal_outcome(second) == rejected(ErrorCode::AlreadyExecuted),
{
}

} // verus!
