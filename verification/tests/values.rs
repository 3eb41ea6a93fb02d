use multisig_vault::identity::{contains, IDENTITY_LEN};
use multisig_vault::{ErrorCode, Identity, Proposal, Vault};

fn id(tag: u8) -> Identity {
    Identity::new([tag; 32])
}

#[test]
fn identities_are_equal_when_their_bytes_are() {
    let mut bytes = [0u8; 32];
    for (i, b) in bytes.iter_mut().enumerate() {
        *b = i as u8;
    }
    let one = Identity::new(bytes);
    let same = Identity { bytes };
    assert_eq!(one, same);
    assert!(one == same);
    assert!(!(one != same));
    assert_eq!(one.to_bytes(), bytes);
    assert_eq!(IDENTITY_LEN, 32);
    for i in 0..32 {
        let mut other = bytes;
        other[i] ^= 0x80;
        assert!(one != Identity::new(other));
        assert!(!(one == Identity::new(other)));
    }
}

#[test]
fn contains_finds_what_is_there() {
    let list = vec![id(3), id(1), id(2), id(1)];
    assert!(contains(&list, &id(1)));
    assert!(contains(&list, &id(2)));
    assert!(contains(&list, &id(3)));
    assert!(!contains(&list, &id(4)));
    assert!(!contains(&Vec::new(), &id(1)));
    let mut near = [1u8; 32];
    near[31] = 0;
    assert!(!contains(&list, &Identity::new(near)));
}

#[test]
fn owners_and_approvers_are_found_by_identity() {
    let vault = Vault { owners: vec![id(1), id(2)], threshold: 2, bump: 0, proposal_count: 0 };
    assert!(vault.is_owner(&id(1)));
    assert!(vault.is_owner(&id(2)));
    assert!(!vault.is_owner(&id(3)));
    let mut proposal = Proposal {
        vault: id(9),
        to: id(4),
        amount: 1,
        approvals: vec![id(2)],
        executed: false,
        proposal_id: 0,
        bump: 0,
    };
    assert!(proposal.approved_by(&id(2)));
    assert!(!proposal.approved_by(&id(1)));
    assert!(!proposal.has_quorum(&vault));
    proposal.approvals.push(id(1));
    assert!(proposal.has_quorum(&vault));
    let open = Vault { threshold: 0, ..vault };
    proposal.approvals.clear();
    assert!(proposal.has_quorum(&open));
}

#[test]
fn each_rejection_has_its_text() {
    assert_eq!(
        ErrorCode::InvalidThreshold.message(),
        "Invalid threshold: must be > 0 and <= number of owners"
    );
    assert_eq!(ErrorCode::TooManyOwners.message(), "Too many owners: maximum 10 allowed");
    assert_eq!(ErrorCode::NotOwner.message(), "Signer is not an owner of this vault");
    assert_eq!(ErrorCode::AlreadyApproved.message(), "Proposal already approved by this signer");
    assert_eq!(ErrorCode::NotEnoughApprovals.message(), "Not enough approvals to execute proposal");
    assert_eq!(ErrorCode::AlreadyExecuted.message(), "Proposal already executed");
    assert_eq!(ErrorCode::InsufficientFunds.message(), "Vault has insufficient funds");
    assert_eq!(ErrorCode::InvalidVault.message(), "Invalid vault for this proposal");
    assert_eq!(ErrorCode::InvalidDestination.message(), "Invalid destination address");
}
