use socketfi::access::AccessConfig;
use socketfi::address::{Address, AddressKind};
use socketfi::errors::ContractError;
use socketfi::types::UpgradeType;
use socketfi::upgrade::entrypoints::{add_voter, apply_upgrade, cancel_proposal, cast_vote, propose_upgrade, upgrade};
use socketfi::upgrade::storage::UpgradeState;
use socketfi::upgrade::voters::{get_voter_info, read_voters_list, write_remove_voter};
use socketfi::upgrade::{get_upgrade_votes, get_wallet_version, init_wallet_version, UPGRADE_VOTING_DURATION};

fn voter(n: u8) -> Address {
    Address { kind: AddressKind::Account, id: vec![n; 32] }
}

fn admin_config() -> AccessConfig {
    let mut c = AccessConfig::new();
    c.admin = Some(voter(200));
    c
}

fn with_voters(n: u8) -> (AccessConfig, UpgradeState) {
    let cfg = admin_config();
    let mut s = UpgradeState::new();
    for i in 0..n {
        add_voter(&cfg, &mut s, &voter(i)).unwrap();
    }
    (cfg, s)
}

#[test]
fn passing_threshold_examples() {
    for (n, expected) in [(1u8, 1u32), (2, 2), (3, 3), (4, 3), (5, 4), (8, 6), (10, 8)] {
        let (_, s) = with_voters(n);
        assert_eq!(get_voter_info(&s), Ok((n as u32, expected)));
    }
}

#[test]
fn voter_info_without_voters() {
    let s = UpgradeState::new();
    assert_eq!(get_voter_info(&s), Err(ContractError::NoVoters));
}

#[test]
fn voters_list_and_removal() {
    let (cfg, mut s) = with_voters(3);
    assert_eq!(add_voter(&cfg, &mut s, &voter(1)), Err(ContractError::AlreadyInVotersList));
    assert_eq!(read_voters_list(&s).unwrap().len(), 3);
    assert_eq!(write_remove_voter(&mut s, &voter(1)), Ok(()));
    assert_eq!(write_remove_voter(&mut s, &voter(1)), Err(ContractError::NotInVotersList));
    assert_eq!(read_voters_list(&s).unwrap().len(), 2);
}

#[test]
fn governance_needs_an_admin() {
    let cfg = AccessConfig::new();
    let mut s = UpgradeState::new();
    assert_eq!(add_voter(&cfg, &mut s, &voter(1)), Err(ContractError::AdminNotFound));
    assert_eq!(propose_upgrade(&cfg, &mut s, b"upgrade", &[1u8; 32], 0), Err(ContractError::AdminNotFound));
    assert_eq!(cancel_proposal(&cfg, &mut s), Err(ContractError::AdminNotFound));
    match apply_upgrade(&cfg, &mut s, 0) {
        Err(e) => assert_eq!(e, ContractError::AdminNotFound),
        Ok(_) => panic!("applied without admin"),
    }
    match upgrade(&cfg, &[1u8; 32]) {
        Err(e) => assert_eq!(e, ContractError::AdminNotFound),
        Ok(_) => panic!("upgrade without admin"),
    }
    match upgrade(&admin_config(), &[1u8; 32]) {
        Ok(a) => assert_eq!(a.id, voter(200).id),
        Err(_) => panic!("admin refused"),
    }
}

#[test]
fn proposal_kinds_and_exclusivity() {
    let (cfg, mut s) = with_voters(1);
    assert_eq!(propose_upgrade(&cfg, &mut s, b"migrate", &[1u8; 32], 10), Err(ContractError::NotSupportedUpgradeType));
    assert_eq!(propose_upgrade(&cfg, &mut s, b"upgrade", &[1u8; 32], 10), Ok(()));
    assert_eq!(s.voting_deadline, 10 + UPGRADE_VOTING_DURATION);
    assert_eq!(propose_upgrade(&cfg, &mut s, b"wallet", &[2u8; 32], 10), Err(ContractError::AnotherUpgradePending));
}

#[test]
fn voting_rules() {
    let (cfg, mut s) = with_voters(2);
    let hash = [7u8; 32];
    assert_eq!(cast_vote(&mut s, &voter(0), &hash, 5), Err(ContractError::NoPendingUpgradeAction));
    propose_upgrade(&cfg, &mut s, b"upgrade", &hash, 100).unwrap();
    let deadline = 100 + UPGRADE_VOTING_DURATION;
    assert_eq!(cast_vote(&mut s, &voter(9), &hash, 150), Err(ContractError::NotInVotersList));
    assert_eq!(cast_vote(&mut s, &voter(0), &[8u8; 32], 150), Err(ContractError::InvalidUpgradeHash));
    assert_eq!(cast_vote(&mut s, &voter(0), &hash, deadline + 1), Err(ContractError::VotingClosed));
    assert_eq!(cast_vote(&mut s, &voter(0), &hash, deadline), Ok(()));
    assert_eq!(cast_vote(&mut s, &voter(0), &hash, 150), Err(ContractError::AlreadyVoted));
    assert_eq!(get_upgrade_votes(&s), Ok((1, false)));
    assert_eq!(cast_vote(&mut s, &voter(1), &hash, 150), Ok(()));
    assert_eq!(get_upgrade_votes(&s), Ok((2, true)));
}

#[test]
fn execution_after_deadline_when_passed() {
    let (cfg, mut s) = with_voters(4);
    let hash = [7u8; 32];
    propose_upgrade(&cfg, &mut s, b"upgrade", &hash, 0).unwrap();
    let deadline = UPGRADE_VOTING_DURATION;
    cast_vote(&mut s, &voter(0), &hash, 1).unwrap();
    cast_vote(&mut s, &voter(1), &hash, 1).unwrap();
    match apply_upgrade(&cfg, &mut s, deadline - 1) {
        Err(e) => assert_eq!(e, ContractError::VotingStillOngoing),
        Ok(_) => panic!("executed during voting"),
    }
    match apply_upgrade(&cfg, &mut s, deadline) {
        Err(e) => assert_eq!(e, ContractError::VotingStillOngoing),
        Ok(_) => panic!("executed at the deadline"),
    }
    match apply_upgrade(&cfg, &mut s, deadline + 1) {
        Err(e) => assert_eq!(e, ContractError::DidNotPass),
        Ok(_) => panic!("executed without a majority"),
    }
    // votes cannot be added after the deadline, so this proposal stays failed
    assert_eq!(cast_vote(&mut s, &voter(2), &hash, deadline + 1), Err(ContractError::VotingClosed));
    assert_eq!(cancel_proposal(&cfg, &mut s), Ok(()));
    assert_eq!(s.voting_deadline, 0);
    assert_eq!(get_upgrade_votes(&s), Err(ContractError::NoPendingUpgradeAction));

    propose_upgrade(&cfg, &mut s, b"upgrade", &hash, 0).unwrap();
    for i in 0..3 {
        cast_vote(&mut s, &voter(i), &hash, 1).unwrap();
    }
    match apply_upgrade(&cfg, &mut s, deadline) {
        Err(e) => assert_eq!(e, ContractError::VotingStillOngoing),
        Ok(_) => panic!("passed proposal executed at the deadline"),
    }
    match apply_upgrade(&cfg, &mut s, deadline + 1) {
        Ok(u) => {
            assert_eq!(u.kind, UpgradeType::Upgrade);
            assert_eq!(u.wasm, hash.to_vec());
        }
        Err(e) => panic!("passed proposal refused: {:?}", e),
    }
    assert_eq!(s.voting_deadline, 0);
    match apply_upgrade(&cfg, &mut s, deadline + 1) {
        Err(e) => assert_eq!(e, ContractError::NoPendingUpgradeAction),
        Ok(_) => panic!("executed twice"),
    }
    assert_eq!(cast_vote(&mut s, &voter(3), &hash, 2), Err(ContractError::NoPendingUpgradeAction));
}

#[test]
fn wallet_version_proposal_sets_version() {
    let (cfg, mut s) = with_voters(1);
    assert_eq!(get_wallet_version(&s), Err(ContractError::WalletWasmNotFound));
    assert_eq!(init_wallet_version(&mut s, &[1u8; 32]), Ok(()));
    assert_eq!(init_wallet_version(&mut s, &[2u8; 32]), Err(ContractError::AlreadyInitialized));
    assert_eq!(get_wallet_version(&s), Ok(vec![1u8; 32]));
    propose_upgrade(&cfg, &mut s, b"wallet", &[3u8; 32], 0).unwrap();
    cast_vote(&mut s, &voter(0), &[3u8; 32], 0).unwrap();
    match apply_upgrade(&cfg, &mut s, UPGRADE_VOTING_DURATION + 1) {
        Ok(u) => assert_eq!(u.kind, UpgradeType::WalletVersion),
        Err(e) => panic!("refused: {:?}", e),
    }
    assert_eq!(get_wallet_version(&s), Ok(vec![3u8; 32]));
}

#[test]
fn cancel_without_proposal() {
    let (cfg, mut s) = with_voters(1);
    assert_eq!(cancel_proposal(&cfg, &mut s), Err(ContractError::UpgradeWasmNotFound));
}

#[test]
fn execution_without_voters() {
    let cfg = admin_config();
    let mut s = UpgradeState::new();
    propose_upgrade(&cfg, &mut s, b"upgrade", &[1u8; 32], 0).unwrap();
    match apply_upgrade(&cfg, &mut s, UPGRADE_VOTING_DURATION + 1) {
        Err(e) => assert_eq!(e, ContractError::NoVoters),
        Ok(_) => panic!("executed without voters"),
    }
}
