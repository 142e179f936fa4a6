use socketfi::address::{Address, AddressKind};
use socketfi::errors::ContractError;
use socketfi::social_payments::contract::SocialPayments;
use socketfi::social_payments::data::{PaymentOutcome, PaymentResult, PaymentStatus};
use soroban_sdk::Env;

fn addr(n: u8) -> Address {
    Address { kind: AddressKind::Contract, id: vec![n; 32] }
}

fn account(n: u8) -> Address {
    Address { kind: AddressKind::Account, id: vec![n; 32] }
}

const ADMIN: u8 = 1;
const REGISTRY: u8 = 2;
const ASSET: u8 = 3;

fn setup() -> SocialPayments {
    let mut c = SocialPayments::new();
    c.__constructor(&addr(ADMIN), &addr(REGISTRY)).unwrap();
    c.add_supported_asset(&addr(ASSET)).unwrap();
    c
}

fn pay_pending(c: &mut SocialPayments, env: &Env, from: &Address, user: &[u8], amount: i128, now: u64) -> Vec<u8> {
    match c.pay_to_social(env, from, b"x", user, &addr(ASSET), amount, 100, &None, now) {
        Ok(PaymentOutcome { result: PaymentResult::Pending(id), take, send: None }) => {
            assert_eq!((take.from.id, take.asset.id, take.amount), (from.id.clone(), addr(ASSET).id, amount));
            id
        }
        _ => panic!("expected a pending payment"),
    }
}

#[test]
fn constructor_runs_once() {
    let mut c = SocialPayments::new();
    assert_eq!(c.__constructor(&addr(ADMIN), &addr(REGISTRY)), Ok(()));
    assert_eq!(c.__constructor(&addr(9), &addr(9)), Err(ContractError::AlreadyInitialized));
    assert_eq!(c.get_nonce(), 0);
}

#[test]
fn supported_assets_admin_flow() {
    let mut c = SocialPayments::new();
    assert_eq!(c.add_supported_asset(&addr(ASSET)), Err(ContractError::AdminNotFound));
    c.__constructor(&addr(ADMIN), &addr(REGISTRY)).unwrap();
    assert_eq!(c.add_supported_asset(&addr(ASSET)), Ok(()));
    assert_eq!(c.add_supported_asset(&addr(ASSET)), Err(ContractError::AssetAlreadySupported));
    assert_eq!(c.get_supported_assets().len(), 1);
    assert_eq!(c.remove_supported_asset(&addr(ASSET)), Ok(()));
    assert_eq!(c.remove_supported_asset(&addr(ASSET)), Err(ContractError::AssetNotSupported));
    assert_eq!(c.get_supported_assets().len(), 0);
}

#[test]
fn payment_request_refusals() {
    let env = Env::default();
    let mut c = setup();
    let from = account(10);
    let asset = addr(ASSET);
    let r = |res: Result<PaymentOutcome, ContractError>| match res {
        Err(e) => e,
        Ok(_) => panic!("expected a refusal"),
    };
    assert_eq!(r(c.pay_to_social(&env, &from, b"x", b"alice", &addr(77), 5, 10, &None, 0)), ContractError::UnsupportedAsset);
    assert_eq!(r(c.pay_to_social(&env, &from, b"x", b"alice", &asset, 0, 10, &None, 0)), ContractError::InvalidAmount);
    assert_eq!(r(c.pay_to_social(&env, &from, b"x", b"alice", &asset, -4, 10, &None, 0)), ContractError::InvalidAmount);
    assert_eq!(r(c.pay_to_social(&env, &from, b"x", b"", &asset, 5, 10, &None, 0)), ContractError::InvalidUserId);
    assert_eq!(r(c.pay_to_social(&env, &from, b"x", b"Alice", &asset, 5, 10, &None, 0)), ContractError::UpperNotAllowed);
    assert_eq!(r(c.pay_to_social(&env, &from, b"x", b"a b", &asset, 5, 10, &None, 0)), ContractError::SpacesNotAllowed);
    let long = vec![b'a'; 257];
    assert_eq!(r(c.pay_to_social(&env, &from, b"x", &long, &asset, 5, 10, &None, 0)), ContractError::MaxLengthExceeded);
    assert_eq!(r(c.pay_to_social(&env, &from, b"x", b"alice", &asset, 5, 0, &None, 0)), ContractError::InvalidDuration);
    assert_eq!(r(c.pay_to_social(&env, &from, b"x", b"alice", &asset, 5, 10, &None, u64::MAX)), ContractError::InvalidExpiration);
    assert_eq!(r(c.pay_to_social(&env, &from, b"mastodon", b"alice", &asset, 5, 10, &None, 0)), ContractError::PlatformNotSupported);
    assert_eq!(c.get_nonce(), 0);
}

#[test]
fn payment_without_registry_is_refused() {
    let env = Env::default();
    let mut c = SocialPayments::new();
    // an asset can only be added once an admin is set; build the state by hand
    c.config.admin = Some(addr(ADMIN));
    c.add_supported_asset(&addr(ASSET)).unwrap();
    match c.pay_to_social(&env, &account(10), b"x", b"alice", &addr(ASSET), 5, 10, &None, 0) {
        Err(e) => assert_eq!(e, ContractError::RegistryNotFound),
        Ok(_) => panic!("expected a refusal"),
    }
}

#[test]
fn direct_payment_goes_to_bound_wallet() {
    let env = Env::default();
    let mut c = setup();
    let wallet = addr(50);
    match c.pay_to_social(&env, &account(10), b"x", b"alice", &addr(ASSET), 5, 10, &Some(wallet.clone()), 0) {
        Ok(PaymentOutcome { result: PaymentResult::Direct(w), take, send: Some(t) }) => {
            assert_eq!(w.id, wallet.id);
            assert_eq!((take.from.id, take.asset.id, take.amount), (account(10).id, addr(ASSET).id, 5));
            assert_eq!((t.to.id, t.asset.id, t.amount), (wallet.id.clone(), addr(ASSET).id, 5));
        }
        _ => panic!("expected a direct payment"),
    }
    assert_eq!(c.get_nonce(), 0);
    assert_eq!(c.get_sender_payments(&account(10)).unwrap().len(), 0);
}

#[test]
fn pending_payment_is_recorded_and_indexed() {
    let env = Env::default();
    let mut c = setup();
    let from = account(10);
    let id = pay_pending(&mut c, &env, &from, b"alice", 40, 1_000);
    assert_eq!(id.len(), 32);
    assert_eq!(c.get_nonce(), 1);
    let p = c.get_payment(&id).unwrap();
    assert_eq!(p.payment_id, id);
    assert_eq!(p.amount, 40);
    assert_eq!(p.created_at, 1_000);
    assert_eq!(p.expires_at, 1_100);
    assert_eq!(p.status, PaymentStatus::Pending);
    assert!(p.claimed_by.is_none());
    assert_eq!(c.get_identity_payments(&env, b"x", b"alice").unwrap(), vec![id.clone()]);
    assert_eq!(c.get_identity_payments(&env, b"twitter", b"alice").unwrap(), vec![id.clone()]);
    assert_eq!(c.get_sender_payments(&from).unwrap(), vec![id.clone()]);
    let id2 = pay_pending(&mut c, &env, &from, b"alice", 40, 1_000);
    assert_ne!(id, id2);
    assert_eq!(c.get_nonce(), 2);
    assert_eq!(c.get_sender_payments(&from).unwrap(), vec![id, id2]);
}

#[test]
fn unknown_payment_is_not_found() {
    let c = setup();
    match c.get_payment(&[0u8; 32]) {
        Err(e) => assert_eq!(e, ContractError::PaymentNotFound),
        Ok(_) => panic!("expected PaymentNotFound"),
    }
}

#[test]
fn claim_pays_the_bound_wallet_once() {
    let env = Env::default();
    let mut c = setup();
    let id = pay_pending(&mut c, &env, &account(10), b"alice", 40, 1_000);
    let wallet = addr(50);
    let lookup = c.claim_lookup(&id, 1_050).unwrap();
    assert_eq!(lookup.0.id, addr(REGISTRY).id);
    assert_eq!(lookup.1, b"x".to_vec());
    assert_eq!(lookup.2, b"alice".to_vec());
    let t = c.claim_payment(&wallet, &id, 1_050, &Some(wallet.clone())).unwrap();
    assert_eq!(t.to.id, wallet.id);
    assert_eq!(t.asset.id, addr(ASSET).id);
    assert_eq!(t.amount, 40);
    let p = c.get_payment(&id).unwrap();
    assert_eq!(p.status, PaymentStatus::Claimed);
    assert_eq!(p.claimed_by.unwrap().id, wallet.id);
    match c.claim_payment(&wallet, &id, 1_050, &Some(wallet.clone())) {
        Err(e) => assert_eq!(e, ContractError::PaymentNotClaimable),
        Ok(_) => panic!("second claim accepted"),
    }
    match c.refund_payment(&account(10), &id, 5_000) {
        Err(e) => assert_eq!(e, ContractError::PaymentNotRefundable),
        Ok(_) => panic!("refund after claim accepted"),
    }
}

#[test]
fn claim_refusals() {
    let env = Env::default();
    let mut c = setup();
    let id = pay_pending(&mut c, &env, &account(10), b"alice", 40, 1_000);
    let wallet = addr(50);
    let err = |r: Result<socketfi::tokens::Transfer, ContractError>| match r {
        Err(e) => e,
        Ok(_) => panic!("expected a refusal"),
    };
    assert_eq!(err(c.claim_payment(&wallet, &[9u8; 32], 1_050, &Some(wallet.clone()))), ContractError::PaymentNotFound);
    assert_eq!(err(c.claim_payment(&wallet, &id, 1_100, &Some(wallet.clone()))), ContractError::PaymentExpired);
    assert_eq!(err(c.claim_payment(&wallet, &id, 1_050, &None)), ContractError::UnauthorizedClaim);
    assert_eq!(err(c.claim_payment(&wallet, &id, 1_050, &Some(addr(51)))), ContractError::UnauthorizedClaim);
    assert_eq!(c.get_payment(&id).unwrap().status, PaymentStatus::Pending);
}

#[test]
fn refund_after_expiry_only_to_sender() {
    let env = Env::default();
    let mut c = setup();
    let sender = account(10);
    let id = pay_pending(&mut c, &env, &sender, b"alice", 40, 1_000);
    let err = |r: Result<socketfi::tokens::Transfer, ContractError>| match r {
        Err(e) => e,
        Ok(_) => panic!("expected a refusal"),
    };
    assert_eq!(err(c.refund_payment(&sender, &id, 1_099)), ContractError::PaymentNotExpired);
    assert_eq!(err(c.refund_payment(&account(11), &id, 1_100)), ContractError::NotPaymentSender);
    assert_eq!(err(c.refund_payment(&sender, &[9u8; 32], 1_100)), ContractError::PaymentNotFound);
    let t = c.refund_payment(&sender, &id, 1_100).unwrap();
    assert_eq!(t.to.id, sender.id);
    assert_eq!(t.amount, 40);
    assert_eq!(c.get_payment(&id).unwrap().status, PaymentStatus::Refunded);
    assert_eq!(err(c.refund_payment(&sender, &id, 1_200)), ContractError::PaymentNotRefundable);
    assert_eq!(err(c.claim_payment(&addr(50), &id, 1_000, &Some(addr(50)))), ContractError::PaymentNotClaimable);
}

#[test]
fn batch_claim_is_all_or_nothing() {
    let env = Env::default();
    let mut c = setup();
    let wallet = addr(50);
    let a = pay_pending(&mut c, &env, &account(10), b"alice", 10, 1_000);
    let b = pay_pending(&mut c, &env, &account(11), b"alice", 20, 1_000);
    let ok = Some(wallet.clone());
    match c.claim_payments(&wallet, &vec![a.clone(), b.clone()], 1_010, &vec![ok.clone(), None]) {
        Err(e) => assert_eq!(e, ContractError::UnauthorizedClaim),
        Ok(_) => panic!("batch with a bad claim accepted"),
    }
    assert_eq!(c.get_payment(&a).unwrap().status, PaymentStatus::Pending);
    match c.claim_payments(&wallet, &vec![a.clone(), a.clone()], 1_010, &vec![ok.clone(), ok.clone()]) {
        Err(e) => assert_eq!(e, ContractError::PaymentNotClaimable),
        Ok(_) => panic!("repeated id accepted"),
    }
    assert_eq!(c.get_payment(&a).unwrap().status, PaymentStatus::Pending);
    let ts = c.claim_payments(&wallet, &vec![a.clone(), b.clone()], 1_010, &vec![ok.clone(), ok.clone()]).unwrap();
    assert_eq!(ts.len(), 2);
    assert_eq!(ts[0].amount, 10);
    assert_eq!(ts[1].amount, 20);
    assert_eq!(c.get_payment(&a).unwrap().status, PaymentStatus::Claimed);
    assert_eq!(c.get_payment(&b).unwrap().status, PaymentStatus::Claimed);
}

#[test]
fn batch_refund_is_all_or_nothing() {
    let env = Env::default();
    let mut c = setup();
    let sender = account(10);
    let a = pay_pending(&mut c, &env, &sender, b"alice", 10, 1_000);
    let b = pay_pending(&mut c, &env, &sender, b"bob", 20, 1_000);
    let other = pay_pending(&mut c, &env, &account(11), b"bob", 30, 1_000);
    match c.refund_payments(&sender, &vec![a.clone(), other.clone()], 2_000) {
        Err(e) => assert_eq!(e, ContractError::NotPaymentSender),
        Ok(_) => panic!("batch with a foreign payment accepted"),
    }
    assert_eq!(c.get_payment(&a).unwrap().status, PaymentStatus::Pending);
    match c.refund_payments(&sender, &vec![b.clone(), b.clone()], 2_000) {
        Err(e) => assert_eq!(e, ContractError::PaymentNotRefundable),
        Ok(_) => panic!("repeated id accepted"),
    }
    let ts = c.refund_payments(&sender, &vec![a.clone(), b.clone()], 2_000).unwrap();
    assert_eq!(ts.len(), 2);
    assert_eq!(ts[0].amount + ts[1].amount, 30);
    assert_eq!(c.get_payment(&a).unwrap().status, PaymentStatus::Refunded);
    assert_eq!(c.get_payment(&b).unwrap().status, PaymentStatus::Refunded);
    assert_eq!(c.get_payment(&other).unwrap().status, PaymentStatus::Pending);
}

#[test]
fn claimable_total_sums_open_payments_in_asset() {
    let env = Env::default();
    let mut c = setup();
    c.add_supported_asset(&addr(4)).unwrap();
    pay_pending(&mut c, &env, &account(10), b"alice", 10, 1_000);
    pay_pending(&mut c, &env, &account(11), b"alice", 15, 1_050);
    match c.pay_to_social(&env, &account(10), b"x", b"alice", &addr(4), 99, 100, &None, 1_000) {
        Ok(PaymentOutcome { result: PaymentResult::Pending(_), .. }) => {}
        _ => panic!("expected a pending payment"),
    }
    assert_eq!(c.get_claimable_total(&env, b"x", b"alice", &addr(ASSET), 1_010), Ok(25));
    assert_eq!(c.get_claimable_total(&env, b"x", b"alice", &addr(ASSET), 1_100), Ok(15));
    assert_eq!(c.get_claimable_total(&env, b"x", b"alice", &addr(4), 1_010), Ok(99));
    assert_eq!(c.get_claimable_total(&env, b"x", b"bob", &addr(ASSET), 1_010), Ok(0));
    assert_eq!(c.get_claimable_total(&env, b"x", b"Bob", &addr(ASSET), 1_010), Err(ContractError::UpperNotAllowed));
}

#[test]
fn set_admin_needs_an_admin() {
    let mut c = SocialPayments::new();
    assert_eq!(c.set_admin(&addr(5)), Err(ContractError::AdminNotFound));
    c.__constructor(&addr(ADMIN), &addr(REGISTRY)).unwrap();
    assert_eq!(c.set_admin(&addr(5)), Ok(()));
    assert_eq!(c.config.admin.as_ref().unwrap().id, addr(5).id);
}

#[test]
fn asset_listing_add_then_remove_restores() {
    let mut c = setup();
    let before: Vec<Vec<u8>> = c.get_supported_assets().iter().map(|a| a.id.clone()).collect();
    assert_eq!(before, vec![addr(ASSET).id]);
    c.add_supported_asset(&addr(9)).unwrap();
    let during: Vec<Vec<u8>> = c.get_supported_assets().iter().map(|a| a.id.clone()).collect();
    assert_eq!(during, vec![addr(ASSET).id, addr(9).id]);
    c.remove_supported_asset(&addr(9)).unwrap();
    let after: Vec<Vec<u8>> = c.get_supported_assets().iter().map(|a| a.id.clone()).collect();
    assert_eq!(after, before);
}
