use socketfi::address::{Address, AddressKind};
use socketfi::errors::ContractError;
use socketfi::identity_registry::contract::RegistryContract;
use socketfi::registry_types::{RegistryError, SocialPlatform as StrictPlatform};
use socketfi::types::{SocialPlatform, ValidatorSignature};
use socketfi::utils::validate_userid;
use socketfi::xdr::{push_xdr_address, push_xdr_string};
use soroban_sdk::Env;

fn addr(n: u8) -> Address {
    Address { kind: AddressKind::Contract, id: vec![n; 32] }
}

fn sig(n: u8) -> ValidatorSignature {
    ValidatorSignature { validator: vec![n; 32], signature: vec![0u8; 64] }
}

fn registry_with_validators(keys: &[u8]) -> RegistryContract {
    let mut r = RegistryContract::new();
    r.__constructor(&addr(1), &addr(2), &addr(3)).unwrap();
    for k in keys {
        r.add_validator(&[*k; 32]).unwrap();
    }
    r
}

#[test]
fn platform_names() {
    assert_eq!(SocialPlatform::is_platform_supported(b"x"), Ok(SocialPlatform::X));
    assert_eq!(SocialPlatform::is_platform_supported(b"twitter"), Ok(SocialPlatform::X));
    assert_eq!(SocialPlatform::is_platform_supported(b"discord"), Ok(SocialPlatform::Discord));
    assert_eq!(SocialPlatform::is_platform_supported(b"telegram"), Ok(SocialPlatform::Telegram));
    assert_eq!(SocialPlatform::is_platform_supported(b"email"), Ok(SocialPlatform::Email));
    assert_eq!(SocialPlatform::is_platform_supported(b"tiktok"), Ok(SocialPlatform::Tiktok));
    assert_eq!(SocialPlatform::is_platform_supported(b"sms"), Ok(SocialPlatform::Sms));
    assert_eq!(SocialPlatform::is_platform_supported(b"Discord"), Err(ContractError::PlatformNotSupported));
    assert_eq!(SocialPlatform::is_platform_supported(b""), Err(ContractError::PlatformNotSupported));
    assert_eq!(SocialPlatform::X.as_str(), "x");
    assert_eq!(SocialPlatform::Sms.as_str(), "sms");
    for p in [SocialPlatform::X, SocialPlatform::Discord, SocialPlatform::Telegram, SocialPlatform::Email, SocialPlatform::Tiktok, SocialPlatform::Sms] {
        assert_eq!(SocialPlatform::is_platform_supported(p.as_str().as_bytes()), Ok(p));
    }
}

#[test]
fn userid_validation_rules() {
    assert_eq!(validate_userid(b"alice_01"), Ok(()));
    assert_eq!(validate_userid(b"+15551234"), Ok(()));
    assert_eq!(validate_userid(b""), Err(ContractError::InvalidUserId));
    assert_eq!(validate_userid(&vec![b'a'; 256]), Ok(()));
    assert_eq!(validate_userid(&vec![b'a'; 257]), Err(ContractError::MaxLengthExceeded));
    assert_eq!(validate_userid(b"aliCe"), Err(ContractError::UpperNotAllowed));
    assert_eq!(validate_userid(b"a\tb"), Err(ContractError::SpacesNotAllowed));
    assert_eq!(validate_userid(b"a b C"), Err(ContractError::SpacesNotAllowed));
    assert_eq!(validate_userid(b"aB c"), Err(ContractError::UpperNotAllowed));
}

#[test]
fn registry_constructor_runs_once() {
    let mut r = RegistryContract::new();
    assert_eq!(r.get_factory().err(), Some(ContractError::FactoryNotFound));
    assert_eq!(r.get_escrow().err(), Some(ContractError::EscrowNotFound));
    assert_eq!(r.__constructor(&addr(1), &addr(2), &addr(3)), Ok(()));
    assert_eq!(r.__constructor(&addr(1), &addr(2), &addr(3)), Err(ContractError::AlreadyInitialized));
    assert_eq!(r.get_factory().unwrap().id, addr(2).id);
    assert_eq!(r.get_escrow().unwrap().id, addr(3).id);
}

#[test]
fn validator_set_management() {
    let mut r = RegistryContract::new();
    assert_eq!(r.add_validator(&[5u8; 32]), Err(ContractError::AdminNotFound));
    assert_eq!(r.get_validators().err(), Some(ContractError::ValidatorNotFound));
    r.__constructor(&addr(1), &addr(2), &addr(3)).unwrap();
    assert_eq!(r.add_validator(&[9u8; 32]), Ok(()));
    assert_eq!(r.add_validator(&[5u8; 32]), Ok(()));
    assert_eq!(r.add_validator(&[5u8; 32]), Err(ContractError::ValidatorAlreadyExists));
    assert_eq!(r.get_validators().unwrap(), vec![vec![5u8; 32], vec![9u8; 32]]);
    assert_eq!(r.remove_validator(&[7u8; 32]), Err(ContractError::ValidatorNotFound));
    assert_eq!(r.remove_validator(&[9u8; 32]), Ok(()));
    assert_eq!(r.get_validators().unwrap(), vec![vec![5u8; 32]]);
}

#[test]
fn binding_request_checks() {
    let env = Env::default();
    let mut r0 = registry_with_validators(&[]);
    let me = addr(100);
    let wallet = addr(60);
    assert_eq!(r0.verify_identity_binding(&env, &me, &wallet, b"alice", b"x", &vec![]).err(), Some(ContractError::InvalidThreshold));
    let mut r = registry_with_validators(&[5, 6]);
    assert_eq!(r.verify_identity_binding(&env, &me, &wallet, b"alice", b"myspace", &vec![sig(5), sig(6)]).err(), Some(ContractError::PlatformNotSupported));
    assert_eq!(r.verify_identity_binding(&env, &me, &wallet, b"Alice", b"x", &vec![sig(5), sig(6)]).err(), Some(ContractError::UpperNotAllowed));
    assert_eq!(r.verify_identity_binding(&env, &me, &wallet, b"alice", b"x", &vec![sig(5)]).err(), Some(ContractError::IncorrectNumberOfSignatures));
    assert_eq!(r.verify_identity_binding(&env, &me, &wallet, b"alice", b"x", &vec![sig(5), sig(7)]).err(), Some(ContractError::NotValidator));
    assert_eq!(r.verify_identity_binding(&env, &me, &wallet, b"alice", b"x", &vec![sig(5), sig(5)]).err(), Some(ContractError::DuplicateValidator));
    let m = r.verify_identity_binding(&env, &me, &wallet, b"alice", b"twitter", &vec![sig(6), sig(5)]).unwrap();
    let mut expected = Vec::new();
    push_xdr_string(&mut expected, b"verify_identity_binding");
    push_xdr_address(&mut expected, &me);
    push_xdr_address(&mut expected, &wallet);
    push_xdr_string(&mut expected, b"x");
    push_xdr_string(&mut expected, b"alice");
    assert_eq!(m, expected);
}

#[test]
fn identity_binds_once() {
    let env = Env::default();
    let mut r = registry_with_validators(&[5]);
    let me = addr(100);
    let wallet = addr(60);
    assert!(r.get_wallet_by_userid(&env, b"x", b"alice").unwrap().is_none());
    // a refused request binds nothing
    assert_eq!(r.verify_identity_binding(&env, &me, &wallet, b"alice", b"x", &vec![sig(7)]).err(), Some(ContractError::NotValidator));
    assert!(r.get_wallet_by_userid(&env, b"x", b"alice").unwrap().is_none());
    let m = r.verify_identity_binding(&env, &me, &wallet, b"alice", b"x", &vec![sig(5)]).unwrap();
    assert!(!m.is_empty());
    assert_eq!(r.get_wallet_by_userid(&env, b"x", b"alice").unwrap().unwrap().id, wallet.id);
    assert_eq!(r.get_wallet_by_userid(&env, b"twitter", b"alice").unwrap().unwrap().id, wallet.id);
    assert!(r.get_wallet_by_userid(&env, b"discord", b"alice").unwrap().is_none());
    assert_eq!(r.verify_identity_binding(&env, &me, &addr(61), b"alice", b"twitter", &vec![sig(5)]).err(), Some(ContractError::UseridAlreadyMapped));
    assert_eq!(r.get_wallet_by_userid(&env, b"x", b"alice").unwrap().unwrap().id, wallet.id);
    assert_eq!(r.get_wallet_by_userid(&env, b"x", b"Alice").err(), Some(ContractError::UpperNotAllowed));
}

#[test]
fn passkey_binds_once_through_factory() {
    let env = Env::default();
    let mut bare = RegistryContract::new();
    assert_eq!(bare.set_passkey_wallet_map(&env, &[1u8; 77], &addr(60)), Err(ContractError::FactoryNotFound));
    let mut r = registry_with_validators(&[]);
    assert!(r.get_wallet_by_passkey(&env, &[1u8; 77]).unwrap().is_none());
    assert_eq!(r.set_passkey_wallet_map(&env, &[1u8; 77], &addr(60)), Ok(()));
    assert_eq!(r.set_passkey_wallet_map(&env, &[1u8; 77], &addr(61)), Err(ContractError::PasskeyAlreadyMapped));
    assert_eq!(r.get_wallet_by_passkey(&env, &[1u8; 77]).unwrap().unwrap().id, addr(60).id);
}

#[test]
fn registry_admin_change() {
    let mut r = RegistryContract::new();
    assert_eq!(r.set_admin(&addr(8)), Err(ContractError::AdminNotFound));
    r.__constructor(&addr(1), &addr(2), &addr(3)).unwrap();
    assert_eq!(r.set_admin(&addr(8)), Ok(()));
}

#[test]
fn strict_platform_names() {
    let refused = Err(RegistryError::PlatformNotSupported);
    assert_eq!(StrictPlatform::is_platform_supported(b"x"), Ok(StrictPlatform::X));
    assert_eq!(StrictPlatform::is_platform_supported(b"twitter"), refused);
    assert_eq!(StrictPlatform::is_platform_supported(b"discord"), Ok(StrictPlatform::Discord));
    assert_eq!(StrictPlatform::is_platform_supported(b"telegram"), Ok(StrictPlatform::Telegram));
    assert_eq!(StrictPlatform::is_platform_supported(b"email"), Ok(StrictPlatform::Email));
    assert_eq!(StrictPlatform::is_platform_supported(b"tiktok"), Ok(StrictPlatform::Tiktok));
    assert_eq!(StrictPlatform::is_platform_supported(b"sms"), Ok(StrictPlatform::Sms));
    assert_eq!(StrictPlatform::is_platform_supported(b"SMS"), refused);
    assert_eq!(StrictPlatform::Telegram.as_str(), "telegram");
    for p in [StrictPlatform::X, StrictPlatform::Discord, StrictPlatform::Telegram, StrictPlatform::Email, StrictPlatform::Tiktok, StrictPlatform::Sms] {
        assert_eq!(StrictPlatform::is_platform_supported(p.as_str().as_bytes()), Ok(p));
    }
}
