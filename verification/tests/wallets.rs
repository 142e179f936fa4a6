use socketfi::address::{Address, AddressKind};
use socketfi::bls::read_agg_bls_key;
use socketfi::errors::ContractError;
use socketfi::factory::contract::FactoryContract;
use socketfi::factory::wallet_factory::{extract_bls_keys, read_pop_salt, validate_pops, BlsKeyWithProof, FactoryError};
use socketfi::host::sha256;
use socketfi::legacy_registry as legacy;
use socketfi::wallet::bls_access::{is_initialized, read_aggregated_bls_key, Wallet, WalletError};
use socketfi::xdr::{push_xdr_bytes, push_xdr_string};
use soroban_sdk::xdr::ToXdr;
use soroban_sdk::crypto::bls12_381::{Bls12381Fr, Bls12381G1Affine};
use soroban_sdk::{Bytes, BytesN, Env, U256};

fn addr(n: u8) -> Address {
    Address { kind: AddressKind::Contract, id: vec![n; 32] }
}

const G1_ONE: &str = "17f1d3a73197d7942695638c4fa9ac0fc3688c4f9774b905a14e3a3f171bac586c55e83ff97a1aeffb3af00adb22c6bb08b3f481e3aaa0f1a09e30ed741d8ae4fcf5e095d5d00af600db18cb2c04b3edd03cc744a2888ae40caa232946c5e7e1";

fn hex(s: &str) -> Vec<u8> {
    (0..s.len() / 2).map(|i| u8::from_str_radix(&s[2 * i..2 * i + 2], 16).unwrap()).collect()
}

fn g1_one() -> Vec<u8> {
    hex(G1_ONE)
}

fn g1_zero() -> Vec<u8> {
    let mut z = vec![0u8; 96];
    z[0] = 0x40;
    z
}

fn host_g1_add(env: &Env, a: &[u8], b: &[u8]) -> Vec<u8> {
    let pa = Bls12381G1Affine::from_bytes(BytesN::<96>::from_array(env, &a.try_into().unwrap()));
    let pb = Bls12381G1Affine::from_bytes(BytesN::<96>::from_array(env, &b.try_into().unwrap()));
    env.crypto().bls12_381().g1_add(&pa, &pb).to_bytes().to_array().to_vec()
}

fn pop(key: Vec<u8>) -> BlsKeyWithProof {
    BlsKeyWithProof { key, sig: vec![0u8; 192] }
}

fn ready_factory() -> FactoryContract {
    let mut f = FactoryContract::new();
    f.__constructor(&addr(1), &addr(2), &addr(3), &[4u8; 32]).unwrap();
    f.config.social_payments = Some(addr(5));
    f
}

#[test]
fn factory_constructor_runs_once() {
    let mut f = FactoryContract::new();
    assert_eq!(f.get_admin().err(), Some(ContractError::AdminNotFound));
    assert_eq!(f.get_wallet_version().err(), Some(ContractError::WalletWasmNotFound));
    assert_eq!(f.__constructor(&addr(1), &addr(2), &addr(3), &[4u8; 32]), Ok(()));
    assert_eq!(f.__constructor(&addr(1), &addr(2), &addr(3), &[4u8; 32]), Err(ContractError::AlreadyInitialized));
    assert_eq!(f.get_admin().unwrap().id, addr(1).id);
    assert_eq!(f.get_registry().unwrap().id, addr(2).id);
    assert_eq!(f.get_fee_manager().unwrap().id, addr(3).id);
    assert_eq!(f.get_wallet_version(), Ok(vec![4u8; 32]));
    assert!(socketfi::upgrade::voters::read_is_voter(&f.upgrade, &addr(1)));
}

#[test]
fn factory_admin_updates() {
    let mut f = FactoryContract::new();
    assert_eq!(f.update_registry(&addr(9)), Err(ContractError::AdminNotFound));
    f.__constructor(&addr(1), &addr(2), &addr(3), &[4u8; 32]).unwrap();
    assert_eq!(f.update_registry(&addr(9)), Ok(()));
    assert_eq!(f.update_fee_manager(&addr(10)), Ok(()));
    assert_eq!(f.update_admin(&addr(11)), Ok(()));
    assert_eq!(f.get_registry().unwrap().id, addr(9).id);
    assert_eq!(f.get_fee_manager().unwrap().id, addr(10).id);
    assert_eq!(f.get_admin().unwrap().id, addr(11).id);
}

const NEG_G1: &str = "17f1d3a73197d7942695638c4fa9ac0fc3688c4f9774b905a14e3a3f171bac586c55e83ff97a1aeffb3af00adb22c6bb114d1d6855d545a8aa7d76c8cf2e21f267816aef1db507c96655b9d5caac42364e6f38ba0ecb751bad54dcd6b939c2ca";

const DST: &[u8] = b"BLS_SIG_BLS12381G2_XMD:SHA-256_SSWU_RO_POP_";

fn fr(env: &Env, k: u32) -> Bls12381Fr {
    Bls12381Fr::from_u256(U256::from_u32(env, k))
}

fn g1_times(env: &Env, k: u32) -> Vec<u8> {
    let g = Bls12381G1Affine::from_bytes(BytesN::<96>::from_array(env, &g1_one().try_into().unwrap()));
    (g * fr(env, k)).to_bytes().to_array().to_vec()
}

fn sign(env: &Env, salt: &[u8], k: u32) -> Vec<u8> {
    let h = env.crypto().bls12_381().hash_to_g2(&Bytes::from_slice(env, salt), &Bytes::from_slice(env, DST));
    (h * fr(env, k)).to_bytes().to_array().to_vec()
}

#[test]
fn wallet_deployment_plan() {
    let env = Env::default();
    let f = ready_factory();
    let passkey = [7u8; 77];
    let neg = hex(NEG_G1);
    match f.create_wallet(&env, &passkey, &vec![], DST, &neg) {
        Some(Err(e)) => assert_eq!(e, FactoryError::MissingBlsKeys),
        _ => panic!("deployment without keys"),
    }
    let keys = vec![g1_times(&env, 7), g1_times(&env, 11)];
    let salt = read_pop_salt(&env, &passkey, &keys).unwrap();
    let good = vec![
        BlsKeyWithProof { key: keys[0].clone(), sig: sign(&env, &salt, 7) },
        BlsKeyWithProof { key: keys[1].clone(), sig: sign(&env, &salt, 11) },
    ];
    let d = match f.create_wallet(&env, &passkey, &good, DST, &neg) {
        Some(Ok(d)) => d,
        _ => panic!("valid proofs refused"),
    };
    assert_eq!(d.wasm, vec![4u8; 32]);
    assert_eq!(d.passkey, passkey.to_vec());
    assert_eq!(d.bls_keys, keys);
    assert_eq!(d.salt, salt);
    assert_eq!(d.registry.id, addr(2).id);
    assert_eq!(d.social_payments.id, addr(5).id);
    assert_eq!(d.fee_manager.id, addr(3).id);
    // the salt is the host hash of the XDR of the passkey and aggregate key
    let agg = g1_times(&env, 18);
    let mut data = Bytes::new(&env);
    data.append(&BytesN::<77>::from_array(&env, &passkey).to_xdr(&env));
    data.append(&BytesN::<96>::from_array(&env, &agg.clone().try_into().unwrap()).to_xdr(&env));
    assert_eq!(d.salt, env.crypto().sha256(&data).to_array().to_vec());
    // a proof by the wrong secret, or over another salt, is refused
    let bad_first = vec![
        BlsKeyWithProof { key: keys[0].clone(), sig: sign(&env, &salt, 8) },
        BlsKeyWithProof { key: keys[1].clone(), sig: sign(&env, &salt, 11) },
    ];
    match f.create_wallet(&env, &passkey, &bad_first, DST, &neg) {
        Some(Err(e)) => assert_eq!(e, FactoryError::InvalidPoPSignature),
        _ => panic!("bad proof accepted"),
    }
    let bad_second = vec![
        BlsKeyWithProof { key: keys[0].clone(), sig: sign(&env, &salt, 7) },
        BlsKeyWithProof { key: keys[1].clone(), sig: sign(&env, b"other salt", 11) },
    ];
    match f.create_wallet(&env, &passkey, &bad_second, DST, &neg) {
        Some(Err(e)) => assert_eq!(e, FactoryError::InvalidPoPSignature),
        _ => panic!("bad proof accepted"),
    }
}

#[test]
fn single_pop_check() {
    let env = Env::default();
    let neg = hex(NEG_G1);
    let key = g1_times(&env, 5);
    let salt = [9u8; 32];
    let ok = BlsKeyWithProof { key: key.clone(), sig: sign(&env, &salt, 5) };
    assert_eq!(validate_pops(&env, &salt, &vec![ok], DST, &neg), Some(Ok(())));
    let bad = BlsKeyWithProof { key, sig: sign(&env, &salt, 6) };
    assert_eq!(validate_pops(&env, &salt, &vec![bad], DST, &neg), Some(Err(FactoryError::InvalidPoPSignature)));
}

#[test]
fn pop_salt_and_keys() {
    let env = Env::default();
    assert_eq!(read_pop_salt(&env, &[1u8; 77], &vec![]), Err(FactoryError::MissingBlsKeys));
    let mut pre = Vec::new();
    push_xdr_bytes(&mut pre, &[1u8; 77]);
    push_xdr_bytes(&mut pre, &g1_one());
    // the point at infinity adds nothing
    assert_eq!(read_pop_salt(&env, &[1u8; 77], &vec![g1_zero(), g1_one()]), Ok(sha256(&env, &pre)));
    assert_eq!(read_pop_salt(&env, &[1u8; 77], &vec![g1_one()]), Ok(sha256(&env, &pre)));
    assert_eq!(extract_bls_keys(&vec![pop(vec![6u8; 96]), pop(vec![7u8; 96])]), vec![vec![6u8; 96], vec![7u8; 96]]);
}

#[test]
fn bls_aggregate_is_host_sum() {
    let env = Env::default();
    let keys = vec![g1_one(), g1_one(), g1_one()];
    let two = host_g1_add(&env, &g1_one(), &g1_one());
    let three = host_g1_add(&env, &two, &g1_one());
    assert_eq!(read_agg_bls_key(&env, &keys), three);
    assert_eq!(read_agg_bls_key(&env, &vec![g1_one()]), g1_one());
    assert_eq!(read_agg_bls_key(&env, &vec![g1_zero(), g1_zero()]), g1_zero());
}

#[test]
fn wallet_limits_and_transfers() {
    let mut w = Wallet::new();
    let token = addr(20);
    let other = addr(21);
    assert_eq!(w.update_default_limit(-1), Err(ContractError::InvalidLimit));
    assert_eq!(w.update_default_limit(100), Ok(()));
    assert_eq!(w.add_limit(&token, -5), Err(ContractError::InvalidLimit));
    assert_eq!(w.add_limit(&token, 50), Ok(()));
    assert_eq!(w.get_account_parameters().default_allowance, 100);
    assert_eq!(w.withdraw(&addr(30), &token, 0).err(), Some(ContractError::InvalidAmount));
    match w.withdraw(&addr(30), &token, 51) {
        Err(e) => assert_eq!(e, ContractError::ExceedMaxAllowance),
        Ok(_) => panic!("over the limit"),
    }
    let t = w.withdraw(&addr(30), &token, 50).unwrap();
    assert_eq!((t.amount, t.to.id.clone(), t.asset.id.clone()), (50, addr(30).id, token.id.clone()));
    // other tokens fall back to the default limit
    assert!(w.withdraw(&addr(30), &other, 100).is_ok());
    match w.withdraw(&addr(30), &other, 101) {
        Err(e) => assert_eq!(e, ContractError::ExceedMaxAllowance),
        Ok(_) => panic!("over the default limit"),
    }
}

#[test]
fn wallet_approvals() {
    let mut w = Wallet::new();
    let token = addr(20);
    w.add_limit(&token, 50).unwrap();
    match w.approve(&token, &addr(40), -1, 10) {
        Err(e) => assert_eq!(e, ContractError::InvalidAmount),
        Ok(_) => panic!("negative approval"),
    }
    match w.approve(&token, &addr(40), 51, 10) {
        Err(e) => assert_eq!(e, ContractError::ExceedMaxAllowance),
        Ok(_) => panic!("approval over the limit"),
    }
    let a = w.approve(&token, &addr(40), 50, 10).unwrap();
    assert_eq!(a.amount, 50);
    assert_eq!(a.expiration_ledger, 10 + socketfi::tokens::DEFAULT_ALLOWANCE_EXPIRATION);
    match w.approve(&token, &addr(40), 1, u32::MAX) {
        Err(e) => assert_eq!(e, ContractError::InvalidExpiration),
        Ok(_) => panic!("expiration overflow"),
    }
    match w.spend(&token, &addr(40), 0, &addr(41)) {
        Err(e) => assert_eq!(e, ContractError::InvalidAmount),
        Ok(_) => panic!("empty spend"),
    }
    let s = w.spend(&token, &addr(40), 5, &addr(41)).unwrap();
    assert_eq!(s.amount, 5);
    match w.deposit(&addr(42), &token, 0) {
        Err(e) => assert_eq!(e, ContractError::InvalidAmount),
        Ok(_) => panic!("empty deposit"),
    }
    assert_eq!(w.deposit(&addr(42), &token, 9).unwrap().amount, 9);
}

#[test]
fn wallet_keys_owner_and_factory() {
    let mut w = Wallet::new();
    assert!(!is_initialized(&w));
    assert_eq!(w.get_factory().err(), Some(ContractError::FactoryNotFound));
    assert!(w.get_owner().is_none());
    let env = Env::default();
    let keys: Vec<Vec<u8>> = (0..11u8).map(|i| vec![i; 96]).collect();
    assert_eq!(w.reset_account(&env, &keys), Err(WalletError::TooManyKeys));
    assert!(!is_initialized(&w));
    let ten: Vec<Vec<u8>> = (0..10).map(|_| g1_one()).collect();
    assert_eq!(w.reset_account(&env, &ten), Ok(()));
    assert!(is_initialized(&w));
    let mut acc = g1_one();
    for _ in 1..10 {
        acc = host_g1_add(&env, &acc, &g1_one());
    }
    assert_eq!(read_aggregated_bls_key(&w), Some(acc));
    assert_eq!(w.set_external_wallet(&addr(70)), Ok(()));
    assert_eq!(w.get_owner().unwrap().id, addr(70).id);
    assert_eq!(w.get_account_parameters().g_account.unwrap().id, addr(70).id);
    assert_eq!(w.update_factory(&addr(71)), Ok(()));
    assert_eq!(w.get_factory().unwrap().id, addr(71).id);
}

#[test]
fn legacy_username_encoding() {
    let mut expected = Vec::new();
    push_xdr_string(&mut expected, b"bob");
    assert_eq!(legacy::string_to_bytes(b"bob"), Ok(expected));
    assert_eq!(legacy::string_to_bytes(b"Bob"), Err(legacy::ContractError::UpperNotAlloyed));
    // a length byte in 'A'..='Z' is refused too
    assert_eq!(legacy::string_to_bytes(&vec![b'a'; 65]), Err(legacy::ContractError::UpperNotAlloyed));
    assert_eq!(legacy::string_to_bytes(&vec![b'a'; 91]).is_ok(), true);
    assert_eq!(legacy::string_to_bytes(&vec![b'a'; 248]).is_ok(), true);
    assert_eq!(legacy::string_to_bytes(&vec![b'a'; 249]), Err(legacy::ContractError::MaxLengthExceeded));
}

#[test]
fn legacy_bindings_are_first_come() {
    let mut r = legacy::LegacyRegistry::new();
    assert_eq!(legacy::is_registered_username(&r, b"bob"), Ok(false));
    assert_eq!(legacy::read_username_wallet_map(&r, b"bob").err(), Some(legacy::ContractError::UsernameNotRegistered));
    assert_eq!(legacy::write_username_wallet_map(&mut r, b"bob", &addr(1)), Ok(()));
    assert_eq!(legacy::write_username_wallet_map(&mut r, b"bob", &addr(2)), Err(legacy::ContractError::UsernameAlreadyRegistered));
    assert_eq!(legacy::read_username_wallet_map(&r, b"bob").unwrap().id, addr(1).id);
    assert_eq!(legacy::is_registered_username(&r, b"bob"), Ok(true));
    assert!(!legacy::is_linked_passkey(&r, &[1u8; 77]));
    assert_eq!(legacy::read_passkey_wallet_map(&r, &[1u8; 77]).err(), Some(legacy::ContractError::PasskeyNotLinked));
    assert_eq!(legacy::write_passkey_wallet_map(&mut r, &[1u8; 77], &addr(3)), Ok(()));
    assert_eq!(legacy::write_passkey_wallet_map(&mut r, &[1u8; 77], &addr(4)), Err(legacy::ContractError::PasskeyAlreadyLinked));
    assert_eq!(legacy::read_passkey_wallet_map(&r, &[1u8; 77]).unwrap().id, addr(3).id);
    assert!(!legacy::read_is_smart_wallet(&r, &addr(9)));
    legacy::write_is_smart_wallet(&mut r, &addr(9));
    assert!(legacy::read_is_smart_wallet(&r, &addr(9)));
}

#[test]
fn legacy_version_history() {
    let mut r = legacy::LegacyRegistry::new();
    assert_eq!(legacy::read_latest_version(&r), None);
    legacy::write_latest_version(&mut r, &[1u8; 32]);
    assert_eq!(legacy::read_latest_version(&r), Some(vec![1u8; 32]));
    assert_eq!(legacy::read_previous_version(&r), None);
    legacy::write_latest_version(&mut r, &[2u8; 32]);
    assert_eq!(legacy::read_latest_version(&r), Some(vec![2u8; 32]));
    assert_eq!(legacy::read_previous_version(&r), Some(vec![1u8; 32]));
}

#[test]
fn legacy_wallet_deployment_salt() {
    let env = Env::default();
    let d = legacy::write_create_wallet(&env, b"bob", &[5u8; 77], &vec![vec![1u8; 96]], &[6u8; 32]).unwrap();
    let mut pre = Vec::new();
    push_xdr_bytes(&mut pre, &[5u8; 77]);
    push_xdr_string(&mut pre, b"bob");
    assert_eq!(d.salt, sha256(&env, &pre));
    assert_eq!(d.wasm, vec![6u8; 32]);
    assert!(legacy::write_create_wallet(&env, b"Bob", &[5u8; 77], &vec![], &[6u8; 32]).is_err());
}

#[test]
fn legacy_registry_contract() {
    let mut c = legacy::RegistryContract::new();
    assert_eq!(c.set_admin(&addr(1)), Err(legacy::ContractError::AdminNotFound));
    assert_eq!(c.upgrade(&[0u8; 32]).err(), Some(legacy::ContractError::AdminNotFound));
    assert_eq!(c.__constructor(&addr(1), &addr(2)), Ok(()));
    assert_eq!(c.__constructor(&addr(1), &addr(2)), Err(legacy::ContractError::AlreadyInitialized));
    assert_eq!(c.upgrade(&[0u8; 32]).unwrap().id, addr(1).id);
    assert!(!c.get_is_smart_wallet(&addr(9)));
    legacy::write_is_smart_wallet(&mut c.registry, &addr(9));
    assert!(c.get_is_smart_wallet(&addr(9)));
    assert_eq!(c.get_wallet_by_username(b"bob").err(), Some(legacy::ContractError::UsernameNotRegistered));
    legacy::write_username_wallet_map(&mut c.registry, b"bob", &addr(3)).unwrap();
    assert_eq!(c.get_wallet_by_username(b"bob").unwrap().id, addr(3).id);
    assert_eq!(c.get_wallet_by_passkey(&[1u8; 77]).err(), Some(legacy::ContractError::PasskeyNotLinked));
    assert_eq!(c.set_admin(&addr(4)), Ok(()));
}

#[test]
fn single_key_is_stored_as_given() {
    let env = Env::default();
    let mut w = Wallet::new();
    let key = vec![9u8; 96];
    assert_eq!(w.reset_account(&env, &vec![key.clone()]), Ok(()));
    assert_eq!(read_aggregated_bls_key(&w), Some(key));
}

#[test]
fn aggregate_and_salt_ignore_key_order() {
    let env = Env::default();
    let a = vec![g1_times(&env, 2), g1_times(&env, 5), g1_times(&env, 9)];
    let b = vec![g1_times(&env, 9), g1_times(&env, 2), g1_times(&env, 5)];
    assert_eq!(read_agg_bls_key(&env, &a), read_agg_bls_key(&env, &b));
    assert_eq!(read_agg_bls_key(&env, &a), g1_times(&env, 16));
    assert_eq!(read_pop_salt(&env, &[1u8; 77], &a), read_pop_salt(&env, &[1u8; 77], &b));
}
