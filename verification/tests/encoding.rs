use socketfi::address::{Address, AddressKind};
use socketfi::errors::ContractError;
use socketfi::host::sha256;
use socketfi::social_payments::payment::generate_payment_id;
use socketfi::utils::{passkey_wallet_key, userid_payment_key, userid_wallet_key, DataKey};
use socketfi::xdr::{
    push_be32, push_be64, push_xdr_address, push_xdr_bytes, push_xdr_i128, push_xdr_string,
    push_xdr_u64, string_xdr,
};
use soroban_sdk::testutils::Address as _;
use soroban_sdk::xdr::ToXdr;
use soroban_sdk::{Bytes, Env};

fn host_bytes(b: &Bytes) -> Vec<u8> {
    b.iter().collect()
}

fn contract_address(env: &Env) -> (soroban_sdk::Address, Address) {
    let a = soroban_sdk::Address::generate(env);
    let x = host_bytes(&a.clone().to_xdr(env));
    // tag (4) + contract discriminant (4) + 32-byte id
    assert_eq!(x.len(), 40);
    (a, Address { kind: AddressKind::Contract, id: x[8..40].to_vec() })
}

fn crc16_xmodem(data: &[u8]) -> u16 {
    let mut crc: u16 = 0;
    for b in data {
        crc ^= (*b as u16) << 8;
        for _ in 0..8 {
            if crc & 0x8000 != 0 {
                crc = (crc << 1) ^ 0x1021;
            } else {
                crc <<= 1;
            }
        }
    }
    crc
}

fn base32(data: &[u8]) -> String {
    let alphabet = b"ABCDEFGHIJKLMNOPQRSTUVWXYZ234567";
    let mut out = String::new();
    let mut buffer: u32 = 0;
    let mut bits: u32 = 0;
    for b in data {
        buffer = (buffer << 8) | (*b as u32);
        bits += 8;
        while bits >= 5 {
            let idx = (buffer >> (bits - 5)) & 31;
            out.push(alphabet[idx as usize] as char);
            bits -= 5;
        }
    }
    if bits > 0 {
        let idx = (buffer << (5 - bits)) & 31;
        out.push(alphabet[idx as usize] as char);
    }
    out
}

fn account_address(env: &Env, key: [u8; 32]) -> (soroban_sdk::Address, Address) {
    let mut payload = vec![6u8 << 3];
    payload.extend_from_slice(&key);
    let crc = crc16_xmodem(&payload);
    payload.push((crc & 0xff) as u8);
    payload.push((crc >> 8) as u8);
    let strkey = base32(&payload);
    let a = soroban_sdk::Address::from_str(env, &strkey);
    (a, Address { kind: AddressKind::Account, id: key.to_vec() })
}

#[test]
fn be_encodings_are_big_endian() {
    let mut out = Vec::new();
    push_be32(&mut out, 0x01020304);
    push_be64(&mut out, 0x05060708090a0b0c);
    assert_eq!(out, vec![1, 2, 3, 4, 5, 6, 7, 8, 9, 10, 11, 12]);
}

#[test]
fn string_xdr_matches_host() {
    let env = Env::default();
    for s in ["", "a", "ab", "abc", "abcd", "social_payment", "verify_identity_binding"] {
        let host = host_bytes(&soroban_sdk::String::from_str(&env, s).to_xdr(&env));
        assert_eq!(string_xdr(s.as_bytes()), host);
        let mut out = Vec::new();
        push_xdr_string(&mut out, s.as_bytes());
        assert_eq!(out, host);
    }
}

#[test]
fn string_xdr_pads_to_four_bytes() {
    assert_eq!(string_xdr(b"ab"), vec![0, 0, 0, 14, 0, 0, 0, 2, b'a', b'b', 0, 0]);
}

#[test]
fn bytes_xdr_matches_host() {
    let env = Env::default();
    for len in [0usize, 1, 3, 4, 77, 96] {
        let data: Vec<u8> = (0..len).map(|i| (i * 7 + 1) as u8).collect();
        let host = host_bytes(&Bytes::from_slice(&env, &data).to_xdr(&env));
        let mut out = Vec::new();
        push_xdr_bytes(&mut out, &data);
        assert_eq!(out, host);
    }
}

#[test]
fn u64_xdr_matches_host() {
    let env = Env::default();
    for n in [0u64, 1, 255, 1 << 40, u64::MAX] {
        let host = host_bytes(&n.to_xdr(&env));
        let mut out = Vec::new();
        push_xdr_u64(&mut out, n);
        assert_eq!(out, host);
    }
}

#[test]
fn i128_xdr_matches_host() {
    let env = Env::default();
    for x in [0i128, 1, -1, 1_000_000, i128::MAX, i128::MIN, -(1i128 << 70)] {
        let host = host_bytes(&x.to_xdr(&env));
        let mut out = Vec::new();
        push_xdr_i128(&mut out, x);
        assert_eq!(out, host);
    }
}

#[test]
fn contract_address_xdr_matches_host() {
    let env = Env::default();
    let (host_addr, addr) = contract_address(&env);
    let mut out = Vec::new();
    push_xdr_address(&mut out, &addr);
    assert_eq!(out, host_bytes(&host_addr.to_xdr(&env)));
}

#[test]
fn account_address_xdr_matches_host() {
    let env = Env::default();
    let mut key = [0u8; 32];
    for (i, b) in key.iter_mut().enumerate() {
        *b = (i as u8).wrapping_mul(13).wrapping_add(5);
    }
    let (host_addr, addr) = account_address(&env, key);
    let mut out = Vec::new();
    push_xdr_address(&mut out, &addr);
    assert_eq!(out, host_bytes(&host_addr.to_xdr(&env)));
}

#[test]
fn sha256_of_abc() {
    let env = Env::default();
    let d = sha256(&env, b"abc");
    let expected: Vec<u8> = vec![
        0xba, 0x78, 0x16, 0xbf, 0x8f, 0x01, 0xcf, 0xea, 0x41, 0x41, 0x40, 0xde, 0x5d, 0xae, 0x22, 0x23,
        0xb0, 0x03, 0x61, 0xa3, 0x96, 0x17, 0x7a, 0x9c, 0xb4, 0x10, 0xff, 0x61, 0xf2, 0x00, 0x15, 0xad,
    ];
    assert_eq!(d, expected);
    assert_ne!(d, b"abc".to_vec());
}

#[test]
fn payment_id_matches_host_derivation() {
    let env = Env::default();
    let (hs, sender) = contract_address(&env);
    let (ha, asset) = contract_address(&env);
    let amount: i128 = 12_345;
    let nonce: u64 = 7;
    let mut data = Bytes::new(&env);
    data.append(&soroban_sdk::String::from_str(&env, "social_payment").to_xdr(&env));
    data.append(&hs.to_xdr(&env));
    data.append(&ha.to_xdr(&env));
    data.append(&amount.to_xdr(&env));
    data.append(&soroban_sdk::String::from_str(&env, "x").to_xdr(&env));
    data.append(&soroban_sdk::String::from_str(&env, "alice").to_xdr(&env));
    data.append(&nonce.to_xdr(&env));
    let expected = env.crypto().sha256(&data).to_array().to_vec();
    let id = generate_payment_id(&env, &sender, &asset, amount, b"x", b"alice", nonce);
    assert_eq!(id, expected);
    let other = generate_payment_id(&env, &sender, &asset, amount, b"x", b"alice", nonce + 1);
    assert_ne!(id, other);
}

#[test]
fn userid_key_matches_host_derivation() {
    let env = Env::default();
    let mut salt = Vec::new();
    salt.extend_from_slice(b"userid_wallet");
    salt.push(0);
    salt.extend_from_slice(b"discord");
    salt.push(0);
    salt.extend_from_slice(b"bob_99");
    let expected = sha256(&env, &salt);
    assert_eq!(userid_payment_key(&env, b"discord", b"bob_99"), Ok(expected.clone()));
    match userid_wallet_key(&env, b"discord", b"bob_99") {
        Ok(DataKey::UseridWalletMap(h)) => assert_eq!(h, expected),
        _ => panic!("unexpected key"),
    }
}

#[test]
fn twitter_and_x_share_identity_key() {
    let env = Env::default();
    let a = userid_payment_key(&env, b"twitter", b"alice").unwrap();
    let b = userid_payment_key(&env, b"x", b"alice").unwrap();
    assert_eq!(a, b);
    let c = userid_payment_key(&env, b"discord", b"alice").unwrap();
    assert_ne!(a, c);
}

#[test]
fn userid_key_refusals() {
    let env = Env::default();
    assert_eq!(userid_payment_key(&env, b"myspace", b"alice"), Err(ContractError::PlatformNotSupported));
    assert_eq!(userid_payment_key(&env, b"X", b"alice"), Err(ContractError::PlatformNotSupported));
    assert_eq!(userid_payment_key(&env, b"x", b""), Err(ContractError::InvalidUserId));
    assert_eq!(userid_payment_key(&env, b"x", b"Alice"), Err(ContractError::UpperNotAllowed));
    assert_eq!(userid_payment_key(&env, b"x", b"al ice"), Err(ContractError::SpacesNotAllowed));
}

#[test]
fn passkey_key_is_hash_of_salt() {
    let env = Env::default();
    let passkey = [3u8; 77];
    let mut salt = Vec::new();
    salt.extend_from_slice(b"passkey_wallet");
    salt.push(0);
    salt.extend_from_slice(&passkey);
    match passkey_wallet_key(&env, &passkey) {
        Ok(DataKey::PasskeyWalletMap(h)) => assert_eq!(h, sha256(&env, &salt)),
        _ => panic!("unexpected key"),
    }
}
