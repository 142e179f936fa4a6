//! The earlier registry layout: usernames and passkeys bound to wallets,
//! smart-wallet flags, and the latest and previous wallet versions.
use vstd::prelude::*;
use crate::access::{AccessConfig, has_admin, opt_view, read_admin, write_admin, write_factory};
use crate::address::{Address, AddressKind, address_key};
use crate::bytes::copy_bytes;
use crate::host::{sha256, sha256_digest};
use crate::keymap::ByteMap;
use crate::keyset::ByteSet;
use crate::upgrade::storage::opt_bytes;
use crate::xdr::{push_xdr_bytes, string_xdr, xdr_bytes, xdr_string};

verus! {

/// Errors of the earlier registry.
#[derive(Clone, Copy, Debug, PartialEq, Eq, Structural)]
pub enum ContractError {
    AdminNotFound,
    AlreadyInitialized,
    VersionNotFound,
    UsernameAlreadyRegistered,
    UsernameNotRegistered,
    PasskeyAlreadyLinked,
    PasskeyNotLinked,
    UpperNotAlloyed,
    MaxLengthExceeded,
    WalletNotFound,
}

/// Longest accepted encoded username, in bytes.
pub const MAX_LEN: u32 = 256;

/// Outcome of encoding a username: its XDR, refused when longer than
/// `MAX_LEN` bytes or when any byte of the encoding (header included) is an
/// uppercase ASCII letter.
pub open spec fn username_encoding(s: Seq<u8>) -> Result<Seq<u8>, ContractError> {
    let x = xdr_string(s);
    if x.len() > MAX_LEN {
        Err(ContractError::MaxLengthExceeded)
    } else if exists|i: int| 0 <= i < x.len() && 65 <= #[trigger] x[i] <= 90 {
        Err(ContractError::UpperNotAlloyed)
    } else {
        Ok(x)
    }
}

/// Encodes a username as the key of its binding.
pub fn string_to_bytes(string: &[u8]) -> (r: Result<Vec<u8>, ContractError>)
    requires
        string@.len() <= u32::MAX,
    ensures
        match username_encoding(string@) {
            Ok(x) => r matches Ok(v) && v@ == x,
            Err(e) => r == Err::<Vec<u8>, ContractError>(e),
        },
{
    let string_xdr = string_xdr(string);
    let len = string_xdr.len();
    if len > MAX_LEN as usize {
        return Err(ContractError::MaxLengthExceeded);
    }
    let mut i: usize = 0;
    while i < len
        invariant
            len == string_xdr@.len(),
            len <= MAX_LEN,
            string_xdr@ == xdr_string(string@),
            i <= len,
            forall|j: int| 0 <= j < i ==> !(65 <= #[trigger] string_xdr@[j] <= 90),
        decreases len - i,
    {
        let v = string_xdr[i];
        if v >= 65 && v <= 90 {
            assert(65 <= xdr_string(string@)[i as int] <= 90);
            return Err(ContractError::UpperNotAlloyed);
        }
        i = i + 1;
    }
    Ok(string_xdr)
}

/// The length of a username is part of its encoding: every username of 65
/// to 90 bytes is refused, since its length byte reads as an uppercase
/// letter.
pub proof fn lemma_length_byte_refused(s: Seq<u8>)
    requires
        65 <= s.len() <= 90,
    ensures
        username_encoding(s) == Err::<Seq<u8>, ContractError>(ContractError::UpperNotAlloyed),
{
    let x = xdr_string(s);
    assert(x[7] == (s.len() % 256) as u8);
}

/// A wallet deployment of the earlier factory: code, salt, and constructor
/// arguments (username, passkey, BLS keys).
pub struct LegacyWalletDeployment {
    pub wasm: Vec<u8>,
    pub salt: Vec<u8>,
    pub username: Vec<u8>,
    pub passkey: Vec<u8>,
    pub bls_keys: Vec<Vec<u8>>,
}

/// The earlier registry's state.
pub struct LegacyRegistry {
    /// Address keys of registered smart wallets.
    pub smart_wallets: ByteSet,
    /// Encoded username -> wallet.
    pub username_wallets: ByteMap<Address>,
    /// Passkey -> wallet.
    pub passkey_wallets: ByteMap<Address>,
    pub latest_version: Option<Vec<u8>>,
    pub previous_version: Option<Vec<u8>>,
}

impl LegacyRegistry {
    /// Well-formedness.
    pub open spec fn wf(&self) -> bool {
        &&& self.smart_wallets.wf()
        &&& self.username_wallets.wf()
        &&& self.passkey_wallets.wf()
    }

    /// Nothing registered.
    pub fn new() -> (r: Self)
        ensures
            r.wf(),
            r.latest_version is None,
            r.previous_version is None,
            r.username_wallets.view() == Map::<Seq<u8>, Address>::empty(),
            r.passkey_wallets.view() == Map::<Seq<u8>, Address>::empty(),
            r.smart_wallets.key_set() == Set::<Seq<u8>>::empty(),
    {
        let s = ByteSet::new();
        assert(s.key_set() =~= Set::<Seq<u8>>::empty());
        LegacyRegistry {
            smart_wallets: s,
            username_wallets: ByteMap::new(),
            passkey_wallets: ByteMap::new(),
            latest_version: None,
            previous_version: None,
        }
    }
}

/// Whether `wallet_id` is a registered smart wallet.
pub fn read_is_smart_wallet(r: &LegacyRegistry, wallet_id: &Address) -> (b: bool)
    ensures
        b == r.smart_wallets.key_set().contains(address_key(wallet_id@)),
{
    let k = wallet_id.key();
    r.smart_wallets.contains(k.as_slice())
}

/// Registers `wallet_id` as a smart wallet.
pub fn write_is_smart_wallet(r: &mut LegacyRegistry, wallet_id: &Address)
    requires
        old(r).wf(),
    ensures
        final(r).wf(),
        final(r).smart_wallets.key_set() == old(r).smart_wallets.key_set().insert(address_key(wallet_id@)),
        final(r).username_wallets == old(r).username_wallets,
        final(r).passkey_wallets == old(r).passkey_wallets,
{
    let k = wallet_id.key();
    r.smart_wallets.insert(k.as_slice());
}

/// Whether `username` is bound; fails where it cannot be encoded.
pub fn is_registered_username(r: &LegacyRegistry, username: &[u8]) -> (b: Result<bool, ContractError>)
    requires
        r.wf(),
        username@.len() <= u32::MAX,
    ensures
        match username_encoding(username@) {
            Ok(x) => b == Ok::<bool, ContractError>(r.username_wallets.view().contains_key(x)),
            Err(e) => b == Err::<bool, ContractError>(e),
        },
{
    let key = match string_to_bytes(username) {
        Ok(k) => k,
        Err(e) => return Err(e),
    };
    Ok(r.username_wallets.contains_key(key.as_slice()))
}

/// Binds `username` to `wallet_address`, at most once
/// (`UsernameAlreadyRegistered`); a failure changes nothing.
pub fn write_username_wallet_map(r: &mut LegacyRegistry, username: &[u8], wallet_address: &Address) -> (res: Result<(), ContractError>)
    requires
        old(r).wf(),
        username@.len() <= u32::MAX,
    ensures
        final(r).wf(),
        res is Err ==> *final(r) == *old(r),
        match username_encoding(username@) {
            Err(e) => res == Err::<(), ContractError>(e),
            Ok(x) => if old(r).username_wallets.view().contains_key(x) {
                res == Err::<(), ContractError>(ContractError::UsernameAlreadyRegistered)
            } else {
                &&& res is Ok
                &&& final(r).username_wallets.view().dom() == old(r).username_wallets.view().dom().insert(x)
                &&& final(r).username_wallets.view()[x]@ == wallet_address@
                &&& forall|k: Seq<u8>| k != x && #[trigger] old(r).username_wallets.view().contains_key(k)
                    ==> final(r).username_wallets.view()[k] == old(r).username_wallets.view()[k]
                &&& final(r).passkey_wallets == old(r).passkey_wallets
            },
        },
{
    let key = match string_to_bytes(username) {
        Ok(k) => k,
        Err(e) => return Err(e),
    };
    if r.username_wallets.contains_key(key.as_slice()) {
        return Err(ContractError::UsernameAlreadyRegistered);
    }
    r.username_wallets.set(key.as_slice(), wallet_address.copy());
    Ok(())
}

/// The wallet bound to `username` (`UsernameNotRegistered` otherwise).
pub fn read_username_wallet_map(r: &LegacyRegistry, username: &[u8]) -> (res: Result<Address, ContractError>)
    requires
        r.wf(),
        username@.len() <= u32::MAX,
    ensures
        match username_encoding(username@) {
            Err(e) => res == Err::<Address, ContractError>(e),
            Ok(x) => match res {
                Ok(a) => r.username_wallets.view().contains_key(x) && r.username_wallets.view()[x]@ == a@,
                Err(e) => !r.username_wallets.view().contains_key(x) && e == ContractError::UsernameNotRegistered,
            },
        },
{
    let key = match string_to_bytes(username) {
        Ok(k) => k,
        Err(e) => return Err(e),
    };
    match r.username_wallets.get(key.as_slice()) {
        Some(a) => Ok(a.copy()),
        None => Err(ContractError::UsernameNotRegistered),
    }
}

/// Whether `passkey` is bound.
pub fn is_linked_passkey(r: &LegacyRegistry, passkey: &[u8]) -> (b: bool)
    requires
        r.wf(),
    ensures
        b == r.passkey_wallets.view().contains_key(passkey@),
{
    r.passkey_wallets.contains_key(passkey)
}

/// Binds `passkey` to `wallet_address`, at most once
/// (`PasskeyAlreadyLinked`); a failure changes nothing.
pub fn write_passkey_wallet_map(r: &mut LegacyRegistry, passkey: &[u8], wallet_address: &Address) -> (res: Result<(), ContractError>)
    requires
        old(r).wf(),
    ensures
        final(r).wf(),
        old(r).passkey_wallets.view().contains_key(passkey@) ==> res == Err::<(), ContractError>(
            ContractError::PasskeyAlreadyLinked,
        ) && *final(r) == *old(r),
        !old(r).passkey_wallets.view().contains_key(passkey@) ==> {
            &&& res is Ok
            &&& final(r).passkey_wallets.view().dom() == old(r).passkey_wallets.view().dom().insert(passkey@)
            &&& final(r).passkey_wallets.view()[passkey@]@ == wallet_address@
            &&& forall|k: Seq<u8>| k != passkey@ && #[trigger] old(r).passkey_wallets.view().contains_key(k)
                ==> final(r).passkey_wallets.view()[k] == old(r).passkey_wallets.view()[k]
            &&& final(r).username_wallets == old(r).username_wallets
        },
{
    if is_linked_passkey(r, passkey) {
        return Err(ContractError::PasskeyAlreadyLinked);
    }
    r.passkey_wallets.set(passkey, wallet_address.copy());
    Ok(())
}

/// The wallet bound to `passkey` (`PasskeyNotLinked` otherwise).
pub fn read_passkey_wallet_map(r: &LegacyRegistry, passkey: &[u8]) -> (res: Result<Address, ContractError>)
    requires
        r.wf(),
    ensures
        match res {
            Ok(a) => r.passkey_wallets.view().contains_key(passkey@) && r.passkey_wallets.view()[passkey@]@ == a@,
            Err(e) => !r.passkey_wallets.view().contains_key(passkey@) && e == ContractError::PasskeyNotLinked,
        },
{
    if !is_linked_passkey(r, passkey) {
        return Err(ContractError::PasskeyNotLinked);
    }
    match r.passkey_wallets.get(passkey) {
        Some(a) => Ok(a.copy()),
        None => Err(ContractError::WalletNotFound),
    }
}

/// Makes `wasm` the latest wallet version; the version it replaces, if
/// any, becomes the previous one.
pub fn write_latest_version(r: &mut LegacyRegistry, wasm: &[u8])
    ensures
        opt_bytes(final(r).latest_version) == Some(wasm@),
        final(r).previous_version == (if old(r).latest_version is Some {
            final(r).previous_version
        } else {
            old(r).previous_version
        }),
        old(r).latest_version is Some ==> opt_bytes(final(r).previous_version) == opt_bytes(old(r).latest_version),
        final(r).smart_wallets == old(r).smart_wallets,
        final(r).username_wallets == old(r).username_wallets,
        final(r).passkey_wallets == old(r).passkey_wallets,
{
    match read_latest_version(r) {
        Some(pre) => write_previous_version(r, pre.as_slice()),
        None => {},
    }
    r.latest_version = Some(copy_bytes(wasm));
}

/// Sets the previous wallet version.
pub fn write_previous_version(r: &mut LegacyRegistry, wasm: &[u8])
    ensures
        opt_bytes(final(r).previous_version) == Some(wasm@),
        final(r).latest_version == old(r).latest_version,
        final(r).smart_wallets == old(r).smart_wallets,
        final(r).username_wallets == old(r).username_wallets,
        final(r).passkey_wallets == old(r).passkey_wallets,
{
    r.previous_version = Some(copy_bytes(wasm));
}

/// The latest wallet version, if any.
pub fn read_latest_version(r: &LegacyRegistry) -> (v: Option<Vec<u8>>)
    ensures
        opt_bytes(v) == opt_bytes(r.latest_version),
{
    match &r.latest_version {
        Some(w) => Some(copy_bytes(w.as_slice())),
        None => None,
    }
}

/// The previous wallet version, if any.
pub fn read_previous_version(r: &LegacyRegistry) -> (v: Option<Vec<u8>>)
    ensures
        opt_bytes(v) == opt_bytes(r.previous_version),
{
    match &r.previous_version {
        Some(w) => Some(copy_bytes(w.as_slice())),
        None => None,
    }
}

/// Plans a wallet deployment from `wasm` at the salt hashing the passkey's
/// XDR and the username's encoding; fails where the username cannot be
/// encoded.
pub fn write_create_wallet(
    e: &soroban_sdk::Env,
    username: &[u8],
    passkey: &[u8],
    bls_keys: &Vec<Vec<u8>>,
    wasm: &[u8],
) -> (res: Result<LegacyWalletDeployment, ContractError>)
    requires
        username@.len() <= u32::MAX,
        passkey@.len() <= u32::MAX,
    ensures
        match username_encoding(username@) {
            Err(err) => res is Err && res->Err_0 == err,
            Ok(x) => res matches Ok(d) && d.salt@ == sha256_digest(xdr_bytes(passkey@) + x)
                && d.wasm@ == wasm@ && d.username@ == username@ && d.passkey@ == passkey@
                && crate::keyset::views(d.bls_keys@) == crate::keyset::views(bls_keys@),
        },
{
    let name = match string_to_bytes(username) {
        Ok(x) => x,
        Err(err) => return Err(err),
    };
    let mut salt: Vec<u8> = Vec::new();
    push_xdr_bytes(&mut salt, passkey);
    crate::bytes::append_bytes(&mut salt, name.as_slice());
    let salt = sha256(e, salt.as_slice());
    Ok(LegacyWalletDeployment {
        wasm: copy_bytes(wasm),
        salt,
        username: copy_bytes(username),
        passkey: copy_bytes(passkey),
        bls_keys: crate::social_payments::payment::copy_id_list(bls_keys),
    })
}

/// The earlier registry contract: an admin and a factory over the earlier
/// binding layout.
pub struct RegistryContract {
    pub config: AccessConfig,
    pub registry: LegacyRegistry,
}

impl RegistryContract {
    /// Well-formedness.
    pub open spec fn wf(&self) -> bool {
        self.registry.wf()
    }

    /// A registry before its constructor ran.
    pub fn new() -> (c: Self)
        ensures
            c.wf(),
            c.config.admin is None,
    {
        RegistryContract { config: AccessConfig::new(), registry: LegacyRegistry::new() }
    }

    /// Initializes the registry with its admin and factory; fails with
    /// `AlreadyInitialized`, changing nothing, once an admin is set.
    pub fn __constructor(&mut self, admin: &Address, factory: &Address) -> (r: Result<(), ContractError>)
        ensures
            old(self).config.admin is Some ==> r == Err::<(), ContractError>(ContractError::AlreadyInitialized)
                && *final(self) == *old(self),
            old(self).config.admin is None ==> {
                &&& r is Ok
                &&& opt_view(final(self).config.admin) == Some(admin@)
                &&& opt_view(final(self).config.factory) == Some(factory@)
                &&& final(self).registry == old(self).registry
            },
    {
        if has_admin(&self.config) {
            return Err(ContractError::AlreadyInitialized);
        }
        write_admin(&mut self.config, admin);
        write_factory(&mut self.config, factory);
        Ok(())
    }

    /// Whether `wallet_id` is a registered smart wallet.
    pub fn get_is_smart_wallet(&self, wallet_id: &Address) -> (b: bool)
        ensures
            b == self.registry.smart_wallets.key_set().contains(address_key(wallet_id@)),
    {
        read_is_smart_wallet(&self.registry, wallet_id)
    }

    /// The wallet bound to `username`; see `read_username_wallet_map`.
    pub fn get_wallet_by_username(&self, username: &[u8]) -> (res: Result<Address, ContractError>)
        requires
            self.wf(),
            username@.len() <= u32::MAX,
        ensures
            match username_encoding(username@) {
                Err(e) => res == Err::<Address, ContractError>(e),
                Ok(x) => match res {
                    Ok(a) => self.registry.username_wallets.view().contains_key(x)
                        && self.registry.username_wallets.view()[x]@ == a@,
                    Err(e) => !self.registry.username_wallets.view().contains_key(x)
                        && e == ContractError::UsernameNotRegistered,
                },
            },
    {
        read_username_wallet_map(&self.registry, username)
    }

    /// The wallet bound to `passkey`; see `read_passkey_wallet_map`.
    pub fn get_wallet_by_passkey(&self, passkey: &[u8]) -> (res: Result<Address, ContractError>)
        requires
            self.wf(),
        ensures
            match res {
                Ok(a) => self.registry.passkey_wallets.view().contains_key(passkey@)
                    && self.registry.passkey_wallets.view()[passkey@]@ == a@,
                Err(e) => !self.registry.passkey_wallets.view().contains_key(passkey@)
                    && e == ContractError::PasskeyNotLinked,
            },
    {
        read_passkey_wallet_map(&self.registry, passkey)
    }

    /// Replaces the admin (admin only); `AdminNotFound` before the
    /// constructor ran.
    pub fn set_admin(&mut self, new_admin: &Address) -> (r: Result<(), ContractError>)
        ensures
            old(self).config.admin is None ==> r == Err::<(), ContractError>(ContractError::AdminNotFound)
                && *final(self) == *old(self),
            old(self).config.admin is Some ==> r is Ok && opt_view(final(self).config.admin) == Some(new_admin@)
                && final(self).config.factory == old(self).config.factory
                && final(self).registry == old(self).registry,
    {
        if !has_admin(&self.config) {
            return Err(ContractError::AdminNotFound);
        }
        write_admin(&mut self.config, new_admin);
        Ok(())
    }

    /// Authorizes replacing the contract's code by `new_wasm_hash` (admin
    /// only): returns the admin, who must authorize, or `AdminNotFound`.
    pub fn upgrade(&self, new_wasm_hash: &[u8]) -> (r: Result<Address, ContractError>)
        ensures
            match r {
                Ok(a) => opt_view(self.config.admin) == Some(a@),
                Err(e) => self.config.admin is None && e == ContractError::AdminNotFound,
            },
    {
        match read_admin(&self.config) {
            Ok(a) => Ok(a),
            Err(_) => Err(ContractError::AdminNotFound),
        }
    }
}

} // verus!
