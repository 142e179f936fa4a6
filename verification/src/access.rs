//! Contract configuration: the admin and the addresses of the contracts a
//! contract depends on.
use vstd::prelude::*;
use crate::address::Address;
use crate::errors::ContractError;

verus! {

/// Configuration held in a contract's instance storage. A missing entry is
/// `None`.
pub struct AccessConfig {
    pub admin: Option<Address>,
    pub factory: Option<Address>,
    pub registry: Option<Address>,
    pub fee_manager: Option<Address>,
    pub social_payments: Option<Address>,
    pub escrow: Option<Address>,
}

/// The view of an optional address.
pub open spec fn opt_view(a: Option<Address>) -> Option<(crate::address::AddressKind, Seq<u8>)> {
    match a {
        Some(x) => Some(x@),
        None => None,
    }
}

/// Reads an optional address, failing with `err` when it is missing.
fn read_entry(a: &Option<Address>, err: ContractError) -> (r: Result<Address, ContractError>)
    ensures
        match r {
            Ok(x) => a is Some && x@ == a->0@,
            Err(e) => a is None && e == err,
        },
{
    match a {
        Some(x) => Ok(x.copy()),
        None => Err(err),
    }
}

impl AccessConfig {
    /// A contract with nothing configured.
    pub fn new() -> (c: Self)
        ensures
            c.admin is None,
            c.factory is None,
            c.registry is None,
            c.fee_manager is None,
            c.social_payments is None,
            c.escrow is None,
    {
        AccessConfig {
            admin: None,
            factory: None,
            registry: None,
            fee_manager: None,
            social_payments: None,
            escrow: None,
        }
    }
}

/// Whether the admin has been set (the contract has been initialized).
pub fn has_admin(c: &AccessConfig) -> (r: bool)
    ensures
        r == c.admin is Some,
{
    c.admin.is_some()
}

/// The admin, or `AdminNotFound`.
pub fn read_admin(c: &AccessConfig) -> (r: Result<Address, ContractError>)
    ensures
        match r {
            Ok(a) => opt_view(c.admin) == Some(a@),
            Err(e) => c.admin is None && e == ContractError::AdminNotFound,
        },
{
    read_entry(&c.admin, ContractError::AdminNotFound)
}

/// Sets the admin.
pub fn write_admin(c: &mut AccessConfig, admin: &Address)
    ensures
        opt_view(final(c).admin) == Some(admin@),
        final(c).factory == old(c).factory,
        final(c).registry == old(c).registry,
        final(c).fee_manager == old(c).fee_manager,
        final(c).social_payments == old(c).social_payments,
        final(c).escrow == old(c).escrow,
{
    c.admin = Some(admin.copy());
}

/// The address that must authorize an admin-only call: the configured
/// admin, or `AdminNotFound`.
pub fn authenticate_admin(c: &AccessConfig) -> (r: Result<Address, ContractError>)
    ensures
        match r {
            Ok(a) => opt_view(c.admin) == Some(a@),
            Err(e) => c.admin is None && e == ContractError::AdminNotFound,
        },
{
    read_admin(c)
}

/// The factory contract, or `FactoryNotFound`.
pub fn read_factory(c: &AccessConfig) -> (r: Result<Address, ContractError>)
    ensures
        match r {
            Ok(a) => opt_view(c.factory) == Some(a@),
            Err(e) => c.factory is None && e == ContractError::FactoryNotFound,
        },
{
    read_entry(&c.factory, ContractError::FactoryNotFound)
}

/// Sets the factory contract.
pub fn write_factory(c: &mut AccessConfig, factory: &Address)
    ensures
        opt_view(final(c).factory) == Some(factory@),
        final(c).admin == old(c).admin,
        final(c).registry == old(c).registry,
        final(c).fee_manager == old(c).fee_manager,
        final(c).social_payments == old(c).social_payments,
        final(c).escrow == old(c).escrow,
{
    c.factory = Some(factory.copy());
}

/// The social payments contract, or `SocialPayNotFound`.
pub fn read_social_payments(c: &AccessConfig) -> (r: Result<Address, ContractError>)
    ensures
        match r {
            Ok(a) => opt_view(c.social_payments) == Some(a@),
            Err(e) => c.social_payments is None && e == ContractError::SocialPayNotFound,
        },
{
    read_entry(&c.social_payments, ContractError::SocialPayNotFound)
}

/// Sets the social payments contract.
pub fn write_social_payments(c: &mut AccessConfig, social_payment: &Address)
    ensures
        opt_view(final(c).social_payments) == Some(social_payment@),
        final(c).admin == old(c).admin,
        final(c).factory == old(c).factory,
        final(c).registry == old(c).registry,
        final(c).fee_manager == old(c).fee_manager,
        final(c).escrow == old(c).escrow,
{
    c.social_payments = Some(social_payment.copy());
}

/// The registry contract, or `RegistryNotFound`.
pub fn read_registry(c: &AccessConfig) -> (r: Result<Address, ContractError>)
    ensures
        match r {
            Ok(a) => opt_view(c.registry) == Some(a@),
            Err(e) => c.registry is None && e == ContractError::RegistryNotFound,
        },
{
    read_entry(&c.registry, ContractError::RegistryNotFound)
}

/// Sets the registry contract.
pub fn write_registry(c: &mut AccessConfig, registry: &Address)
    ensures
        opt_view(final(c).registry) == Some(registry@),
        final(c).admin == old(c).admin,
        final(c).factory == old(c).factory,
        final(c).fee_manager == old(c).fee_manager,
        final(c).social_payments == old(c).social_payments,
        final(c).escrow == old(c).escrow,
{
    c.registry = Some(registry.copy());
}

/// The fee manager contract, or `FeeManagerNotFound`.
pub fn read_fee_manager(c: &AccessConfig) -> (r: Result<Address, ContractError>)
    ensures
        match r {
            Ok(a) => opt_view(c.fee_manager) == Some(a@),
            Err(e) => c.fee_manager is None && e == ContractError::FeeManagerNotFound,
        },
{
    read_entry(&c.fee_manager, ContractError::FeeManagerNotFound)
}

/// Sets the fee manager contract.
pub fn write_fee_manager(c: &mut AccessConfig, fee_manager: &Address)
    ensures
        opt_view(final(c).fee_manager) == Some(fee_manager@),
        final(c).admin == old(c).admin,
        final(c).factory == old(c).factory,
        final(c).registry == old(c).registry,
        final(c).social_payments == old(c).social_payments,
        final(c).escrow == old(c).escrow,
{
    c.fee_manager = Some(fee_manager.copy());
}

/// The escrow contract, or `EscrowNotFound`.
pub fn read_escrow(c: &AccessConfig) -> (r: Result<Address, ContractError>)
    ensures
        match r {
            Ok(a) => opt_view(c.escrow) == Some(a@),
            Err(e) => c.escrow is None && e == ContractError::EscrowNotFound,
        },
{
    read_entry(&c.escrow, ContractError::EscrowNotFound)
}

/// Sets the escrow contract.
pub fn write_escrow(c: &mut AccessConfig, escrow: &Address)
    ensures
        opt_view(final(c).escrow) == Some(escrow@),
        final(c).admin == old(c).admin,
        final(c).factory == old(c).factory,
        final(c).registry == old(c).registry,
        final(c).fee_manager == old(c).fee_manager,
        final(c).social_payments == old(c).social_payments,
{
    c.escrow = Some(escrow.copy());
}

} // verus!
