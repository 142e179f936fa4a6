//! Pending payments and their indexes by identity and by sender.
use vstd::prelude::*;
use vstd::string::StringSliceAdditionalSpecFns;
use crate::access::AccessConfig;
use crate::address::{Address, AddressKind, address_key};
use crate::bytes::copy_bytes;
use crate::errors::ContractError;
use crate::host::{sha256, sha256_digest};
use crate::keymap::ByteMap;
use crate::keyset::views;
use crate::tokens::Transfer;
use crate::types::{ascii, lemma_literal_bytes};
use crate::utils::{userid_key_result, userid_payment_key};
use crate::xdr::{
    address_field, i128_field, lemma_address_field_split, lemma_i128_field_split, lemma_string_field_split,
    lemma_u64_field_injective, string_field, u64_field, push_xdr_address, push_xdr_i128, push_xdr_string, push_xdr_u64, xdr_address, xdr_i128, xdr_string, xdr_u64};
use super::data::{PaymentStatus, PaymentView, PendingPayment};

verus! {

/// `"social_payment"`, the domain of payment ids.
pub open spec fn payment_domain() -> Seq<char> {
    seq!['s', 'o', 'c', 'i', 'a', 'l', '_', 'p', 'a', 'y', 'm', 'e', 'n', 't']
}

/// The bytes hashed into a payment id: the XDR of the domain, sender, asset,
/// amount, platform, user id and nonce.
pub open spec fn payment_id_preimage(
    sender: (AddressKind, Seq<u8>),
    asset: (AddressKind, Seq<u8>),
    amount: i128,
    platform: Seq<u8>,
    user_id: Seq<u8>,
    nonce: u64,
) -> Seq<u8> {
    xdr_string(ascii(payment_domain())) + xdr_address(sender) + xdr_address(asset) + xdr_i128(amount)
        + xdr_string(platform) + xdr_string(user_id) + xdr_u64(nonce)
}

/// Payment ids are drawn from distinct preimages: two payments that differ
/// only in their nonce hash different bytes.
pub proof fn lemma_preimage_nonce_injective(
    sender: (AddressKind, Seq<u8>),
    asset: (AddressKind, Seq<u8>),
    amount: i128,
    platform: Seq<u8>,
    user_id: Seq<u8>,
    n1: u64,
    n2: u64,
)
    requires
        n1 != n2,
    ensures
        payment_id_preimage(sender, asset, amount, platform, user_id, n1)
            != payment_id_preimage(sender, asset, amount, platform, user_id, n2),
{
    let head = xdr_string(ascii(payment_domain())) + xdr_address(sender) + xdr_address(asset) + xdr_i128(amount)
        + xdr_string(platform) + xdr_string(user_id);
    if head + xdr_u64(n1) == head + xdr_u64(n2) {
        crate::bytes::lemma_prefix_cancel(head, xdr_u64(n1), xdr_u64(n2));
        crate::xdr::lemma_xdr_u64_injective(n1, n2);
    }
}

/// Payment ids are drawn from unambiguous preimages: two payments with the
/// same preimage agree on sender, asset, amount, platform, user id and
/// nonce (for 32-byte address identifiers and strings shorter than 2^32
/// bytes).
pub proof fn lemma_preimage_injective(
    s1: (AddressKind, Seq<u8>),
    a1: (AddressKind, Seq<u8>),
    x1: i128,
    p1: Seq<u8>,
    u1: Seq<u8>,
    n1: u64,
    s2: (AddressKind, Seq<u8>),
    a2: (AddressKind, Seq<u8>),
    x2: i128,
    p2: Seq<u8>,
    u2: Seq<u8>,
    n2: u64,
)
    requires
        s1.1.len() == 32 && s2.1.len() == 32,
        a1.1.len() == 32 && a2.1.len() == 32,
        p1.len() <= u32::MAX && p2.len() <= u32::MAX,
        u1.len() <= u32::MAX && u2.len() <= u32::MAX,
        payment_id_preimage(s1, a1, x1, p1, u1, n1) == payment_id_preimage(s2, a2, x2, p2, u2, n2),
    ensures
        s1 == s2 && a1 == a2 && x1 == x2 && p1 == p2 && u1 == u2 && n1 == n2,
{
    lemma_preimage_fields(s1, a1, x1, p1, u1, n1);
    lemma_preimage_fields(s2, a2, x2, p2, u2, n2);
    let d = string_field(ascii(payment_domain()));
    let t5_1 = string_field(u1) + u64_field(n1);
    let t5_2 = string_field(u2) + u64_field(n2);
    let t4_1 = string_field(p1) + t5_1;
    let t4_2 = string_field(p2) + t5_2;
    let t3_1 = i128_field(x1) + t4_1;
    let t3_2 = i128_field(x2) + t4_2;
    let t2_1 = address_field(a1) + t3_1;
    let t2_2 = address_field(a2) + t3_2;
    crate::bytes::lemma_prefix_cancel(d, address_field(s1) + t2_1, address_field(s2) + t2_2);
    lemma_address_field_split(s1, s2, t2_1, t2_2);
    lemma_address_field_split(a1, a2, t3_1, t3_2);
    lemma_i128_field_split(x1, x2, t4_1, t4_2);
    lemma_string_field_split(p1, p2, t5_1, t5_2);
    lemma_string_field_split(u1, u2, u64_field(n1), u64_field(n2));
    lemma_u64_field_injective(n1, n2);
}

/// A payment id preimage as its fields, grouped from the right.
proof fn lemma_preimage_fields(
    s: (AddressKind, Seq<u8>),
    a: (AddressKind, Seq<u8>),
    x: i128,
    p: Seq<u8>,
    u: Seq<u8>,
    n: u64,
)
    ensures
        payment_id_preimage(s, a, x, p, u, n) == string_field(ascii(payment_domain())) + (address_field(s) + (
            address_field(a) + (i128_field(x) + (string_field(p) + (string_field(u) + u64_field(n)))))),
{
    reveal(address_field);
    reveal(string_field);
    reveal(i128_field);
    reveal(u64_field);
    lemma_reassociate(
        xdr_string(ascii(payment_domain())),
        xdr_address(s),
        xdr_address(a),
        xdr_i128(x),
        xdr_string(p),
        xdr_string(u),
        xdr_u64(n),
    );
}

/// Concatenation of seven parts, regrouped from the right.
proof fn lemma_reassociate(a: Seq<u8>, b: Seq<u8>, c: Seq<u8>, d: Seq<u8>, e: Seq<u8>, f: Seq<u8>, g: Seq<u8>)
    ensures
        a + b + c + d + e + f + g == a + (b + (c + (d + (e + (f + g))))),
{
    assert(a + b + c + d + e + f + g =~= a + (b + (c + (d + (e + (f + g))))));
}

/// The contents of a map of payments.
pub open spec fn payments_view(m: Map<Seq<u8>, PendingPayment>) -> Map<Seq<u8>, PaymentView> {
    m.map_values(|p: PendingPayment| p@)
}

/// The contents of a map of payment-id lists.
pub open spec fn id_lists_view(m: Map<Seq<u8>, Vec<Vec<u8>>>) -> Map<Seq<u8>, Seq<Seq<u8>>> {
    m.map_values(|v: Vec<Vec<u8>>| views(v@))
}

/// The list stored under `k`, empty when none is.
pub open spec fn list_or_empty(m: Map<Seq<u8>, Seq<Seq<u8>>>, k: Seq<u8>) -> Seq<Seq<u8>> {
    if m.contains_key(k) {
        m[k]
    } else {
        Seq::empty()
    }
}

/// A payment after `claimer` has claimed it.
pub open spec fn claimed(p: PaymentView, claimer: (AddressKind, Seq<u8>)) -> PaymentView {
    PaymentView { status: PaymentStatus::Claimed, claimed_by: Some(claimer), ..p }
}

/// A payment after it has been refunded.
pub open spec fn refunded(p: PaymentView) -> PaymentView {
    PaymentView { status: PaymentStatus::Refunded, ..p }
}

/// Why payment `id` may not be claimed at time `now` whoever claims it,
/// given whether a registry is configured; `None` when it may be.
pub open spec fn claim_precheck(
    pays: Map<Seq<u8>, PaymentView>,
    has_registry: bool,
    id: Seq<u8>,
    now: u64,
) -> Option<ContractError> {
    if !pays.contains_key(id) {
        Some(ContractError::PaymentNotFound)
    } else if pays[id].status != PaymentStatus::Pending {
        Some(ContractError::PaymentNotClaimable)
    } else if now >= pays[id].expires_at {
        Some(ContractError::PaymentExpired)
    } else if !has_registry {
        Some(ContractError::RegistryNotFound)
    } else {
        None
    }
}

/// Why `claimer` may not claim payment `id` at time `now`, `resolved` being
/// the wallet the registry binds the payment's identity to; `None` when the
/// claim succeeds.
pub open spec fn claim_error(
    pays: Map<Seq<u8>, PaymentView>,
    has_registry: bool,
    claimer: (AddressKind, Seq<u8>),
    id: Seq<u8>,
    now: u64,
    resolved: Option<(AddressKind, Seq<u8>)>,
) -> Option<ContractError> {
    match claim_precheck(pays, has_registry, id, now) {
        Some(e) => Some(e),
        None => if resolved != Some(claimer) {
            Some(ContractError::UnauthorizedClaim)
        } else {
            None
        },
    }
}

/// Why `sender` may not take payment `id` back at time `now`; `None` when
/// the refund succeeds.
pub open spec fn refund_error(
    pays: Map<Seq<u8>, PaymentView>,
    sender: (AddressKind, Seq<u8>),
    id: Seq<u8>,
    now: u64,
) -> Option<ContractError> {
    if !pays.contains_key(id) {
        Some(ContractError::PaymentNotFound)
    } else if pays[id].status != PaymentStatus::Pending {
        Some(ContractError::PaymentNotRefundable)
    } else if pays[id].sender != sender {
        Some(ContractError::NotPaymentSender)
    } else if now < pays[id].expires_at {
        Some(ContractError::PaymentNotExpired)
    } else {
        None
    }
}

/// No double claim: once a payment is claimed, every later claim of it is
/// refused as not claimable and every refund of it as not refundable,
/// whoever asks and whenever.
pub proof fn lemma_no_double_claim(
    pays: Map<Seq<u8>, PaymentView>,
    has_registry: bool,
    claimer: (AddressKind, Seq<u8>),
    id: Seq<u8>,
    now: u64,
    resolved: Option<(AddressKind, Seq<u8>)>,
    later_registry: bool,
    later_claimer: (AddressKind, Seq<u8>),
    later: u64,
    later_resolved: Option<(AddressKind, Seq<u8>)>,
    sender: (AddressKind, Seq<u8>),
)
    requires
        claim_error(pays, has_registry, claimer, id, now, resolved) is None,
    ensures
        ({
            let after = pays.insert(id, claimed(pays[id], claimer));
            &&& claim_error(after, later_registry, later_claimer, id, later, later_resolved)
                == Some(ContractError::PaymentNotClaimable)
            &&& refund_error(after, sender, id, later) == Some(ContractError::PaymentNotRefundable)
        }),
{
}

/// No claim after a refund: once a payment is refunded, every later claim
/// of it is refused as not claimable and every refund as not refundable.
pub proof fn lemma_no_claim_after_refund(
    pays: Map<Seq<u8>, PaymentView>,
    sender: (AddressKind, Seq<u8>),
    id: Seq<u8>,
    now: u64,
    later_registry: bool,
    later_claimer: (AddressKind, Seq<u8>),
    later: u64,
    later_resolved: Option<(AddressKind, Seq<u8>)>,
    later_sender: (AddressKind, Seq<u8>),
)
    requires
        refund_error(pays, sender, id, now) is None,
    ensures
        ({
            let after = pays.insert(id, refunded(pays[id]));
            &&& claim_error(after, later_registry, later_claimer, id, later, later_resolved)
                == Some(ContractError::PaymentNotClaimable)
            &&& refund_error(after, later_sender, id, later) == Some(ContractError::PaymentNotRefundable)
        }),
{
}

/// A payment that may be claimed at some moment may not be refunded at that
/// moment, by anyone: claims close at expiry, refunds open there.
pub proof fn lemma_claim_refund_exclusive(
    pays: Map<Seq<u8>, PaymentView>,
    has_registry: bool,
    claimer: (AddressKind, Seq<u8>),
    id: Seq<u8>,
    now: u64,
    resolved: Option<(AddressKind, Seq<u8>)>,
    sender: (AddressKind, Seq<u8>),
)
    requires
        claim_error(pays, has_registry, claimer, id, now, resolved) is None,
    ensures
        refund_error(pays, sender, id, now) is Some,
{
}

/// Stored payments and their indexes.
pub struct PaymentBook {
    /// Payment id -> payment.
    pub payments: ByteMap<PendingPayment>,
    /// Identity hash -> ids of the payments made to the identity, oldest first.
    pub identity_payments: ByteMap<Vec<Vec<u8>>>,
    /// Sender address key -> ids of the payments made by the sender, oldest first.
    pub sender_payments: ByteMap<Vec<Vec<u8>>>,
}

/// A copy of a list of payment ids.
pub fn copy_id_list(v: &Vec<Vec<u8>>) -> (r: Vec<Vec<u8>>)
    ensures
        views(r@) == views(v@),
{
    let mut out: Vec<Vec<u8>> = Vec::new();
    let mut i: usize = 0;
    while i < v.len()
        invariant
            i <= v@.len(),
            out@.len() == i,
            forall|j: int| 0 <= j < i ==> (#[trigger] out@[j])@ == v@[j]@,
        decreases v@.len() - i,
    {
        out.push(copy_bytes(v[i].as_slice()));
        i = i + 1;
    }
    assert(views(out@) =~= views(v@));
    out
}

impl PaymentBook {
    /// Well-formedness.
    pub open spec fn wf(&self) -> bool {
        &&& self.payments.wf()
        &&& self.identity_payments.wf()
        &&& self.sender_payments.wf()
    }

    /// Payment id -> payment contents.
    pub open spec fn pays(&self) -> Map<Seq<u8>, PaymentView> {
        payments_view(self.payments.view())
    }

    /// Identity hash -> payment ids.
    pub open spec fn by_identity(&self) -> Map<Seq<u8>, Seq<Seq<u8>>> {
        id_lists_view(self.identity_payments.view())
    }

    /// Sender key -> payment ids.
    pub open spec fn by_sender(&self) -> Map<Seq<u8>, Seq<Seq<u8>>> {
        id_lists_view(self.sender_payments.view())
    }

    /// No payments.
    pub fn new() -> (b: Self)
        ensures
            b.wf(),
            b.pays() == Map::<Seq<u8>, PaymentView>::empty(),
            b.by_identity() == Map::<Seq<u8>, Seq<Seq<u8>>>::empty(),
            b.by_sender() == Map::<Seq<u8>, Seq<Seq<u8>>>::empty(),
    {
        let b = PaymentBook {
            payments: ByteMap::new(),
            identity_payments: ByteMap::new(),
            sender_payments: ByteMap::new(),
        };
        assert(b.pays() =~= Map::<Seq<u8>, PaymentView>::empty());
        assert(b.by_identity() =~= Map::<Seq<u8>, Seq<Seq<u8>>>::empty());
        assert(b.by_sender() =~= Map::<Seq<u8>, Seq<Seq<u8>>>::empty());
        b
    }
}

/// The deterministic id of a payment.
pub fn generate_payment_id(
    e: &soroban_sdk::Env,
    sender: &Address,
    asset: &Address,
    amount: i128,
    platform: &[u8],
    user_id: &[u8],
    nonce: u64,
) -> (r: Vec<u8>)
    requires
        platform@.len() <= u32::MAX,
        user_id@.len() <= u32::MAX,
    ensures
        r@ == sha256_digest(payment_id_preimage(sender@, asset@, amount, platform@, user_id@, nonce)),
        r@.len() == 32,
{
    let dom = "social_payment";
    proof {
        reveal_strlit("social_payment");
        assert(dom@ =~= payment_domain());
        lemma_literal_bytes(dom, payment_domain());
    }
    let mut data: Vec<u8> = Vec::new();
    push_xdr_string(&mut data, dom.as_bytes());
    push_xdr_address(&mut data, sender);
    push_xdr_address(&mut data, asset);
    push_xdr_i128(&mut data, amount);
    push_xdr_string(&mut data, platform);
    push_xdr_string(&mut data, user_id);
    push_xdr_u64(&mut data, nonce);
    assert(data@ =~= payment_id_preimage(sender@, asset@, amount, platform@, user_id@, nonce));
    sha256(e, data.as_slice())
}

/// Stores `payment` under `payment_id`.
pub fn write_payment(b: &mut PaymentBook, payment_id: &[u8], payment: &PendingPayment) -> (r: Result<(), ContractError>)
    requires
        old(b).wf(),
    ensures
        final(b).wf(),
        r is Ok,
        final(b).pays() == old(b).pays().insert(payment_id@, payment@),
        final(b).identity_payments == old(b).identity_payments,
        final(b).sender_payments == old(b).sender_payments,
{
    let ghost pre = b.payments.view();
    let p = payment.copy();
    b.payments.set(payment_id, p);
    assert(payments_view(b.payments.view()) =~= payments_view(pre).insert(payment_id@, payment@));
    Ok(())
}

/// The payment stored under `payment_id`, or `PaymentNotFound`.
pub fn read_payment(b: &PaymentBook, payment_id: &[u8]) -> (r: Result<PendingPayment, ContractError>)
    requires
        b.wf(),
    ensures
        match r {
            Ok(p) => b.pays().contains_key(payment_id@) && p@ == b.pays()[payment_id@],
            Err(e) => !b.pays().contains_key(payment_id@) && e == ContractError::PaymentNotFound,
        },
{
    match b.payments.get(payment_id) {
        Some(p) => Ok(p.copy()),
        None => Err(ContractError::PaymentNotFound),
    }
}

/// Appends `payment_id` to the list stored under `key`.
fn append_to_list(m: &mut ByteMap<Vec<Vec<u8>>>, key: &[u8], payment_id: &[u8])
    requires
        old(m).wf(),
    ensures
        final(m).wf(),
        id_lists_view(final(m).view()) == id_lists_view(old(m).view()).insert(
            key@,
            list_or_empty(id_lists_view(old(m).view()), key@).push(payment_id@),
        ),
{
    let ghost pre = m.view();
    let mut ids = match m.get(key) {
        Some(v) => copy_id_list(v),
        None => Vec::new(),
    };
    assert(views(ids@) == list_or_empty(id_lists_view(pre), key@));
    ids.push(copy_bytes(payment_id));
    assert(views(ids@) =~= list_or_empty(id_lists_view(pre), key@).push(payment_id@));
    m.set(key, ids);
    assert(id_lists_view(m.view()) =~= id_lists_view(pre).insert(
        key@,
        list_or_empty(id_lists_view(pre), key@).push(payment_id@),
    ));
}

/// Records `payment_id` among the payments to `(platform, user_id)`; fails,
/// changing nothing, where the platform or user id is not accepted.
pub fn append_identity_payment(
    b: &mut PaymentBook,
    e: &soroban_sdk::Env,
    platform: &[u8],
    user_id: &[u8],
    payment_id: &[u8],
) -> (r: Result<(), ContractError>)
    requires
        old(b).wf(),
    ensures
        final(b).wf(),
        match userid_key_result(platform@, user_id@) {
            Err(err) => r == Err::<(), ContractError>(err) && *final(b) == *old(b),
            Ok(k) => r is Ok && final(b).by_identity() == old(b).by_identity().insert(
                k,
                list_or_empty(old(b).by_identity(), k).push(payment_id@),
            ) && final(b).payments == old(b).payments && final(b).sender_payments == old(
                b,
            ).sender_payments,
        },
{
    let id_key = match userid_payment_key(e, platform, user_id) {
        Ok(k) => k,
        Err(err) => return Err(err),
    };
    append_to_list(&mut b.identity_payments, id_key.as_slice(), payment_id);
    Ok(())
}

/// Records `payment_id` among the payments made by `from`.
pub fn append_sender_payment(b: &mut PaymentBook, from: &Address, payment_id: &[u8]) -> (r: Result<(), ContractError>)
    requires
        old(b).wf(),
    ensures
        final(b).wf(),
        r is Ok,
        final(b).by_sender() == old(b).by_sender().insert(
            address_key(from@),
            list_or_empty(old(b).by_sender(), address_key(from@)).push(payment_id@),
        ),
        final(b).payments == old(b).payments,
        final(b).identity_payments == old(b).identity_payments,
{
    let k = from.key();
    append_to_list(&mut b.sender_payments, k.as_slice(), payment_id);
    Ok(())
}

/// What to look up before `payment_id` can be claimed at time `now`: the
/// registry and the payment's `(platform, user_id)`. Fails as the claim
/// would before that lookup.
pub fn claim_lookup(b: &PaymentBook, cfg: &AccessConfig, payment_id: &[u8], now: u64) -> (r: Result<(Address, Vec<u8>, Vec<u8>), ContractError>)
    requires
        b.wf(),
    ensures
        match r {
            Ok((reg, platform, user_id)) => claim_precheck(b.pays(), true, payment_id@, now) is None
                && crate::access::opt_view(cfg.registry) == Some(reg@) && platform@ == b.pays()[payment_id@].platform
                && user_id@ == b.pays()[payment_id@].user_id,
            Err(e) => claim_precheck(b.pays(), cfg.registry is Some, payment_id@, now) == Some(e),
        },
{
    let payment = match read_payment(b, payment_id) {
        Ok(p) => p,
        Err(err) => return Err(err),
    };
    if payment.status != PaymentStatus::Pending {
        return Err(ContractError::PaymentNotClaimable);
    }
    if now >= payment.expires_at {
        return Err(ContractError::PaymentExpired);
    }
    let reg = match crate::access::read_registry(cfg) {
        Ok(a) => a,
        Err(err) => return Err(err),
    };
    Ok((reg, payment.platform, payment.user_id))
}

/// Claims payment `payment_id` for `claimer` at time `now`, `resolved`
/// being the wallet the registry binds the payment's identity to. The
/// payment becomes claimed by `claimer`, who is then paid. A failure
/// changes nothing.
pub fn claim_one(
    b: &mut PaymentBook,
    cfg: &AccessConfig,
    claimer: &Address,
    payment_id: &[u8],
    now: u64,
    resolved: &Option<Address>,
) -> (r: Result<Transfer, ContractError>)
    requires
        old(b).wf(),
    ensures
        final(b).wf(),
        match claim_error(old(b).pays(), cfg.registry is Some, claimer@, payment_id@, now, crate::access::opt_view(*resolved)) {
            Some(e) => r matches Err(x) && x == e && *final(b) == *old(b),
            None => r matches Ok(t) && {
                let p = old(b).pays()[payment_id@];
                &&& final(b).pays() == old(b).pays().insert(payment_id@, claimed(p, claimer@))
                &&& t.to@ == claimer@ && t.asset@ == p.asset && t.amount == p.amount
                &&& final(b).identity_payments == old(b).identity_payments
                &&& final(b).sender_payments == old(b).sender_payments
            },
        },
{
    let mut payment = match read_payment(b, payment_id) {
        Ok(p) => p,
        Err(err) => return Err(err),
    };
    if payment.status != PaymentStatus::Pending {
        return Err(ContractError::PaymentNotClaimable);
    }
    if now >= payment.expires_at {
        return Err(ContractError::PaymentExpired);
    }
    match crate::access::read_registry(cfg) {
        Ok(_) => {},
        Err(err) => return Err(err),
    }
    let authorized = match resolved {
        Some(a) => a.same(claimer),
        None => false,
    };
    if !authorized {
        return Err(ContractError::UnauthorizedClaim);
    }
    payment.status = PaymentStatus::Claimed;
    payment.claimed_by = Some(claimer.copy());
    let _ = write_payment(b, payment_id, &payment);
    Ok(Transfer { asset: payment.asset.copy(), to: claimer.copy(), amount: payment.amount })
}

/// Refunds expired payment `payment_id` to its `sender` at time `now`. The
/// payment becomes refunded and the sender is paid back. A failure changes
/// nothing.
pub fn refund_one(b: &mut PaymentBook, sender: &Address, payment_id: &[u8], now: u64) -> (r: Result<Transfer, ContractError>)
    requires
        old(b).wf(),
    ensures
        final(b).wf(),
        match refund_error(old(b).pays(), sender@, payment_id@, now) {
            Some(e) => r matches Err(x) && x == e && *final(b) == *old(b),
            None => r matches Ok(t) && {
                let p = old(b).pays()[payment_id@];
                &&& final(b).pays() == old(b).pays().insert(payment_id@, refunded(p))
                &&& t.to@ == sender@ && t.asset@ == p.asset && t.amount == p.amount
                &&& final(b).identity_payments == old(b).identity_payments
                &&& final(b).sender_payments == old(b).sender_payments
            },
        },
{
    let mut payment = match read_payment(b, payment_id) {
        Ok(p) => p,
        Err(err) => return Err(err),
    };
    if payment.status != PaymentStatus::Pending {
        return Err(ContractError::PaymentNotRefundable);
    }
    if !payment.sender.same(sender) {
        return Err(ContractError::NotPaymentSender);
    }
    if now < payment.expires_at {
        return Err(ContractError::PaymentNotExpired);
    }
    payment.status = PaymentStatus::Refunded;
    let _ = write_payment(b, payment_id, &payment);
    Ok(Transfer { asset: payment.asset.copy(), to: sender.copy(), amount: payment.amount })
}

/// Ids of the payments made to `(platform, user_id)`, oldest first.
pub fn read_identity_payment_ids(
    b: &PaymentBook,
    e: &soroban_sdk::Env,
    platform: &[u8],
    user_id: &[u8],
) -> (r: Result<Vec<Vec<u8>>, ContractError>)
    requires
        b.wf(),
    ensures
        match userid_key_result(platform@, user_id@) {
            Err(err) => r == Err::<Vec<Vec<u8>>, ContractError>(err),
            Ok(k) => r matches Ok(ids) && views(ids@) == list_or_empty(b.by_identity(), k),
        },
{
    let id_key = match userid_payment_key(e, platform, user_id) {
        Ok(k) => k,
        Err(err) => return Err(err),
    };
    match b.identity_payments.get(id_key.as_slice()) {
        Some(v) => Ok(copy_id_list(v)),
        None => {
            let out: Vec<Vec<u8>> = Vec::new();
            assert(views(out@) =~= Seq::<Seq<u8>>::empty());
            Ok(out)
        },
    }
}

/// Ids of the payments made by `sender`, oldest first.
pub fn read_sender_payment_ids(b: &PaymentBook, sender: &Address) -> (r: Result<Vec<Vec<u8>>, ContractError>)
    requires
        b.wf(),
    ensures
        r matches Ok(ids) && views(ids@) == list_or_empty(b.by_sender(), address_key(sender@)),
{
    let k = sender.key();
    match b.sender_payments.get(k.as_slice()) {
        Some(v) => Ok(copy_id_list(v)),
        None => {
            let out: Vec<Vec<u8>> = Vec::new();
            assert(views(out@) =~= Seq::<Seq<u8>>::empty());
            Ok(out)
        },
    }
}


/// Scans a batch of refunds from the `i`-th id on: an id repeated from
/// earlier in the batch is no longer refundable; otherwise the first
/// refund that fails decides the error.
pub open spec fn refund_scan(
    pays: Map<Seq<u8>, PaymentView>,
    sender: (AddressKind, Seq<u8>),
    ids: Seq<Seq<u8>>,
    now: u64,
    i: nat,
) -> Option<ContractError>
    decreases ids.len() - i,
{
    if i >= ids.len() {
        None
    } else if ids.subrange(0, i as int).contains(ids[i as int]) {
        Some(ContractError::PaymentNotRefundable)
    } else {
        match refund_error(pays, sender, ids[i as int], now) {
            Some(e) => Some(e),
            None => refund_scan(pays, sender, ids, now, i + 1),
        }
    }
}

/// Scans a batch of claims from the `i`-th id on, `res[j]` being the wallet
/// the registry binds the identity of the `j`-th payment to.
pub open spec fn claim_scan(
    pays: Map<Seq<u8>, PaymentView>,
    has_registry: bool,
    claimer: (AddressKind, Seq<u8>),
    ids: Seq<Seq<u8>>,
    res: Seq<Option<(AddressKind, Seq<u8>)>>,
    now: u64,
    i: nat,
) -> Option<ContractError>
    decreases ids.len() - i,
{
    if i >= ids.len() {
        None
    } else if ids.subrange(0, i as int).contains(ids[i as int]) {
        Some(ContractError::PaymentNotClaimable)
    } else {
        match claim_error(pays, has_registry, claimer, ids[i as int], now, res[i as int]) {
            Some(e) => Some(e),
            None => claim_scan(pays, has_registry, claimer, ids, res, now, i + 1),
        }
    }
}

/// The payments after refunding every payment listed in `ids`.
pub open spec fn refund_all(pays: Map<Seq<u8>, PaymentView>, ids: Seq<Seq<u8>>) -> Map<Seq<u8>, PaymentView> {
    Map::new(|k: Seq<u8>| pays.contains_key(k), |k: Seq<u8>| if ids.contains(k) { refunded(pays[k]) } else { pays[k] })
}

/// The payments after `claimer` claimed every payment listed in `ids`.
pub open spec fn claim_all(
    pays: Map<Seq<u8>, PaymentView>,
    claimer: (AddressKind, Seq<u8>),
    ids: Seq<Seq<u8>>,
) -> Map<Seq<u8>, PaymentView> {
    Map::new(|k: Seq<u8>| pays.contains_key(k), |k: Seq<u8>| if ids.contains(k) { claimed(pays[k], claimer) } else { pays[k] })
}

/// The contents of a list of optional addresses.
pub open spec fn opt_views(v: Seq<Option<Address>>) -> Seq<Option<(AddressKind, Seq<u8>)>> {
    Seq::new(v.len(), |i: int| crate::access::opt_view(v[i]))
}

/// Refunds every payment of `ids` to `sender` at time `now`, all or none:
/// the first failure is returned and nothing changes.
pub fn refund_many(b: &mut PaymentBook, sender: &Address, ids: &Vec<Vec<u8>>, now: u64) -> (r: Result<Vec<Transfer>, ContractError>)
    requires
        old(b).wf(),
    ensures
        final(b).wf(),
        match refund_scan(old(b).pays(), sender@, views(ids@), now, 0) {
            Some(e) => r == Err::<Vec<Transfer>, ContractError>(e) && *final(b) == *old(b),
            None => r matches Ok(ts) && {
                &&& final(b).pays() == refund_all(old(b).pays(), views(ids@))
                &&& ts@.len() == ids@.len()
                &&& forall|j: int| 0 <= j < ts@.len() ==> (#[trigger] ts@[j]).to@ == sender@
                    && ts@[j].asset@ == old(b).pays()[ids@[j]@].asset && ts@[j].amount == old(b).pays()[ids@[j]@].amount
                &&& final(b).identity_payments == old(b).identity_payments
                &&& final(b).sender_payments == old(b).sender_payments
            },
        },
{
    let ghost vids = views(ids@);
    let ghost pays0 = b.pays();
    // First pass: every refund must succeed.
    let mut seen = crate::keyset::ByteSet::new();
    let mut i: usize = 0;
    while i < ids.len()
        invariant
            i <= ids@.len(),
            vids == views(ids@),
            pays0 == b.pays(),
            b.wf(),
            seen.wf(),
            seen.key_set() == vids.subrange(0, i as int).to_set(),
            refund_scan(pays0, sender@, vids, now, 0) == refund_scan(pays0, sender@, vids, now, i as nat),
            forall|j: int| 0 <= j < i ==> refund_error(pays0, sender@, #[trigger] vids[j], now) is None,
            forall|j: int, l: int| 0 <= j < l < i ==> vids[j] != vids[l],
        decreases ids@.len() - i,
    {
        let id = ids[i].as_slice();
        assert(id@ == vids[i as int]);
        proof {
            assert(vids.subrange(0, i as int).to_set().contains(vids[i as int]) == vids.subrange(0, i as int).contains(vids[i as int]));
        }
        if seen.contains(id) {
            return Err(ContractError::PaymentNotRefundable);
        }
        let payment = match read_payment(b, id) {
            Ok(p) => p,
            Err(err) => return Err(err),
        };
        if payment.status != PaymentStatus::Pending {
            return Err(ContractError::PaymentNotRefundable);
        }
        if !payment.sender.same(sender) {
            return Err(ContractError::NotPaymentSender);
        }
        if now < payment.expires_at {
            return Err(ContractError::PaymentNotExpired);
        }
        seen.insert(id);
        proof {
            crate::keyset::lemma_insert_to_set(vids.subrange(0, i as int), i as int, vids[i as int]);
            assert(vids.subrange(0, i as int).insert(i as int, vids[i as int]) =~= vids.subrange(0, i + 1));
            assert forall|j: int| 0 <= j < i implies vids[j] != vids[i as int] by {
                assert(vids.subrange(0, i as int)[j] == vids[j]);
            }
        }
        i = i + 1;
    }
    // Second pass: apply them.
    let mut ts: Vec<Transfer> = Vec::new();
    let mut i: usize = 0;
    while i < ids.len()
        invariant
            i <= ids@.len(),
            vids == views(ids@),
            b.wf(),
            forall|j: int| 0 <= j < ids@.len() ==> refund_error(pays0, sender@, #[trigger] vids[j], now) is None,
            forall|j: int, l: int| 0 <= j < l < ids@.len() ==> vids[j] != vids[l],
            b.pays() == refund_all(pays0, vids.subrange(0, i as int)),
            b.identity_payments == old(b).identity_payments,
            b.sender_payments == old(b).sender_payments,
            pays0 == old(b).pays(),
            ts@.len() == i,
            forall|j: int| 0 <= j < i ==> (#[trigger] ts@[j]).to@ == sender@
                && ts@[j].asset@ == pays0[ids@[j]@].asset && ts@[j].amount == pays0[ids@[j]@].amount,
        decreases ids@.len() - i,
    {
        let id = ids[i].as_slice();
        assert(id@ == vids[i as int]);
        let ghost cur = b.pays();
        proof {
            assert(!vids.subrange(0, i as int).contains(vids[i as int])) by {
                if vids.subrange(0, i as int).contains(vids[i as int]) {
                    let j = choose|j: int| 0 <= j < i && vids.subrange(0, i as int)[j] == vids[i as int];
                    assert(vids[j] == vids[i as int]);
                }
            }
            assert(cur.contains_key(vids[i as int]) && cur[vids[i as int]] == pays0[vids[i as int]]);
            assert(refund_error(cur, sender@, vids[i as int], now) is None);
        }
        let t = match refund_one(b, sender, id, now) {
            Ok(t) => t,
            Err(err) => return Err(err),
        };
        ts.push(t);
        proof {
            assert(b.pays() =~= refund_all(pays0, vids.subrange(0, i + 1))) by {
                let s0 = vids.subrange(0, i as int);
                let s1 = vids.subrange(0, i + 1);
                assert forall|k: Seq<u8>| (#[trigger] s1.contains(k)) == (s0.contains(k) || k == vids[i as int]) by {
                    if s1.contains(k) {
                        let j = choose|j: int| 0 <= j < i + 1 && #[trigger] s1[j] == k;
                        if j < i {
                            assert(s0[j] == k);
                        }
                    }
                    if s0.contains(k) {
                        let j = choose|j: int| 0 <= j < i && #[trigger] s0[j] == k;
                        assert(s1[j] == k);
                    }
                    if k == vids[i as int] {
                        assert(s1[i as int] == k);
                    }
                }
            }
        }
        i = i + 1;
    }
    assert(vids.subrange(0, i as int) =~= vids);
    Ok(ts)
}

/// Claims every payment of `ids` for `claimer` at time `now`, all or none,
/// `resolved[j]` being the wallet the registry binds the identity of the
/// `j`-th payment to: the first failure is returned and nothing changes.
pub fn claim_many(
    b: &mut PaymentBook,
    cfg: &AccessConfig,
    claimer: &Address,
    ids: &Vec<Vec<u8>>,
    resolved: &Vec<Option<Address>>,
    now: u64,
) -> (r: Result<Vec<Transfer>, ContractError>)
    requires
        old(b).wf(),
        resolved@.len() == ids@.len(),
    ensures
        final(b).wf(),
        match claim_scan(old(b).pays(), cfg.registry is Some, claimer@, views(ids@), opt_views(resolved@), now, 0) {
            Some(e) => r == Err::<Vec<Transfer>, ContractError>(e) && *final(b) == *old(b),
            None => r matches Ok(ts) && {
                &&& final(b).pays() == claim_all(old(b).pays(), claimer@, views(ids@))
                &&& ts@.len() == ids@.len()
                &&& forall|j: int| 0 <= j < ts@.len() ==> (#[trigger] ts@[j]).to@ == claimer@
                    && ts@[j].asset@ == old(b).pays()[ids@[j]@].asset && ts@[j].amount == old(b).pays()[ids@[j]@].amount
                &&& final(b).identity_payments == old(b).identity_payments
                &&& final(b).sender_payments == old(b).sender_payments
            },
        },
{
    let ghost vids = views(ids@);
    let ghost res = opt_views(resolved@);
    let ghost reg = cfg.registry is Some;
    let ghost pays0 = b.pays();
    // First pass: every claim must succeed.
    let mut seen = crate::keyset::ByteSet::new();
    let mut i: usize = 0;
    while i < ids.len()
        invariant
            i <= ids@.len(),
            vids == views(ids@),
            pays0 == b.pays(),
            b.wf(),
            seen.wf(),
            seen.key_set() == vids.subrange(0, i as int).to_set(),
            res == opt_views(resolved@),
            reg == (cfg.registry is Some),
            resolved@.len() == ids@.len(),
            claim_scan(pays0, reg, claimer@, vids, res, now, 0) == claim_scan(pays0, reg, claimer@, vids, res, now, i as nat),
            forall|j: int| 0 <= j < i ==> claim_error(pays0, reg, claimer@, #[trigger] vids[j], now, res[j]) is None,
            forall|j: int, l: int| 0 <= j < l < i ==> vids[j] != vids[l],
        decreases ids@.len() - i,
    {
        let id = ids[i].as_slice();
        assert(id@ == vids[i as int]);
        proof {
            assert(vids.subrange(0, i as int).to_set().contains(vids[i as int]) == vids.subrange(0, i as int).contains(vids[i as int]));
        }
        if seen.contains(id) {
            return Err(ContractError::PaymentNotClaimable);
        }
        let payment = match read_payment(b, id) {
            Ok(p) => p,
            Err(err) => return Err(err),
        };
        if payment.status != PaymentStatus::Pending {
            return Err(ContractError::PaymentNotClaimable);
        }
        if now >= payment.expires_at {
            return Err(ContractError::PaymentExpired);
        }
        match crate::access::read_registry(cfg) {
            Ok(_) => {},
            Err(err) => return Err(err),
        }
        let authorized = match &resolved[i] {
            Some(a) => a.same(claimer),
            None => false,
        };
        if !authorized {
            return Err(ContractError::UnauthorizedClaim);
        }
        seen.insert(id);
        proof {
            crate::keyset::lemma_insert_to_set(vids.subrange(0, i as int), i as int, vids[i as int]);
            assert(vids.subrange(0, i as int).insert(i as int, vids[i as int]) =~= vids.subrange(0, i + 1));
            assert forall|j: int| 0 <= j < i implies vids[j] != vids[i as int] by {
                assert(vids.subrange(0, i as int)[j] == vids[j]);
            }
        }
        i = i + 1;
    }
    // Second pass: apply them.
    let mut ts: Vec<Transfer> = Vec::new();
    let mut i: usize = 0;
    while i < ids.len()
        invariant
            i <= ids@.len(),
            vids == views(ids@),
            b.wf(),
            res == opt_views(resolved@),
            reg == (cfg.registry is Some),
            resolved@.len() == ids@.len(),
            forall|j: int| 0 <= j < ids@.len() ==> claim_error(pays0, reg, claimer@, #[trigger] vids[j], now, res[j]) is None,
            forall|j: int, l: int| 0 <= j < l < ids@.len() ==> vids[j] != vids[l],
            b.pays() == claim_all(pays0, claimer@, vids.subrange(0, i as int)),
            b.identity_payments == old(b).identity_payments,
            b.sender_payments == old(b).sender_payments,
            pays0 == old(b).pays(),
            ts@.len() == i,
            forall|j: int| 0 <= j < i ==> (#[trigger] ts@[j]).to@ == claimer@
                && ts@[j].asset@ == pays0[ids@[j]@].asset && ts@[j].amount == pays0[ids@[j]@].amount,
        decreases ids@.len() - i,
    {
        let id = ids[i].as_slice();
        assert(id@ == vids[i as int]);
        let ghost cur = b.pays();
        proof {
            assert(!vids.subrange(0, i as int).contains(vids[i as int])) by {
                if vids.subrange(0, i as int).contains(vids[i as int]) {
                    let j = choose|j: int| 0 <= j < i && vids.subrange(0, i as int)[j] == vids[i as int];
                    assert(vids[j] == vids[i as int]);
                }
            }
            assert(cur.contains_key(vids[i as int]) && cur[vids[i as int]] == pays0[vids[i as int]]);
            assert(claim_error(cur, reg, claimer@, vids[i as int], now, res[i as int]) is None);
        }
        let t = match claim_one(b, cfg, claimer, id, now, &resolved[i]) {
            Ok(t) => t,
            Err(err) => return Err(err),
        };
        ts.push(t);
        proof {
            assert(b.pays() =~= claim_all(pays0, claimer@, vids.subrange(0, i + 1))) by {
                let s0 = vids.subrange(0, i as int);
                let s1 = vids.subrange(0, i + 1);
                assert forall|k: Seq<u8>| (#[trigger] s1.contains(k)) == (s0.contains(k) || k == vids[i as int]) by {
                    if s1.contains(k) {
                        let j = choose|j: int| 0 <= j < i + 1 && #[trigger] s1[j] == k;
                        if j < i {
                            assert(s0[j] == k);
                        }
                    }
                    if s0.contains(k) {
                        let j = choose|j: int| 0 <= j < i && #[trigger] s0[j] == k;
                        assert(s1[j] == k);
                    }
                    if k == vids[i as int] {
                        assert(s1[i as int] == k);
                    }
                }
            }
        }
        i = i + 1;
    }
    assert(vids.subrange(0, i as int) =~= vids);
    Ok(ts)
}

} // verus!
