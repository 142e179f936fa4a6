//! Contract and account addresses as plain values.
use vstd::prelude::*;
use crate::bytes::{bytes_eq, copy_bytes};
use crate::keyset::ByteSet;

verus! {

/// What an address identifies: an account key or a contract.
#[derive(Clone, Copy, Debug, PartialEq, Eq, Structural)]
pub enum AddressKind {
    Account,
    Contract,
}

/// An address: its kind and its 32-byte identifier (account public key or
/// contract id).
#[derive(Clone, Debug)]
pub struct Address {
    pub kind: AddressKind,
    pub id: Vec<u8>,
}

/// Tag byte of an address kind, in the order in which the ledger sorts
/// address kinds.
pub open spec fn kind_tag(k: AddressKind) -> u8 {
    match k {
        AddressKind::Account => 0,
        AddressKind::Contract => 1,
    }
}

/// The byte key under which an address is stored in ordered sets and maps:
/// its kind tag, then its identifier.
pub open spec fn address_key(a: (AddressKind, Seq<u8>)) -> Seq<u8> {
    seq![kind_tag(a.0)] + a.1
}

/// The address a byte key stands for.
pub open spec fn address_of_key(k: Seq<u8>) -> (AddressKind, Seq<u8>) {
    (if k[0] == 0 { AddressKind::Account } else { AddressKind::Contract }, k.drop_first())
}

/// Keys of addresses start with a valid tag.
pub open spec fn is_address_key(k: Seq<u8>) -> bool {
    k.len() >= 1 && k[0] <= 1
}

/// Encoding the address a valid key stands for gives the key back.
pub proof fn lemma_key_address_roundtrip(k: Seq<u8>)
    requires
        is_address_key(k),
    ensures
        address_key(address_of_key(k)) == k,
{
    assert(address_key(address_of_key(k)) =~= k);
}

/// The key of an account address starts with byte 0 and that of a
/// contract address with byte 1, so the ledger lists accounts first.
pub proof fn lemma_address_key_tag(id: Seq<u8>)
    ensures
        address_key((AddressKind::Account, id))[0] == 0u8,
        address_key((AddressKind::Contract, id))[0] == 1u8,
        address_key((AddressKind::Account, id)).drop_first() == id,
        address_key((AddressKind::Contract, id)).drop_first() == id,
{
    assert(address_key((AddressKind::Account, id)).drop_first() =~= id);
    assert(address_key((AddressKind::Contract, id)).drop_first() =~= id);
}

/// Comparing from position 1 on is comparing the tails.
proof fn lemma_lex_from_shift(a: Seq<u8>, b: Seq<u8>, k: nat)
    requires
        1 <= k,
        a.len() >= 1,
        b.len() >= 1,
    ensures
        crate::bytes::lex_lt_from(a, b, k) == crate::bytes::lex_lt_from(a.drop_first(), b.drop_first(), (k - 1) as nat),
    decreases a.len() - k,
{
    let da = a.drop_first();
    let db = b.drop_first();
    if k < a.len() && k < b.len() {
        assert(da[k - 1] == a[k as int]);
        assert(db[k - 1] == b[k as int]);
        if a[k as int] == b[k as int] {
            lemma_lex_from_shift(a, b, k + 1);
        }
    }
}

/// Decoding a key gives back the address.
pub proof fn lemma_address_key_roundtrip(a: (AddressKind, Seq<u8>))
    ensures
        is_address_key(address_key(a)),
        address_of_key(address_key(a)) == a,
{
    assert(address_key(a).drop_first() =~= a.1);
}

/// Distinct addresses have distinct keys.
pub proof fn lemma_address_key_injective(a: (AddressKind, Seq<u8>), b: (AddressKind, Seq<u8>))
    ensures
        (address_key(a) == address_key(b)) == (a == b),
{
    lemma_address_key_roundtrip(a);
    lemma_address_key_roundtrip(b);
}

impl View for Address {
    type V = (AddressKind, Seq<u8>);

    open spec fn view(&self) -> (AddressKind, Seq<u8>) {
        (self.kind, self.id@)
    }
}

impl Address {
    /// A copy of this address.
    pub fn copy(&self) -> (r: Address)
        ensures
            r@ == self@,
    {
        Address { kind: self.kind, id: copy_bytes(self.id.as_slice()) }
    }

    /// Whether two addresses are the same.
    pub fn same(&self, other: &Address) -> (r: bool)
        ensures
            r == (self@ == other@),
    {
        self.kind == other.kind && bytes_eq(self.id.as_slice(), other.id.as_slice())
    }

    /// The byte key of this address.
    pub fn key(&self) -> (r: Vec<u8>)
        ensures
            r@ == address_key(self@),
    {
        let mut r: Vec<u8> = Vec::new();
        let tag: u8 = match self.kind {
            AddressKind::Account => 0,
            AddressKind::Contract => 1,
        };
        r.push(tag);
        crate::bytes::append_bytes(&mut r, self.id.as_slice());
        assert(r@ =~= address_key(self@));
        r
    }

    /// The address a byte key stands for.
    pub fn from_key(k: &[u8]) -> (r: Address)
        requires
            is_address_key(k@),
        ensures
            r@ == address_of_key(k@),
    {
        let kind = if k[0] == 0 { AddressKind::Account } else { AddressKind::Contract };
        let mut id: Vec<u8> = Vec::new();
        let mut i: usize = 1;
        while i < k.len()
            invariant
                1 <= i <= k@.len(),
                id@ == k@.subrange(1, i as int),
            decreases k@.len() - i,
        {
            id.push(k[i]);
            i = i + 1;
            assert(id@ =~= k@.subrange(1, i as int));
        }
        assert(k@.drop_first() =~= k@.subrange(1, k@.len() as int));
        Address { kind, id }
    }
}

/// The contents of a list of addresses.
pub open spec fn address_views(v: Seq<Address>) -> Seq<(AddressKind, Seq<u8>)> {
    Seq::new(v.len(), |i: int| v[i]@)
}

/// `v` lists each address of `s` exactly once, and nothing else.
pub open spec fn lists_exactly(v: Seq<Address>, s: Set<(AddressKind, Seq<u8>)>) -> bool {
    &&& address_views(v).no_duplicates()
    &&& address_views(v).to_set() == s
}

/// A set of addresses, listed in the order in which the ledger sorts
/// addresses (kind first, then identifier bytes).
pub struct AddressSet {
    inner: ByteSet,
}

impl AddressSet {
    /// Well-formedness.
    pub closed spec fn wf(&self) -> bool {
        &&& self.inner.wf()
        &&& forall|i: int| 0 <= i < self.inner.key_seq().len() ==> is_address_key(#[trigger] self.inner.key_seq()[i])
    }

    /// The addresses in the set.
    pub closed spec fn members(&self) -> Set<(AddressKind, Seq<u8>)> {
        Set::new(|a: (AddressKind, Seq<u8>)| self.inner.has(address_key(a)))
    }

    /// The addresses in listing order.
    pub closed spec fn ordered(&self) -> Seq<(AddressKind, Seq<u8>)> {
        self.inner.key_seq().map_values(|k: Seq<u8>| address_of_key(k))
    }

    /// Number of addresses.
    pub closed spec fn size(&self) -> nat {
        self.inner.key_seq().len()
    }

    /// The ordered listing has one entry per address.
    pub proof fn lemma_ordered_len(&self)
        ensures
            self.ordered().len() == self.size(),
    {
    }

    /// The listing holds each member exactly once and nothing else.
    pub proof fn lemma_ordered_members(&self)
        requires
            self.wf(),
        ensures
            self.ordered().no_duplicates(),
            self.ordered().to_set() == self.members(),
            self.ordered().len() == self.size(),
            self.members().finite(),
            self.members().len() == self.size(),
    {
        let ks = self.inner.key_seq();
        let o = self.ordered();
        crate::keyset::lemma_sorted_set_len(ks);
        assert forall|i: int, j: int| 0 <= i < o.len() && 0 <= j < o.len() && i != j implies o[i] != o[j] by {
            lemma_key_address_roundtrip(ks[i]);
            lemma_key_address_roundtrip(ks[j]);
        }
        assert forall|x: (AddressKind, Seq<u8>)| #[trigger] o.to_set().contains(x) == self.members().contains(x) by {
            if o.contains(x) {
                let i = choose|i: int| 0 <= i < o.len() && o[i] == x;
                lemma_key_address_roundtrip(ks[i]);
                assert(ks[i] == address_key(x));
            }
            if self.inner.has(address_key(x)) {
                let i = choose|i: int| 0 <= i < ks.len() && ks[i] == address_key(x);
                lemma_address_key_roundtrip(x);
                assert(o[i] == x);
            }
        }
        assert(o.to_set() =~= self.members());
        o.unique_seq_to_set();
        vstd::seq_lib::seq_to_set_is_finite(o);
    }

    /// The listing depends on the members alone: two sets with the same
    /// members list them in the same order.
    pub proof fn lemma_ordered_determined(&self, other: &AddressSet)
        requires
            self.wf(),
            other.wf(),
            self.members() == other.members(),
        ensures
            self.ordered() == other.ordered(),
    {
        let k1 = self.inner.key_seq();
        let k2 = other.inner.key_seq();
        assert forall|k: Seq<u8>| #[trigger] k1.to_set().contains(k) == k2.to_set().contains(k) by {
            if k1.contains(k) {
                let i = choose|i: int| 0 <= i < k1.len() && k1[i] == k;
                lemma_key_address_roundtrip(k);
                assert(self.members().contains(address_of_key(k)));
                assert(other.inner.has(k));
            }
            if k2.contains(k) {
                let i = choose|i: int| 0 <= i < k2.len() && k2[i] == k;
                lemma_key_address_roundtrip(k);
                assert(other.members().contains(address_of_key(k)));
                assert(self.inner.has(k));
            }
        }
        assert(k1.to_set() =~= k2.to_set());
        crate::keyset::lemma_sorted_same_set(k1, k2);
    }

    /// Adding an absent address and then removing it gives back the same
    /// listing.
    pub proof fn lemma_insert_remove_restores(&self, added: &AddressSet, removed: &AddressSet, a: (AddressKind, Seq<u8>))
        requires
            self.wf(),
            removed.wf(),
            !self.members().contains(a),
            added.members() == self.members().insert(a),
            removed.members() == added.members().remove(a),
        ensures
            removed.ordered() == self.ordered(),
            removed.members() == self.members(),
    {
        assert(removed.members() =~= self.members());
        self.lemma_ordered_determined(removed);
    }

    /// The ledger's order: every account address is listed before every
    /// contract address, and addresses of one kind come in ascending order
    /// of their identifiers.
    pub proof fn lemma_accounts_before_contracts(&self)
        requires
            self.wf(),
        ensures
            forall|i: int, j: int|
                0 <= i < j < self.ordered().len() && (#[trigger] self.ordered()[i]).0 == AddressKind::Contract
                    ==> (#[trigger] self.ordered()[j]).0 == AddressKind::Contract,
            forall|i: int, j: int|
                0 <= i < j < self.ordered().len() && (#[trigger] self.ordered()[i]).0 == (#[trigger] self.ordered()[j]).0
                    ==> crate::bytes::lex_lt(self.ordered()[i].1, self.ordered()[j].1),
    {
        let ks = self.inner.key_seq();
        let o = self.ordered();
        assert forall|i: int, j: int| 0 <= i < j < o.len() && (#[trigger] o[i]).0 == AddressKind::Contract
            implies (#[trigger] o[j]).0 == AddressKind::Contract by {
            assert(crate::bytes::lex_lt(ks[i], ks[j]));
            assert(is_address_key(ks[i]) && is_address_key(ks[j]));
            if o[j].0 == AddressKind::Account {
                assert(ks[i][0] == 1u8 && ks[j][0] == 0u8);
            }
        }
        assert forall|i: int, j: int| 0 <= i < j < o.len() && (#[trigger] o[i]).0 == (#[trigger] o[j]).0
            implies crate::bytes::lex_lt(o[i].1, o[j].1) by {
            assert(crate::bytes::lex_lt(ks[i], ks[j]));
            assert(is_address_key(ks[i]) && is_address_key(ks[j]));
            assert(ks[i][0] == ks[j][0]);
            crate::bytes::lemma_lex_skip(ks[i], ks[j], 1);
            lemma_lex_from_shift(ks[i], ks[j], 1);
            assert(o[i].1 =~= ks[i].drop_first());
            assert(o[j].1 =~= ks[j].drop_first());
        }
    }

    /// The empty set.
    pub fn new() -> (s: Self)
        ensures
            s.wf(),
            s.members() == Set::<(AddressKind, Seq<u8>)>::empty(),
            s.size() == 0,
    {
        let s = AddressSet { inner: ByteSet::new() };
        assert(s.members() =~= Set::<(AddressKind, Seq<u8>)>::empty());
        s
    }

    /// Number of addresses.
    pub fn len(&self) -> (n: usize)
        ensures
            n == self.size(),
    {
        self.inner.len()
    }

    /// Whether `a` is in the set.
    pub fn contains(&self, a: &Address) -> (r: bool)
        ensures
            r == self.members().contains(a@),
    {
        let k = a.key();
        self.inner.contains(k.as_slice())
    }

    /// Adds `a`; returns `false`, with the set unchanged, where it was present.
    pub fn insert(&mut self, a: &Address) -> (added: bool)
        requires
            old(self).wf(),
        ensures
            final(self).wf(),
            added == !old(self).members().contains(a@),
            final(self).members() == old(self).members().insert(a@),
            final(self).size() == old(self).size() + (if added { 1nat } else { 0nat }),
            !added ==> final(self).ordered() == old(self).ordered(),
    {
        let k = a.key();
        let ghost pre = self.inner;
        let added = self.inner.insert(k.as_slice());
        proof {
            lemma_address_key_roundtrip(a@);
            assert forall|i: int| 0 <= i < self.inner.key_seq().len() implies is_address_key(
                #[trigger] self.inner.key_seq()[i],
            ) by {
                let x = self.inner.key_seq()[i];
                assert(self.inner.key_set().contains(x));
                if x != k@ {
                    assert(pre.key_set().contains(x));
                    let j = choose|j: int| 0 <= j < pre.key_seq().len() && pre.key_seq()[j] == x;
                }
            }
            assert forall|x: (AddressKind, Seq<u8>)| #[trigger] self.members().contains(x) == old(
                self,
            ).members().insert(a@).contains(x) by {
                lemma_address_key_injective(x, a@);
                assert(self.inner.key_set().contains(address_key(x)) == self.inner.has(address_key(x)));
                assert(pre.key_set().contains(address_key(x)) == pre.has(address_key(x)));
            }
            assert(self.members() =~= old(self).members().insert(a@));
        }
        added
    }

    /// Removes `a`; returns `false`, with the set unchanged, where it was absent.
    pub fn remove(&mut self, a: &Address) -> (removed: bool)
        requires
            old(self).wf(),
        ensures
            final(self).wf(),
            removed == old(self).members().contains(a@),
            final(self).members() == old(self).members().remove(a@),
            final(self).size() + (if removed { 1nat } else { 0nat }) == old(self).size(),
    {
        let k = a.key();
        let ghost pre = self.inner;
        let removed = self.inner.remove(k.as_slice());
        proof {
            assert forall|i: int| 0 <= i < self.inner.key_seq().len() implies is_address_key(
                #[trigger] self.inner.key_seq()[i],
            ) by {
                let x = self.inner.key_seq()[i];
                assert(self.inner.key_set().contains(x));
                assert(pre.key_set().contains(x));
                let j = choose|j: int| 0 <= j < pre.key_seq().len() && pre.key_seq()[j] == x;
            }
            assert forall|x: (AddressKind, Seq<u8>)| #[trigger] self.members().contains(x) == old(
                self,
            ).members().remove(a@).contains(x) by {
                lemma_address_key_injective(x, a@);
                assert(self.inner.key_set().contains(address_key(x)) == self.inner.has(address_key(x)));
                assert(pre.key_set().contains(address_key(x)) == pre.has(address_key(x)));
            }
            assert(self.members() =~= old(self).members().remove(a@));
        }
        removed
    }

    /// The addresses, in the ledger's order.
    pub fn to_vec(&self) -> (r: Vec<Address>)
        requires
            self.wf(),
        ensures
            r@.len() == self.ordered().len(),
            forall|i: int| 0 <= i < r@.len() ==> (#[trigger] r@[i])@ == self.ordered()[i],
            lists_exactly(r@, self.members()),
    {
        let keys = self.inner.keys();
        let mut out: Vec<Address> = Vec::new();
        let mut i: usize = 0;
        while i < keys.len()
            invariant
                i <= keys@.len(),
                crate::keyset::views(keys@) == self.inner.key_seq(),
                self.wf(),
                out@.len() == i,
                forall|j: int| 0 <= j < i ==> (#[trigger] out@[j])@ == self.ordered()[j],
            decreases keys@.len() - i,
        {
            assert(keys@[i as int]@ == self.inner.key_seq()[i as int]);
            let a = Address::from_key(keys[i].as_slice());
            out.push(a);
            i = i + 1;
        }
        proof {
            self.lemma_ordered_members();
            assert(address_views(out@) =~= self.ordered());
        }
        out
    }
}

} // verus!
