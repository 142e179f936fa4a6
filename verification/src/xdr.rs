//! XDR encodings of contract values (`ScVal`), as the host serializes them
//! for hashing and signing: a 4-byte big-endian type tag, then the body.
use vstd::prelude::*;
use crate::address::{Address, AddressKind};
use crate::bytes::append_bytes;

verus! {

/// Type tag of a `u64` value.
pub const SCV_U64: u32 = 5;

/// Type tag of an `i128` value.
pub const SCV_I128: u32 = 10;

/// Type tag of a byte string.
pub const SCV_BYTES: u32 = 13;

/// Type tag of a string.
pub const SCV_STRING: u32 = 14;

/// Type tag of an address.
pub const SCV_ADDRESS: u32 = 18;

/// Big-endian encoding of a 32-bit number.
pub open spec fn be32(n: nat) -> Seq<u8> {
    seq![
        ((n / 0x1000000) % 256) as u8,
        ((n / 0x10000) % 256) as u8,
        ((n / 0x100) % 256) as u8,
        (n % 256) as u8,
    ]
}

/// Big-endian encoding of a 64-bit number.
pub open spec fn be64(n: nat) -> Seq<u8> {
    be32(n / 0x100000000) + be32(n % 0x100000000)
}

/// Zero bytes that pad a body of `n` bytes to a multiple of four.
pub open spec fn xdr_padding(n: nat) -> Seq<u8> {
    Seq::new(((4 - n % 4) % 4) as nat, |i: int| 0u8)
}

/// A variable-length opaque body: length, bytes, padding.
pub open spec fn xdr_opaque(b: Seq<u8>) -> Seq<u8> {
    be32(b.len()) + b + xdr_padding(b.len())
}

/// XDR of a string value.
pub open spec fn xdr_string(s: Seq<u8>) -> Seq<u8> {
    be32(SCV_STRING as nat) + xdr_opaque(s)
}

/// XDR of a byte-string value.
pub open spec fn xdr_bytes(b: Seq<u8>) -> Seq<u8> {
    be32(SCV_BYTES as nat) + xdr_opaque(b)
}

/// XDR of a `u64` value.
pub open spec fn xdr_u64(n: u64) -> Seq<u8> {
    be32(SCV_U64 as nat) + be64(n as nat)
}

/// Two's-complement bits of an `i128`, as a number below 2^128.
pub open spec fn i128_bits(x: i128) -> nat {
    if x >= 0 {
        x as nat
    } else {
        (x + 0x1_0000_0000_0000_0000_0000_0000_0000_0000) as nat
    }
}

/// XDR of an `i128` value: high 64 bits, then low 64 bits.
pub open spec fn xdr_i128(x: i128) -> Seq<u8> {
    be32(SCV_I128 as nat) + be64(i128_bits(x) / 0x1_0000_0000_0000_0000) + be64(
        i128_bits(x) % 0x1_0000_0000_0000_0000,
    )
}

/// XDR of an address value: the address tag, the address kind, and for an
/// account the public-key type (ed25519, 0), then the 32-byte identifier.
pub open spec fn xdr_address(a: (AddressKind, Seq<u8>)) -> Seq<u8> {
    match a.0 {
        AddressKind::Account => be32(SCV_ADDRESS as nat) + be32(0) + be32(0) + a.1,
        AddressKind::Contract => be32(SCV_ADDRESS as nat) + be32(1) + a.1,
    }
}

/// Appends the big-endian encoding of `n`.
pub fn push_be32(out: &mut Vec<u8>, n: u32)
    ensures
        final(out)@ == old(out)@ + be32(n as nat),
{
    out.push((n / 0x1000000) as u8);
    out.push(((n / 0x10000) % 256) as u8);
    out.push(((n / 0x100) % 256) as u8);
    out.push((n % 256) as u8);
    assert(final(out)@ =~= old(out)@ + be32(n as nat));
}

/// Appends the big-endian encoding of `n`.
pub fn push_be64(out: &mut Vec<u8>, n: u64)
    ensures
        final(out)@ == old(out)@ + be64(n as nat),
{
    let hi: u32 = (n / 0x100000000) as u32;
    let lo: u32 = (n % 0x100000000) as u32;
    push_be32(out, hi);
    push_be32(out, lo);
    assert(final(out)@ =~= old(out)@ + be64(n as nat));
}

/// Appends a variable-length opaque body.
fn push_opaque(out: &mut Vec<u8>, b: &[u8])
    requires
        b@.len() <= u32::MAX,
    ensures
        final(out)@ == old(out)@ + xdr_opaque(b@),
{
    let n = b.len();
    push_be32(out, n as u32);
    append_bytes(out, b);
    let pad: usize = (4 - n % 4) % 4;
    let mut i: usize = 0;
    let ghost mid = out@;
    while i < pad
        invariant
            i <= pad,
            pad == (4 - n % 4) % 4,
            out@ == mid + Seq::new(i as nat, |j: int| 0u8),
        decreases pad - i,
    {
        out.push(0u8);
        i = i + 1;
        assert(out@ =~= mid + Seq::new(i as nat, |j: int| 0u8));
    }
    assert(final(out)@ =~= old(out)@ + xdr_opaque(b@));
}

/// Appends the XDR of a string value.
pub fn push_xdr_string(out: &mut Vec<u8>, s: &[u8])
    requires
        s@.len() <= u32::MAX,
    ensures
        final(out)@ == old(out)@ + xdr_string(s@),
{
    push_be32(out, SCV_STRING);
    push_opaque(out, s);
    assert(final(out)@ =~= old(out)@ + xdr_string(s@));
}

/// Appends the XDR of a byte-string value.
pub fn push_xdr_bytes(out: &mut Vec<u8>, b: &[u8])
    requires
        b@.len() <= u32::MAX,
    ensures
        final(out)@ == old(out)@ + xdr_bytes(b@),
{
    push_be32(out, SCV_BYTES);
    push_opaque(out, b);
    assert(final(out)@ =~= old(out)@ + xdr_bytes(b@));
}

/// Appends the XDR of a `u64` value.
pub fn push_xdr_u64(out: &mut Vec<u8>, n: u64)
    ensures
        final(out)@ == old(out)@ + xdr_u64(n),
{
    push_be32(out, SCV_U64);
    push_be64(out, n);
    assert(final(out)@ =~= old(out)@ + xdr_u64(n));
}

/// Appends the XDR of an `i128` value.
pub fn push_xdr_i128(out: &mut Vec<u8>, x: i128)
    ensures
        final(out)@ == old(out)@ + xdr_i128(x),
{
    let bits: u128 = if x >= 0 {
        x as u128
    } else {
        let y: u128 = (-(x + 1)) as u128;
        u128::MAX - y
    };
    assert(bits == i128_bits(x));
    push_be32(out, SCV_I128);
    push_be64(out, (bits / 0x1_0000_0000_0000_0000) as u64);
    push_be64(out, (bits % 0x1_0000_0000_0000_0000) as u64);
    assert(final(out)@ =~= old(out)@ + xdr_i128(x));
}

/// Appends the XDR of an address value.
pub fn push_xdr_address(out: &mut Vec<u8>, a: &Address)
    ensures
        final(out)@ == old(out)@ + xdr_address(a@),
{
    push_be32(out, SCV_ADDRESS);
    match a.kind {
        AddressKind::Account => {
            push_be32(out, 0);
            push_be32(out, 0);
        },
        AddressKind::Contract => {
            push_be32(out, 1);
        },
    }
    append_bytes(out, a.id.as_slice());
    assert(final(out)@ =~= old(out)@ + xdr_address(a@));
}

/// The XDR of a string value.
pub fn string_xdr(s: &[u8]) -> (r: Vec<u8>)
    requires
        s@.len() <= u32::MAX,
    ensures
        r@ == xdr_string(s@),
{
    let mut r: Vec<u8> = Vec::new();
    push_xdr_string(&mut r, s);
    assert(r@ =~= xdr_string(s@));
    r
}

/// Different 32-bit numbers have different big-endian encodings.
pub proof fn lemma_be32_injective(x: u32, y: u32)
    requires
        be32(x as nat) == be32(y as nat),
    ensures
        x == y,
{
    assert(be32(x as nat)[0] == be32(y as nat)[0]);
    assert(be32(x as nat)[1] == be32(y as nat)[1]);
    assert(be32(x as nat)[2] == be32(y as nat)[2]);
    assert(be32(x as nat)[3] == be32(y as nat)[3]);
    assert(x == y) by (bit_vector)
        requires
            (x / 0x1000000) % 256 == (y / 0x1000000) % 256,
            (x / 0x10000) % 256 == (y / 0x10000) % 256,
            (x / 0x100) % 256 == (y / 0x100) % 256,
            x % 256 == y % 256,
    ;
}

/// Different 64-bit numbers have different big-endian encodings.
pub proof fn lemma_be64_injective(a: u64, b: u64)
    requires
        be64(a as nat) == be64(b as nat),
    ensures
        a == b,
{
    let ha: u32 = (a / 0x100000000) as u32;
    let hb: u32 = (b / 0x100000000) as u32;
    let la: u32 = (a % 0x100000000) as u32;
    let lb: u32 = (b % 0x100000000) as u32;
    assert(be64(a as nat) == be32(ha as nat) + be32(la as nat));
    assert(be64(b as nat) == be32(hb as nat) + be32(lb as nat));
    assert(be32(ha as nat) =~= be64(a as nat).subrange(0, 4));
    assert(be32(hb as nat) =~= be64(b as nat).subrange(0, 4));
    assert(be32(la as nat) =~= be64(a as nat).subrange(4, 8));
    assert(be32(lb as nat) =~= be64(b as nat).subrange(4, 8));
    lemma_be32_injective(ha, hb);
    lemma_be32_injective(la, lb);
    assert(a == b) by (bit_vector)
        requires
            (a / 0x100000000) as u32 == (b / 0x100000000) as u32,
            (a % 0x100000000) as u32 == (b % 0x100000000) as u32,
    ;
}

/// Different `u64` values have different XDR encodings.
pub proof fn lemma_xdr_u64_injective(a: u64, b: u64)
    requires
        xdr_u64(a) == xdr_u64(b),
    ensures
        a == b,
{
    assert(xdr_u64(a).subrange(4, 12) =~= be64(a as nat));
    assert(xdr_u64(b).subrange(4, 12) =~= be64(b as nat));
    lemma_be64_injective(a, b);
}

/// An address of a 32-byte identifier is recognised at the head of a byte
/// string: equal strings that start with such addresses start with the
/// same address, and go on alike.
pub proof fn lemma_xdr_address_split(a: (AddressKind, Seq<u8>), b: (AddressKind, Seq<u8>), r1: Seq<u8>, r2: Seq<u8>)
    requires
        a.1.len() == 32,
        b.1.len() == 32,
        xdr_address(a) + r1 == xdr_address(b) + r2,
    ensures
        a == b,
        r1 == r2,
{
    let xa = xdr_address(a);
    let xb = xdr_address(b);
    assert((xa + r1)[7] == xa[7]);
    assert((xb + r2)[7] == xb[7]);
    if a.0 != b.0 {
        assert(xa[7] != xb[7]);
    }
    crate::bytes::lemma_split_equal_len(xa, r1, xb, r2);
    let k: int = if a.0 == AddressKind::Account { 12 } else { 8 };
    assert(a.1 =~= xa.subrange(k, xa.len() as int));
    assert(b.1 =~= xb.subrange(k, xb.len() as int));
}

/// A string of fewer than 2^32 bytes is recognised at the head of a byte
/// string by its length prefix.
pub proof fn lemma_xdr_string_split(a: Seq<u8>, b: Seq<u8>, r1: Seq<u8>, r2: Seq<u8>)
    requires
        a.len() <= u32::MAX,
        b.len() <= u32::MAX,
        xdr_string(a) + r1 == xdr_string(b) + r2,
    ensures
        a == b,
        r1 == r2,
{
    let xa = xdr_string(a);
    let xb = xdr_string(b);
    assert(xa.subrange(4, 8) =~= be32(a.len()));
    assert(xb.subrange(4, 8) =~= be32(b.len()));
    assert((xa + r1).subrange(4, 8) =~= xa.subrange(4, 8));
    assert((xb + r2).subrange(4, 8) =~= xb.subrange(4, 8));
    lemma_be32_injective(a.len() as u32, b.len() as u32);
    crate::bytes::lemma_split_equal_len(xa, r1, xb, r2);
    assert(a =~= xa.subrange(8, 8 + a.len() as int));
    assert(b =~= xb.subrange(8, 8 + b.len() as int));
}

/// Where the two halves of an `i128` sit in its XDR.
proof fn lemma_xdr_i128_layout(x: i128)
    ensures
        xdr_i128(x).subrange(4, 12) == be64(i128_bits(x) / 0x1_0000_0000_0000_0000),
        xdr_i128(x).subrange(12, 20) == be64(i128_bits(x) % 0x1_0000_0000_0000_0000),
{
    let h = be64(i128_bits(x) / 0x1_0000_0000_0000_0000);
    let l = be64(i128_bits(x) % 0x1_0000_0000_0000_0000);
    let t = be32(SCV_I128 as nat);
    assert(xdr_i128(x) == t + h + l);
    assert((t + h + l).subrange(4, 12) =~= h);
    assert((t + h + l).subrange(12, 20) =~= l);
}

/// The two 64-bit halves of a number below 2^128.
proof fn lemma_halves(b: nat)
    requires
        b < 0x1_0000_0000_0000_0000_0000_0000_0000_0000,
    ensures
        b / 0x1_0000_0000_0000_0000 < 0x1_0000_0000_0000_0000,
        b % 0x1_0000_0000_0000_0000 < 0x1_0000_0000_0000_0000,
        b == 0x1_0000_0000_0000_0000 * (b / 0x1_0000_0000_0000_0000) + b % 0x1_0000_0000_0000_0000,
{
    vstd::arithmetic::div_mod::lemma_fundamental_div_mod(b as int, 0x1_0000_0000_0000_0000int);
}

/// Different `i128` values have different XDR encodings.
pub proof fn lemma_xdr_i128_injective(x: i128, y: i128)
    requires
        xdr_i128(x) == xdr_i128(y),
    ensures
        x == y,
{
    let bx = i128_bits(x);
    let by = i128_bits(y);
    lemma_halves(bx);
    lemma_halves(by);
    lemma_xdr_i128_layout(x);
    lemma_xdr_i128_layout(y);
    let hx = (bx / 0x1_0000_0000_0000_0000) as u64;
    let hy = (by / 0x1_0000_0000_0000_0000) as u64;
    let lx = (bx % 0x1_0000_0000_0000_0000) as u64;
    let ly = (by % 0x1_0000_0000_0000_0000) as u64;
    lemma_be64_injective(hx, hy);
    lemma_be64_injective(lx, ly);
    assert(bx == by);
}

/// The XDR of an address, taken as one field when reasoning about
/// concatenated encodings.
#[verifier::opaque]
pub open spec fn address_field(a: (AddressKind, Seq<u8>)) -> Seq<u8> {
    xdr_address(a)
}

/// The XDR of a string, taken as one field.
#[verifier::opaque]
pub open spec fn string_field(s: Seq<u8>) -> Seq<u8> {
    xdr_string(s)
}

/// The XDR of an `i128`, taken as one field.
#[verifier::opaque]
pub open spec fn i128_field(x: i128) -> Seq<u8> {
    xdr_i128(x)
}

/// The XDR of a `u64`, taken as one field.
#[verifier::opaque]
pub open spec fn u64_field(n: u64) -> Seq<u8> {
    xdr_u64(n)
}

/// An address field of a 32-byte identifier heads a byte string
/// unambiguously.
pub proof fn lemma_address_field_split(a: (AddressKind, Seq<u8>), b: (AddressKind, Seq<u8>), r1: Seq<u8>, r2: Seq<u8>)
    requires
        a.1.len() == 32,
        b.1.len() == 32,
        address_field(a) + r1 == address_field(b) + r2,
    ensures
        a == b,
        r1 == r2,
{
    reveal(address_field);
    lemma_xdr_address_split(a, b, r1, r2);
}

/// A string field of fewer than 2^32 bytes heads a byte string
/// unambiguously.
pub proof fn lemma_string_field_split(a: Seq<u8>, b: Seq<u8>, r1: Seq<u8>, r2: Seq<u8>)
    requires
        a.len() <= u32::MAX,
        b.len() <= u32::MAX,
        string_field(a) + r1 == string_field(b) + r2,
    ensures
        a == b,
        r1 == r2,
{
    reveal(string_field);
    lemma_xdr_string_split(a, b, r1, r2);
}

/// An `i128` field heads a byte string unambiguously.
pub proof fn lemma_i128_field_split(x: i128, y: i128, r1: Seq<u8>, r2: Seq<u8>)
    requires
        i128_field(x) + r1 == i128_field(y) + r2,
    ensures
        x == y,
        r1 == r2,
{
    reveal(i128_field);
    assert(xdr_i128(x).len() == 20);
    assert(xdr_i128(y).len() == 20);
    crate::bytes::lemma_split_equal_len(xdr_i128(x), r1, xdr_i128(y), r2);
    lemma_xdr_i128_injective(x, y);
}

/// Equal `u64` fields hold the same number.
pub proof fn lemma_u64_field_injective(a: u64, b: u64)
    requires
        u64_field(a) == u64_field(b),
    ensures
        a == b,
{
    reveal(u64_field);
    lemma_xdr_u64_injective(a, b);
}

} // verus!
