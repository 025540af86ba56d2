//! An unsigned 256-bit integer held as four little-endian 64-bit limbs.
use vstd::prelude::*;

verus! {

/// 2^64, the base of one limb.
pub open spec fn limb_base() -> nat {
    0x1_0000_0000_0000_0000
}

/// 2^256, the modulus of all arithmetic on `U256`.
pub open spec fn modulus() -> nat {
    limb_base() * limb_base() * limb_base() * limb_base()
}

/// The number that a big-endian byte sequence spells.
pub open spec fn be_value(s: Seq<u8>) -> nat
    decreases s.len(),
{
    if s.len() == 0 {
        0
    } else {
        (be_value(s.drop_last()) * 256 + s.last()) as nat
    }
}

/// The `n` low bytes of `v`, most significant first.
pub open spec fn be_bytes(v: nat, n: nat) -> Seq<u8>
    decreases n,
{
    if n == 0 {
        Seq::empty()
    } else {
        be_bytes(v / 256, (n - 1) as nat).push((v % 256) as u8)
    }
}

/// An unsigned 256-bit integer; `l0` is the least significant limb.
#[derive(Clone, Copy, Debug, PartialEq, Eq, Structural)]
pub struct U256 {
    pub l0: u64,
    pub l1: u64,
    pub l2: u64,
    pub l3: u64,
}

impl View for U256 {
    type V = nat;

    open spec fn view(&self) -> nat {
        (self.l0 + limb_base() * (self.l1 + limb_base() * (self.l2 + limb_base() * self.l3))) as nat
    }
}

/// Every `U256` lies below 2^256.
pub proof fn lemma_value_bounded(a: U256)
    ensures
        a@ < modulus(),
{
    let (l0, l1, l2, l3) = (a.l0 as int, a.l1 as int, a.l2 as int, a.l3 as int);
    let b = limb_base() as int;
    assert(0 <= l0 < b && 0 <= l1 < b && 0 <= l2 < b && 0 <= l3 < b);
    assert(l0 + b * (l1 + b * (l2 + b * l3)) < b * b * b * b) by (nonlinear_arith)
        requires
            0 <= l0 < b,
            0 <= l1 < b,
            0 <= l2 < b,
            0 <= l3 < b,
    ;
}

impl U256 {
    /// Zero.
    pub fn zero() -> (r: U256)
        ensures
            r@ == 0,
    {
        U256 { l0: 0, l1: 0, l2: 0, l3: 0 }
    }

    /// The value `v`.
    pub fn from_u64(v: u64) -> (r: U256)
        ensures
            r@ == v,
    {
        U256 { l0: v, l1: 0, l2: 0, l3: 0 }
    }
}

/// Relies on ruint's `Uint::wrapping_add`: the sum modulo 2^256. The limbs
/// go through `Uint::from_limbs` and `Uint::into_limbs` unchanged.
#[verifier::external_body]
pub(crate) fn wrapping_add(a: U256, b: U256) -> (r: U256)
    ensures
        r@ == (a@ + b@) % modulus(),
{
    let s = alloy_primitives::U256::from_limbs([a.l0, a.l1, a.l2, a.l3]).wrapping_add(
        alloy_primitives::U256::from_limbs([b.l0, b.l1, b.l2, b.l3]),
    );
    let [l0, l1, l2, l3] = s.into_limbs();
    U256 { l0, l1, l2, l3 }
}

/// Relies on ruint's `Uint::wrapping_mul`: the product modulo 2^256. The
/// limbs go through `Uint::from_limbs` and `Uint::into_limbs` unchanged.
#[verifier::external_body]
pub(crate) fn wrapping_mul(a: U256, b: U256) -> (r: U256)
    ensures
        r@ == (a@ * b@) % modulus(),
{
    let p = alloy_primitives::U256::from_limbs([a.l0, a.l1, a.l2, a.l3]).wrapping_mul(
        alloy_primitives::U256::from_limbs([b.l0, b.l1, b.l2, b.l3]),
    );
    let [l0, l1, l2, l3] = p.into_limbs();
    U256 { l0, l1, l2, l3 }
}

/// Relies on ruint's `Uint::to_be_bytes::<32>`: the 32 bytes of the value,
/// most significant first.
#[verifier::external_body]
pub(crate) fn to_be_bytes(a: U256) -> (r: [u8; 32])
    ensures
        r@ == be_bytes(a@, 32),
{
    alloy_primitives::U256::from_limbs([a.l0, a.l1, a.l2, a.l3]).to_be_bytes::<32>()
}

/// Relies on ruint's `Uint::from_be_bytes::<32>`: the number that the 32
/// bytes spell, most significant first.
#[verifier::external_body]
pub(crate) fn from_be_bytes(b: [u8; 32]) -> (r: U256)
    ensures
        r@ == be_value(b@),
{
    let [l0, l1, l2, l3] = alloy_primitives::U256::from_be_bytes::<32>(b).into_limbs();
    U256 { l0, l1, l2, l3 }
}

} // verus!
