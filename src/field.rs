//! Elements of the prime field in which rows are committed, held as their
//! canonical 32-byte little-endian representation.
use halo2_proofs::pasta::group::ff::PrimeField;
use halo2_proofs::pasta::Fp;
use vstd::prelude::*;

verus! {

/// The field's modulus, 2^254 + 0x224698fc094cf91b992d30ed00000001.
pub open spec fn field_modulus() -> int {
    (0x4000_0000_0000_0000_0000_0000_0000_0000 * (0x1_0000_0000_0000_0000 * 0x1_0000_0000_0000_0000)
        + 0x2246_98fc_094c_f91b_992d_30ed_0000_0001) as int
}

/// The integer that a little-endian byte sequence denotes.
pub open spec fn le_value(s: Seq<u8>) -> int
    decreases s.len(),
{
    if s.len() == 0 {
        0
    } else {
        s[0] + 256 * le_value(s.drop_first())
    }
}

/// A field element, as the little-endian bytes of its canonical integer.
#[derive(Clone, Copy, Debug, PartialEq, Eq)]
pub struct Fe {
    pub repr: [u8; 32],
}

impl View for Fe {
    type V = int;

    open spec fn view(&self) -> int {
        le_value(self.repr@)
    }
}

impl Fe {
    /// The representation is canonical: its integer is below the modulus.
    pub open spec fn wf(self) -> bool {
        0 <= self@ < field_modulus()
    }

    /// The additive identity.
    pub fn zero() -> (r: Fe)
        ensures
            r@ == 0,
            r.wf(),
    {
        from_u128(0)
    }

    /// The element `v`.
    pub fn from_u64(v: u64) -> (r: Fe)
        ensures
            r@ == v,
            r.wf(),
    {
        from_u128(v as u128)
    }

    /// The element 0 or 1.
    pub fn from_bool(b: bool) -> (r: Fe)
        ensures
            r@ == (if b { 1int } else { 0int }),
            r.wf(),
    {
        if b {
            from_u128(1)
        } else {
            from_u128(0)
        }
    }

    /// The sum of two elements.
    pub fn add(self, other: Fe) -> (r: Fe)
        requires
            self.wf(),
            other.wf(),
        ensures
            r@ == (self@ + other@) % field_modulus(),
            r.wf(),
    {
        fe_add(self, other)
    }

    /// The product of two elements.
    pub fn mul(self, other: Fe) -> (r: Fe)
        requires
            self.wf(),
            other.wf(),
        ensures
            r@ == (self@ * other@) % field_modulus(),
            r.wf(),
    {
        fe_mul(self, other)
    }
}

/// The element `v` of a 128-bit value, which is below the modulus.
pub fn fe_from_u128(v: u128) -> (r: Fe)
    ensures
        r@ == v,
        r.wf(),
{
    from_u128(v)
}

/// Relies on pasta's `Fp::from_u128` and `Fp::to_repr`: a value below the
/// modulus becomes the element of that value, whose canonical little-endian
/// bytes denote it.
#[verifier::external_body]
fn from_u128(v: u128) -> (r: Fe)
    ensures
        r@ == v,
{
    Fe { repr: Fp::from_u128(v).to_repr() }
}

/// Relies on pasta's `Fp::from_repr`, `Fp + Fp` and `Fp::to_repr`: canonical
/// bytes are accepted, and the sum is reduced modulo the field's modulus.
#[verifier::external_body]
fn fe_add(a: Fe, b: Fe) -> (r: Fe)
    requires
        a.wf(),
        b.wf(),
    ensures
        r@ == (a@ + b@) % field_modulus(),
{
    Fe { repr: (Fp::from_repr(a.repr).unwrap() + Fp::from_repr(b.repr).unwrap()).to_repr() }
}

/// Relies on pasta's `Fp::from_repr`, `Fp * Fp` and `Fp::to_repr`: canonical
/// bytes are accepted, and the product is reduced modulo the field's modulus.
#[verifier::external_body]
fn fe_mul(a: Fe, b: Fe) -> (r: Fe)
    requires
        a.wf(),
        b.wf(),
    ensures
        r@ == (a@ * b@) % field_modulus(),
{
    Fe { repr: (Fp::from_repr(a.repr).unwrap() * Fp::from_repr(b.repr).unwrap()).to_repr() }
}

} // verus!
