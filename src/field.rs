//! Elements of the BLS12-381 scalar field, held as canonical little-endian bytes.

use bls12_381::Scalar;
use vstd::prelude::*;

verus! {

/// Two to the sixty-fourth: the weight of one 64-bit limb.
pub open spec fn limb_base() -> nat {
    0x1_0000_0000_0000_0000
}

/// The prime order q of the scalar field.
pub open spec fn modulus() -> nat {
    0xffff_ffff_0000_0001nat + 0x53bd_a402_fffe_5bfenat * limb_base() + 0x3339_d808_09a1_d805nat
        * limb_base() * limb_base() + 0x73ed_a753_299d_7d48nat * limb_base() * limb_base()
        * limb_base()
}

/// The number that a little-endian byte string denotes.
pub open spec fn le_value(s: Seq<u8>) -> nat
    decreases s.len(),
{
    if s.len() == 0 {
        0
    } else {
        s[0] as nat + 256 * le_value(s.drop_first())
    }
}

/// Relies on `Scalar::from(u64)` and `Scalar::to_bytes`: the canonical
/// little-endian encoding of the integer.
#[verifier::external_body]
fn scalar_bytes_from_u64(v: u64) -> (r: [u8; 32])
    ensures
        le_value(r@) == v,
{
    Scalar::from(v).to_bytes()
}

/// Relies on `Scalar::from_bytes`: it accepts exactly the encodings of
/// integers below the modulus.
#[verifier::external_body]
fn scalar_bytes_canonical(b: &[u8; 32]) -> (r: bool)
    ensures
        r == (le_value(b@) < modulus()),
{
    bool::from(Scalar::from_bytes(b).is_some())
}

/// Relies on field addition of `Scalar`: the sum reduced modulo q.
#[verifier::external_body]
fn scalar_bytes_add(a: &[u8; 32], b: &[u8; 32]) -> (r: [u8; 32])
    requires
        le_value(a@) < modulus(),
        le_value(b@) < modulus(),
    ensures
        le_value(r@) == (le_value(a@) + le_value(b@)) % modulus(),
{
    let x = Scalar::from_bytes(a).unwrap();
    let y = Scalar::from_bytes(b).unwrap();
    (x + y).to_bytes()
}

/// Relies on field multiplication of `Scalar`: the product reduced modulo q.
#[verifier::external_body]
fn scalar_bytes_mul(a: &[u8; 32], b: &[u8; 32]) -> (r: [u8; 32])
    requires
        le_value(a@) < modulus(),
        le_value(b@) < modulus(),
    ensures
        le_value(r@) == (le_value(a@) * le_value(b@)) % modulus(),
{
    let x = Scalar::from_bytes(a).unwrap();
    let y = Scalar::from_bytes(b).unwrap();
    (x * y).to_bytes()
}

/// Two byte strings of one length that denote the same number are equal.
pub proof fn lemma_le_value_injective(s: Seq<u8>, t: Seq<u8>)
    requires
        s.len() == t.len(),
        le_value(s) == le_value(t),
    ensures
        s == t,
    decreases s.len(),
{
    if s.len() == 0 {
        assert(s =~= t);
    } else {
        let a = s[0] as nat;
        let b = t[0] as nat;
        let x = le_value(s.drop_first());
        let y = le_value(t.drop_first());
        assert(a == b && x == y) by (nonlinear_arith)
            requires
                a < 256,
                b < 256,
                a + 256 * x == b + 256 * y,
        ;
        lemma_le_value_injective(s.drop_first(), t.drop_first());
        assert forall|i: int| 0 <= i < s.len() implies s[i] == t[i] by {
            if i > 0 {
                assert(s[i] == s.drop_first()[i - 1]);
                assert(t[i] == t.drop_first()[i - 1]);
            }
        }
        assert(s =~= t);
    }
}

/// An element of the scalar field, stored as its canonical encoding.
#[derive(Clone, Copy, Debug)]
pub struct FieldElement {
    bytes: [u8; 32],
}

impl FieldElement {
    #[verifier::type_invariant]
    spec fn canonical(self) -> bool {
        le_value(self.bytes@) < modulus()
    }

    /// The residue in `0..q` that this element is.
    pub closed spec fn value(self) -> nat {
        le_value(self.bytes@)
    }

    /// The element equal to the integer `v`.
    pub fn from_u64(v: u64) -> (r: FieldElement)
        ensures
            r.value() == v,
    {
        let bytes = scalar_bytes_from_u64(v);
        assert(v < modulus());
        FieldElement { bytes }
    }

    pub fn zero() -> (r: FieldElement)
        ensures
            r.value() == 0,
    {
        FieldElement::from_u64(0)
    }

    pub fn one() -> (r: FieldElement)
        ensures
            r.value() == 1,
    {
        FieldElement::from_u64(1)
    }

    /// Reads a canonical little-endian encoding; `None` where the number is
    /// not below the modulus.
    pub fn from_bytes(bytes: [u8; 32]) -> (r: Option<FieldElement>)
        ensures
            r is Some <==> le_value(bytes@) < modulus(),
            r is Some ==> r->Some_0.value() == le_value(bytes@),
    {
        if scalar_bytes_canonical(&bytes) {
            Some(FieldElement { bytes })
        } else {
            None
        }
    }

    /// The canonical little-endian encoding.
    pub fn to_bytes(&self) -> (r: [u8; 32])
        ensures
            le_value(r@) == self.value(),
            le_value(r@) < modulus(),
    {
        proof {
            use_type_invariant(self);
        }
        self.bytes
    }

    pub fn add(&self, other: &FieldElement) -> (r: FieldElement)
        ensures
            r.value() == (self.value() + other.value()) % modulus(),
    {
        proof {
            use_type_invariant(self);
            use_type_invariant(other);
        }
        FieldElement { bytes: scalar_bytes_add(&self.bytes, &other.bytes) }
    }

    pub fn mul(&self, other: &FieldElement) -> (r: FieldElement)
        ensures
            r.value() == (self.value() * other.value()) % modulus(),
    {
        proof {
            use_type_invariant(self);
            use_type_invariant(other);
        }
        FieldElement { bytes: scalar_bytes_mul(&self.bytes, &other.bytes) }
    }

    pub fn square(&self) -> (r: FieldElement)
        ensures
            r.value() == (self.value() * self.value()) % modulus(),
    {
        self.mul(self)
    }

    /// Field equality, decided on the canonical encodings.
    pub fn equals(&self, other: &FieldElement) -> (r: bool)
        ensures
            r == (self.value() == other.value()),
    {
        let mut i: usize = 0;
        while i < 32
            invariant
                i <= 32,
                forall|j: int| 0 <= j < i ==> self.bytes@[j] == other.bytes@[j],
            decreases 32 - i,
        {
            if self.bytes[i] != other.bytes[i] {
                proof {
                    if self.value() == other.value() {
                        lemma_le_value_injective(self.bytes@, other.bytes@);
                    }
                }
                return false;
            }
            i = i + 1;
        }
        assert(self.bytes@ =~= other.bytes@);
        true
    }
}

} // verus!
