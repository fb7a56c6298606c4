//! Elements of the Pallas base field, held by their canonical encoding.
//!
//! The arithmetic itself is done by `pasta_curves`; this module states what each
//! operation computes, over natural numbers below the field's order.

use pasta_curves::arithmetic::FieldExt;
use pasta_curves::group::ff::Field;
use pasta_curves::group::ff::PrimeField;
use pasta_curves::pallas::Base;
use vstd::prelude::*;

verus! {

/// The order of the Pallas base field.
pub open spec fn modulus() -> nat {
    0x40000000000000000000000000000000224698fc094cf91b992d30ed00000001nat
}

/// The order of the field, as 32 little-endian bytes.
pub const MODULUS_REPR: [u8; 32] = [
    0x01, 0x00, 0x00, 0x00, 0xed, 0x30, 0x2d, 0x99,
    0x1b, 0xf9, 0x4c, 0x09, 0xfc, 0x98, 0x46, 0x22,
    0x00, 0x00, 0x00, 0x00, 0x00, 0x00, 0x00, 0x00,
    0x00, 0x00, 0x00, 0x00, 0x00, 0x00, 0x00, 0x40,
];

/// The number that a little-endian string of bytes stands for.
pub open spec fn le_value(bytes: Seq<u8>) -> nat
    decreases bytes.len(),
{
    if bytes.len() == 0 {
        0
    } else {
        bytes[0] as nat + 256 * le_value(bytes.drop_first())
    }
}

/// The number that four 64-bit limbs stand for, least significant limb first.
pub open spec fn limbs_value(limbs: Seq<u64>) -> nat
    recommends
        limbs.len() == 4,
{
    limbs[0] as nat + 0x1_0000_0000_0000_0000 * (limbs[1] as nat + 0x1_0000_0000_0000_0000 * (
    limbs[2] as nat + 0x1_0000_0000_0000_0000 * (limbs[3] as nat)))
}

/// Sum in the field.
pub open spec fn fadd(a: nat, b: nat) -> nat {
    (a + b) % modulus()
}

/// Product in the field.
pub open spec fn fmul(a: nat, b: nat) -> nat {
    (a * b) % modulus()
}

/// Fifth power in the field.
pub open spec fn pow5(a: nat) -> nat {
    (a * a * a * a * a) % modulus()
}

/// An element of the field: a number below the field's order, kept as its 32
/// little-endian bytes. Two elements are equal exactly when their bytes are.
#[derive(Clone, Copy, Debug, PartialEq, Eq)]
pub struct FieldElement {
    repr: [u8; 32],
}

impl View for FieldElement {
    type V = nat;

    /// The number that the element is.
    open spec fn view(&self) -> nat {
        le_value(self.encoding())
    }
}

impl FieldElement {
    /// The 32 bytes that encode the element.
    pub closed spec fn encoding(&self) -> Seq<u8> {
        self.repr@
    }

    #[verifier::type_invariant]
    spec fn canonical(self) -> bool {
        le_value(self.repr@) < modulus()
    }

    /// Decodes 32 little-endian bytes. They are an element exactly when the number
    /// they stand for is below the field's order.
    pub fn from_repr(repr: [u8; 32]) -> (decoded: Option<FieldElement>)
        ensures
            decoded is Some <==> le_value(repr@) < modulus(),
            decoded is Some ==> decoded->0.encoding() == repr@,
    {
        let mut i: usize = 32;
        let mut equal = true;
        let mut less = false;
        proof {
            assert(repr@.skip(32) =~= MODULUS_REPR@.skip(32));
        }
        while i > 0
            invariant
                i <= 32,
                equal <==> le_value(repr@.skip(i as int)) == le_value(MODULUS_REPR@.skip(i as int)),
                less <==> le_value(repr@.skip(i as int)) < le_value(MODULUS_REPR@.skip(i as int)),
            decreases i,
        {
            i -= 1;
            proof {
                lemma_le_value_suffix(repr@, i as int);
                lemma_le_value_suffix(MODULUS_REPR@, i as int);
            }
            if equal {
                less = repr[i] < MODULUS_REPR[i];
                equal = repr[i] == MODULUS_REPR[i];
            }
        }
        proof {
            assert(repr@.skip(0) =~= repr@);
            assert(MODULUS_REPR@.skip(0) =~= MODULUS_REPR@);
            lemma_modulus_repr();
        }
        if less {
            Some(FieldElement { repr })
        } else {
            None
        }
    }

    /// The sum of two elements.
    pub fn add(&self, rhs: &FieldElement) -> (sum: FieldElement)
        ensures
            sum@ == fadd(self@, rhs@),
    {
        proof {
            use_type_invariant(self);
            use_type_invariant(rhs);
        }
        field_add(self, rhs)
    }

    /// The product of two elements.
    pub fn mul(&self, rhs: &FieldElement) -> (product: FieldElement)
        ensures
            product@ == fmul(self@, rhs@),
    {
        proof {
            use_type_invariant(self);
            use_type_invariant(rhs);
        }
        field_mul(self, rhs)
    }

    /// The fifth power of the element.
    pub fn pow5(&self) -> (power: FieldElement)
        ensures
            power@ == pow5(self@),
    {
        proof {
            use_type_invariant(self);
        }
        field_pow5(self)
    }

    /// The canonical encoding of the element.
    pub fn to_repr(&self) -> (repr: [u8; 32])
        ensures
            repr@ == self.encoding(),
            le_value(repr@) < modulus(),
    {
        proof {
            use_type_invariant(self);
        }
        self.repr
    }
}

/// The value of a suffix, from the value of the next shorter one.
pub proof fn lemma_le_value_suffix(bytes: Seq<u8>, i: int)
    requires
        0 <= i < bytes.len(),
    ensures
        le_value(bytes.skip(i)) == bytes[i] as nat + 256 * le_value(bytes.skip(i + 1)),
{
    assert(bytes.skip(i).drop_first() =~= bytes.skip(i + 1));
}

/// Strings of one length that stand for one number are the same string.
pub proof fn lemma_le_value_injective(a: Seq<u8>, b: Seq<u8>)
    requires
        a.len() == b.len(),
        le_value(a) == le_value(b),
    ensures
        a == b,
    decreases a.len(),
{
    if a.len() > 0 {
        lemma_le_value_injective(a.drop_first(), b.drop_first());
        assert(a =~= seq![a[0]] + a.drop_first());
        assert(b =~= seq![b[0]] + b.drop_first());
    } else {
        assert(a =~= b);
    }
}

/// An element is determined by the number it is: the encoding is unique.
pub proof fn lemma_value_determines_element(a: FieldElement, b: FieldElement)
    requires
        a@ == b@,
    ensures
        a == b,
{
    lemma_le_value_injective(a.repr@, b.repr@);
    assert(a.repr =~= b.repr);
}

/// `MODULUS_REPR` encodes the field's order.
pub proof fn lemma_modulus_repr()
    ensures
        le_value(MODULUS_REPR@) == modulus(),
{
    reveal_with_fuel(le_value, 33);
}

/// Zero. Calls `pasta_curves::pallas::Base::zero`, the additive identity.
#[verifier::external_body]
pub(crate) fn field_zero() -> (zero: FieldElement)
    ensures
        zero@ == 0,
{
    FieldElement { repr: Base::zero().to_repr() }
}

/// The element that a 128-bit number is. Calls `FieldExt::from_u128` of
/// `pasta_curves::pallas::Base`; every such number is below the field's order, so none
/// is reduced.
#[verifier::external_body]
pub(crate) fn field_from_u128(v: u128) -> (e: FieldElement)
    ensures
        e@ == v,
{
    FieldElement { repr: Base::from_u128(v).to_repr() }
}

/// The element that four limbs stand for. Calls `pasta_curves::pallas::Base::from_raw`,
/// which takes any 256-bit number and gives the element congruent to it.
#[verifier::external_body]
pub(crate) fn field_from_raw(limbs: [u64; 4]) -> (e: FieldElement)
    ensures
        e@ == limbs_value(limbs@) % modulus(),
{
    FieldElement { repr: Base::from_raw(limbs).to_repr() }
}

/// Sum of two elements. Calls `+` of `pasta_curves::pallas::Base`, addition modulo the
/// field's order. Both encodings are of numbers below the order, so `from_repr` decodes
/// them.
#[verifier::external_body]
fn field_add(a: &FieldElement, b: &FieldElement) -> (sum: FieldElement)
    requires
        a@ < modulus(),
        b@ < modulus(),
    ensures
        sum@ == fadd(a@, b@),
{
    let x = Base::from_repr(a.repr).unwrap();
    let y = Base::from_repr(b.repr).unwrap();
    FieldElement { repr: (x + y).to_repr() }
}

/// Product of two elements. Calls `*` of `pasta_curves::pallas::Base`, multiplication
/// modulo the field's order. Both encodings are of numbers below the order, so
/// `from_repr` decodes them.
#[verifier::external_body]
fn field_mul(a: &FieldElement, b: &FieldElement) -> (product: FieldElement)
    requires
        a@ < modulus(),
        b@ < modulus(),
    ensures
        product@ == fmul(a@, b@),
{
    let x = Base::from_repr(a.repr).unwrap();
    let y = Base::from_repr(b.repr).unwrap();
    FieldElement { repr: (x * y).to_repr() }
}

/// Fifth power of an element. Calls `Field::pow_vartime` of `pasta_curves::pallas::Base`
/// with the exponent 5. The encoding is of a number below the order, so `from_repr`
/// decodes it.
#[verifier::external_body]
fn field_pow5(a: &FieldElement) -> (power: FieldElement)
    requires
        a@ < modulus(),
    ensures
        power@ == pow5(a@),
{
    let x = Base::from_repr(a.repr).unwrap();
    FieldElement { repr: x.pow_vartime(&[5u64]).to_repr() }
}

} // verus!
