//! Elements of the scalar field of the SM2 curve.
//!
//! A `Scalar` holds the canonical big-endian encoding of a residue below
//! `order()`. The arithmetic is that of the `sm2` crate: each operation is a
//! private function whose body makes the call and whose contract states the
//! result as a residue. Those contracts are taken on trust. Each of these
//! functions decodes the bytes of its arguments, which never fails: that the
//! bytes write a residue is the invariant of the type, and what the function
//! requires.

use crate::field::{field_add, field_mul, field_pow, field_sub, is_inverse_of, order};
use vstd::prelude::*;

verus! {

/// The number that a sequence of bytes writes in base 256, most significant byte first.
pub open spec fn be_value(bytes: Seq<u8>) -> nat
    decreases bytes.len(),
{
    if bytes.len() == 0 {
        0
    } else {
        be_value(bytes.drop_last()) * 256 + bytes.last() as nat
    }
}

/// An element of the scalar field.
#[derive(Clone, Copy, Debug, PartialEq, Eq)]
pub struct Scalar {
    bytes: [u8; 32],
}

/// The residues of a sequence of scalars, in their order.
pub open spec fn scalar_values(scalars: Seq<Scalar>) -> Seq<nat> {
    Seq::new(scalars.len(), |i: int| scalars[i]@)
}

/// Bytes that write zero are all zero.
proof fn lemma_be_value_zero(bytes: Seq<u8>)
    ensures
        be_value(bytes) == 0 <==> (forall|i: int| 0 <= i < bytes.len() ==> bytes[i] == 0),
    decreases bytes.len(),
{
    if bytes.len() > 0 {
        let front = bytes.drop_last();
        lemma_be_value_zero(front);
        if be_value(bytes) == 0 {
            assert forall|i: int| 0 <= i < bytes.len() implies bytes[i] == 0 by {
                if i < front.len() {
                    assert(front[i] == bytes[i]);
                }
            }
        } else if forall|i: int| 0 <= i < bytes.len() ==> bytes[i] == 0 {
            assert forall|i: int| 0 <= i < front.len() implies front[i] == 0 by {
                assert(front[i] == bytes[i]);
            }
        }
    }
}

impl Scalar {
    /// The residue that the scalar stands for.
    pub closed spec fn view(&self) -> nat {
        be_value(self.bytes@)
    }

    /// What holds of every scalar: its bytes write a residue.
    #[verifier::type_invariant]
    pub closed spec fn is_residue(self) -> bool {
        be_value(self.bytes@) < order()
    }

    /// A scalar stands for a residue.
    pub proof fn lemma_residue(self)
        requires
            self.is_residue(),
        ensures
            self@ < order(),
    {
    }

    /// The scalar of a small number.
    pub fn from_u64(value: u64) -> (r: Scalar)
        ensures
            r@ == value,
    {
        scalar_from_u64(value)
    }

    /// The additive identity.
    pub fn zero() -> (r: Scalar)
        ensures
            r@ == 0,
    {
        scalar_from_u64(0)
    }

    /// The multiplicative identity.
    pub fn one() -> (r: Scalar)
        ensures
            r@ == 1,
    {
        scalar_from_u64(1)
    }

    /// A scalar drawn from `rng`. Nothing is known of it but that it is a residue.
    pub fn random<R: rand::Rng>(rng: &mut R) -> (r: Scalar)
        ensures
            r@ < order(),
    {
        scalar_random(rng)
    }

    /// The scalar with the given canonical encoding, where the bytes write a
    /// residue.
    pub fn from_bytes(bytes: &[u8; 32]) -> (r: Option<Scalar>)
        ensures
            r.is_some() <==> be_value(bytes@) < order(),
            r matches Some(scalar) ==> scalar@ == be_value(bytes@),
    {
        scalar_from_repr(bytes)
    }

    /// The sum modulo the order.
    pub fn add(&self, other: &Scalar) -> (r: Scalar)
        ensures
            r@ == field_add(self@, other@),
    {
        proof {
            use_type_invariant(self);
            use_type_invariant(other);
        }
        scalar_add(self, other)
    }

    /// The difference modulo the order.
    pub fn sub(&self, other: &Scalar) -> (r: Scalar)
        ensures
            r@ == field_sub(self@, other@),
    {
        proof {
            use_type_invariant(self);
            use_type_invariant(other);
        }
        scalar_sub(self, other)
    }

    /// The product modulo the order.
    pub fn mul(&self, other: &Scalar) -> (r: Scalar)
        ensures
            r@ == field_mul(self@, other@),
    {
        proof {
            use_type_invariant(self);
            use_type_invariant(other);
        }
        scalar_mul(self, other)
    }

    /// `self` raised to the power `exponent`.
    pub fn pow(&self, exponent: u64) -> (r: Scalar)
        ensures
            r@ == field_pow(self@, exponent as nat),
    {
        proof {
            use_type_invariant(self);
        }
        scalar_pow(self, exponent)
    }

    /// The multiplicative inverse, which every scalar but zero has.
    pub fn invert(&self) -> (r: Option<Scalar>)
        ensures
            r.is_some() <==> self@ != 0,
            r matches Some(inverse) ==> is_inverse_of(self@, inverse@),
    {
        proof {
            use_type_invariant(self);
        }
        scalar_invert(self)
    }

    /// The canonical encoding: 32 bytes, most significant first.
    pub fn to_bytes(&self) -> (r: [u8; 32])
        ensures
            be_value(r@) == self@,
    {
        self.bytes
    }

    /// Whether the scalar is zero.
    pub fn is_zero(&self) -> (r: bool)
        ensures
            r == (self@ == 0),
    {
        let mut i: usize = 0;
        while i < 32
            invariant
                i <= 32,
                forall|k: int| 0 <= k < i ==> self.bytes@[k] == 0,
            decreases 32 - i,
        {
            if self.bytes[i] != 0 {
                proof {
                    lemma_be_value_zero(self.bytes@);
                }
                return false;
            }
            i += 1;
        }
        proof {
            lemma_be_value_zero(self.bytes@);
        }
        true
    }
}

/// `Scalar::from_bytes` of `sm2`, which reads 32 bytes as a number, most
/// significant byte first, and takes it where it is below the order.
#[verifier::external_body]
fn scalar_from_repr(bytes: &[u8; 32]) -> (r: Option<Scalar>)
    ensures
        r.is_some() <==> be_value(bytes@) < order(),
        r matches Some(scalar) ==> scalar.bytes == *bytes,
{
    match Option::<sm2::Scalar>::from(sm2::Scalar::from_bytes(&(*bytes).into())) {
        Some(s) => Some(Scalar { bytes: s.to_bytes().into() }),
        None => None,
    }
}

/// `From<u64>` of `sm2::Scalar`: the scalar of a number below 2^64 is that number.
#[verifier::external_body]
fn scalar_from_u64(value: u64) -> (r: Scalar)
    ensures
        r@ == value,
{
    Scalar { bytes: sm2::Scalar::from(value).to_bytes().into() }
}

/// `Field::random` of `sm2::Scalar`, which draws 32 bytes from `rng` until
/// they encode a residue, and does not come back while `rng` gives no such
/// bytes. Which residue comes back is not stated.
#[verifier::external_body]
fn scalar_random<R: rand::Rng>(rng: &mut R) -> (r: Scalar)
    ensures
        r@ < order(),
{
    let drawn = <sm2::Scalar as sm2::elliptic_curve::ff::Field>::random(rng);
    Scalar { bytes: drawn.to_bytes().into() }
}

/// `+` of `sm2::Scalar`: addition modulo the order.
#[verifier::external_body]
fn scalar_add(a: &Scalar, b: &Scalar) -> (r: Scalar)
    requires
        a.is_residue(),
        b.is_residue(),
    ensures
        r@ == field_add(a@, b@),
{
    let x = sm2::Scalar::from_bytes(&a.bytes.into()).unwrap();
    let y = sm2::Scalar::from_bytes(&b.bytes.into()).unwrap();
    Scalar { bytes: (x + y).to_bytes().into() }
}

/// `-` of `sm2::Scalar`: subtraction modulo the order.
#[verifier::external_body]
fn scalar_sub(a: &Scalar, b: &Scalar) -> (r: Scalar)
    requires
        a.is_residue(),
        b.is_residue(),
    ensures
        r@ == field_sub(a@, b@),
{
    let x = sm2::Scalar::from_bytes(&a.bytes.into()).unwrap();
    let y = sm2::Scalar::from_bytes(&b.bytes.into()).unwrap();
    Scalar { bytes: (x - y).to_bytes().into() }
}

/// `*` of `sm2::Scalar`: multiplication modulo the order.
#[verifier::external_body]
fn scalar_mul(a: &Scalar, b: &Scalar) -> (r: Scalar)
    requires
        a.is_residue(),
        b.is_residue(),
    ensures
        r@ == field_mul(a@, b@),
{
    let x = sm2::Scalar::from_bytes(&a.bytes.into()).unwrap();
    let y = sm2::Scalar::from_bytes(&b.bytes.into()).unwrap();
    Scalar { bytes: (x * y).to_bytes().into() }
}

/// `Field::pow` of `sm2::Scalar` with an exponent of one limb: square and
/// multiply from one, so the power with exponent zero is one.
#[verifier::external_body]
fn scalar_pow(a: &Scalar, exponent: u64) -> (r: Scalar)
    requires
        a.is_residue(),
    ensures
        r@ == field_pow(a@, exponent as nat),
{
    let x = sm2::Scalar::from_bytes(&a.bytes.into()).unwrap();
    let y = sm2::elliptic_curve::ff::Field::pow(&x, [exponent, 0, 0, 0]);
    Scalar { bytes: y.to_bytes().into() }
}

/// `Scalar::invert` of `sm2`: none for zero, and for any other scalar the
/// residue whose product with it is one.
#[verifier::external_body]
fn scalar_invert(a: &Scalar) -> (r: Option<Scalar>)
    requires
        a.is_residue(),
    ensures
        r.is_some() <==> a@ != 0,
        r matches Some(inverse) ==> is_inverse_of(a@, inverse@),
{
    let x = sm2::Scalar::from_bytes(&a.bytes.into()).unwrap();
    match Option::<sm2::Scalar>::from(x.invert()) {
        Some(y) => Some(Scalar { bytes: y.to_bytes().into() }),
        None => None,
    }
}

} // verus!
