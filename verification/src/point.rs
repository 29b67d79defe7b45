//! Points of the SM2 curve.
//!
//! The group of points has prime order and is generated by the base point G, so
//! each point is [k]G for exactly one k below `order()`. The contracts speak of
//! a point through that k: adding points adds the k's, multiplying a point by a
//! scalar multiplies its k. The arithmetic itself is that of the `sm2` crate:
//! each operation is a private function whose body makes the call and whose
//! contract, taken on trust, states the k of the result. Each of these
//! functions decodes the bytes of its arguments, which never fails: that the
//! bytes encode a point is the invariant of the type, and what the function
//! requires.

use crate::field::{field_add, field_mul, order};
use crate::scalar::{be_value, Scalar};
use sm2::elliptic_curve::group::GroupEncoding;
use vstd::prelude::*;

verus! {

/// For the 33 bytes that `GroupEncoding::to_bytes` of `sm2::ProjectivePoint`
/// gives for the point [k]G, with k below `order()`: that k. For any other
/// sequence of bytes: a number that is not below `order()`.
pub uninterp spec fn discrete_log(encoding: Seq<u8>) -> nat;

/// A point of the curve, held in its compressed encoding.
#[derive(Clone, Copy, Debug, PartialEq, Eq)]
pub struct Point {
    bytes: [u8; 33],
}

/// The logarithms of a sequence of points, in their order.
pub open spec fn point_values(points: Seq<Point>) -> Seq<nat> {
    Seq::new(points.len(), |i: int| points[i]@)
}

impl Point {
    /// The k below `order()` for which the point is [k]G.
    pub closed spec fn view(&self) -> nat {
        discrete_log(self.bytes@)
    }

    /// What holds of every point: its bytes encode a multiple of G.
    #[verifier::type_invariant]
    pub closed spec fn is_point(self) -> bool {
        discrete_log(self.bytes@) < order()
    }

    /// The base point G.
    pub fn generator() -> (r: Point)
        ensures
            r@ == 1,
    {
        point_generator()
    }

    /// The neutral element of the group.
    pub fn identity() -> (r: Point)
        ensures
            r@ == 0,
    {
        point_identity()
    }

    /// The sum of two points.
    pub fn add(&self, other: &Point) -> (r: Point)
        ensures
            r@ == field_add(self@, other@),
    {
        proof {
            use_type_invariant(self);
            use_type_invariant(other);
        }
        point_add(self, other)
    }

    /// The point multiplied by a scalar.
    pub fn mul(&self, k: &Scalar) -> (r: Point)
        ensures
            r@ == field_mul(self@, k@),
    {
        let bytes = k.to_bytes();
        proof {
            use_type_invariant(self);
            use_type_invariant(k);
            k.lemma_residue();
        }
        point_mul(self, &bytes)
    }

    /// Whether two points are the same element of the group.
    pub fn equals(&self, other: &Point) -> (r: bool)
        ensures
            r == (self@ == other@),
    {
        proof {
            use_type_invariant(self);
            use_type_invariant(other);
        }
        point_eq(self, other)
    }

    /// The point with the given compressed encoding, where the bytes are the
    /// encoding of a point.
    pub fn from_bytes(bytes: &[u8; 33]) -> (r: Option<Point>)
        ensures
            r.is_some() <==> discrete_log(bytes@) < order(),
            r matches Some(point) ==> point@ == discrete_log(bytes@),
    {
        match point_decode(bytes) {
            None => None,
            Some(point) => {
                if same_bytes(&point.bytes, bytes) {
                    Some(point)
                } else {
                    None
                }
            },
        }
    }

    /// The compressed encoding: 33 bytes.
    pub fn to_bytes(&self) -> (r: [u8; 33])
        ensures
            discrete_log(r@) == self@,
    {
        self.bytes
    }
}

/// Whether two encodings are the same, byte for byte.
fn same_bytes(a: &[u8; 33], b: &[u8; 33]) -> (r: bool)
    ensures
        r == (a@ == b@),
{
    let mut i: usize = 0;
    while i < 33
        invariant
            i <= 33,
            forall|k: int| 0 <= k < i ==> a@[k] == b@[k],
        decreases 33 - i,
    {
        if a[i] != b[i] {
            return false;
        }
        i += 1;
    }
    assert(a@ =~= b@);
    true
}

/// `GroupEncoding::from_bytes` of `sm2::ProjectivePoint`, and `to_bytes` of
/// what it gives: the encoding of a point decodes and encodes to itself, and
/// whatever else decodes encodes to the encoding of a point.
#[verifier::external_body]
fn point_decode(bytes: &[u8; 33]) -> (r: Option<Point>)
    ensures
        discrete_log(bytes@) < order() ==> r == Some(Point { bytes: *bytes }),
        r matches Some(point) ==> discrete_log(point.bytes@) < order(),
{
    match Option::<sm2::ProjectivePoint>::from(
        sm2::ProjectivePoint::from_bytes((&bytes[..]).into()),
    ) {
        Some(p) => Some(Point { bytes: p.to_bytes()[..].try_into().unwrap() }),
        None => None,
    }
}

/// `ProjectivePoint::GENERATOR` of `sm2`: the base point, which is [1]G.
#[verifier::external_body]
fn point_generator() -> (r: Point)
    ensures
        discrete_log(r.bytes@) == 1,
{
    Point { bytes: sm2::ProjectivePoint::GENERATOR.to_bytes()[..].try_into().unwrap() }
}

/// `ProjectivePoint::IDENTITY` of `sm2`: the point at infinity, which is [0]G.
#[verifier::external_body]
fn point_identity() -> (r: Point)
    ensures
        discrete_log(r.bytes@) == 0,
{
    Point { bytes: sm2::ProjectivePoint::IDENTITY.to_bytes()[..].try_into().unwrap() }
}

/// `+` of `sm2::ProjectivePoint`, the addition of the group: [j]G + [k]G is
/// [j + k]G, and the order of G is `order()`.
#[verifier::external_body]
fn point_add(a: &Point, b: &Point) -> (r: Point)
    requires
        a.is_point(),
        b.is_point(),
    ensures
        discrete_log(r.bytes@) == field_add(discrete_log(a.bytes@), discrete_log(b.bytes@)),
{
    let x = sm2::ProjectivePoint::from_bytes((&a.bytes[..]).into()).unwrap();
    let y = sm2::ProjectivePoint::from_bytes((&b.bytes[..]).into()).unwrap();
    Point { bytes: (x + y).to_bytes()[..].try_into().unwrap() }
}

/// `*` of `sm2::ProjectivePoint` by `sm2::Scalar`: s times [j]G is [j s]G.
/// The scalar comes as its 32 bytes, which write a residue.
#[verifier::external_body]
fn point_mul(a: &Point, k: &[u8; 32]) -> (r: Point)
    requires
        a.is_point(),
        be_value(k@) < order(),
    ensures
        discrete_log(r.bytes@) == field_mul(discrete_log(a.bytes@), be_value(k@)),
{
    let x = sm2::ProjectivePoint::from_bytes((&a.bytes[..]).into()).unwrap();
    let s = sm2::Scalar::from_bytes(&(*k).into()).unwrap();
    Point { bytes: (x * s).to_bytes()[..].try_into().unwrap() }
}

/// `==` of `sm2::ProjectivePoint`: [j]G and [k]G, with j and k below the order
/// of G, are the same point only where j is k.
#[verifier::external_body]
fn point_eq(a: &Point, b: &Point) -> (r: bool)
    requires
        a.is_point(),
        b.is_point(),
    ensures
        r == (discrete_log(a.bytes@) == discrete_log(b.bytes@)),
{
    let x = sm2::ProjectivePoint::from_bytes((&a.bytes[..]).into()).unwrap();
    let y = sm2::ProjectivePoint::from_bytes((&b.bytes[..]).into()).unwrap();
    x == y
}

} // verus!
