//! Polynomials over the scalar field: evaluation and the two commitments to
//! the coefficients.

use crate::field::{
    field_add, field_mul, field_pow, field_sub, lemma_field_add_associative,
    lemma_field_add_commutative, lemma_field_add_interchange, lemma_field_add_reduces,
    lemma_field_add_zero, lemma_field_mul_associative, lemma_field_mul_commutative,
    lemma_field_mul_distributes_over_add, lemma_field_mul_one, lemma_field_mul_reduces,
    lemma_field_mul_zero, lemma_field_residues, lemma_field_sub_then_add, order,
};
use crate::point::{point_values, Point};
use crate::scalar::{scalar_values, Scalar};
use vstd::prelude::*;

verus! {

/// The value at `x` of the polynomial with the coefficients `coeffs`, the
/// constant term first: the sum of `coeffs[i]` times `x` to the power `i`.
pub open spec fn poly_eval(coeffs: Seq<nat>, x: nat) -> nat
    decreases coeffs.len(),
{
    if coeffs.len() == 0 {
        0
    } else {
        field_add(
            poly_eval(coeffs.drop_last(), x),
            field_mul(coeffs.last(), field_pow(x, (coeffs.len() - 1) as nat)),
        )
    }
}

/// The commitments to `coeffs` under the generator with logarithm `g`: the
/// point `g` times `coeffs[i]` for each `i`.
pub open spec fn feldman_commitments(g: nat, coeffs: Seq<nat>) -> Seq<nat> {
    Seq::new(coeffs.len(), |i: int| field_mul(g, coeffs[i]))
}

/// The commitments to `coeffs` with the blinding factors `blinding`: the point
/// `g` times `coeffs[i]` plus `h` times `blinding[i]` for each `i`.
pub open spec fn pedersen_commitments(g: nat, h: nat, coeffs: Seq<nat>, blinding: Seq<nat>) -> Seq<
    nat,
> {
    Seq::new(
        coeffs.len(),
        |i: int| field_add(field_mul(g, coeffs[i]), field_mul(h, blinding[i])),
    )
}

/// The value of a polynomial is a residue.
pub proof fn lemma_poly_eval_is_residue(coeffs: Seq<nat>, x: nat)
    ensures
        poly_eval(coeffs, x) < order(),
{
    if coeffs.len() > 0 {
        lemma_field_residues(
            poly_eval(coeffs.drop_last(), x),
            field_mul(coeffs.last(), field_pow(x, (coeffs.len() - 1) as nat)),
        );
    }
}

/// Horner's step: a polynomial is its constant term plus `x` times the
/// polynomial of the other coefficients.
pub proof fn lemma_poly_eval_horner(c: nat, rest: Seq<nat>, x: nat)
    ensures
        poly_eval(seq![c] + rest, x) == field_add(c, field_mul(x, poly_eval(rest, x))),
    decreases rest.len(),
{
    let all = seq![c] + rest;
    if rest.len() == 0 {
        assert(all.drop_last() =~= Seq::<nat>::empty());
        assert(all.last() == c);
        assert(poly_eval(Seq::<nat>::empty(), x) == 0);
        assert(field_pow(x, 0) == 1);
        assert(poly_eval(all, x) == field_add(0, field_mul(c, 1)));
        lemma_field_mul_one(c);
        lemma_field_add_reduces(0, c);
        lemma_field_add_zero(c);
        lemma_field_mul_zero(x);
    } else {
        let front = rest.drop_last();
        let top = rest.last();
        let k = (rest.len() - 1) as nat;
        let low = poly_eval(front, x);
        let high = field_mul(top, field_pow(x, k));
        let higher = field_mul(top, field_pow(x, k + 1));
        assert(all.drop_last() =~= seq![c] + front);
        assert(all.last() == top);
        lemma_poly_eval_horner(c, front, x);
        assert(poly_eval(all, x) == field_add(field_add(c, field_mul(x, low)), higher));
        lemma_field_add_associative(c, field_mul(x, low), higher);
        assert(field_mul(x, high) == higher) by {
            lemma_field_mul_associative(x, top, field_pow(x, k));
            lemma_field_mul_commutative(x, top);
            lemma_field_mul_associative(top, x, field_pow(x, k));
            assert(field_pow(x, k + 1) == field_mul(x, field_pow(x, k)));
        }
        assert(poly_eval(rest, x) == field_add(low, high));
        lemma_field_mul_distributes_over_add(x, low, high);
    }
}

/// The value of a polynomial at zero is its constant term.
pub proof fn lemma_poly_eval_at_zero(coeffs: Seq<nat>)
    requires
        coeffs.len() >= 1,
    ensures
        poly_eval(coeffs, 0) == coeffs[0] % order(),
{
    let rest = coeffs.drop_first();
    assert(coeffs =~= seq![coeffs[0]] + rest);
    lemma_poly_eval_horner(coeffs[0], rest, 0);
    lemma_field_mul_zero(poly_eval(rest, 0));
    lemma_field_add_zero(coeffs[0]);
}

/// A polynomial with one coefficient has the same value everywhere.
pub proof fn lemma_poly_eval_constant(coeffs: Seq<nat>, x: nat, z: nat)
    requires
        coeffs.len() == 1,
    ensures
        poly_eval(coeffs, x) == poly_eval(coeffs, z),
{
    assert(coeffs.drop_last() =~= Seq::<nat>::empty());
    assert(poly_eval(Seq::<nat>::empty(), x) == 0);
    assert(poly_eval(Seq::<nat>::empty(), z) == 0);
    assert(field_pow(x, 0) == 1);
    assert(field_pow(z, 0) == 1);
}

/// The coefficients of the quotient of the polynomial by `x - b`, the
/// constant term first.
pub open spec fn poly_quotient(coeffs: Seq<nat>, b: nat) -> Seq<nat>
    decreases coeffs.len(),
{
    if coeffs.len() <= 1 {
        Seq::empty()
    } else {
        seq![poly_eval(coeffs.drop_first(), b)] + poly_quotient(coeffs.drop_first(), b)
    }
}

/// The quotient has one coefficient fewer than the polynomial.
pub proof fn lemma_poly_quotient_len(coeffs: Seq<nat>, b: nat)
    ensures
        coeffs.len() >= 1 ==> poly_quotient(coeffs, b).len() == coeffs.len() - 1,
        coeffs.len() == 0 ==> poly_quotient(coeffs, b).len() == 0,
    decreases coeffs.len(),
{
    if coeffs.len() > 1 {
        lemma_poly_quotient_len(coeffs.drop_first(), b);
    }
}

/// The quotient has the highest coefficient of the polynomial.
pub proof fn lemma_poly_quotient_last(coeffs: Seq<nat>, b: nat)
    requires
        coeffs.len() >= 2,
    ensures
        poly_quotient(coeffs, b).len() == coeffs.len() - 1,
        poly_quotient(coeffs, b).last() == coeffs.last() % order(),
    decreases coeffs.len(),
{
    let rest = coeffs.drop_first();
    lemma_poly_quotient_len(coeffs, b);
    if coeffs.len() == 2 {
        assert(poly_quotient(rest, b) =~= Seq::<nat>::empty());
        assert(poly_quotient(coeffs, b) =~= seq![poly_eval(rest, b)]);
        lemma_poly_eval_constant(rest, b, 0);
        lemma_poly_eval_at_zero(rest);
    } else {
        lemma_poly_quotient_last(rest, b);
        assert(rest.last() == coeffs.last());
    }
}

/// Division by `x - b`: the value at `x` is the value at `b` plus `x - b`
/// times the value of the quotient at `x`.
pub proof fn lemma_poly_division(coeffs: Seq<nat>, b: nat, x: nat)
    ensures
        poly_eval(coeffs, x) == field_add(
            poly_eval(coeffs, b),
            field_mul(field_sub(x, b), poly_eval(poly_quotient(coeffs, b), x)),
        ),
    decreases coeffs.len(),
{
    let d = field_sub(x, b);
    let quotient = poly_quotient(coeffs, b);
    if coeffs.len() <= 1 {
        assert(poly_eval(quotient, x) == 0);
        lemma_field_mul_zero(d);
        lemma_poly_eval_is_residue(coeffs, b);
        lemma_field_add_zero(poly_eval(coeffs, b));
        if coeffs.len() == 1 {
            lemma_poly_eval_constant(coeffs, x, b);
        }
    } else {
        let c = coeffs[0];
        let rest = coeffs.drop_first();
        let rest_x = poly_eval(rest, x);
        let rest_b = poly_eval(rest, b);
        let inner = poly_quotient(rest, b);
        let inner_x = poly_eval(inner, x);
        assert(coeffs =~= seq![c] + rest);
        lemma_poly_eval_horner(c, rest, x);
        lemma_poly_eval_horner(c, rest, b);
        lemma_poly_eval_horner(rest_b, inner, x);
        lemma_poly_division(rest, b, x);
        // the left side: c + x (rest(b) + d inner(x)) = c + (x rest(b) + d (x inner(x)))
        lemma_field_mul_distributes_over_add(x, rest_b, field_mul(d, inner_x));
        lemma_field_mul_associative(x, d, inner_x);
        lemma_field_mul_commutative(x, d);
        lemma_field_mul_associative(d, x, inner_x);
        let crossed = field_mul(d, field_mul(x, inner_x));
        assert(poly_eval(coeffs, x) == field_add(c, field_add(field_mul(x, rest_b), crossed)));
        // the right side: (c + b rest(b)) + d (rest(b) + x inner(x))
        lemma_field_mul_distributes_over_add(d, rest_b, field_mul(x, inner_x));
        lemma_field_add_associative(
            c,
            field_mul(b, rest_b),
            field_add(field_mul(d, rest_b), crossed),
        );
        lemma_field_add_associative(field_mul(b, rest_b), field_mul(d, rest_b), crossed);
        lemma_field_mul_distributes_over_add(rest_b, b, d);
        lemma_field_sub_then_add(x, b);
        lemma_field_mul_reduces(x, rest_b);
    }
}

/// The Feldman commitments evaluated at any `x` are `g` times the value of the
/// polynomial at `x`.
pub proof fn lemma_feldman_commitments_follow_polynomial(g: nat, coeffs: Seq<nat>, x: nat)
    ensures
        poly_eval(feldman_commitments(g, coeffs), x) == field_mul(g, poly_eval(coeffs, x)),
    decreases coeffs.len(),
{
    let commitments = feldman_commitments(g, coeffs);
    if coeffs.len() == 0 {
        lemma_field_mul_zero(g);
    } else {
        let power = field_pow(x, (coeffs.len() - 1) as nat);
        assert(commitments.drop_last() =~= feldman_commitments(g, coeffs.drop_last()));
        lemma_feldman_commitments_follow_polynomial(g, coeffs.drop_last(), x);
        lemma_field_mul_associative(g, coeffs.last(), power);
        lemma_field_mul_distributes_over_add(
            g,
            poly_eval(coeffs.drop_last(), x),
            field_mul(coeffs.last(), power),
        );
    }
}

/// The Pedersen commitments evaluated at any `x` are `g` times the value of
/// the polynomial at `x` plus `h` times the value of the blinding polynomial.
pub proof fn lemma_pedersen_commitments_follow_polynomials(
    g: nat,
    h: nat,
    coeffs: Seq<nat>,
    blinding: Seq<nat>,
    x: nat,
)
    requires
        blinding.len() == coeffs.len(),
    ensures
        poly_eval(pedersen_commitments(g, h, coeffs, blinding), x) == field_add(
            field_mul(g, poly_eval(coeffs, x)),
            field_mul(h, poly_eval(blinding, x)),
        ),
    decreases coeffs.len(),
{
    let commitments = pedersen_commitments(g, h, coeffs, blinding);
    if coeffs.len() == 0 {
        lemma_field_mul_zero(g);
        lemma_field_mul_zero(h);
        lemma_field_add_zero(0);
    } else {
        let power = field_pow(x, (coeffs.len() - 1) as nat);
        let c = coeffs.last();
        let r = blinding.last();
        let lower = poly_eval(coeffs.drop_last(), x);
        let lower_blinding = poly_eval(blinding.drop_last(), x);
        assert(commitments.drop_last() =~= pedersen_commitments(
            g,
            h,
            coeffs.drop_last(),
            blinding.drop_last(),
        ));
        assert(commitments.last() == field_add(field_mul(g, c), field_mul(h, r)));
        lemma_pedersen_commitments_follow_polynomials(
            g,
            h,
            coeffs.drop_last(),
            blinding.drop_last(),
            x,
        );
        // (g c + h r) x^k = g (c x^k) + h (r x^k)
        lemma_field_mul_distributes_over_add(power, field_mul(g, c), field_mul(h, r));
        lemma_field_mul_associative(g, c, power);
        lemma_field_mul_associative(h, r, power);
        lemma_field_add_interchange(
            field_mul(g, lower),
            field_mul(h, lower_blinding),
            field_mul(g, field_mul(c, power)),
            field_mul(h, field_mul(r, power)),
        );
        lemma_field_mul_distributes_over_add(g, lower, field_mul(c, power));
        lemma_field_mul_distributes_over_add(h, lower_blinding, field_mul(r, power));
    }
}

/// A polynomial over the scalar field: its coefficients, the constant term first.
#[derive(Clone, Debug)]
pub struct Polynomial {
    coefficients: Vec<Scalar>,
}

impl Polynomial {
    /// The coefficients as residues, the constant term first.
    pub closed spec fn view(&self) -> Seq<nat> {
        scalar_values(self.coefficients@)
    }

    /// A polynomial of the given degree whose constant term is `secret` and
    /// whose other coefficients are drawn from `rng`.
    pub fn new<R: rand::Rng>(secret: Scalar, degree: usize, rng: &mut R) -> (r: Polynomial)
        ensures
            r@.len() == degree + 1,
            r@[0] == secret@,
            forall|i: int| 0 <= i < r@.len() ==> r@[i] < order(),
    {
        let mut coefficients: Vec<Scalar> = Vec::new();
        coefficients.push(secret);
        proof {
            use_type_invariant(&secret);
            secret.lemma_residue();
        }
        let mut i: usize = 0;
        while i < degree
            invariant
                i <= degree,
                coefficients@.len() == i + 1,
                coefficients@[0] == secret,
                forall|k: int| 0 <= k < coefficients@.len() ==> coefficients@[k]@ < order(),
            decreases degree - i,
        {
            let c = Scalar::random(rng);
            coefficients.push(c);
            i += 1;
        }
        Polynomial { coefficients }
    }

    /// The polynomial with the given coefficients, the constant term first.
    pub fn from_coefficients(coefficients: Vec<Scalar>) -> (r: Polynomial)
        ensures
            r@ == scalar_values(coefficients@),
    {
        Polynomial { coefficients }
    }

    /// The coefficients, the constant term first.
    pub fn coefficients(&self) -> (r: &Vec<Scalar>)
        ensures
            scalar_values(r@) == self@,
    {
        &self.coefficients
    }

    /// The value of the polynomial at `x`, by Horner's rule.
    pub fn evaluate(&self, x: Scalar) -> (r: Scalar)
        ensures
            r@ == poly_eval(self@, x@),
    {
        let n = self.coefficients.len();
        let mut acc = Scalar::zero();
        let mut k = n;
        assert(self@.subrange(n as int, n as int) =~= Seq::<nat>::empty());
        while k > 0
            invariant
                k <= n,
                n == self.coefficients.len(),
                acc@ == poly_eval(self@.subrange(k as int, n as int), x@),
            decreases k,
        {
            k -= 1;
            let c = self.coefficients[k];
            proof {
                let rest = self@.subrange(k + 1, n as int);
                assert(self@.subrange(k as int, n as int) =~= seq![c@] + rest);
                lemma_poly_eval_horner(c@, rest, x@);
                lemma_field_mul_commutative(acc@, x@);
                lemma_field_add_commutative(field_mul(acc@, x@), c@);
            }
            acc = acc.mul(&x).add(&c);
        }
        assert(self@.subrange(0, n as int) =~= self@);
        acc
    }

    /// The Feldman commitments to the coefficients: `g` times each of them.
    pub fn feldman_commit(&self, g: Point) -> (r: Vec<Point>)
        ensures
            point_values(r@) == feldman_commitments(g@, self@),
    {
        let n = self.coefficients.len();
        let mut commitments: Vec<Point> = Vec::new();
        let mut i: usize = 0;
        while i < n
            invariant
                i <= n,
                n == self.coefficients.len(),
                commitments@.len() == i,
                forall|k: int| 0 <= k < i ==> commitments@[k]@ == field_mul(g@, self@[k]),
            decreases n - i,
        {
            commitments.push(g.mul(&self.coefficients[i]));
            i += 1;
        }
        assert(point_values(commitments@) =~= feldman_commitments(g@, self@));
        commitments
    }

    /// The Pedersen commitments to the coefficients: `g` times each of them
    /// plus `h` times a blinding factor drawn from `rng`. The blinding factors
    /// come back as a polynomial, in the order of the coefficients.
    pub fn pedersen_commit<R: rand::Rng>(&self, g: Point, h: Point, rng: &mut R) -> (r: (
        Vec<Point>,
        Polynomial,
    ))
        ensures
            r.1@.len() == self@.len(),
            forall|i: int| 0 <= i < r.1@.len() ==> r.1@[i] < order(),
            point_values(r.0@) == pedersen_commitments(g@, h@, self@, r.1@),
    {
        let n = self.coefficients.len();
        let mut commitments: Vec<Point> = Vec::new();
        let mut blinding_factors: Vec<Scalar> = Vec::new();
        let mut i: usize = 0;
        while i < n
            invariant
                i <= n,
                n == self.coefficients.len(),
                commitments@.len() == i,
                blinding_factors@.len() == i,
                forall|k: int| 0 <= k < i ==> blinding_factors@[k]@ < order(),
                forall|k: int|
                    0 <= k < i ==> commitments@[k]@ == field_add(
                        field_mul(g@, self@[k]),
                        field_mul(h@, blinding_factors@[k]@),
                    ),
            decreases n - i,
        {
            let blinding = Scalar::random(rng);
            let commitment = g.mul(&self.coefficients[i]).add(&h.mul(&blinding));
            blinding_factors.push(blinding);
            commitments.push(commitment);
            i += 1;
        }
        let blinding_poly = Polynomial { coefficients: blinding_factors };
        assert(point_values(commitments@) =~= pedersen_commitments(
            g@,
            h@,
            self@,
            blinding_poly@,
        ));
        (commitments, blinding_poly)
    }
}

} // verus!
