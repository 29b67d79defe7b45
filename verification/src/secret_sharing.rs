//! Threshold secret sharing: making shares of a secret, reconstructing the
//! secret from shares, and checking a share against published commitments.

use crate::certificate::lemma_residues_form_a_field;
use crate::field::{
    field_add, field_mul, field_sum, is_unit, lemma_field_add_cancel, lemma_field_add_commutative,
    lemma_field_inv_unique, lemma_field_mul_cancel, lemma_field_mul_commutative,
    lemma_field_mul_zero, lemma_field_residues, lemma_field_sub_of_zero, lemma_field_sum_push,
    lemma_field_sum_tells_terms_apart, lemma_zero_and_one, order,
};
use crate::interpolation::{
    are_distinct, are_nonzero, are_residues, denominator_upto, interpolate_at_zero, is_singular,
    lagrange_basis, lagrange_denominator, lagrange_terms, lemma_basis_is_unit,
    lemma_interpolation_recovers_value_at_zero, lemma_interpolation_with_one_point_too_few,
    lemma_product_of_negatives_is_unit, lemma_unit_denominators_of_distinct_points, numerator_upto,
    poly_values, product_of_negatives,
};
use crate::point::{point_values, Point};
use crate::polynomial::{
    feldman_commitments, lemma_feldman_commitments_follow_polynomial,
    lemma_pedersen_commitments_follow_polynomials, lemma_poly_eval_at_zero, pedersen_commitments,
    poly_eval, Polynomial,
};
use crate::scalar::Scalar;
use vstd::prelude::*;

verus! {

/// Why a request was refused.
#[derive(Clone, Copy, Debug, PartialEq, Eq)]
pub enum SecretSharingError {
    /// The threshold was zero: there is no polynomial of degree minus one.
    DegreeUnderflow,
    /// A share has the index zero, or two shares have the same index: the
    /// denominator of a Lagrange basis value would be zero.
    SingularInterpolation,
    /// There are fewer shares than the threshold that the caller named.
    InsufficientShares,
}

/// The indices of a sequence of shares.
pub open spec fn indices_of(points: Seq<(nat, nat)>) -> Seq<nat> {
    Seq::new(points.len(), |i: int| points[i].0)
}

/// The values of a sequence of shares.
pub open spec fn values_of(points: Seq<(nat, nat)>) -> Seq<nat> {
    Seq::new(points.len(), |i: int| points[i].1)
}

/// What reconstruction makes of a sequence of shares: the interpolated value
/// at zero, unless the interpolation is singular.
pub open spec fn reconstruction(points: Seq<(nat, nat)>) -> Result<nat, SecretSharingError> {
    if is_singular(indices_of(points)) {
        Err(SecretSharingError::SingularInterpolation)
    } else {
        Ok(interpolate_at_zero(indices_of(points), values_of(points)))
    }
}

/// What reconstruction makes of a sequence of shares for a caller who names
/// the threshold `t`: fewer shares than that are refused.
pub open spec fn reconstruction_with_threshold(points: Seq<(nat, nat)>, t: nat) -> Result<
    nat,
    SecretSharingError,
> {
    if points.len() < t {
        Err(SecretSharingError::InsufficientShares)
    } else {
        reconstruction(points)
    }
}

/// The shares of the polynomial with the coefficients `coeffs` for `n`
/// parties: party `i`, counted from zero, has the index `i + 1` and the value
/// of the polynomial there.
pub open spec fn shares_of(coeffs: Seq<nat>, n: nat) -> Seq<(nat, nat)> {
    Seq::new(n, |i: int| ((i + 1) as nat, poly_eval(coeffs, (i + 1) as nat)))
}

/// The shares as pairs of residues.
pub open spec fn share_points(shares: Seq<(Scalar, Scalar)>) -> Seq<(nat, nat)> {
    Seq::new(shares.len(), |i: int| (shares[i].0@, shares[i].1@))
}

/// `coeffs` are the coefficients of a polynomial that shares `secret` with
/// the threshold `t`: there are `t` of them, all residues, and the constant
/// term is the secret.
pub open spec fn is_sharing_polynomial(coeffs: Seq<nat>, secret: nat, t: nat) -> bool {
    &&& coeffs.len() == t
    &&& t >= 1
    &&& coeffs[0] == secret
    &&& forall|i: int| 0 <= i < coeffs.len() ==> coeffs[i] < order()
}

/// The shares of `poly` for `n` parties, at the indices 1 to `n`.
pub fn shares_of_polynomial(poly: &Polynomial, n: usize) -> (r: Vec<(Scalar, Scalar)>)
    ensures
        share_points(r@) == shares_of(poly@, n as nat),
{
    let mut shares: Vec<(Scalar, Scalar)> = Vec::new();
    let mut i: usize = 0;
    while i < n
        invariant
            i <= n,
            shares@.len() == i,
            forall|k: int|
                0 <= k < i ==> (#[trigger] shares@[k]).0@ == k + 1 && shares@[k].1@ == poly_eval(
                    poly@,
                    (k + 1) as nat,
                ),
        decreases n - i,
    {
        let x = Scalar::from_u64((i + 1) as u64);
        let y = poly.evaluate(x);
        shares.push((x, y));
        i += 1;
    }
    assert(share_points(shares@) =~= shares_of(poly@, n as nat));
    shares
}

/// Splits `secret` into `n` shares of which `t` give it back: the shares of a
/// polynomial of degree `t - 1` whose constant term is the secret and whose
/// other coefficients are drawn from `rng`. A threshold of zero is refused.
/// With `n` below `t` the `n` shares are made all the same, and they do not
/// give the secret back.
pub fn generate_shares<R: rand::Rng>(secret: Scalar, n: usize, t: usize, rng: &mut R) -> (r: Result<
    Vec<(Scalar, Scalar)>,
    SecretSharingError,
>)
    ensures
        t == 0 ==> r == Err::<Vec<(Scalar, Scalar)>, SecretSharingError>(
            SecretSharingError::DegreeUnderflow,
        ),
        t > 0 ==> r.is_ok(),
        r matches Ok(shares) ==> exists|coeffs: Seq<nat>|
            #[trigger] is_sharing_polynomial(coeffs, secret@, t as nat) && share_points(shares@)
                == shares_of(coeffs, n as nat),
{
    if t == 0 {
        return Err(SecretSharingError::DegreeUnderflow);
    }
    let poly = Polynomial::new(secret, t - 1, rng);
    let shares = shares_of_polynomial(&poly, n);
    assert(is_sharing_polynomial(poly@, secret@, t as nat));
    Ok(shares)
}

/// As `generate_shares`, with the Feldman commitments to the coefficients of
/// the polynomial under the generator `g`.
pub fn generate_shares_with_feldman_vss<R: rand::Rng>(
    secret: Scalar,
    n: usize,
    t: usize,
    g: Point,
    rng: &mut R,
) -> (r: Result<(Vec<(Scalar, Scalar)>, Vec<Point>), SecretSharingError>)
    ensures
        t == 0 ==> r == Err::<(Vec<(Scalar, Scalar)>, Vec<Point>), SecretSharingError>(
            SecretSharingError::DegreeUnderflow,
        ),
        t > 0 ==> r.is_ok(),
        r matches Ok(dealt) ==> exists|coeffs: Seq<nat>|
            #[trigger] is_sharing_polynomial(coeffs, secret@, t as nat) && share_points(dealt.0@)
                == shares_of(coeffs, n as nat) && point_values(dealt.1@) == feldman_commitments(
                g@,
                coeffs,
            ),
{
    if t == 0 {
        return Err(SecretSharingError::DegreeUnderflow);
    }
    let poly = Polynomial::new(secret, t - 1, rng);
    let commitments = poly.feldman_commit(g);
    let shares = shares_of_polynomial(&poly, n);
    assert(is_sharing_polynomial(poly@, secret@, t as nat));
    Ok((shares, commitments))
}

/// As `generate_shares`, with the Pedersen commitments to the coefficients of
/// the polynomial under the generators `g` and `h`, and the polynomial of the
/// blinding factors.
pub fn generate_shares_with_pedersen_vss<R: rand::Rng>(
    secret: Scalar,
    n: usize,
    t: usize,
    g: Point,
    h: Point,
    rng: &mut R,
) -> (r: Result<(Vec<(Scalar, Scalar)>, Vec<Point>, Polynomial), SecretSharingError>)
    ensures
        t == 0 ==> r == Err::<(Vec<(Scalar, Scalar)>, Vec<Point>, Polynomial), SecretSharingError>(
            SecretSharingError::DegreeUnderflow,
        ),
        t > 0 ==> r.is_ok(),
        r matches Ok(dealt) ==> exists|coeffs: Seq<nat>|
            #[trigger] is_sharing_polynomial(coeffs, secret@, t as nat) && share_points(dealt.0@)
                == shares_of(coeffs, n as nat) && dealt.2@.len() == t && (forall|i: int|
                0 <= i < t ==> dealt.2@[i] < order()) && point_values(dealt.1@)
                == pedersen_commitments(g@, h@, coeffs, dealt.2@),
{
    if t == 0 {
        return Err(SecretSharingError::DegreeUnderflow);
    }
    let poly = Polynomial::new(secret, t - 1, rng);
    let (commitments, blinding_poly) = poly.pedersen_commit(g, h, rng);
    let shares = shares_of_polynomial(&poly, n);
    assert(is_sharing_polynomial(poly@, secret@, t as nat));
    Ok((shares, commitments, blinding_poly))
}

/// The secret that the shares determine: the value at zero of the polynomial
/// of least degree through them, by Lagrange interpolation.
///
/// Shares of one polynomial give its constant term only where there are at
/// least as many of them as the polynomial has coefficients; with fewer the
/// result is some other residue, and nothing here can tell.
pub fn reconstruct_secret(shares: &[(Scalar, Scalar)]) -> (r: Result<Scalar, SecretSharingError>)
    ensures
        match r {
            Ok(secret) => reconstruction(share_points(shares@)) == Ok::<nat, SecretSharingError>(
                secret@,
            ),
            Err(e) => reconstruction(share_points(shares@)) == Err::<nat, SecretSharingError>(e),
        },
{
    let ghost xs = indices_of(share_points(shares@));
    let ghost ys = values_of(share_points(shares@));
    let ghost terms = lagrange_terms(xs, ys);
    let n = shares.len();
    let mut secret = Scalar::zero();
    let mut i: usize = 0;
    assert(terms.subrange(0, 0) =~= Seq::<nat>::empty());
    while i < n
        invariant
            i <= n,
            n == shares@.len(),
            xs == indices_of(share_points(shares@)),
            ys == values_of(share_points(shares@)),
            terms == lagrange_terms(xs, ys),
            secret@ == field_sum(terms.subrange(0, i as int)),
            forall|k: int| 0 <= k < i ==> #[trigger] xs[k] != 0,
            forall|k: int| 0 <= k < i ==> is_unit(#[trigger] lagrange_denominator(xs, k)),
            i > 0 ==> are_residues(xs),
        decreases n - i,
    {
        let x_i = shares[i].0;
        let y_i = shares[i].1;
        if x_i.is_zero() {
            assert(xs[i as int] == 0);
            return Err(SecretSharingError::SingularInterpolation);
        }
        let mut numerator = Scalar::one();
        let mut denominator = Scalar::one();
        let mut j: usize = 0;
        while j < n
            invariant
                j <= n,
                i < n,
                n == shares@.len(),
                xs == indices_of(share_points(shares@)),
                x_i@ == xs[i as int],
                numerator@ == numerator_upto(xs, i as int, j as nat),
                denominator@ == denominator_upto(xs, i as int, j as nat),
                forall|k: int| 0 <= k < j ==> #[trigger] xs[k] < order(),
            decreases n - j,
        {
            let x_j = shares[j].0;
            proof {
                use_type_invariant(&x_j);
                x_j.lemma_residue();
            }
            if i != j {
                numerator = numerator.mul(&x_j);
                denominator = denominator.mul(&x_j.sub(&x_i));
            }
            j += 1;
        }
        proof {
            lemma_unit_denominators_of_distinct_points(xs);
        }
        match denominator.invert() {
            None => {
                proof {
                    lemma_zero_and_one(denominator@);
                    assert(!is_unit(lagrange_denominator(xs, i as int)));
                }
                return Err(SecretSharingError::SingularInterpolation);
            },
            Some(inverse) => {
                proof {
                    lemma_field_inv_unique(denominator@, inverse@);
                    assert(terms.subrange(0, i + 1) =~= terms.subrange(0, i as int).push(
                        terms[i as int],
                    ));
                    lemma_field_sum_push(terms.subrange(0, i as int), terms[i as int]);
                }
                let lagrange_coefficient = numerator.mul(&inverse);
                secret = secret.add(&y_i.mul(&lagrange_coefficient));
            },
        }
        i += 1;
    }
    proof {
        assert(terms.subrange(0, n as int) =~= terms);
        if n > 0 {
            lemma_unit_denominators_of_distinct_points(xs);
        }
        assert(!is_singular(xs));
    }
    Ok(secret)
}

/// As `reconstruct_secret`, for a caller who knows the threshold `t` of the
/// sharing: fewer shares than `t` are refused, since what they reconstruct to
/// is not the secret.
pub fn reconstruct_secret_with_threshold(shares: &[(Scalar, Scalar)], t: usize) -> (r: Result<
    Scalar,
    SecretSharingError,
>)
    ensures
        match r {
            Ok(secret) => reconstruction_with_threshold(share_points(shares@), t as nat) == Ok::<
                nat,
                SecretSharingError,
            >(secret@),
            Err(e) => reconstruction_with_threshold(share_points(shares@), t as nat) == Err::<
                nat,
                SecretSharingError,
            >(e),
        },
{
    if shares.len() < t {
        return Err(SecretSharingError::InsufficientShares);
    }
    reconstruct_secret(shares)
}

/// The commitment vector evaluated at `x`: the sum of `commitments[i]` times
/// `x` to the power `i`.
pub fn evaluate_commitments(commitments: &[Point], x: Scalar) -> (r: Point)
    ensures
        r@ == poly_eval(point_values(commitments@), x@),
{
    let ghost cs = point_values(commitments@);
    let n = commitments.len();
    let mut commitment_at_x = Point::identity();
    let mut i: usize = 0;
    assert(cs.subrange(0, 0) =~= Seq::<nat>::empty());
    while i < n
        invariant
            i <= n,
            n == commitments@.len(),
            cs == point_values(commitments@),
            commitment_at_x@ == poly_eval(cs.subrange(0, i as int), x@),
        decreases n - i,
    {
        let term = commitments[i].mul(&x.pow(i as u64));
        proof {
            let next = cs.subrange(0, i + 1);
            assert(next.drop_last() =~= cs.subrange(0, i as int));
            assert(next.last() == cs[i as int]);
        }
        commitment_at_x = commitment_at_x.add(&term);
        i += 1;
    }
    assert(cs.subrange(0, n as int) =~= cs);
    commitment_at_x
}

/// What the Feldman check says of a share with index `x` and value `y`: `g`
/// times `y` is the commitment vector evaluated at `x`.
pub open spec fn feldman_accepts(x: nat, y: nat, commitments: Seq<nat>, g: nat) -> bool {
    field_mul(g, y) == poly_eval(commitments, x)
}

/// What the Pedersen check says of a share with index `x` and value `y` and
/// of the blinding value that goes with it: `g` times `y` plus `h` times the
/// blinding value is the commitment vector evaluated at `x`.
pub open spec fn pedersen_accepts_value(
    x: nat,
    y: nat,
    blinding_value: nat,
    commitments: Seq<nat>,
    g: nat,
    h: nat,
) -> bool {
    field_add(field_mul(g, y), field_mul(h, blinding_value)) == poly_eval(commitments, x)
}

/// What the Pedersen check says of a share with index `x` and value `y`: it
/// accepts the share with the value of the blinding polynomial at `x`.
pub open spec fn pedersen_accepts(
    x: nat,
    y: nat,
    commitments: Seq<nat>,
    blinding: Seq<nat>,
    g: nat,
    h: nat,
) -> bool {
    pedersen_accepts_value(x, y, poly_eval(blinding, x), commitments, g, h)
}

/// Whether `share` is consistent with the Feldman commitments of its dealer.
pub fn verify_share_with_feldman_vss(
    share: (Scalar, Scalar),
    commitments: &[Point],
    g: Point,
) -> (r: bool)
    ensures
        r == feldman_accepts(share.0@, share.1@, point_values(commitments@), g@),
{
    let x = share.0;
    let y = share.1;
    let g_to_y = g.mul(&y);
    let commitment_at_x = evaluate_commitments(commitments, x);
    g_to_y.equals(&commitment_at_x)
}

/// Whether `share` is consistent with the Pedersen commitments of its dealer
/// and the blinding value that the dealer gave with the share: the value of
/// the blinding polynomial at the index of the share. A holder who has this
/// value alone can check the own share and no other.
pub fn verify_share_with_blinding_value(
    share: (Scalar, Scalar),
    blinding_value: Scalar,
    commitments: &[Point],
    g: Point,
    h: Point,
) -> (r: bool)
    ensures
        r == pedersen_accepts_value(
            share.0@,
            share.1@,
            blinding_value@,
            point_values(commitments@),
            g@,
            h@,
        ),
{
    let x = share.0;
    let y = share.1;
    let g_to_y = g.mul(&y);
    let h_to_blinding_at_x = h.mul(&blinding_value);
    let commitment_at_x = evaluate_commitments(commitments, x);
    g_to_y.add(&h_to_blinding_at_x).equals(&commitment_at_x)
}

/// Whether `share` is consistent with the Pedersen commitments of its dealer
/// and the polynomial of the blinding factors. Who has that polynomial can
/// check every share, not the own one alone.
pub fn verify_share_with_pedersen_vss(
    share: (Scalar, Scalar),
    commitments: &[Point],
    blinding_poly: &Polynomial,
    g: Point,
    h: Point,
) -> (r: bool)
    ensures
        r == pedersen_accepts(
            share.0@,
            share.1@,
            point_values(commitments@),
            blinding_poly@,
            g@,
            h@,
        ),
{
    let blinding_at_x = blinding_poly.evaluate(share.0);
    verify_share_with_blinding_value(share, blinding_at_x, commitments, g, h)
}

/// Shares of a polynomial with distinct indices other than zero, at least as
/// many as the polynomial has coefficients, reconstruct to its constant term.
pub proof fn lemma_reconstruction_recovers_constant_term(coeffs: Seq<nat>, points: Seq<(nat, nat)>)
    requires
        1 <= coeffs.len() <= points.len(),
        coeffs[0] < order(),
        are_residues(indices_of(points)),
        are_nonzero(indices_of(points)),
        are_distinct(indices_of(points)),
        forall|i: int|
            0 <= i < points.len() ==> (#[trigger] points[i]).1 == poly_eval(coeffs, points[i].0),
    ensures
        reconstruction(points) == Ok::<nat, SecretSharingError>(coeffs[0]),
{
    let xs = indices_of(points);
    assert(values_of(points) =~= poly_values(coeffs, xs));
    lemma_interpolation_recovers_value_at_zero(coeffs, xs);
    lemma_poly_eval_at_zero(coeffs);
}

/// The shares at the places `picks` among the `n` shares of the polynomial
/// with the coefficients `coeffs`.
pub open spec fn picked_shares(coeffs: Seq<nat>, n: nat, picks: Seq<int>) -> Seq<(nat, nat)> {
    Seq::new(picks.len(), |k: int| shares_of(coeffs, n)[picks[k]])
}

/// `picks` are places among `n` shares, none twice.
pub open spec fn are_picks(picks: Seq<int>, n: nat) -> bool {
    &&& forall|k: int| 0 <= k < picks.len() ==> 0 <= #[trigger] picks[k] < n
    &&& forall|j: int, k: int|
        0 <= j < picks.len() && 0 <= k < picks.len() && j != k ==> picks[j] != picks[k]
}

/// Shares picked from those of a dealer have distinct indices other than zero
/// and lie on the dealer's polynomial.
proof fn lemma_picked_shares_are_regular(coeffs: Seq<nat>, n: nat, picks: Seq<int>)
    requires
        n < order(),
        are_picks(picks, n),
    ensures
        are_residues(indices_of(picked_shares(coeffs, n, picks))),
        are_nonzero(indices_of(picked_shares(coeffs, n, picks))),
        are_distinct(indices_of(picked_shares(coeffs, n, picks))),
        values_of(picked_shares(coeffs, n, picks)) == poly_values(
            coeffs,
            indices_of(picked_shares(coeffs, n, picks)),
        ),
{
    let points = picked_shares(coeffs, n, picks);
    let xs = indices_of(points);
    assert forall|k: int| 0 <= k < xs.len() implies xs[k] == picks[k] + 1 by {
        assert(0 <= picks[k] < n);
    }
    assert(are_residues(xs)) by {
        assert forall|k: int| 0 <= k < xs.len() implies #[trigger] xs[k] < order() by {
            assert(xs[k] == picks[k] + 1);
        }
    }
    assert(are_nonzero(xs)) by {
        assert forall|k: int| 0 <= k < xs.len() implies #[trigger] xs[k] != 0 by {
            assert(xs[k] == picks[k] + 1);
        }
    }
    assert(are_distinct(xs)) by {
        assert forall|j: int, k: int|
            0 <= j < xs.len() && 0 <= k < xs.len() && j != k implies xs[j] != xs[k] by {
            assert(xs[j] == picks[j] + 1);
            assert(xs[k] == picks[k] + 1);
        }
    }
    assert(values_of(points) =~= poly_values(coeffs, xs)) by {
        assert forall|k: int| 0 <= k < points.len() implies values_of(points)[k] == poly_values(
            coeffs,
            xs,
        )[k] by {
            assert(xs[k] == picks[k] + 1);
        }
    }
}

/// Round trip: of the `n` shares that a dealer makes of `secret` with the
/// threshold `t`, any `t` or more reconstruct to `secret`. The shares are
/// chosen by their places `picks` among the `n`, no place twice.
pub proof fn lemma_shares_reconstruct_secret(
    coeffs: Seq<nat>,
    secret: nat,
    t: nat,
    n: nat,
    picks: Seq<int>,
)
    requires
        is_sharing_polynomial(coeffs, secret, t),
        n < order(),
        are_picks(picks, n),
        picks.len() >= t,
    ensures
        reconstruction(picked_shares(coeffs, n, picks)) == Ok::<nat, SecretSharingError>(secret),
{
    let points = picked_shares(coeffs, n, picks);
    lemma_picked_shares_are_regular(coeffs, n, picks);
    assert forall|k: int| 0 <= k < points.len() implies (#[trigger] points[k]).1 == poly_eval(
        coeffs,
        points[k].0,
    ) by {
        assert(values_of(points)[k] == poly_values(coeffs, indices_of(points))[k]);
    }
    lemma_reconstruction_recovers_constant_term(coeffs, points);
}

/// Threshold insufficiency: one share fewer than the threshold reconstructs
/// to the secret only where the highest coefficient of the dealer's
/// polynomial is zero, which is one case among as many as there are residues.
pub proof fn lemma_too_few_shares_miss_secret(
    coeffs: Seq<nat>,
    secret: nat,
    t: nat,
    n: nat,
    picks: Seq<int>,
)
    requires
        is_sharing_polynomial(coeffs, secret, t),
        n < order(),
        are_picks(picks, n),
        picks.len() + 1 == t,
    ensures
        reconstruction(picked_shares(coeffs, n, picks)) == Ok::<nat, SecretSharingError>(secret)
            <==> coeffs.last() == 0,
{
    let points = picked_shares(coeffs, n, picks);
    let xs = indices_of(points);
    let top = coeffs.last();
    let product = product_of_negatives(xs);
    let missed = field_mul(top, product);
    lemma_picked_shares_are_regular(coeffs, n, picks);
    lemma_interpolation_with_one_point_too_few(coeffs, xs);
    lemma_poly_eval_at_zero(coeffs);
    lemma_product_of_negatives_is_unit(xs);
    lemma_field_residues(top, product);
    lemma_field_sub_of_zero(secret, missed);
    if top == 0 {
        lemma_field_mul_zero(product);
    }
    if missed == 0 {
        lemma_field_mul_zero(product);
        lemma_field_mul_cancel(top, 0, product);
    }
}

/// A changed share changes the secret: where the value of one share is
/// replaced by another residue, the shares reconstruct to another value.
pub proof fn lemma_changed_share_changes_reconstruction(
    points: Seq<(nat, nat)>,
    i: int,
    changed: nat,
)
    requires
        are_residues(indices_of(points)),
        are_nonzero(indices_of(points)),
        are_distinct(indices_of(points)),
        0 <= i < points.len(),
        points[i].1 < order(),
        changed < order(),
        changed != points[i].1,
    ensures
        reconstruction(points.update(i, (points[i].0, changed))) != reconstruction(points),
{
    let tampered = points.update(i, (points[i].0, changed));
    let xs = indices_of(points);
    let terms = lagrange_terms(xs, values_of(points));
    let tampered_terms = lagrange_terms(xs, values_of(tampered));
    let basis = lagrange_basis(xs, i);
    assert(indices_of(tampered) =~= xs);
    if field_sum(tampered_terms) == field_sum(terms) {
        lemma_field_residues(points[i].1, basis);
        lemma_field_residues(changed, basis);
        lemma_field_sum_tells_terms_apart(terms, tampered_terms, i);
        lemma_basis_is_unit(xs, i);
        lemma_field_mul_cancel(points[i].1, changed, basis);
    }
}

/// Feldman binding, first half: a share of the polynomial passes the check
/// against the commitments to its coefficients, at whatever index.
pub proof fn lemma_feldman_accepts_share_of_polynomial(coeffs: Seq<nat>, g: nat, x: nat)
    ensures
        feldman_accepts(x, poly_eval(coeffs, x), feldman_commitments(g, coeffs), g),
{
    lemma_feldman_commitments_follow_polynomial(g, coeffs, x);
}

/// Feldman binding, second half: unless the generator is the neutral element,
/// the check passes for one value at most. So a share that passed fails once
/// its value is changed.
pub proof fn lemma_feldman_rejects_changed_share(
    x: nat,
    y: nat,
    changed: nat,
    commitments: Seq<nat>,
    g: nat,
)
    requires
        0 < g < order(),
        y < order(),
        changed < order(),
        changed != y,
        feldman_accepts(x, y, commitments, g),
    ensures
        !feldman_accepts(x, changed, commitments, g),
{
    lemma_residues_form_a_field();
    if feldman_accepts(x, changed, commitments, g) {
        lemma_field_mul_commutative(g, y);
        lemma_field_mul_commutative(g, changed);
        lemma_field_mul_cancel(y, changed, g);
    }
}

/// Pedersen binding, first half: a share of the polynomial passes the check
/// against the commitments to its coefficients and the blinding polynomial
/// they were made with, at whatever index.
pub proof fn lemma_pedersen_accepts_share_of_polynomial(
    coeffs: Seq<nat>,
    blinding: Seq<nat>,
    g: nat,
    h: nat,
    x: nat,
)
    requires
        blinding.len() == coeffs.len(),
    ensures
        pedersen_accepts(
            x,
            poly_eval(coeffs, x),
            pedersen_commitments(g, h, coeffs, blinding),
            blinding,
            g,
            h,
        ),
{
    lemma_pedersen_commitments_follow_polynomials(g, h, coeffs, blinding, x);
}

/// Commitment freshness: unless the generator `h` is the neutral element, two
/// Pedersen commitment vectors to the same coefficients are the same only
/// where the blinding factors are. So fresh blinding factors give fresh
/// commitments.
pub proof fn lemma_pedersen_commitments_differ_with_blinding(
    g: nat,
    h: nat,
    coeffs: Seq<nat>,
    blinding: Seq<nat>,
    other_blinding: Seq<nat>,
)
    requires
        0 < h < order(),
        blinding.len() == coeffs.len(),
        other_blinding.len() == coeffs.len(),
        forall|i: int| 0 <= i < coeffs.len() ==> blinding[i] < order(),
        forall|i: int| 0 <= i < coeffs.len() ==> other_blinding[i] < order(),
    ensures
        pedersen_commitments(g, h, coeffs, blinding) == pedersen_commitments(
            g,
            h,
            coeffs,
            other_blinding,
        ) <==> blinding == other_blinding,
{
    let first = pedersen_commitments(g, h, coeffs, blinding);
    let second = pedersen_commitments(g, h, coeffs, other_blinding);
    if first == second {
        lemma_residues_form_a_field();
        assert forall|i: int| 0 <= i < coeffs.len() implies blinding[i] == other_blinding[i] by {
            let committed = field_mul(g, coeffs[i]);
            let blinded = field_mul(h, blinding[i]);
            let other_blinded = field_mul(h, other_blinding[i]);
            assert(first[i] == second[i]);
            lemma_field_residues(h, blinding[i]);
            lemma_field_residues(h, other_blinding[i]);
            lemma_field_add_commutative(committed, blinded);
            lemma_field_add_commutative(committed, other_blinded);
            lemma_field_add_cancel(blinded, other_blinded, committed);
            lemma_field_mul_commutative(h, blinding[i]);
            lemma_field_mul_commutative(h, other_blinding[i]);
            lemma_field_mul_cancel(blinding[i], other_blinding[i], h);
        }
        assert(blinding =~= other_blinding);
    }
}

/// Pedersen binding, second half: unless the generator `g` is the neutral
/// element, the check passes for one value at most.
pub proof fn lemma_pedersen_rejects_changed_share(
    x: nat,
    y: nat,
    changed: nat,
    commitments: Seq<nat>,
    blinding: Seq<nat>,
    g: nat,
    h: nat,
)
    requires
        0 < g < order(),
        y < order(),
        changed < order(),
        changed != y,
        pedersen_accepts(x, y, commitments, blinding, g, h),
    ensures
        !pedersen_accepts(x, changed, commitments, blinding, g, h),
{
    lemma_residues_form_a_field();
    if pedersen_accepts(x, changed, commitments, blinding, g, h) {
        let blinded = field_mul(h, poly_eval(blinding, x));
        // g y + blinded = g changed + blinded, so g y = g changed
        lemma_field_residues(g, y);
        lemma_field_residues(g, changed);
        lemma_field_add_cancel(field_mul(g, y), field_mul(g, changed), blinded);
        lemma_field_mul_commutative(g, y);
        lemma_field_mul_commutative(g, changed);
        lemma_field_mul_cancel(y, changed, g);
    }
}

} // verus!
