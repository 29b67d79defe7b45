//! Lagrange interpolation at zero over the scalar field: what
//! `reconstruct_secret` computes, and why it gives back the constant term.

use crate::certificate::lemma_residues_form_a_field;
use crate::field::{
    field_add, field_inv, field_mul, field_sub, field_sum, is_inverse_of, is_unit,
    lemma_factors_of_unit_are_units, lemma_field_add_then_sub, lemma_field_add_zero,
    lemma_field_inv_is_inverse, lemma_field_inv_of_product, lemma_field_mul_associative,
    lemma_field_mul_cancel, lemma_field_mul_commutative, lemma_field_mul_distributes_over_add,
    lemma_field_mul_distributes_over_sub, lemma_field_mul_negative, lemma_field_mul_one,
    lemma_field_mul_reduces, lemma_field_mul_zero, lemma_field_residues, lemma_field_sub_is_zero,
    lemma_field_sub_negates, lemma_field_sub_of_differences, lemma_field_sub_self,
    lemma_field_sum_is_residue, lemma_field_sum_of_differences, lemma_field_sum_of_sums,
    lemma_field_sum_prepend, lemma_field_sum_scaled, lemma_zero_and_one, order,
};
use crate::polynomial::{
    lemma_poly_division, lemma_poly_eval_at_zero, lemma_poly_eval_constant,
    lemma_poly_eval_is_residue, lemma_poly_quotient_last, lemma_poly_quotient_len, poly_eval,
    poly_quotient,
};
use vstd::prelude::*;

verus! {

/// The product of `xs[j]` over the `j` below `k` other than `i`.
pub open spec fn numerator_upto(xs: Seq<nat>, i: int, k: nat) -> nat
    decreases k,
{
    if k == 0 {
        1
    } else if k - 1 == i {
        numerator_upto(xs, i, (k - 1) as nat)
    } else {
        field_mul(numerator_upto(xs, i, (k - 1) as nat), xs[k - 1])
    }
}

/// The product of `xs[j] - xs[i]` over the `j` below `k` other than `i`.
pub open spec fn denominator_upto(xs: Seq<nat>, i: int, k: nat) -> nat
    decreases k,
{
    if k == 0 {
        1
    } else if k - 1 == i {
        denominator_upto(xs, i, (k - 1) as nat)
    } else {
        field_mul(denominator_upto(xs, i, (k - 1) as nat), field_sub(xs[k - 1], xs[i]))
    }
}

/// The numerator of the Lagrange basis value at zero for the point `i`: the
/// product of all the other points.
pub open spec fn lagrange_numerator(xs: Seq<nat>, i: int) -> nat {
    numerator_upto(xs, i, xs.len())
}

/// The denominator of the Lagrange basis value for the point `i`: the product
/// of the differences between each other point and this one.
pub open spec fn lagrange_denominator(xs: Seq<nat>, i: int) -> nat {
    denominator_upto(xs, i, xs.len())
}

/// The Lagrange basis value at zero for the point `i`.
pub open spec fn lagrange_basis(xs: Seq<nat>, i: int) -> nat {
    field_mul(lagrange_numerator(xs, i), field_inv(lagrange_denominator(xs, i)))
}

/// The terms of the interpolation: `ys[i]` times the basis value for the point `i`.
pub open spec fn lagrange_terms(xs: Seq<nat>, ys: Seq<nat>) -> Seq<nat> {
    Seq::new(xs.len(), |i: int| field_mul(ys[i], lagrange_basis(xs, i)))
}

/// The value at zero of the polynomial of least degree that takes the value
/// `ys[i]` at `xs[i]` for every `i`.
pub open spec fn interpolate_at_zero(xs: Seq<nat>, ys: Seq<nat>) -> nat {
    field_sum(lagrange_terms(xs, ys))
}

/// No two of `xs` are the same.
pub open spec fn are_distinct(xs: Seq<nat>) -> bool {
    forall|i: int, j: int| 0 <= i < xs.len() && 0 <= j < xs.len() && i != j ==> xs[i] != xs[j]
}

/// None of `xs` is zero.
pub open spec fn are_nonzero(xs: Seq<nat>) -> bool {
    forall|i: int| 0 <= i < xs.len() ==> #[trigger] xs[i] != 0
}

/// Interpolation at zero on `xs` is singular: a point is zero, or two points
/// are the same.
pub open spec fn is_singular(xs: Seq<nat>) -> bool {
    !are_nonzero(xs) || !are_distinct(xs)
}

/// Every denominator of a basis value on `xs` has an inverse.
pub open spec fn has_unit_denominators(xs: Seq<nat>) -> bool {
    forall|i: int| 0 <= i < xs.len() ==> is_unit(#[trigger] lagrange_denominator(xs, i))
}

/// All of `xs` are residues.
pub open spec fn are_residues(xs: Seq<nat>) -> bool {
    forall|i: int| 0 <= i < xs.len() ==> #[trigger] xs[i] < order()
}

/// The products over the points below `k` depend on those points and on the
/// point `i` alone.
pub proof fn lemma_products_of_prefix(xs: Seq<nat>, zs: Seq<nat>, i: int, k: nat)
    requires
        k <= xs.len(),
        k <= zs.len(),
        0 <= i < xs.len(),
        i < zs.len(),
        xs[i] == zs[i],
        forall|j: int| 0 <= j < k ==> xs[j] == zs[j],
    ensures
        numerator_upto(xs, i, k) == numerator_upto(zs, i, k),
        denominator_upto(xs, i, k) == denominator_upto(zs, i, k),
    decreases k,
{
    if k > 0 {
        lemma_products_of_prefix(xs, zs, i, (k - 1) as nat);
    }
}

/// The products over a sequence with its first point taken off: the first
/// point, or its difference, is the factor that is gone.
pub proof fn lemma_products_without_first(xs: Seq<nat>, i: int, k: nat)
    requires
        1 <= k <= xs.len(),
        1 <= i < xs.len(),
    ensures
        numerator_upto(xs, i, k) == field_mul(
            xs[0],
            numerator_upto(xs.drop_first(), i - 1, (k - 1) as nat),
        ),
        denominator_upto(xs, i, k) == field_mul(
            field_sub(xs[0], xs[i]),
            denominator_upto(xs.drop_first(), i - 1, (k - 1) as nat),
        ),
    decreases k,
{
    let rest = xs.drop_first();
    let first_difference = field_sub(xs[0], xs[i]);
    if k == 1 {
        assert(numerator_upto(xs, i, 0) == 1);
        assert(denominator_upto(xs, i, 0) == 1);
        assert(numerator_upto(xs, i, 1) == field_mul(1, xs[0]));
        assert(denominator_upto(xs, i, 1) == field_mul(1, first_difference));
        lemma_field_mul_commutative(1, xs[0]);
        lemma_field_mul_commutative(1, first_difference);
    } else {
        let j = (k - 1) as nat;
        lemma_products_without_first(xs, i, j);
        assert(rest[j - 1] == xs[j as int]);
        assert(rest[i - 1] == xs[i]);
        if j != i {
            lemma_field_mul_associative(
                xs[0],
                numerator_upto(rest, i - 1, (j - 1) as nat),
                xs[j as int],
            );
            lemma_field_mul_associative(
                first_difference,
                denominator_upto(rest, i - 1, (j - 1) as nat),
                field_sub(xs[j as int], xs[i]),
            );
        }
    }
}

/// Where the product of the differences up to `k` has an inverse, so has each
/// difference in it, and so has the product up to any `m` below `k`.
pub proof fn lemma_factors_of_unit_denominator(xs: Seq<nat>, i: int, k: nat, m: nat)
    requires
        is_unit(denominator_upto(xs, i, k)),
        m <= k,
    ensures
        is_unit(denominator_upto(xs, i, m)),
        m < k && m != i ==> is_unit(field_sub(xs[m as int], xs[i])),
    decreases k,
{
    if m < k {
        let j = (k - 1) as nat;
        if j != i {
            lemma_factors_of_unit_are_units(
                denominator_upto(xs, i, j),
                field_sub(xs[j as int], xs[i]),
            );
        }
        if m < j {
            lemma_factors_of_unit_denominator(xs, i, j, m);
        }
    }
}

/// The difference of two points of a sequence with unit denominators has an inverse.
pub proof fn lemma_differences_are_units(xs: Seq<nat>, i: int, j: int)
    requires
        has_unit_denominators(xs),
        0 <= i < xs.len(),
        0 <= j < xs.len(),
        i != j,
    ensures
        is_unit(field_sub(xs[j], xs[i])),
{
    assert(is_unit(lagrange_denominator(xs, i)));
    lemma_factors_of_unit_denominator(xs, i, xs.len(), j as nat);
}

/// A sequence with unit denominators keeps them when its last point is taken off.
pub proof fn lemma_unit_denominators_without_last(xs: Seq<nat>)
    requires
        has_unit_denominators(xs),
        xs.len() >= 1,
    ensures
        has_unit_denominators(xs.drop_last()),
{
    let front = xs.drop_last();
    assert forall|i: int| 0 <= i < front.len() implies is_unit(
        #[trigger] lagrange_denominator(front, i),
    ) by {
        assert(is_unit(lagrange_denominator(xs, i)));
        lemma_factors_of_unit_denominator(xs, i, xs.len(), front.len());
        lemma_products_of_prefix(xs, front, i, front.len());
    }
}

/// A sequence with unit denominators keeps them when its first point is taken off.
pub proof fn lemma_unit_denominators_without_first(xs: Seq<nat>)
    requires
        has_unit_denominators(xs),
        xs.len() >= 1,
    ensures
        has_unit_denominators(xs.drop_first()),
{
    let rest = xs.drop_first();
    assert forall|i: int| 0 <= i < rest.len() implies is_unit(
        #[trigger] lagrange_denominator(rest, i),
    ) by {
        assert(is_unit(lagrange_denominator(xs, i + 1)));
        lemma_products_without_first(xs, i + 1, xs.len());
        lemma_factors_of_unit_are_units(
            field_sub(xs[0], xs[i + 1]),
            denominator_upto(rest, i, rest.len()),
        );
    }
}

/// The algebra of one more point: with the factor `b` more in the numerator
/// and the unit `e` more in the denominator, the quotient times `e` is the
/// old quotient times `b`.
proof fn lemma_quotient_with_one_more_factor(n: nat, d: nat, b: nat, e: nat)
    requires
        is_unit(d),
        is_unit(e),
    ensures
        field_mul(field_mul(field_mul(n, b), field_inv(field_mul(d, e))), e) == field_mul(
            field_mul(n, field_inv(d)),
            b,
        ),
{
    let id = field_inv(d);
    let ie = field_inv(e);
    lemma_field_inv_of_product(d, e);
    lemma_field_inv_is_inverse(d);
    lemma_field_inv_is_inverse(e);
    lemma_field_mul_associative(field_mul(n, b), field_mul(id, ie), e);
    lemma_field_mul_associative(id, ie, e);
    lemma_field_mul_one(id);
    assert(field_mul(field_mul(id, ie), e) == id);
    lemma_field_mul_associative(n, b, id);
    lemma_field_mul_commutative(b, id);
    lemma_field_mul_associative(n, id, b);
}

/// The basis value for the point `i` and the one on the sequence without its
/// last point.
pub proof fn lemma_basis_without_last(xs: Seq<nat>, i: int)
    requires
        has_unit_denominators(xs),
        0 <= i < xs.len() - 1,
    ensures
        field_mul(lagrange_basis(xs, i), field_sub(xs.last(), xs[i])) == field_mul(
            lagrange_basis(xs.drop_last(), i),
            xs.last(),
        ),
{
    let front = xs.drop_last();
    let m = front.len();
    lemma_products_of_prefix(xs, front, i, m);
    assert(is_unit(lagrange_denominator(xs, i)));
    lemma_factors_of_unit_denominator(xs, i, xs.len(), m);
    assert(lagrange_numerator(xs, i) == field_mul(numerator_upto(xs, i, m), xs[m as int]));
    assert(lagrange_denominator(xs, i) == field_mul(
        denominator_upto(xs, i, m),
        field_sub(xs[m as int], xs[i]),
    ));
    lemma_quotient_with_one_more_factor(
        lagrange_numerator(front, i),
        lagrange_denominator(front, i),
        xs.last(),
        field_sub(xs.last(), xs[i]),
    );
}

/// The basis value for the point `i` and the one on the sequence without its
/// first point.
pub proof fn lemma_basis_without_first(xs: Seq<nat>, i: int)
    requires
        has_unit_denominators(xs),
        1 <= i < xs.len(),
    ensures
        field_mul(lagrange_basis(xs, i), field_sub(xs[0], xs[i])) == field_mul(
            lagrange_basis(xs.drop_first(), i - 1),
            xs[0],
        ),
{
    let rest = xs.drop_first();
    let difference = field_sub(xs[0], xs[i]);
    lemma_products_without_first(xs, i, xs.len());
    lemma_differences_are_units(xs, i, 0);
    lemma_unit_denominators_without_first(xs);
    assert(is_unit(lagrange_denominator(rest, i - 1)));
    lemma_field_mul_commutative(xs[0], lagrange_numerator(rest, i - 1));
    lemma_field_mul_commutative(difference, lagrange_denominator(rest, i - 1));
    lemma_quotient_with_one_more_factor(
        lagrange_numerator(rest, i - 1),
        lagrange_denominator(rest, i - 1),
        xs[0],
        difference,
    );
}

/// The basis values at zero for the points of `xs`.
pub open spec fn lagrange_bases(xs: Seq<nat>) -> Seq<nat> {
    Seq::new(xs.len(), |i: int| lagrange_basis(xs, i))
}

/// `delta` times the basis value for the point `i`, where `delta` is the last
/// point less the first: the last point times the basis value without the last
/// point, less the first point times the basis value without the first.
proof fn lemma_basis_between_first_and_last(xs: Seq<nat>, i: int)
    requires
        has_unit_denominators(xs),
        xs.len() >= 2,
        0 <= i < xs.len(),
    ensures
        field_mul(field_sub(xs.last(), xs[0]), lagrange_basis(xs, i)) == field_sub(
            if i < xs.len() - 1 {
                field_mul(xs.last(), lagrange_basis(xs.drop_last(), i))
            } else {
                0
            },
            if i >= 1 {
                field_mul(xs[0], lagrange_basis(xs.drop_first(), i - 1))
            } else {
                0
            },
        ),
{
    let a = xs[0];
    let b = xs.last();
    let basis = lagrange_basis(xs, i);
    let to_last = field_sub(b, xs[i]);
    let to_first = field_sub(a, xs[i]);
    lemma_field_sub_of_differences(b, a, xs[i]);
    lemma_field_mul_distributes_over_sub(basis, to_last, to_first);
    if i < xs.len() - 1 {
        lemma_basis_without_last(xs, i);
        lemma_field_mul_commutative(to_last, basis);
        lemma_field_mul_commutative(b, lagrange_basis(xs.drop_last(), i));
    } else {
        lemma_field_sub_self(b);
        lemma_field_mul_zero(basis);
    }
    if i >= 1 {
        lemma_basis_without_first(xs, i);
        lemma_field_mul_commutative(to_first, basis);
        lemma_field_mul_commutative(a, lagrange_basis(xs.drop_first(), i - 1));
    } else {
        lemma_field_sub_self(a);
        lemma_field_mul_zero(basis);
    }
}

/// The basis values at zero add up to one.
pub proof fn lemma_bases_sum_to_one(xs: Seq<nat>)
    requires
        has_unit_denominators(xs),
        are_residues(xs),
        xs.len() >= 1,
    ensures
        field_sum(lagrange_bases(xs)) == 1,
    decreases xs.len(),
{
    let bases = lagrange_bases(xs);
    if xs.len() == 1 {
        assert(numerator_upto(xs, 0, 0) == 1);
        assert(denominator_upto(xs, 0, 0) == 1);
        assert(lagrange_numerator(xs, 0) == 1);
        assert(lagrange_denominator(xs, 0) == 1);
        lemma_zero_and_one(1);
        lemma_field_mul_one(1);
        assert(lagrange_basis(xs, 0) == 1);
        assert(bases.drop_last() =~= Seq::<nat>::empty());
        assert(field_sum(Seq::<nat>::empty()) == 0);
        assert(bases.last() == 1);
        lemma_field_add_zero(1);
    } else {
        let m = (xs.len() - 1) as nat;
        let a = xs[0];
        let b = xs.last();
        let delta = field_sub(b, a);
        let front = xs.drop_last();
        let rest = xs.drop_first();
        lemma_differences_are_units(xs, 0, m as int);
        lemma_unit_denominators_without_last(xs);
        lemma_unit_denominators_without_first(xs);
        assert(are_residues(front)) by {
            assert forall|i: int| 0 <= i < front.len() implies #[trigger] front[i] < order() by {
                assert(front[i] == xs[i]);
            }
        }
        assert(are_residues(rest)) by {
            assert forall|i: int| 0 <= i < rest.len() implies #[trigger] rest[i] < order() by {
                assert(rest[i] == xs[i + 1]);
            }
        }
        lemma_bases_sum_to_one(front);
        lemma_bases_sum_to_one(rest);
        let scaled = Seq::new(xs.len(), |i: int| field_mul(delta, bases[i]));
        let from_front = Seq::new(
            xs.len(),
            |i: int|
                if i < m {
                    field_mul(b, lagrange_basis(front, i))
                } else {
                    0
                },
        );
        let from_rest = Seq::new(
            xs.len(),
            |i: int|
                if i >= 1 {
                    field_mul(a, lagrange_basis(rest, i - 1))
                } else {
                    0
                },
        );
        assert forall|i: int| 0 <= i < scaled.len() implies scaled[i] == field_sub(
            from_front[i],
            from_rest[i],
        ) by {
            lemma_basis_between_first_and_last(xs, i);
        }
        lemma_field_sum_scaled(scaled, delta, bases);
        lemma_field_sum_of_differences(scaled, from_front, from_rest);
        // the sum of the terms that come from the sequence without its last point
        let front_scaled = Seq::new(m, |i: int| field_mul(b, lagrange_bases(front)[i]));
        assert(from_front.drop_last() =~= front_scaled);
        assert(from_front.last() == 0);
        lemma_field_sum_scaled(front_scaled, b, lagrange_bases(front));
        lemma_field_mul_one(b);
        lemma_field_add_zero(field_sum(front_scaled));
        assert(field_sum(from_front) == b);
        // and of those that come from the sequence without its first point
        let rest_scaled = Seq::new(m, |i: int| field_mul(a, lagrange_bases(rest)[i]));
        assert(from_rest =~= seq![0nat] + rest_scaled);
        lemma_field_sum_prepend(0, rest_scaled);
        lemma_field_sum_scaled(rest_scaled, a, lagrange_bases(rest));
        lemma_field_mul_one(a);
        lemma_field_add_zero(field_sum(rest_scaled));
        assert(field_sum(from_rest) == a);
        // delta times the sum is delta
        let total = field_sum(bases);
        assert(field_mul(delta, total) == delta);
        lemma_field_residues(b, a);
        lemma_field_mul_one(delta);
        lemma_field_mul_commutative(delta, total);
        lemma_field_sum_is_residue(bases);
        lemma_field_mul_cancel(total, 1, delta);
    }
}

/// Once a point that is the same as the point `i` is among the factors, the
/// product of the differences is zero.
proof fn lemma_denominator_with_repeated_point(xs: Seq<nat>, i: int, j: int, k: nat)
    requires
        0 <= j < k,
        j != i,
        xs[j] == xs[i],
    ensures
        denominator_upto(xs, i, k) == 0,
    decreases k,
{
    let before = denominator_upto(xs, i, (k - 1) as nat);
    if j == k - 1 {
        lemma_field_sub_self(xs[i]);
        lemma_field_mul_zero(before);
    } else {
        lemma_denominator_with_repeated_point(xs, i, j, (k - 1) as nat);
        if k - 1 != i {
            lemma_field_mul_zero(field_sub(xs[k - 1], xs[i]));
        }
    }
}

/// Where two points are the same, the denominator of a basis value has no inverse.
pub proof fn lemma_repeated_point_has_no_unit_denominator(xs: Seq<nat>, i: int, j: int)
    requires
        0 <= i < xs.len(),
        0 <= j < xs.len(),
        i != j,
        xs[i] == xs[j],
    ensures
        lagrange_denominator(xs, i) == 0,
        !is_unit(lagrange_denominator(xs, i)),
{
    lemma_denominator_with_repeated_point(xs, i, j, xs.len());
    lemma_zero_and_one(0);
}

/// The product of the differences between distinct points has an inverse.
proof fn lemma_denominator_of_distinct_points(xs: Seq<nat>, i: int, k: nat)
    requires
        are_residues(xs),
        are_distinct(xs),
        0 <= i < xs.len(),
        k <= xs.len(),
    ensures
        is_unit(denominator_upto(xs, i, k)),
    decreases k,
{
    if k == 0 {
        lemma_zero_and_one(1);
    } else {
        let j = k - 1;
        lemma_denominator_of_distinct_points(xs, i, j as nat);
        if j != i {
            let difference = field_sub(xs[j], xs[i]);
            assert(xs[j] < order() && xs[i] < order());
            lemma_field_sub_is_zero(xs[j], xs[i]);
            lemma_field_residues(xs[j], xs[i]);
            lemma_residues_form_a_field();
            assert(is_unit(difference));
            lemma_field_inv_of_product(denominator_upto(xs, i, j as nat), difference);
        }
    }
}

/// The denominators of the basis values all have inverses exactly where no
/// two points are the same.
pub proof fn lemma_unit_denominators_of_distinct_points(xs: Seq<nat>)
    requires
        are_residues(xs),
    ensures
        has_unit_denominators(xs) <==> are_distinct(xs),
{
    if are_distinct(xs) {
        assert forall|i: int| 0 <= i < xs.len() implies is_unit(
            #[trigger] lagrange_denominator(xs, i),
        ) by {
            lemma_denominator_of_distinct_points(xs, i, xs.len());
        }
    }
    if has_unit_denominators(xs) {
        assert forall|i: int, j: int|
            0 <= i < xs.len() && 0 <= j < xs.len() && i != j implies xs[i] != xs[j] by {
            if xs[i] == xs[j] {
                lemma_repeated_point_has_no_unit_denominator(xs, i, j);
                assert(is_unit(lagrange_denominator(xs, i)));
            }
        }
    }
}

/// The product of points other than zero has an inverse.
proof fn lemma_numerator_of_nonzero_points(xs: Seq<nat>, i: int, k: nat)
    requires
        are_residues(xs),
        are_nonzero(xs),
        k <= xs.len(),
    ensures
        is_unit(numerator_upto(xs, i, k)),
    decreases k,
{
    if k == 0 {
        lemma_zero_and_one(1);
    } else {
        let j = k - 1;
        lemma_numerator_of_nonzero_points(xs, i, j as nat);
        if j != i {
            assert(0 < xs[j] < order());
            lemma_residues_form_a_field();
            assert(is_unit(xs[j]));
            lemma_field_inv_of_product(numerator_upto(xs, i, j as nat), xs[j]);
        }
    }
}

/// Between distinct points other than zero every basis value has an inverse:
/// each share bears on the interpolated value.
pub proof fn lemma_basis_is_unit(xs: Seq<nat>, i: int)
    requires
        are_residues(xs),
        are_nonzero(xs),
        are_distinct(xs),
        0 <= i < xs.len(),
    ensures
        is_unit(lagrange_basis(xs, i)),
{
    let denominator = lagrange_denominator(xs, i);
    lemma_numerator_of_nonzero_points(xs, i, xs.len());
    lemma_denominator_of_distinct_points(xs, i, xs.len());
    lemma_field_inv_is_inverse(denominator);
    lemma_field_mul_reduces(field_inv(denominator), denominator);
    assert(is_inverse_of(field_inv(denominator), denominator % order()));
    lemma_field_inv_of_product(lagrange_numerator(xs, i), field_inv(denominator));
}

/// The values of the polynomial with the coefficients `coeffs` at the points `xs`.
pub open spec fn poly_values(coeffs: Seq<nat>, xs: Seq<nat>) -> Seq<nat> {
    Seq::new(xs.len(), |i: int| poly_eval(coeffs, xs[i]))
}

/// The basis value for the point `i` times the point less the last point: the
/// negative of the last point times the basis value without the last point.
proof fn lemma_basis_against_last(xs: Seq<nat>, i: int)
    requires
        has_unit_denominators(xs),
        0 <= i < xs.len() - 1,
    ensures
        field_mul(field_sub(xs[i], xs.last()), lagrange_basis(xs, i)) == field_mul(
            field_sub(0, xs.last()),
            lagrange_basis(xs.drop_last(), i),
        ),
{
    let b = xs.last();
    let basis = lagrange_basis(xs, i);
    let shorter = lagrange_basis(xs.drop_last(), i);
    let to_last = field_sub(b, xs[i]);
    lemma_basis_without_last(xs, i);
    lemma_field_sub_negates(xs[i], b);
    lemma_field_mul_negative(to_last, basis);
    lemma_field_mul_commutative(to_last, basis);
    lemma_field_mul_commutative(shorter, b);
    lemma_field_mul_negative(b, shorter);
}

/// One term of the interpolation of a polynomial, split by the division of
/// the polynomial by `x` less the last point.
proof fn lemma_term_split_at_last(coeffs: Seq<nat>, xs: Seq<nat>, i: int)
    requires
        has_unit_denominators(xs),
        0 <= i < xs.len(),
    ensures
        lagrange_terms(xs, poly_values(coeffs, xs))[i] == field_add(
            field_mul(poly_eval(coeffs, xs.last()), lagrange_basis(xs, i)),
            if i < xs.len() - 1 {
                field_mul(
                    field_sub(0, xs.last()),
                    lagrange_terms(
                        xs.drop_last(),
                        poly_values(poly_quotient(coeffs, xs.last()), xs.drop_last()),
                    )[i],
                )
            } else {
                0
            },
        ),
{
    let b = xs.last();
    let front = xs.drop_last();
    let quotient = poly_quotient(coeffs, b);
    let basis = lagrange_basis(xs, i);
    let at_last = poly_eval(coeffs, b);
    let away = field_sub(xs[i], b);
    let quotient_here = poly_eval(quotient, xs[i]);
    lemma_poly_division(coeffs, b, xs[i]);
    lemma_field_mul_distributes_over_add(basis, at_last, field_mul(away, quotient_here));
    // (away q) basis = q (away basis)
    lemma_field_mul_commutative(away, quotient_here);
    lemma_field_mul_associative(quotient_here, away, basis);
    if i < xs.len() - 1 {
        let shorter = lagrange_basis(front, i);
        let negative = field_sub(0, b);
        assert(front[i] == xs[i]);
        lemma_basis_against_last(xs, i);
        // q (negative shorter) = negative (q shorter)
        lemma_field_mul_associative(quotient_here, negative, shorter);
        lemma_field_mul_commutative(quotient_here, negative);
        lemma_field_mul_associative(negative, quotient_here, shorter);
    } else {
        lemma_field_sub_self(b);
        lemma_field_mul_zero(basis);
        lemma_field_mul_zero(quotient_here);
    }
}

/// Interpolation at zero through distinct points of a polynomial gives the
/// value of the polynomial at zero, where there are at least as many points
/// as the polynomial has coefficients.
pub proof fn lemma_interpolation_recovers_value_at_zero(coeffs: Seq<nat>, xs: Seq<nat>)
    requires
        1 <= coeffs.len() <= xs.len(),
        are_residues(xs),
        are_distinct(xs),
    ensures
        interpolate_at_zero(xs, poly_values(coeffs, xs)) == poly_eval(coeffs, 0),
{
    lemma_unit_denominators_of_distinct_points(xs);
    lemma_interpolation_with_unit_denominators(coeffs, xs);
}

/// Interpolation with the last point peeled off: the value of the polynomial
/// at the last point, less the last point times what interpolation through
/// the other points makes of the quotient by `x` less the last point.
proof fn lemma_interpolation_without_last(coeffs: Seq<nat>, xs: Seq<nat>)
    requires
        xs.len() >= 1,
        has_unit_denominators(xs),
        are_residues(xs),
    ensures
        interpolate_at_zero(xs, poly_values(coeffs, xs)) == field_add(
            poly_eval(coeffs, xs.last()),
            field_mul(
                field_sub(0, xs.last()),
                interpolate_at_zero(
                    xs.drop_last(),
                    poly_values(poly_quotient(coeffs, xs.last()), xs.drop_last()),
                ),
            ),
        ),
{
    let terms = lagrange_terms(xs, poly_values(coeffs, xs));
    let bases = lagrange_bases(xs);
    let m = (xs.len() - 1) as nat;
    let b = xs.last();
    let front = xs.drop_last();
    let quotient = poly_quotient(coeffs, b);
    let at_last = poly_eval(coeffs, b);
    let negative = field_sub(0, b);
    let shorter_terms = lagrange_terms(front, poly_values(quotient, front));
    lemma_bases_sum_to_one(xs);
    let constant_part = Seq::new(xs.len(), |i: int| field_mul(at_last, bases[i]));
    let quotient_part = Seq::new(
        xs.len(),
        |i: int|
            if i < m {
                field_mul(negative, shorter_terms[i])
            } else {
                0
            },
    );
    assert forall|i: int| 0 <= i < terms.len() implies terms[i] == field_add(
        constant_part[i],
        quotient_part[i],
    ) by {
        lemma_term_split_at_last(coeffs, xs, i);
    }
    lemma_field_sum_of_sums(terms, constant_part, quotient_part);
    // the constant part adds up to the value at the last point
    lemma_field_sum_scaled(constant_part, at_last, bases);
    lemma_field_mul_one(at_last);
    lemma_poly_eval_is_residue(coeffs, b);
    assert(field_sum(constant_part) == at_last);
    // the other part to the negative of the last point times the shorter interpolation
    let scaled_shorter = Seq::new(m, |i: int| field_mul(negative, shorter_terms[i]));
    assert(quotient_part.drop_last() =~= scaled_shorter);
    assert(quotient_part.last() == 0);
    lemma_field_sum_scaled(scaled_shorter, negative, shorter_terms);
    lemma_field_sum_is_residue(scaled_shorter);
    lemma_field_add_zero(field_sum(scaled_shorter));
}

/// The same where every denominator has an inverse, as between distinct points.
proof fn lemma_interpolation_with_unit_denominators(coeffs: Seq<nat>, xs: Seq<nat>)
    requires
        1 <= coeffs.len() <= xs.len(),
        has_unit_denominators(xs),
        are_residues(xs),
    ensures
        interpolate_at_zero(xs, poly_values(coeffs, xs)) == poly_eval(coeffs, 0),
    decreases xs.len(),
{
    if coeffs.len() == 1 {
        let terms = lagrange_terms(xs, poly_values(coeffs, xs));
        let bases = lagrange_bases(xs);
        let c = poly_eval(coeffs, 0);
        lemma_bases_sum_to_one(xs);
        assert forall|i: int| 0 <= i < terms.len() implies terms[i] == field_mul(c, bases[i]) by {
            lemma_poly_eval_constant(coeffs, xs[i], 0);
        }
        lemma_field_sum_scaled(terms, c, bases);
        lemma_field_mul_one(c);
        lemma_poly_eval_is_residue(coeffs, 0);
    } else {
        let b = xs.last();
        let front = xs.drop_last();
        lemma_poly_quotient_len(coeffs, b);
        lemma_unit_denominators_without_last(xs);
        lemma_residues_without_last(xs);
        lemma_interpolation_with_unit_denominators(poly_quotient(coeffs, b), front);
        lemma_interpolation_without_last(coeffs, xs);
        lemma_poly_division(coeffs, b, 0);
    }
}

/// The product of the negatives of the points.
pub open spec fn product_of_negatives(xs: Seq<nat>) -> nat
    decreases xs.len(),
{
    if xs.len() == 0 {
        1
    } else {
        field_mul(product_of_negatives(xs.drop_last()), field_sub(0, xs.last()))
    }
}

/// Interpolation through one point fewer than the polynomial has
/// coefficients misses the value at zero by the highest coefficient times the
/// product of the negatives of the points.
pub proof fn lemma_interpolation_with_one_point_too_few(coeffs: Seq<nat>, xs: Seq<nat>)
    requires
        coeffs.len() == xs.len() + 1,
        are_residues(xs),
        are_distinct(xs),
    ensures
        interpolate_at_zero(xs, poly_values(coeffs, xs)) == field_sub(
            poly_eval(coeffs, 0),
            field_mul(coeffs.last(), product_of_negatives(xs)),
        ),
    decreases xs.len(),
{
    let top = coeffs.last();
    if xs.len() == 0 {
        assert(lagrange_terms(xs, poly_values(coeffs, xs)) =~= Seq::<nat>::empty());
        lemma_poly_eval_at_zero(coeffs);
        lemma_field_mul_one(top);
        lemma_field_sub_self(top % order());
    } else {
        let b = xs.last();
        let front = xs.drop_last();
        let quotient = poly_quotient(coeffs, b);
        let negative = field_sub(0, b);
        let at_last = poly_eval(coeffs, b);
        let quotient_at_zero = poly_eval(quotient, 0);
        let shorter = product_of_negatives(front);
        lemma_unit_denominators_of_distinct_points(xs);
        lemma_residues_without_last(xs);
        assert(are_distinct(front)) by {
            assert forall|i: int, j: int|
                0 <= i < front.len() && 0 <= j < front.len() && i != j implies front[i]
                != front[j] by {
                assert(front[i] == xs[i] && front[j] == xs[j]);
            }
        }
        lemma_poly_quotient_len(coeffs, b);
        lemma_poly_quotient_last(coeffs, b);
        lemma_interpolation_with_one_point_too_few(quotient, front);
        lemma_interpolation_without_last(coeffs, xs);
        lemma_poly_division(coeffs, b, 0);
        // b' (q0 - top' s) = b' q0 - top (s b')
        lemma_field_mul_reduces(top, shorter);
        lemma_field_mul_distributes_over_sub(
            negative,
            quotient_at_zero,
            field_mul(top, shorter),
        );
        lemma_field_mul_commutative(negative, field_mul(top, shorter));
        lemma_field_mul_associative(top, shorter, negative);
        lemma_field_add_then_sub(
            at_last,
            field_mul(negative, quotient_at_zero),
            field_mul(top, product_of_negatives(xs)),
        );
    }
}

/// The product of the negatives of points other than zero has an inverse.
pub proof fn lemma_product_of_negatives_is_unit(xs: Seq<nat>)
    requires
        are_residues(xs),
        are_nonzero(xs),
    ensures
        is_unit(product_of_negatives(xs)),
    decreases xs.len(),
{
    if xs.len() == 0 {
        lemma_zero_and_one(1);
    } else {
        let front = xs.drop_last();
        let negative = field_sub(0, xs.last());
        lemma_residues_without_last(xs);
        assert(are_nonzero(front)) by {
            assert forall|i: int| 0 <= i < front.len() implies #[trigger] front[i] != 0 by {
                assert(front[i] == xs[i]);
            }
        }
        lemma_product_of_negatives_is_unit(front);
        assert(0 < xs.last() < order());
        lemma_field_sub_is_zero(0, xs.last());
        lemma_field_residues(0, xs.last());
        lemma_residues_form_a_field();
        assert(is_unit(negative));
        lemma_field_inv_of_product(product_of_negatives(front), negative);
    }
}

/// Residues stay residues when the last is taken off.
proof fn lemma_residues_without_last(xs: Seq<nat>)
    requires
        are_residues(xs),
        xs.len() >= 1,
    ensures
        are_residues(xs.drop_last()),
{
    let front = xs.drop_last();
    assert forall|i: int| 0 <= i < front.len() implies #[trigger] front[i] < order() by {
        assert(front[i] == xs[i]);
    }
}

} // verus!
