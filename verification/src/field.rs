//! Arithmetic modulo the order of the SM2 group, as the contracts of this
//! library speak of it: residues are natural numbers below `order()`.

use vstd::arithmetic::div_mod::{
    lemma_add_mod_noop, lemma_add_mod_noop_right, lemma_mul_mod_noop_general, lemma_small_mod,
    lemma_sub_mod_noop, lemma_sub_mod_noop_right,
};
use vstd::arithmetic::mul::{
    lemma_mul_is_associative, lemma_mul_is_commutative, lemma_mul_is_distributive_add,
    lemma_mul_is_distributive_sub,
};
use vstd::prelude::*;

verus! {

/// The order of the group of points on the SM2 curve: the modulus of the scalar field.
pub open spec fn order() -> nat {
    0xFFFFFFFEFFFFFFFFFFFFFFFFFFFFFFFF7203DF6B21C6052B53BBF40939D54123nat
}

/// The sum of two residues.
#[verifier::opaque]
pub open spec fn field_add(a: nat, b: nat) -> nat {
    (a + b) % order()
}

/// The difference of two residues.
#[verifier::opaque]
pub open spec fn field_sub(a: nat, b: nat) -> nat {
    ((a as int - b as int) % (order() as int)) as nat
}

/// The product of two residues.
#[verifier::opaque]
pub open spec fn field_mul(a: nat, b: nat) -> nat {
    (a * b) % order()
}

/// `a` raised to the power `e`; the empty product is one.
pub open spec fn field_pow(a: nat, e: nat) -> nat
    decreases e,
{
    if e == 0 {
        1
    } else {
        field_mul(a, field_pow(a, (e - 1) as nat))
    }
}

/// `b` is a residue whose product with `a` is one.
pub open spec fn is_inverse_of(a: nat, b: nat) -> bool {
    b < order() && field_mul(a, b) == 1
}

/// `a` has a multiplicative inverse.
pub open spec fn is_unit(a: nat) -> bool {
    exists|b: nat| is_inverse_of(a, b)
}

/// The multiplicative inverse of a unit `a`.
pub open spec fn field_inv(a: nat) -> nat {
    choose|b: nat| is_inverse_of(a, b)
}

/// Every residue but zero has a multiplicative inverse: the residues form a
/// field. This holds because the order of the SM2 group is a prime number.
pub open spec fn nonzero_residues_are_units() -> bool {
    forall|a: nat| 0 < a < order() ==> is_unit(a)
}

/// Sums, differences and products are residues.
pub proof fn lemma_field_residues(a: nat, b: nat)
    ensures
        field_add(a, b) < order(),
        field_sub(a, b) < order(),
        field_mul(a, b) < order(),
{
    reveal(field_add);
    reveal(field_sub);
    reveal(field_mul);
}

/// The order of the summands is of no account.
pub proof fn lemma_field_add_commutative(a: nat, b: nat)
    ensures
        field_add(a, b) == field_add(b, a),
{
    reveal(field_add);
}

/// Sums may be regrouped.
pub proof fn lemma_field_add_associative(a: nat, b: nat, c: nat)
    ensures
        field_add(field_add(a, b), c) == field_add(a, field_add(b, c)),
{
    reveal(field_add);
    let q = order() as int;
    let ab = (a + b) as int;
    let bc = (b + c) as int;
    assert((c + ab % q) % q == (c + ab) % q) by {
        lemma_add_mod_noop_right(c as int, ab, q);
    }
    assert((a + bc % q) % q == (a + bc) % q) by {
        lemma_add_mod_noop_right(a as int, bc, q);
    }
}

/// Adding zero changes nothing but to reduce.
pub proof fn lemma_field_add_zero(a: nat)
    ensures
        field_add(a, 0) == a % order(),
        field_add(0, a) == a % order(),
{
    reveal(field_add);
}

/// A summand may be reduced first: the sum is the same.
pub proof fn lemma_field_add_reduces(a: nat, b: nat)
    ensures
        field_add(a % order(), b) == field_add(a, b),
        field_add(a, b % order()) == field_add(a, b),
{
    reveal(field_add);
    let q = order() as int;
    lemma_add_mod_noop_right(a as int, b as int, q);
    lemma_add_mod_noop_right(b as int, a as int, q);
}

/// What is added to the same residue is determined by the sum.
pub proof fn lemma_field_add_cancel(a: nat, b: nat, c: nat)
    requires
        a < order(),
        b < order(),
        field_add(a, c) == field_add(b, c),
    ensures
        a == b,
{
    reveal(field_add);
    let q = order() as int;
    lemma_add_mod_noop_right(a as int, c as int, q);
    lemma_add_mod_noop_right(b as int, c as int, q);
    let r = (c % order()) as int;
    assert((a + r) % q == (b + r) % q);
}

/// Taking a number from itself leaves zero.
pub proof fn lemma_field_sub_self(a: nat)
    ensures
        field_sub(a, a) == 0,
{
    reveal(field_sub);
}

/// Taking a residue away leaves the same only where what is taken is zero.
pub proof fn lemma_field_sub_of_zero(a: nat, b: nat)
    requires
        a < order(),
        b < order(),
    ensures
        field_sub(a, b) == a <==> b == 0,
{
    reveal(field_sub);
}

/// The difference of two residues is zero only where they are the same.
pub proof fn lemma_field_sub_is_zero(a: nat, b: nat)
    requires
        a < order(),
        b < order(),
    ensures
        field_sub(a, b) == 0 <==> a == b,
{
    reveal(field_sub);
}

/// Adding back what was taken away.
pub proof fn lemma_field_sub_then_add(a: nat, b: nat)
    ensures
        field_add(field_sub(a, b), b) == a % order(),
        field_add(b, field_sub(a, b)) == a % order(),
{
    reveal(field_sub);
    reveal(field_add);
    let q = order() as int;
    lemma_add_mod_noop(a as int - b as int, b as int, q);
    lemma_add_mod_noop(b as int, a as int - b as int, q);
}

/// Taking the same residue away from both sides leaves the difference as it was.
pub proof fn lemma_field_sub_of_differences(a: nat, b: nat, c: nat)
    ensures
        field_sub(field_sub(a, c), field_sub(b, c)) == field_sub(a, b),
{
    reveal(field_sub);
    let q = order() as int;
    lemma_sub_mod_noop(a as int - c as int, b as int - c as int, q);
}

/// A difference is the negative of the difference the other way round.
pub proof fn lemma_field_sub_negates(a: nat, b: nat)
    ensures
        field_sub(a, b) == field_sub(0, field_sub(b, a)),
{
    reveal(field_sub);
    let q = order() as int;
    lemma_sub_mod_noop_right(0, b as int - a as int, q);
}

/// Taking away from a sum is adding what is left of the second summand.
pub proof fn lemma_field_add_then_sub(a: nat, b: nat, c: nat)
    ensures
        field_add(a, field_sub(b, c)) == field_sub(field_add(a, b), c),
{
    reveal(field_add);
    reveal(field_sub);
    let q = order() as int;
    lemma_add_mod_noop_right(a as int, b as int - c as int, q);
    lemma_sub_mod_noop((a + b) as int, c as int, q);
    lemma_small_mod(((a + b) % order()) as nat, order());
}

/// Sums of sums may be regrouped.
pub proof fn lemma_field_add_interchange(a: nat, b: nat, c: nat, d: nat)
    ensures
        field_add(field_add(a, b), field_add(c, d)) == field_add(
            field_add(a, c),
            field_add(b, d),
        ),
{
    reveal(field_add);
    let q = order() as int;
    lemma_add_mod_noop((a + b) as int, (c + d) as int, q);
    lemma_add_mod_noop((a + c) as int, (b + d) as int, q);
}

/// A sum of differences is the difference of the sums.
pub proof fn lemma_field_sub_interchange(a: nat, b: nat, c: nat, d: nat)
    ensures
        field_add(field_sub(a, b), field_sub(c, d)) == field_sub(
            field_add(a, c),
            field_add(b, d),
        ),
{
    reveal(field_add);
    reveal(field_sub);
    let q = order() as int;
    lemma_add_mod_noop(a as int - b as int, c as int - d as int, q);
    lemma_sub_mod_noop((a + c) as int, (b + d) as int, q);
}

/// The order of the factors is of no account.
pub proof fn lemma_field_mul_commutative(a: nat, b: nat)
    ensures
        field_mul(a, b) == field_mul(b, a),
{
    reveal(field_mul);
    lemma_mul_is_commutative(a as int, b as int);
}

/// Products may be regrouped.
pub proof fn lemma_field_mul_associative(a: nat, b: nat, c: nat)
    ensures
        field_mul(field_mul(a, b), c) == field_mul(a, field_mul(b, c)),
{
    reveal(field_mul);
    let q = order() as int;
    lemma_mul_mod_noop_general((a * b) as int, c as int, q);
    lemma_mul_mod_noop_general(a as int, (b * c) as int, q);
    lemma_mul_is_associative(a as int, b as int, c as int);
}

/// A factor may be reduced first: the product is the same.
pub proof fn lemma_field_mul_reduces(a: nat, b: nat)
    ensures
        field_mul(a % order(), b) == field_mul(a, b),
        field_mul(a, b % order()) == field_mul(a, b),
{
    reveal(field_mul);
    lemma_mul_mod_noop_general(a as int, b as int, order() as int);
}

/// Multiplying by one changes nothing but to reduce.
pub proof fn lemma_field_mul_one(a: nat)
    ensures
        field_mul(a, 1) == a % order(),
        field_mul(1, a) == a % order(),
{
    reveal(field_mul);
    assert(a * 1 == a) by (nonlinear_arith);
    assert(1 * a == a) by (nonlinear_arith);
}

/// A product with zero is zero.
pub proof fn lemma_field_mul_zero(a: nat)
    ensures
        field_mul(a, 0) == 0,
        field_mul(0, a) == 0,
{
    reveal(field_mul);
    assert(a * 0 == 0) by (nonlinear_arith);
    assert(0 * a == 0) by (nonlinear_arith);
}

/// A product with a sum is the sum of the products.
pub proof fn lemma_field_mul_distributes_over_add(a: nat, b: nat, c: nat)
    ensures
        field_mul(a, field_add(b, c)) == field_add(field_mul(a, b), field_mul(a, c)),
        field_mul(field_add(b, c), a) == field_add(field_mul(b, a), field_mul(c, a)),
{
    reveal(field_mul);
    reveal(field_add);
    let q = order() as int;
    lemma_mul_mod_noop_general(a as int, (b + c) as int, q);
    lemma_mul_is_distributive_add(a as int, b as int, c as int);
    lemma_add_mod_noop((a * b) as int, (a * c) as int, q);
    lemma_mul_is_commutative(a as int, ((b + c) % order()) as int);
    lemma_mul_is_commutative(a as int, b as int);
    lemma_mul_is_commutative(a as int, c as int);
}

/// A product with a difference is the difference of the products.
pub proof fn lemma_field_mul_distributes_over_sub(a: nat, b: nat, c: nat)
    ensures
        field_mul(a, field_sub(b, c)) == field_sub(field_mul(a, b), field_mul(a, c)),
        field_mul(field_sub(b, c), a) == field_sub(field_mul(b, a), field_mul(c, a)),
{
    reveal(field_mul);
    reveal(field_sub);
    let q = order() as int;
    lemma_mul_mod_noop_general(a as int, b as int - c as int, q);
    lemma_mul_is_distributive_sub(a as int, b as int, c as int);
    lemma_sub_mod_noop((a * b) as int, (a * c) as int, q);
    lemma_mul_is_commutative(a as int, (b as int - c as int) % q);
    lemma_mul_is_commutative(a as int, b as int);
    lemma_mul_is_commutative(a as int, c as int);
}

/// The product with a negative is the negative of the product.
pub proof fn lemma_field_mul_negative(u: nat, v: nat)
    ensures
        field_mul(field_sub(0, u), v) == field_sub(0, field_mul(u, v)),
        field_mul(v, field_sub(0, u)) == field_sub(0, field_mul(v, u)),
{
    lemma_field_mul_distributes_over_sub(v, 0, u);
    lemma_field_mul_zero(v);
}

/// What stands to the left of a unit in a product is determined by the product.
pub proof fn lemma_field_mul_cancel(a: nat, b: nat, u: nat)
    requires
        a < order(),
        b < order(),
        is_unit(u),
        field_mul(a, u) == field_mul(b, u),
    ensures
        a == b,
{
    let v = field_inv(u);
    lemma_field_mul_associative(a, u, v);
    lemma_field_mul_associative(b, u, v);
    lemma_field_mul_one(a);
    lemma_field_mul_one(b);
    lemma_small_mod(a, order());
    lemma_small_mod(b, order());
}

/// A unit has one inverse only.
pub proof fn lemma_field_inv_unique(a: nat, b: nat)
    requires
        is_inverse_of(a, b),
    ensures
        field_inv(a) == b,
        is_unit(a),
{
    let c = field_inv(a);
    assert(is_inverse_of(a, c));
    lemma_field_mul_commutative(a, b);
    lemma_field_mul_commutative(a, c);
    lemma_field_mul_cancel(b, c, a);
}

/// The inverse of a unit is a residue, and their product is one.
pub proof fn lemma_field_inv_is_inverse(a: nat)
    requires
        is_unit(a),
    ensures
        field_inv(a) < order(),
        field_mul(a, field_inv(a)) == 1,
        field_mul(field_inv(a), a) == 1,
{
    lemma_field_mul_commutative(a, field_inv(a));
}

/// The product of two units is a unit, and its inverse is the product of theirs.
pub proof fn lemma_field_inv_of_product(a: nat, b: nat)
    requires
        is_unit(a),
        is_unit(b),
    ensures
        is_unit(field_mul(a, b)),
        field_inv(field_mul(a, b)) == field_mul(field_inv(a), field_inv(b)),
{
    let ia = field_inv(a);
    let ib = field_inv(b);
    let p = field_mul(a, b);
    let ip = field_mul(ia, ib);
    lemma_field_residues(ia, ib);
    // (a b)(ia ib) = a (b (ia ib)) = a (ia (b ib)) = a ia = 1
    lemma_field_mul_associative(a, b, ip);
    lemma_field_mul_associative(b, ia, ib);
    lemma_field_mul_commutative(b, ia);
    lemma_field_mul_associative(ia, b, ib);
    assert(field_mul(b, ip) == field_mul(ia, field_mul(b, ib)));
    lemma_field_mul_one(ia);
    lemma_small_mod(ia, order());
    assert(field_mul(b, ip) == ia);
    assert(field_mul(p, ip) == 1);
    assert(is_inverse_of(p, ip));
    lemma_field_inv_unique(p, ip);
}

/// Each factor of a unit is a unit.
pub proof fn lemma_factors_of_unit_are_units(a: nat, b: nat)
    requires
        is_unit(field_mul(a, b)),
    ensures
        is_unit(a),
        is_unit(b),
{
    let p = field_mul(a, b);
    let ip = field_inv(p);
    assert(is_inverse_of(p, ip));
    lemma_field_residues(b, ip);
    lemma_field_residues(a, ip);
    // a (b ip) = (a b) ip = 1
    lemma_field_mul_associative(a, b, ip);
    assert(is_inverse_of(a, field_mul(b, ip)));
    // b (a ip) = (b a) ip = 1
    lemma_field_mul_commutative(a, b);
    lemma_field_mul_associative(b, a, ip);
    assert(is_inverse_of(b, field_mul(a, ip)));
}

/// Zero is no unit, and one is a unit and its own inverse.
pub proof fn lemma_zero_and_one(a: nat)
    ensures
        is_unit(a) ==> a % order() != 0,
        is_unit(1),
        field_inv(1) == 1,
{
    if is_unit(a) {
        let b = field_inv(a);
        assert(is_inverse_of(a, b));
        lemma_field_mul_reduces(a, b);
        if a % order() == 0 {
            lemma_field_mul_zero(b);
        }
    }
    lemma_field_mul_one(1);
    assert(is_inverse_of(1, 1));
    lemma_field_inv_unique(1, 1);
}

/// The sum of a sequence of residues.
pub open spec fn field_sum(terms: Seq<nat>) -> nat
    decreases terms.len(),
{
    if terms.len() == 0 {
        0
    } else {
        field_add(field_sum(terms.drop_last()), terms.last())
    }
}

/// A sum of terms is a residue.
pub proof fn lemma_field_sum_is_residue(terms: Seq<nat>)
    ensures
        field_sum(terms) < order(),
{
    if terms.len() > 0 {
        lemma_field_residues(field_sum(terms.drop_last()), terms.last());
    }
}

/// The sum with one more term at the end.
pub proof fn lemma_field_sum_push(terms: Seq<nat>, last: nat)
    ensures
        field_sum(terms.push(last)) == field_add(field_sum(terms), last),
{
    assert(terms.push(last).drop_last() =~= terms);
}

/// The sum with one more term at the front.
pub proof fn lemma_field_sum_prepend(first: nat, terms: Seq<nat>)
    ensures
        field_sum(seq![first] + terms) == field_add(first, field_sum(terms)),
    decreases terms.len(),
{
    let all = seq![first] + terms;
    if terms.len() == 0 {
        assert(all.drop_last() =~= Seq::<nat>::empty());
        assert(field_sum(Seq::<nat>::empty()) == 0);
        assert(field_sum(all) == field_add(0, first));
        lemma_field_add_commutative(0, first);
    } else {
        assert(all.drop_last() =~= seq![first] + terms.drop_last());
        assert(all.last() == terms.last());
        lemma_field_sum_prepend(first, terms.drop_last());
        lemma_field_add_associative(first, field_sum(terms.drop_last()), terms.last());
    }
}

/// Two sequences of residues that differ in one term at most and have the
/// same sum are the same in that term too.
pub proof fn lemma_field_sum_tells_terms_apart(s: Seq<nat>, t: Seq<nat>, i: int)
    requires
        s.len() == t.len(),
        0 <= i < s.len(),
        s[i] < order(),
        t[i] < order(),
        forall|k: int| 0 <= k < s.len() && k != i ==> s[k] == t[k],
        field_sum(s) == field_sum(t),
    ensures
        s[i] == t[i],
    decreases s.len(),
{
    let s_front = s.drop_last();
    let t_front = t.drop_last();
    if i == s.len() - 1 {
        assert(s_front =~= t_front);
        lemma_field_add_commutative(field_sum(s_front), s.last());
        lemma_field_add_commutative(field_sum(t_front), t.last());
        lemma_field_add_cancel(s.last(), t.last(), field_sum(s_front));
    } else {
        lemma_field_sum_is_residue(s_front);
        lemma_field_sum_is_residue(t_front);
        lemma_field_add_cancel(field_sum(s_front), field_sum(t_front), s.last());
        lemma_field_sum_tells_terms_apart(s_front, t_front, i);
    }
}

/// The sum of termwise sums is the sum of the sums.
pub proof fn lemma_field_sum_of_sums(w: Seq<nat>, u: Seq<nat>, v: Seq<nat>)
    requires
        w.len() == u.len(),
        w.len() == v.len(),
        forall|i: int| 0 <= i < w.len() ==> w[i] == field_add(u[i], v[i]),
    ensures
        field_sum(w) == field_add(field_sum(u), field_sum(v)),
    decreases w.len(),
{
    if w.len() == 0 {
        lemma_field_add_zero(0);
    } else {
        lemma_field_sum_of_sums(w.drop_last(), u.drop_last(), v.drop_last());
        lemma_field_add_interchange(
            field_sum(u.drop_last()),
            field_sum(v.drop_last()),
            u.last(),
            v.last(),
        );
    }
}

/// The sum of termwise differences is the difference of the sums.
pub proof fn lemma_field_sum_of_differences(w: Seq<nat>, u: Seq<nat>, v: Seq<nat>)
    requires
        w.len() == u.len(),
        w.len() == v.len(),
        forall|i: int| 0 <= i < w.len() ==> w[i] == field_sub(u[i], v[i]),
    ensures
        field_sum(w) == field_sub(field_sum(u), field_sum(v)),
    decreases w.len(),
{
    if w.len() == 0 {
        lemma_field_sub_self(0);
    } else {
        lemma_field_sum_of_differences(w.drop_last(), u.drop_last(), v.drop_last());
        lemma_field_sub_interchange(
            field_sum(u.drop_last()),
            field_sum(v.drop_last()),
            u.last(),
            v.last(),
        );
    }
}

/// The sum of the terms each multiplied by `k` is `k` times the sum.
pub proof fn lemma_field_sum_scaled(w: Seq<nat>, k: nat, u: Seq<nat>)
    requires
        w.len() == u.len(),
        forall|i: int| 0 <= i < w.len() ==> w[i] == field_mul(k, u[i]),
    ensures
        field_sum(w) == field_mul(k, field_sum(u)),
    decreases w.len(),
{
    if w.len() == 0 {
        lemma_field_mul_zero(k);
    } else {
        lemma_field_sum_scaled(w.drop_last(), k, u.drop_last());
        lemma_field_mul_distributes_over_add(k, field_sum(u.drop_last()), u.last());
    }
}

} // verus!
