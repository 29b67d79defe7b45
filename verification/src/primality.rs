//! Prime numbers, and why a number with a Pocklington certificate is one.

use vstd::arithmetic::div_mod::{
    lemma_fundamental_div_mod, lemma_fundamental_div_mod_converse, lemma_mod_mod,
    lemma_mod_multiples_basic, lemma_mul_mod_noop_general, lemma_small_mod,
};
use vstd::arithmetic::mul::{lemma_mul_is_associative, lemma_mul_is_commutative};
use vstd::prelude::*;
use vstd::relations::injective_on;
use vstd::set_lib::{lemma_int_range, lemma_len_subset, lemma_map_size, set_int_range};

verus! {

/// `d` divides `n`.
pub open spec fn divides(d: nat, n: nat) -> bool {
    n % d == 0
}

/// `p` is a prime number.
pub open spec fn is_prime(p: nat) -> bool {
    p >= 2 && forall|d: nat| 1 < d < p ==> !#[trigger] divides(d, p)
}

/// `a` raised to the power `e`, modulo `m`.
#[verifier::opaque]
pub open spec fn mod_pow(a: nat, e: nat, m: nat) -> nat
    decreases e,
{
    if e == 0 {
        1
    } else {
        (a * mod_pow(a, (e - 1) as nat, m)) % m
    }
}

/// A power modulo `m` is below `m`.
pub proof fn lemma_mod_pow_bound(a: nat, e: nat, m: nat)
    requires
        m >= 2,
    ensures
        mod_pow(a, e, m) < m,
{
    reveal(mod_pow);
}

/// The power with a sum as exponent is the product of the powers.
pub proof fn lemma_mod_pow_add(a: nat, i: nat, j: nat, m: nat)
    requires
        m >= 2,
    ensures
        mod_pow(a, i + j, m) == (mod_pow(a, i, m) * mod_pow(a, j, m)) % m,
    decreases i,
{
    reveal(mod_pow);
    let tail = mod_pow(a, j, m);
    if i == 0 {
        lemma_mod_pow_bound(a, j, m);
        lemma_small_mod(tail, m);
        assert(1 * tail == tail) by (nonlinear_arith);
    } else {
        let head = mod_pow(a, (i - 1) as nat, m);
        lemma_mod_pow_add(a, (i - 1) as nat, j, m);
        assert(mod_pow(a, i + j, m) == (a * mod_pow(a, (i - 1 + j) as nat, m)) % m);
        lemma_mul_mod_noop_general(a as int, (head * tail) as int, m as int);
        lemma_mul_is_associative(a as int, head as int, tail as int);
        lemma_mul_mod_noop_general((a * head) as int, tail as int, m as int);
    }
}

/// The power with a product as exponent is the power of the power.
pub proof fn lemma_mod_pow_mul(a: nat, i: nat, j: nat, m: nat)
    requires
        m >= 2,
    ensures
        mod_pow(a, i * j, m) == mod_pow(mod_pow(a, i, m), j, m),
    decreases j,
{
    reveal(mod_pow);
    let b = mod_pow(a, i, m);
    if j == 0 {
        assert(i * 0 == 0) by (nonlinear_arith);
    } else {
        let before = (j - 1) as nat;
        lemma_mod_pow_mul(a, i, before, m);
        assert(i * j == i * before + i) by (nonlinear_arith)
            requires
                before + 1 == j,
        ;
        lemma_mod_pow_add(a, i * before, i, m);
        lemma_mul_is_commutative(mod_pow(b, before, m) as int, b as int);
    }
}

/// Every power of one is one.
pub proof fn lemma_mod_pow_of_one(e: nat, m: nat)
    requires
        m >= 2,
    ensures
        mod_pow(1, e, m) == 1,
    decreases e,
{
    reveal(mod_pow);
    if e > 0 {
        lemma_mod_pow_of_one((e - 1) as nat, m);
        assert(1nat * 1nat == 1) by (nonlinear_arith);
        lemma_small_mod(1, m);
    }
}

/// The power of a base and of the base reduced are the same.
pub proof fn lemma_mod_pow_of_reduced_base(a: nat, e: nat, m: nat)
    requires
        m >= 2,
    ensures
        mod_pow(a % m, e, m) == mod_pow(a, e, m),
    decreases e,
{
    reveal(mod_pow);
    if e > 0 {
        lemma_mod_pow_of_reduced_base(a, (e - 1) as nat, m);
        lemma_mul_mod_noop_general(a as int, mod_pow(a, (e - 1) as nat, m) as int, m as int);
    }
}

/// A power modulo `n`, reduced modulo a divisor `p` of `n`, is the power modulo `p`.
pub proof fn lemma_mod_pow_modulo_divisor(a: nat, e: nat, n: nat, p: nat)
    requires
        n >= 2,
        p >= 2,
        divides(p, n),
    ensures
        mod_pow(a, e, n) % p == mod_pow(a, e, p),
    decreases e,
{
    reveal(mod_pow);
    if e == 0 {
        lemma_small_mod(1, p);
    } else {
        let over_n = mod_pow(a, (e - 1) as nat, n);
        lemma_mod_pow_modulo_divisor(a, (e - 1) as nat, n, p);
        let cofactor = n / p;
        lemma_fundamental_div_mod(n as int, p as int);
        assert(cofactor > 0) by (nonlinear_arith)
            requires
                n == p * cofactor,
                n >= 2,
        ;
        lemma_mod_mod((a * over_n) as int, p as int, cofactor as int);
        lemma_mul_mod_noop_general(a as int, over_n as int, p as int);
    }
}

/// Modulo a prime every number between zero and the prime has an inverse.
pub proof fn lemma_inverse_modulo_prime(p: nat, a: nat) -> (b: nat)
    requires
        is_prime(p),
        0 < a < p,
    ensures
        0 < b < p,
        (a * b) % p == 1,
    decreases a,
{
    if a == 1 {
        assert(1nat * 1nat == 1) by (nonlinear_arith);
        lemma_small_mod(1, p);
        1
    } else {
        let q = p / a;
        let r = p % a;
        lemma_fundamental_div_mod(p as int, a as int);
        assert(!divides(a, p));
        let s = lemma_inverse_modulo_prime(p, r);
        let t = (r * s) / p;
        lemma_fundamental_div_mod((r * s) as int, p as int);
        // a (q s) = p (s - t - 1) + (p - 1)
        assert(a * (q * s) == p * (s - t - 1) + (p - 1)) by (nonlinear_arith)
            requires
                p == a * q + r,
                r * s == p * t + 1,
        ;
        lemma_fundamental_div_mod_converse(
            (a * (q * s)) as int,
            p as int,
            s - t - 1,
            p - 1,
        );
        let c = (q * s) % p;
        lemma_mul_mod_noop_general(a as int, (q * s) as int, p as int);
        assert((a * c) % p == p - 1);
        assert(c != 0) by {
            if c == 0 {
                assert(a * 0 == 0) by (nonlinear_arith);
                lemma_small_mod(0, p);
            }
        }
        let b = (p - c) as nat;
        let k = (a * c) / p;
        lemma_fundamental_div_mod((a * c) as int, p as int);
        assert(a * b == p * (a - k - 1) + 1) by (nonlinear_arith)
            requires
                b == p - c,
                a * c == p * k + (p - 1),
        ;
        lemma_fundamental_div_mod_converse((a * b) as int, p as int, a - k - 1, 1);
        b
    }
}

/// The least divisor above one of a number that has a divisor `d` above one.
proof fn lemma_least_divisor(n: nat, from: nat, d: nat) -> (p: nat)
    requires
        2 <= from <= d,
        divides(d, n),
        forall|e: nat| 1 < e < from ==> !#[trigger] divides(e, n),
    ensures
        from <= p <= d,
        divides(p, n),
        forall|e: nat| 1 < e < p ==> !#[trigger] divides(e, n),
    decreases d - from,
{
    if divides(from, n) {
        from
    } else {
        lemma_least_divisor(n, from + 1, d)
    }
}

/// A number that is not prime has a divisor above one whose square is not above it.
pub proof fn lemma_composite_has_small_divisor(n: nat) -> (p: nat)
    requires
        n >= 2,
        !is_prime(n),
    ensures
        p >= 2,
        p * p <= n,
        divides(p, n),
{
    let d = choose|d: nat| 1 < d < n && #[trigger] divides(d, n);
    let p = lemma_least_divisor(n, 2, d);
    let e = n / p;
    lemma_fundamental_div_mod(n as int, p as int);
    assert(n == p * e);
    assert(1 < e < n) by (nonlinear_arith)
        requires
            n == p * e,
            2 <= p < n,
    ;
    assert(divides(e, n)) by {
        lemma_mul_is_commutative(p as int, e as int);
        lemma_mod_multiples_basic(p as int, e as int);
    }
    assert(e >= p);
    assert(p * p <= n) by (nonlinear_arith)
        requires
            n == p * e,
            e >= p,
    ;
    p
}

/// Where `x` to the prime `q` is one and `x` to some `k` that `q` does not
/// divide is one, `x` itself is one.
pub proof fn lemma_exponent_prime_to_order(x: nat, q: nat, k: nat, p: nat)
    requires
        is_prime(q),
        p >= 2,
        mod_pow(x, q, p) == 1,
        mod_pow(x, k, p) == 1,
        k % q != 0,
    ensures
        x % p == 1,
{
    reveal(mod_pow);
    let k0 = k % q;
    let m = k / q;
    lemma_fundamental_div_mod(k as int, q as int);
    // x^(q m) = (x^q)^m = 1, so x^k0 = x^k = 1
    lemma_mod_pow_mul(x, q, m, p);
    lemma_mod_pow_of_one(m, p);
    lemma_mod_pow_add(x, q * m, k0, p);
    lemma_mod_pow_bound(x, k0, p);
    assert(1 * mod_pow(x, k0, p) == mod_pow(x, k0, p)) by (nonlinear_arith);
    lemma_small_mod(mod_pow(x, k0, p), p);
    assert(mod_pow(x, k0, p) == 1);
    // k0 s = q t + 1
    let s = lemma_inverse_modulo_prime(q, k0);
    let t = (k0 * s) / q;
    lemma_fundamental_div_mod((k0 * s) as int, q as int);
    // x^(k0 s) = 1, and x^(q t + 1) = x
    lemma_mod_pow_mul(x, k0, s, p);
    lemma_mod_pow_of_one(s, p);
    lemma_mod_pow_mul(x, q, t, p);
    lemma_mod_pow_of_one(t, p);
    lemma_mod_pow_add(x, q * t, 1, p);
    assert(mod_pow(x, 1, p) == (x * mod_pow(x, 0, p)) % p);
    assert(x * 1 == x) by (nonlinear_arith);
    let reduced = x % p;
    assert(mod_pow(x, 1, p) == reduced);
    assert(1 * reduced == reduced) by (nonlinear_arith);
    lemma_small_mod(reduced, p);
}

/// Where `c` to the power `f` is one modulo `p` and no smaller power of `c`
/// is, there are `f` powers of `c`, all different and none zero: `f` is below `p`.
pub proof fn lemma_order_is_below_modulus(c: nat, f: nat, p: nat)
    requires
        p >= 2,
        f >= 1,
        mod_pow(c, f, p) == 1,
        forall|k: nat| 0 < k < f ==> #[trigger] mod_pow(c, k, p) != 1,
    ensures
        f < p,
{
    let exponents = set_int_range(0, f as int);
    let residues = set_int_range(1, p as int);
    let power = |i: int| mod_pow(c, i as nat, p) as int;
    let powers = exponents.map(power);
    lemma_int_range(0, f as int);
    lemma_int_range(1, p as int);
    assert(injective_on(power, exponents)) by {
        assert forall|i: int, j: int|
            exponents.contains(i) && exponents.contains(j) && #[trigger] power(i)
                == #[trigger] power(j) implies i == j by {
            if i < j {
                lemma_powers_differ(c, f, p, i as nat, j as nat);
            } else if j < i {
                lemma_powers_differ(c, f, p, j as nat, i as nat);
            }
        }
    }
    lemma_map_size(exponents, powers, power);
    assert(powers.subset_of(residues)) by {
        assert forall|y: int| powers.contains(y) implies residues.contains(y) by {
            let i = choose|i: int| exponents.contains(i) && y == power(i);
            lemma_power_is_not_zero(c, f, p, i as nat);
            lemma_mod_pow_bound(c, i as nat, p);
        }
    }
    lemma_len_subset(powers, residues);
}

/// A power of `c`, where some power of `c` is one, is not zero.
proof fn lemma_power_is_not_zero(c: nat, f: nat, p: nat, i: nat)
    requires
        p >= 2,
        i < f,
        mod_pow(c, f, p) == 1,
    ensures
        mod_pow(c, i, p) != 0,
{
    lemma_mod_pow_add(c, i, (f - i) as nat, p);
    if mod_pow(c, i, p) == 0 {
        let other = mod_pow(c, (f - i) as nat, p);
        assert(0 * other == 0) by (nonlinear_arith);
        lemma_small_mod(0, p);
    }
}

/// Two powers of `c` with different exponents below `f` differ, where `f` is
/// the least exponent above zero with which the power is one.
proof fn lemma_powers_differ(c: nat, f: nat, p: nat, i: nat, j: nat)
    requires
        p >= 2,
        i < j < f,
        mod_pow(c, f, p) == 1,
        forall|k: nat| 0 < k < f ==> #[trigger] mod_pow(c, k, p) != 1,
    ensures
        mod_pow(c, i, p) != mod_pow(c, j, p),
{
    if mod_pow(c, i, p) == mod_pow(c, j, p) {
        let rest = (f - i) as nat;
        let gap = (j - i) as nat;
        // c^rest c^i = c^f = 1, and c^rest c^j = c^f c^gap = c^gap
        lemma_mod_pow_add(c, rest, i, p);
        lemma_mod_pow_add(c, rest, j, p);
        lemma_mod_pow_add(c, f, gap, p);
        lemma_mod_pow_bound(c, gap, p);
        assert(1 * mod_pow(c, gap, p) == mod_pow(c, gap, p)) by (nonlinear_arith);
        lemma_small_mod(mod_pow(c, gap, p), p);
        assert(mod_pow(c, gap, p) == 1);
    }
}

/// Where a combination of `w - 1` and `n` is one, `w` is not one modulo any
/// divisor of `n` above one.
pub proof fn lemma_not_one_modulo_divisor(w: nat, n: nat, p: nat, u: int, v: int)
    requires
        u * (w - 1) + v * n == 1,
        p >= 2,
        divides(p, n),
    ensures
        w % p != 1,
{
    if w % p == 1 {
        let s = (w / p) as int;
        let t = (n / p) as int;
        lemma_fundamental_div_mod(w as int, p as int);
        lemma_fundamental_div_mod(n as int, p as int);
        let z = u * s + v * t;
        assert(u * (p * s) + v * (p * t) == p * z) by (nonlinear_arith)
            requires
                z == u * s + v * t,
        ;
        assert(false) by (nonlinear_arith)
            requires
                p * z == 1,
                p >= 2,
        ;
    }
}

/// The square of a number above `f` is above `f r + 1`, where `r` is not above `f`.
proof fn lemma_square_above_product(p: nat, f: nat, r: nat)
    requires
        1 <= f < p,
        f >= r,
    ensures
        p * p > f * r + 1,
{
    assert(p * p >= (f + 1) * (f + 1)) by (nonlinear_arith)
        requires
            p >= f + 1,
    ;
    assert((f + 1) * (f + 1) == f * f + 2 * f + 1) by (nonlinear_arith);
    assert(f * f >= f * r) by (nonlinear_arith)
        requires
            f >= r,
    ;
}

/// A number above one that nothing from two up to `limit` divides is prime,
/// where the square of `limit` is above the number.
pub proof fn lemma_prime_by_trial_division(n: nat, limit: nat)
    requires
        n >= 2,
        limit * limit > n,
        forall|d: nat| 2 <= d < limit ==> !#[trigger] divides(d, n),
    ensures
        is_prime(n),
{
    if !is_prime(n) {
        let p = lemma_composite_has_small_divisor(n);
        assert(p < limit) by (nonlinear_arith)
            requires
                p * p <= n,
                limit * limit > n,
        ;
    }
}

/// Pocklington's criterion with one prime: `n - 1` is `q r` with a prime `q`
/// that is not below `r`; `w` to the power `q` is one modulo `n`; and a
/// combination of `w - 1` and `n` is one. Then `n` is prime.
pub proof fn lemma_pocklington(n: nat, q: nat, r: nat, w: nat, u: int, v: int)
    requires
        n >= 2,
        is_prime(q),
        n - 1 == q * r,
        q >= r,
        mod_pow(w, q, n) == 1,
        u * (w - 1) + v * n == 1,
    ensures
        is_prime(n),
{
    if !is_prime(n) {
        let p = lemma_composite_has_small_divisor(n);
        lemma_mod_pow_modulo_divisor(w, q, n, p);
        lemma_small_mod(1, p);
        lemma_not_one_modulo_divisor(w, n, p, u, v);
        assert forall|k: nat| 0 < k < q implies #[trigger] mod_pow(w, k, p) != 1 by {
            if mod_pow(w, k, p) == 1 {
                lemma_small_mod(k, q);
                lemma_exponent_prime_to_order(w, q, k, p);
            }
        }
        lemma_order_is_below_modulus(w, q, p);
        lemma_square_above_product(p, q, r);
    }
}

/// Pocklington's criterion with two primes: `n - 1` is `q1 q2 r` with primes
/// `q1` and `q2`, of which the second does not divide the first, and whose
/// product is not below `r`; `w1` is `c` to the power `q2` and `w2` is `c` to
/// the power `q1`, modulo `n`; `w1` to the power `q1` is one; and `w1 - 1` and
/// `w2 - 1` each have a combination with `n` that is one. Then `n` is prime.
pub proof fn lemma_pocklington_two(
    n: nat,
    q1: nat,
    q2: nat,
    r: nat,
    c: nat,
    w1: nat,
    w2: nat,
    u1: int,
    v1: int,
    u2: int,
    v2: int,
)
    requires
        n >= 2,
        is_prime(q1),
        is_prime(q2),
        q1 % q2 != 0,
        n - 1 == q1 * q2 * r,
        q1 * q2 >= r,
        mod_pow(c, q2, n) == w1,
        mod_pow(c, q1, n) == w2,
        mod_pow(w1, q1, n) == 1,
        u1 * (w1 - 1) + v1 * n == 1,
        u2 * (w2 - 1) + v2 * n == 1,
    ensures
        is_prime(n),
{
    if !is_prime(n) {
        let p = lemma_composite_has_small_divisor(n);
        let f = q1 * q2;
        let x1 = mod_pow(c, q2, p);
        let x2 = mod_pow(c, q1, p);
        lemma_small_mod(1, p);
        lemma_mod_pow_modulo_divisor(c, q2, n, p);
        lemma_mod_pow_modulo_divisor(c, q1, n, p);
        lemma_mod_pow_modulo_divisor(w1, q1, n, p);
        lemma_not_one_modulo_divisor(w1, n, p, u1, v1);
        lemma_not_one_modulo_divisor(w2, n, p, u2, v2);
        assert(x1 == w1 % p && x2 == w2 % p);
        lemma_mod_pow_bound(c, q2, p);
        lemma_mod_pow_bound(c, q1, p);
        lemma_small_mod(x1, p);
        lemma_small_mod(x2, p);
        // c^(q1 q2) = x1^q1 = x2^q2 = 1
        lemma_mod_pow_of_reduced_base(w1, q1, p);
        assert(mod_pow(x1, q1, p) == 1);
        lemma_mod_pow_mul(c, q2, q1, p);
        lemma_mod_pow_mul(c, q1, q2, p);
        lemma_mul_is_commutative(q1 as int, q2 as int);
        assert(mod_pow(c, f, p) == 1);
        assert(mod_pow(x2, q2, p) == 1);
        assert(f >= 1) by (nonlinear_arith)
            requires
                f == q1 * q2,
                q1 >= 2,
                q2 >= 2,
        ;
        assert forall|k: nat| 0 < k < f implies #[trigger] mod_pow(c, k, p) != 1 by {
            if mod_pow(c, k, p) == 1 {
                // x1^k = c^(q2 k) = (c^k)^q2 = 1, and the same for x2
                lemma_mod_pow_mul(c, q2, k, p);
                lemma_mod_pow_mul(c, k, q2, p);
                lemma_mul_is_commutative(q2 as int, k as int);
                lemma_mod_pow_of_one(q2, p);
                assert(mod_pow(x1, k, p) == 1);
                lemma_mod_pow_mul(c, q1, k, p);
                lemma_mod_pow_mul(c, k, q1, p);
                lemma_mul_is_commutative(q1 as int, k as int);
                lemma_mod_pow_of_one(q1, p);
                assert(mod_pow(x2, k, p) == 1);
                if k % q1 != 0 {
                    lemma_exponent_prime_to_order(x1, q1, k, p);
                } else if k % q2 != 0 {
                    lemma_exponent_prime_to_order(x2, q2, k, p);
                } else {
                    lemma_product_of_primes_divides(q1, q2, k);
                }
            }
        }
        lemma_order_is_below_modulus(c, f, p);
        lemma_square_above_product(p, f, r);
    }
}

/// A number above zero that two primes divide, of which the second does not
/// divide the first, is not below their product.
proof fn lemma_product_of_primes_divides(q1: nat, q2: nat, k: nat)
    requires
        is_prime(q1),
        is_prime(q2),
        q1 % q2 != 0,
        k > 0,
        k % q1 == 0,
        k % q2 == 0,
    ensures
        k >= q1 * q2,
{
    let k1 = k / q1;
    lemma_fundamental_div_mod(k as int, q1 as int);
    assert(k == q1 * k1);
    // q1 s = 1 modulo q2, so k1 = k1 q1 s = k s = 0 modulo q2
    let s = lemma_inverse_modulo_prime(q2, q1 % q2);
    lemma_mul_mod_noop_general(q1 as int, s as int, q2 as int);
    assert((q1 * s) % q2 == 1);
    lemma_mul_mod_noop_general(k1 as int, (q1 * s) as int, q2 as int);
    assert(k1 * 1 == k1) by (nonlinear_arith);
    assert(k1 * (q1 * s) == k * s) by (nonlinear_arith)
        requires
            k == q1 * k1,
    ;
    lemma_mul_mod_noop_general(k as int, s as int, q2 as int);
    assert(0 * s == 0) by (nonlinear_arith);
    lemma_small_mod(0, q2);
    assert(k1 % q2 == 0);
    assert(k1 > 0) by (nonlinear_arith)
        requires
            k == q1 * k1,
            k > 0,
    ;
    if k1 < q2 {
        lemma_small_mod(k1, q2);
    }
    assert(k >= q1 * q2) by (nonlinear_arith)
        requires
            k == q1 * k1,
            k1 >= q2,
    ;
}

/// The product of `x` and `y` modulo `m`.
#[verifier::opaque]
pub open spec fn mul_mod(x: nat, y: nat, m: nat) -> nat {
    (x * y) % m
}

/// The product modulo `m` has the value that the numbers give.
pub proof fn lemma_mul_mod_value(x: nat, y: nat, m: nat, v: nat)
    requires
        (x * y) % m == v,
    ensures
        mul_mod(x, y, m) == v,
{
    reveal(mul_mod);
}

/// The power with exponent zero is one.
pub proof fn lemma_mod_pow_zero(a: nat, m: nat)
    ensures
        mod_pow(a, 0, m) == 1,
{
    reveal(mod_pow);
}

/// With a zero more at the end of the exponent, the power is squared.
pub proof fn lemma_mod_pow_even(a: nat, e: nat, m: nat, doubled: nat)
    requires
        m >= 2,
        doubled == 2 * e,
    ensures
        mod_pow(a, doubled, m) == mul_mod(mod_pow(a, e, m), mod_pow(a, e, m), m),
{
    reveal(mul_mod);
    lemma_mod_pow_add(a, e, e, m);
}

/// With a one more at the end of the exponent, the power is squared and
/// multiplied by the base.
pub proof fn lemma_mod_pow_odd(a: nat, e: nat, m: nat, next: nat)
    requires
        m >= 2,
        next == 2 * e + 1,
    ensures
        mod_pow(a, next, m) == mul_mod(a, mul_mod(mod_pow(a, e, m), mod_pow(a, e, m), m), m),
{
    reveal(mul_mod);
    reveal(mod_pow);
    lemma_mod_pow_add(a, e, e, m);
    assert(mod_pow(a, next, m) == (a * mod_pow(a, (next - 1) as nat, m)) % m);
}

} // verus!
