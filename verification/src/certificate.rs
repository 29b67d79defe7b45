//! The order of the SM2 group is a prime number, so its residues form a
//! field. The proof goes down a chain of primes: each has a Pocklington
//! certificate that rests on one or two prime factors of the number before it, and
//! the least are prime by trial division. A certificate names a witness `w`;
//! that `w` raised to the prime factor is one is shown bit by bit of the
//! exponent, each step with the numbers it gives.

use crate::field::{field_mul, is_inverse_of, is_unit, nonzero_residues_are_units, order};
use crate::primality::{
    divides, is_prime, lemma_inverse_modulo_prime, lemma_mod_pow_even, lemma_mod_pow_odd,
    lemma_mod_pow_zero, lemma_mul_mod_value, lemma_pocklington, lemma_pocklington_two,
    lemma_prime_by_trial_division, mod_pow,
};
use vstd::prelude::*;

verus! {

/// 5 is prime: nothing from 2 to 2 divides it.
proof fn lemma_prime_5()
    ensures
        is_prime(5),
{
    assert forall|d: nat| 2 <= d < 3 implies !#[trigger] divides(d, 5) by {
        if d == 2 {
            assert(5nat % 2 != 0);
        }
    }
    lemma_prime_by_trial_division(5, 3);
}

/// 13 is prime: nothing from 2 to 3 divides it.
proof fn lemma_prime_13()
    ensures
        is_prime(13),
{
    assert forall|d: nat| 2 <= d < 4 implies !#[trigger] divides(d, 13) by {
        if d == 2 {
            assert(13nat % 2 != 0);
        }
        if d == 3 {
            assert(13nat % 3 != 0);
        }
    }
    lemma_prime_by_trial_division(13, 4);
}

/// 29 is prime: nothing from 2 to 5 divides it.
proof fn lemma_prime_29()
    ensures
        is_prime(29),
{
    assert forall|d: nat| 2 <= d < 6 implies !#[trigger] divides(d, 29) by {
        if d == 2 {
            assert(29nat % 2 != 0);
        }
        if d == 3 {
            assert(29nat % 3 != 0);
        }
        if d == 4 {
            assert(29nat % 4 != 0);
        }
        if d == 5 {
            assert(29nat % 5 != 0);
        }
    }
    lemma_prime_by_trial_division(29, 6);
}

/// 83 is prime: nothing from 2 to 9 divides it.
proof fn lemma_prime_83()
    ensures
        is_prime(83),
{
    assert forall|d: nat| 2 <= d < 10 implies !#[trigger] divides(d, 83) by {
        if d == 2 {
            assert(83nat % 2 != 0);
        }
        if d == 3 {
            assert(83nat % 3 != 0);
        }
        if d == 4 {
            assert(83nat % 4 != 0);
        }
        if d == 5 {
            assert(83nat % 5 != 0);
        }
        if d == 6 {
            assert(83nat % 6 != 0);
        }
        if d == 7 {
            assert(83nat % 7 != 0);
        }
        if d == 8 {
            assert(83nat % 8 != 0);
        }
        if d == 9 {
            assert(83nat % 9 != 0);
        }
    }
    lemma_prime_by_trial_division(83, 10);
}

/// One more bit, a zero, at the end of the exponent: the power is squared.
proof fn lemma_first_power_5801_even(e: nat, x: nat, doubled: nat, square: nat)
    requires
        mod_pow(0x695nat, e, 0x16a9nat) == x,
        doubled == 2 * e,
        (x * x) % 0x16a9nat == square,
    ensures
        mod_pow(0x695nat, doubled, 0x16a9nat) == square,
{
    lemma_mul_mod_value(x, x, 0x16a9nat, square);
    lemma_mod_pow_even(0x695nat, e, 0x16a9nat, doubled);
}

/// One more bit, a one, at the end of the exponent: the power is squared and
/// multiplied by the base.
proof fn lemma_first_power_5801_odd(e: nat, x: nat, next: nat, square: nat, y: nat)
    requires
        mod_pow(0x695nat, e, 0x16a9nat) == x,
        next == 2 * e + 1,
        (x * x) % 0x16a9nat == square,
        (0x695nat * square) % 0x16a9nat == y,
    ensures
        mod_pow(0x695nat, next, 0x16a9nat) == y,
{
    lemma_mul_mod_value(x, x, 0x16a9nat, square);
    lemma_mul_mod_value(0x695nat, square, 0x16a9nat, y);
    lemma_mod_pow_odd(0x695nat, e, 0x16a9nat, next);
}

/// The witness raised to the second prime factor.
proof fn lemma_first_power_5801()
    ensures
        mod_pow(0x695nat, 5nat, 0x16a9nat) == 0x690nat,
{
    lemma_mod_pow_zero(0x695nat, 0x16a9nat);
    lemma_first_power_5801_odd(0nat, 1nat, 1nat, 1nat, 0x695nat);
    lemma_first_power_5801_even(1nat, 0x695nat, 2nat, 0x9e8nat);
    lemma_first_power_5801_odd(2nat, 0x9e8nat, 5nat, 0xeccnat, 0x690nat);
}

/// One more bit, a zero, at the end of the exponent: the power is squared.
proof fn lemma_second_power_5801_even(e: nat, x: nat, doubled: nat, square: nat)
    requires
        mod_pow(0x695nat, e, 0x16a9nat) == x,
        doubled == 2 * e,
        (x * x) % 0x16a9nat == square,
    ensures
        mod_pow(0x695nat, doubled, 0x16a9nat) == square,
{
    lemma_mul_mod_value(x, x, 0x16a9nat, square);
    lemma_mod_pow_even(0x695nat, e, 0x16a9nat, doubled);
}

/// One more bit, a one, at the end of the exponent: the power is squared and
/// multiplied by the base.
proof fn lemma_second_power_5801_odd(e: nat, x: nat, next: nat, square: nat, y: nat)
    requires
        mod_pow(0x695nat, e, 0x16a9nat) == x,
        next == 2 * e + 1,
        (x * x) % 0x16a9nat == square,
        (0x695nat * square) % 0x16a9nat == y,
    ensures
        mod_pow(0x695nat, next, 0x16a9nat) == y,
{
    lemma_mul_mod_value(x, x, 0x16a9nat, square);
    lemma_mul_mod_value(0x695nat, square, 0x16a9nat, y);
    lemma_mod_pow_odd(0x695nat, e, 0x16a9nat, next);
}

/// The witness raised to the first prime factor.
proof fn lemma_second_power_5801()
    ensures
        mod_pow(0x695nat, 29nat, 0x16a9nat) == 0x1445nat,
{
    lemma_mod_pow_zero(0x695nat, 0x16a9nat);
    lemma_second_power_5801_odd(0nat, 1nat, 1nat, 1nat, 0x695nat);
    lemma_second_power_5801_odd(1nat, 0x695nat, 3nat, 0x9e8nat, 0xe28nat);
    lemma_second_power_5801_odd(3nat, 0xe28nat, 7nat, 0x1651nat, 0x9f2nat);
    lemma_second_power_5801_even(7nat, 0x9f2nat, 14nat, 0x95fnat);
    lemma_second_power_5801_odd(14nat, 0x95fnat, 29nat, 609nat, 0x1445nat);
}

/// One more bit, a zero, at the end of the exponent: the power is squared.
proof fn lemma_full_power_5801_even(e: nat, x: nat, doubled: nat, square: nat)
    requires
        mod_pow(0x690nat, e, 0x16a9nat) == x,
        doubled == 2 * e,
        (x * x) % 0x16a9nat == square,
    ensures
        mod_pow(0x690nat, doubled, 0x16a9nat) == square,
{
    lemma_mul_mod_value(x, x, 0x16a9nat, square);
    lemma_mod_pow_even(0x690nat, e, 0x16a9nat, doubled);
}

/// One more bit, a one, at the end of the exponent: the power is squared and
/// multiplied by the base.
proof fn lemma_full_power_5801_odd(e: nat, x: nat, next: nat, square: nat, y: nat)
    requires
        mod_pow(0x690nat, e, 0x16a9nat) == x,
        next == 2 * e + 1,
        (x * x) % 0x16a9nat == square,
        (0x690nat * square) % 0x16a9nat == y,
    ensures
        mod_pow(0x690nat, next, 0x16a9nat) == y,
{
    lemma_mul_mod_value(x, x, 0x16a9nat, square);
    lemma_mul_mod_value(0x690nat, square, 0x16a9nat, y);
    lemma_mod_pow_odd(0x690nat, e, 0x16a9nat, next);
}

/// The witness raised to both prime factors is one.
proof fn lemma_full_power_5801()
    ensures
        mod_pow(0x690nat, 29nat, 0x16a9nat) == 1nat,
{
    lemma_mod_pow_zero(0x690nat, 0x16a9nat);
    lemma_full_power_5801_odd(0nat, 1nat, 1nat, 1nat, 0x690nat);
    lemma_full_power_5801_odd(1nat, 0x690nat, 3nat, 0xc2anat, 0x12d3nat);
    lemma_full_power_5801_odd(3nat, 0x12d3nat, 7nat, 0x54enat, 0x66fnat);
    lemma_full_power_5801_even(7nat, 0x66fnat, 14nat, 0xdd6nat);
    lemma_full_power_5801_odd(14nat, 0xdd6nat, 29nat, 0xfa2nat, 1nat);
}

/// A prime of 13 bits, by Pocklington's criterion with two prime factors of the
/// number before it, of 5 and 3 bits.
proof fn lemma_prime_5801()
    ensures
        is_prime(0x16a9nat),
{
    lemma_prime_29();
    lemma_prime_5();
    lemma_first_power_5801();
    lemma_second_power_5801();
    lemma_full_power_5801();
    lemma_pocklington_two(
        0x16a9nat,
        29nat,
        5nat,
        40nat,
        0x695nat,
        0x690nat,
        0x1445nat,
        0xa0eint,
        (0 - 745int),
        (0 - 0x80fint),
        0x735int,
    );
}

/// One more bit, a zero, at the end of the exponent: the power is squared.
proof fn lemma_first_power_84163_even(e: nat, x: nat, doubled: nat, square: nat)
    requires
        mod_pow(0x6c99nat, e, 0x148c3nat) == x,
        doubled == 2 * e,
        (x * x) % 0x148c3nat == square,
    ensures
        mod_pow(0x6c99nat, doubled, 0x148c3nat) == square,
{
    lemma_mul_mod_value(x, x, 0x148c3nat, square);
    lemma_mod_pow_even(0x6c99nat, e, 0x148c3nat, doubled);
}

/// One more bit, a one, at the end of the exponent: the power is squared and
/// multiplied by the base.
proof fn lemma_first_power_84163_odd(e: nat, x: nat, next: nat, square: nat, y: nat)
    requires
        mod_pow(0x6c99nat, e, 0x148c3nat) == x,
        next == 2 * e + 1,
        (x * x) % 0x148c3nat == square,
        (0x6c99nat * square) % 0x148c3nat == y,
    ensures
        mod_pow(0x6c99nat, next, 0x148c3nat) == y,
{
    lemma_mul_mod_value(x, x, 0x148c3nat, square);
    lemma_mul_mod_value(0x6c99nat, square, 0x148c3nat, y);
    lemma_mod_pow_odd(0x6c99nat, e, 0x148c3nat, next);
}

/// The witness raised to the second prime factor.
proof fn lemma_first_power_84163()
    ensures
        mod_pow(0x6c99nat, 13nat, 0x148c3nat) == 0x86a5nat,
{
    lemma_mod_pow_zero(0x6c99nat, 0x148c3nat);
    lemma_first_power_84163_odd(0nat, 1nat, 1nat, 1nat, 0x6c99nat);
    lemma_first_power_84163_odd(1nat, 0x6c99nat, 3nat, 0x6894nat, 0x8893nat);
    lemma_first_power_84163_even(3nat, 0x8893nat, 6nat, 0x6d35nat);
    lemma_first_power_84163_odd(6nat, 0x6d35nat, 13nat, 0xdba7nat, 0x86a5nat);
}

/// One more bit, a zero, at the end of the exponent: the power is squared.
proof fn lemma_second_power_84163_even(e: nat, x: nat, doubled: nat, square: nat)
    requires
        mod_pow(0x6c99nat, e, 0x148c3nat) == x,
        doubled == 2 * e,
        (x * x) % 0x148c3nat == square,
    ensures
        mod_pow(0x6c99nat, doubled, 0x148c3nat) == square,
{
    lemma_mul_mod_value(x, x, 0x148c3nat, square);
    lemma_mod_pow_even(0x6c99nat, e, 0x148c3nat, doubled);
}

/// One more bit, a one, at the end of the exponent: the power is squared and
/// multiplied by the base.
proof fn lemma_second_power_84163_odd(e: nat, x: nat, next: nat, square: nat, y: nat)
    requires
        mod_pow(0x6c99nat, e, 0x148c3nat) == x,
        next == 2 * e + 1,
        (x * x) % 0x148c3nat == square,
        (0x6c99nat * square) % 0x148c3nat == y,
    ensures
        mod_pow(0x6c99nat, next, 0x148c3nat) == y,
{
    lemma_mul_mod_value(x, x, 0x148c3nat, square);
    lemma_mul_mod_value(0x6c99nat, square, 0x148c3nat, y);
    lemma_mod_pow_odd(0x6c99nat, e, 0x148c3nat, next);
}

/// The witness raised to the first prime factor.
proof fn lemma_second_power_84163()
    ensures
        mod_pow(0x6c99nat, 83nat, 0x148c3nat) == 0xf196nat,
{
    lemma_mod_pow_zero(0x6c99nat, 0x148c3nat);
    lemma_second_power_84163_odd(0nat, 1nat, 1nat, 1nat, 0x6c99nat);
    lemma_second_power_84163_even(1nat, 0x6c99nat, 2nat, 0x6894nat);
    lemma_second_power_84163_odd(2nat, 0x6894nat, 5nat, 0x1ec4nat, 0xcde9nat);
    lemma_second_power_84163_even(5nat, 0xcde9nat, 10nat, 0x49ecnat);
    lemma_second_power_84163_even(10nat, 0x49ecnat, 20nat, 0x1073nat);
    lemma_second_power_84163_odd(20nat, 0x1073nat, 41nat, 0xe3b3nat, 0x11fd9nat);
    lemma_second_power_84163_odd(41nat, 0x11fd9nat, 83nat, 0x9d5fnat, 0xf196nat);
}

/// One more bit, a zero, at the end of the exponent: the power is squared.
proof fn lemma_full_power_84163_even(e: nat, x: nat, doubled: nat, square: nat)
    requires
        mod_pow(0x86a5nat, e, 0x148c3nat) == x,
        doubled == 2 * e,
        (x * x) % 0x148c3nat == square,
    ensures
        mod_pow(0x86a5nat, doubled, 0x148c3nat) == square,
{
    lemma_mul_mod_value(x, x, 0x148c3nat, square);
    lemma_mod_pow_even(0x86a5nat, e, 0x148c3nat, doubled);
}

/// One more bit, a one, at the end of the exponent: the power is squared and
/// multiplied by the base.
proof fn lemma_full_power_84163_odd(e: nat, x: nat, next: nat, square: nat, y: nat)
    requires
        mod_pow(0x86a5nat, e, 0x148c3nat) == x,
        next == 2 * e + 1,
        (x * x) % 0x148c3nat == square,
        (0x86a5nat * square) % 0x148c3nat == y,
    ensures
        mod_pow(0x86a5nat, next, 0x148c3nat) == y,
{
    lemma_mul_mod_value(x, x, 0x148c3nat, square);
    lemma_mul_mod_value(0x86a5nat, square, 0x148c3nat, y);
    lemma_mod_pow_odd(0x86a5nat, e, 0x148c3nat, next);
}

/// The witness raised to both prime factors is one.
proof fn lemma_full_power_84163()
    ensures
        mod_pow(0x86a5nat, 83nat, 0x148c3nat) == 1nat,
{
    lemma_mod_pow_zero(0x86a5nat, 0x148c3nat);
    lemma_full_power_84163_odd(0nat, 1nat, 1nat, 1nat, 0x86a5nat);
    lemma_full_power_84163_even(1nat, 0x86a5nat, 2nat, 0x105ednat);
    lemma_full_power_84163_odd(2nat, 0x105ednat, 5nat, 0x81a2nat, 0x70e5nat);
    lemma_full_power_84163_even(5nat, 0x70e5nat, 10nat, 0x858dnat);
    lemma_full_power_84163_even(10nat, 0x858dnat, 20nat, 0x7ce9nat);
    lemma_full_power_84163_odd(20nat, 0x7ce9nat, 41nat, 0x7df2nat, 0xef3enat);
    lemma_full_power_84163_odd(41nat, 0xef3enat, 83nat, 0x2df9nat, 1nat);
}

/// A prime of 17 bits, by Pocklington's criterion with two prime factors of the
/// number before it, of 7 and 4 bits.
proof fn lemma_prime_84163()
    ensures
        is_prime(0x148c3nat),
{
    lemma_prime_83();
    lemma_prime_13();
    lemma_first_power_84163();
    lemma_second_power_84163();
    lemma_full_power_84163();
    lemma_pocklington_two(
        0x148c3nat,
        83nat,
        13nat,
        78nat,
        0x6c99nat,
        0x86a5nat,
        0xf196nat,
        (0 - 0xa09dint),
        0x41c7int,
        0x4182int,
        (0 - 0x3023int),
    );
}

/// One more bit, a zero, at the end of the exponent: the power is squared.
proof fn lemma_power_of_24_bits_even(e: nat, x: nat, doubled: nat, square: nat)
    requires
        mod_pow(0x84e276nat, e, 0x8a432bnat) == x,
        doubled == 2 * e,
        (x * x) % 0x8a432bnat == square,
    ensures
        mod_pow(0x84e276nat, doubled, 0x8a432bnat) == square,
{
    lemma_mul_mod_value(x, x, 0x8a432bnat, square);
    lemma_mod_pow_even(0x84e276nat, e, 0x8a432bnat, doubled);
}

/// One more bit, a one, at the end of the exponent: the power is squared and
/// multiplied by the base.
proof fn lemma_power_of_24_bits_odd(e: nat, x: nat, next: nat, square: nat, y: nat)
    requires
        mod_pow(0x84e276nat, e, 0x8a432bnat) == x,
        next == 2 * e + 1,
        (x * x) % 0x8a432bnat == square,
        (0x84e276nat * square) % 0x8a432bnat == y,
    ensures
        mod_pow(0x84e276nat, next, 0x8a432bnat) == y,
{
    lemma_mul_mod_value(x, x, 0x8a432bnat, square);
    lemma_mul_mod_value(0x84e276nat, square, 0x8a432bnat, y);
    lemma_mod_pow_odd(0x84e276nat, e, 0x8a432bnat, next);
}

/// The witness raised to the prime factor is one.
proof fn lemma_power_of_24_bits()
    ensures
        mod_pow(0x84e276nat, 0x16a9nat, 0x8a432bnat) == 1nat,
{
    lemma_mod_pow_zero(0x84e276nat, 0x8a432bnat);
    lemma_power_of_24_bits_odd(0nat, 1nat, 1nat, 1nat, 0x84e276nat);
    lemma_power_of_24_bits_even(1nat, 0x84e276nat, 2nat, 0x159d75nat);
    lemma_power_of_24_bits_odd(2nat, 0x159d75nat, 5nat, 0x7239c9nat, 0x45acd8nat);
    lemma_power_of_24_bits_odd(5nat, 0x45acd8nat, 11nat, 0x471d8dnat, 0x4ec32enat);
    lemma_power_of_24_bits_even(11nat, 0x4ec32enat, 22nat, 0x4ca363nat);
    lemma_power_of_24_bits_odd(22nat, 0x4ca363nat, 45nat, 0x5fc1f9nat, 0x2ad39cnat);
    lemma_power_of_24_bits_even(45nat, 0x2ad39cnat, 90nat, 0x7ababenat);
    lemma_power_of_24_bits_odd(90nat, 0x7ababenat, 181nat, 0x472bnat, 0x3294b0nat);
    lemma_power_of_24_bits_even(181nat, 0x3294b0nat, 362nat, 0x4c6b27nat);
    lemma_power_of_24_bits_odd(362nat, 0x4c6b27nat, 725nat, 0x275e61nat, 0x450096nat);
    lemma_power_of_24_bits_even(725nat, 0x450096nat, 0x5aanat, 0x115673nat);
    lemma_power_of_24_bits_even(0x5aanat, 0x115673nat, 0xb54nat, 0x46084enat);
    lemma_power_of_24_bits_odd(0xb54nat, 0x46084enat, 0x16a9nat, 0x239818nat, 1nat);
}

/// A prime of 24 bits, by Pocklington's criterion with a prime factor of 13
/// bits of the number before it.
proof fn lemma_prime_of_24_bits()
    ensures
        is_prime(0x8a432bnat),
{
    lemma_prime_5801();
    lemma_power_of_24_bits();
    lemma_pocklington(
        0x8a432bnat,
        0x16a9nat,
        0x61anat,
        0x84e276nat,
        0x174ccfint,
        (0 - 0x1664ceint),
    );
}

/// One more bit, a zero, at the end of the exponent: the power is squared.
proof fn lemma_power_of_32_bits_even(e: nat, x: nat, doubled: nat, square: nat)
    requires
        mod_pow(0x3ea7ecc5nat, e, 0x98f408cfnat) == x,
        doubled == 2 * e,
        (x * x) % 0x98f408cfnat == square,
    ensures
        mod_pow(0x3ea7ecc5nat, doubled, 0x98f408cfnat) == square,
{
    lemma_mul_mod_value(x, x, 0x98f408cfnat, square);
    lemma_mod_pow_even(0x3ea7ecc5nat, e, 0x98f408cfnat, doubled);
}

/// One more bit, a one, at the end of the exponent: the power is squared and
/// multiplied by the base.
proof fn lemma_power_of_32_bits_odd(e: nat, x: nat, next: nat, square: nat, y: nat)
    requires
        mod_pow(0x3ea7ecc5nat, e, 0x98f408cfnat) == x,
        next == 2 * e + 1,
        (x * x) % 0x98f408cfnat == square,
        (0x3ea7ecc5nat * square) % 0x98f408cfnat == y,
    ensures
        mod_pow(0x3ea7ecc5nat, next, 0x98f408cfnat) == y,
{
    lemma_mul_mod_value(x, x, 0x98f408cfnat, square);
    lemma_mul_mod_value(0x3ea7ecc5nat, square, 0x98f408cfnat, y);
    lemma_mod_pow_odd(0x3ea7ecc5nat, e, 0x98f408cfnat, next);
}

/// The same power with the first 16 bits of the exponent only.
proof fn lemma_power_of_32_bits_first_16()
    ensures
        mod_pow(0x3ea7ecc5nat, 0xa461nat, 0x98f408cfnat) == 0x8606fe51nat,
{
    lemma_mod_pow_zero(0x3ea7ecc5nat, 0x98f408cfnat);
    lemma_power_of_32_bits_odd(0nat, 1nat, 1nat, 1nat, 0x3ea7ecc5nat);
    lemma_power_of_32_bits_even(1nat, 0x3ea7ecc5nat, 2nat, 0x967b242bnat);
    lemma_power_of_32_bits_odd(2nat, 0x967b242bnat, 5nat, 0x31689e1cnat, 0x18ce05f3nat);
    lemma_power_of_32_bits_even(5nat, 0x18ce05f3nat, 10nat, 0x67b98c30nat);
    lemma_power_of_32_bits_even(10nat, 0x67b98c30nat, 20nat, 0x20a08429nat);
    lemma_power_of_32_bits_odd(20nat, 0x20a08429nat, 41nat, 0x43e41526nat, 0x56d01becnat);
    lemma_power_of_32_bits_even(41nat, 0x56d01becnat, 82nat, 0x311944enat);
    lemma_power_of_32_bits_even(82nat, 0x311944enat, 164nat, 0x1ff56d9fnat);
    lemma_power_of_32_bits_even(164nat, 0x1ff56d9fnat, 328nat, 0xfb922bfnat);
    lemma_power_of_32_bits_odd(328nat, 0xfb922bfnat, 657nat, 0x3942bd71nat, 0x58713bfbnat);
    lemma_power_of_32_bits_odd(657nat, 0x58713bfbnat, 0x523nat, 0x3af5954enat, 0x36999c00nat);
    lemma_power_of_32_bits_even(0x523nat, 0x36999c00nat, 0xa46nat, 0x1cf89d3enat);
    lemma_power_of_32_bits_even(0xa46nat, 0x1cf89d3enat, 0x148cnat, 0x8fea6a2enat);
    lemma_power_of_32_bits_even(0x148cnat, 0x8fea6a2enat, 0x2918nat, 0x8af2ccdcnat);
    lemma_power_of_32_bits_even(0x2918nat, 0x8af2ccdcnat, 0x5230nat, 0x29b64667nat);
    lemma_power_of_32_bits_odd(0x5230nat, 0x29b64667nat, 0xa461nat, 0x705117a3nat, 0x8606fe51nat);
}

/// The witness raised to the prime factor is one.
proof fn lemma_power_of_32_bits()
    ensures
        mod_pow(0x3ea7ecc5nat, 0x148c3nat, 0x98f408cfnat) == 1nat,
{
    lemma_power_of_32_bits_first_16();
    lemma_power_of_32_bits_odd(0xa461nat, 0x8606fe51nat, 0x148c3nat, 0x1fa7bc8fnat, 1nat);
}

/// A prime of 32 bits, by Pocklington's criterion with a prime factor of 17
/// bits of the number before it.
proof fn lemma_prime_of_32_bits()
    ensures
        is_prime(0x98f408cfnat),
{
    lemma_prime_84163();
    lemma_power_of_32_bits();
    lemma_pocklington(
        0x98f408cfnat,
        0x148c3nat,
        0x771anat,
        0x3ea7ecc5nat,
        0x16f0c5c3int,
        (0 - 0x965bac5int),
    );
}

/// One more bit, a zero, at the end of the exponent: the power is squared.
proof fn lemma_power_of_43_bits_even(e: nat, x: nat, doubled: nat, square: nat)
    requires
        mod_pow(0x3e6e86ff81fnat, e, 0x52057353e4bnat) == x,
        doubled == 2 * e,
        (x * x) % 0x52057353e4bnat == square,
    ensures
        mod_pow(0x3e6e86ff81fnat, doubled, 0x52057353e4bnat) == square,
{
    lemma_mul_mod_value(x, x, 0x52057353e4bnat, square);
    lemma_mod_pow_even(0x3e6e86ff81fnat, e, 0x52057353e4bnat, doubled);
}

/// One more bit, a one, at the end of the exponent: the power is squared and
/// multiplied by the base.
proof fn lemma_power_of_43_bits_odd(e: nat, x: nat, next: nat, square: nat, y: nat)
    requires
        mod_pow(0x3e6e86ff81fnat, e, 0x52057353e4bnat) == x,
        next == 2 * e + 1,
        (x * x) % 0x52057353e4bnat == square,
        (0x3e6e86ff81fnat * square) % 0x52057353e4bnat == y,
    ensures
        mod_pow(0x3e6e86ff81fnat, next, 0x52057353e4bnat) == y,
{
    lemma_mul_mod_value(x, x, 0x52057353e4bnat, square);
    lemma_mul_mod_value(0x3e6e86ff81fnat, square, 0x52057353e4bnat, y);
    lemma_mod_pow_odd(0x3e6e86ff81fnat, e, 0x52057353e4bnat, next);
}

/// The same power with the first 16 bits of the exponent only.
proof fn lemma_power_of_43_bits_first_16()
    ensures
        mod_pow(0x3e6e86ff81fnat, 0x8a43nat, 0x52057353e4bnat) == 0xda3b4fdfc3nat,
{
    lemma_mod_pow_zero(0x3e6e86ff81fnat, 0x52057353e4bnat);
    lemma_power_of_43_bits_odd(0nat, 1nat, 1nat, 1nat, 0x3e6e86ff81fnat);
    lemma_power_of_43_bits_even(1nat, 0x3e6e86ff81fnat, 2nat, 0x150bff416d7nat);
    lemma_power_of_43_bits_even(2nat, 0x150bff416d7nat, 4nat, 0x2c4021010acnat);
    lemma_power_of_43_bits_even(4nat, 0x2c4021010acnat, 8nat, 0x38c6daefe49nat);
    lemma_power_of_43_bits_odd(8nat, 0x38c6daefe49nat, 17nat, 0x4021bc26b44nat, 0x34b9513f32anat);
    lemma_power_of_43_bits_even(17nat, 0x34b9513f32anat, 34nat, 0x32423e140fanat);
    lemma_power_of_43_bits_odd(34nat, 0x32423e140fanat, 69nat, 0x2be7f690783nat, 0xc48e530nat);
    lemma_power_of_43_bits_even(69nat, 0xc48e530nat, 138nat, 0x23708d52930nat);
    lemma_power_of_43_bits_even(138nat, 0x23708d52930nat, 276nat, 0x1c577b4f835nat);
    lemma_power_of_43_bits_odd(
        276nat,
        0x1c577b4f835nat,
        553nat,
        0x2c87bb885dfnat,
        0x1da21c99e86nat,
    );
    lemma_power_of_43_bits_even(553nat, 0x1da21c99e86nat, 0x452nat, 0xc76843c524nat);
    lemma_power_of_43_bits_even(0x452nat, 0xc76843c524nat, 0x8a4nat, 0x4118a4abb6cnat);
    lemma_power_of_43_bits_even(0x8a4nat, 0x4118a4abb6cnat, 0x1148nat, 0x23ab2eea1eenat);
    lemma_power_of_43_bits_even(0x1148nat, 0x23ab2eea1eenat, 0x2290nat, 0x381e006d39cnat);
    lemma_power_of_43_bits_odd(
        0x2290nat,
        0x381e006d39cnat,
        0x4521nat,
        0x3514562fe50nat,
        0x2c303cfab42nat,
    );
    lemma_power_of_43_bits_odd(
        0x4521nat,
        0x2c303cfab42nat,
        0x8a43nat,
        0x2d74f88ca2cnat,
        0xda3b4fdfc3nat,
    );
}

/// The witness raised to the prime factor is one.
proof fn lemma_power_of_43_bits()
    ensures
        mod_pow(0x3e6e86ff81fnat, 0x8a432bnat, 0x52057353e4bnat) == 1nat,
{
    lemma_power_of_43_bits_first_16();
    lemma_power_of_43_bits_even(0x8a43nat, 0xda3b4fdfc3nat, 0x11486nat, 0x2b7188bd0e6nat);
    lemma_power_of_43_bits_even(0x11486nat, 0x2b7188bd0e6nat, 0x2290cnat, 0x2ff5cbdfbc9nat);
    lemma_power_of_43_bits_odd(
        0x2290cnat,
        0x2ff5cbdfbc9nat,
        0x45219nat,
        0x48f38e4d115nat,
        0x3335c4aa26enat,
    );
    lemma_power_of_43_bits_even(0x45219nat, 0x3335c4aa26enat, 0x8a432nat, 0x23c6f5517bfnat);
    lemma_power_of_43_bits_odd(
        0x8a432nat,
        0x23c6f5517bfnat,
        0x114865nat,
        0x1fbe57b9de7nat,
        0x25e60e5c061nat,
    );
    lemma_power_of_43_bits_even(0x114865nat, 0x25e60e5c061nat, 0x2290canat, 0xb46df5f3eenat);
    lemma_power_of_43_bits_odd(
        0x2290canat,
        0xb46df5f3eenat,
        0x452195nat,
        0x35eeb637093nat,
        0xa28b8ca565nat,
    );
    lemma_power_of_43_bits_odd(0x452195nat, 0xa28b8ca565nat, 0x8a432bnat, 0x17ca2197c99nat, 1nat);
}

/// A prime of 43 bits, by Pocklington's criterion with a prime factor of 24
/// bits of the number before it.
proof fn lemma_prime_of_43_bits()
    ensures
        is_prime(0x52057353e4bnat),
{
    lemma_prime_of_24_bits();
    lemma_power_of_43_bits();
    lemma_pocklington(
        0x52057353e4bnat,
        0x8a432bnat,
        0x97ddenat,
        0x3e6e86ff81fnat,
        (0 - 0x157a2c78117int),
        0x105904a5e39int,
    );
}

/// One more bit, a zero, at the end of the exponent: the power is squared.
proof fn lemma_power_of_47_bits_even(e: nat, x: nat, doubled: nat, square: nat)
    requires
        mod_pow(0x40000nat, e, 0x5c4621be6147nat) == x,
        doubled == 2 * e,
        (x * x) % 0x5c4621be6147nat == square,
    ensures
        mod_pow(0x40000nat, doubled, 0x5c4621be6147nat) == square,
{
    lemma_mul_mod_value(x, x, 0x5c4621be6147nat, square);
    lemma_mod_pow_even(0x40000nat, e, 0x5c4621be6147nat, doubled);
}

/// One more bit, a one, at the end of the exponent: the power is squared and
/// multiplied by the base.
proof fn lemma_power_of_47_bits_odd(e: nat, x: nat, next: nat, square: nat, y: nat)
    requires
        mod_pow(0x40000nat, e, 0x5c4621be6147nat) == x,
        next == 2 * e + 1,
        (x * x) % 0x5c4621be6147nat == square,
        (0x40000nat * square) % 0x5c4621be6147nat == y,
    ensures
        mod_pow(0x40000nat, next, 0x5c4621be6147nat) == y,
{
    lemma_mul_mod_value(x, x, 0x5c4621be6147nat, square);
    lemma_mul_mod_value(0x40000nat, square, 0x5c4621be6147nat, y);
    lemma_mod_pow_odd(0x40000nat, e, 0x5c4621be6147nat, next);
}

/// The same power with the first 16 bits of the exponent only.
proof fn lemma_power_of_47_bits_first_16()
    ensures
        mod_pow(0x40000nat, 0xa40anat, 0x5c4621be6147nat) == 0x550f31818639nat,
{
    lemma_mod_pow_zero(0x40000nat, 0x5c4621be6147nat);
    lemma_power_of_47_bits_odd(0nat, 1nat, 1nat, 1nat, 0x40000nat);
    lemma_power_of_47_bits_even(1nat, 0x40000nat, 2nat, 0x1000000000nat);
    lemma_power_of_47_bits_odd(2nat, 0x1000000000nat, 5nat, 0x381c1bef7559nat, 0xaa29920224cnat);
    lemma_power_of_47_bits_even(5nat, 0xaa29920224cnat, 10nat, 0x21ef6f6f9cf3nat);
    lemma_power_of_47_bits_even(10nat, 0x21ef6f6f9cf3nat, 20nat, 0x43f693fcd6a0nat);
    lemma_power_of_47_bits_odd(
        20nat,
        0x43f693fcd6a0nat,
        41nat,
        0x376598f6741enat,
        0x41c5a0e1fe32nat,
    );
    lemma_power_of_47_bits_even(41nat, 0x41c5a0e1fe32nat, 82nat, 0x5c3c98261bb2nat);
    lemma_power_of_47_bits_even(82nat, 0x5c3c98261bb2nat, 164nat, 0x37dca355207anat);
    lemma_power_of_47_bits_even(164nat, 0x37dca355207anat, 328nat, 0x3c22a28ad835nat);
    lemma_power_of_47_bits_even(328nat, 0x3c22a28ad835nat, 656nat, 0x2abf66b62914nat);
    lemma_power_of_47_bits_even(656nat, 0x2abf66b62914nat, 0x520nat, 0x34026520d394nat);
    lemma_power_of_47_bits_even(0x520nat, 0x34026520d394nat, 0xa40nat, 0x11a5a436e2e0nat);
    lemma_power_of_47_bits_odd(
        0xa40nat,
        0x11a5a436e2e0nat,
        0x1481nat,
        0x91f83d8b1eanat,
        0xb167f2b6dcenat,
    );
    lemma_power_of_47_bits_even(0x1481nat, 0xb167f2b6dcenat, 0x2902nat, 0x5ab6454820a5nat);
    lemma_power_of_47_bits_odd(
        0x2902nat,
        0x5ab6454820a5nat,
        0x5205nat,
        0xe6366747fefnat,
        0xbbe15678b4cnat,
    );
    lemma_power_of_47_bits_even(0x5205nat, 0xbbe15678b4cnat, 0xa40anat, 0x550f31818639nat);
}

/// The same power with the first 32 bits of the exponent only.
proof fn lemma_power_of_47_bits_first_32()
    ensures
        mod_pow(0x40000nat, 0xa40ae6a7nat, 0x5c4621be6147nat) == 0x33c93d740fd1nat,
{
    lemma_power_of_47_bits_first_16();
    lemma_power_of_47_bits_odd(
        0xa40anat,
        0x550f31818639nat,
        0x14815nat,
        0x1848c31158ecnat,
        0x4c91dd82e555nat,
    );
    lemma_power_of_47_bits_odd(
        0x14815nat,
        0x4c91dd82e555nat,
        0x2902bnat,
        0x56e15aad33dfnat,
        0x59c72a66f604nat,
    );
    lemma_power_of_47_bits_odd(
        0x2902bnat,
        0x59c72a66f604nat,
        0x52057nat,
        0x2afdd67bccb8nat,
        0x67c4dc59658nat,
    );
    lemma_power_of_47_bits_even(0x52057nat, 0x67c4dc59658nat, 0xa40aenat, 0x54a5db4928c6nat);
    lemma_power_of_47_bits_even(0xa40aenat, 0x54a5db4928c6nat, 0x14815cnat, 0x2d6f5c6786d4nat);
    lemma_power_of_47_bits_odd(
        0x14815cnat,
        0x2d6f5c6786d4nat,
        0x2902b9nat,
        0x1fc4acc34c22nat,
        0x2a9318678e73nat,
    );
    lemma_power_of_47_bits_odd(
        0x2902b9nat,
        0x2a9318678e73nat,
        0x520573nat,
        0xaf6a5cdaba4nat,
        0x2ab14a28d7danat,
    );
    lemma_power_of_47_bits_even(0x520573nat, 0x2ab14a28d7danat, 0xa40ae6nat, 0x26494933c6cenat);
    lemma_power_of_47_bits_odd(
        0xa40ae6nat,
        0x26494933c6cenat,
        0x14815cdnat,
        0x10c68af6373anat,
        0x13d300fe745anat,
    );
    lemma_power_of_47_bits_even(0x14815cdnat, 0x13d300fe745anat, 0x2902b9anat, 0x1cffc5cf8be4nat);
    lemma_power_of_47_bits_odd(
        0x2902b9anat,
        0x1cffc5cf8be4nat,
        0x5205735nat,
        0x1659ea798433nat,
        0x1e78511f6b3anat,
    );
    lemma_power_of_47_bits_even(0x5205735nat, 0x1e78511f6b3anat, 0xa40ae6anat, 0x110dbcf5e162nat);
    lemma_power_of_47_bits_even(0xa40ae6anat, 0x110dbcf5e162nat, 0x14815cd4nat, 0x36deee80c233nat);
    lemma_power_of_47_bits_odd(
        0x14815cd4nat,
        0x36deee80c233nat,
        0x2902b9a9nat,
        0x43a5d701e64enat,
        0x4b4fdae0d586nat,
    );
    lemma_power_of_47_bits_odd(
        0x2902b9a9nat,
        0x4b4fdae0d586nat,
        0x52057353nat,
        0x20ff54b4f802nat,
        0x1db57f00a1f7nat,
    );
    lemma_power_of_47_bits_odd(
        0x52057353nat,
        0x1db57f00a1f7nat,
        0xa40ae6a7nat,
        0x3244c0a9c45fnat,
        0x33c93d740fd1nat,
    );
}

/// The witness raised to the prime factor is one.
proof fn lemma_power_of_47_bits()
    ensures
        mod_pow(0x40000nat, 0x52057353e4bnat, 0x5c4621be6147nat) == 1nat,
{
    lemma_power_of_47_bits_first_32();
    lemma_power_of_47_bits_odd(
        0xa40ae6a7nat,
        0x33c93d740fd1nat,
        0x14815cd4fnat,
        0x194c935dcb9fnat,
        0x7af838f0179nat,
    );
    lemma_power_of_47_bits_odd(
        0x14815cd4fnat,
        0x7af838f0179nat,
        0x2902b9a9fnat,
        0x46464ff7fcfnat,
        0x4de36370de95nat,
    );
    lemma_power_of_47_bits_even(
        0x2902b9a9fnat,
        0x4de36370de95nat,
        0x52057353enat,
        0x32af801ef91fnat,
    );
    lemma_power_of_47_bits_even(
        0x52057353enat,
        0x32af801ef91fnat,
        0xa40ae6a7cnat,
        0x337735752eb2nat,
    );
    lemma_power_of_47_bits_odd(
        0xa40ae6a7cnat,
        0x337735752eb2nat,
        0x14815cd4f9nat,
        0xe82eea0c398nat,
        0x48d01c28c3anat,
    );
    lemma_power_of_47_bits_even(
        0x14815cd4f9nat,
        0x48d01c28c3anat,
        0x2902b9a9f2nat,
        0x49d77e2226c2nat,
    );
    lemma_power_of_47_bits_even(
        0x2902b9a9f2nat,
        0x49d77e2226c2nat,
        0x52057353e4nat,
        0x5aeddbe5bd99nat,
    );
    lemma_power_of_47_bits_odd(
        0x52057353e4nat,
        0x5aeddbe5bd99nat,
        0xa40ae6a7c9nat,
        0x2c928997071anat,
        0x109740790dcbnat,
    );
    lemma_power_of_47_bits_even(
        0xa40ae6a7c9nat,
        0x109740790dcbnat,
        0x14815cd4f92nat,
        0x131a14e47a0anat,
    );
    lemma_power_of_47_bits_odd(
        0x14815cd4f92nat,
        0x131a14e47a0anat,
        0x2902b9a9f25nat,
        0x1b87c33abacenat,
        0x46d3d4e6a1abnat,
    );
    lemma_power_of_47_bits_odd(
        0x2902b9a9f25nat,
        0x46d3d4e6a1abnat,
        0x52057353e4bnat,
        0x45e26c6bd9d8nat,
        1nat,
    );
}

/// A prime of 47 bits, by Pocklington's criterion with a prime factor of 43
/// bits of the number before it.
proof fn lemma_prime_of_47_bits()
    ensures
        is_prime(0x5c4621be6147nat),
{
    lemma_prime_of_43_bits();
    lemma_power_of_47_bits();
    lemma_pocklington(
        0x5c4621be6147nat,
        0x52057353e4bnat,
        18nat,
        0x40000nat,
        (0 - 0xf1956925858int),
        0xa78fint,
    );
}

/// One more bit, a zero, at the end of the exponent: the power is squared.
proof fn lemma_first_power_of_134_bits_even(e: nat, x: nat, doubled: nat, square: nat)
    requires
        mod_pow(
            0x2ed44fda29c6a3dabe495595d78330fdd8nat,
            e,
            0x3540ab9e1135684dd5108799c164af2765nat,
        ) == x,
        doubled == 2 * e,
        (x * x) % 0x3540ab9e1135684dd5108799c164af2765nat == square,
    ensures
        mod_pow(
            0x2ed44fda29c6a3dabe495595d78330fdd8nat,
            doubled,
            0x3540ab9e1135684dd5108799c164af2765nat,
        ) == square,
{
    lemma_mul_mod_value(x, x, 0x3540ab9e1135684dd5108799c164af2765nat, square);
    lemma_mod_pow_even(
        0x2ed44fda29c6a3dabe495595d78330fdd8nat,
        e,
        0x3540ab9e1135684dd5108799c164af2765nat,
        doubled,
    );
}

/// One more bit, a one, at the end of the exponent: the power is squared and
/// multiplied by the base.
proof fn lemma_first_power_of_134_bits_odd(e: nat, x: nat, next: nat, square: nat, y: nat)
    requires
        mod_pow(
            0x2ed44fda29c6a3dabe495595d78330fdd8nat,
            e,
            0x3540ab9e1135684dd5108799c164af2765nat,
        ) == x,
        next == 2 * e + 1,
        (x * x) % 0x3540ab9e1135684dd5108799c164af2765nat == square,
        (0x2ed44fda29c6a3dabe495595d78330fdd8nat * square)
            % 0x3540ab9e1135684dd5108799c164af2765nat == y,
    ensures
        mod_pow(
            0x2ed44fda29c6a3dabe495595d78330fdd8nat,
            next,
            0x3540ab9e1135684dd5108799c164af2765nat,
        ) == y,
{
    lemma_mul_mod_value(x, x, 0x3540ab9e1135684dd5108799c164af2765nat, square);
    lemma_mul_mod_value(
        0x2ed44fda29c6a3dabe495595d78330fdd8nat,
        square,
        0x3540ab9e1135684dd5108799c164af2765nat,
        y,
    );
    lemma_mod_pow_odd(
        0x2ed44fda29c6a3dabe495595d78330fdd8nat,
        e,
        0x3540ab9e1135684dd5108799c164af2765nat,
        next,
    );
}

/// The same power with the first 16 bits of the exponent only.
proof fn lemma_first_power_of_134_bits_first_16()
    ensures
        mod_pow(
            0x2ed44fda29c6a3dabe495595d78330fdd8nat,
            0x98f4nat,
            0x3540ab9e1135684dd5108799c164af2765nat,
        ) == 0x1c270bb57b2cdcc0c70ee0686ea269b65bnat,
{
    lemma_mod_pow_zero(
        0x2ed44fda29c6a3dabe495595d78330fdd8nat,
        0x3540ab9e1135684dd5108799c164af2765nat,
    );
    lemma_first_power_of_134_bits_odd(
        0nat,
        1nat,
        1nat,
        1nat,
        0x2ed44fda29c6a3dabe495595d78330fdd8nat,
    );
    lemma_first_power_of_134_bits_even(
        1nat,
        0x2ed44fda29c6a3dabe495595d78330fdd8nat,
        2nat,
        0xf3a1180b1d6c2719083042a1f02a94d72nat,
    );
    lemma_first_power_of_134_bits_even(
        2nat,
        0xf3a1180b1d6c2719083042a1f02a94d72nat,
        4nat,
        0x26e7d17b545ed8f97d06efc6daf687474enat,
    );
    lemma_first_power_of_134_bits_odd(
        4nat,
        0x26e7d17b545ed8f97d06efc6daf687474enat,
        9nat,
        0x1d8c37ba92261742894559695ef5201dbenat,
        0x5bfd72d9a0c455fb51bb2bd275cbdb3d2nat,
    );
    lemma_first_power_of_134_bits_odd(
        9nat,
        0x5bfd72d9a0c455fb51bb2bd275cbdb3d2nat,
        19nat,
        0x9d3c42fced26ce190aa7a0bea5701770dnat,
        0x29a457628e37041b105b23f51e6bdab4a5nat,
    );
    lemma_first_power_of_134_bits_even(
        19nat,
        0x29a457628e37041b105b23f51e6bdab4a5nat,
        38nat,
        0x88a592c4e13a3e766d8ab95edb1eb481nat,
    );
    lemma_first_power_of_134_bits_even(
        38nat,
        0x88a592c4e13a3e766d8ab95edb1eb481nat,
        76nat,
        0x2028f52c0f6e186075fc82fd1d7fa6706nat,
    );
    lemma_first_power_of_134_bits_even(
        76nat,
        0x2028f52c0f6e186075fc82fd1d7fa6706nat,
        152nat,
        0x24a86e3c03d5a1c8b7f85c23027dc66e72nat,
    );
    lemma_first_power_of_134_bits_odd(
        152nat,
        0x24a86e3c03d5a1c8b7f85c23027dc66e72nat,
        305nat,
        0x2ca56fc7272b0c3fe3b6e87c92e1fa1abanat,
        0x7b86011a4ffd4d1517d4aaf251dcf7236nat,
    );
    lemma_first_power_of_134_bits_odd(
        305nat,
        0x7b86011a4ffd4d1517d4aaf251dcf7236nat,
        611nat,
        0xf5b53cb699ff9bdfb5b4442449f220ee0nat,
        0x232333fc2a0378964a73afa60326a322dnat,
    );
    lemma_first_power_of_134_bits_odd(
        611nat,
        0x232333fc2a0378964a73afa60326a322dnat,
        0x4c7nat,
        0x23062548bbdfbe8c1862fb9376d880b721nat,
        0xb31f0c8bb3b3291df41929f2187fb52e8nat,
    );
    lemma_first_power_of_134_bits_odd(
        0x4c7nat,
        0xb31f0c8bb3b3291df41929f2187fb52e8nat,
        0x98fnat,
        0x33c754fa4d73b9d99f3e8a7f4f0b75959enat,
        0x42e75586cf1695059be8c28d75fa8d827nat,
    );
    lemma_first_power_of_134_bits_even(
        0x98fnat,
        0x42e75586cf1695059be8c28d75fa8d827nat,
        0x131enat,
        0x317810c0e77cbf9934a560f1720a0e73d9nat,
    );
    lemma_first_power_of_134_bits_odd(
        0x131enat,
        0x317810c0e77cbf9934a560f1720a0e73d9nat,
        0x263dnat,
        0x2b4bd612ecd3315f3af893e685ea31fffdnat,
        0x15b10cee31a5f69e8f86c4d2f827349ee7nat,
    );
    lemma_first_power_of_134_bits_even(
        0x263dnat,
        0x15b10cee31a5f69e8f86c4d2f827349ee7nat,
        0x4c7anat,
        0x46be09e0bde78237ad90a70bf2597a762nat,
    );
    lemma_first_power_of_134_bits_even(
        0x4c7anat,
        0x46be09e0bde78237ad90a70bf2597a762nat,
        0x98f4nat,
        0x1c270bb57b2cdcc0c70ee0686ea269b65bnat,
    );
}

/// The witness raised to the second prime factor.
proof fn lemma_first_power_of_134_bits()
    ensures
        mod_pow(
            0x2ed44fda29c6a3dabe495595d78330fdd8nat,
            0x98f408cfnat,
            0x3540ab9e1135684dd5108799c164af2765nat,
        ) == 0x1b28fa79d8ad61926b99f54f7520ea8fb3nat,
{
    lemma_first_power_of_134_bits_first_16();
    lemma_first_power_of_134_bits_even(
        0x98f4nat,
        0x1c270bb57b2cdcc0c70ee0686ea269b65bnat,
        0x131e8nat,
        0x32a6d6897a2a2b8f1f42184fc216f1380bnat,
    );
    lemma_first_power_of_134_bits_even(
        0x131e8nat,
        0x32a6d6897a2a2b8f1f42184fc216f1380bnat,
        0x263d0nat,
        0x155e370851cf37cdf0f5608530de1160b9nat,
    );
    lemma_first_power_of_134_bits_even(
        0x263d0nat,
        0x155e370851cf37cdf0f5608530de1160b9nat,
        0x4c7a0nat,
        0x280b1933e2dd45a2b6364407ba23b4d015nat,
    );
    lemma_first_power_of_134_bits_even(
        0x4c7a0nat,
        0x280b1933e2dd45a2b6364407ba23b4d015nat,
        0x98f40nat,
        0x254a6d98f2ecd12ba22df251b8cc7d40a5nat,
    );
    lemma_first_power_of_134_bits_odd(
        0x98f40nat,
        0x254a6d98f2ecd12ba22df251b8cc7d40a5nat,
        0x131e81nat,
        0x11ca26bbd3edd7ce7cc5dda132f1bfc5c8nat,
        0x30c2f1e15f2b4d5db7d15454c4e7b9301enat,
    );
    lemma_first_power_of_134_bits_even(
        0x131e81nat,
        0x30c2f1e15f2b4d5db7d15454c4e7b9301enat,
        0x263d02nat,
        0x195c98364a3134fc675cc01e303f64dab2nat,
    );
    lemma_first_power_of_134_bits_even(
        0x263d02nat,
        0x195c98364a3134fc675cc01e303f64dab2nat,
        0x4c7a04nat,
        0x1a67d0c0bbcd5d5bd04f9740db1a47bfbcnat,
    );
    lemma_first_power_of_134_bits_even(
        0x4c7a04nat,
        0x1a67d0c0bbcd5d5bd04f9740db1a47bfbcnat,
        0x98f408nat,
        0x249b1555e7bbe8d2d90e990a7bf8edafefnat,
    );
    lemma_first_power_of_134_bits_odd(
        0x98f408nat,
        0x249b1555e7bbe8d2d90e990a7bf8edafefnat,
        0x131e811nat,
        0xe01f4548828d33f329ac84144fe9fb979nat,
        0x191505e55a68085d5c4b3236d272ea8ce6nat,
    );
    lemma_first_power_of_134_bits_odd(
        0x131e811nat,
        0x191505e55a68085d5c4b3236d272ea8ce6nat,
        0x263d023nat,
        0x2261214757e1d3a663663ace5270178ff5nat,
        0xbb96aa973e7b8f92bba5c459b1789bcccnat,
    );
    lemma_first_power_of_134_bits_even(
        0x263d023nat,
        0xbb96aa973e7b8f92bba5c459b1789bcccnat,
        0x4c7a046nat,
        0xad307963ae99c0603e3230a4a6c060df8nat,
    );
    lemma_first_power_of_134_bits_even(
        0x4c7a046nat,
        0xad307963ae99c0603e3230a4a6c060df8nat,
        0x98f408cnat,
        0x2014d5560bc42ebadb1b7d4092fbe60bb3nat,
    );
    lemma_first_power_of_134_bits_odd(
        0x98f408cnat,
        0x2014d5560bc42ebadb1b7d4092fbe60bb3nat,
        0x131e8119nat,
        0x2f8b40119984efd6d0f0da60100fc7862enat,
        0x20234cea31be6aae8e991fa125412f4737nat,
    );
    lemma_first_power_of_134_bits_odd(
        0x131e8119nat,
        0x20234cea31be6aae8e991fa125412f4737nat,
        0x263d0233nat,
        0x138524c603149cf83df0917ba80d37ed8cnat,
        0x1994e9c42e7cc5c44b22955547bf0e5d5fnat,
    );
    lemma_first_power_of_134_bits_odd(
        0x263d0233nat,
        0x1994e9c42e7cc5c44b22955547bf0e5d5fnat,
        0x4c7a0467nat,
        0x24981177c602cd8d884992ecd043eda65dnat,
        0x1942568cda62423c09c96446bd66ee398enat,
    );
    lemma_first_power_of_134_bits_odd(
        0x4c7a0467nat,
        0x1942568cda62423c09c96446bd66ee398enat,
        0x98f408cfnat,
        0x349e5d81b24c179e2cd031196c353c96c4nat,
        0x1b28fa79d8ad61926b99f54f7520ea8fb3nat,
    );
}

/// One more bit, a zero, at the end of the exponent: the power is squared.
proof fn lemma_second_power_of_134_bits_even(e: nat, x: nat, doubled: nat, square: nat)
    requires
        mod_pow(
            0x2ed44fda29c6a3dabe495595d78330fdd8nat,
            e,
            0x3540ab9e1135684dd5108799c164af2765nat,
        ) == x,
        doubled == 2 * e,
        (x * x) % 0x3540ab9e1135684dd5108799c164af2765nat == square,
    ensures
        mod_pow(
            0x2ed44fda29c6a3dabe495595d78330fdd8nat,
            doubled,
            0x3540ab9e1135684dd5108799c164af2765nat,
        ) == square,
{
    lemma_mul_mod_value(x, x, 0x3540ab9e1135684dd5108799c164af2765nat, square);
    lemma_mod_pow_even(
        0x2ed44fda29c6a3dabe495595d78330fdd8nat,
        e,
        0x3540ab9e1135684dd5108799c164af2765nat,
        doubled,
    );
}

/// One more bit, a one, at the end of the exponent: the power is squared and
/// multiplied by the base.
proof fn lemma_second_power_of_134_bits_odd(e: nat, x: nat, next: nat, square: nat, y: nat)
    requires
        mod_pow(
            0x2ed44fda29c6a3dabe495595d78330fdd8nat,
            e,
            0x3540ab9e1135684dd5108799c164af2765nat,
        ) == x,
        next == 2 * e + 1,
        (x * x) % 0x3540ab9e1135684dd5108799c164af2765nat == square,
        (0x2ed44fda29c6a3dabe495595d78330fdd8nat * square)
            % 0x3540ab9e1135684dd5108799c164af2765nat == y,
    ensures
        mod_pow(
            0x2ed44fda29c6a3dabe495595d78330fdd8nat,
            next,
            0x3540ab9e1135684dd5108799c164af2765nat,
        ) == y,
{
    lemma_mul_mod_value(x, x, 0x3540ab9e1135684dd5108799c164af2765nat, square);
    lemma_mul_mod_value(
        0x2ed44fda29c6a3dabe495595d78330fdd8nat,
        square,
        0x3540ab9e1135684dd5108799c164af2765nat,
        y,
    );
    lemma_mod_pow_odd(
        0x2ed44fda29c6a3dabe495595d78330fdd8nat,
        e,
        0x3540ab9e1135684dd5108799c164af2765nat,
        next,
    );
}

/// The same power with the first 16 bits of the exponent only.
proof fn lemma_second_power_of_134_bits_first_16()
    ensures
        mod_pow(
            0x2ed44fda29c6a3dabe495595d78330fdd8nat,
            0xb88cnat,
            0x3540ab9e1135684dd5108799c164af2765nat,
        ) == 0x1df562732846fd98fad46551596cbe6df2nat,
{
    lemma_mod_pow_zero(
        0x2ed44fda29c6a3dabe495595d78330fdd8nat,
        0x3540ab9e1135684dd5108799c164af2765nat,
    );
    lemma_second_power_of_134_bits_odd(
        0nat,
        1nat,
        1nat,
        1nat,
        0x2ed44fda29c6a3dabe495595d78330fdd8nat,
    );
    lemma_second_power_of_134_bits_even(
        1nat,
        0x2ed44fda29c6a3dabe495595d78330fdd8nat,
        2nat,
        0xf3a1180b1d6c2719083042a1f02a94d72nat,
    );
    lemma_second_power_of_134_bits_odd(
        2nat,
        0xf3a1180b1d6c2719083042a1f02a94d72nat,
        5nat,
        0x26e7d17b545ed8f97d06efc6daf687474enat,
        0xbaa56d4780a9fcca8c4d6a335d199ae8enat,
    );
    lemma_second_power_of_134_bits_odd(
        5nat,
        0xbaa56d4780a9fcca8c4d6a335d199ae8enat,
        11nat,
        0x321b3dbefb3b4b1a0acc4aa9793ca4c328nat,
        0x27315e6a826f258a269b972fd76de9e54bnat,
    );
    lemma_second_power_of_134_bits_odd(
        11nat,
        0x27315e6a826f258a269b972fd76de9e54bnat,
        23nat,
        0x6ee0dc01f8db2c87c67a3a37cd79f281fnat,
        0x3f9e597b722620e8a44ff1d3242f62a32nat,
    );
    lemma_second_power_of_134_bits_even(
        23nat,
        0x3f9e597b722620e8a44ff1d3242f62a32nat,
        46nat,
        0x63385d0a5b59d3cbb0c2c97306d5b7450nat,
    );
    lemma_second_power_of_134_bits_even(
        46nat,
        0x63385d0a5b59d3cbb0c2c97306d5b7450nat,
        92nat,
        0xc0d0f9e6197f175a612d9cf9d47a79f94nat,
    );
    lemma_second_power_of_134_bits_even(
        92nat,
        0xc0d0f9e6197f175a612d9cf9d47a79f94nat,
        184nat,
        0x299607fa265676ff82384a8c9f0192d254nat,
    );
    lemma_second_power_of_134_bits_odd(
        184nat,
        0x299607fa265676ff82384a8c9f0192d254nat,
        369nat,
        0x2bd19c740aeb7192ec27f8c611b1840407nat,
        0x295ce407707b7c4b5c37158ae978fb4eb0nat,
    );
    lemma_second_power_of_134_bits_even(
        369nat,
        0x295ce407707b7c4b5c37158ae978fb4eb0nat,
        738nat,
        0x305b354191bd61599992fb39125e057d2cnat,
    );
    lemma_second_power_of_134_bits_even(
        738nat,
        0x305b354191bd61599992fb39125e057d2cnat,
        0x5c4nat,
        0x21c9f7416785b832f3c868b2cf663cef67nat,
    );
    lemma_second_power_of_134_bits_even(
        0x5c4nat,
        0x21c9f7416785b832f3c868b2cf663cef67nat,
        0xb88nat,
        0x61bff60c7ec7933c56540def5c2107abenat,
    );
    lemma_second_power_of_134_bits_odd(
        0xb88nat,
        0x61bff60c7ec7933c56540def5c2107abenat,
        0x1711nat,
        0x2089e7352596dbca0d9b57a4ef641ae758nat,
        0x23806664ca961f0f4147f2aa47de2d791cnat,
    );
    lemma_second_power_of_134_bits_odd(
        0x1711nat,
        0x23806664ca961f0f4147f2aa47de2d791cnat,
        0x2e23nat,
        0x1cfb65b5c7819169d3792dfb27c94de6aanat,
        0xdadcadf57f093aa0b8ee5b05fc7690fenat,
    );
    lemma_second_power_of_134_bits_even(
        0x2e23nat,
        0xdadcadf57f093aa0b8ee5b05fc7690fenat,
        0x5c46nat,
        0x15410419193343898bce954f59efd72c38nat,
    );
    lemma_second_power_of_134_bits_even(
        0x5c46nat,
        0x15410419193343898bce954f59efd72c38nat,
        0xb88cnat,
        0x1df562732846fd98fad46551596cbe6df2nat,
    );
}

/// The same power with the first 32 bits of the exponent only.
proof fn lemma_second_power_of_134_bits_first_32()
    ensures
        mod_pow(
            0x2ed44fda29c6a3dabe495595d78330fdd8nat,
            0xb88c437cnat,
            0x3540ab9e1135684dd5108799c164af2765nat,
        ) == 0x1867605dbba12c20836aaeb6fc9ab45919nat,
{
    lemma_second_power_of_134_bits_first_16();
    lemma_second_power_of_134_bits_even(
        0xb88cnat,
        0x1df562732846fd98fad46551596cbe6df2nat,
        0x17118nat,
        0x5f7af1cca9cda9fe7b3d7dc8c59efc748nat,
    );
    lemma_second_power_of_134_bits_odd(
        0x17118nat,
        0x5f7af1cca9cda9fe7b3d7dc8c59efc748nat,
        0x2e231nat,
        0x194b2c6b3b17bafd4c3e5e776430a14902nat,
        0x33250b63168d2673a329fbcb830b55800fnat,
    );
    lemma_second_power_of_134_bits_even(
        0x2e231nat,
        0x33250b63168d2673a329fbcb830b55800fnat,
        0x5c462nat,
        0xdfd50a510eea9081aa08a0df30472394nat,
    );
    lemma_second_power_of_134_bits_even(
        0x5c462nat,
        0xdfd50a510eea9081aa08a0df30472394nat,
        0xb88c4nat,
        0x3229ccd0b10913dcc82607890767c6a003nat,
    );
    lemma_second_power_of_134_bits_even(
        0xb88c4nat,
        0x3229ccd0b10913dcc82607890767c6a003nat,
        0x171188nat,
        0xccf1dc06bb57c07f53142be03410cdcc0nat,
    );
    lemma_second_power_of_134_bits_even(
        0x171188nat,
        0xccf1dc06bb57c07f53142be03410cdcc0nat,
        0x2e2310nat,
        0x1c16f6bec431ddb5f607a2b955ddb18dcfnat,
    );
    lemma_second_power_of_134_bits_odd(
        0x2e2310nat,
        0x1c16f6bec431ddb5f607a2b955ddb18dcfnat,
        0x5c4621nat,
        0xe081223d01c7fac14a6ea34714d588c0nat,
        0x10fd1e0f5c4f20e35dae479060846f8e15nat,
    );
    lemma_second_power_of_134_bits_odd(
        0x5c4621nat,
        0x10fd1e0f5c4f20e35dae479060846f8e15nat,
        0xb88c43nat,
        0xd300ab43c5382c004bf3a945d466d651dnat,
        0xa57f4cd073e213c2b5ded1f81a12ca173nat,
    );
    lemma_second_power_of_134_bits_even(
        0xb88c43nat,
        0xa57f4cd073e213c2b5ded1f81a12ca173nat,
        0x1711886nat,
        0x117338d821f11ec1c60ca9599de0eb88c1nat,
    );
    lemma_second_power_of_134_bits_odd(
        0x1711886nat,
        0x117338d821f11ec1c60ca9599de0eb88c1nat,
        0x2e2310dnat,
        0xb821678fbb3051eb2fe2f88562cd142c2nat,
        0x27cf37ca9dcbaaa4e8bfac77c31a351375nat,
    );
    lemma_second_power_of_134_bits_odd(
        0x2e2310dnat,
        0x27cf37ca9dcbaaa4e8bfac77c31a351375nat,
        0x5c4621bnat,
        0x203ab11f32aaefc3b942144e3546f68cc7nat,
        0x28903ac2e62515155b96ae46657e1294f2nat,
    );
    lemma_second_power_of_134_bits_odd(
        0x5c4621bnat,
        0x28903ac2e62515155b96ae46657e1294f2nat,
        0xb88c437nat,
        0x20c3bbdd5601d8f06f4bd8368503e9a719nat,
        0x15b623a02a3f29b6a4c278f8067f336678nat,
    );
    lemma_second_power_of_134_bits_odd(
        0xb88c437nat,
        0x15b623a02a3f29b6a4c278f8067f336678nat,
        0x1711886fnat,
        0x310b50f8b0738d9c6d29b2d203343c5acenat,
        0x64c0ec6dfc1acfc76b3980a98cab693d9nat,
    );
    lemma_second_power_of_134_bits_odd(
        0x1711886fnat,
        0x64c0ec6dfc1acfc76b3980a98cab693d9nat,
        0x2e2310dfnat,
        0x218aeea6a196cf26090146fab6df95d62fnat,
        0x14482daa5eb556be52737fd708c5ba1b87nat,
    );
    lemma_second_power_of_134_bits_even(
        0x2e2310dfnat,
        0x14482daa5eb556be52737fd708c5ba1b87nat,
        0x5c4621benat,
        0x14680d090d27c0f9e8a7c11f86b8ba6d9nat,
    );
    lemma_second_power_of_134_bits_even(
        0x5c4621benat,
        0x14680d090d27c0f9e8a7c11f86b8ba6d9nat,
        0xb88c437cnat,
        0x1867605dbba12c20836aaeb6fc9ab45919nat,
    );
}

/// The witness raised to the first prime factor.
proof fn lemma_second_power_of_134_bits()
    ensures
        mod_pow(
            0x2ed44fda29c6a3dabe495595d78330fdd8nat,
            0x5c4621be6147nat,
            0x3540ab9e1135684dd5108799c164af2765nat,
        ) == 0x5446ac77da4cf8e46a37f8f248ed7c4c4nat,
{
    lemma_second_power_of_134_bits_first_32();
    lemma_second_power_of_134_bits_odd(
        0xb88c437cnat,
        0x1867605dbba12c20836aaeb6fc9ab45919nat,
        0x1711886f9nat,
        0x24acd7a85fdbdff10b687863c9e847cf65nat,
        0x29acdf373550484d21cb267e44a4320fdfnat,
    );
    lemma_second_power_of_134_bits_odd(
        0x1711886f9nat,
        0x29acdf373550484d21cb267e44a4320fdfnat,
        0x2e2310df3nat,
        0x159c8145569a0716012e00f98f2022025nat,
        0x411fa3a9092da63f96cbdef12d37c5f88nat,
    );
    lemma_second_power_of_134_bits_even(
        0x2e2310df3nat,
        0x411fa3a9092da63f96cbdef12d37c5f88nat,
        0x5c4621be6nat,
        0xb154a1c8c23d5cb3a24a8aa92abe3a28dnat,
    );
    lemma_second_power_of_134_bits_even(
        0x5c4621be6nat,
        0xb154a1c8c23d5cb3a24a8aa92abe3a28dnat,
        0xb88c437ccnat,
        0x200c04f465c28d98cdb69c12172ee792efnat,
    );
    lemma_second_power_of_134_bits_even(
        0xb88c437ccnat,
        0x200c04f465c28d98cdb69c12172ee792efnat,
        0x1711886f98nat,
        0x22a0992236bcd96f16de7e4f0fc1839bf8nat,
    );
    lemma_second_power_of_134_bits_even(
        0x1711886f98nat,
        0x22a0992236bcd96f16de7e4f0fc1839bf8nat,
        0x2e2310df30nat,
        0x26054684ed40f88c79815c7388f487c05enat,
    );
    lemma_second_power_of_134_bits_odd(
        0x2e2310df30nat,
        0x26054684ed40f88c79815c7388f487c05enat,
        0x5c4621be61nat,
        0x1f40ea88f231646a1c7f02198193b72b21nat,
        0x2156a9395c69e5cd386775eb0883aad998nat,
    );
    lemma_second_power_of_134_bits_even(
        0x5c4621be61nat,
        0x2156a9395c69e5cd386775eb0883aad998nat,
        0xb88c437cc2nat,
        0xf8777d0d42f0b0b6bf6b3e297c899ec5nat,
    );
    lemma_second_power_of_134_bits_odd(
        0xb88c437cc2nat,
        0xf8777d0d42f0b0b6bf6b3e297c899ec5nat,
        0x1711886f985nat,
        0xdbb7e600a9cbe25094cb769c5eae63e96nat,
        0x161a530142f0933c0b6a5cfcc3a333c55bnat,
    );
    lemma_second_power_of_134_bits_even(
        0x1711886f985nat,
        0x161a530142f0933c0b6a5cfcc3a333c55bnat,
        0x2e2310df30anat,
        0x30a68b87fd22ecb493f22ac7c56d1cf199nat,
    );
    lemma_second_power_of_134_bits_even(
        0x2e2310df30anat,
        0x30a68b87fd22ecb493f22ac7c56d1cf199nat,
        0x5c4621be614nat,
        0x2253fc875b733e7b27eb0d2bc216128941nat,
    );
    lemma_second_power_of_134_bits_even(
        0x5c4621be614nat,
        0x2253fc875b733e7b27eb0d2bc216128941nat,
        0xb88c437cc28nat,
        0x2ebfd9a3cf6aa3bad03e8a89c8196d00a5nat,
    );
    lemma_second_power_of_134_bits_odd(
        0xb88c437cc28nat,
        0x2ebfd9a3cf6aa3bad03e8a89c8196d00a5nat,
        0x1711886f9851nat,
        0x2cb0de79b8779e8a9260f060bc44199f82nat,
        0x10a05b4dd5bc00eeeb3732e3df21969627nat,
    );
    lemma_second_power_of_134_bits_odd(
        0x1711886f9851nat,
        0x10a05b4dd5bc00eeeb3732e3df21969627nat,
        0x2e2310df30a3nat,
        0x25922f24d44845817022f5b674cde08accnat,
        0x33b500c4842d32b9a01e88e05afff4c56cnat,
    );
    lemma_second_power_of_134_bits_odd(
        0x2e2310df30a3nat,
        0x33b500c4842d32b9a01e88e05afff4c56cnat,
        0x5c4621be6147nat,
        0x2f2d16da6d46bccf1582362eee16936bc0nat,
        0x5446ac77da4cf8e46a37f8f248ed7c4c4nat,
    );
}

/// One more bit, a zero, at the end of the exponent: the power is squared.
proof fn lemma_full_power_of_134_bits_even(e: nat, x: nat, doubled: nat, square: nat)
    requires
        mod_pow(
            0x1b28fa79d8ad61926b99f54f7520ea8fb3nat,
            e,
            0x3540ab9e1135684dd5108799c164af2765nat,
        ) == x,
        doubled == 2 * e,
        (x * x) % 0x3540ab9e1135684dd5108799c164af2765nat == square,
    ensures
        mod_pow(
            0x1b28fa79d8ad61926b99f54f7520ea8fb3nat,
            doubled,
            0x3540ab9e1135684dd5108799c164af2765nat,
        ) == square,
{
    lemma_mul_mod_value(x, x, 0x3540ab9e1135684dd5108799c164af2765nat, square);
    lemma_mod_pow_even(
        0x1b28fa79d8ad61926b99f54f7520ea8fb3nat,
        e,
        0x3540ab9e1135684dd5108799c164af2765nat,
        doubled,
    );
}

/// One more bit, a one, at the end of the exponent: the power is squared and
/// multiplied by the base.
proof fn lemma_full_power_of_134_bits_odd(e: nat, x: nat, next: nat, square: nat, y: nat)
    requires
        mod_pow(
            0x1b28fa79d8ad61926b99f54f7520ea8fb3nat,
            e,
            0x3540ab9e1135684dd5108799c164af2765nat,
        ) == x,
        next == 2 * e + 1,
        (x * x) % 0x3540ab9e1135684dd5108799c164af2765nat == square,
        (0x1b28fa79d8ad61926b99f54f7520ea8fb3nat * square)
            % 0x3540ab9e1135684dd5108799c164af2765nat == y,
    ensures
        mod_pow(
            0x1b28fa79d8ad61926b99f54f7520ea8fb3nat,
            next,
            0x3540ab9e1135684dd5108799c164af2765nat,
        ) == y,
{
    lemma_mul_mod_value(x, x, 0x3540ab9e1135684dd5108799c164af2765nat, square);
    lemma_mul_mod_value(
        0x1b28fa79d8ad61926b99f54f7520ea8fb3nat,
        square,
        0x3540ab9e1135684dd5108799c164af2765nat,
        y,
    );
    lemma_mod_pow_odd(
        0x1b28fa79d8ad61926b99f54f7520ea8fb3nat,
        e,
        0x3540ab9e1135684dd5108799c164af2765nat,
        next,
    );
}

/// The same power with the first 16 bits of the exponent only.
proof fn lemma_full_power_of_134_bits_first_16()
    ensures
        mod_pow(
            0x1b28fa79d8ad61926b99f54f7520ea8fb3nat,
            0xb88cnat,
            0x3540ab9e1135684dd5108799c164af2765nat,
        ) == 0x1f1fefb625b8251ba6ff3fdd746f9bb0c3nat,
{
    lemma_mod_pow_zero(
        0x1b28fa79d8ad61926b99f54f7520ea8fb3nat,
        0x3540ab9e1135684dd5108799c164af2765nat,
    );
    lemma_full_power_of_134_bits_odd(
        0nat,
        1nat,
        1nat,
        1nat,
        0x1b28fa79d8ad61926b99f54f7520ea8fb3nat,
    );
    lemma_full_power_of_134_bits_even(
        1nat,
        0x1b28fa79d8ad61926b99f54f7520ea8fb3nat,
        2nat,
        0x24ab049e61e5999b3502ec1123f5d48cbbnat,
    );
    lemma_full_power_of_134_bits_odd(
        2nat,
        0x24ab049e61e5999b3502ec1123f5d48cbbnat,
        5nat,
        0x6238409325aa166b9d6dd377213406866nat,
        0x12b27ce3d33fa107052998889f8ac35736nat,
    );
    lemma_full_power_of_134_bits_odd(
        5nat,
        0x12b27ce3d33fa107052998889f8ac35736nat,
        11nat,
        0xef5244857b6bdd7d3b66c8aec29fa93enat,
        0x31dbd6b4c29e42b66090498660a4fad855nat,
    );
    lemma_full_power_of_134_bits_odd(
        11nat,
        0x31dbd6b4c29e42b66090498660a4fad855nat,
        23nat,
        0x2a5dfde5ea2ef1224b1cd133c15f7745a2nat,
        0x161b414247af3a7b5cebb73ffcc579e091nat,
    );
    lemma_full_power_of_134_bits_even(
        23nat,
        0x161b414247af3a7b5cebb73ffcc579e091nat,
        46nat,
        0x33716b5a5cb9595b0ca38c933dedc4a6fanat,
    );
    lemma_full_power_of_134_bits_even(
        46nat,
        0x33716b5a5cb9595b0ca38c933dedc4a6fanat,
        92nat,
        0x1d680b5301982b49ab4f291757a0d29bf8nat,
    );
    lemma_full_power_of_134_bits_even(
        92nat,
        0x1d680b5301982b49ab4f291757a0d29bf8nat,
        184nat,
        0x19c036f2c3674781570d92279cb5635cb3nat,
    );
    lemma_full_power_of_134_bits_odd(
        184nat,
        0x19c036f2c3674781570d92279cb5635cb3nat,
        369nat,
        0x21928c6f0228e971d3b4cbc4e4b9df6a7dnat,
        0x2d558475ad63a352572cc8873160a72efbnat,
    );
    lemma_full_power_of_134_bits_even(
        369nat,
        0x2d558475ad63a352572cc8873160a72efbnat,
        738nat,
        0x1a93f58c43198932238a6be746a3f2bbffnat,
    );
    lemma_full_power_of_134_bits_even(
        738nat,
        0x1a93f58c43198932238a6be746a3f2bbffnat,
        0x5c4nat,
        0x25d785e7ebd10015ca4956be2127be6e23nat,
    );
    lemma_full_power_of_134_bits_even(
        0x5c4nat,
        0x25d785e7ebd10015ca4956be2127be6e23nat,
        0xb88nat,
        0x2f9799371533037940fa5b8680c31166dnat,
    );
    lemma_full_power_of_134_bits_odd(
        0xb88nat,
        0x2f9799371533037940fa5b8680c31166dnat,
        0x1711nat,
        0x281d1a9b0aa09f556e4c354129dcdce500nat,
        0x171fbab2488e0b8a53c2e83e0a912d0426nat,
    );
    lemma_full_power_of_134_bits_odd(
        0x1711nat,
        0x171fbab2488e0b8a53c2e83e0a912d0426nat,
        0x2e23nat,
        0x27567b4b7813e4944653a62e9f9eb931d4nat,
        0x3295acacac9aa71aa8a9e6c613454d9b6enat,
    );
    lemma_full_power_of_134_bits_even(
        0x2e23nat,
        0x3295acacac9aa71aa8a9e6c613454d9b6enat,
        0x5c46nat,
        0x4be40c9d5d547a801a916dcaf620578dfnat,
    );
    lemma_full_power_of_134_bits_even(
        0x5c46nat,
        0x4be40c9d5d547a801a916dcaf620578dfnat,
        0xb88cnat,
        0x1f1fefb625b8251ba6ff3fdd746f9bb0c3nat,
    );
}

/// The same power with the first 32 bits of the exponent only.
proof fn lemma_full_power_of_134_bits_first_32()
    ensures
        mod_pow(
            0x1b28fa79d8ad61926b99f54f7520ea8fb3nat,
            0xb88c437cnat,
            0x3540ab9e1135684dd5108799c164af2765nat,
        ) == 0x1cafe55e350327c65554e591a96a9f5443nat,
{
    lemma_full_power_of_134_bits_first_16();
    lemma_full_power_of_134_bits_even(
        0xb88cnat,
        0x1f1fefb625b8251ba6ff3fdd746f9bb0c3nat,
        0x17118nat,
        0x1abbccc5e94c09ccf21a79677c7272d039nat,
    );
    lemma_full_power_of_134_bits_odd(
        0x17118nat,
        0x1abbccc5e94c09ccf21a79677c7272d039nat,
        0x2e231nat,
        0x35062482d06387ef27e3ee1bed38a741e2nat,
        0x112d4111afefd7fc9237bda76a5fe284c8nat,
    );
    lemma_full_power_of_134_bits_even(
        0x2e231nat,
        0x112d4111afefd7fc9237bda76a5fe284c8nat,
        0x5c462nat,
        0x345d08afd02d7490ac32dcc00398f7163nat,
    );
    lemma_full_power_of_134_bits_even(
        0x5c462nat,
        0x345d08afd02d7490ac32dcc00398f7163nat,
        0xb88c4nat,
        0x52865cda08c65b6ebd9b415e704625banat,
    );
    lemma_full_power_of_134_bits_even(
        0xb88c4nat,
        0x52865cda08c65b6ebd9b415e704625banat,
        0x171188nat,
        0x634b436bc8126b70b73c5251a15e53ad6nat,
    );
    lemma_full_power_of_134_bits_even(
        0x171188nat,
        0x634b436bc8126b70b73c5251a15e53ad6nat,
        0x2e2310nat,
        0x2671bfb789e2ed941d77df875af160107anat,
    );
    lemma_full_power_of_134_bits_odd(
        0x2e2310nat,
        0x2671bfb789e2ed941d77df875af160107anat,
        0x5c4621nat,
        0xa3b275ab205dd646f851f260597494fd4nat,
        0x2aeb596601f18484d12c781a38aaa000acnat,
    );
    lemma_full_power_of_134_bits_odd(
        0x5c4621nat,
        0x2aeb596601f18484d12c781a38aaa000acnat,
        0xb88c43nat,
        0x11282e313197927c21fb915b58c1790d25nat,
        0x102e1ef9829af47ae4d316d25cbf6e20nat,
    );
    lemma_full_power_of_134_bits_even(
        0xb88c43nat,
        0x102e1ef9829af47ae4d316d25cbf6e20nat,
        0x1711886nat,
        0x2e8a58b0c410800f4419fe3a3221277062nat,
    );
    lemma_full_power_of_134_bits_odd(
        0x1711886nat,
        0x2e8a58b0c410800f4419fe3a3221277062nat,
        0x2e2310dnat,
        0xf774893f1d3a33eab8af98bbaf9bc8e3cnat,
        0x2dfbba7809088faec9116636c501e676enat,
    );
    lemma_full_power_of_134_bits_odd(
        0x2e2310dnat,
        0x2dfbba7809088faec9116636c501e676enat,
        0x5c4621bnat,
        0x10957dd146596e35c1dc75035989fa8316nat,
        0xcb0b2c04d4b0f66ecf98c95e4a1338fnat,
    );
    lemma_full_power_of_134_bits_odd(
        0x5c4621bnat,
        0xcb0b2c04d4b0f66ecf98c95e4a1338fnat,
        0xb88c437nat,
        0x1b74b74b2d19c8a63c6266c198aa756233nat,
        0x242ff9ff06be6fe00c88a4895afe3c3079nat,
    );
    lemma_full_power_of_134_bits_odd(
        0xb88c437nat,
        0x242ff9ff06be6fe00c88a4895afe3c3079nat,
        0x1711886fnat,
        0x17654aa455010a1057a4d9896d0542509nat,
        0x310e5212d5da37615e5856930a3da89941nat,
    );
    lemma_full_power_of_134_bits_odd(
        0x1711886fnat,
        0x310e5212d5da37615e5856930a3da89941nat,
        0x2e2310dfnat,
        0x75cdf60f5cd7ba65721afada70551aa92nat,
        0x30ba882ebb941f5e126ceff60c31e0fdd0nat,
    );
    lemma_full_power_of_134_bits_even(
        0x2e2310dfnat,
        0x30ba882ebb941f5e126ceff60c31e0fdd0nat,
        0x5c4621benat,
        0x22254d40c2d4ff8d8727e0bc1e4e334135nat,
    );
    lemma_full_power_of_134_bits_even(
        0x5c4621benat,
        0x22254d40c2d4ff8d8727e0bc1e4e334135nat,
        0xb88c437cnat,
        0x1cafe55e350327c65554e591a96a9f5443nat,
    );
}

/// The witness raised to both prime factors is one.
proof fn lemma_full_power_of_134_bits()
    ensures
        mod_pow(
            0x1b28fa79d8ad61926b99f54f7520ea8fb3nat,
            0x5c4621be6147nat,
            0x3540ab9e1135684dd5108799c164af2765nat,
        ) == 1nat,
{
    lemma_full_power_of_134_bits_first_32();
    lemma_full_power_of_134_bits_odd(
        0xb88c437cnat,
        0x1cafe55e350327c65554e591a96a9f5443nat,
        0x1711886f9nat,
        0x2c3b63f367407651a447f9e32379d697f5nat,
        0x1167ade15bfdad6cee563e5a5d0c0887acnat,
    );
    lemma_full_power_of_134_bits_odd(
        0x1711886f9nat,
        0x1167ade15bfdad6cee563e5a5d0c0887acnat,
        0x2e2310df3nat,
        0x254851df339c937effd08cc9b90950cdb1nat,
        0x2a34731786c5a2dd18e31f90a546f82214nat,
    );
    lemma_full_power_of_134_bits_even(
        0x2e2310df3nat,
        0x2a34731786c5a2dd18e31f90a546f82214nat,
        0x5c4621be6nat,
        0x4c7c0f80463ffac312b68ae77b36e027anat,
    );
    lemma_full_power_of_134_bits_even(
        0x5c4621be6nat,
        0x4c7c0f80463ffac312b68ae77b36e027anat,
        0xb88c437ccnat,
        0x17085811ea46e8f4df42683c4567e5d53anat,
    );
    lemma_full_power_of_134_bits_even(
        0xb88c437ccnat,
        0x17085811ea46e8f4df42683c4567e5d53anat,
        0x1711886f98nat,
        0x653f0d2b338e306ab0636fb9ea24ab965nat,
    );
    lemma_full_power_of_134_bits_even(
        0x1711886f98nat,
        0x653f0d2b338e306ab0636fb9ea24ab965nat,
        0x2e2310df30nat,
        0x537892bae2184a361a4be7e639d9cadc9nat,
    );
    lemma_full_power_of_134_bits_odd(
        0x2e2310df30nat,
        0x537892bae2184a361a4be7e639d9cadc9nat,
        0x5c4621be61nat,
        0xe3a7cc365deda94808dbc103543c649ddnat,
        0x2d711582fa515fb4a150dba65516e9aafanat,
    );
    lemma_full_power_of_134_bits_even(
        0x5c4621be61nat,
        0x2d711582fa515fb4a150dba65516e9aafanat,
        0xb88c437cc2nat,
        0x22c5dd5fd6a4461677b7ec7eb7075b276nat,
    );
    lemma_full_power_of_134_bits_odd(
        0xb88c437cc2nat,
        0x22c5dd5fd6a4461677b7ec7eb7075b276nat,
        0x1711886f985nat,
        0x20c9dedccd1374e195eaa2f3dcce9b59a1nat,
        0xd4cc84256a9e1ecd3ce9f2ace48b60a74nat,
    );
    lemma_full_power_of_134_bits_even(
        0x1711886f985nat,
        0xd4cc84256a9e1ecd3ce9f2ace48b60a74nat,
        0x2e2310df30anat,
        0xbd48582ede3f26a819195e4af981d594enat,
    );
    lemma_full_power_of_134_bits_even(
        0x2e2310df30anat,
        0xbd48582ede3f26a819195e4af981d594enat,
        0x5c4621be614nat,
        0x26312d433b74f88e4240fc88b79aae9b90nat,
    );
    lemma_full_power_of_134_bits_even(
        0x5c4621be614nat,
        0x26312d433b74f88e4240fc88b79aae9b90nat,
        0xb88c437cc28nat,
        0x2e2f2192ab126172f2d8e67f804590bd39nat,
    );
    lemma_full_power_of_134_bits_odd(
        0xb88c437cc28nat,
        0x2e2f2192ab126172f2d8e67f804590bd39nat,
        0x1711886f9851nat,
        0xb11c93bb4099c24ecb9e4ca1ca2a8959cnat,
        0x2b6c31cf5e96d922f10935ec78bfdffe7cnat,
    );
    lemma_full_power_of_134_bits_odd(
        0x1711886f9851nat,
        0x2b6c31cf5e96d922f10935ec78bfdffe7cnat,
        0x2e2310df30a3nat,
        0x2ffee8e5e647462e2eabf9eeb657fd4ceenat,
        0x20b760bfe1b8a70b5f3e7b3da6415431b2nat,
    );
    lemma_full_power_of_134_bits_odd(
        0x2e2310df30a3nat,
        0x20b760bfe1b8a70b5f3e7b3da6415431b2nat,
        0x5c4621be6147nat,
        0x12a7d148105b8fc4496950037a2cf8545bnat,
        1nat,
    );
}

/// A prime of 134 bits, by Pocklington's criterion with two prime factors of the
/// number before it, of 47 and 32 bits.
proof fn lemma_prime_of_134_bits()
    ensures
        is_prime(0x3540ab9e1135684dd5108799c164af2765nat),
{
    lemma_prime_of_47_bits();
    lemma_prime_of_32_bits();
    lemma_first_power_of_134_bits();
    lemma_second_power_of_134_bits();
    lemma_full_power_of_134_bits();
    lemma_pocklington_two(
        0x3540ab9e1135684dd5108799c164af2765nat,
        0x5c4621be6147nat,
        0x98f408cfnat,
        0xf746cffbf5bfc4nat,
        0x2ed44fda29c6a3dabe495595d78330fdd8nat,
        0x1b28fa79d8ad61926b99f54f7520ea8fb3nat,
        0x5446ac77da4cf8e46a37f8f248ed7c4c4nat,
        (0 - 0xa1608cc78f6accece246099c95d685198int),
        0x524e5c1320fe34e2962bb6b1f331ac45dint,
        (0 - 0x7c6532e39174e9534bfbd02b87b1c49baint),
        0xc4dd4caf3259a490390409e0fd134883int,
    );
}

/// One more bit, a zero, at the end of the exponent: the power is squared.
proof fn lemma_power_of_197_bits_even(e: nat, x: nat, doubled: nat, square: nat)
    requires
        mod_pow(
            0x6f676ada0afbc1ff333f6acdd93dac9ace0bfd106251bbde9nat,
            e,
            0x13f1f3759051c182b92c3ad803bf3cb6b53f7b1c01a44ac369nat,
        ) == x,
        doubled == 2 * e,
        (x * x) % 0x13f1f3759051c182b92c3ad803bf3cb6b53f7b1c01a44ac369nat == square,
    ensures
        mod_pow(
            0x6f676ada0afbc1ff333f6acdd93dac9ace0bfd106251bbde9nat,
            doubled,
            0x13f1f3759051c182b92c3ad803bf3cb6b53f7b1c01a44ac369nat,
        ) == square,
{
    lemma_mul_mod_value(x, x, 0x13f1f3759051c182b92c3ad803bf3cb6b53f7b1c01a44ac369nat, square);
    lemma_mod_pow_even(
        0x6f676ada0afbc1ff333f6acdd93dac9ace0bfd106251bbde9nat,
        e,
        0x13f1f3759051c182b92c3ad803bf3cb6b53f7b1c01a44ac369nat,
        doubled,
    );
}

/// One more bit, a one, at the end of the exponent: the power is squared and
/// multiplied by the base.
proof fn lemma_power_of_197_bits_odd(e: nat, x: nat, next: nat, square: nat, y: nat)
    requires
        mod_pow(
            0x6f676ada0afbc1ff333f6acdd93dac9ace0bfd106251bbde9nat,
            e,
            0x13f1f3759051c182b92c3ad803bf3cb6b53f7b1c01a44ac369nat,
        ) == x,
        next == 2 * e + 1,
        (x * x) % 0x13f1f3759051c182b92c3ad803bf3cb6b53f7b1c01a44ac369nat == square,
        (0x6f676ada0afbc1ff333f6acdd93dac9ace0bfd106251bbde9nat * square)
            % 0x13f1f3759051c182b92c3ad803bf3cb6b53f7b1c01a44ac369nat == y,
    ensures
        mod_pow(
            0x6f676ada0afbc1ff333f6acdd93dac9ace0bfd106251bbde9nat,
            next,
            0x13f1f3759051c182b92c3ad803bf3cb6b53f7b1c01a44ac369nat,
        ) == y,
{
    lemma_mul_mod_value(x, x, 0x13f1f3759051c182b92c3ad803bf3cb6b53f7b1c01a44ac369nat, square);
    lemma_mul_mod_value(
        0x6f676ada0afbc1ff333f6acdd93dac9ace0bfd106251bbde9nat,
        square,
        0x13f1f3759051c182b92c3ad803bf3cb6b53f7b1c01a44ac369nat,
        y,
    );
    lemma_mod_pow_odd(
        0x6f676ada0afbc1ff333f6acdd93dac9ace0bfd106251bbde9nat,
        e,
        0x13f1f3759051c182b92c3ad803bf3cb6b53f7b1c01a44ac369nat,
        next,
    );
}

/// The same power with the first 16 bits of the exponent only.
proof fn lemma_power_of_197_bits_first_16()
    ensures
        mod_pow(
            0x6f676ada0afbc1ff333f6acdd93dac9ace0bfd106251bbde9nat,
            0xd502nat,
            0x13f1f3759051c182b92c3ad803bf3cb6b53f7b1c01a44ac369nat,
        ) == 0x7e356553212104509e09f9ce0bbb0154b9837a36228168654nat,
{
    lemma_mod_pow_zero(
        0x6f676ada0afbc1ff333f6acdd93dac9ace0bfd106251bbde9nat,
        0x13f1f3759051c182b92c3ad803bf3cb6b53f7b1c01a44ac369nat,
    );
    lemma_power_of_197_bits_odd(
        0nat,
        1nat,
        1nat,
        1nat,
        0x6f676ada0afbc1ff333f6acdd93dac9ace0bfd106251bbde9nat,
    );
    lemma_power_of_197_bits_odd(
        1nat,
        0x6f676ada0afbc1ff333f6acdd93dac9ace0bfd106251bbde9nat,
        3nat,
        0x672c08a7bd1800fbc153f1b64e7275c04ae0825f2a43d4ebdnat,
        0xfe7b2285ebef5ad562d67a2aa8d9e0fc09b15fd8911b96920nat,
    );
    lemma_power_of_197_bits_even(
        3nat,
        0xfe7b2285ebef5ad562d67a2aa8d9e0fc09b15fd8911b96920nat,
        6nat,
        0x8945f728ae51227d8ada4beee28292410d763689dad8d3feanat,
    );
    lemma_power_of_197_bits_odd(
        6nat,
        0x8945f728ae51227d8ada4beee28292410d763689dad8d3feanat,
        13nat,
        0xb1a33c9874bf59aab7158ee62566114e917ad744fad67332dnat,
        0x11933af9d3e2088f6f5e4f46a790ae08887d285da5b3b72640nat,
    );
    lemma_power_of_197_bits_even(
        13nat,
        0x11933af9d3e2088f6f5e4f46a790ae08887d285da5b3b72640nat,
        26nat,
        0x4d78c4baf47e2974e141e2325fcc0033ec7af359218312d09nat,
    );
    lemma_power_of_197_bits_odd(
        26nat,
        0x4d78c4baf47e2974e141e2325fcc0033ec7af359218312d09nat,
        53nat,
        0x12f8c52d6e884717296521d3b0d9469175ac82d7ef49f14a6fnat,
        0x110692cc3303848ee14daebe014e8bf9aed374a7d484bcaf07nat,
    );
    lemma_power_of_197_bits_even(
        53nat,
        0x110692cc3303848ee14daebe014e8bf9aed374a7d484bcaf07nat,
        106nat,
        0xe668d07b83457ea56403069c8e58d9f2e2cc0e0bd8ea4b623nat,
    );
    lemma_power_of_197_bits_odd(
        106nat,
        0xe668d07b83457ea56403069c8e58d9f2e2cc0e0bd8ea4b623nat,
        213nat,
        0xed263892636d72fb30c6514ff920f4ee843a45360b95c49anat,
        0x103764f7d5bccbc45a0b74156679b96bbb7d1abcf47282165cnat,
    );
    lemma_power_of_197_bits_even(
        213nat,
        0x103764f7d5bccbc45a0b74156679b96bbb7d1abcf47282165cnat,
        426nat,
        0x1204bd00235229c183a10a6ef96e7e59ba6eae89eac115f29nat,
    );
    lemma_power_of_197_bits_even(
        426nat,
        0x1204bd00235229c183a10a6ef96e7e59ba6eae89eac115f29nat,
        852nat,
        0x7cc9aeff590caddb6de564036e79d8f6d4d22206aacfca328nat,
    );
    lemma_power_of_197_bits_even(
        852nat,
        0x7cc9aeff590caddb6de564036e79d8f6d4d22206aacfca328nat,
        0x6a8nat,
        0xa7844fd1d9b6c02ac42e95002b1bcff837a4787aac561d63nat,
    );
    lemma_power_of_197_bits_even(
        0x6a8nat,
        0xa7844fd1d9b6c02ac42e95002b1bcff837a4787aac561d63nat,
        0xd50nat,
        0x7416530809c9a5ef5e25f5188ec1548e0cf5a041d17b85efdnat,
    );
    lemma_power_of_197_bits_even(
        0xd50nat,
        0x7416530809c9a5ef5e25f5188ec1548e0cf5a041d17b85efdnat,
        0x1aa0nat,
        0x7ac8500132b66ee37dfe7f395191a7be54a45c3d5dcc2180bnat,
    );
    lemma_power_of_197_bits_even(
        0x1aa0nat,
        0x7ac8500132b66ee37dfe7f395191a7be54a45c3d5dcc2180bnat,
        0x3540nat,
        0x9761ea15602a1bbd40bbb78ee9add03eec87efb5a9f223f9nat,
    );
    lemma_power_of_197_bits_odd(
        0x3540nat,
        0x9761ea15602a1bbd40bbb78ee9add03eec87efb5a9f223f9nat,
        0x6a81nat,
        0x354d49bf0f871f314ef7b944ed9a210fbcb5c9a85e7c28689nat,
        0x102960ba248ddc542cc7c8ce69414a88e3389baf22b46078c5nat,
    );
    lemma_power_of_197_bits_even(
        0x6a81nat,
        0x102960ba248ddc542cc7c8ce69414a88e3389baf22b46078c5nat,
        0xd502nat,
        0x7e356553212104509e09f9ce0bbb0154b9837a36228168654nat,
    );
}

/// The same power with the first 32 bits of the exponent only.
proof fn lemma_power_of_197_bits_first_32()
    ensures
        mod_pow(
            0x6f676ada0afbc1ff333f6acdd93dac9ace0bfd106251bbde9nat,
            0xd502ae78nat,
            0x13f1f3759051c182b92c3ad803bf3cb6b53f7b1c01a44ac369nat,
        ) == 0xba850b77f59c8ea9b97f1c7417e2b0dd7e0705db8eec153d5nat,
{
    lemma_power_of_197_bits_first_16();
    lemma_power_of_197_bits_odd(
        0xd502nat,
        0x7e356553212104509e09f9ce0bbb0154b9837a36228168654nat,
        0x1aa05nat,
        0xc71c9b0e8b793d20e0ec70ad03aaa02acc423f96b16794abfnat,
        0x1287a8bc23c176a544afcc1fdef297f7ad0dd89967b7f7c2banat,
    );
    lemma_power_of_197_bits_even(
        0x1aa05nat,
        0x1287a8bc23c176a544afcc1fdef297f7ad0dd89967b7f7c2banat,
        0x3540anat,
        0xd470af03b7853bc74948ad654006e6ef7ed4f4b79c229bd38nat,
    );
    lemma_power_of_197_bits_odd(
        0x3540anat,
        0xd470af03b7853bc74948ad654006e6ef7ed4f4b79c229bd38nat,
        0x6a815nat,
        0xfc90ff34c8f54314f327cbd78622fee2c60479e813278ec64nat,
        0xe895063468d04d90c99f7863d3cbfd3e918e235d449612cnat,
    );
    lemma_power_of_197_bits_even(
        0x6a815nat,
        0xe895063468d04d90c99f7863d3cbfd3e918e235d449612cnat,
        0xd502anat,
        0xba1694deb4b5553b9a1720df052f028f4da8a5a64a6b1055enat,
    );
    lemma_power_of_197_bits_odd(
        0xd502anat,
        0xba1694deb4b5553b9a1720df052f028f4da8a5a64a6b1055enat,
        0x1aa055nat,
        0xf36a8fc16cecb44730f1f264ef988162e0c7a3f13f0e2dc81nat,
        0xdeb711895c47c331f716aa667ad2fbff48f5d332ef1fb9f42nat,
    );
    lemma_power_of_197_bits_odd(
        0x1aa055nat,
        0xdeb711895c47c331f716aa667ad2fbff48f5d332ef1fb9f42nat,
        0x3540abnat,
        0xeb881d34bace2504656f87f6641657e2862d656cf7c7b710fnat,
        0x544ae1d9a8a6748e5038468709d1fa44f19014fbcc9bcf642nat,
    );
    lemma_power_of_197_bits_odd(
        0x3540abnat,
        0x544ae1d9a8a6748e5038468709d1fa44f19014fbcc9bcf642nat,
        0x6a8157nat,
        0xf0366c534f2b78b16a21809f78c1119eede9bdc01c8295aafnat,
        0x1341f6c113c645e79aaf5906130878ea85f597a3913aa3a18fnat,
    );
    lemma_power_of_197_bits_even(
        0x6a8157nat,
        0x1341f6c113c645e79aaf5906130878ea85f597a3913aa3a18fnat,
        0xd502aenat,
        0xcceb82839cdc3a88f2d872bf1bde87871b7b6cf5a25878bf0nat,
    );
    lemma_power_of_197_bits_even(
        0xd502aenat,
        0xcceb82839cdc3a88f2d872bf1bde87871b7b6cf5a25878bf0nat,
        0x1aa055cnat,
        0x619496a212430c9d40fcbaf79ea423b547a1daf8b0efea696nat,
    );
    lemma_power_of_197_bits_odd(
        0x1aa055cnat,
        0x619496a212430c9d40fcbaf79ea423b547a1daf8b0efea696nat,
        0x3540ab9nat,
        0x6d387e9a1a631458e2cccf2376002c6f02cd7e7448448ede3nat,
        0xa41f78754faf3e5f3d635b853f08542729f10a0dccc75bad0nat,
    );
    lemma_power_of_197_bits_odd(
        0x3540ab9nat,
        0xa41f78754faf3e5f3d635b853f08542729f10a0dccc75bad0nat,
        0x6a81573nat,
        0x9d719e173811b400ef5dbd6ebdeed2c3ca5fef513f9faaf1anat,
        0x9b925a92bf721320528d97bdcf0ae71dfcaf870f1d7ef33c3nat,
    );
    lemma_power_of_197_bits_odd(
        0x6a81573nat,
        0x9b925a92bf721320528d97bdcf0ae71dfcaf870f1d7ef33c3nat,
        0xd502ae7nat,
        0x41a4ce2b3b0aeca6a873ba90ee7f3b52108a7a6124ee9327bnat,
        0x1420d2c46f34c0717131b4d4f099def771449c0c1de89af83nat,
    );
    lemma_power_of_197_bits_odd(
        0xd502ae7nat,
        0x1420d2c46f34c0717131b4d4f099def771449c0c1de89af83nat,
        0x1aa055cfnat,
        0x7ee9831395de054a6a386bb2bba8aae18b9451bb2ef270addnat,
        0x8c7cddf322783a7bf921dbf878152453a887efffe8050f5c3nat,
    );
    lemma_power_of_197_bits_even(
        0x1aa055cfnat,
        0x8c7cddf322783a7bf921dbf878152453a887efffe8050f5c3nat,
        0x3540ab9enat,
        0x115412b107fef05a80ea99cd7b25adcf110c4889fa058029e1nat,
    );
    lemma_power_of_197_bits_even(
        0x3540ab9enat,
        0x115412b107fef05a80ea99cd7b25adcf110c4889fa058029e1nat,
        0x6a81573cnat,
        0xc62948c7920894e6b20fba765fe93150e4815f868c0106d26nat,
    );
    lemma_power_of_197_bits_even(
        0x6a81573cnat,
        0xc62948c7920894e6b20fba765fe93150e4815f868c0106d26nat,
        0xd502ae78nat,
        0xba850b77f59c8ea9b97f1c7417e2b0dd7e0705db8eec153d5nat,
    );
}

/// The same power with the first 48 bits of the exponent only.
proof fn lemma_power_of_197_bits_first_48()
    ensures
        mod_pow(
            0x6f676ada0afbc1ff333f6acdd93dac9ace0bfd106251bbde9nat,
            0xd502ae7844d5nat,
            0x13f1f3759051c182b92c3ad803bf3cb6b53f7b1c01a44ac369nat,
        ) == 0xe58d3a33d5b43016a798895d677305a9ead8f0b8657e5bfc6nat,
{
    lemma_power_of_197_bits_first_32();
    lemma_power_of_197_bits_even(
        0xd502ae78nat,
        0xba850b77f59c8ea9b97f1c7417e2b0dd7e0705db8eec153d5nat,
        0x1aa055cf0nat,
        0xa20a0f8955bc396f9ea19e93a56c4cf22a8a45d131ae05b27nat,
    );
    lemma_power_of_197_bits_odd(
        0x1aa055cf0nat,
        0xa20a0f8955bc396f9ea19e93a56c4cf22a8a45d131ae05b27nat,
        0x3540ab9e1nat,
        0x1334c07603f4f9f358d86a01f496e78085a4f42ccf149d4921nat,
        0x6d9a5e7b32f820321928aded918999668fa2a610fbcd8b0eenat,
    );
    lemma_power_of_197_bits_even(
        0x3540ab9e1nat,
        0x6d9a5e7b32f820321928aded918999668fa2a610fbcd8b0eenat,
        0x6a81573c2nat,
        0x1359c7247813c1b54aa178cd765a72031287dc39fd9542db40nat,
    );
    lemma_power_of_197_bits_even(
        0x6a81573c2nat,
        0x1359c7247813c1b54aa178cd765a72031287dc39fd9542db40nat,
        0xd502ae784nat,
        0xffca0243234d8bea6df40b0172a530762297a265de90c8b9anat,
    );
    lemma_power_of_197_bits_even(
        0xd502ae784nat,
        0xffca0243234d8bea6df40b0172a530762297a265de90c8b9anat,
        0x1aa055cf08nat,
        0x19c02f86f7f8e3b8f60a67e94fb1fe31c2bb18a1ac99a71c7nat,
    );
    lemma_power_of_197_bits_odd(
        0x1aa055cf08nat,
        0x19c02f86f7f8e3b8f60a67e94fb1fe31c2bb18a1ac99a71c7nat,
        0x3540ab9e11nat,
        0xab9dbacfbbd028e3ec5844162a119c49ac7de65153d236153nat,
        0x3e8278f245305eb1e3c9be289ca8987ab0bcc18c2c45afd87nat,
    );
    lemma_power_of_197_bits_even(
        0x3540ab9e11nat,
        0x3e8278f245305eb1e3c9be289ca8987ab0bcc18c2c45afd87nat,
        0x6a81573c22nat,
        0x5b35e8cbc05c42e4c97f04dd3994b5825f49142e08c8d36enat,
    );
    lemma_power_of_197_bits_even(
        0x6a81573c22nat,
        0x5b35e8cbc05c42e4c97f04dd3994b5825f49142e08c8d36enat,
        0xd502ae7844nat,
        0x5f9458a2e7afc78f8722836d72b9dc07f1ed5153574d4a05fnat,
    );
    lemma_power_of_197_bits_odd(
        0xd502ae7844nat,
        0x5f9458a2e7afc78f8722836d72b9dc07f1ed5153574d4a05fnat,
        0x1aa055cf089nat,
        0x3fa7f18ba5e04aef2067f91b4d0781c9d12ed6edb19ecbbffnat,
        0x11e32332f241f360f02dd784508f0fde5654047d9ed6a11ef3nat,
    );
    lemma_power_of_197_bits_odd(
        0x1aa055cf089nat,
        0x11e32332f241f360f02dd784508f0fde5654047d9ed6a11ef3nat,
        0x3540ab9e113nat,
        0x44fcdc7466a122854b0a6a862179ac81ccef4d6627d212c22nat,
        0xde873fb0a6469402dc7dd3940ab9c681f12c100562441c11cnat,
    );
    lemma_power_of_197_bits_even(
        0x3540ab9e113nat,
        0xde873fb0a6469402dc7dd3940ab9c681f12c100562441c11cnat,
        0x6a81573c226nat,
        0x102205f7308a25c3cdb2bc18867b70505f9e4c4e174214b8e0nat,
    );
    lemma_power_of_197_bits_odd(
        0x6a81573c226nat,
        0x102205f7308a25c3cdb2bc18867b70505f9e4c4e174214b8e0nat,
        0xd502ae7844dnat,
        0x135ee8fd5d8c51d00ab29100be5fbde20dab7009d1540580ccnat,
        0xb82085717c8df3d0a59546cd975282730e80965b7ade8a14bnat,
    );
    lemma_power_of_197_bits_even(
        0xd502ae7844dnat,
        0xb82085717c8df3d0a59546cd975282730e80965b7ade8a14bnat,
        0x1aa055cf089anat,
        0xab8a87237fca1089d52caee1c47f12d1f4eab8931be71989anat,
    );
    lemma_power_of_197_bits_odd(
        0x1aa055cf089anat,
        0xab8a87237fca1089d52caee1c47f12d1f4eab8931be71989anat,
        0x3540ab9e1135nat,
        0x400405b5d93d74e88f4b20e4da6bb81960748bcd2b3ad321enat,
        0xd0ee8ee619753dc7f626316b484fb8673e09272036782693anat,
    );
    lemma_power_of_197_bits_even(
        0x3540ab9e1135nat,
        0xd0ee8ee619753dc7f626316b484fb8673e09272036782693anat,
        0x6a81573c226anat,
        0x8ba67cfdb183832564b3e56981aeb0db04ba4b93cda5311e0nat,
    );
    lemma_power_of_197_bits_odd(
        0x6a81573c226anat,
        0x8ba67cfdb183832564b3e56981aeb0db04ba4b93cda5311e0nat,
        0xd502ae7844d5nat,
        0xbd5bf393fea78c37c680f655072c2fd7bb7f73ffe12b0a6a5nat,
        0xe58d3a33d5b43016a798895d677305a9ead8f0b8657e5bfc6nat,
    );
}

/// The same power with the first 64 bits of the exponent only.
proof fn lemma_power_of_197_bits_first_64()
    ensures
        mod_pow(
            0x6f676ada0afbc1ff333f6acdd93dac9ace0bfd106251bbde9nat,
            0xd502ae7844d5a137nat,
            0x13f1f3759051c182b92c3ad803bf3cb6b53f7b1c01a44ac369nat,
        ) == 0x7ce4afae957e649c8ed8c340021458166a04f43dfd8a7cd41nat,
{
    lemma_power_of_197_bits_first_48();
    lemma_power_of_197_bits_odd(
        0xd502ae7844d5nat,
        0xe58d3a33d5b43016a798895d677305a9ead8f0b8657e5bfc6nat,
        0x1aa055cf089abnat,
        0xc36e7a86d6c747065dfe16a33a35946071c285bea06de2c8cnat,
        0xf0705c0bbb01058661a0262ed40140f60422f8ebd7f286bdfnat,
    );
    lemma_power_of_197_bits_even(
        0x1aa055cf089abnat,
        0xf0705c0bbb01058661a0262ed40140f60422f8ebd7f286bdfnat,
        0x3540ab9e11356nat,
        0x51c0714bd5bf8f54e43296b8859cf49d30dc72fe3e7b76582nat,
    );
    lemma_power_of_197_bits_odd(
        0x3540ab9e11356nat,
        0x51c0714bd5bf8f54e43296b8859cf49d30dc72fe3e7b76582nat,
        0x6a81573c226adnat,
        0xe0bb68c1808784aced8d693af3e4aa42b8b6fd52fd0eebf3cnat,
        0x520c2a626c6f5d1b6f5c15c2f821ced41fdd8ab1c75e33ccfnat,
    );
    lemma_power_of_197_bits_even(
        0x6a81573c226adnat,
        0x520c2a626c6f5d1b6f5c15c2f821ced41fdd8ab1c75e33ccfnat,
        0xd502ae7844d5anat,
        0x254ee077751e3fcb97cb6b6bce22345672080c0b5ee13e9a2nat,
    );
    lemma_power_of_197_bits_even(
        0xd502ae7844d5anat,
        0x254ee077751e3fcb97cb6b6bce22345672080c0b5ee13e9a2nat,
        0x1aa055cf089ab4nat,
        0x748ca46f1cce4c9518e804ec0ab23fdbce891ddfd27490f32nat,
    );
    lemma_power_of_197_bits_even(
        0x1aa055cf089ab4nat,
        0x748ca46f1cce4c9518e804ec0ab23fdbce891ddfd27490f32nat,
        0x3540ab9e113568nat,
        0xb503fc93b024ba6048d9f94553dd46a80b6ee5375eaf8f51enat,
    );
    lemma_power_of_197_bits_even(
        0x3540ab9e113568nat,
        0xb503fc93b024ba6048d9f94553dd46a80b6ee5375eaf8f51enat,
        0x6a81573c226ad0nat,
        0x2b494a92671a9312ffeaade25f39754a4950f6cfd54215435nat,
    );
    lemma_power_of_197_bits_odd(
        0x6a81573c226ad0nat,
        0x2b494a92671a9312ffeaade25f39754a4950f6cfd54215435nat,
        0xd502ae7844d5a1nat,
        0x5334a1413754256dfb0a701282c17bd2aef9379dbee83efd3nat,
        0x924c948600997beb2c76404712066bc17ecd6430bda4595f6nat,
    );
    lemma_power_of_197_bits_even(
        0xd502ae7844d5a1nat,
        0x924c948600997beb2c76404712066bc17ecd6430bda4595f6nat,
        0x1aa055cf089ab42nat,
        0xea076a6a309a825e993a0892cd9f8ad89f31df2ce60332e0enat,
    );
    lemma_power_of_197_bits_even(
        0x1aa055cf089ab42nat,
        0xea076a6a309a825e993a0892cd9f8ad89f31df2ce60332e0enat,
        0x3540ab9e1135684nat,
        0x1315d6b728fe06b3126743f0c342485642a74ec30669148273nat,
    );
    lemma_power_of_197_bits_odd(
        0x3540ab9e1135684nat,
        0x1315d6b728fe06b3126743f0c342485642a74ec30669148273nat,
        0x6a81573c226ad09nat,
        0x826ea86406f3c613c4a38fde598837dd67f062ba591703782nat,
        0x1075a2e336bc2d92a04539acc3298737926596af450c3b0613nat,
    );
    lemma_power_of_197_bits_odd(
        0x6a81573c226ad09nat,
        0x1075a2e336bc2d92a04539acc3298737926596af450c3b0613nat,
        0xd502ae7844d5a13nat,
        0xc4d46b4f83d9d0f5fdaf8a4ae9fd5d1346b8f7e8ce97c3a60nat,
        0xc0251bedd763b8fa66e0010a58fc9a0ac4af9e220a7455835nat,
    );
    lemma_power_of_197_bits_even(
        0xd502ae7844d5a13nat,
        0xc0251bedd763b8fa66e0010a58fc9a0ac4af9e220a7455835nat,
        0x1aa055cf089ab426nat,
        0x16f1d0f740220eebbb910044d71f0d763bd1eeb1cd2ee2689nat,
    );
    lemma_power_of_197_bits_odd(
        0x1aa055cf089ab426nat,
        0x16f1d0f740220eebbb910044d71f0d763bd1eeb1cd2ee2689nat,
        0x3540ab9e1135684dnat,
        0x32bfd415bbebaa85d7a1f2de5a0167810bbf3af57190d1ec0nat,
        0xe77032d4c6783e51b833be4cb92f581759ed572926d11673anat,
    );
    lemma_power_of_197_bits_odd(
        0x3540ab9e1135684dnat,
        0xe77032d4c6783e51b833be4cb92f581759ed572926d11673anat,
        0x6a81573c226ad09bnat,
        0x7c489803064131a6a9177f4314ed16f86c94123d6be50148cnat,
        0x8c3d1334c051b84e4c005ee4f4adc22aca0a07e81d679b7danat,
    );
    lemma_power_of_197_bits_odd(
        0x6a81573c226ad09bnat,
        0x8c3d1334c051b84e4c005ee4f4adc22aca0a07e81d679b7danat,
        0xd502ae7844d5a137nat,
        0x57ba423e809146f10fc3bd93e8963531ba99e719391e3b6bcnat,
        0x7ce4afae957e649c8ed8c340021458166a04f43dfd8a7cd41nat,
    );
}

/// The same power with the first 80 bits of the exponent only.
proof fn lemma_power_of_197_bits_first_80()
    ensures
        mod_pow(
            0x6f676ada0afbc1ff333f6acdd93dac9ace0bfd106251bbde9nat,
            0xd502ae7844d5a1375442nat,
            0x13f1f3759051c182b92c3ad803bf3cb6b53f7b1c01a44ac369nat,
        ) == 0x10f21158935583eabb9d6ab0ee2c1225e45ce3388293467a2fnat,
{
    lemma_power_of_197_bits_first_64();
    lemma_power_of_197_bits_even(
        0xd502ae7844d5a137nat,
        0x7ce4afae957e649c8ed8c340021458166a04f43dfd8a7cd41nat,
        0x1aa055cf089ab426enat,
        0x49a1d1318d476e1fa3fee264d6af52227f7db0271490e9cdanat,
    );
    lemma_power_of_197_bits_odd(
        0x1aa055cf089ab426enat,
        0x49a1d1318d476e1fa3fee264d6af52227f7db0271490e9cdanat,
        0x3540ab9e1135684ddnat,
        0x139e771bf8b9b242de599daf913e8854d4faf02ef379079a40nat,
        0x3fb6a3ae85c5ba3e1d532b72193a2ee9998494d57c48efbd5nat,
    );
    lemma_power_of_197_bits_even(
        0x3540ab9e1135684ddnat,
        0x3fb6a3ae85c5ba3e1d532b72193a2ee9998494d57c48efbd5nat,
        0x6a81573c226ad09banat,
        0x67ba44e273de761d8bb73df42edb2f199bc01203974cb8a10nat,
    );
    lemma_power_of_197_bits_odd(
        0x6a81573c226ad09banat,
        0x67ba44e273de761d8bb73df42edb2f199bc01203974cb8a10nat,
        0xd502ae7844d5a1375nat,
        0x113f265a9f308e41f4e157b54d9327a557f1ff036e06a77471nat,
        0x1263a087919acb1752005bd4bdddda723daf937bd281eecef0nat,
    );
    lemma_power_of_197_bits_even(
        0xd502ae7844d5a1375nat,
        0x1263a087919acb1752005bd4bdddda723daf937bd281eecef0nat,
        0x1aa055cf089ab426eanat,
        0x135b6882d38c800e77c65d1e682c5461aedd2c7fe497187fc9nat,
    );
    lemma_power_of_197_bits_odd(
        0x1aa055cf089ab426eanat,
        0x135b6882d38c800e77c65d1e682c5461aedd2c7fe497187fc9nat,
        0x3540ab9e1135684dd5nat,
        0x41ea9f3c0799245de3c13d1f43e57bfa845401bc8cf6a02c7nat,
        0xa43af98f5af61a1b5f9fc73129c2f7d0d809bc2c181e4e3c8nat,
    );
    lemma_power_of_197_bits_even(
        0x3540ab9e1135684dd5nat,
        0xa43af98f5af61a1b5f9fc73129c2f7d0d809bc2c181e4e3c8nat,
        0x6a81573c226ad09baanat,
        0x26c8772c27b6db72327d407b1f566d180cc40d9f949e0b159nat,
    );
    lemma_power_of_197_bits_even(
        0x6a81573c226ad09baanat,
        0x26c8772c27b6db72327d407b1f566d180cc40d9f949e0b159nat,
        0xd502ae7844d5a13754nat,
        0x310177b6a26f294875c9dfc0bcc5ea6391e93d1e0a38968f6nat,
    );
    lemma_power_of_197_bits_even(
        0xd502ae7844d5a13754nat,
        0x310177b6a26f294875c9dfc0bcc5ea6391e93d1e0a38968f6nat,
        0x1aa055cf089ab426ea8nat,
        0x11c871a6c2c327667a0540af30fbd018721072214829af4bc3nat,
    );
    lemma_power_of_197_bits_odd(
        0x1aa055cf089ab426ea8nat,
        0x11c871a6c2c327667a0540af30fbd018721072214829af4bc3nat,
        0x3540ab9e1135684dd51nat,
        0x10747550b1eef41d4f781f41ddb8e05ee55e9bfb7b26b0bb53nat,
        0xa4c278ac4325a337ab2fdb5c4862b3bc732ae0993b3a44d90nat,
    );
    lemma_power_of_197_bits_even(
        0x3540ab9e1135684dd51nat,
        0xa4c278ac4325a337ab2fdb5c4862b3bc732ae0993b3a44d90nat,
        0x6a81573c226ad09baa2nat,
        0x7ee8a9378fcecd49f836f34359cd770fbc0aa747788a5c54anat,
    );
    lemma_power_of_197_bits_even(
        0x6a81573c226ad09baa2nat,
        0x7ee8a9378fcecd49f836f34359cd770fbc0aa747788a5c54anat,
        0xd502ae7844d5a137544nat,
        0xbf98719f5595f9e60afa7ea206dfc87eaaa6b8e448a236e3fnat,
    );
    lemma_power_of_197_bits_even(
        0xd502ae7844d5a137544nat,
        0xbf98719f5595f9e60afa7ea206dfc87eaaa6b8e448a236e3fnat,
        0x1aa055cf089ab426ea88nat,
        0x8b68c60adaf85a9a54730094829eead9a6951fcdbf4c6a02fnat,
    );
    lemma_power_of_197_bits_even(
        0x1aa055cf089ab426ea88nat,
        0x8b68c60adaf85a9a54730094829eead9a6951fcdbf4c6a02fnat,
        0x3540ab9e1135684dd510nat,
        0xc173c80415945c276600661da58bb1abad3c6c5b175d5382dnat,
    );
    lemma_power_of_197_bits_odd(
        0x3540ab9e1135684dd510nat,
        0xc173c80415945c276600661da58bb1abad3c6c5b175d5382dnat,
        0x6a81573c226ad09baa21nat,
        0x673ead041a295cb51506ee2f7d28e0269335ec1a05e3fe174nat,
        0x6d5df74bd75f56cceb629381553c5d7b0d0064a897aa061ffnat,
    );
    lemma_power_of_197_bits_even(
        0x6a81573c226ad09baa21nat,
        0x6d5df74bd75f56cceb629381553c5d7b0d0064a897aa061ffnat,
        0xd502ae7844d5a1375442nat,
        0x10f21158935583eabb9d6ab0ee2c1225e45ce3388293467a2fnat,
    );
}

/// The same power with the first 96 bits of the exponent only.
proof fn lemma_power_of_197_bits_first_96()
    ensures
        mod_pow(
            0x6f676ada0afbc1ff333f6acdd93dac9ace0bfd106251bbde9nat,
            0xd502ae7844d5a13754421e67nat,
            0x13f1f3759051c182b92c3ad803bf3cb6b53f7b1c01a44ac369nat,
        ) == 0x1bf943bd3ddaeb7796c1425b64a10f2cfb9b26cf2dc812702nat,
{
    lemma_power_of_197_bits_first_80();
    lemma_power_of_197_bits_even(
        0xd502ae7844d5a1375442nat,
        0x10f21158935583eabb9d6ab0ee2c1225e45ce3388293467a2fnat,
        0x1aa055cf089ab426ea884nat,
        0x48d4dcedd2c5cefd7f8bba524c80457f835cd94e970e57679nat,
    );
    lemma_power_of_197_bits_even(
        0x1aa055cf089ab426ea884nat,
        0x48d4dcedd2c5cefd7f8bba524c80457f835cd94e970e57679nat,
        0x3540ab9e1135684dd5108nat,
        0x10ec865f2b3ce64277cba7c244565f474dc8e8da3139c1cf6bnat,
    );
    lemma_power_of_197_bits_even(
        0x3540ab9e1135684dd5108nat,
        0x10ec865f2b3ce64277cba7c244565f474dc8e8da3139c1cf6bnat,
        0x6a81573c226ad09baa210nat,
        0x71390361872977e6ee07f86e89aa328cb57f36252b1a90968nat,
    );
    lemma_power_of_197_bits_odd(
        0x6a81573c226ad09baa210nat,
        0x71390361872977e6ee07f86e89aa328cb57f36252b1a90968nat,
        0xd502ae7844d5a13754421nat,
        0x2d1e40945ec0f1fd2d70f9e5d54cbd9170adf4cc4342ff7b2nat,
        0xfd58b4fb628c831ea396a6bf906db0b5a6696d32fb4ecdddanat,
    );
    lemma_power_of_197_bits_odd(
        0xd502ae7844d5a13754421nat,
        0xfd58b4fb628c831ea396a6bf906db0b5a6696d32fb4ecdddanat,
        0x1aa055cf089ab426ea8843nat,
        0x1e1ad59b5d01c7a9e564a38c019ff6093b7302f8958baa33dnat,
        0x83cefedcbe2f4b4806acc2fcb8b68a3b35d065f9d03d655cbnat,
    );
    lemma_power_of_197_bits_odd(
        0x1aa055cf089ab426ea8843nat,
        0x83cefedcbe2f4b4806acc2fcb8b68a3b35d065f9d03d655cbnat,
        0x3540ab9e1135684dd51087nat,
        0xea97344fc99eef493d9c77eaf5872fdc628fdbf170738d887nat,
        0x55b14a27c5ed34ef42082145712951262d681be704c721ba2nat,
    );
    lemma_power_of_197_bits_odd(
        0x3540ab9e1135684dd51087nat,
        0x55b14a27c5ed34ef42082145712951262d681be704c721ba2nat,
        0x6a81573c226ad09baa210fnat,
        0x115c5d33119ea916e4a237bb12893f5d70ccd6e25fdb04a3c1nat,
        0x16aca36bd4e087ef263dea2f5da664e2acf8d290d087148b1nat,
    );
    lemma_power_of_197_bits_even(
        0x6a81573c226ad09baa210fnat,
        0x16aca36bd4e087ef263dea2f5da664e2acf8d290d087148b1nat,
        0xd502ae7844d5a13754421enat,
        0x4a4e30bac0948c342c8022e739fa96d424d84c10a444ee6b5nat,
    );
    lemma_power_of_197_bits_even(
        0xd502ae7844d5a13754421enat,
        0x4a4e30bac0948c342c8022e739fa96d424d84c10a444ee6b5nat,
        0x1aa055cf089ab426ea8843cnat,
        0x1220de6b0db7832d56a3a1737504706050ddf123f28ce4b2denat,
    );
    lemma_power_of_197_bits_odd(
        0x1aa055cf089ab426ea8843cnat,
        0x1220de6b0db7832d56a3a1737504706050ddf123f28ce4b2denat,
        0x3540ab9e1135684dd510879nat,
        0x382501cc89facad2b421d11354f3db94e93ef6f2b9e7910c2nat,
        0x7a8680d6b4aa320989bebd773331ba691ed781eed1055e6d9nat,
    );
    lemma_power_of_197_bits_odd(
        0x3540ab9e1135684dd510879nat,
        0x7a8680d6b4aa320989bebd773331ba691ed781eed1055e6d9nat,
        0x6a81573c226ad09baa210f3nat,
        0xedd460ddb9c4d33930afbe7f5540ae20372101cf4a5a4638cnat,
        0xf30ec12d8d3923ba122fd64e201fdd8462d0ec130d73ebff4nat,
    );
    lemma_power_of_197_bits_even(
        0x6a81573c226ad09baa210f3nat,
        0xf30ec12d8d3923ba122fd64e201fdd8462d0ec130d73ebff4nat,
        0xd502ae7844d5a13754421e6nat,
        0x90e95c6fc2e1ad33a3d8dc26a6a5fe6e9cc0d304e48c035f9nat,
    );
    lemma_power_of_197_bits_even(
        0xd502ae7844d5a13754421e6nat,
        0x90e95c6fc2e1ad33a3d8dc26a6a5fe6e9cc0d304e48c035f9nat,
        0x1aa055cf089ab426ea8843ccnat,
        0x8ccfa3b6e8cbbdd50d027d36081ab17e8b661ed8c4133d1b6nat,
    );
    lemma_power_of_197_bits_odd(
        0x1aa055cf089ab426ea8843ccnat,
        0x8ccfa3b6e8cbbdd50d027d36081ab17e8b661ed8c4133d1b6nat,
        0x3540ab9e1135684dd5108799nat,
        0x13e4ca9258e15492e04495b15824ddc42c98d789a49ac51218nat,
        0x827944f7cbbb6adbfbf64dde8394a226d65aadcf1bdf35b93nat,
    );
    lemma_power_of_197_bits_odd(
        0x3540ab9e1135684dd5108799nat,
        0x827944f7cbbb6adbfbf64dde8394a226d65aadcf1bdf35b93nat,
        0x6a81573c226ad09baa210f33nat,
        0x7c82b87bb776422706fcfd5c96595516cef572616969df374nat,
        0xfc30881795ac7cb6ede82302380c283a7d72fc7a32910a82enat,
    );
    lemma_power_of_197_bits_odd(
        0x6a81573c226ad09baa210f33nat,
        0xfc30881795ac7cb6ede82302380c283a7d72fc7a32910a82enat,
        0xd502ae7844d5a13754421e67nat,
        0x767081d3904236dd9a2515d644b03d266b219e5362271d0f4nat,
        0x1bf943bd3ddaeb7796c1425b64a10f2cfb9b26cf2dc812702nat,
    );
}

/// The same power with the first 112 bits of the exponent only.
proof fn lemma_power_of_197_bits_first_112()
    ensures
        mod_pow(
            0x6f676ada0afbc1ff333f6acdd93dac9ace0bfd106251bbde9nat,
            0xd502ae7844d5a13754421e670592nat,
            0x13f1f3759051c182b92c3ad803bf3cb6b53f7b1c01a44ac369nat,
        ) == 0xca9600cf1e84375246daac349a26eee584b6e76264ec0c1fbnat,
{
    lemma_power_of_197_bits_first_96();
    lemma_power_of_197_bits_even(
        0xd502ae7844d5a13754421e67nat,
        0x1bf943bd3ddaeb7796c1425b64a10f2cfb9b26cf2dc812702nat,
        0x1aa055cf089ab426ea8843ccenat,
        0xcf3d596ba009e6d76de2d34cecc43f54d8801d951c07c4dcbnat,
    );
    lemma_power_of_197_bits_even(
        0x1aa055cf089ab426ea8843ccenat,
        0xcf3d596ba009e6d76de2d34cecc43f54d8801d951c07c4dcbnat,
        0x3540ab9e1135684dd5108799cnat,
        0x8a00c41566c3c519ea44f56cfc7079f2702292cda05fdcb8bnat,
    );
    lemma_power_of_197_bits_even(
        0x3540ab9e1135684dd5108799cnat,
        0x8a00c41566c3c519ea44f56cfc7079f2702292cda05fdcb8bnat,
        0x6a81573c226ad09baa210f338nat,
        0x3d77f036171d8587f6063420a51596f21864e65ce22222131nat,
    );
    lemma_power_of_197_bits_even(
        0x6a81573c226ad09baa210f338nat,
        0x3d77f036171d8587f6063420a51596f21864e65ce22222131nat,
        0xd502ae7844d5a13754421e670nat,
        0xa790fbfef51c67cf25d123b90b584a36652eb0794f78271d5nat,
    );
    lemma_power_of_197_bits_even(
        0xd502ae7844d5a13754421e670nat,
        0xa790fbfef51c67cf25d123b90b584a36652eb0794f78271d5nat,
        0x1aa055cf089ab426ea8843cce0nat,
        0x112be539332cf3eb52b239783e58631bc319ab9b6308fb7808nat,
    );
    lemma_power_of_197_bits_odd(
        0x1aa055cf089ab426ea8843cce0nat,
        0x112be539332cf3eb52b239783e58631bc319ab9b6308fb7808nat,
        0x3540ab9e1135684dd5108799c1nat,
        0x35ec015f05a3bfb727dc019ff3e7e695fa42cfc1b0b2501d4nat,
        0x125afc9b722c2ed473d96677756c5a94316aa5691264ee1ccanat,
    );
    lemma_power_of_197_bits_even(
        0x3540ab9e1135684dd5108799c1nat,
        0x125afc9b722c2ed473d96677756c5a94316aa5691264ee1ccanat,
        0x6a81573c226ad09baa210f3382nat,
        0x98b88f45fa273e81c58d6c9d1937ff8c203932647278f283nat,
    );
    lemma_power_of_197_bits_odd(
        0x6a81573c226ad09baa210f3382nat,
        0x98b88f45fa273e81c58d6c9d1937ff8c203932647278f283nat,
        0xd502ae7844d5a13754421e6705nat,
        0xc6fa9181f7a78e48c355a3db7f51f391901b97f1303c3cc11nat,
        0x1263bc3f87fd88e25c1e8dd757e154050c59992f8ec11d85d1nat,
    );
    lemma_power_of_197_bits_odd(
        0xd502ae7844d5a13754421e6705nat,
        0x1263bc3f87fd88e25c1e8dd757e154050c59992f8ec11d85d1nat,
        0x1aa055cf089ab426ea8843cce0bnat,
        0x8be6e651cb4f166833305d3f574486fca0e5928fc6af8592enat,
        0x2e540d0591e6f6152fdfa21522b85298cb2a26b57ab78dbd1nat,
    );
    lemma_power_of_197_bits_even(
        0x1aa055cf089ab426ea8843cce0bnat,
        0x2e540d0591e6f6152fdfa21522b85298cb2a26b57ab78dbd1nat,
        0x3540ab9e1135684dd5108799c16nat,
        0x1176fc03ecd6e71747982efdace2de561d371bdd014cec150fnat,
    );
    lemma_power_of_197_bits_even(
        0x3540ab9e1135684dd5108799c16nat,
        0x1176fc03ecd6e71747982efdace2de561d371bdd014cec150fnat,
        0x6a81573c226ad09baa210f3382cnat,
        0xbe9fa5d48b05e443e4747184fc8b4bb38ef5909783fbeeee2nat,
    );
    lemma_power_of_197_bits_odd(
        0x6a81573c226ad09baa210f3382cnat,
        0xbe9fa5d48b05e443e4747184fc8b4bb38ef5909783fbeeee2nat,
        0xd502ae7844d5a13754421e67059nat,
        0x567b4988c7a4cfd36d7bd24e21b5680dbd53a3e48adeacba1nat,
        0x1053db3276449b047772877a528287b994bc44200b28821feenat,
    );
    lemma_power_of_197_bits_even(
        0xd502ae7844d5a13754421e67059nat,
        0x1053db3276449b047772877a528287b994bc44200b28821feenat,
        0x1aa055cf089ab426ea8843cce0b2nat,
        0xa0ebb360ad26633f1ab343da9bd1482ee1289e0b4a8181057nat,
    );
    lemma_power_of_197_bits_even(
        0x1aa055cf089ab426ea8843cce0b2nat,
        0xa0ebb360ad26633f1ab343da9bd1482ee1289e0b4a8181057nat,
        0x3540ab9e1135684dd5108799c164nat,
        0x12d80e503f9cf72219c48827f08ae6d18c6e7926de64362b5enat,
    );
    lemma_power_of_197_bits_odd(
        0x3540ab9e1135684dd5108799c164nat,
        0x12d80e503f9cf72219c48827f08ae6d18c6e7926de64362b5enat,
        0x6a81573c226ad09baa210f3382c9nat,
        0xce8b64ee683b71a9fa9de9432777b5d8778638039f2205929nat,
        0xeddf3b92d482177241e4cb2ef5044c47a8b8a4e9491c08adenat,
    );
    lemma_power_of_197_bits_even(
        0x6a81573c226ad09baa210f3382c9nat,
        0xeddf3b92d482177241e4cb2ef5044c47a8b8a4e9491c08adenat,
        0xd502ae7844d5a13754421e670592nat,
        0xca9600cf1e84375246daac349a26eee584b6e76264ec0c1fbnat,
    );
}

/// The same power with the first 128 bits of the exponent only.
proof fn lemma_power_of_197_bits_first_128()
    ensures
        mod_pow(
            0x6f676ada0afbc1ff333f6acdd93dac9ace0bfd106251bbde9nat,
            0xd502ae7844d5a13754421e670592bc9dnat,
            0x13f1f3759051c182b92c3ad803bf3cb6b53f7b1c01a44ac369nat,
        ) == 0x8a18ff05ba21aa53354c4419a6e1bf7f2fad2cb417161b71bnat,
{
    lemma_power_of_197_bits_first_112();
    lemma_power_of_197_bits_odd(
        0xd502ae7844d5a13754421e670592nat,
        0xca9600cf1e84375246daac349a26eee584b6e76264ec0c1fbnat,
        0x1aa055cf089ab426ea8843cce0b25nat,
        0xad534dc34ca2e9df044d10fced9d9d102404d2bc2a03f1410nat,
        0xee78e32519b191808d5d5eadf58a0512e1759e4ad2697edc2nat,
    );
    lemma_power_of_197_bits_even(
        0x1aa055cf089ab426ea8843cce0b25nat,
        0xee78e32519b191808d5d5eadf58a0512e1759e4ad2697edc2nat,
        0x3540ab9e1135684dd5108799c164anat,
        0xaef3ad54ee5a81c51b8a194b2dc780375dc538bc46fc8bb3nat,
    );
    lemma_power_of_197_bits_odd(
        0x3540ab9e1135684dd5108799c164anat,
        0xaef3ad54ee5a81c51b8a194b2dc780375dc538bc46fc8bb3nat,
        0x6a81573c226ad09baa210f3382c95nat,
        0xaefa5a86bca31cbb7c07e7d8fcb5ae82666e71f24db9b6ec8nat,
        0x50b1711b9e4e8e880c2d728c3770f0ffaca1c768138ed577fnat,
    );
    lemma_power_of_197_bits_odd(
        0x6a81573c226ad09baa210f3382c95nat,
        0x50b1711b9e4e8e880c2d728c3770f0ffaca1c768138ed577fnat,
        0xd502ae7844d5a13754421e670592bnat,
        0x10d9b7bb7934b2af4df332b27e8e57520fe0db08c79611e523nat,
        0x1dc1c2e77f66d4acd049d40497b42494d2ec8859538e6ae5bnat,
    );
    lemma_power_of_197_bits_odd(
        0xd502ae7844d5a13754421e670592bnat,
        0x1dc1c2e77f66d4acd049d40497b42494d2ec8859538e6ae5bnat,
        0x1aa055cf089ab426ea8843cce0b257nat,
        0x1314375261f7d98f71d270258feed01e69986399ea45f5a31anat,
        0x51993d2fc72dc572ede7f59161260efe0665beaa4802bb03anat,
    );
    lemma_power_of_197_bits_odd(
        0x1aa055cf089ab426ea8843cce0b257nat,
        0x51993d2fc72dc572ede7f59161260efe0665beaa4802bb03anat,
        0x3540ab9e1135684dd5108799c164afnat,
        0xe656c35eee24fe65d09f19902631e48d01390d84bf3a4fbf7nat,
        0xef503b84d8e03b13f981c73ba36e556f015d230426fd0222fnat,
    );
    lemma_power_of_197_bits_even(
        0x3540ab9e1135684dd5108799c164afnat,
        0xef503b84d8e03b13f981c73ba36e556f015d230426fd0222fnat,
        0x6a81573c226ad09baa210f3382c95enat,
        0xa445befdbeab6f7492b69ef7520260e259aa1df49fa69fd18nat,
    );
    lemma_power_of_197_bits_even(
        0x6a81573c226ad09baa210f3382c95enat,
        0xa445befdbeab6f7492b69ef7520260e259aa1df49fa69fd18nat,
        0xd502ae7844d5a13754421e670592bcnat,
        0xd403d7245057224b41a916c9fef4c2479f7361d318c0c520enat,
    );
    lemma_power_of_197_bits_odd(
        0xd502ae7844d5a13754421e670592bcnat,
        0xd403d7245057224b41a916c9fef4c2479f7361d318c0c520enat,
        0x1aa055cf089ab426ea8843cce0b2579nat,
        0x5956fa4871dfc612ad14b4bd1a3aebc01e61b6dad51777367nat,
        0x6d39e5d4d633200ea33fa21bd3be5a587caa8476e63c725c6nat,
    );
    lemma_power_of_197_bits_even(
        0x1aa055cf089ab426ea8843cce0b2579nat,
        0x6d39e5d4d633200ea33fa21bd3be5a587caa8476e63c725c6nat,
        0x3540ab9e1135684dd5108799c164af2nat,
        0x9b2a206290621c884e7f45787e889da2c2a18336efee675banat,
    );
    lemma_power_of_197_bits_even(
        0x3540ab9e1135684dd5108799c164af2nat,
        0x9b2a206290621c884e7f45787e889da2c2a18336efee675banat,
        0x6a81573c226ad09baa210f3382c95e4nat,
        0xfb75027e7ba3344fff7ba1a3995828b6b4fc3f101e5ca21d1nat,
    );
    lemma_power_of_197_bits_odd(
        0x6a81573c226ad09baa210f3382c95e4nat,
        0xfb75027e7ba3344fff7ba1a3995828b6b4fc3f101e5ca21d1nat,
        0xd502ae7844d5a13754421e670592bc9nat,
        0xf792c0a3ad81373d42f4ebba6f3976ad08136b9e59e332c6nat,
        0x442a3726d5b9b80250c21718ddb5d57ef37d2c2dd65f549d1nat,
    );
    lemma_power_of_197_bits_odd(
        0xd502ae7844d5a13754421e670592bc9nat,
        0x442a3726d5b9b80250c21718ddb5d57ef37d2c2dd65f549d1nat,
        0x1aa055cf089ab426ea8843cce0b25793nat,
        0x638cadf328b05750fe5e1fac8cbfdf2b7e731e3f8b86e6bbnat,
        0x82a5fba026d007ae36eb112e937d6ceff4c85eb8acd8f0db7nat,
    );
    lemma_power_of_197_bits_odd(
        0x1aa055cf089ab426ea8843cce0b25793nat,
        0x82a5fba026d007ae36eb112e937d6ceff4c85eb8acd8f0db7nat,
        0x3540ab9e1135684dd5108799c164af27nat,
        0x4a0f6dbea1b24ed73aa4a491901b5d4f8a004cfdb642fa70bnat,
        0xd32729d8a053d7526e5921dd71b213c8c3b23b26f0fbb3924nat,
    );
    lemma_power_of_197_bits_even(
        0x3540ab9e1135684dd5108799c164af27nat,
        0xd32729d8a053d7526e5921dd71b213c8c3b23b26f0fbb3924nat,
        0x6a81573c226ad09baa210f3382c95e4enat,
        0xa98dcdebf835ec1a19ad7b2ebedb838cd5d12f1f428f6f884nat,
    );
    lemma_power_of_197_bits_odd(
        0x6a81573c226ad09baa210f3382c95e4enat,
        0xa98dcdebf835ec1a19ad7b2ebedb838cd5d12f1f428f6f884nat,
        0xd502ae7844d5a13754421e670592bc9dnat,
        0xbf8630004ac9a26b7b4b92259d219f49d973ef50316df1300nat,
        0x8a18ff05ba21aa53354c4419a6e1bf7f2fad2cb417161b71bnat,
    );
}

/// The witness raised to the prime factor is one.
proof fn lemma_power_of_197_bits()
    ensures
        mod_pow(
            0x6f676ada0afbc1ff333f6acdd93dac9ace0bfd106251bbde9nat,
            0x3540ab9e1135684dd5108799c164af2765nat,
            0x13f1f3759051c182b92c3ad803bf3cb6b53f7b1c01a44ac369nat,
        ) == 1nat,
{
    lemma_power_of_197_bits_first_128();
    lemma_power_of_197_bits_odd(
        0xd502ae7844d5a13754421e670592bc9dnat,
        0x8a18ff05ba21aa53354c4419a6e1bf7f2fad2cb417161b71bnat,
        0x1aa055cf089ab426ea8843cce0b25793bnat,
        0xa4eeabed423d1b2470aa1fafdf7b000b5f45ded9a0c5219benat,
        0x13149cd4f46c8a32a31a881510176648bb9d878387fdb0cfecnat,
    );
    lemma_power_of_197_bits_even(
        0x1aa055cf089ab426ea8843cce0b25793bnat,
        0x13149cd4f46c8a32a31a881510176648bb9d878387fdb0cfecnat,
        0x3540ab9e1135684dd5108799c164af276nat,
        0x837c23cf7353035a6fc5168b38c62147a25a0030694331ac3nat,
    );
    lemma_power_of_197_bits_even(
        0x3540ab9e1135684dd5108799c164af276nat,
        0x837c23cf7353035a6fc5168b38c62147a25a0030694331ac3nat,
        0x6a81573c226ad09baa210f3382c95e4ecnat,
        0xe53f25d30e9f7401de86e89ea386c2e08654c1c86d574eaf4nat,
    );
    lemma_power_of_197_bits_odd(
        0x6a81573c226ad09baa210f3382c95e4ecnat,
        0xe53f25d30e9f7401de86e89ea386c2e08654c1c86d574eaf4nat,
        0xd502ae7844d5a13754421e670592bc9d9nat,
        0x74fdabfc9f274095a6537cfa3cb3c078ef8a9128a33f79fe0nat,
        0x679abe801713936bcdebcb4287cdc9008ac41e1e2da0200a0nat,
    );
    lemma_power_of_197_bits_even(
        0xd502ae7844d5a13754421e670592bc9d9nat,
        0x679abe801713936bcdebcb4287cdc9008ac41e1e2da0200a0nat,
        0x1aa055cf089ab426ea8843cce0b25793b2nat,
        0x89db4d6eb6513e013d3e0e0f0c11ac9a78d13d7363507b27bnat,
    );
    lemma_power_of_197_bits_odd(
        0x1aa055cf089ab426ea8843cce0b25793b2nat,
        0x89db4d6eb6513e013d3e0e0f0c11ac9a78d13d7363507b27bnat,
        0x3540ab9e1135684dd5108799c164af2765nat,
        0xb0a50c09725e153ed79ff8a3ddd37ba4566d2640653ba21e4nat,
        1nat,
    );
}

/// A prime of 197 bits, by Pocklington's criterion with a prime factor of 134
/// bits of the number before it.
proof fn lemma_prime_of_197_bits()
    ensures
        is_prime(0x13f1f3759051c182b92c3ad803bf3cb6b53f7b1c01a44ac369nat),
{
    lemma_prime_of_134_bits();
    lemma_power_of_197_bits();
    lemma_pocklington(
        0x13f1f3759051c182b92c3ad803bf3cb6b53f7b1c01a44ac369nat,
        0x3540ab9e1135684dd5108799c164af2765nat,
        0x5fe1b65bc9f38348nat,
        0x6f676ada0afbc1ff333f6acdd93dac9ace0bfd106251bbde9nat,
        (0 - 0x1d6820d4c05c97132f4e1fa8dbd0b488ade0a8aa509aab378int),
        0xa4408c8ec4e12ed02c7918f439a6462f779610953f087b99int,
    );
}

/// One more bit, a zero, at the end of the exponent: the power is squared.
proof fn lemma_power_order_even(e: nat, x: nat, doubled: nat, square: nat)
    requires
        mod_pow(
            0x3ab7401b847c8b450ddf18c4aeb8b393c54019bb9e87042810cfee7bad0de03anat,
            e,
            0xfffffffeffffffffffffffffffffffff7203df6b21c6052b53bbf40939d54123nat,
        ) == x,
        doubled == 2 * e,
        (x * x) % 0xfffffffeffffffffffffffffffffffff7203df6b21c6052b53bbf40939d54123nat == square,
    ensures
        mod_pow(
            0x3ab7401b847c8b450ddf18c4aeb8b393c54019bb9e87042810cfee7bad0de03anat,
            doubled,
            0xfffffffeffffffffffffffffffffffff7203df6b21c6052b53bbf40939d54123nat,
        ) == square,
{
    lemma_mul_mod_value(
        x,
        x,
        0xfffffffeffffffffffffffffffffffff7203df6b21c6052b53bbf40939d54123nat,
        square,
    );
    lemma_mod_pow_even(
        0x3ab7401b847c8b450ddf18c4aeb8b393c54019bb9e87042810cfee7bad0de03anat,
        e,
        0xfffffffeffffffffffffffffffffffff7203df6b21c6052b53bbf40939d54123nat,
        doubled,
    );
}

/// One more bit, a one, at the end of the exponent: the power is squared and
/// multiplied by the base.
proof fn lemma_power_order_odd(e: nat, x: nat, next: nat, square: nat, y: nat)
    requires
        mod_pow(
            0x3ab7401b847c8b450ddf18c4aeb8b393c54019bb9e87042810cfee7bad0de03anat,
            e,
            0xfffffffeffffffffffffffffffffffff7203df6b21c6052b53bbf40939d54123nat,
        ) == x,
        next == 2 * e + 1,
        (x * x) % 0xfffffffeffffffffffffffffffffffff7203df6b21c6052b53bbf40939d54123nat == square,
        (0x3ab7401b847c8b450ddf18c4aeb8b393c54019bb9e87042810cfee7bad0de03anat * square)
            % 0xfffffffeffffffffffffffffffffffff7203df6b21c6052b53bbf40939d54123nat == y,
    ensures
        mod_pow(
            0x3ab7401b847c8b450ddf18c4aeb8b393c54019bb9e87042810cfee7bad0de03anat,
            next,
            0xfffffffeffffffffffffffffffffffff7203df6b21c6052b53bbf40939d54123nat,
        ) == y,
{
    lemma_mul_mod_value(
        x,
        x,
        0xfffffffeffffffffffffffffffffffff7203df6b21c6052b53bbf40939d54123nat,
        square,
    );
    lemma_mul_mod_value(
        0x3ab7401b847c8b450ddf18c4aeb8b393c54019bb9e87042810cfee7bad0de03anat,
        square,
        0xfffffffeffffffffffffffffffffffff7203df6b21c6052b53bbf40939d54123nat,
        y,
    );
    lemma_mod_pow_odd(
        0x3ab7401b847c8b450ddf18c4aeb8b393c54019bb9e87042810cfee7bad0de03anat,
        e,
        0xfffffffeffffffffffffffffffffffff7203df6b21c6052b53bbf40939d54123nat,
        next,
    );
}

/// The same power with the first 16 bits of the exponent only.
proof fn lemma_power_order_first_16()
    ensures
        mod_pow(
            0x3ab7401b847c8b450ddf18c4aeb8b393c54019bb9e87042810cfee7bad0de03anat,
            0x9f8fnat,
            0xfffffffeffffffffffffffffffffffff7203df6b21c6052b53bbf40939d54123nat,
        ) == 0xd6379e1838f6a9820b4c398894afd82549ce573645ac03ebbe342606f199bb3anat,
{
    lemma_mod_pow_zero(
        0x3ab7401b847c8b450ddf18c4aeb8b393c54019bb9e87042810cfee7bad0de03anat,
        0xfffffffeffffffffffffffffffffffff7203df6b21c6052b53bbf40939d54123nat,
    );
    lemma_power_order_odd(
        0nat,
        1nat,
        1nat,
        1nat,
        0x3ab7401b847c8b450ddf18c4aeb8b393c54019bb9e87042810cfee7bad0de03anat,
    );
    lemma_power_order_even(
        1nat,
        0x3ab7401b847c8b450ddf18c4aeb8b393c54019bb9e87042810cfee7bad0de03anat,
        2nat,
        0xcd06ea0582c43c6c9b9c965507656525cd5963cb91a81d0f229382d6614c3fcbnat,
    );
    lemma_power_order_even(
        2nat,
        0xcd06ea0582c43c6c9b9c965507656525cd5963cb91a81d0f229382d6614c3fcbnat,
        4nat,
        0xb5ed3849eea356ce9b72dc9e742b5e63fd9fb3043001e8c618d55a09c209e53nat,
    );
    lemma_power_order_odd(
        4nat,
        0xb5ed3849eea356ce9b72dc9e742b5e63fd9fb3043001e8c618d55a09c209e53nat,
        9nat,
        0x1c177c9d324a2e348f3d9b5c66802e2fbab14be9029105a2f29a7f2d7eda8b65nat,
        0x42604ecdb452384a08a9b4b5274e9222102440dff9550ba7b799f0b11a2dfb06nat,
    );
    lemma_power_order_odd(
        9nat,
        0x42604ecdb452384a08a9b4b5274e9222102440dff9550ba7b799f0b11a2dfb06nat,
        19nat,
        0x8811275593095a5b8d900ec20388acdcea4a092f345d6bccd846aba71fd51768nat,
        0x18b52c7b1bd4c3dc1c2a3fe97da44b7a08ae30fc484e36644538322282208c32nat,
    );
    lemma_power_order_odd(
        19nat,
        0x18b52c7b1bd4c3dc1c2a3fe97da44b7a08ae30fc484e36644538322282208c32nat,
        39nat,
        0xd540b9008cdf22950924063d4e41f8519a6a3394eb6bbf3a2950d0254f82c574nat,
        0xde08ce38c28e5928f3af854bf184556117fda73bc3c519ab6661fb31bbafbbc0nat,
    );
    lemma_power_order_odd(
        39nat,
        0xde08ce38c28e5928f3af854bf184556117fda73bc3c519ab6661fb31bbafbbc0nat,
        79nat,
        0xf57beff361e9c1f869cd942f32a9108709d77d1e626337b7cf6746d764f75b1nat,
        0xc90c03ff8d0af292f99e2484c34c73e6a57426c7955bbfa057d29d3d7e7762ccnat,
    );
    lemma_power_order_odd(
        79nat,
        0xc90c03ff8d0af292f99e2484c34c73e6a57426c7955bbfa057d29d3d7e7762ccnat,
        159nat,
        0x17e80ee5fee7d9c993d4a4f6a78f688f04cac34b2c398b5f0dc0196d05b7c638nat,
        0x340f6b1b758b13e68a2e6b6396a58b5676feb1545574377081eab554ddf4d63bnat,
    );
    lemma_power_order_odd(
        159nat,
        0x340f6b1b758b13e68a2e6b6396a58b5676feb1545574377081eab554ddf4d63bnat,
        319nat,
        0x15706b249270209735782db70698a6e8fe977189116c099bb45bccd4f48aa5bfnat,
        0x6ed1e097e0b099a33bf675dbaa528c268543a95cfcbb76c6ee4dbeccec5a563enat,
    );
    lemma_power_order_even(
        319nat,
        0x6ed1e097e0b099a33bf675dbaa528c268543a95cfcbb76c6ee4dbeccec5a563enat,
        638nat,
        0x401fc62b980e1726b145f6eb27e7b3e8c525d58bace8b5144fd1f88fcbce2df0nat,
    );
    lemma_power_order_even(
        638nat,
        0x401fc62b980e1726b145f6eb27e7b3e8c525d58bace8b5144fd1f88fcbce2df0nat,
        0x4fcnat,
        0x7d51e8790c5838a65e726444489c8252786d8b72d8fc429912b51603a3eb6anat,
    );
    lemma_power_order_even(
        0x4fcnat,
        0x7d51e8790c5838a65e726444489c8252786d8b72d8fc429912b51603a3eb6anat,
        0x9f8nat,
        0xee30e8f45415c184a13de78cebf48267334587a69f32f81b633b2fc801f85a33nat,
    );
    lemma_power_order_odd(
        0x9f8nat,
        0xee30e8f45415c184a13de78cebf48267334587a69f32f81b633b2fc801f85a33nat,
        0x13f1nat,
        0xc4c966a3a6ac24056ad9233381c6c71471aa883919707e0a60ea0b45c2929e80nat,
        0xb2b8645d3b6e0b68c3296f9efdbb8a48c4d1cf201d75b35f48995e7fd7cebfbfnat,
    );
    lemma_power_order_odd(
        0x13f1nat,
        0xb2b8645d3b6e0b68c3296f9efdbb8a48c4d1cf201d75b35f48995e7fd7cebfbfnat,
        0x27e3nat,
        0x515de490a5e37fffe81e4b921c3ddc8bc16498eebd953a0b383508955e7a269dnat,
        0xbf08a9bdf5d9164bae5f3faeca2c950fb9066dd89eec9f6916a35279b395de8enat,
    );
    lemma_power_order_odd(
        0x27e3nat,
        0xbf08a9bdf5d9164bae5f3faeca2c950fb9066dd89eec9f6916a35279b395de8enat,
        0x4fc7nat,
        0xc21e3c18287e0cdfeb6a4e0c7b51ba5749504434dc073b9e2757899ff279d075nat,
        0xac2e1e393d4a4cec3e976e89df2514659d4f7d557cc9b6c1f264cbee463681d7nat,
    );
    lemma_power_order_odd(
        0x4fc7nat,
        0xac2e1e393d4a4cec3e976e89df2514659d4f7d557cc9b6c1f264cbee463681d7nat,
        0x9f8fnat,
        0x2ba77d4f6ec4a33c9d620b06de8d64f9d5659248979d712593a1790d9ff10669nat,
        0xd6379e1838f6a9820b4c398894afd82549ce573645ac03ebbe342606f199bb3anat,
    );
}

/// The same power with the first 32 bits of the exponent only.
proof fn lemma_power_order_first_32()
    ensures
        mod_pow(
            0x3ab7401b847c8b450ddf18c4aeb8b393c54019bb9e87042810cfee7bad0de03anat,
            0x9f8f9bacnat,
            0xfffffffeffffffffffffffffffffffff7203df6b21c6052b53bbf40939d54123nat,
        ) == 0x116215976480f4c9a11b4c35f9bdfbf0cefe53bbef0b92813772f2ca58826a80nat,
{
    lemma_power_order_first_16();
    lemma_power_order_odd(
        0x9f8fnat,
        0xd6379e1838f6a9820b4c398894afd82549ce573645ac03ebbe342606f199bb3anat,
        0x13f1fnat,
        0xe3d461aa6743edb1ca93ac286fa967b40a6a46e08b1fdcdd72d96251493ddbc0nat,
        0xbe64c78d7221074656e4a116c98697eb6c43c23f6a888f6c9ff99d13543e91dnat,
    );
    lemma_power_order_even(
        0x13f1fnat,
        0xbe64c78d7221074656e4a116c98697eb6c43c23f6a888f6c9ff99d13543e91dnat,
        0x27e3enat,
        0xae9b8ab8adb4470b767b12f9062e52a149820b57a7df248669f95f974718dccbnat,
    );
    lemma_power_order_even(
        0x27e3enat,
        0xae9b8ab8adb4470b767b12f9062e52a149820b57a7df248669f95f974718dccbnat,
        0x4fc7cnat,
        0xf262e7ff423a01cdab8ea830d2f4e004378ca24306034bf1b4a4cf14ab4ac165nat,
    );
    lemma_power_order_odd(
        0x4fc7cnat,
        0xf262e7ff423a01cdab8ea830d2f4e004378ca24306034bf1b4a4cf14ab4ac165nat,
        0x9f8f9nat,
        0x55c943bc67656fc9035da5655820f05b310da26c3485ea588846e40d76cf5154nat,
        0x322adde8d93934dc2d1bab800adf5e54afcf7f099a564ba3f1894ebbff0ed17enat,
    );
    lemma_power_order_odd(
        0x9f8f9nat,
        0x322adde8d93934dc2d1bab800adf5e54afcf7f099a564ba3f1894ebbff0ed17enat,
        0x13f1f3nat,
        0x2706ea111f89af944e1209cf02f7130e2dbe6cb9ad57297a8c5625bdf713e2e7nat,
        0x343c8da3f1e3ccfe8633282c945d0f0d4718240e161f39bb7a1d7a48ad9bbe40nat,
    );
    lemma_power_order_even(
        0x13f1f3nat,
        0x343c8da3f1e3ccfe8633282c945d0f0d4718240e161f39bb7a1d7a48ad9bbe40nat,
        0x27e3e6nat,
        0x2ea5be793de2d4d98b244ad266b37eef54f0e4477bbaff55104396afa89b3b8cnat,
    );
    lemma_power_order_odd(
        0x27e3e6nat,
        0x2ea5be793de2d4d98b244ad266b37eef54f0e4477bbaff55104396afa89b3b8cnat,
        0x4fc7cdnat,
        0xc38df6a3368e34e5b6c55c95f3c7eeb8a8114446e7e00884979550947d2a0650nat,
        0x19bfc79534c9e2a785fa1c55c22b801bac83aac5d15cd2fba1ef58c6b3426ee3nat,
    );
    lemma_power_order_odd(
        0x4fc7cdnat,
        0x19bfc79534c9e2a785fa1c55c22b801bac83aac5d15cd2fba1ef58c6b3426ee3nat,
        0x9f8f9bnat,
        0x8a97e504d84a4420458aa59cbfc4e5e8014c481a95149c56e06a5abd4c497cb9nat,
        0x2fc872f6c5d9430c16ffb4d9b424af09cc5374865728c4fa09c5cfa8e081b5cnat,
    );
    lemma_power_order_odd(
        0x9f8f9bnat,
        0x2fc872f6c5d9430c16ffb4d9b424af09cc5374865728c4fa09c5cfa8e081b5cnat,
        0x13f1f37nat,
        0xe705fd0fc722076936463f234172ea8c3387ce14c346dbf931f5a3f62597c5dfnat,
        0x856ca08642b015e70601f9582594b4349ab6bba5b77761f31cce020a29fba939nat,
    );
    lemma_power_order_even(
        0x13f1f37nat,
        0x856ca08642b015e70601f9582594b4349ab6bba5b77761f31cce020a29fba939nat,
        0x27e3e6enat,
        0x843d5dfbf51a32f44ceece0ea492fa3f1ca12722e5a09b8d3cbcbc0a11ffcd88nat,
    );
    lemma_power_order_odd(
        0x27e3e6enat,
        0x843d5dfbf51a32f44ceece0ea492fa3f1ca12722e5a09b8d3cbcbc0a11ffcd88nat,
        0x4fc7cddnat,
        0x47afb76d4e85a43803cf834cf35ef630d868c233f55722e88978f67ef0d43abcnat,
        0x3fe1fe9537dc85feaacabed0f906d071e716f67920b9408e9d4c73ffde2cf7bcnat,
    );
    lemma_power_order_even(
        0x4fc7cddnat,
        0x3fe1fe9537dc85feaacabed0f906d071e716f67920b9408e9d4c73ffde2cf7bcnat,
        0x9f8f9banat,
        0x1faf42283ec76a8222a8d11431a434a2c9ab1ba0db5973b83e9af070a9e0348cnat,
    );
    lemma_power_order_odd(
        0x9f8f9banat,
        0x1faf42283ec76a8222a8d11431a434a2c9ab1ba0db5973b83e9af070a9e0348cnat,
        0x13f1f375nat,
        0xf70e53e76d296be9dc34dd22dd88239b219efb75e6075abb18dbc141339a67e3nat,
        0xc584f505c74da0a96fda5eca7443d43944471ae7384dd56d609c5287959cfcf8nat,
    );
    lemma_power_order_odd(
        0x13f1f375nat,
        0xc584f505c74da0a96fda5eca7443d43944471ae7384dd56d609c5287959cfcf8nat,
        0x27e3e6ebnat,
        0x1fa35a939eaa80dae567818bdf3da388e7ca67937da75e1c3940bad0d70462e7nat,
        0xbfb86e0edf5e3987d4c9fc0d5ffa30a57ce3313c2ce5663d743f0ac8e2890a64nat,
    );
    lemma_power_order_even(
        0x27e3e6ebnat,
        0xbfb86e0edf5e3987d4c9fc0d5ffa30a57ce3313c2ce5663d743f0ac8e2890a64nat,
        0x4fc7cdd6nat,
        0x7250d0f40f4734a477c067ddf9419f68dd8a74a64b80e92f091e1595248a9d1fnat,
    );
    lemma_power_order_even(
        0x4fc7cdd6nat,
        0x7250d0f40f4734a477c067ddf9419f68dd8a74a64b80e92f091e1595248a9d1fnat,
        0x9f8f9bacnat,
        0x116215976480f4c9a11b4c35f9bdfbf0cefe53bbef0b92813772f2ca58826a80nat,
    );
}

/// The same power with the first 48 bits of the exponent only.
proof fn lemma_power_order_first_48()
    ensures
        mod_pow(
            0x3ab7401b847c8b450ddf18c4aeb8b393c54019bb9e87042810cfee7bad0de03anat,
            0x9f8f9bac828enat,
            0xfffffffeffffffffffffffffffffffff7203df6b21c6052b53bbf40939d54123nat,
        ) == 0x85fc2a119b5f7dbfa97952a5fd6f5b14514a5777944b4c7ad3a665c44e13d67fnat,
{
    lemma_power_order_first_32();
    lemma_power_order_odd(
        0x9f8f9bacnat,
        0x116215976480f4c9a11b4c35f9bdfbf0cefe53bbef0b92813772f2ca58826a80nat,
        0x13f1f3759nat,
        0x74b961e21cbc460b81da4658c792d53a2c401eee06cc826502bdb35de33047f4nat,
        0x7410da2e0c0f2e87fcbe2052b568518ef57ea7dcd62c098908362c0db6f1f223nat,
    );
    lemma_power_order_even(
        0x13f1f3759nat,
        0x7410da2e0c0f2e87fcbe2052b568518ef57ea7dcd62c098908362c0db6f1f223nat,
        0x27e3e6eb2nat,
        0x5e01e85f339009ae71522f551d9a01ca3c00f3ec61458964817ae2733ea03beenat,
    );
    lemma_power_order_even(
        0x27e3e6eb2nat,
        0x5e01e85f339009ae71522f551d9a01ca3c00f3ec61458964817ae2733ea03beenat,
        0x4fc7cdd64nat,
        0xb97c0a953dfd4a7ec1259e56d291d4a75291a96ab57862f862264a6657e6a232nat,
    );
    lemma_power_order_even(
        0x4fc7cdd64nat,
        0xb97c0a953dfd4a7ec1259e56d291d4a75291a96ab57862f862264a6657e6a232nat,
        0x9f8f9bac8nat,
        0xf4cd5ba9b57edf8ead66ba5e3c8e9e2d11ee5b91d46709112b6f9607307112f4nat,
    );
    lemma_power_order_even(
        0x9f8f9bac8nat,
        0xf4cd5ba9b57edf8ead66ba5e3c8e9e2d11ee5b91d46709112b6f9607307112f4nat,
        0x13f1f37590nat,
        0xad47fa9e0d833486c0b8dc6b6ba3cc8df16433bc758d78233e2b336f13aaa828nat,
    );
    lemma_power_order_even(
        0x13f1f37590nat,
        0xad47fa9e0d833486c0b8dc6b6ba3cc8df16433bc758d78233e2b336f13aaa828nat,
        0x27e3e6eb20nat,
        0x4efb2e97c5b446eeef03c526b7abff3748ef681ca9d77674cf31932c090b6fbfnat,
    );
    lemma_power_order_odd(
        0x27e3e6eb20nat,
        0x4efb2e97c5b446eeef03c526b7abff3748ef681ca9d77674cf31932c090b6fbfnat,
        0x4fc7cdd641nat,
        0xef5cff6496ed30da13faa5d472f26eeb4874b04fe977206e98faafffc9dd159cnat,
        0xacfc258caf70bd702b9a2715d640341dd58ffcceafacc2293819eb2695a8e2dbnat,
    );
    lemma_power_order_even(
        0x4fc7cdd641nat,
        0xacfc258caf70bd702b9a2715d640341dd58ffcceafacc2293819eb2695a8e2dbnat,
        0x9f8f9bac82nat,
        0xa1591cf01cf7c7afc0f29ceaa39ca6362fdb1da79e6d57da24542d9ce6b908anat,
    );
    lemma_power_order_odd(
        0x9f8f9bac82nat,
        0xa1591cf01cf7c7afc0f29ceaa39ca6362fdb1da79e6d57da24542d9ce6b908anat,
        0x13f1f375905nat,
        0x369ba46d1b5f0fc71c5ff743c9c6674a4d84f2d09f0a6dc7d3b559af3a80ad32nat,
        0x328ee37b7916940e6a65b1146e165e6e191093b908efa4da94f5d81a0fc2ed95nat,
    );
    lemma_power_order_even(
        0x13f1f375905nat,
        0x328ee37b7916940e6a65b1146e165e6e191093b908efa4da94f5d81a0fc2ed95nat,
        0x27e3e6eb20anat,
        0x7b56a2e835cb727ed3925d02eb5aabb9623005a543264deca86fb2e295a7da9cnat,
    );
    lemma_power_order_even(
        0x27e3e6eb20anat,
        0x7b56a2e835cb727ed3925d02eb5aabb9623005a543264deca86fb2e295a7da9cnat,
        0x4fc7cdd6414nat,
        0x5f193341c7e31e5b9ad6a17078dea814c11409e6f5760efdb90a992017874463nat,
    );
    lemma_power_order_even(
        0x4fc7cdd6414nat,
        0x5f193341c7e31e5b9ad6a17078dea814c11409e6f5760efdb90a992017874463nat,
        0x9f8f9bac828nat,
        0x8957ddc50e8fd5f04902cb8e6099de75e86d73f0b9ddc7d7b2c53e1602a84b72nat,
    );
    lemma_power_order_odd(
        0x9f8f9bac828nat,
        0x8957ddc50e8fd5f04902cb8e6099de75e86d73f0b9ddc7d7b2c53e1602a84b72nat,
        0x13f1f3759051nat,
        0xb39cc345e219bc5406385ecf9669300f55c58fc9c1a3c82e16d57b8a5cb30f0cnat,
        0x5bc43d3cd93db0ae4d796a8fda96b1dd1673ca19d39e8b1b97283b63066a1722nat,
    );
    lemma_power_order_odd(
        0x13f1f3759051nat,
        0x5bc43d3cd93db0ae4d796a8fda96b1dd1673ca19d39e8b1b97283b63066a1722nat,
        0x27e3e6eb20a3nat,
        0x590cb861e775f21ccf13d96e4005355e0bf342b7fbea8f4718503cfb033c12d4nat,
        0xabfbe89dcc4f2bb6ad5d970bab7472f3dd89be3a657fba97043566d7e6605eaenat,
    );
    lemma_power_order_odd(
        0x27e3e6eb20a3nat,
        0xabfbe89dcc4f2bb6ad5d970bab7472f3dd89be3a657fba97043566d7e6605eaenat,
        0x4fc7cdd64147nat,
        0x22a56e9fa599aaf1a662d64811e657d68baeb59480aa9d0cc5eb7156523bea8enat,
        0x1961f60e078893feb3e3e8d7eb7fe86c8659406a9d4cb18249a4f1ab7d8243ddnat,
    );
    lemma_power_order_even(
        0x4fc7cdd64147nat,
        0x1961f60e078893feb3e3e8d7eb7fe86c8659406a9d4cb18249a4f1ab7d8243ddnat,
        0x9f8f9bac828enat,
        0x85fc2a119b5f7dbfa97952a5fd6f5b14514a5777944b4c7ad3a665c44e13d67fnat,
    );
}

/// The same power with the first 64 bits of the exponent only.
proof fn lemma_power_order_first_64()
    ensures
        mod_pow(
            0x3ab7401b847c8b450ddf18c4aeb8b393c54019bb9e87042810cfee7bad0de03anat,
            0x9f8f9bac828e0c15nat,
            0xfffffffeffffffffffffffffffffffff7203df6b21c6052b53bbf40939d54123nat,
        ) == 0x2e6f1548fb400445f6edd7b07181b280c5d7c38c1d7e01632d3d31dc1e30c968nat,
{
    lemma_power_order_first_48();
    lemma_power_order_even(
        0x9f8f9bac828enat,
        0x85fc2a119b5f7dbfa97952a5fd6f5b14514a5777944b4c7ad3a665c44e13d67fnat,
        0x13f1f3759051cnat,
        0x7271ff194e7b6aaed8c438bde5434d8eb11eeecca49c130f34b0e76e2fa8e538nat,
    );
    lemma_power_order_even(
        0x13f1f3759051cnat,
        0x7271ff194e7b6aaed8c438bde5434d8eb11eeecca49c130f34b0e76e2fa8e538nat,
        0x27e3e6eb20a38nat,
        0xdb869221a911d4eba1f4d39f63ac646e867c43cf5abc37d7928b8d59fa4f94e8nat,
    );
    lemma_power_order_even(
        0x27e3e6eb20a38nat,
        0xdb869221a911d4eba1f4d39f63ac646e867c43cf5abc37d7928b8d59fa4f94e8nat,
        0x4fc7cdd641470nat,
        0x9518abb0463c1974a3bd2ce4fccc39a9afa280f556a433f83b6c31a8a91d2ecnat,
    );
    lemma_power_order_even(
        0x4fc7cdd641470nat,
        0x9518abb0463c1974a3bd2ce4fccc39a9afa280f556a433f83b6c31a8a91d2ecnat,
        0x9f8f9bac828e0nat,
        0xc3289d5ece14f62025524588989a95fdfb201fba90091b455119a3a132339d34nat,
    );
    lemma_power_order_odd(
        0x9f8f9bac828e0nat,
        0xc3289d5ece14f62025524588989a95fdfb201fba90091b455119a3a132339d34nat,
        0x13f1f3759051c1nat,
        0x949887a7a73f62a48d83b61eccd12a6b63aa41202644a334e683d7da3a231972nat,
        0xe24933511fb60d54a9a5dea591bbfdf67ccc75f34f0fdb883bc81a3167573facnat,
    );
    lemma_power_order_odd(
        0x13f1f3759051c1nat,
        0xe24933511fb60d54a9a5dea591bbfdf67ccc75f34f0fdb883bc81a3167573facnat,
        0x27e3e6eb20a383nat,
        0x9396f8278b89f8178ad7a8d79700fe0daf9cd3ad21fd818f4aae4154c2d03fffnat,
        0x4872627dfb3039d44aa08feedc84c8d1f27b06bc347652337eb63b9cb578736dnat,
    );
    lemma_power_order_even(
        0x27e3e6eb20a383nat,
        0x4872627dfb3039d44aa08feedc84c8d1f27b06bc347652337eb63b9cb578736dnat,
        0x4fc7cdd6414706nat,
        0x862062a75824c248a107e1bbd10853a1a99f95b4f1633997a4bb524fc1ac42ccnat,
    );
    lemma_power_order_even(
        0x4fc7cdd6414706nat,
        0x862062a75824c248a107e1bbd10853a1a99f95b4f1633997a4bb524fc1ac42ccnat,
        0x9f8f9bac828e0cnat,
        0x7001fd1f98f315f1a71d9de14f85b50d0d1f3322f5b40b1f2da6f94b6ef68fccnat,
    );
    lemma_power_order_even(
        0x9f8f9bac828e0cnat,
        0x7001fd1f98f315f1a71d9de14f85b50d0d1f3322f5b40b1f2da6f94b6ef68fccnat,
        0x13f1f3759051c18nat,
        0xc1429eeb01efe0e974867a99db44c64f8d6033d76d786e6f7b2d16d7601c14f6nat,
    );
    lemma_power_order_even(
        0x13f1f3759051c18nat,
        0xc1429eeb01efe0e974867a99db44c64f8d6033d76d786e6f7b2d16d7601c14f6nat,
        0x27e3e6eb20a3830nat,
        0x1ccb04954c46c35acbf7d69b91ec1942cded0abbf755f6d986406093c37beda1nat,
    );
    lemma_power_order_even(
        0x27e3e6eb20a3830nat,
        0x1ccb04954c46c35acbf7d69b91ec1942cded0abbf755f6d986406093c37beda1nat,
        0x4fc7cdd64147060nat,
        0x28296980033573bab5d57812a370dc36ff15a31dddcad68c88f388a8a04c25b3nat,
    );
    lemma_power_order_odd(
        0x4fc7cdd64147060nat,
        0x28296980033573bab5d57812a370dc36ff15a31dddcad68c88f388a8a04c25b3nat,
        0x9f8f9bac828e0c1nat,
        0x42f238ac3fae311ef017d5250af8b0ad6d2dfaf10711f4e6ced590100a14a6adnat,
        0x6ce01ab6358506208aef3485080ced997a9d66bfa52eb65e5caf9e647fceac1dnat,
    );
    lemma_power_order_even(
        0x9f8f9bac828e0c1nat,
        0x6ce01ab6358506208aef3485080ced997a9d66bfa52eb65e5caf9e647fceac1dnat,
        0x13f1f3759051c182nat,
        0x305ec5c624c7869442eabc0df50505b0d1375f692b5d2eb74194760acc1e1304nat,
    );
    lemma_power_order_odd(
        0x13f1f3759051c182nat,
        0x305ec5c624c7869442eabc0df50505b0d1375f692b5d2eb74194760acc1e1304nat,
        0x27e3e6eb20a38305nat,
        0x392c78fea4ad3f47a99af87db24cd7e352a97d10dbc8f9ac7962aa9d8b14b60anat,
        0x91526cf414999ea15fd1365fa321f395452965b0bad087d4088c8a625b74d7f8nat,
    );
    lemma_power_order_even(
        0x27e3e6eb20a38305nat,
        0x91526cf414999ea15fd1365fa321f395452965b0bad087d4088c8a625b74d7f8nat,
        0x4fc7cdd64147060anat,
        0x2d81233aa601684a65ea45fdb67b2b042cb44458a4aed93f75104644241bb41fnat,
    );
    lemma_power_order_odd(
        0x4fc7cdd64147060anat,
        0x2d81233aa601684a65ea45fdb67b2b042cb44458a4aed93f75104644241bb41fnat,
        0x9f8f9bac828e0c15nat,
        0x739cc29983d176df5c971fc8617904f4abcc84506bf4409ad02f5fe96ec33b2dnat,
        0x2e6f1548fb400445f6edd7b07181b280c5d7c38c1d7e01632d3d31dc1e30c968nat,
    );
}

/// The same power with the first 80 bits of the exponent only.
proof fn lemma_power_order_first_80()
    ensures
        mod_pow(
            0x3ab7401b847c8b450ddf18c4aeb8b393c54019bb9e87042810cfee7bad0de03anat,
            0x9f8f9bac828e0c15c961nat,
            0xfffffffeffffffffffffffffffffffff7203df6b21c6052b53bbf40939d54123nat,
        ) == 0x1ba3e3e64f2e71eac0a3185b739ee94670dc0f4032c03a598dfc149698d779dbnat,
{
    lemma_power_order_first_64();
    lemma_power_order_odd(
        0x9f8f9bac828e0c15nat,
        0x2e6f1548fb400445f6edd7b07181b280c5d7c38c1d7e01632d3d31dc1e30c968nat,
        0x13f1f3759051c182bnat,
        0xba203a3a768b44f3f02519c4541a29ee9fb94eb0e7ff8ac04275fc256679e001nat,
        0x642536e2ca9a43aafb6a81c98691ea5d20befbcbda2f516c99720fb6347b26denat,
    );
    lemma_power_order_odd(
        0x13f1f3759051c182bnat,
        0x642536e2ca9a43aafb6a81c98691ea5d20befbcbda2f516c99720fb6347b26denat,
        0x27e3e6eb20a383057nat,
        0x82926e119fa84555ceb44912bc4ef5c40b0290949ae1597536d0375b0fbc3e72nat,
        0x635fb9ee5c3a6db8fa143f6a2ecf6c746ccb1d01b8fc8a651e1fb55b0d987784nat,
    );
    lemma_power_order_even(
        0x27e3e6eb20a383057nat,
        0x635fb9ee5c3a6db8fa143f6a2ecf6c746ccb1d01b8fc8a651e1fb55b0d987784nat,
        0x4fc7cdd64147060aenat,
        0xe9af4da8f069bc320184e00809ac1319fe52ed37cdf8bc4874e992382f0ee13enat,
    );
    lemma_power_order_even(
        0x4fc7cdd64147060aenat,
        0xe9af4da8f069bc320184e00809ac1319fe52ed37cdf8bc4874e992382f0ee13enat,
        0x9f8f9bac828e0c15cnat,
        0xb89ff0a190666440de0d20e1f8ececfc5b0592adc2ee29ba9538598a4495a408nat,
    );
    lemma_power_order_odd(
        0x9f8f9bac828e0c15cnat,
        0xb89ff0a190666440de0d20e1f8ececfc5b0592adc2ee29ba9538598a4495a408nat,
        0x13f1f3759051c182b9nat,
        0x1e74e0fedefb1b3229ee31e39e3dc73ec1e2764581368c12cbde26c6e85d720anat,
        0x37c1449e43362671a375152a7006f00b8bcbacd14e1ac1095b260076f3822dbfnat,
    );
    lemma_power_order_even(
        0x13f1f3759051c182b9nat,
        0x37c1449e43362671a375152a7006f00b8bcbacd14e1ac1095b260076f3822dbfnat,
        0x27e3e6eb20a3830572nat,
        0x5df59b1a63276c406ad34eb5a1a5522c193498fbc2ded5cd3d8fba17ba4ef404nat,
    );
    lemma_power_order_even(
        0x27e3e6eb20a3830572nat,
        0x5df59b1a63276c406ad34eb5a1a5522c193498fbc2ded5cd3d8fba17ba4ef404nat,
        0x4fc7cdd64147060ae4nat,
        0x3ffd7bb24a0568b0ebdf88392eb119f72dcc00ba941a1cec42644e9af3d5644anat,
    );
    lemma_power_order_odd(
        0x4fc7cdd64147060ae4nat,
        0x3ffd7bb24a0568b0ebdf88392eb119f72dcc00ba941a1cec42644e9af3d5644anat,
        0x9f8f9bac828e0c15c9nat,
        0x2376ccd842341b500fc53399b9ae051e47ebbc0764185a972ec61aa72220d3cnat,
        0xe2b4ea5c3a8e9825987abd32f160afb77479bf8efacae021f9c017c3c4fee6banat,
    );
    lemma_power_order_even(
        0x9f8f9bac828e0c15c9nat,
        0xe2b4ea5c3a8e9825987abd32f160afb77479bf8efacae021f9c017c3c4fee6banat,
        0x13f1f3759051c182b92nat,
        0x4e59455f7aa603036b05e422f54d4f4d39ae2c82f5a218448408840a93e9e018nat,
    );
    lemma_power_order_odd(
        0x13f1f3759051c182b92nat,
        0x4e59455f7aa603036b05e422f54d4f4d39ae2c82f5a218448408840a93e9e018nat,
        0x27e3e6eb20a38305725nat,
        0x8f35f9ee60d0783539ddbba0ca05af742372d8f4885d66e6ac6d5aa9d980d5b3nat,
        0x14b57a1f1269882aeb9b01511d08b2941e0a17af1a09ace526f7e4a47ba5f04enat,
    );
    lemma_power_order_odd(
        0x27e3e6eb20a38305725nat,
        0x14b57a1f1269882aeb9b01511d08b2941e0a17af1a09ace526f7e4a47ba5f04enat,
        0x4fc7cdd64147060ae4bnat,
        0x93ec5a54aa5b8a95ae0f8f30f2e597d4b2302d1f93b2708d610b550be89fb093nat,
        0x8936c4c599ade57940d2457b07f014b3eb89166955005065886eb7d24a779ce6nat,
    );
    lemma_power_order_even(
        0x4fc7cdd64147060ae4bnat,
        0x8936c4c599ade57940d2457b07f014b3eb89166955005065886eb7d24a779ce6nat,
        0x9f8f9bac828e0c15c96nat,
        0xf67a18b8bcfea78f8ad672c2cc1be7178e793d0392a6461b6e012ee5977f9c5anat,
    );
    lemma_power_order_even(
        0x9f8f9bac828e0c15c96nat,
        0xf67a18b8bcfea78f8ad672c2cc1be7178e793d0392a6461b6e012ee5977f9c5anat,
        0x13f1f3759051c182b92cnat,
        0xab3b4735211021c07eb67989b078b862e0e54eaf3fccf9e9d468806cfba4d6f8nat,
    );
    lemma_power_order_even(
        0x13f1f3759051c182b92cnat,
        0xab3b4735211021c07eb67989b078b862e0e54eaf3fccf9e9d468806cfba4d6f8nat,
        0x27e3e6eb20a383057258nat,
        0xc6875cac5ae700a3b81968f54325b9377cc99b67c8bd6c2e97c1065fefa9d390nat,
    );
    lemma_power_order_even(
        0x27e3e6eb20a383057258nat,
        0xc6875cac5ae700a3b81968f54325b9377cc99b67c8bd6c2e97c1065fefa9d390nat,
        0x4fc7cdd64147060ae4b0nat,
        0x8192071fd584748c3601b009cffe8cd0c37e4f007f35571a95aba995b5279a45nat,
    );
    lemma_power_order_odd(
        0x4fc7cdd64147060ae4b0nat,
        0x8192071fd584748c3601b009cffe8cd0c37e4f007f35571a95aba995b5279a45nat,
        0x9f8f9bac828e0c15c961nat,
        0xdc791d54cb97a67476cb865c19d37f4e0f96330fa24f11171b4d132a63be8c9cnat,
        0x1ba3e3e64f2e71eac0a3185b739ee94670dc0f4032c03a598dfc149698d779dbnat,
    );
}

/// The same power with the first 96 bits of the exponent only.
proof fn lemma_power_order_first_96()
    ensures
        mod_pow(
            0x3ab7401b847c8b450ddf18c4aeb8b393c54019bb9e87042810cfee7bad0de03anat,
            0x9f8f9bac828e0c15c961d6c0nat,
            0xfffffffeffffffffffffffffffffffff7203df6b21c6052b53bbf40939d54123nat,
        ) == 0x2dd7f14d2b2c135f3790b436a75c898a1d9c09f48b22226b1d3d7ef5df3ea75fnat,
{
    lemma_power_order_first_80();
    lemma_power_order_odd(
        0x9f8f9bac828e0c15c961nat,
        0x1ba3e3e64f2e71eac0a3185b739ee94670dc0f4032c03a598dfc149698d779dbnat,
        0x13f1f3759051c182b92c3nat,
        0x7f632a86a3bc60894d0d7b88feb775c4ec0782ea32c4fcdfe342d793fc14e0banat,
        0x975215da087186e8b2697a7ad65c5191fd55f5a0067de9338a822d5f1a6afe32nat,
    );
    lemma_power_order_odd(
        0x13f1f3759051c182b92c3nat,
        0x975215da087186e8b2697a7ad65c5191fd55f5a0067de9338a822d5f1a6afe32nat,
        0x27e3e6eb20a3830572587nat,
        0x2fa3b972716eed74cad988d1d9c25e445c2f0f12768968f3138ad2bf927e6ac1nat,
        0xece7f227742aba7986471792a61aee09a9490cc136e3bd0bd51a89e09092bd37nat,
    );
    lemma_power_order_even(
        0x27e3e6eb20a3830572587nat,
        0xece7f227742aba7986471792a61aee09a9490cc136e3bd0bd51a89e09092bd37nat,
        0x4fc7cdd64147060ae4b0enat,
        0x24a5af294683eddfb3f31a9d06c00c7d4349d4b183c44f1887f783bb67ff6951nat,
    );
    lemma_power_order_odd(
        0x4fc7cdd64147060ae4b0enat,
        0x24a5af294683eddfb3f31a9d06c00c7d4349d4b183c44f1887f783bb67ff6951nat,
        0x9f8f9bac828e0c15c961dnat,
        0x5912171e1d8e41279d63d2161b5704c79d22e9c64fb93a7358e7967b8381c9dnat,
        0x5725ec2e9c16b838714e4dd1287da93814ee286d4abec1c01ecaf13afc6c67aenat,
    );
    lemma_power_order_even(
        0x9f8f9bac828e0c15c961dnat,
        0x5725ec2e9c16b838714e4dd1287da93814ee286d4abec1c01ecaf13afc6c67aenat,
        0x13f1f3759051c182b92c3anat,
        0xf1285d6ac07e51682434e364ee67af689db9477d570a3b85cb76a72d4b641eadnat,
    );
    lemma_power_order_odd(
        0x13f1f3759051c182b92c3anat,
        0xf1285d6ac07e51682434e364ee67af689db9477d570a3b85cb76a72d4b641eadnat,
        0x27e3e6eb20a38305725875nat,
        0x2c52b8fd40cc594017d5e58b4c38d82ea38d2de6543533fde4d839455c892533nat,
        0xf2253ef3829942691d5a2a0b98c99eea0f36d998cd897decbdad4abcc9d6d2benat,
    );
    lemma_power_order_odd(
        0x27e3e6eb20a38305725875nat,
        0xf2253ef3829942691d5a2a0b98c99eea0f36d998cd897decbdad4abcc9d6d2benat,
        0x4fc7cdd64147060ae4b0ebnat,
        0x2657d763f7631551237b402f863b81502bd701f6451214631d6ef6a85a55afd6nat,
        0xa8b388e482a284a60d2d58c967d0029e3c4ef064e31b15b19520dbb3878892banat,
    );
    lemma_power_order_even(
        0x4fc7cdd64147060ae4b0ebnat,
        0xa8b388e482a284a60d2d58c967d0029e3c4ef064e31b15b19520dbb3878892banat,
        0x9f8f9bac828e0c15c961d6nat,
        0xf96ab47b80ddf7abc5ce10fdc87a7cb2a8e83d12860cf64d09f8bdd3c7b6d838nat,
    );
    lemma_power_order_odd(
        0x9f8f9bac828e0c15c961d6nat,
        0xf96ab47b80ddf7abc5ce10fdc87a7cb2a8e83d12860cf64d09f8bdd3c7b6d838nat,
        0x13f1f3759051c182b92c3adnat,
        0x27be5f5d3f1970b98e6b6bcf2120e233ae7454d0520fbae4f3d5b8ec56490027nat,
        0x96216e87870e3f371bec23c0b00b5886f1409fd05b42d5f5a87c3b512291e13dnat,
    );
    lemma_power_order_odd(
        0x13f1f3759051c182b92c3adnat,
        0x96216e87870e3f371bec23c0b00b5886f1409fd05b42d5f5a87c3b512291e13dnat,
        0x27e3e6eb20a38305725875bnat,
        0x921bd500dfa93c06d04cf16d4e1b0b1c267a898a874eba535d2f30fd74ec320bnat,
        0x96bfbc44f138906f978a5f5ad0f2728d98b9b79556c5d04737edf52f7a714315nat,
    );
    lemma_power_order_even(
        0x27e3e6eb20a38305725875bnat,
        0x96bfbc44f138906f978a5f5ad0f2728d98b9b79556c5d04737edf52f7a714315nat,
        0x4fc7cdd64147060ae4b0eb6nat,
        0x372ff1b438965ea1ba2b6f3db6d9055150918b7dd6df78d8aee197aef4aa334nat,
    );
    lemma_power_order_even(
        0x4fc7cdd64147060ae4b0eb6nat,
        0x372ff1b438965ea1ba2b6f3db6d9055150918b7dd6df78d8aee197aef4aa334nat,
        0x9f8f9bac828e0c15c961d6cnat,
        0xdff333ab444448837c6b38043f3f311fd780b2b5a741dfbbd2f6499910f3be51nat,
    );
    lemma_power_order_even(
        0x9f8f9bac828e0c15c961d6cnat,
        0xdff333ab444448837c6b38043f3f311fd780b2b5a741dfbbd2f6499910f3be51nat,
        0x13f1f3759051c182b92c3ad8nat,
        0xcffe5425edd57e579b52b19bfc1a2684bba918901ad99ebe277e63a5b85cf6e3nat,
    );
    lemma_power_order_even(
        0x13f1f3759051c182b92c3ad8nat,
        0xcffe5425edd57e579b52b19bfc1a2684bba918901ad99ebe277e63a5b85cf6e3nat,
        0x27e3e6eb20a38305725875b0nat,
        0x9f422267ebaf37929307d53cca215c6b4eda5d5ca0aeba0a2c1fcbf1f3ae0d4fnat,
    );
    lemma_power_order_even(
        0x27e3e6eb20a38305725875b0nat,
        0x9f422267ebaf37929307d53cca215c6b4eda5d5ca0aeba0a2c1fcbf1f3ae0d4fnat,
        0x4fc7cdd64147060ae4b0eb60nat,
        0xc278b552bfef248b5873222077cc761a45b964602aeaf23892cdbfee395f95e0nat,
    );
    lemma_power_order_even(
        0x4fc7cdd64147060ae4b0eb60nat,
        0xc278b552bfef248b5873222077cc761a45b964602aeaf23892cdbfee395f95e0nat,
        0x9f8f9bac828e0c15c961d6c0nat,
        0x2dd7f14d2b2c135f3790b436a75c898a1d9c09f48b22226b1d3d7ef5df3ea75fnat,
    );
}

/// The same power with the first 112 bits of the exponent only.
proof fn lemma_power_order_first_112()
    ensures
        mod_pow(
            0x3ab7401b847c8b450ddf18c4aeb8b393c54019bb9e87042810cfee7bad0de03anat,
            0x9f8f9bac828e0c15c961d6c01df9nat,
            0xfffffffeffffffffffffffffffffffff7203df6b21c6052b53bbf40939d54123nat,
        ) == 0x78785b625e18fd0edaf77c04c7afae24cd8e7ed15b08a949c8d861208417bb66nat,
{
    lemma_power_order_first_96();
    lemma_power_order_even(
        0x9f8f9bac828e0c15c961d6c0nat,
        0x2dd7f14d2b2c135f3790b436a75c898a1d9c09f48b22226b1d3d7ef5df3ea75fnat,
        0x13f1f3759051c182b92c3ad80nat,
        0x8839847b911496106fbf6d7fb0ca264b07e466d27caad1561edd2e40c72d5b53nat,
    );
    lemma_power_order_even(
        0x13f1f3759051c182b92c3ad80nat,
        0x8839847b911496106fbf6d7fb0ca264b07e466d27caad1561edd2e40c72d5b53nat,
        0x27e3e6eb20a38305725875b00nat,
        0x57117fde82472c79cbd81b5512a07a6f8a87fdcde29c3aea9da87a7e77676199nat,
    );
    lemma_power_order_even(
        0x27e3e6eb20a38305725875b00nat,
        0x57117fde82472c79cbd81b5512a07a6f8a87fdcde29c3aea9da87a7e77676199nat,
        0x4fc7cdd64147060ae4b0eb600nat,
        0x6e885468d96c60670fd4a9d5899ee84bdd162d6233d2eaa5a2da437c7f79474dnat,
    );
    lemma_power_order_odd(
        0x4fc7cdd64147060ae4b0eb600nat,
        0x6e885468d96c60670fd4a9d5899ee84bdd162d6233d2eaa5a2da437c7f79474dnat,
        0x9f8f9bac828e0c15c961d6c01nat,
        0x627c2b58d4d032a2d9523b6f9837a0799bf8c8333fb29a5b51a5a2ee56a57a8anat,
        0xa7b4735ac6ec9df98cbd17136e58db44b4050ec62cc421d4dd0c03ea7b3af3a0nat,
    );
    lemma_power_order_odd(
        0x9f8f9bac828e0c15c961d6c01nat,
        0xa7b4735ac6ec9df98cbd17136e58db44b4050ec62cc421d4dd0c03ea7b3af3a0nat,
        0x13f1f3759051c182b92c3ad803nat,
        0x375990aec985c9ce350ae172d5d63c9bef32a25e1db792dcf8eb80bd7c26762cnat,
        0xf64e01515877a4800bb57807934289d21a4a43ea30ee6638181ff029a694f05nat,
    );
    lemma_power_order_odd(
        0x13f1f3759051c182b92c3ad803nat,
        0xf64e01515877a4800bb57807934289d21a4a43ea30ee6638181ff029a694f05nat,
        0x27e3e6eb20a38305725875b007nat,
        0xb94ae3e21acc3ededfb52bbb9226bbd1f80acf845e2b341c403a4533696aaea1nat,
        0xbc8ba65917d3e8d858b5cc8f258edf959e0ef73d7ee97af4b3db9bde6b0eaa66nat,
    );
    lemma_power_order_even(
        0x27e3e6eb20a38305725875b007nat,
        0xbc8ba65917d3e8d858b5cc8f258edf959e0ef73d7ee97af4b3db9bde6b0eaa66nat,
        0x4fc7cdd64147060ae4b0eb600enat,
        0x5541c91fce8137f151e6d6c97506cceb8ba0032a75c6a736f6a8ecffc0fe4126nat,
    );
    lemma_power_order_odd(
        0x4fc7cdd64147060ae4b0eb600enat,
        0x5541c91fce8137f151e6d6c97506cceb8ba0032a75c6a736f6a8ecffc0fe4126nat,
        0x9f8f9bac828e0c15c961d6c01dnat,
        0x9d9836e3bfe4de5a4acc7732afedc0690a4d05e6b178da820fa8aacbfe95182fnat,
        0x81825ea7d90062586cfe1536e543702974e2750f204b903717ff68f92159f798nat,
    );
    lemma_power_order_odd(
        0x9f8f9bac828e0c15c961d6c01dnat,
        0x81825ea7d90062586cfe1536e543702974e2750f204b903717ff68f92159f798nat,
        0x13f1f3759051c182b92c3ad803bnat,
        0x78be7549d430975d487364b786d68816a9cc6991c030895bb813c4c2483794d3nat,
        0x8fb4434bc83693546f4e919581ace84fc125f4c10638960f23ada29e3c336e19nat,
    );
    lemma_power_order_odd(
        0x13f1f3759051c182b92c3ad803bnat,
        0x8fb4434bc83693546f4e919581ace84fc125f4c10638960f23ada29e3c336e19nat,
        0x27e3e6eb20a38305725875b0077nat,
        0x68170f239ec60732287ca1a243cd379615794fc7ede9f74286cd5c8a8a0629ecnat,
        0x3c9409afddb9f3a435feb0b7ec1122ee955a7d1ba03c4f0fa8aab15259d38b9enat,
    );
    lemma_power_order_odd(
        0x27e3e6eb20a38305725875b0077nat,
        0x3c9409afddb9f3a435feb0b7ec1122ee955a7d1ba03c4f0fa8aab15259d38b9enat,
        0x4fc7cdd64147060ae4b0eb600efnat,
        0x62fdd01d14c4bb21a1398d55d07067ac4a54707869e71e2b2c62aa6b790cf4e2nat,
        0xc8fc04dbd7a9c1324e2193736f7d4cd38d9095092045653ffda1c7e4e23b1772nat,
    );
    lemma_power_order_odd(
        0x4fc7cdd64147060ae4b0eb600efnat,
        0xc8fc04dbd7a9c1324e2193736f7d4cd38d9095092045653ffda1c7e4e23b1772nat,
        0x9f8f9bac828e0c15c961d6c01dfnat,
        0x7d641234aa809ad882aecdb01ce293971327435b2a50d26cbfe180ff646f4cb6nat,
        0x6a63073f8801e32b5c58f7c2fad6664d0dbb4f74c131a9a0d981241e03782ce0nat,
    );
    lemma_power_order_odd(
        0x9f8f9bac828e0c15c961d6c01dfnat,
        0x6a63073f8801e32b5c58f7c2fad6664d0dbb4f74c131a9a0d981241e03782ce0nat,
        0x13f1f3759051c182b92c3ad803bfnat,
        0xbed06e40083a1ad19b5443242ab3d1d4da6f846f717b447f7feadf8943d91644nat,
        0x8d1b653ddd6a9431537b4d362d04aedd302848be1719c9ac8eac5eaf16c24e67nat,
    );
    lemma_power_order_even(
        0x13f1f3759051c182b92c3ad803bfnat,
        0x8d1b653ddd6a9431537b4d362d04aedd302848be1719c9ac8eac5eaf16c24e67nat,
        0x27e3e6eb20a38305725875b0077enat,
        0xdaf1a052d7cd7251eaac31fbc3a4d44b7a3dc3316cbd18f905a6062210b2c1e6nat,
    );
    lemma_power_order_even(
        0x27e3e6eb20a38305725875b0077enat,
        0xdaf1a052d7cd7251eaac31fbc3a4d44b7a3dc3316cbd18f905a6062210b2c1e6nat,
        0x4fc7cdd64147060ae4b0eb600efcnat,
        0xc90bf57e092a3853ef372ca0bcbc9a52c9a31d474d45d944baa43afacae188b1nat,
    );
    lemma_power_order_odd(
        0x4fc7cdd64147060ae4b0eb600efcnat,
        0xc90bf57e092a3853ef372ca0bcbc9a52c9a31d474d45d944baa43afacae188b1nat,
        0x9f8f9bac828e0c15c961d6c01df9nat,
        0x401b85c4603df484d86fc639c0753a298c418a682a12bfa1afe109f197d31da7nat,
        0x78785b625e18fd0edaf77c04c7afae24cd8e7ed15b08a949c8d861208417bb66nat,
    );
}

/// The same power with the first 128 bits of the exponent only.
proof fn lemma_power_order_first_128()
    ensures
        mod_pow(
            0x3ab7401b847c8b450ddf18c4aeb8b393c54019bb9e87042810cfee7bad0de03anat,
            0x9f8f9bac828e0c15c961d6c01df9e5b5nat,
            0xfffffffeffffffffffffffffffffffff7203df6b21c6052b53bbf40939d54123nat,
        ) == 0xcb3044e14a76633b06effc7e37031ac7c73ec1f35975eaa3e6fcb9458e2364dbnat,
{
    lemma_power_order_first_112();
    lemma_power_order_odd(
        0x9f8f9bac828e0c15c961d6c01df9nat,
        0x78785b625e18fd0edaf77c04c7afae24cd8e7ed15b08a949c8d861208417bb66nat,
        0x13f1f3759051c182b92c3ad803bf3nat,
        0x4c399a1a9ab375b490a9faef38db83ab1c3467e72252b971f7448c81bd4d6497nat,
        0xb6b7966b5b3fd5c491b8bfa7d6b962759f779deae26d03be053c4ee96397016nat,
    );
    lemma_power_order_odd(
        0x13f1f3759051c182b92c3ad803bf3nat,
        0xb6b7966b5b3fd5c491b8bfa7d6b962759f779deae26d03be053c4ee96397016nat,
        0x27e3e6eb20a38305725875b0077e7nat,
        0x224e42aaabfca886737003d00d5c41556b798812866a56c6f9f357a6fa7a71enat,
        0x3cf64b1d8a7926068906f73204f88b2934e1ebd3f41386f1c11e9e2717ce2225nat,
    );
    lemma_power_order_odd(
        0x27e3e6eb20a38305725875b0077e7nat,
        0x3cf64b1d8a7926068906f73204f88b2934e1ebd3f41386f1c11e9e2717ce2225nat,
        0x4fc7cdd64147060ae4b0eb600efcfnat,
        0xb71c32f7c6b998e0caf124440847ba59f1e9c7bd32ba2af191ac8f0b95270a82nat,
        0x1140d550d442b2f0f703a8f7aef2e2db8f3ce693c2693826200c04b4388d8712nat,
    );
    lemma_power_order_even(
        0x4fc7cdd64147060ae4b0eb600efcfnat,
        0x1140d550d442b2f0f703a8f7aef2e2db8f3ce693c2693826200c04b4388d8712nat,
        0x9f8f9bac828e0c15c961d6c01df9enat,
        0x7f865c3ef63eb264b6eeadb347dc3c77e3a60b254bd11915f0b14fb19826d9eenat,
    );
    lemma_power_order_even(
        0x9f8f9bac828e0c15c961d6c01df9enat,
        0x7f865c3ef63eb264b6eeadb347dc3c77e3a60b254bd11915f0b14fb19826d9eenat,
        0x13f1f3759051c182b92c3ad803bf3cnat,
        0xa1989ac8eb0bc8d3a734a445ee86b23030c73419d53e724113cf22f865493a32nat,
    );
    lemma_power_order_odd(
        0x13f1f3759051c182b92c3ad803bf3cnat,
        0xa1989ac8eb0bc8d3a734a445ee86b23030c73419d53e724113cf22f865493a32nat,
        0x27e3e6eb20a38305725875b0077e79nat,
        0xbc9fba31461b69cce72fc147a5c519c4154dce1130c9790c3b9950f65d330f3dnat,
        0x67ba18a687a02485639d94a3457f26e8b0129aefcd64926c92359e9714b8a4adnat,
    );
    lemma_power_order_even(
        0x27e3e6eb20a38305725875b0077e79nat,
        0x67ba18a687a02485639d94a3457f26e8b0129aefcd64926c92359e9714b8a4adnat,
        0x4fc7cdd64147060ae4b0eb600efcf2nat,
        0xf58c812eae206751c64510cbb20c531e9dc4b65693b407548f0386e4ce0ce648nat,
    );
    lemma_power_order_odd(
        0x4fc7cdd64147060ae4b0eb600efcf2nat,
        0xf58c812eae206751c64510cbb20c531e9dc4b65693b407548f0386e4ce0ce648nat,
        0x9f8f9bac828e0c15c961d6c01df9e5nat,
        0x21cd204595310f18456fb9238442e4afa1b90da50d316aa96e561ab38b38aa20nat,
        0x7d43b27ae4ebe4a45daf30ce23e80b80580931a29e3b824f92fb63f2835ea4fcnat,
    );
    lemma_power_order_odd(
        0x9f8f9bac828e0c15c961d6c01df9e5nat,
        0x7d43b27ae4ebe4a45daf30ce23e80b80580931a29e3b824f92fb63f2835ea4fcnat,
        0x13f1f3759051c182b92c3ad803bf3cbnat,
        0x49e3ef429cda7e8f00e83fd8ef94a46760e04afc05b08dce9cf41d7c8adf291nat,
        0x68ed5044c42fbeba8d7fc63d2a994ecbe417abe807e021742734e72490805f12nat,
    );
    lemma_power_order_even(
        0x13f1f3759051c182b92c3ad803bf3cbnat,
        0x68ed5044c42fbeba8d7fc63d2a994ecbe417abe807e021742734e72490805f12nat,
        0x27e3e6eb20a38305725875b0077e796nat,
        0xefcabd008903df0b78dfa388668ae4314c028e8dba9b8b06b56e3f63a77d2833nat,
    );
    lemma_power_order_odd(
        0x27e3e6eb20a38305725875b0077e796nat,
        0xefcabd008903df0b78dfa388668ae4314c028e8dba9b8b06b56e3f63a77d2833nat,
        0x4fc7cdd64147060ae4b0eb600efcf2dnat,
        0xdc930bca2770d9a67bd90f5b3a7b7ebcb9ee65cb3d39eab4c136fbf398033a15nat,
        0xbe25e6c00b0ed051c547df4af1632a49127fc135a15658d9af066f808425110cnat,
    );
    lemma_power_order_odd(
        0x4fc7cdd64147060ae4b0eb600efcf2dnat,
        0xbe25e6c00b0ed051c547df4af1632a49127fc135a15658d9af066f808425110cnat,
        0x9f8f9bac828e0c15c961d6c01df9e5bnat,
        0x37be0ea081268edf9716adb30f3f7e4043b868d8d161625b5914083e6b2e377nat,
        0x2c8831e344c24e2fd2780262b774caea43eee74ac1fa25d364095e54250c355bnat,
    );
    lemma_power_order_even(
        0x9f8f9bac828e0c15c961d6c01df9e5bnat,
        0x2c8831e344c24e2fd2780262b774caea43eee74ac1fa25d364095e54250c355bnat,
        0x13f1f3759051c182b92c3ad803bf3cb6nat,
        0xac9f6bc6902894b918a872c44598e83b62941e76653193650be527181be24591nat,
    );
    lemma_power_order_odd(
        0x13f1f3759051c182b92c3ad803bf3cb6nat,
        0xac9f6bc6902894b918a872c44598e83b62941e76653193650be527181be24591nat,
        0x27e3e6eb20a38305725875b0077e796dnat,
        0xef77fca8a95be7431a0fd1e224b4ce22ca5959eeace2bcb8d28a8733b18eebe8nat,
        0x8a9a967f3e71c4ccd6a8471376d45014906d7e13e9fc1b5d665515d70d790e81nat,
    );
    lemma_power_order_even(
        0x27e3e6eb20a38305725875b0077e796dnat,
        0x8a9a967f3e71c4ccd6a8471376d45014906d7e13e9fc1b5d665515d70d790e81nat,
        0x4fc7cdd64147060ae4b0eb600efcf2danat,
        0x85d0f0567833186c00b0444fd22da0620f375b2ec608dd1d3f2eb7150fa3e032nat,
    );
    lemma_power_order_odd(
        0x4fc7cdd64147060ae4b0eb600efcf2danat,
        0x85d0f0567833186c00b0444fd22da0620f375b2ec608dd1d3f2eb7150fa3e032nat,
        0x9f8f9bac828e0c15c961d6c01df9e5b5nat,
        0xcff16f8a894c65ed5ef4fbe271768554276f72a79b0142ccf3a12e559ea96b96nat,
        0xcb3044e14a76633b06effc7e37031ac7c73ec1f35975eaa3e6fcb9458e2364dbnat,
    );
}

/// The same power with the first 144 bits of the exponent only.
proof fn lemma_power_order_first_144()
    ensures
        mod_pow(
            0x3ab7401b847c8b450ddf18c4aeb8b393c54019bb9e87042810cfee7bad0de03anat,
            0x9f8f9bac828e0c15c961d6c01df9e5b5a9fbnat,
            0xfffffffeffffffffffffffffffffffff7203df6b21c6052b53bbf40939d54123nat,
        ) == 0x924952677e68646745621e1bf01047c2e3924942a2a3c915bb1afec390676295nat,
{
    lemma_power_order_first_128();
    lemma_power_order_odd(
        0x9f8f9bac828e0c15c961d6c01df9e5b5nat,
        0xcb3044e14a76633b06effc7e37031ac7c73ec1f35975eaa3e6fcb9458e2364dbnat,
        0x13f1f3759051c182b92c3ad803bf3cb6bnat,
        0x46d249b4c211b18103886d272ee5bab3196e931bca2d8e0debe494d4d972edf4nat,
        0x5af67f7af01ff47aceb01526f9960a0ddf2749baaa39211aba4e5329af8a883cnat,
    );
    lemma_power_order_even(
        0x13f1f3759051c182b92c3ad803bf3cb6bnat,
        0x5af67f7af01ff47aceb01526f9960a0ddf2749baaa39211aba4e5329af8a883cnat,
        0x27e3e6eb20a38305725875b0077e796d6nat,
        0x8a20d2ccad8bb835566414d10cfed507b316e156fd59ebb512a501578d258e39nat,
    );
    lemma_power_order_odd(
        0x27e3e6eb20a38305725875b0077e796d6nat,
        0x8a20d2ccad8bb835566414d10cfed507b316e156fd59ebb512a501578d258e39nat,
        0x4fc7cdd64147060ae4b0eb600efcf2dadnat,
        0x9032162d88d2491af9a8da7f777baab9aba348773dfaf88c0689c9f46851d38cnat,
        0x7f59ab3e0f7b11c3db5b0fe2dbfe99de9efa9beaaf319751c70a5236b07ca06bnat,
    );
    lemma_power_order_even(
        0x4fc7cdd64147060ae4b0eb600efcf2dadnat,
        0x7f59ab3e0f7b11c3db5b0fe2dbfe99de9efa9beaaf319751c70a5236b07ca06bnat,
        0x9f8f9bac828e0c15c961d6c01df9e5b5anat,
        0x1c25b8f5211812de8bb7bd6bffd47461e1194703e74174635f0c731b5755758anat,
    );
    lemma_power_order_odd(
        0x9f8f9bac828e0c15c961d6c01df9e5b5anat,
        0x1c25b8f5211812de8bb7bd6bffd47461e1194703e74174635f0c731b5755758anat,
        0x13f1f3759051c182b92c3ad803bf3cb6b5nat,
        0x374703bad985cfd37ff5ba4129060119b75377fc1606cb7422c910e6dd0f86e8nat,
        0x89e9ac6f49ba31c7194a667d23f8a53c22e8e433a329014c9d39f5f4868f73b5nat,
    );
    lemma_power_order_even(
        0x13f1f3759051c182b92c3ad803bf3cb6b5nat,
        0x89e9ac6f49ba31c7194a667d23f8a53c22e8e433a329014c9d39f5f4868f73b5nat,
        0x27e3e6eb20a38305725875b0077e796d6anat,
        0xea81f32af485d97c33d8d80322abd7747121fac29122aaf2a276cf330ceea000nat,
    );
    lemma_power_order_even(
        0x27e3e6eb20a38305725875b0077e796d6anat,
        0xea81f32af485d97c33d8d80322abd7747121fac29122aaf2a276cf330ceea000nat,
        0x4fc7cdd64147060ae4b0eb600efcf2dad4nat,
        0x584b0da62a723dd6891347a0d52355454edc0a99391b98c568a554aef15382cnat,
    );
    lemma_power_order_odd(
        0x4fc7cdd64147060ae4b0eb600efcf2dad4nat,
        0x584b0da62a723dd6891347a0d52355454edc0a99391b98c568a554aef15382cnat,
        0x9f8f9bac828e0c15c961d6c01df9e5b5a9nat,
        0x174031f22a1fd6231cae10752217e2ea8c9c983c97ae96387b2da17b73b3c29enat,
        0x194d5e40bd668f7c3c478fcc650b205723ec0573d16eda2b9148fb9942c01d10nat,
    );
    lemma_power_order_odd(
        0x9f8f9bac828e0c15c961d6c01df9e5b5a9nat,
        0x194d5e40bd668f7c3c478fcc650b205723ec0573d16eda2b9148fb9942c01d10nat,
        0x13f1f3759051c182b92c3ad803bf3cb6b53nat,
        0x10454df7eacb2b67db1c3daa72df8dea936d5af6b5467de2fddfe9af0d768bb5nat,
        0x96d72b80c7e767e4d9dec54b749239faec4984c8f2c0737c013fe81cec2fdc0enat,
    );
    lemma_power_order_odd(
        0x13f1f3759051c182b92c3ad803bf3cb6b53nat,
        0x96d72b80c7e767e4d9dec54b749239faec4984c8f2c0737c013fe81cec2fdc0enat,
        0x27e3e6eb20a38305725875b0077e796d6a7nat,
        0xed28df17553429faf31449eae7144cc1ddd76f9497a3b68bfa8e262300346d72nat,
        0x27b20f2c8086361be60eec3b332d35f2eaee1936a0b64eff1f110652be87205bnat,
    );
    lemma_power_order_odd(
        0x27e3e6eb20a38305725875b0077e796d6a7nat,
        0x27b20f2c8086361be60eec3b332d35f2eaee1936a0b64eff1f110652be87205bnat,
        0x4fc7cdd64147060ae4b0eb600efcf2dad4fnat,
        0xfeb7447ea205e4bc0e7837b2f165c3f8fdf143107b14180557977fee80f75029nat,
        0x51b80ff6e77c5e334ef6ee0e610781e1ff2f1777b5a06d7aa37d1fd25d16cb18nat,
    );
    lemma_power_order_odd(
        0x4fc7cdd64147060ae4b0eb600efcf2dad4fnat,
        0x51b80ff6e77c5e334ef6ee0e610781e1ff2f1777b5a06d7aa37d1fd25d16cb18nat,
        0x9f8f9bac828e0c15c961d6c01df9e5b5a9fnat,
        0xd58e994dd35cb01be6e7bf7bccbb040a01e50e5c43fe8ad35a1e462db1aab792nat,
        0xcef910704dda801e8f21af69744306ad6faee7cf95e0ebed81d9e4b13a749565nat,
    );
    lemma_power_order_odd(
        0x9f8f9bac828e0c15c961d6c01df9e5b5a9fnat,
        0xcef910704dda801e8f21af69744306ad6faee7cf95e0ebed81d9e4b13a749565nat,
        0x13f1f3759051c182b92c3ad803bf3cb6b53fnat,
        0xd61fe996b22c6a59ea0809ee68ed667c99b20bb55ad3d21b83f4d0b5747cf9f6nat,
        0xaa52f20ac15c7e943499d9af1fd600e0d52fd857f9f1a7eca22f885b4fb2fd54nat,
    );
    lemma_power_order_even(
        0x13f1f3759051c182b92c3ad803bf3cb6b53fnat,
        0xaa52f20ac15c7e943499d9af1fd600e0d52fd857f9f1a7eca22f885b4fb2fd54nat,
        0x27e3e6eb20a38305725875b0077e796d6a7enat,
        0xf1968f90c4b0696dea9ee4c5eef205719dbfe4cb306099c10fd1e0b685ded548nat,
    );
    lemma_power_order_odd(
        0x27e3e6eb20a38305725875b0077e796d6a7enat,
        0xf1968f90c4b0696dea9ee4c5eef205719dbfe4cb306099c10fd1e0b685ded548nat,
        0x4fc7cdd64147060ae4b0eb600efcf2dad4fdnat,
        0x4d0fb1565fd3d8e1db082ec9dbf5e777349beebcd5ce070c4197bde4d35bcf14nat,
        0x347dc40ff9f1d8ee4bee8be985859825a5bdcd8bd0bda88f245055ebc6ac33f8nat,
    );
    lemma_power_order_odd(
        0x4fc7cdd64147060ae4b0eb600efcf2dad4fdnat,
        0x347dc40ff9f1d8ee4bee8be985859825a5bdcd8bd0bda88f245055ebc6ac33f8nat,
        0x9f8f9bac828e0c15c961d6c01df9e5b5a9fbnat,
        0xf5d84af754622cba0088296aea8966b227fbb9202ea78bba0fec802de5364894nat,
        0x924952677e68646745621e1bf01047c2e3924942a2a3c915bb1afec390676295nat,
    );
}

/// The same power with the first 160 bits of the exponent only.
proof fn lemma_power_order_first_160()
    ensures
        mod_pow(
            0x3ab7401b847c8b450ddf18c4aeb8b393c54019bb9e87042810cfee7bad0de03anat,
            0x9f8f9bac828e0c15c961d6c01df9e5b5a9fbd8e0nat,
            0xfffffffeffffffffffffffffffffffff7203df6b21c6052b53bbf40939d54123nat,
        ) == 0x1751c6efe156c21fa8bff0ab5108a13fc6099d69239e3eee80eecb7dd35ca4canat,
{
    lemma_power_order_first_144();
    lemma_power_order_odd(
        0x9f8f9bac828e0c15c961d6c01df9e5b5a9fbnat,
        0x924952677e68646745621e1bf01047c2e3924942a2a3c915bb1afec390676295nat,
        0x13f1f3759051c182b92c3ad803bf3cb6b53f7nat,
        0x3fc84f06b9df0d820e09c9ed6900d68818bf6a7c79f06bfd038c27ee47341486nat,
        0x9bf41aab6c26f8f679b148ee436fc7c251cbe0ba08beba94d67c361593fc234dnat,
    );
    lemma_power_order_odd(
        0x13f1f3759051c182b92c3ad803bf3cb6b53f7nat,
        0x9bf41aab6c26f8f679b148ee436fc7c251cbe0ba08beba94d67c361593fc234dnat,
        0x27e3e6eb20a38305725875b0077e796d6a7efnat,
        0x27fbe85bbb233a65dbfd3f1cf42b33f9bdb38c889423b72382d7362f4aba91d0nat,
        0xb6b1799583574017c2a83e9d22641bb050b0f23cfc079c5e356bc4113da8115dnat,
    );
    lemma_power_order_even(
        0x27e3e6eb20a38305725875b0077e796d6a7efnat,
        0xb6b1799583574017c2a83e9d22641bb050b0f23cfc079c5e356bc4113da8115dnat,
        0x4fc7cdd64147060ae4b0eb600efcf2dad4fdenat,
        0xa8d3b30febf568a372f88b6284cb6be245a13860fd290f650e4ac6d8475c5178nat,
    );
    lemma_power_order_odd(
        0x4fc7cdd64147060ae4b0eb600efcf2dad4fdenat,
        0xa8d3b30febf568a372f88b6284cb6be245a13860fd290f650e4ac6d8475c5178nat,
        0x9f8f9bac828e0c15c961d6c01df9e5b5a9fbdnat,
        0x328a36d3ab331ffc13b11f20fe17535109d5ace3097330009efb835861bdaa5dnat,
        0xca2ebc8f22243995d78fedee69fdb3c2307f01d2afe420f193ff56fdbbf0820dnat,
    );
    lemma_power_order_odd(
        0x9f8f9bac828e0c15c961d6c01df9e5b5a9fbdnat,
        0xca2ebc8f22243995d78fedee69fdb3c2307f01d2afe420f193ff56fdbbf0820dnat,
        0x13f1f3759051c182b92c3ad803bf3cb6b53f7bnat,
        0x48ad2c12b4108ab11a76be1a628c938446a242653691060c055190b64f064fd7nat,
        0x1a628e0617ae018282eac0ee93ba2ff8dff10df84ffb7a2cd4f2bbd4f8de2418nat,
    );
    lemma_power_order_even(
        0x13f1f3759051c182b92c3ad803bf3cb6b53f7bnat,
        0x1a628e0617ae018282eac0ee93ba2ff8dff10df84ffb7a2cd4f2bbd4f8de2418nat,
        0x27e3e6eb20a38305725875b0077e796d6a7ef6nat,
        0x4f574c1e628bda4ed411181520bd9913f55bf0e592022a119037315cbda43156nat,
    );
    lemma_power_order_even(
        0x27e3e6eb20a38305725875b0077e796d6a7ef6nat,
        0x4f574c1e628bda4ed411181520bd9913f55bf0e592022a119037315cbda43156nat,
        0x4fc7cdd64147060ae4b0eb600efcf2dad4fdecnat,
        0x902f6570d90771c8ede838a135c7e6aad4aa7c61f1f5391dd1c55ae03d67cd7dnat,
    );
    lemma_power_order_even(
        0x4fc7cdd64147060ae4b0eb600efcf2dad4fdecnat,
        0x902f6570d90771c8ede838a135c7e6aad4aa7c61f1f5391dd1c55ae03d67cd7dnat,
        0x9f8f9bac828e0c15c961d6c01df9e5b5a9fbd8nat,
        0x6e5d4f674ce2c4f2937afbe7638ad8559b8cd2f11d2be68654a8558d27e91475nat,
    );
    lemma_power_order_odd(
        0x9f8f9bac828e0c15c961d6c01df9e5b5a9fbd8nat,
        0x6e5d4f674ce2c4f2937afbe7638ad8559b8cd2f11d2be68654a8558d27e91475nat,
        0x13f1f3759051c182b92c3ad803bf3cb6b53f7b1nat,
        0xc6abebd80a6c3a1785c27e3dcedba6845e4c53854376c347f15e223cdd14e5f5nat,
        0x2427f39e672f7e56dab848ea7fdd7f8fce23eee0f6f8c06a1fe2bef65f5dfnat,
    );
    lemma_power_order_odd(
        0x13f1f3759051c182b92c3ad803bf3cb6b53f7b1nat,
        0x2427f39e672f7e56dab848ea7fdd7f8fce23eee0f6f8c06a1fe2bef65f5dfnat,
        0x27e3e6eb20a38305725875b0077e796d6a7ef63nat,
        0xbd01efdb90ab95cea6bc3a6a218ba05bd0d8a0628e2bdf56eaedc185540e035nat,
        0xd926f12d615456abd2ed4befa6d01849da7d6acbd25b21097920472f31fa14dfnat,
    );
    lemma_power_order_odd(
        0x27e3e6eb20a38305725875b0077e796d6a7ef63nat,
        0xd926f12d615456abd2ed4befa6d01849da7d6acbd25b21097920472f31fa14dfnat,
        0x4fc7cdd64147060ae4b0eb600efcf2dad4fdec7nat,
        0x6b4a8ee08b3eab140021c27a2952170a14d7ee753b99b74a310c9373ce777579nat,
        0x47b2944eac2840b2bcf8de3a21ca9930bc18aed484b44fea0f8128dec8290a08nat,
    );
    lemma_power_order_even(
        0x4fc7cdd64147060ae4b0eb600efcf2dad4fdec7nat,
        0x47b2944eac2840b2bcf8de3a21ca9930bc18aed484b44fea0f8128dec8290a08nat,
        0x9f8f9bac828e0c15c961d6c01df9e5b5a9fbd8enat,
        0x7c8b17a4a1bdf96d2e5c682390a5c38cf24d4820867bf2caad892c91a9709547nat,
    );
    lemma_power_order_even(
        0x9f8f9bac828e0c15c961d6c01df9e5b5a9fbd8enat,
        0x7c8b17a4a1bdf96d2e5c682390a5c38cf24d4820867bf2caad892c91a9709547nat,
        0x13f1f3759051c182b92c3ad803bf3cb6b53f7b1cnat,
        0x1e14af34da45c4da9dec9314313f5154a15e01a0166059db2c4e14508442eb88nat,
    );
    lemma_power_order_even(
        0x13f1f3759051c182b92c3ad803bf3cb6b53f7b1cnat,
        0x1e14af34da45c4da9dec9314313f5154a15e01a0166059db2c4e14508442eb88nat,
        0x27e3e6eb20a38305725875b0077e796d6a7ef638nat,
        0xc3a66b9285b0cf76388212672ff2eb47169d37aba72d0df0a5f9dfecc5b47f4bnat,
    );
    lemma_power_order_even(
        0x27e3e6eb20a38305725875b0077e796d6a7ef638nat,
        0xc3a66b9285b0cf76388212672ff2eb47169d37aba72d0df0a5f9dfecc5b47f4bnat,
        0x4fc7cdd64147060ae4b0eb600efcf2dad4fdec70nat,
        0x7477b38028d0336626ba131af306c576b8840c937a6a0b8a174f7825a4c10592nat,
    );
    lemma_power_order_even(
        0x4fc7cdd64147060ae4b0eb600efcf2dad4fdec70nat,
        0x7477b38028d0336626ba131af306c576b8840c937a6a0b8a174f7825a4c10592nat,
        0x9f8f9bac828e0c15c961d6c01df9e5b5a9fbd8e0nat,
        0x1751c6efe156c21fa8bff0ab5108a13fc6099d69239e3eee80eecb7dd35ca4canat,
    );
}

/// The same power with the first 176 bits of the exponent only.
proof fn lemma_power_order_first_176()
    ensures
        mod_pow(
            0x3ab7401b847c8b450ddf18c4aeb8b393c54019bb9e87042810cfee7bad0de03anat,
            0x9f8f9bac828e0c15c961d6c01df9e5b5a9fbd8e00d22nat,
            0xfffffffeffffffffffffffffffffffff7203df6b21c6052b53bbf40939d54123nat,
        ) == 0x468504df3b149360ec799c8a8f2be001dd7297f135d93d435a0c08664d18c0f5nat,
{
    lemma_power_order_first_160();
    lemma_power_order_even(
        0x9f8f9bac828e0c15c961d6c01df9e5b5a9fbd8e0nat,
        0x1751c6efe156c21fa8bff0ab5108a13fc6099d69239e3eee80eecb7dd35ca4canat,
        0x13f1f3759051c182b92c3ad803bf3cb6b53f7b1c0nat,
        0x5085de5cdc377eb8e3af4a58d5f50834fcf1470f6a5fc66b379f08d1f2b9bb5dnat,
    );
    lemma_power_order_even(
        0x13f1f3759051c182b92c3ad803bf3cb6b53f7b1c0nat,
        0x5085de5cdc377eb8e3af4a58d5f50834fcf1470f6a5fc66b379f08d1f2b9bb5dnat,
        0x27e3e6eb20a38305725875b0077e796d6a7ef6380nat,
        0xb893ace89c22f5495ad65d82d8d98c8b2ae8ca698df5724a812e7b92a7557e04nat,
    );
    lemma_power_order_even(
        0x27e3e6eb20a38305725875b0077e796d6a7ef6380nat,
        0xb893ace89c22f5495ad65d82d8d98c8b2ae8ca698df5724a812e7b92a7557e04nat,
        0x4fc7cdd64147060ae4b0eb600efcf2dad4fdec700nat,
        0xb36e94c4c19049fb510ab8b6f9aa2405087640a46deeb6c3f599ee0b70e66f08nat,
    );
    lemma_power_order_even(
        0x4fc7cdd64147060ae4b0eb600efcf2dad4fdec700nat,
        0xb36e94c4c19049fb510ab8b6f9aa2405087640a46deeb6c3f599ee0b70e66f08nat,
        0x9f8f9bac828e0c15c961d6c01df9e5b5a9fbd8e00nat,
        0xa98458cd017f4d2b68fc1d8cd9a6fcc930b03b4391a33bb841c24c378eb6169cnat,
    );
    lemma_power_order_odd(
        0x9f8f9bac828e0c15c961d6c01df9e5b5a9fbd8e00nat,
        0xa98458cd017f4d2b68fc1d8cd9a6fcc930b03b4391a33bb841c24c378eb6169cnat,
        0x13f1f3759051c182b92c3ad803bf3cb6b53f7b1c01nat,
        0x2dfb695b37c2dc4df336e8a97c5c3da3d1f463d83255af269c32c87d059b502cnat,
        0x7aae1d46a8cd44a4a74a87faa220bbc79f6df1caa7a13d2b877e6504e4b67822nat,
    );
    lemma_power_order_odd(
        0x13f1f3759051c182b92c3ad803bf3cb6b53f7b1c01nat,
        0x7aae1d46a8cd44a4a74a87faa220bbc79f6df1caa7a13d2b877e6504e4b67822nat,
        0x27e3e6eb20a38305725875b0077e796d6a7ef63803nat,
        0xddeff31f6236d2ac0796b033383785e3937315536c7a9dcb9d496f3be5913488nat,
        0x9498ec205d5b4b4a7bedd5d9926403bb24b0bffd43f69354bf6b7e9b5e1401d2nat,
    );
    lemma_power_order_even(
        0x27e3e6eb20a38305725875b0077e796d6a7ef63803nat,
        0x9498ec205d5b4b4a7bedd5d9926403bb24b0bffd43f69354bf6b7e9b5e1401d2nat,
        0x4fc7cdd64147060ae4b0eb600efcf2dad4fdec7006nat,
        0x8c9e26d014393aa49efc260adac3b14176d6dbbb496c90f52292cadfc2182430nat,
    );
    lemma_power_order_odd(
        0x4fc7cdd64147060ae4b0eb600efcf2dad4fdec7006nat,
        0x8c9e26d014393aa49efc260adac3b14176d6dbbb496c90f52292cadfc2182430nat,
        0x9f8f9bac828e0c15c961d6c01df9e5b5a9fbd8e00dnat,
        0x9f82b622c625f220090498d3e29b5bbdadc09a597aa7381b56b71c573b92bd8enat,
        0x55939a0fbad5a7d19b5f341abd138dba312f77c8ca7ee2ea9923af122b6c975cnat,
    );
    lemma_power_order_even(
        0x9f8f9bac828e0c15c961d6c01df9e5b5a9fbd8e00dnat,
        0x55939a0fbad5a7d19b5f341abd138dba312f77c8ca7ee2ea9923af122b6c975cnat,
        0x13f1f3759051c182b92c3ad803bf3cb6b53f7b1c01anat,
        0x5d75eca76037da87bdcd3dcdf23325186c466d179b8ee2f178fbe63524d148dfnat,
    );
    lemma_power_order_even(
        0x13f1f3759051c182b92c3ad803bf3cb6b53f7b1c01anat,
        0x5d75eca76037da87bdcd3dcdf23325186c466d179b8ee2f178fbe63524d148dfnat,
        0x27e3e6eb20a38305725875b0077e796d6a7ef638034nat,
        0x7fcee8c065d764bb213e49a013f33f95bbff2ff8071c1df778dba0029e3db70enat,
    );
    lemma_power_order_odd(
        0x27e3e6eb20a38305725875b0077e796d6a7ef638034nat,
        0x7fcee8c065d764bb213e49a013f33f95bbff2ff8071c1df778dba0029e3db70enat,
        0x4fc7cdd64147060ae4b0eb600efcf2dad4fdec70069nat,
        0xbb245d40392fc3c0dfc9dcb95da2a19c93a9ba20904dca2238c41a9545b488eanat,
        0x4d813982ffe80b3f5de7e69fbf2d59e652280b8c08a594d6b1d856b347b0b075nat,
    );
    lemma_power_order_even(
        0x4fc7cdd64147060ae4b0eb600efcf2dad4fdec70069nat,
        0x4d813982ffe80b3f5de7e69fbf2d59e652280b8c08a594d6b1d856b347b0b075nat,
        0x9f8f9bac828e0c15c961d6c01df9e5b5a9fbd8e00d2nat,
        0x13f873963541fdbfcadaade6c95e06f4478a840733e291331d83a7aed838ea95nat,
    );
    lemma_power_order_even(
        0x9f8f9bac828e0c15c961d6c01df9e5b5a9fbd8e00d2nat,
        0x13f873963541fdbfcadaade6c95e06f4478a840733e291331d83a7aed838ea95nat,
        0x13f1f3759051c182b92c3ad803bf3cb6b53f7b1c01a4nat,
        0x8cc869ec970d1ce43614f8cc6260b1155a40ea4597467b1dac5430d5edb555fbnat,
    );
    lemma_power_order_even(
        0x13f1f3759051c182b92c3ad803bf3cb6b53f7b1c01a4nat,
        0x8cc869ec970d1ce43614f8cc6260b1155a40ea4597467b1dac5430d5edb555fbnat,
        0x27e3e6eb20a38305725875b0077e796d6a7ef6380348nat,
        0x4059af8e96a5da38b78decc06bcb516224366585e7af4eac1829e3683777314fnat,
    );
    lemma_power_order_odd(
        0x27e3e6eb20a38305725875b0077e796d6a7ef6380348nat,
        0x4059af8e96a5da38b78decc06bcb516224366585e7af4eac1829e3683777314fnat,
        0x4fc7cdd64147060ae4b0eb600efcf2dad4fdec700691nat,
        0x4b95785d48ff82a88be42015430a6d3d98c4d3f8bd0a7af8dff8d0062603aa3nat,
        0xb165cf4570096e214269d230394bd48be7f1a0f20ad263914b7fa8723a2fa8ebnat,
    );
    lemma_power_order_even(
        0x4fc7cdd64147060ae4b0eb600efcf2dad4fdec700691nat,
        0xb165cf4570096e214269d230394bd48be7f1a0f20ad263914b7fa8723a2fa8ebnat,
        0x9f8f9bac828e0c15c961d6c01df9e5b5a9fbd8e00d22nat,
        0x468504df3b149360ec799c8a8f2be001dd7297f135d93d435a0c08664d18c0f5nat,
    );
}

/// The same power with the first 192 bits of the exponent only.
proof fn lemma_power_order_first_192()
    ensures
        mod_pow(
            0x3ab7401b847c8b450ddf18c4aeb8b393c54019bb9e87042810cfee7bad0de03anat,
            0x9f8f9bac828e0c15c961d6c01df9e5b5a9fbd8e00d22561bnat,
            0xfffffffeffffffffffffffffffffffff7203df6b21c6052b53bbf40939d54123nat,
        ) == 0xba5f53d00a73fa4a75f53a28f631767f2b0e55127c8861aff4199d63de57334fnat,
{
    lemma_power_order_first_176();
    lemma_power_order_even(
        0x9f8f9bac828e0c15c961d6c01df9e5b5a9fbd8e00d22nat,
        0x468504df3b149360ec799c8a8f2be001dd7297f135d93d435a0c08664d18c0f5nat,
        0x13f1f3759051c182b92c3ad803bf3cb6b53f7b1c01a44nat,
        0xe200b8b870a15d63fe30c2eb38e3a188778763b2b450adf7e9f0d320329d4bbenat,
    );
    lemma_power_order_odd(
        0x13f1f3759051c182b92c3ad803bf3cb6b53f7b1c01a44nat,
        0xe200b8b870a15d63fe30c2eb38e3a188778763b2b450adf7e9f0d320329d4bbenat,
        0x27e3e6eb20a38305725875b0077e796d6a7ef63803489nat,
        0xdc97c7c03afda54a6ba3932f3756ab9dbffbe6431239ab19fda2fc2f92dc7048nat,
        0x547a86d4711fbce88e30537ffa53486d36b23c79354b49d25db0df8e7c2b112anat,
    );
    lemma_power_order_even(
        0x27e3e6eb20a38305725875b0077e796d6a7ef63803489nat,
        0x547a86d4711fbce88e30537ffa53486d36b23c79354b49d25db0df8e7c2b112anat,
        0x4fc7cdd64147060ae4b0eb600efcf2dad4fdec7006912nat,
        0x8f3c6b8467964f3c25e57e50b9877770dbbc1dca8ebaf48d8db06b530692122fnat,
    );
    lemma_power_order_odd(
        0x4fc7cdd64147060ae4b0eb600efcf2dad4fdec7006912nat,
        0x8f3c6b8467964f3c25e57e50b9877770dbbc1dca8ebaf48d8db06b530692122fnat,
        0x9f8f9bac828e0c15c961d6c01df9e5b5a9fbd8e00d225nat,
        0x64c7a6a128dde8c80d93a9a322182d85d0f133dad5981e46368198f83d18cc6enat,
        0xb37e7687cc8ea5cbf5943b8a9bde09fc46d15aa621eefffae094899f5ee4f9c1nat,
    );
    lemma_power_order_even(
        0x9f8f9bac828e0c15c961d6c01df9e5b5a9fbd8e00d225nat,
        0xb37e7687cc8ea5cbf5943b8a9bde09fc46d15aa621eefffae094899f5ee4f9c1nat,
        0x13f1f3759051c182b92c3ad803bf3cb6b53f7b1c01a44anat,
        0x50a226f6fa0a93659a67481bed135141a91c6b6ccd8a6efc093d0d495057e707nat,
    );
    lemma_power_order_odd(
        0x13f1f3759051c182b92c3ad803bf3cb6b53f7b1c01a44anat,
        0x50a226f6fa0a93659a67481bed135141a91c6b6ccd8a6efc093d0d495057e707nat,
        0x27e3e6eb20a38305725875b0077e796d6a7ef638034895nat,
        0x71f421982a5697a843ff608ef0872986ba88d309856971435a81da8a290b0fd6nat,
        0xaf8b679dd7ae36d59fe7b9c47fb5ffa6031cc65faccda91a31bf3fed4b7b4b7dnat,
    );
    lemma_power_order_odd(
        0x27e3e6eb20a38305725875b0077e796d6a7ef638034895nat,
        0xaf8b679dd7ae36d59fe7b9c47fb5ffa6031cc65faccda91a31bf3fed4b7b4b7dnat,
        0x4fc7cdd64147060ae4b0eb600efcf2dad4fdec7006912bnat,
        0x223c155203f9302c1b139d69a580ac0b7acca1d509a49eb8e890b76fd9410d6anat,
        0xc784c0e1698a963f421f2508399084653ce5cfaa73d2799d818a5673bb8b7750nat,
    );
    lemma_power_order_even(
        0x4fc7cdd64147060ae4b0eb600efcf2dad4fdec7006912bnat,
        0xc784c0e1698a963f421f2508399084653ce5cfaa73d2799d818a5673bb8b7750nat,
        0x9f8f9bac828e0c15c961d6c01df9e5b5a9fbd8e00d2256nat,
        0x4b39a140ae7fc16c24fe0feedfa0edf72954d1e0a0eece698395f152cd81820dnat,
    );
    lemma_power_order_even(
        0x9f8f9bac828e0c15c961d6c01df9e5b5a9fbd8e00d2256nat,
        0x4b39a140ae7fc16c24fe0feedfa0edf72954d1e0a0eece698395f152cd81820dnat,
        0x13f1f3759051c182b92c3ad803bf3cb6b53f7b1c01a44acnat,
        0xa8bac86b65a3a7aa62a6e2825957fa5cb54ad22f88eb2b2ebd597f92ed8b7348nat,
    );
    lemma_power_order_even(
        0x13f1f3759051c182b92c3ad803bf3cb6b53f7b1c01a44acnat,
        0xa8bac86b65a3a7aa62a6e2825957fa5cb54ad22f88eb2b2ebd597f92ed8b7348nat,
        0x27e3e6eb20a38305725875b0077e796d6a7ef6380348958nat,
        0x64e1e2ce75db1c39e1c0cfb7c5638d91566c04e53e186d867f763044d91a62cdnat,
    );
    lemma_power_order_even(
        0x27e3e6eb20a38305725875b0077e796d6a7ef6380348958nat,
        0x64e1e2ce75db1c39e1c0cfb7c5638d91566c04e53e186d867f763044d91a62cdnat,
        0x4fc7cdd64147060ae4b0eb600efcf2dad4fdec7006912b0nat,
        0xff12abc3561493b93e7066210de8017d5c6998dd246260cfeba145f0a780a8b4nat,
    );
    lemma_power_order_odd(
        0x4fc7cdd64147060ae4b0eb600efcf2dad4fdec7006912b0nat,
        0xff12abc3561493b93e7066210de8017d5c6998dd246260cfeba145f0a780a8b4nat,
        0x9f8f9bac828e0c15c961d6c01df9e5b5a9fbd8e00d22561nat,
        0x9debd43438ed31235a2f30b5f7ab25b2206f440ab0758d89d99067a4cd4ab592nat,
        0xfe4527eae7731a10f9ede8649e81eba504e8403ee4dbcf31d2e1d17caa0010e1nat,
    );
    lemma_power_order_odd(
        0x9f8f9bac828e0c15c961d6c01df9e5b5a9fbd8e00d22561nat,
        0xfe4527eae7731a10f9ede8649e81eba504e8403ee4dbcf31d2e1d17caa0010e1nat,
        0x13f1f3759051c182b92c3ad803bf3cb6b53f7b1c01a44ac3nat,
        0x657a9d0ad303c4a98908af60f65c19219f631a681f5b6be001d23b9329ff199enat,
        0xdd9dee0cf2005432f76849a26b75bf7faf5e3135b9e975ffffd513f54cc8930dnat,
    );
    lemma_power_order_even(
        0x13f1f3759051c182b92c3ad803bf3cb6b53f7b1c01a44ac3nat,
        0xdd9dee0cf2005432f76849a26b75bf7faf5e3135b9e975ffffd513f54cc8930dnat,
        0x27e3e6eb20a38305725875b0077e796d6a7ef63803489586nat,
        0xc9d96aa17ed005c9f0bbe6ed4d9369335595dcd4984adf6a3656808e2f19f77fnat,
    );
    lemma_power_order_odd(
        0x27e3e6eb20a38305725875b0077e796d6a7ef63803489586nat,
        0xc9d96aa17ed005c9f0bbe6ed4d9369335595dcd4984adf6a3656808e2f19f77fnat,
        0x4fc7cdd64147060ae4b0eb600efcf2dad4fdec7006912b0dnat,
        0xab89ff14025554781fc0d7bf5aed152199b5dd16b85485241e7233772ee3269enat,
        0xa8f8c8c5bc04dc2649a4858b406f05d98e84559aef88be358365c2178854387enat,
    );
    lemma_power_order_odd(
        0x4fc7cdd64147060ae4b0eb600efcf2dad4fdec7006912b0dnat,
        0xa8f8c8c5bc04dc2649a4858b406f05d98e84559aef88be358365c2178854387enat,
        0x9f8f9bac828e0c15c961d6c01df9e5b5a9fbd8e00d22561bnat,
        0x68608096bd3325198c82594d3bf7b4d01ae0bf81fed05a6ffe178cad339b3511nat,
        0xba5f53d00a73fa4a75f53a28f631767f2b0e55127c8861aff4199d63de57334fnat,
    );
}

/// The witness raised to the prime factor is one.
proof fn lemma_power_order()
    ensures
        mod_pow(
            0x3ab7401b847c8b450ddf18c4aeb8b393c54019bb9e87042810cfee7bad0de03anat,
            0x13f1f3759051c182b92c3ad803bf3cb6b53f7b1c01a44ac369nat,
            0xfffffffeffffffffffffffffffffffff7203df6b21c6052b53bbf40939d54123nat,
        ) == 1nat,
{
    lemma_power_order_first_192();
    lemma_power_order_even(
        0x9f8f9bac828e0c15c961d6c01df9e5b5a9fbd8e00d22561bnat,
        0xba5f53d00a73fa4a75f53a28f631767f2b0e55127c8861aff4199d63de57334fnat,
        0x13f1f3759051c182b92c3ad803bf3cb6b53f7b1c01a44ac36nat,
        0x72c77cd4ee4c1e25b1f26d8e6af3d04b975082dcb201b949a7a9510932fda243nat,
    );
    lemma_power_order_odd(
        0x13f1f3759051c182b92c3ad803bf3cb6b53f7b1c01a44ac36nat,
        0x72c77cd4ee4c1e25b1f26d8e6af3d04b975082dcb201b949a7a9510932fda243nat,
        0x27e3e6eb20a38305725875b0077e796d6a7ef63803489586dnat,
        0x80f722930fb7a6db712b838eecb91c967a7b1c98ae91de0eda9c788ef280af8enat,
        0x80af88691e93c05806323f129705167a3c89523ac774915ae489138e0e23776bnat,
    );
    lemma_power_order_even(
        0x27e3e6eb20a38305725875b0077e796d6a7ef63803489586dnat,
        0x80af88691e93c05806323f129705167a3c89523ac774915ae489138e0e23776bnat,
        0x4fc7cdd64147060ae4b0eb600efcf2dad4fdec7006912b0danat,
        0x7164b9a60ed53d399090f2f905330af07a7ed69b9345869b814c013c85bda486nat,
    );
    lemma_power_order_even(
        0x4fc7cdd64147060ae4b0eb600efcf2dad4fdec7006912b0danat,
        0x7164b9a60ed53d399090f2f905330af07a7ed69b9345869b814c013c85bda486nat,
        0x9f8f9bac828e0c15c961d6c01df9e5b5a9fbd8e00d22561b4nat,
        0x6620b7e2f845ec01883f86c07fc15189d7c8c9a30ca1197414e6420afceeb3e2nat,
    );
    lemma_power_order_odd(
        0x9f8f9bac828e0c15c961d6c01df9e5b5a9fbd8e00d22561b4nat,
        0x6620b7e2f845ec01883f86c07fc15189d7c8c9a30ca1197414e6420afceeb3e2nat,
        0x13f1f3759051c182b92c3ad803bf3cb6b53f7b1c01a44ac369nat,
        0xff78b63712a8d98996a889d102fee9b559b61d384bbedfa1892e78f856241df9nat,
        1nat,
    );
}

/// The order of the SM2 group is a prime number, by Pocklington's criterion with
/// a prime factor of 197 bits of the number before it.
pub proof fn lemma_order_is_prime()
    ensures
        is_prime(order()),
{
    lemma_prime_of_197_bits();
    lemma_power_order();
    lemma_pocklington(
        0xfffffffeffffffffffffffffffffffff7203df6b21c6052b53bbf40939d54123nat,
        0x13f1f3759051c182b92c3ad803bf3cb6b53f7b1c01a44ac369nat,
        0xcd5d0eb537badd2nat,
        0x3ab7401b847c8b450ddf18c4aeb8b393c54019bb9e87042810cfee7bad0de03anat,
        (0 - 0x7cbbc02b7868a2d4850141cb894ec6b6b481a51ed3a02f229bc0614a9677797cint),
        0x1c9bd2fcad5c3b402b00ced56a32ff0a05a20bcc55f1ebe26e0063843173373fint,
    );
}

/// Every residue but zero has a multiplicative inverse.
pub proof fn lemma_residues_form_a_field()
    ensures
        nonzero_residues_are_units(),
{
    lemma_order_is_prime();
    assert forall|a: nat| 0 < a < order() implies is_unit(a) by {
        let b = lemma_inverse_modulo_prime(order(), a);
        reveal(field_mul);
        assert(is_inverse_of(a, b));
    }
}

} // verus!
