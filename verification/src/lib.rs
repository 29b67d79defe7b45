//! Threshold secret sharing over the scalar field of the SM2 curve: Shamir's
//! scheme, with the verifiable sharing of Feldman and of Pedersen.
//!
//! A dealer splits a secret into shares with `secret_sharing::generate_shares`
//! or one of its verifiable variants; a holder checks a share against the
//! dealer's commitments with `verify_share_with_feldman_vss` or
//! `verify_share_with_pedersen_vss`; and `reconstruct_secret` gives the
//! secret back from enough shares. What these functions return is stated in
//! their contracts over residues modulo the order of the curve's group, and
//! the laws that connect them are proved beside them.

pub mod certificate;
pub mod field;
pub mod interpolation;
pub mod point;
pub mod polynomial;
pub mod primality;
pub mod scalar;
pub mod secret_sharing;
pub mod share;
