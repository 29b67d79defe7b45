use rand::rngs::OsRng;
use shamir_secret_sharing::point::Point;
use shamir_secret_sharing::polynomial::Polynomial;
use shamir_secret_sharing::scalar::Scalar;
use shamir_secret_sharing::secret_sharing::{
    evaluate_commitments, generate_shares, generate_shares_with_feldman_vss,
    generate_shares_with_pedersen_vss, reconstruct_secret, reconstruct_secret_with_threshold,
    shares_of_polynomial, verify_share_with_blinding_value, verify_share_with_feldman_vss,
    verify_share_with_pedersen_vss, SecretSharingError,
};

const ORDER_LESS_ONE: [u8; 32] = [
    0xff, 0xff, 0xff, 0xfe, 0xff, 0xff, 0xff, 0xff, 0xff, 0xff, 0xff, 0xff, 0xff, 0xff, 0xff, 0xff,
    0x72, 0x03, 0xdf, 0x6b, 0x21, 0xc6, 0x05, 0x2b, 0x53, 0xbb, 0xf4, 0x09, 0x39, 0xd5, 0x41, 0x22,
];

fn s(value: u64) -> Scalar {
    Scalar::from_u64(value)
}

/// 5 + 2 x + 3 x^2
fn quadratic() -> Polynomial {
    Polynomial::from_coefficients(vec![s(5), s(2), s(3)])
}

#[test]
fn evaluate_gives_the_value_of_the_polynomial() {
    let poly = quadratic();
    assert_eq!(poly.evaluate(s(0)), s(5));
    assert_eq!(poly.evaluate(s(1)), s(10));
    assert_eq!(poly.evaluate(s(2)), s(21));
    assert_eq!(poly.evaluate(s(3)), s(38));
    assert_eq!(poly.evaluate(s(4)), s(61));
    assert_eq!(poly.evaluate(s(1000)), s(3002005));
}

#[test]
fn evaluate_reduces_modulo_the_order() {
    // 1 + x at x = -1
    let poly = Polynomial::from_coefficients(vec![s(1), s(1)]);
    let top = Scalar::from_bytes(&ORDER_LESS_ONE).unwrap();
    assert_eq!(poly.evaluate(top), Scalar::zero());
}

#[test]
fn a_polynomial_without_coefficients_is_zero() {
    let poly = Polynomial::from_coefficients(Vec::new());
    assert_eq!(poly.coefficients().len(), 0);
    assert_eq!(poly.evaluate(s(17)), Scalar::zero());
    assert_eq!(poly.feldman_commit(Point::generator()).len(), 0);
}

#[test]
fn new_keeps_the_secret_as_constant_term() {
    let mut rng = OsRng;
    let poly = Polynomial::new(s(42), 4, &mut rng);
    assert_eq!(poly.coefficients().len(), 5);
    assert_eq!(poly.coefficients()[0], s(42));
    assert_eq!(poly.evaluate(Scalar::zero()), s(42));
}

#[test]
fn a_polynomial_of_degree_zero_is_constant() {
    let mut rng = OsRng;
    let poly = Polynomial::new(s(42), 0, &mut rng);
    assert_eq!(poly.coefficients().len(), 1);
    assert_eq!(poly.evaluate(s(0)), s(42));
    assert_eq!(poly.evaluate(s(9)), s(42));
    assert_eq!(poly.evaluate(Scalar::random(&mut rng)), s(42));
}

#[test]
fn new_draws_fresh_coefficients() {
    let mut rng = OsRng;
    let a = Polynomial::new(s(1), 3, &mut rng);
    let b = Polynomial::new(s(1), 3, &mut rng);
    assert_ne!(a.coefficients()[1..], b.coefficients()[1..]);
}

#[test]
fn feldman_commit_multiplies_the_generator_by_each_coefficient() {
    let g = Point::generator();
    let commitments = quadratic().feldman_commit(g);
    assert_eq!(commitments, vec![g.mul(&s(5)), g.mul(&s(2)), g.mul(&s(3))]);
    let h = g.mul(&s(11));
    let commitments = quadratic().feldman_commit(h);
    assert_eq!(commitments, vec![g.mul(&s(55)), g.mul(&s(22)), g.mul(&s(33))]);
}

#[test]
fn pedersen_commit_blinds_each_coefficient() {
    let mut rng = OsRng;
    let g = Point::generator();
    let h = g.mul(&s(11));
    let poly = quadratic();
    let (commitments, blinding) = poly.pedersen_commit(g, h, &mut rng);
    assert_eq!(commitments.len(), 3);
    assert_eq!(blinding.coefficients().len(), 3);
    for i in 0..3 {
        let expected = g.mul(&poly.coefficients()[i]).add(&h.mul(&blinding.coefficients()[i]));
        assert_eq!(commitments[i], expected);
    }
}

#[test]
fn pedersen_commitments_are_fresh_each_time() {
    let mut rng = OsRng;
    let g = Point::generator();
    let h = g.mul(&Scalar::random(&mut rng));
    let poly = quadratic();
    let (first, first_blinding) = poly.pedersen_commit(g, h, &mut rng);
    let (second, second_blinding) = poly.pedersen_commit(g, h, &mut rng);
    assert_ne!(first, second);
    assert_ne!(first_blinding.coefficients(), second_blinding.coefficients());
}

#[test]
fn evaluate_commitments_sums_the_commitments_times_the_powers() {
    let g = Point::generator();
    let commitments = quadratic().feldman_commit(g);
    assert_eq!(evaluate_commitments(&commitments, s(4)), g.mul(&s(61)));
    assert_eq!(evaluate_commitments(&commitments, s(0)), g.mul(&s(5)));
    assert_eq!(evaluate_commitments(&[], s(4)), Point::identity());
    // 7 G + 4 (2 G) + 16 G
    let mixed = vec![g.mul(&s(7)), g.mul(&s(2)), g];
    assert_eq!(evaluate_commitments(&mixed, s(4)), g.mul(&s(31)));
}

#[test]
fn commitments_follow_the_polynomial_at_any_point() {
    let mut rng = OsRng;
    let g = Point::generator();
    let h = g.mul(&Scalar::random(&mut rng));
    let poly = Polynomial::new(s(9), 3, &mut rng);
    let feldman = poly.feldman_commit(g);
    let (pedersen, blinding) = poly.pedersen_commit(g, h, &mut rng);
    for _ in 0..3 {
        let x = Scalar::random(&mut rng);
        assert_eq!(evaluate_commitments(&feldman, x), g.mul(&poly.evaluate(x)));
        assert_eq!(
            evaluate_commitments(&pedersen, x),
            g.mul(&poly.evaluate(x)).add(&h.mul(&blinding.evaluate(x)))
        );
    }
}

#[test]
fn shares_of_polynomial_are_its_values_at_one_to_n() {
    let shares = shares_of_polynomial(&quadratic(), 4);
    assert_eq!(
        shares,
        vec![(s(1), s(10)), (s(2), s(21)), (s(3), s(38)), (s(4), s(61))]
    );
    assert_eq!(shares_of_polynomial(&quadratic(), 0), Vec::new());
}

#[test]
fn generate_shares_gives_n_shares_at_one_to_n() {
    let mut rng = OsRng;
    let shares = generate_shares(s(77), 6, 3, &mut rng).unwrap();
    assert_eq!(shares.len(), 6);
    for (i, share) in shares.iter().enumerate() {
        assert_eq!(share.0, s(i as u64 + 1));
    }
    assert_eq!(generate_shares(s(77), 0, 3, &mut rng), Ok(Vec::new()));
}

#[test]
fn a_threshold_of_zero_is_refused() {
    let mut rng = OsRng;
    let g = Point::generator();
    let h = g.mul(&s(3));
    assert_eq!(
        generate_shares(s(1), 5, 0, &mut rng),
        Err(SecretSharingError::DegreeUnderflow)
    );
    assert_eq!(
        generate_shares_with_feldman_vss(s(1), 5, 0, g, &mut rng).err(),
        Some(SecretSharingError::DegreeUnderflow)
    );
    assert_eq!(
        generate_shares_with_pedersen_vss(s(1), 5, 0, g, h, &mut rng).err(),
        Some(SecretSharingError::DegreeUnderflow)
    );
    assert_eq!(
        generate_shares(s(1), 0, 0, &mut rng),
        Err(SecretSharingError::DegreeUnderflow)
    );
}

#[test]
fn a_threshold_of_one_gives_the_secret_to_everyone() {
    let mut rng = OsRng;
    let shares = generate_shares(s(77), 3, 1, &mut rng).unwrap();
    assert_eq!(shares, vec![(s(1), s(77)), (s(2), s(77)), (s(3), s(77))]);
    assert_eq!(reconstruct_secret(&shares[1..2]), Ok(s(77)));
}

#[test]
fn reconstruct_interpolates_at_zero() {
    let shares = vec![(s(1), s(10)), (s(2), s(21)), (s(3), s(38)), (s(4), s(61))];
    assert_eq!(reconstruct_secret(&shares[0..3]), Ok(s(5)));
    assert_eq!(reconstruct_secret(&shares[1..4]), Ok(s(5)));
    assert_eq!(reconstruct_secret(&shares), Ok(s(5)));
    assert_eq!(reconstruct_secret(&[shares[3], shares[0], shares[2]]), Ok(s(5)));
}

#[test]
fn reconstruct_from_too_few_shares_gives_another_value() {
    // the line through (1, 10) and (2, 21) is -1 + 11 x
    let shares = vec![(s(1), s(10)), (s(2), s(21))];
    let line = reconstruct_secret(&shares).unwrap();
    assert_eq!(line.to_bytes(), ORDER_LESS_ONE);
    assert_ne!(line, s(5));
    // one share alone stands for a constant
    assert_eq!(reconstruct_secret(&shares[0..1]), Ok(s(10)));
}

#[test]
fn reconstruct_from_no_share_is_zero() {
    assert_eq!(reconstruct_secret(&[]), Ok(Scalar::zero()));
}

#[test]
fn reconstruct_refuses_a_repeated_index() {
    let shares = vec![(s(1), s(10)), (s(2), s(21)), (s(1), s(10))];
    assert_eq!(
        reconstruct_secret(&shares),
        Err(SecretSharingError::SingularInterpolation)
    );
    let shares = vec![(s(3), s(10)), (s(3), s(21))];
    assert_eq!(
        reconstruct_secret(&shares),
        Err(SecretSharingError::SingularInterpolation)
    );
}

#[test]
fn reconstruct_refuses_the_index_zero() {
    let shares = vec![(s(0), s(5)), (s(1), s(10)), (s(2), s(21))];
    assert_eq!(
        reconstruct_secret(&shares),
        Err(SecretSharingError::SingularInterpolation)
    );
    assert_eq!(
        reconstruct_secret(&[(s(0), s(5))]),
        Err(SecretSharingError::SingularInterpolation)
    );
}

#[test]
fn any_threshold_of_shares_gives_the_secret_back() {
    let mut rng = OsRng;
    let secret = Scalar::random(&mut rng);
    let shares = generate_shares(secret, 5, 3, &mut rng).unwrap();
    let picks: [[usize; 3]; 5] = [[0, 1, 2], [0, 2, 4], [4, 3, 1], [2, 3, 4], [3, 0, 4]];
    for pick in picks.iter() {
        let chosen: Vec<(Scalar, Scalar)> = pick.iter().map(|&k| shares[k]).collect();
        assert_eq!(reconstruct_secret(&chosen), Ok(secret));
    }
    assert_eq!(reconstruct_secret(&shares[0..4]), Ok(secret));
    assert_eq!(reconstruct_secret(&shares), Ok(secret));
}

#[test]
fn one_share_less_than_the_threshold_misses_the_secret() {
    let mut rng = OsRng;
    for _ in 0..20 {
        let secret = Scalar::random(&mut rng);
        let shares = generate_shares(secret, 5, 3, &mut rng).unwrap();
        assert_ne!(reconstruct_secret(&shares[0..2]), Ok(secret));
        assert_ne!(reconstruct_secret(&shares[3..5]), Ok(secret));
    }
}

#[test]
fn fewer_shares_than_the_threshold_can_still_be_dealt() {
    let mut rng = OsRng;
    let shares = generate_shares(s(77), 2, 3, &mut rng).unwrap();
    assert_eq!(shares.len(), 2);
    assert_eq!(shares[0].0, s(1));
    assert_eq!(shares[1].0, s(2));
}

#[test]
fn feldman_check_passes_for_shares_of_the_polynomial_only() {
    let g = Point::generator();
    let commitments = quadratic().feldman_commit(g);
    assert!(verify_share_with_feldman_vss((s(4), s(61)), &commitments, g));
    assert!(verify_share_with_feldman_vss((s(0), s(5)), &commitments, g));
    assert!(!verify_share_with_feldman_vss((s(4), s(62)), &commitments, g));
    assert!(!verify_share_with_feldman_vss((s(4), s(60)), &commitments, g));
    assert!(!verify_share_with_feldman_vss((s(3), s(61)), &commitments, g));
    // against other commitments, or with another generator
    let others = Polynomial::from_coefficients(vec![s(5), s(2), s(4)]).feldman_commit(g);
    assert!(!verify_share_with_feldman_vss((s(4), s(61)), &others, g));
    assert!(!verify_share_with_feldman_vss((s(4), s(61)), &commitments, g.add(&g)));
}

#[test]
fn feldman_check_with_no_commitments_passes_for_the_value_zero() {
    let g = Point::generator();
    assert!(verify_share_with_feldman_vss((s(4), s(0)), &[], g));
    assert!(!verify_share_with_feldman_vss((s(4), s(1)), &[], g));
}

#[test]
fn feldman_shares_pass_and_a_tampered_share_fails() {
    let mut rng = OsRng;
    let g = Point::generator();
    let secret = Scalar::random(&mut rng);
    let (shares, commitments) =
        generate_shares_with_feldman_vss(secret, 5, 3, g, &mut rng).unwrap();
    assert_eq!(shares.len(), 5);
    assert_eq!(commitments.len(), 3);
    assert_eq!(commitments[0], g.mul(&secret));
    for share in &shares {
        assert!(verify_share_with_feldman_vss(*share, &commitments, g));
    }
    let mut tampered = shares.clone();
    tampered[0].1 = tampered[0].1.add(&Scalar::one());
    assert!(!verify_share_with_feldman_vss(tampered[0], &commitments, g));
    assert_ne!(reconstruct_secret(&tampered[0..3]), Ok(secret));
    assert_eq!(reconstruct_secret(&shares[0..3]), Ok(secret));
}

#[test]
fn pedersen_check_passes_for_shares_of_the_polynomial_only() {
    let g = Point::generator();
    let h = g.mul(&s(11));
    let poly = quadratic();
    // blinding polynomial 1 + 4 x + 6 x^2, which is 81 at 4
    let blinding = Polynomial::from_coefficients(vec![s(1), s(4), s(6)]);
    let commitments: Vec<Point> = (0..3)
        .map(|i| g.mul(&poly.coefficients()[i]).add(&h.mul(&blinding.coefficients()[i])))
        .collect();
    // 61 + 11 * 113 = 1304
    assert_eq!(evaluate_commitments(&commitments, s(4)), g.mul(&s(1304)));
    assert!(verify_share_with_pedersen_vss((s(4), s(61)), &commitments, &blinding, g, h));
    assert!(!verify_share_with_pedersen_vss((s(4), s(62)), &commitments, &blinding, g, h));
    assert!(!verify_share_with_pedersen_vss((s(5), s(61)), &commitments, &blinding, g, h));
    let other_blinding = Polynomial::from_coefficients(vec![s(1), s(4), s(7)]);
    assert!(!verify_share_with_pedersen_vss((s(4), s(61)), &commitments, &other_blinding, g, h));
}

#[test]
fn pedersen_shares_pass_and_a_tampered_share_fails() {
    let mut rng = OsRng;
    let g = Point::generator();
    let h = g.mul(&Scalar::random(&mut rng));
    let secret = Scalar::random(&mut rng);
    let (shares, commitments, blinding) =
        generate_shares_with_pedersen_vss(secret, 4, 2, g, h, &mut rng).unwrap();
    assert_eq!(shares.len(), 4);
    assert_eq!(commitments.len(), 2);
    assert_eq!(blinding.coefficients().len(), 2);
    for share in &shares {
        assert!(verify_share_with_pedersen_vss(*share, &commitments, &blinding, g, h));
    }
    let mut tampered = shares[2];
    tampered.1 = tampered.1.add(&Scalar::one());
    assert!(!verify_share_with_pedersen_vss(tampered, &commitments, &blinding, g, h));
    assert_eq!(reconstruct_secret(&shares[1..3]), Ok(secret));
}

#[test]
fn reconstruct_with_threshold_refuses_too_few_shares() {
    let shares = vec![(s(1), s(10)), (s(2), s(21)), (s(3), s(38)), (s(4), s(61))];
    assert_eq!(
        reconstruct_secret_with_threshold(&shares[0..2], 3),
        Err(SecretSharingError::InsufficientShares)
    );
    assert_eq!(
        reconstruct_secret_with_threshold(&[], 1),
        Err(SecretSharingError::InsufficientShares)
    );
    assert_eq!(reconstruct_secret_with_threshold(&shares[0..3], 3), Ok(s(5)));
    assert_eq!(reconstruct_secret_with_threshold(&shares, 3), Ok(s(5)));
    assert_eq!(reconstruct_secret_with_threshold(&[], 0), Ok(Scalar::zero()));
}

#[test]
fn reconstruct_with_threshold_refuses_singular_shares() {
    let repeated = vec![(s(1), s(10)), (s(2), s(21)), (s(1), s(10))];
    assert_eq!(
        reconstruct_secret_with_threshold(&repeated, 3),
        Err(SecretSharingError::SingularInterpolation)
    );
    // too few shares are refused as too few, whatever their indices
    assert_eq!(
        reconstruct_secret_with_threshold(&repeated, 4),
        Err(SecretSharingError::InsufficientShares)
    );
}

#[test]
fn pedersen_check_with_the_blinding_value_of_one_share() {
    let mut rng = OsRng;
    let g = Point::generator();
    let h = g.mul(&Scalar::random(&mut rng));
    let secret = Scalar::random(&mut rng);
    let (shares, commitments, blinding) =
        generate_shares_with_pedersen_vss(secret, 3, 2, g, h, &mut rng).unwrap();
    for share in &shares {
        let blinding_value = blinding.evaluate(share.0);
        assert!(verify_share_with_blinding_value(*share, blinding_value, &commitments, g, h));
        let other = blinding_value.add(&Scalar::one());
        assert!(!verify_share_with_blinding_value(*share, other, &commitments, g, h));
    }
    // the blinding value of one share does not pass another
    let first_value = blinding.evaluate(shares[0].0);
    assert!(!verify_share_with_blinding_value(shares[1], first_value, &commitments, g, h));
}

#[test]
fn pedersen_check_with_a_known_blinding_value() {
    let g = Point::generator();
    let h = g.mul(&s(11));
    // commitments to 5 + 2 x with the blinding factors 1 and 4
    let commitments = vec![g.mul(&s(5)).add(&h.mul(&s(1))), g.mul(&s(2)).add(&h.mul(&s(4)))];
    // at 3 the share is 11 and the blinding value 13
    assert!(verify_share_with_blinding_value((s(3), s(11)), s(13), &commitments, g, h));
    assert!(!verify_share_with_blinding_value((s(3), s(11)), s(14), &commitments, g, h));
    assert!(!verify_share_with_blinding_value((s(3), s(12)), s(13), &commitments, g, h));
}
