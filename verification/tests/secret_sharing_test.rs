use rand::{rngs::OsRng, seq::SliceRandom, Rng};
use shamir_secret_sharing::point::Point;
use shamir_secret_sharing::scalar::Scalar;
use shamir_secret_sharing::secret_sharing::{
    generate_shares, generate_shares_with_feldman_vss, generate_shares_with_pedersen_vss,
    reconstruct_secret, verify_share_with_feldman_vss, verify_share_with_pedersen_vss,
};

#[test]
fn secret_sharing_test_test_secret_sharing() {
    let mut rng = OsRng;
    let secret = Scalar::random(&mut rng);
    let n = 5;
    let t = 3;

    let shares = generate_shares(secret, n, t, &mut rng).unwrap();
    println!("Shares: {:?}", shares);

    let reconstructed_secret = reconstruct_secret(&shares[0..t]).unwrap();
    println!("Reconstructed secret: {:?}", reconstructed_secret);

    assert_eq!(secret, reconstructed_secret);
}

#[test]
fn test_feldman_vss() {
    let mut rng = OsRng;
    let g = Point::generator();
    let secret = Scalar::random(&mut rng);
    let n = 5;
    let t = 3;

    let (shares, commitments) =
        generate_shares_with_feldman_vss(secret, n, t, g, &mut rng).unwrap();

    for share in &shares {
        assert!(verify_share_with_feldman_vss(*share, &commitments, g));
    }

    let reconstructed_secret = reconstruct_secret(&shares[0..t]).unwrap();
    assert_eq!(secret, reconstructed_secret);

    let mut tampered_shares = shares.clone();
    tampered_shares[0].1 = tampered_shares[0].1.add(&Scalar::one());
    assert!(!verify_share_with_feldman_vss(
        tampered_shares[0],
        &commitments,
        g
    ));

    let tampered_reconstructed_secret = reconstruct_secret(&tampered_shares[0..t]).unwrap();
    assert_ne!(secret, tampered_reconstructed_secret);
}

// The hundred trials are spread over four tests, so that each test stays short.
fn pedersen_vss_trials(num_tests: usize) {
    let mut rng = OsRng;
    let g = Point::generator();

    for _ in 0..num_tests {
        let random_scalar = Scalar::random(&mut rng);
        let h = g.mul(&random_scalar);
        let secret = Scalar::random(&mut rng);
        let n = rng.gen_range(3..=10);
        let t = rng.gen_range(2..=n);

        let (shares, commitments, blinding_poly) =
            generate_shares_with_pedersen_vss(secret, n, t, g, h, &mut rng).unwrap();

        for share in &shares {
            assert!(verify_share_with_pedersen_vss(
                *share,
                &commitments,
                &blinding_poly,
                g,
                h
            ));
        }

        let mut selected_shares = shares.clone();
        selected_shares.shuffle(&mut rng);
        let reconstructed_secret = reconstruct_secret(&selected_shares[0..t]).unwrap();
        assert_eq!(secret, reconstructed_secret);

        let mut tampered_shares = shares.clone();
        let tamper_index = rng.gen_range(0..n);
        tampered_shares[tamper_index].1 = tampered_shares[tamper_index].1.add(&Scalar::one());
        assert!(!verify_share_with_pedersen_vss(
            tampered_shares[tamper_index],
            &commitments,
            &blinding_poly,
            g,
            h
        ));

        if tamper_index < t {
            let tampered_reconstructed_secret =
                reconstruct_secret(&tampered_shares[0..t]).unwrap();
            assert_ne!(secret, tampered_reconstructed_secret);
        }
    }
}

#[test]
fn test_pedersen_vss() {
    let num_tests = 100;
    pedersen_vss_trials(num_tests / 4);
    println!("All random tests passed for Pedersen VSS!");
}

#[test]
fn test_pedersen_vss_part_2() {
    let num_tests = 100;
    pedersen_vss_trials(num_tests / 4);
}

#[test]
fn test_pedersen_vss_part_3() {
    let num_tests = 100;
    pedersen_vss_trials(num_tests / 4);
}

#[test]
fn test_pedersen_vss_part_4() {
    let num_tests = 100;
    pedersen_vss_trials(num_tests / 4);
}
