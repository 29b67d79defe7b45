use rand::rngs::OsRng;
use shamir_secret_sharing::scalar::Scalar;
use shamir_secret_sharing::share::{generate_shares, reconstruct_secret};

#[test]
fn secret_sharing_test_secret_sharing() {
    let mut rng = OsRng;
    let secret = Scalar::from_u64(123456789);
    let n = 5;
    let t = 3;

    let shares = generate_shares(secret, n, t, &mut rng).unwrap();
    println!("Shares: {:?}", shares);

    let reconstructed_secret = reconstruct_secret(&shares[0..t]).unwrap();
    println!("Reconstructed secret: {:?}", reconstructed_secret);

    assert_eq!(secret, reconstructed_secret);
}
