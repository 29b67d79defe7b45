use rand::Rng;
use shamir_secret_sharing::point::Point;
use shamir_secret_sharing::polynomial::Polynomial;
use shamir_secret_sharing::scalar::Scalar;

// The hundred trials of each kind are spread over ten tests, so that each
// test stays short.
const PARTS: usize = 10;

fn random_point<R: Rng>(rng: &mut R) -> Point {
    Point::generator().mul(&Scalar::random(rng))
}

fn pedersen_trials(num_tests: usize, h: Point) {
    let mut rng = rand::thread_rng();
    let g = Point::generator();
    let max_degree = 10;

    for _ in 0..num_tests {
        let degree = rng.gen_range(1..=max_degree);
        let secret = Scalar::from_u64(rng.gen_range(1..100u64));

        let poly = Polynomial::new(secret, degree, &mut rng);
        let (commitments, blinding_poly) = poly.pedersen_commit(g, h, &mut rng);

        let num_points = 20;
        for _ in 0..num_points {
            let x = Scalar::random(&mut rng);

            let poly_value_at_x = poly.evaluate(x);
            let blinding_value_at_x = blinding_poly.evaluate(x);

            let expected_commitment = g.mul(&poly_value_at_x).add(&h.mul(&blinding_value_at_x));

            let mut actual_commitment = Point::identity();
            for (i, commitment) in commitments.iter().enumerate() {
                actual_commitment = actual_commitment.add(&commitment.mul(&x.pow(i as u64)));
            }

            assert_eq!(
                expected_commitment, actual_commitment,
                "Commitment failed at random x with degree {}!",
                degree
            );
        }
    }
}

fn feldman_trials(num_tests: usize) {
    let mut rng = rand::thread_rng();
    let g = Point::generator();
    let max_degree = 10;

    for _ in 0..num_tests {
        let degree = rng.gen_range(1..=max_degree);
        let secret = Scalar::from_u64(rng.gen_range(1..100u64));

        let poly = Polynomial::new(secret, degree, &mut rng);
        let commitments = poly.feldman_commit(g);

        let num_points = 20;
        for _ in 0..num_points {
            let x = Scalar::random(&mut rng);

            let poly_value_at_x = poly.evaluate(x);
            let expected_commitment = g.mul(&poly_value_at_x);

            let mut actual_commitment = Point::identity();
            for (i, commitment) in commitments.iter().enumerate() {
                actual_commitment = actual_commitment.add(&commitment.mul(&x.pow(i as u64)));
            }

            assert_eq!(
                expected_commitment, actual_commitment,
                "Commitment failed at random x with degree {}!",
                degree
            );
        }
    }
}

#[test]
fn test_pedersen_commitment() {
    let mut rng = rand::thread_rng();
    let g = Point::generator();
    let h = random_point(&mut rng);

    let secret = Scalar::from_u64(7);
    let degree = 2;
    let poly = Polynomial::new(secret, degree, &mut rng);

    let (commitments, _) = poly.pedersen_commit(g, h, &mut rng);
    assert_eq!(commitments.len(), poly.coefficients().len());

    let (commitments_2, _) = poly.pedersen_commit(g, h, &mut rng);
    assert_ne!(commitments, commitments_2);
}

#[test]
fn test_pedersen_commitment_with_random_degree() {
    let mut rng = rand::thread_rng();
    let h = random_point(&mut rng);
    let num_tests = 100;
    pedersen_trials(num_tests / PARTS, h);
    println!("All random degree and point tests passed for Pedersen commitment!");
}

#[test]
fn test_feldman_commitment() {
    let mut rng = rand::thread_rng();
    let g = Point::generator();

    let secret = Scalar::from_u64(7);
    let degree = 2;
    let poly = Polynomial::new(secret, degree, &mut rng);

    let commitments = poly.feldman_commit(g);
    assert_eq!(commitments.len(), poly.coefficients().len());

    for (i, commitment) in commitments.iter().enumerate() {
        let expected_commitment = g.mul(&poly.coefficients()[i]);
        assert_eq!(
            *commitment, expected_commitment,
            "Commitment failed at index {}!",
            i
        );
    }
}

#[test]
fn test_feldman_commitment_with_random_degree() {
    let num_tests = 100;
    feldman_trials(num_tests / PARTS);
    println!("All random degree and point tests passed for Feldman commitment!");
}

#[test]
fn test_commitment() {
    let mut rng = rand::thread_rng();
    let g = Point::generator();
    let h = Point::generator().mul(&Scalar::random(&mut rng));

    let secret = Scalar::from_u64(7);
    let degree = 2;
    let poly = Polynomial::new(secret, degree, &mut rng);

    let (commitments, _) = poly.pedersen_commit(g, h, &mut rng);
    assert_eq!(commitments.len(), poly.coefficients().len());

    let (commitments_2, _) = poly.pedersen_commit(g, h, &mut rng);
    assert_ne!(commitments, commitments_2);
}

#[test]
fn test_commitment_with_random_degree() {
    let mut rng = rand::thread_rng();
    let h = Point::generator().mul(&Scalar::random(&mut rng));
    let num_tests = 100;
    pedersen_trials(num_tests / PARTS, h);
    println!("All random degree and point tests passed for Pedersen commitment!");
}

#[test]
fn test_pedersen_commitment_with_random_degree_part_2() {
    let mut rng = rand::thread_rng();
    let h = random_point(&mut rng);
    let num_tests = 100;
    pedersen_trials(num_tests / PARTS, h);
}

#[test]
fn test_feldman_commitment_with_random_degree_part_2() {
    let num_tests = 100;
    feldman_trials(num_tests / PARTS);
}

#[test]
fn test_commitment_with_random_degree_part_2() {
    let mut rng = rand::thread_rng();
    let h = Point::generator().mul(&Scalar::random(&mut rng));
    let num_tests = 100;
    pedersen_trials(num_tests / PARTS, h);
}

#[test]
fn test_pedersen_commitment_with_random_degree_part_3() {
    let mut rng = rand::thread_rng();
    let h = random_point(&mut rng);
    let num_tests = 100;
    pedersen_trials(num_tests / PARTS, h);
}

#[test]
fn test_feldman_commitment_with_random_degree_part_3() {
    let num_tests = 100;
    feldman_trials(num_tests / PARTS);
}

#[test]
fn test_commitment_with_random_degree_part_3() {
    let mut rng = rand::thread_rng();
    let h = Point::generator().mul(&Scalar::random(&mut rng));
    let num_tests = 100;
    pedersen_trials(num_tests / PARTS, h);
}

#[test]
fn test_pedersen_commitment_with_random_degree_part_4() {
    let mut rng = rand::thread_rng();
    let h = random_point(&mut rng);
    let num_tests = 100;
    pedersen_trials(num_tests / PARTS, h);
}

#[test]
fn test_feldman_commitment_with_random_degree_part_4() {
    let num_tests = 100;
    feldman_trials(num_tests / PARTS);
}

#[test]
fn test_commitment_with_random_degree_part_4() {
    let mut rng = rand::thread_rng();
    let h = Point::generator().mul(&Scalar::random(&mut rng));
    let num_tests = 100;
    pedersen_trials(num_tests / PARTS, h);
}

#[test]
fn test_pedersen_commitment_with_random_degree_part_5() {
    let mut rng = rand::thread_rng();
    let h = random_point(&mut rng);
    let num_tests = 100;
    pedersen_trials(num_tests / PARTS, h);
}

#[test]
fn test_feldman_commitment_with_random_degree_part_5() {
    let num_tests = 100;
    feldman_trials(num_tests / PARTS);
}

#[test]
fn test_commitment_with_random_degree_part_5() {
    let mut rng = rand::thread_rng();
    let h = Point::generator().mul(&Scalar::random(&mut rng));
    let num_tests = 100;
    pedersen_trials(num_tests / PARTS, h);
}

#[test]
fn test_pedersen_commitment_with_random_degree_part_6() {
    let mut rng = rand::thread_rng();
    let h = random_point(&mut rng);
    let num_tests = 100;
    pedersen_trials(num_tests / PARTS, h);
}

#[test]
fn test_feldman_commitment_with_random_degree_part_6() {
    let num_tests = 100;
    feldman_trials(num_tests / PARTS);
}

#[test]
fn test_commitment_with_random_degree_part_6() {
    let mut rng = rand::thread_rng();
    let h = Point::generator().mul(&Scalar::random(&mut rng));
    let num_tests = 100;
    pedersen_trials(num_tests / PARTS, h);
}

#[test]
fn test_pedersen_commitment_with_random_degree_part_7() {
    let mut rng = rand::thread_rng();
    let h = random_point(&mut rng);
    let num_tests = 100;
    pedersen_trials(num_tests / PARTS, h);
}

#[test]
fn test_feldman_commitment_with_random_degree_part_7() {
    let num_tests = 100;
    feldman_trials(num_tests / PARTS);
}

#[test]
fn test_commitment_with_random_degree_part_7() {
    let mut rng = rand::thread_rng();
    let h = Point::generator().mul(&Scalar::random(&mut rng));
    let num_tests = 100;
    pedersen_trials(num_tests / PARTS, h);
}

#[test]
fn test_pedersen_commitment_with_random_degree_part_8() {
    let mut rng = rand::thread_rng();
    let h = random_point(&mut rng);
    let num_tests = 100;
    pedersen_trials(num_tests / PARTS, h);
}

#[test]
fn test_feldman_commitment_with_random_degree_part_8() {
    let num_tests = 100;
    feldman_trials(num_tests / PARTS);
}

#[test]
fn test_commitment_with_random_degree_part_8() {
    let mut rng = rand::thread_rng();
    let h = Point::generator().mul(&Scalar::random(&mut rng));
    let num_tests = 100;
    pedersen_trials(num_tests / PARTS, h);
}

#[test]
fn test_pedersen_commitment_with_random_degree_part_9() {
    let mut rng = rand::thread_rng();
    let h = random_point(&mut rng);
    let num_tests = 100;
    pedersen_trials(num_tests / PARTS, h);
}

#[test]
fn test_feldman_commitment_with_random_degree_part_9() {
    let num_tests = 100;
    feldman_trials(num_tests / PARTS);
}

#[test]
fn test_commitment_with_random_degree_part_9() {
    let mut rng = rand::thread_rng();
    let h = Point::generator().mul(&Scalar::random(&mut rng));
    let num_tests = 100;
    pedersen_trials(num_tests / PARTS, h);
}

#[test]
fn test_pedersen_commitment_with_random_degree_part_10() {
    let mut rng = rand::thread_rng();
    let h = random_point(&mut rng);
    let num_tests = 100;
    pedersen_trials(num_tests / PARTS, h);
}

#[test]
fn test_feldman_commitment_with_random_degree_part_10() {
    let num_tests = 100;
    feldman_trials(num_tests / PARTS);
}

#[test]
fn test_commitment_with_random_degree_part_10() {
    let mut rng = rand::thread_rng();
    let h = Point::generator().mul(&Scalar::random(&mut rng));
    let num_tests = 100;
    pedersen_trials(num_tests / PARTS, h);
}
