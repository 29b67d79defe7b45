use shamir_secret_sharing::point::Point;
use shamir_secret_sharing::scalar::Scalar;
use sm2::elliptic_curve::group::GroupEncoding;

const GENERATOR: [u8; 33] = [
    0x02, 0x32, 0xc4, 0xae, 0x2c, 0x1f, 0x19, 0x81, 0x19, 0x5f, 0x99, 0x04, 0x46, 0x6a, 0x39, 0xc9,
    0x94, 0x8f, 0xe3, 0x0b, 0xbf, 0xf2, 0x66, 0x0b, 0xe1, 0x71, 0x5a, 0x45, 0x89, 0x33, 0x4c, 0x74,
    0xc7,
];

const ORDER_LESS_ONE: [u8; 32] = [
    0xff, 0xff, 0xff, 0xfe, 0xff, 0xff, 0xff, 0xff, 0xff, 0xff, 0xff, 0xff, 0xff, 0xff, 0xff, 0xff,
    0x72, 0x03, 0xdf, 0x6b, 0x21, 0xc6, 0x05, 0x2b, 0x53, 0xbb, 0xf4, 0x09, 0x39, 0xd5, 0x41, 0x22,
];

fn encoding(point: sm2::ProjectivePoint) -> [u8; 33] {
    point.to_bytes()[..].try_into().unwrap()
}

#[test]
fn generator_is_the_base_point() {
    assert_eq!(Point::generator().to_bytes(), GENERATOR);
    assert_eq!(Point::generator().to_bytes(), encoding(sm2::ProjectivePoint::GENERATOR));
}

#[test]
fn identity_is_the_point_at_infinity() {
    assert_eq!(Point::identity().to_bytes(), [0u8; 33]);
    assert_eq!(Point::identity().to_bytes(), encoding(sm2::ProjectivePoint::IDENTITY));
    assert_ne!(Point::identity(), Point::generator());
}

#[test]
fn add_is_the_group_addition() {
    let g = Point::generator();
    let o = Point::identity();
    assert_eq!(g.add(&o), g);
    assert_eq!(o.add(&g), g);
    assert_eq!(o.add(&o), o);
    let double = g.add(&g);
    assert_ne!(double, g);
    assert_eq!(double, g.mul(&Scalar::from_u64(2)));
    assert_eq!(double.add(&g), g.mul(&Scalar::from_u64(3)));
    assert_eq!(
        double.to_bytes(),
        encoding(sm2::ProjectivePoint::GENERATOR + sm2::ProjectivePoint::GENERATOR)
    );
}

#[test]
fn mul_is_the_scalar_multiplication() {
    let g = Point::generator();
    assert_eq!(g.mul(&Scalar::one()), g);
    assert_eq!(g.mul(&Scalar::zero()), Point::identity());
    assert_eq!(Point::identity().mul(&Scalar::from_u64(5)), Point::identity());
    assert_eq!(
        g.mul(&Scalar::from_u64(2)).mul(&Scalar::from_u64(3)),
        g.mul(&Scalar::from_u64(6))
    );
    assert_eq!(
        g.mul(&Scalar::from_u64(12345)).to_bytes(),
        encoding(sm2::ProjectivePoint::GENERATOR * sm2::Scalar::from(12345u64))
    );
}

#[test]
fn the_generator_has_the_order_of_the_scalars() {
    let g = Point::generator();
    let top = Scalar::from_bytes(&ORDER_LESS_ONE).unwrap();
    let negative = g.mul(&top);
    assert_ne!(negative, Point::identity());
    assert_eq!(negative.add(&g), Point::identity());
}

#[test]
fn mul_distributes_over_the_sum_of_scalars() {
    let mut rng = rand::thread_rng();
    let g = Point::generator();
    let a = Scalar::random(&mut rng);
    let b = Scalar::random(&mut rng);
    assert_eq!(g.mul(&a).add(&g.mul(&b)), g.mul(&a.add(&b)));
    assert_eq!(g.mul(&a).mul(&b), g.mul(&a.mul(&b)));
}

#[test]
fn equals_tells_points_apart() {
    let g = Point::generator();
    assert!(g.equals(&g));
    assert!(!g.equals(&Point::identity()));
    assert!(Point::identity().equals(&Point::identity()));
    assert!(g.add(&g).equals(&g.mul(&Scalar::from_u64(2))));
    assert!(!g.add(&g).equals(&g.mul(&Scalar::from_u64(3))));
}

#[test]
fn from_bytes_takes_encodings_of_points_only() {
    let g = Point::generator();
    assert_eq!(Point::from_bytes(&GENERATOR), Some(g));
    assert_eq!(Point::from_bytes(&[0u8; 33]), Some(Point::identity()));
    let p = g.mul(&Scalar::from_u64(99));
    assert_eq!(Point::from_bytes(&p.to_bytes()), Some(p));
    // no encoding starts with 0x07
    let mut wrong_tag = GENERATOR;
    wrong_tag[0] = 0x07;
    assert_eq!(Point::from_bytes(&wrong_tag), None);
    // the compact form of the base point decodes, but is not what a point is kept in
    let mut compact = GENERATOR;
    compact[0] = 0x05;
    assert_eq!(Point::from_bytes(&compact), None);
    // an x coordinate that is no residue of the field
    let mut too_large = [0xffu8; 33];
    too_large[0] = 0x02;
    assert_eq!(Point::from_bytes(&too_large), None);
}
