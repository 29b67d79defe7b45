use shamir_secret_sharing::scalar::Scalar;

const ORDER: [u8; 32] = [
    0xff, 0xff, 0xff, 0xfe, 0xff, 0xff, 0xff, 0xff, 0xff, 0xff, 0xff, 0xff, 0xff, 0xff, 0xff, 0xff,
    0x72, 0x03, 0xdf, 0x6b, 0x21, 0xc6, 0x05, 0x2b, 0x53, 0xbb, 0xf4, 0x09, 0x39, 0xd5, 0x41, 0x23,
];

const ORDER_LESS_ONE: [u8; 32] = [
    0xff, 0xff, 0xff, 0xfe, 0xff, 0xff, 0xff, 0xff, 0xff, 0xff, 0xff, 0xff, 0xff, 0xff, 0xff, 0xff,
    0x72, 0x03, 0xdf, 0x6b, 0x21, 0xc6, 0x05, 0x2b, 0x53, 0xbb, 0xf4, 0x09, 0x39, 0xd5, 0x41, 0x22,
];

const ORDER_LESS_TWO: [u8; 32] = [
    0xff, 0xff, 0xff, 0xfe, 0xff, 0xff, 0xff, 0xff, 0xff, 0xff, 0xff, 0xff, 0xff, 0xff, 0xff, 0xff,
    0x72, 0x03, 0xdf, 0x6b, 0x21, 0xc6, 0x05, 0x2b, 0x53, 0xbb, 0xf4, 0x09, 0x39, 0xd5, 0x41, 0x21,
];

const HALF: [u8; 32] = [
    0x7f, 0xff, 0xff, 0xff, 0x7f, 0xff, 0xff, 0xff, 0xff, 0xff, 0xff, 0xff, 0xff, 0xff, 0xff, 0xff,
    0xb9, 0x01, 0xef, 0xb5, 0x90, 0xe3, 0x02, 0x95, 0xa9, 0xdd, 0xfa, 0x04, 0x9c, 0xea, 0xa0, 0x92,
];

const SEVEN_TO_THE_65: [u8; 32] = [
    0x00, 0x00, 0x00, 0x00, 0x00, 0x00, 0x00, 0x00, 0x00, 0x59, 0x24, 0xed, 0xf3, 0xe5, 0xac, 0x7d,
    0xdb, 0xa0, 0x4e, 0x54, 0x86, 0x28, 0x6c, 0xd2, 0xb3, 0x0c, 0xa6, 0x7d, 0x45, 0x20, 0x3a, 0x07,
];

fn small(bytes_tail: u64) -> [u8; 32] {
    let mut bytes = [0u8; 32];
    bytes[24..].copy_from_slice(&bytes_tail.to_be_bytes());
    bytes
}

#[test]
fn from_u64_writes_the_number_in_the_last_bytes() {
    assert_eq!(Scalar::from_u64(0).to_bytes(), [0u8; 32]);
    assert_eq!(Scalar::from_u64(5).to_bytes(), small(5));
    assert_eq!(Scalar::from_u64(123456789).to_bytes(), small(123456789));
    assert_eq!(Scalar::from_u64(u64::MAX).to_bytes(), small(u64::MAX));
}

#[test]
fn zero_and_one_are_the_identities() {
    assert_eq!(Scalar::zero(), Scalar::from_u64(0));
    assert_eq!(Scalar::one(), Scalar::from_u64(1));
    let x = Scalar::from_u64(987654321);
    assert_eq!(x.add(&Scalar::zero()), x);
    assert_eq!(x.mul(&Scalar::one()), x);
    assert_eq!(x.mul(&Scalar::zero()), Scalar::zero());
}

#[test]
fn from_bytes_takes_residues_only() {
    assert_eq!(Scalar::from_bytes(&small(77)), Some(Scalar::from_u64(77)));
    assert_eq!(
        Scalar::from_bytes(&ORDER_LESS_ONE).map(|s| s.to_bytes()),
        Some(ORDER_LESS_ONE)
    );
    assert_eq!(Scalar::from_bytes(&ORDER), None);
    assert_eq!(Scalar::from_bytes(&[0xff; 32]), None);
}

#[test]
fn add_wraps_at_the_order() {
    assert_eq!(Scalar::from_u64(2).add(&Scalar::from_u64(3)), Scalar::from_u64(5));
    let top = Scalar::from_bytes(&ORDER_LESS_ONE).unwrap();
    assert_eq!(top.add(&Scalar::one()), Scalar::zero());
    assert_eq!(top.add(&Scalar::from_u64(6)), Scalar::from_u64(5));
    assert_eq!(top.add(&top).to_bytes(), ORDER_LESS_TWO);
}

#[test]
fn sub_wraps_below_zero() {
    assert_eq!(Scalar::from_u64(9).sub(&Scalar::from_u64(4)), Scalar::from_u64(5));
    assert_eq!(Scalar::from_u64(4).sub(&Scalar::from_u64(4)), Scalar::zero());
    assert_eq!(Scalar::zero().sub(&Scalar::one()).to_bytes(), ORDER_LESS_ONE);
    assert_eq!(Scalar::from_u64(3).sub(&Scalar::from_u64(5)).to_bytes(), ORDER_LESS_TWO);
}

#[test]
fn mul_is_the_product_modulo_the_order() {
    assert_eq!(Scalar::from_u64(6).mul(&Scalar::from_u64(7)), Scalar::from_u64(42));
    let top = Scalar::from_bytes(&ORDER_LESS_ONE).unwrap();
    // (-1) (-1) = 1 and (-1) 2 = -2
    assert_eq!(top.mul(&top), Scalar::one());
    assert_eq!(top.mul(&Scalar::from_u64(2)).to_bytes(), ORDER_LESS_TWO);
    let half = Scalar::from_bytes(&HALF).unwrap();
    assert_eq!(half.mul(&Scalar::from_u64(2)), Scalar::one());
}

#[test]
fn pow_multiplies_the_base_with_itself() {
    let two = Scalar::from_u64(2);
    assert_eq!(two.pow(10), Scalar::from_u64(1024));
    assert_eq!(two.pow(1), two);
    assert_eq!(two.pow(63), Scalar::from_u64(1 << 63));
    assert_eq!(Scalar::from_u64(7).pow(65).to_bytes(), SEVEN_TO_THE_65);
    assert_eq!(Scalar::from_u64(3).pow(4), Scalar::from_u64(81));
}

#[test]
fn pow_with_exponent_zero_is_one() {
    assert_eq!(Scalar::from_u64(12345).pow(0), Scalar::one());
    assert_eq!(Scalar::zero().pow(0), Scalar::one());
    assert_eq!(Scalar::zero().pow(5), Scalar::zero());
}

#[test]
fn invert_gives_the_inverse_of_every_scalar_but_zero() {
    assert_eq!(Scalar::zero().invert(), None);
    assert_eq!(Scalar::one().invert(), Some(Scalar::one()));
    assert_eq!(Scalar::from_u64(2).invert().map(|s| s.to_bytes()), Some(HALF));
    let mut rng = rand::thread_rng();
    for _ in 0..20 {
        let x = Scalar::random(&mut rng);
        if !x.is_zero() {
            let inverse = x.invert().unwrap();
            assert_eq!(x.mul(&inverse), Scalar::one());
        }
    }
}

#[test]
fn is_zero_holds_of_zero_alone() {
    assert!(Scalar::zero().is_zero());
    assert!(!Scalar::one().is_zero());
    assert!(!Scalar::from_u64(1 << 40).is_zero());
    assert!(!Scalar::from_bytes(&ORDER_LESS_ONE).unwrap().is_zero());
    assert!(Scalar::from_u64(8).sub(&Scalar::from_u64(8)).is_zero());
}

#[test]
fn random_scalars_are_residues_and_differ() {
    let mut rng = rand::thread_rng();
    let a = Scalar::random(&mut rng);
    let b = Scalar::random(&mut rng);
    assert_ne!(a, b);
    assert_eq!(Scalar::from_bytes(&a.to_bytes()), Some(a));
    assert_eq!(Scalar::from_bytes(&b.to_bytes()), Some(b));
}

#[test]
fn arithmetic_agrees_with_the_curve_library() {
    let a = sm2::Scalar::from(0xdead_beef_u64);
    let b = sm2::Scalar::from(0x1234_5678_9abc_u64);
    let la = Scalar::from_u64(0xdead_beef);
    let lb = Scalar::from_u64(0x1234_5678_9abc);
    let sum: [u8; 32] = (a + b).to_bytes().into();
    let difference: [u8; 32] = (a - b).to_bytes().into();
    let product: [u8; 32] = (a * b).to_bytes().into();
    let inverse: [u8; 32] = a.invert().unwrap().to_bytes().into();
    assert_eq!(la.add(&lb).to_bytes(), sum);
    assert_eq!(la.sub(&lb).to_bytes(), difference);
    assert_eq!(la.mul(&lb).to_bytes(), product);
    assert_eq!(la.invert().unwrap().to_bytes(), inverse);
}
