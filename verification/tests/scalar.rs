use group_core::CurveError;
use group_core::Scalar;

const MODULUS_BYTES: [u8; 32] = [
    1, 0, 0, 0, 255, 255, 255, 255, 254, 91, 254, 255, 2, 164, 189, 83, 5, 216, 161, 9, 8, 216, 57,
    51, 72, 125, 157, 41, 83, 167, 237, 115,
];

const MODULUS_MINUS_ONE_BYTES: [u8; 32] = [
    0, 0, 0, 0, 255, 255, 255, 255, 254, 91, 254, 255, 2, 164, 189, 83, 5, 216, 161, 9, 8, 216, 57,
    51, 72, 125, 157, 41, 83, 167, 237, 115,
];

const MODULUS_MINUS_TWO_BYTES: [u8; 32] = [
    255, 255, 255, 255, 254, 255, 255, 255, 254, 91, 254, 255, 2, 164, 189, 83, 5, 216, 161, 9, 8,
    216, 57, 51, 72, 125, 157, 41, 83, 167, 237, 115,
];

const HALF_BYTES: [u8; 32] = [
    1, 0, 0, 128, 255, 255, 255, 127, 255, 45, 255, 127, 1, 210, 222, 169, 2, 236, 208, 4, 4, 236,
    156, 25, 164, 190, 206, 148, 169, 211, 246, 57,
];

fn s(v: u32) -> Scalar {
    Scalar::from_u32(v)
}

#[test]
fn from_u32_encodes_least_significant_byte_first() {
    let mut expected = [0u8; 32];
    expected[0] = 4;
    expected[1] = 3;
    expected[2] = 2;
    expected[3] = 1;
    assert_eq!(s(0x0102_0304).to_bytes(), expected.to_vec());
    assert_eq!(s(0).to_bytes(), vec![0u8; 32]);
    let mut max = [0u8; 32];
    max[0] = 255;
    max[1] = 255;
    max[2] = 255;
    max[3] = 255;
    assert_eq!(s(u32::MAX).to_bytes(), max.to_vec());
}

#[test]
fn multiplicative_identity_is_one() {
    assert!(Scalar::multiplicative_identity() == s(1));
    let mut one = [0u8; 32];
    one[0] = 1;
    assert_eq!(Scalar::multiplicative_identity().to_bytes(), one.to_vec());
    assert!(s(12345) * Scalar::multiplicative_identity() == s(12345));
}

#[test]
fn equality_is_by_value() {
    assert!(s(7) == s(7));
    assert!(s(7) != s(8));
    assert!(s(3) + s(4) == s(7));
    assert!(s(7).clone() == s(7));
}

#[test]
fn add_sub_mul_on_small_values() {
    assert!(s(3) + s(4) == s(7));
    assert!(s(9) - s(4) == s(5));
    assert!(s(6) * s(7) == s(42));
    assert!(s(0) + s(0) == s(0));
    assert!(s(5) * s(0) == s(0));
    assert!(s(u32::MAX) + s(1) != s(0));
    assert_eq!((s(u32::MAX) + s(1)).to_bytes()[4], 1);
}

#[test]
fn sub_wraps_around_the_modulus() {
    assert_eq!((s(5) - s(7)).to_bytes(), MODULUS_MINUS_TWO_BYTES.to_vec());
    assert_eq!((s(0) - s(1)).to_bytes(), MODULUS_MINUS_ONE_BYTES.to_vec());
    assert!((s(0) - s(1)) + s(1) == s(0));
    assert!((s(0) - s(1)) * (s(0) - s(1)) == s(1));
}

#[test]
fn pow_two_to_the_tenth_is_1024() {
    assert!(s(2).pow(10) == s(1024));
}

#[test]
fn pow_zero_is_one_even_of_zero() {
    assert!(s(5).pow(0) == s(1));
    assert!(s(0).pow(0) == s(1));
    assert!(s(0).pow(3) == s(0));
    assert!(s(9).pow(1) == s(9));
    assert!(s(3).pow(20) == s(3_486_784_401));
    assert!(s(2).pow(31) * s(2) == s(u32::MAX) + s(1));
}

#[test]
fn pow_reduces_large_powers() {
    let two_to_the_largest: [u8; 32] = [
        99, 97, 52, 104, 89, 193, 183, 57, 232, 224, 7, 130, 180, 165, 4, 156, 126, 50, 154, 240,
        137, 153, 31, 33, 132, 69, 198, 130, 0, 71, 231, 88,
    ];
    assert_eq!(s(2).pow(u32::MAX).to_bytes(), two_to_the_largest.to_vec());
    let three_to_the_255: [u8; 32] = [
        27, 255, 128, 5, 125, 46, 30, 178, 205, 42, 243, 78, 42, 135, 163, 138, 112, 113, 217, 218,
        209, 151, 55, 26, 11, 198, 195, 183, 81, 126, 191, 22,
    ];
    assert_eq!(s(3).pow(255).to_bytes(), three_to_the_255.to_vec());
}

#[test]
fn inverse_of_zero_is_invalid_operand() {
    match Scalar::from_u32(0).inverse() {
        Err(e) => assert_eq!(e, CurveError::InvalidOperand),
        Ok(_) => panic!("zero has no inverse"),
    }
}

#[test]
fn inverse_times_self_is_one() {
    for v in [1u32, 2, 3, 1024, u32::MAX] {
        let inv = s(v).inverse().ok().unwrap();
        assert!(s(v) * inv == Scalar::multiplicative_identity());
    }
    let half = s(2).inverse().ok().unwrap();
    assert_eq!(half.to_bytes(), HALF_BYTES.to_vec());
    assert!(half != s(2));
    assert!(s(1).inverse().ok().unwrap() == s(1));
}

#[test]
fn scalar_round_trips_through_bytes() {
    for v in [0u32, 1, 2, 255, 256, 65_537, u32::MAX] {
        let bytes = s(v).to_bytes();
        assert_eq!(bytes.len(), 32);
        let back = Scalar::from_bytes(&bytes).ok().unwrap();
        assert!(back == s(v));
        assert_eq!(back.to_bytes(), bytes);
    }
    let big = s(0) - s(1);
    let back = Scalar::from_bytes(&big.to_bytes()).ok().unwrap();
    assert!(back == big);
}

#[test]
fn from_bytes_takes_the_largest_value() {
    let top = Scalar::from_bytes(&MODULUS_MINUS_ONE_BYTES).ok().unwrap();
    assert!(top == s(0) - s(1));
    assert_eq!(top.to_bytes(), MODULUS_MINUS_ONE_BYTES.to_vec());
}

#[test]
fn from_bytes_refuses_values_from_the_modulus_on() {
    assert!(matches!(Scalar::from_bytes(&MODULUS_BYTES), Err(CurveError::DecodeError)));
    let mut above = MODULUS_BYTES;
    above[0] = 2;
    assert!(matches!(Scalar::from_bytes(&above), Err(CurveError::DecodeError)));
    assert!(matches!(Scalar::from_bytes(&[255u8; 32]), Err(CurveError::DecodeError)));
}

#[test]
fn scalar_from_bytes_refuses_wrong_lengths() {
    assert!(matches!(Scalar::from_bytes(&[]), Err(CurveError::DecodeError)));
    assert!(matches!(Scalar::from_bytes(&[1u8; 31]), Err(CurveError::DecodeError)));
    assert!(matches!(Scalar::from_bytes(&[0u8; 33]), Err(CurveError::DecodeError)));
    let mut long = s(5).to_bytes();
    long.push(0);
    assert!(matches!(Scalar::from_bytes(&long), Err(CurveError::DecodeError)));
}

#[test]
fn addition_is_associative_and_commutative() {
    let a = s(0) - s(17);
    let b = s(4_000_000_000);
    let c = s(2).inverse().ok().unwrap();
    assert!((a.clone() + b.clone()) + c.clone() == a.clone() + (b.clone() + c.clone()));
    assert!(a.clone() + b.clone() == b + a);
}

#[test]
fn multiplication_distributes_over_addition() {
    let a = s(0) - s(3);
    let b = s(123_456_789);
    let c = s(7).inverse().ok().unwrap();
    let left = a.clone() * (b.clone() + c.clone());
    let right = a.clone() * b + a * c;
    assert!(left == right);
}

#[test]
fn scalar_plus_its_negative_is_zero() {
    for v in [0u32, 1, 99, u32::MAX] {
        let negative = s(0) - s(v);
        assert!(s(v) + negative == s(0));
    }
}

#[test]
fn generate_gives_scalars_that_round_trip() {
    let a = Scalar::generate();
    let b = Scalar::generate();
    assert!(a != b);
    let back = Scalar::from_bytes(&a.to_bytes()).ok().unwrap();
    assert!(back == a);
    assert!(a.clone() - a == s(0));
}
