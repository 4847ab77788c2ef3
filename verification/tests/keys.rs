use group_core::create_keypair;
use group_core::keypair_from_scalar;
use group_core::CurveError;
use group_core::Point;
use group_core::PrivateKey;
use group_core::PublicKey;
use group_core::Scalar;

#[test]
fn keypair_public_point_is_the_base_point_times_the_private_scalar() {
    for _ in 0..4 {
        let (public, private) = create_keypair();
        assert!(public.point == Point::from_scalar(&private.scalar));
        assert!(public.point == Point::generator().mul(&private.scalar));
    }
}

#[test]
fn keypair_of_a_given_scalar() {
    let (public, private) = keypair_from_scalar(Scalar::from_u32(3));
    assert!(private.scalar == Scalar::from_u32(3));
    assert!(public.point == Point::generator() + Point::generator() + Point::generator());
    let (none, zero) = keypair_from_scalar(Scalar::from_u32(0));
    assert!(zero.scalar == Scalar::from_u32(0));
    assert!(none.point == Point::infinity());
}

#[test]
fn keypairs_differ_from_call_to_call() {
    let (public_a, private_a) = create_keypair();
    let (public_b, private_b) = create_keypair();
    assert!(private_a != private_b);
    assert!(public_a != public_b);
}

#[test]
fn public_key_wire_form_is_the_point_encoding() {
    let (public, _) = create_keypair();
    assert_eq!(public.to_bytes(), public.point.to_bytes());
    let back = PublicKey::from_bytes(&public.to_bytes()).ok().unwrap();
    assert!(back == public);
    assert!(back.point == public.point);
}

#[test]
fn private_key_wire_form_is_the_scalar_encoding() {
    let (_, private) = create_keypair();
    assert_eq!(private.to_bytes(), private.scalar.to_bytes());
    assert_eq!(private.to_bytes().len(), 32);
    let back = PrivateKey::from_bytes(&private.to_bytes()).ok().unwrap();
    assert!(back == private);
}

#[test]
fn keys_compare_by_what_they_hold() {
    let a = PrivateKey { scalar: Scalar::from_u32(5) };
    let b = PrivateKey { scalar: Scalar::from_u32(2) + Scalar::from_u32(3) };
    let c = PrivateKey { scalar: Scalar::from_u32(6) };
    assert!(a == b);
    assert!(a != c);
    let p = PublicKey { point: Point::from_scalar(&a.scalar) };
    let q = PublicKey { point: Point::from_scalar(&b.scalar) };
    let r = PublicKey { point: Point::from_scalar(&c.scalar) };
    assert!(p == q);
    assert!(p != r);
}

#[test]
fn public_key_from_bytes_refuses_what_is_no_point() {
    assert!(matches!(PublicKey::from_bytes(&[0u8; 97]), Err(CurveError::DecodeError)));
    assert!(matches!(PublicKey::from_bytes(&[0u8; 48]), Err(CurveError::DecodeError)));
    let mut bytes = Point::generator().to_bytes();
    bytes[50] ^= 4;
    assert!(matches!(PublicKey::from_bytes(&bytes), Err(CurveError::DecodeError)));
}

#[test]
fn private_key_from_bytes_refuses_what_is_no_scalar() {
    assert!(matches!(PrivateKey::from_bytes(&[255u8; 32]), Err(CurveError::DecodeError)));
    assert!(matches!(PrivateKey::from_bytes(&[0u8; 31]), Err(CurveError::DecodeError)));
    assert!(matches!(PrivateKey::from_bytes(&[0u8; 97]), Err(CurveError::DecodeError)));
}

#[test]
fn public_key_of_a_known_private_key() {
    let private = PrivateKey::from_bytes(&Scalar::from_u32(3).to_bytes()).ok().unwrap();
    let public = PublicKey { point: Point::from_scalar(&private.scalar) };
    let expected = Point::generator() + Point::generator() + Point::generator();
    assert!(public.point == expected);
}
