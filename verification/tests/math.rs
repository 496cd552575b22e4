use player_app::math::{Scalar, Vec2, Vec3, ONE_BITS, ZERO_BITS};

#[test]
fn zero_and_one_have_their_bit_patterns() {
    assert_eq!(ZERO_BITS, 0.0f32.to_bits());
    assert_eq!(ONE_BITS, 1.0f32.to_bits());
    assert_eq!(ONE_BITS, 0x3f80_0000);
}

#[test]
fn a_scalar_gives_back_the_bits_it_was_made_from() {
    for x in [0.0f32, -0.0, 1.0, 1.2, 3.4, 5.6, -7.25, f32::MAX, f32::MIN_POSITIVE, f32::INFINITY] {
        let scalar = Scalar::from_bits(x.to_bits());
        assert_eq!(scalar.bits, x.to_bits());
        assert_eq!(scalar.to_bits(), x.to_bits());
        assert_eq!(f32::from_bits(scalar.to_bits()), x);
    }
}

#[test]
fn equality_is_by_bits() {
    let zero = Scalar::from_bits(0.0f32.to_bits());
    let minus_zero = Scalar::from_bits((-0.0f32).to_bits());
    assert_ne!(zero, minus_zero);
    let nan = Scalar::from_bits(f32::NAN.to_bits());
    assert_eq!(nan, nan);
}

#[test]
fn splat_repeats_one_scalar() {
    let one = Scalar::from_bits(ONE_BITS);
    assert_eq!(Vec3::splat(ONE_BITS), Vec3::new(one, one, one));
    assert_eq!(Vec3::splat(ONE_BITS), Vec3 { x: one, y: one, z: one });
}

#[test]
fn xy_drops_the_third_component() {
    let x = Scalar::from_bits(1.2f32.to_bits());
    let y = Scalar::from_bits(3.4f32.to_bits());
    let z = Scalar::from_bits(5.6f32.to_bits());
    assert_eq!(Vec3::new(x, y, z).xy(), Vec2::new(x, y));
    assert_eq!(Vec2::new(x, y), Vec2 { x, y });
    assert_ne!(Vec3::new(x, y, z).xy(), Vec2::new(y, x));
}
