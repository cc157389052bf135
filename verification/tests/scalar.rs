use lignum::scalar::append_decimal;
use lignum::scalar::NANOS_PER_UNIT;
use lignum::transform::Transform;
use lignum::Angle;
use lignum::Scalar;

fn s(v: f64) -> Scalar {
    Scalar::from_nanos((v * 1e9).round() as i64)
}

fn n(nanos: i64) -> Scalar {
    Scalar::from_nanos(nanos)
}

#[test]
fn scalars_are_made_of_billionths() {
    assert_eq!(NANOS_PER_UNIT, 1_000_000_000);
    assert_eq!(Scalar::from_int(5).nanos(), 5_000_000_000);
    assert_eq!(Scalar::from_int(-5).nanos, -5_000_000_000);
    assert_eq!(Scalar::from_int(i32::MAX).nanos, 2_147_483_647_000_000_000);
    assert_eq!(Scalar::from_int(i32::MIN).nanos, -2_147_483_648_000_000_000);
    assert_eq!(Scalar::zero(), n(0));
    assert_eq!(Scalar::one(), n(1_000_000_000));
    assert_eq!(s(0.25), n(250_000_000));
}

#[test]
fn sums_and_differences_saturate() {
    assert_eq!(s(1.5).add(s(2.25)), s(3.75));
    assert_eq!(s(1.5).sub(s(2.25)), s(-0.75));
    assert_eq!(n(i64::MAX).add(n(1)), n(i64::MAX));
    assert_eq!(n(i64::MIN).add(n(-1)), n(i64::MIN));
    assert_eq!(n(i64::MAX).sub(n(-1)), n(i64::MAX));
    assert_eq!(n(i64::MIN).sub(n(1)), n(i64::MIN));
    assert_eq!(n(i64::MIN).sub(n(i64::MIN)), n(0));
    assert_eq!(s(2.0).neg(), s(-2.0));
    assert_eq!(n(i64::MIN).neg(), n(i64::MAX));
    assert_eq!(n(i64::MAX).neg(), n(-i64::MAX));
    assert_eq!(s(-2.5).abs(), s(2.5));
    assert_eq!(s(2.5).abs(), s(2.5));
    assert_eq!(n(i64::MIN).abs(), n(i64::MAX));
}

#[test]
fn products_round_to_the_nearest_billionth() {
    assert_eq!(s(2.0).mul(s(3.0)), s(6.0));
    assert_eq!(s(-2.0).mul(s(3.5)), s(-7.0));
    assert_eq!(s(0.5).mul(s(0.5)), s(0.25));
    assert_eq!(n(1).mul(n(500_000_000)), n(1));
    assert_eq!(n(1).mul(n(499_999_999)), n(0));
    assert_eq!(n(-1).mul(n(500_000_000)), n(-1));
    assert_eq!(n(-1).mul(n(499_999_999)), n(0));
    assert_eq!(n(3).mul(n(500_000_000)), n(2));
    assert_eq!(n(i64::MAX).mul(s(2.0)), n(i64::MAX));
    assert_eq!(n(i64::MAX).mul(s(-2.0)), n(i64::MIN));
    assert_eq!(n(i64::MIN).mul(n(i64::MIN)), n(i64::MAX));
    assert_eq!(n(i64::MIN).mul(s(1.0)), n(i64::MIN));
    assert_eq!(n(i64::MAX).mul(s(1.0)), n(i64::MAX));
    assert_eq!(n(i64::MIN).mul(s(0.0)), n(0));
}

#[test]
fn quotients_round_to_the_nearest_billionth() {
    assert_eq!(s(6.0).div(s(3.0)), s(2.0));
    assert_eq!(s(1.0).div(s(3.0)), n(333_333_333));
    assert_eq!(s(2.0).div(s(3.0)), n(666_666_667));
    assert_eq!(s(-2.0).div(s(3.0)), n(-666_666_667));
    assert_eq!(s(2.0).div(s(-3.0)), n(-666_666_667));
    assert_eq!(s(-2.0).div(s(-3.0)), n(666_666_667));
    assert_eq!(s(1.0).div(s(2.0)), s(0.5));
    assert_eq!(n(1).div(s(2.0)), n(1));
    assert_eq!(n(1).div(s(2.000000001)), n(0));
    assert_eq!(s(5.0).div(s(0.0)), n(i64::MAX));
    assert_eq!(s(-5.0).div(s(0.0)), n(i64::MIN));
    assert_eq!(s(0.0).div(s(0.0)), n(0));
    assert_eq!(n(i64::MAX).div(n(1)), n(i64::MAX));
    assert_eq!(n(i64::MIN).div(n(1)), n(i64::MIN));
    assert_eq!(n(i64::MIN).div(n(-1)), n(i64::MAX));
    assert_eq!(n(i64::MIN).div(n(i64::MIN)), s(1.0));
}

#[test]
fn square_roots_round_down() {
    assert_eq!(s(4.0).sqrt(), s(2.0));
    assert_eq!(s(2.0).sqrt(), n(1_414_213_562));
    assert_eq!(s(0.25).sqrt(), s(0.5));
    assert_eq!(s(0.0).sqrt(), s(0.0));
    assert_eq!(s(-4.0).sqrt(), s(0.0));
    assert_eq!(n(1).sqrt(), n(31_622));
    assert_eq!(n(i64::MAX).sqrt(), n(96_038_388_349_944));
    assert_eq!(s(1e9).sqrt(), n(31_622_776_601_683));
}

#[test]
fn scalars_are_compared_and_clamped() {
    assert_eq!(s(1.0).min(s(2.0)), s(1.0));
    assert_eq!(s(2.0).min(s(1.0)), s(1.0));
    assert_eq!(s(1.0).max(s(2.0)), s(2.0));
    assert_eq!(s(-1.0).max(s(-2.0)), s(-1.0));
    assert_eq!(s(5.0).clamp(s(-1.0), s(1.0)), s(1.0));
    assert_eq!(s(-5.0).clamp(s(-1.0), s(1.0)), s(-1.0));
    assert_eq!(s(0.5).clamp(s(-1.0), s(1.0)), s(0.5));
    assert_eq!(s(0.0).clamp(s(2.0), s(1.0)), s(2.0));
    assert!(s(1.0).lt(s(2.0)));
    assert!(!s(2.0).lt(s(2.0)));
    assert!(s(2.0).le(s(2.0)));
    assert!(!s(3.0).le(s(2.0)));
    assert!(s(0.0).is_zero());
    assert!(!n(1).is_zero());
    assert!(n(-1).is_negative());
    assert!(!n(0).is_negative());
}

#[test]
fn scalars_are_written_in_decimal() {
    let cases: [(i64, &str); 16] = [
        (0, "0"),
        (1_000_000_000, "1"),
        (10_000_000_000, "10"),
        (-10_000_000_000, "-10"),
        (500_000_000, "0.5"),
        (-500_000_000, "-0.5"),
        (2_250_000_000, "2.25"),
        (1, "0.000000001"),
        (-1, "-0.000000001"),
        (100, "0.0000001"),
        (1_000_000_001, "1.000000001"),
        (123_456_789_012, "123.456789012"),
        (120_030_000_000, "120.03"),
        (999_999_999, "0.999999999"),
        (i64::MAX, "9223372036.854775807"),
        (i64::MIN, "-9223372036.854775808"),
    ];
    for (nanos, text) in cases {
        assert_eq!(n(nanos).to_text(), text);
        let mut out = String::from("x=");
        n(nanos).append_text(&mut out);
        assert_eq!(out, format!("x={}", text));
    }
    let mut digits = String::from("#");
    append_decimal(&mut digits, 0);
    append_decimal(&mut digits, 7);
    append_decimal(&mut digits, 1090);
    append_decimal(&mut digits, u64::MAX);
    assert_eq!(digits, "#07109018446744073709551615");
}

#[test]
fn angles_carry_their_cosine_and_sine() {
    let a = Angle::new(s(1.0), s(0.6), s(0.8));
    assert_eq!((a.radians, a.cos, a.sin), (s(1.0), s(0.6), s(0.8)));
    let zero = Angle::zero();
    assert_eq!((zero.radians, zero.cos, zero.sin), (s(0.0), s(1.0), s(0.0)));
}

fn t(a: f64, b: f64, c: f64, d: f64, e: f64, f: f64) -> Transform {
    Transform::new(s(a), s(b), s(c), s(d), s(e), s(f))
}

#[test]
fn transforms_compose_by_the_matrix_product() {
    let m = t(1.0, 2.0, 3.0, 4.0, 5.0, 6.0);
    let k = t(7.0, 8.0, 9.0, 10.0, 11.0, 12.0);
    assert_eq!(m.compose(k), t(31.0, 46.0, 39.0, 58.0, 52.0, 76.0));
    assert_eq!(k.compose(m), t(25.0, 28.0, 57.0, 64.0, 100.0, 112.0));
    assert_eq!(m.compose(Transform::identity()), m);
    assert_eq!(Transform::identity().compose(m), m);
    assert_eq!(Transform::identity(), t(1.0, 0.0, 0.0, 1.0, 0.0, 0.0));
    assert!(Transform::identity().is_identity());
    assert!(!m.is_identity());
    assert!(!t(1.0, 0.0, 0.0, 1.0, 0.0, 0.000000001).is_identity());
    assert_eq!(Transform::translation(s(5.0), s(6.0)), t(1.0, 0.0, 0.0, 1.0, 5.0, 6.0));
    assert_eq!(Transform::scaling(s(2.0), s(3.0)), t(2.0, 0.0, 0.0, 3.0, 0.0, 0.0));
    assert_eq!(
        Transform::rotation(Angle::new(s(1.0), s(0.6), s(0.8))),
        t(0.6, 0.8, -0.8, 0.6, 0.0, 0.0)
    );
}

#[test]
fn transforms_send_points() {
    let m = t(1.0, 2.0, 3.0, 4.0, 5.0, 6.0);
    assert_eq!(m.apply(s(10.0), s(100.0)), (s(315.0), s(426.0)));
    assert_eq!(Transform::identity().apply(s(-1.5), s(2.5)), (s(-1.5), s(2.5)));
    assert_eq!(Transform::translation(s(5.0), s(6.0)).apply(s(1.0), s(1.0)), (s(6.0), s(7.0)));
    let quarter = Transform::rotation(Angle::new(s(1.5707963267948966), s(0.0), s(1.0)));
    assert_eq!(quarter.apply(s(1.0), s(0.0)), (s(0.0), s(1.0)));
}

#[test]
fn translate_then_scale_is_one_transform() {
    let direct = t(2.0, 0.0, 0.0, 3.0, 5.0, 6.0);
    let shift = Transform::translation(s(5.0), s(6.0));
    let scale = Transform::scaling(s(2.0), s(3.0));
    assert_eq!(shift.compose(scale), direct);
    assert_eq!(Transform::identity().compose(shift).compose(scale), direct);
    for m in [
        t(1.0, 2.0, 3.0, 4.0, 5.0, 6.0),
        t(0.1, -0.7, 1e-9, 123456.789, -5.5, 0.0),
        Transform::new(
            Scalar::from_nanos(i64::MAX),
            Scalar::from_nanos(i64::MIN),
            s(1.0),
            s(-1.0),
            Scalar::from_nanos(i64::MAX),
            s(0.0),
        ),
    ] {
        for (tx, ty, sx, sy) in [(5.0, 6.0, 2.0, 3.0), (-0.3, 1e8, 0.333333333, -7.25)] {
            let shift = Transform::translation(s(tx), s(ty));
            let scale = Transform::scaling(s(sx), s(sy));
            assert_eq!(m.compose(shift).compose(scale), m.compose(shift.compose(scale)));
            assert_eq!(m.compose(shift).compose(scale), m.compose(t(sx, 0.0, 0.0, sy, tx, ty)));
        }
    }
}

#[test]
fn fused_sums_round_and_saturate_once() {
    let zero = Scalar::zero();
    let half = n(500_000_000);
    // Two halves of a billionth make one billionth, not two.
    assert_eq!(Scalar::fused(n(1), half, n(1), half, zero), n(1));
    assert_eq!(n(1).mul(half).add(n(1).mul(half)), n(2));
    // A product beyond the range comes back where the addend brings it back.
    let far = n(6_000_000_000_000_000_000);
    assert_eq!(Scalar::fused(Scalar::from_int(2), far, zero, zero, far.neg()), far);
    assert_eq!(Scalar::from_int(2).mul(far).add(far.neg()), n(i64::MAX - 6_000_000_000_000_000_000));
    // Where the sum itself leaves the range, the end of the range is the result.
    assert_eq!(Scalar::fused(Scalar::from_int(2), far, zero, zero, far), n(i64::MAX));
    assert_eq!(Scalar::fused(Scalar::from_int(-2), far, zero, zero, far.neg()), n(i64::MIN));
    assert_eq!(Scalar::fused(n(i64::MIN), n(i64::MIN), n(i64::MIN), n(i64::MIN), n(i64::MAX)), n(i64::MAX));
    // Plain cases.
    assert_eq!(Scalar::fused(s(1.5), s(2.0), s(-0.5), s(4.0), s(10.0)), s(11.0));
    assert_eq!(Scalar::fused(s(-1.5), s(2.0), s(0.5), s(4.0), s(-10.0)), s(-11.0));
    assert_eq!(Scalar::fused(n(-1), half, zero, zero, zero), n(-1));
    assert_eq!(Scalar::fused(n(-1), n(499_999_999), zero, zero, zero), zero);
}

#[test]
fn a_far_point_is_sent_back_into_range() {
    let far = n(6_000_000_000_000_000_000);
    let m = Transform::new(Scalar::from_int(2), Scalar::zero(), Scalar::zero(), Scalar::from_int(-2), far.neg(), far);
    assert_eq!(m.apply(far, far), (far, far.neg()));
}

#[test]
fn two_thirds_of_the_way_stays_between_the_ends() {
    assert_eq!(s(0.0).two_thirds_toward(s(3.0)), s(2.0));
    assert_eq!(s(6.0).two_thirds_toward(s(3.0)), s(4.0));
    assert_eq!(s(-1.0).two_thirds_toward(s(-1.0)), s(-1.0));
    assert_eq!(n(0).two_thirds_toward(n(1)), n(1));
    assert_eq!(n(0).two_thirds_toward(n(-1)), n(-1));
    assert_eq!(n(1).two_thirds_toward(n(0)), n(0));
    assert_eq!(n(0).two_thirds_toward(n(1_000_000_000)), n(666_666_667));
    assert_eq!(n(i64::MAX).two_thirds_toward(n(i64::MAX)), n(i64::MAX));
    assert_eq!(n(i64::MIN).two_thirds_toward(n(i64::MIN)), n(i64::MIN));
    assert_eq!(n(i64::MIN).two_thirds_toward(n(i64::MAX)), n(3_074_457_345_618_258_602));
    assert_eq!(n(i64::MAX).two_thirds_toward(n(i64::MIN)), n(-3_074_457_345_618_258_603));
}
