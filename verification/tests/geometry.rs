use lignum::geometry::arc_point;
use lignum::geometry::clamp_radii;
use lignum::geometry::clamp_radius;
use lignum::geometry::ellipse_point;
use lignum::geometry::expand_radii;
use lignum::geometry::length;
use lignum::geometry::tangent_join;
use lignum::geometry::CornerRadii;
use lignum::geometry::TangentJoin;
use lignum::geometry::COLLINEAR_NANOS;
use lignum::geometry::FULL_TURN_NANOS;
use lignum::geometry::HALF_TURN_NANOS;
use lignum::Angle;
use lignum::Scalar;

fn s(v: f64) -> Scalar {
    Scalar::from_nanos((v * 1e9).round() as i64)
}

fn corners(a: f64, b: f64, c: f64, d: f64) -> CornerRadii {
    CornerRadii { top_left: s(a), top_right: s(b), bottom_right: s(c), bottom_left: s(d) }
}

#[test]
fn turns_are_measured_in_billionths_of_a_radian() {
    assert_eq!(HALF_TURN_NANOS, (std::f64::consts::PI * 1e9).round() as i64);
    assert_eq!(FULL_TURN_NANOS, (std::f64::consts::TAU * 1e9).round() as i64);
    assert_eq!(COLLINEAR_NANOS, 1_000);
}

#[test]
fn long_and_short_edges_are_rounded_alike() {
    let join = tangent_join(s(0.0), s(0.0), s(200000.0), s(0.0), s(200000.0), s(200000.0), s(5.0));
    assert_eq!(
        join,
        TangentJoin::Round {
            start_x: s(199995.0),
            start_y: s(0.0),
            end_x: s(200000.0),
            end_y: s(5.0),
            center_x: s(199995.0),
            center_y: s(5.0),
            radius: s(5.0),
            ccw: false,
        }
    );
    let n = Scalar::from_nanos;
    let far = n(9_000_000_000_000_000_000);
    let join = tangent_join(far.neg(), s(7.0), far, s(7.0), far, far.neg(), s(1.5));
    assert_eq!(
        join,
        TangentJoin::Round {
            start_x: n(8_999_999_998_500_000_000),
            start_y: s(7.0),
            end_x: far,
            end_y: s(5.5),
            center_x: n(8_999_999_998_500_000_000),
            center_y: s(5.5),
            radius: s(1.5),
            ccw: true,
        }
    );
    let join = tangent_join(n(0), n(0), n(30_000), n(0), n(30_000), n(30_000), n(10_000));
    assert_eq!(
        join,
        TangentJoin::Round {
            start_x: n(20_000),
            start_y: n(0),
            end_x: n(30_000),
            end_y: n(10_000),
            center_x: n(20_000),
            center_y: n(10_000),
            radius: n(10_000),
            ccw: false,
        }
    );
    assert_eq!(length(s(200000.0), s(0.0)), s(200000.0));
    assert_eq!(length(s(300000.0), s(-400000.0)), s(500000.0));
    assert_eq!(length(n(30_000), n(0)), n(30_000));
    assert_eq!(length(n(3), n(4)), n(5));
    assert_eq!(length(n(i64::MAX), n(0)), n(i64::MAX));
    assert_eq!(length(n(i64::MIN), n(0)), n(i64::MAX));
    assert_eq!(length(n(i64::MAX), n(i64::MAX)), n(i64::MAX));
    assert_eq!(length(n(6_000_000_000_000_000_000), n(6_000_000_000_000_000_000)), n(8_485_281_374_238_570_292));
}

#[test]
fn sharp_and_blunt_corners_touch_where_they_should() {
    for degrees in [0.2_f64, 1.0, 30.0, 60.0, 90.0, 120.0, 150.0, 179.0] {
        let theta = degrees.to_radians();
        let (ux, uy) = (theta.cos(), theta.sin());
        let edge = 1000.0;
        let radius = 2.0;
        let join = tangent_join(s(edge), s(0.0), s(0.0), s(0.0), s(edge * ux), s(edge * uy), s(radius));
        let dist = radius / (theta / 2.0).tan();
        match join {
            TangentJoin::Round { start_x, start_y, end_x, end_y, center_x, center_y, ccw, .. } => {
                let f = |v: Scalar| v.nanos as f64 / 1e9;
                let tolerance = 2e-6 * dist.max(1.0);
                assert!((f(start_x) - dist).abs() < tolerance, "{} {}", degrees, f(start_x) - dist);
                assert!(f(start_y).abs() < tolerance);
                assert!((f(end_x) - dist * ux).abs() < tolerance);
                assert!((f(end_y) - dist * uy).abs() < tolerance);
                assert!((f(center_x) - dist).abs() < tolerance);
                assert!((f(center_y) - radius).abs() < tolerance);
                assert!(ccw);
            }
            TangentJoin::Line { .. } => panic!("the corner can be rounded"),
        }
    }
}

#[test]
fn lengths_are_euclidean() {
    assert_eq!(length(s(3.0), s(4.0)), s(5.0));
    assert_eq!(length(s(-3.0), s(-4.0)), s(5.0));
    assert_eq!(length(s(0.0), s(0.0)), s(0.0));
    assert_eq!(length(s(1.0), s(1.0)), Scalar::from_nanos(1_414_213_562));
}

#[test]
fn a_right_angle_is_rounded_by_a_quarter_circle() {
    let join = tangent_join(s(0.0), s(0.0), s(10.0), s(0.0), s(10.0), s(10.0), s(2.0));
    assert_eq!(
        join,
        TangentJoin::Round {
            start_x: s(8.0),
            start_y: s(0.0),
            end_x: s(10.0),
            end_y: s(2.0),
            center_x: s(8.0),
            center_y: s(2.0),
            radius: s(2.0),
            ccw: false,
        }
    );
    let mirrored = tangent_join(s(0.0), s(0.0), s(10.0), s(0.0), s(10.0), s(-10.0), s(2.0));
    assert_eq!(
        mirrored,
        TangentJoin::Round {
            start_x: s(8.0),
            start_y: s(0.0),
            end_x: s(10.0),
            end_y: s(-2.0),
            center_x: s(8.0),
            center_y: s(-2.0),
            radius: s(2.0),
            ccw: true,
        }
    );
}

#[test]
fn the_arc_of_a_rounded_corner_is_the_shorter_one() {
    let join = tangent_join(s(0.0), s(0.0), s(10.0), s(0.0), s(10.0), s(10.0), s(5.0));
    match join {
        TangentJoin::Round { start_x, start_y, end_x, end_y, center_x, center_y, radius, ccw } => {
            assert_eq!((start_x, start_y), (s(5.0), s(0.0)));
            assert_eq!((end_x, end_y), (s(10.0), s(5.0)));
            assert_eq!((center_x, center_y), (s(5.0), s(5.0)));
            assert_eq!(radius, s(5.0));
            let from = (start_y.nanos as f64 - center_y.nanos as f64)
                .atan2(start_x.nanos as f64 - center_x.nanos as f64);
            let to = (end_y.nanos as f64 - center_y.nanos as f64)
                .atan2(end_x.nanos as f64 - center_x.nanos as f64);
            let sweep = if ccw { from - to } else { to - from };
            assert!((sweep - std::f64::consts::FRAC_PI_2).abs() < 1e-9);
        }
        TangentJoin::Line { .. } => panic!("the corner can be rounded"),
    }
    for (next_y, runs_against) in [(10.0, false), (-10.0, true)] {
        let join = tangent_join(s(0.0), s(0.0), s(10.0), s(0.0), s(10.0), s(next_y), s(1.0));
        assert!(matches!(join, TangentJoin::Round { ccw, .. } if ccw == runs_against));
    }
}

#[test]
fn a_sharp_corner_is_rounded_further_out() {
    let join = tangent_join(s(0.0), s(0.0), s(4.0), s(3.0), s(8.0), s(0.0), s(1.0));
    match join {
        TangentJoin::Round { start_x, start_y, end_x, end_y, center_x, center_y, radius, ccw } => {
            assert!(ccw);
            assert_eq!(radius, s(1.0));
            let near = |a: Scalar, b: f64| (a.nanos as f64 / 1e9 - b).abs() < 1e-6;
            assert!(near(start_x, 4.0 - 0.8 * 0.75));
            assert!(near(start_y, 3.0 - 0.6 * 0.75));
            assert!(near(end_x, 4.0 + 0.8 * 0.75));
            assert!(near(end_y, 3.0 - 0.6 * 0.75));
            assert!(near(center_x, 4.0));
            assert!(near(center_y, 3.0 - 1.25));
        }
        TangentJoin::Line { .. } => panic!("the corner can be rounded"),
    }
}

#[test]
fn degenerate_corners_stay_corners() {
    let corner = TangentJoin::Line { x: s(10.0), y: s(0.0) };
    assert_eq!(tangent_join(s(0.0), s(0.0), s(10.0), s(0.0), s(10.0), s(10.0), s(0.0)), corner);
    assert_eq!(tangent_join(s(10.0), s(0.0), s(10.0), s(0.0), s(10.0), s(10.0), s(2.0)), corner);
    assert_eq!(tangent_join(s(0.0), s(0.0), s(10.0), s(0.0), s(10.0), s(0.0), s(2.0)), corner);
    assert_eq!(tangent_join(s(10.0), s(0.0), s(10.0), s(0.0), s(10.0), s(0.0), s(0.0)), corner);
    assert_eq!(tangent_join(s(0.0), s(0.0), s(10.0), s(0.0), s(20.0), s(0.0), s(2.0)), corner);
    assert_eq!(tangent_join(s(0.0), s(0.0), s(10.0), s(0.0), s(0.0), s(0.0), s(2.0)), corner);
    let almost = Scalar::from_nanos(10_000_000_001);
    assert!(matches!(
        tangent_join(almost, s(0.0), s(10.0), s(0.0), s(10.0), s(10.0), s(2.0)),
        TangentJoin::Round { start_x, ccw: true, .. } if start_x == s(12.0)
    ));
    assert!(matches!(
        tangent_join(s(0.0), s(0.0), s(10.0), s(0.0), s(10.0), s(10.0), s(-2.0)),
        TangentJoin::Round { .. }
    ));
}

#[test]
fn arcs_end_on_the_circle() {
    let a = Angle::new(s(1.0), s(0.6), s(0.8));
    assert_eq!(arc_point(s(10.0), s(20.0), s(5.0), a), (s(13.0), s(24.0)));
    assert_eq!(arc_point(s(10.0), s(20.0), s(0.0), a), (s(10.0), s(20.0)));
    assert_eq!(arc_point(s(10.0), s(20.0), s(-5.0), a), (s(7.0), s(16.0)));
    assert_eq!(arc_point(s(1.0), s(2.0), s(3.0), Angle::zero()), (s(4.0), s(2.0)));
}

#[test]
fn ellipses_end_on_the_turned_ellipse() {
    let quarter = Angle::new(s(1.5707963267948966), s(0.0), s(1.0));
    let zero = Angle::zero();
    assert_eq!(ellipse_point(s(10.0), s(20.0), s(4.0), s(2.0), zero, zero), (s(14.0), s(20.0)));
    assert_eq!(ellipse_point(s(10.0), s(20.0), s(4.0), s(2.0), zero, quarter), (s(10.0), s(22.0)));
    assert_eq!(ellipse_point(s(10.0), s(20.0), s(4.0), s(2.0), quarter, zero), (s(10.0), s(24.0)));
    assert_eq!(ellipse_point(s(10.0), s(20.0), s(4.0), s(2.0), quarter, quarter), (s(8.0), s(20.0)));
    let a = Angle::new(s(1.0), s(0.6), s(0.8));
    assert_eq!(
        ellipse_point(s(1.0), s(1.0), s(10.0), s(5.0), a, a),
        (s(1.0 + 6.0 * 0.6 - 4.0 * 0.8), s(1.0 + 6.0 * 0.8 + 4.0 * 0.6))
    );
}

#[test]
fn radii_expand_to_four_corners() {
    assert_eq!(expand_radii(&[]), corners(0.0, 0.0, 0.0, 0.0));
    assert_eq!(expand_radii(&[s(3.0)]), corners(3.0, 3.0, 3.0, 3.0));
    assert_eq!(expand_radii(&[s(1.0), s(2.0)]), corners(1.0, 2.0, 1.0, 2.0));
    assert_eq!(expand_radii(&[s(1.0), s(2.0), s(3.0)]), corners(1.0, 2.0, 3.0, 2.0));
    assert_eq!(expand_radii(&[s(1.0), s(2.0), s(3.0), s(4.0)]), corners(1.0, 2.0, 3.0, 4.0));
    assert_eq!(
        expand_radii(&[s(1.0), s(2.0), s(3.0), s(4.0), s(5.0), s(6.0)]),
        corners(1.0, 2.0, 3.0, 4.0)
    );
    assert_eq!(expand_radii(&[s(-1.0)]), corners(-1.0, -1.0, -1.0, -1.0));
}

#[test]
fn radii_are_clamped_to_half_the_smaller_side() {
    assert_eq!(clamp_radius(s(3.0), s(10.0), s(20.0)), s(3.0));
    assert_eq!(clamp_radius(s(8.0), s(10.0), s(20.0)), s(5.0));
    assert_eq!(clamp_radius(s(8.0), s(20.0), s(10.0)), s(5.0));
    assert_eq!(clamp_radius(s(8.0), s(5.0), s(3.0)), s(1.5));
    assert_eq!(clamp_radius(s(8.0), s(-4.0), s(3.0)), s(-2.0));
    assert_eq!(clamp_radius(s(-1.0), s(10.0), s(20.0)), s(-1.0));
    assert_eq!(clamp_radius(Scalar::from_nanos(5), Scalar::from_nanos(3), s(1.0)), Scalar::from_nanos(2));
    for (r, w, h) in [(8.0, 10.0, 20.0), (1.0, 10.0, 20.0), (100.0, 7.0, 3.0)] {
        let clamped = clamp_radii(expand_radii(&[s(r)]), s(w), s(h));
        let expected = r.min(w / 2.0).min(h / 2.0);
        assert_eq!(clamped, corners(expected, expected, expected, expected));
        assert!(clamped.top_left.le(s(w.min(h) / 2.0)));
    }
    assert_eq!(
        clamp_radii(corners(1.0, 9.0, 2.0, 30.0), s(10.0), s(8.0)),
        corners(1.0, 4.0, 2.0, 4.0)
    );
}
