use lignum::api::CanvasGradient;
use lignum::api::CanvasPattern;
use lignum::api::CompositeOperation;
use lignum::api::FillRule;
use lignum::api::GradientKind;
use lignum::api::ImageSmoothingQuality;
use lignum::api::LineCap;
use lignum::api::LineJoin;
use lignum::api::Paint;
use lignum::api::PatternRepetition;
use lignum::api::TextAlign;
use lignum::api::TextBaseline;
use lignum::backends::cairo::adjust_text_position;
use lignum::backends::cairo::image_surface_from_rgba;
use lignum::backends::cairo::map_composite;
use lignum::backends::cairo::map_fill_rule;
use lignum::backends::cairo::map_line_cap;
use lignum::backends::cairo::map_line_cap_back;
use lignum::backends::cairo::map_line_join;
use lignum::backends::cairo::map_line_join_back;
use lignum::backends::cairo::paint_source;
use lignum::backends::cairo::parse_color;
use lignum::backends::cairo::parse_font;
use lignum::backends::cairo::quadratic_to_cubic;
use lignum::backends::cairo::quarter_turns;
use lignum::backends::cairo::round_rect_path;
use lignum::backends::cairo::smoothing_filter;
use lignum::backends::cairo::CairoFillRule;
use lignum::backends::cairo::CairoLineCap;
use lignum::backends::cairo::CairoLineJoin;
use lignum::backends::cairo::ColorStop;
use lignum::backends::cairo::Filter;
use lignum::backends::cairo::Operator;
use lignum::backends::cairo::Rgba;
use lignum::backends::cairo::Source;
use lignum::backends::cairo::SurfaceData;
use lignum::backends::cairo::TextExtents;
use lignum::backends::recording::PathCommand;
use lignum::Angle;
use lignum::LignumError;
use lignum::Scalar;

fn s(v: f64) -> Scalar {
    Scalar::from_nanos((v * 1e9).round() as i64)
}

fn channel(value: u8) -> Scalar {
    Scalar::from_int(value as i32).div(Scalar::from_int(255))
}

fn rgba(r: u8, g: u8, b: u8, a: u8) -> Rgba {
    Rgba { r: channel(r), g: channel(g), b: channel(b), a: channel(a) }
}

#[test]
fn caps_joins_and_rules_have_cairo_names() {
    assert_eq!(map_line_cap(LineCap::Butt), CairoLineCap::Butt);
    assert_eq!(map_line_cap(LineCap::Round), CairoLineCap::Round);
    assert_eq!(map_line_cap(LineCap::Square), CairoLineCap::Square);
    assert_eq!(map_line_join(LineJoin::Bevel), CairoLineJoin::Bevel);
    assert_eq!(map_line_join(LineJoin::Miter), CairoLineJoin::Miter);
    assert_eq!(map_line_join(LineJoin::Round), CairoLineJoin::Round);
    assert_eq!(map_fill_rule(FillRule::NonZero), CairoFillRule::Winding);
    assert_eq!(map_fill_rule(FillRule::EvenOdd), CairoFillRule::EvenOdd);
    for cap in [LineCap::Butt, LineCap::Round, LineCap::Square] {
        assert_eq!(map_line_cap_back(map_line_cap(cap)), cap);
    }
    for cap in [CairoLineCap::Butt, CairoLineCap::Round, CairoLineCap::Square] {
        assert_eq!(map_line_cap(map_line_cap_back(cap)), cap);
    }
    for join in [LineJoin::Bevel, LineJoin::Miter, LineJoin::Round] {
        assert_eq!(map_line_join_back(map_line_join(join)), join);
    }
    for join in [CairoLineJoin::Bevel, CairoLineJoin::Miter, CairoLineJoin::Round] {
        assert_eq!(map_line_join(map_line_join_back(join)), join);
    }
}

#[test]
fn composite_operations_have_cairo_operators() {
    let table = [
        (CompositeOperation::SourceOver, Operator::Over),
        (CompositeOperation::SourceIn, Operator::In),
        (CompositeOperation::SourceOut, Operator::Out),
        (CompositeOperation::SourceAtop, Operator::Atop),
        (CompositeOperation::DestinationOver, Operator::DestOver),
        (CompositeOperation::DestinationIn, Operator::DestIn),
        (CompositeOperation::DestinationOut, Operator::DestOut),
        (CompositeOperation::DestinationAtop, Operator::DestAtop),
        (CompositeOperation::Lighter, Operator::Add),
        (CompositeOperation::Copy, Operator::Source),
        (CompositeOperation::Xor, Operator::Xor),
        (CompositeOperation::Multiply, Operator::Multiply),
        (CompositeOperation::Screen, Operator::Screen),
        (CompositeOperation::Overlay, Operator::Overlay),
        (CompositeOperation::Darken, Operator::Darken),
        (CompositeOperation::Lighten, Operator::Lighten),
        (CompositeOperation::ColorDodge, Operator::ColorDodge),
        (CompositeOperation::ColorBurn, Operator::ColorBurn),
        (CompositeOperation::HardLight, Operator::HardLight),
        (CompositeOperation::SoftLight, Operator::SoftLight),
        (CompositeOperation::Difference, Operator::Difference),
        (CompositeOperation::Exclusion, Operator::Exclusion),
        (CompositeOperation::Hue, Operator::HslHue),
        (CompositeOperation::Saturation, Operator::HslSaturation),
        (CompositeOperation::Color, Operator::HslColor),
        (CompositeOperation::Luminosity, Operator::HslLuminosity),
    ];
    for (i, (op, operator)) in table.iter().enumerate() {
        assert_eq!(map_composite(*op), *operator);
        for (other, _) in &table[i + 1..] {
            assert_ne!(map_composite(*other), *operator);
        }
        assert_ne!(*operator, Operator::Clear);
    }
}

#[test]
fn smoothing_picks_the_filter() {
    assert_eq!(smoothing_filter(false, ImageSmoothingQuality::Low), Filter::Nearest);
    assert_eq!(smoothing_filter(false, ImageSmoothingQuality::High), Filter::Nearest);
    assert_eq!(smoothing_filter(true, ImageSmoothingQuality::Low), Filter::Fast);
    assert_eq!(smoothing_filter(true, ImageSmoothingQuality::Medium), Filter::Good);
    assert_eq!(smoothing_filter(true, ImageSmoothingQuality::High), Filter::Best);
}

#[test]
fn surfaces_hold_premultiplied_pixels() {
    let data = [255, 0, 0, 255, 10, 20, 30, 128, 200, 100, 50, 0, 1, 255, 3, 1];
    let surface = image_surface_from_rgba(2, 2, Some(&data)).unwrap();
    assert_eq!(
        surface,
        SurfaceData {
            width: 2,
            height: 2,
            stride: 8,
            data: vec![0, 0, 255, 255, 15, 10, 5, 128, 0, 0, 0, 0, 0, 1, 0, 1],
        }
    );
    let empty = image_surface_from_rgba(0, 5, Some(&[])).unwrap();
    assert_eq!(empty, SurfaceData { width: 0, height: 5, stride: 0, data: vec![] });
    let wide = image_surface_from_rgba(u32::MAX, 0, Some(&[])).unwrap();
    assert_eq!(wide.stride, 4 * (u32::MAX as u64));
}

fn other(r: Result<SurfaceData, LignumError>) -> String {
    match r {
        Err(LignumError::Other(text)) => text,
        _ => panic!("an error of the other kind"),
    }
}

#[test]
fn malformed_pixels_are_rejected() {
    assert_eq!(other(image_surface_from_rgba(1, 1, None)), "CanvasImageSource missing RGBA data");
    assert_eq!(
        other(image_surface_from_rgba(1, 1, Some(&[1, 2, 3]))),
        "RGBA buffer length does not match width*height*4"
    );
    assert_eq!(
        other(image_surface_from_rgba(1, 2, Some(&[0; 4]))),
        "RGBA buffer length does not match width*height*4"
    );
    assert_eq!(
        other(image_surface_from_rgba(0, 0, Some(&[0; 4]))),
        "RGBA buffer length does not match width*height*4"
    );
    if usize::BITS <= 64 {
        assert_eq!(
            other(image_surface_from_rgba(u32::MAX, u32::MAX, Some(&[]))),
            "image dimensions overflow"
        );
    }
}

#[test]
fn colours_are_parsed_from_hex() {
    assert_eq!(parse_color("#ff0000"), rgba(255, 0, 0, 255));
    assert_eq!(parse_color("#FF8000"), rgba(255, 128, 0, 255));
    assert_eq!(parse_color("#01Ab9f"), rgba(1, 0xab, 0x9f, 255));
    assert_eq!(parse_color("#11223380"), rgba(0x11, 0x22, 0x33, 0x80));
    assert_eq!(parse_color("#00000000"), rgba(0, 0, 0, 0));
    assert_eq!(parse_color("  #ff0000\t\n"), rgba(255, 0, 0, 255));
    assert_eq!(parse_color("\u{a0}\u{3000}#0000ff\u{2003}\u{85}"), rgba(0, 0, 255, 255));
    assert_eq!(parse_color("#gg0000"), rgba(0, 0, 0, 255));
    assert_eq!(parse_color("#ffzz10"), rgba(255, 0, 16, 255));
    assert_eq!(parse_color("#102030zz"), rgba(16, 32, 48, 255));
    assert_eq!(parse_color("#+f+0+a"), rgba(15, 0, 10, 255));
    assert_eq!(parse_color("#-f0000"), rgba(0, 0, 0, 255));
    assert_eq!(parse_color("#f+0000"), rgba(0, 0, 0, 255));
    assert_eq!(parse_color("#é1234"), rgba(0, 0x12, 0x34, 255));
    assert_eq!(parse_color("#fff"), rgba(0, 0, 0, 255));
    assert_eq!(parse_color("#ff00000"), rgba(0, 0, 0, 255));
    assert_eq!(parse_color("ff0000"), rgba(0, 0, 0, 255));
    assert_eq!(parse_color("# ff0000"), rgba(0, 0, 0, 255));
    assert_eq!(parse_color("red"), rgba(0, 0, 0, 255));
    assert_eq!(parse_color(""), rgba(0, 0, 0, 255));
    assert_eq!(parse_color("#ffffff").r, s(1.0));
    assert_eq!(parse_color("#808080").g, Scalar::from_nanos(501_960_784));
}

#[test]
fn paints_become_sources() {
    let solid = paint_source(&Paint::Color("#ff000080".into()), s(0.5)).unwrap();
    assert_eq!(
        solid,
        Source::Solid(Rgba { r: s(1.0), g: s(0.0), b: s(0.0), a: channel(128).mul(s(0.5)) })
    );

    let mut linear = CanvasGradient::new(GradientKind::Linear {
        x0: s(0.0),
        y0: s(1.0),
        x1: s(2.0),
        y1: s(3.0),
    });
    linear.add_color_stop(s(1.0), "#0000ff");
    linear.add_color_stop(s(0.0), " #ff0000 ");
    linear.add_color_stop(s(0.5), "green");
    let stops = vec![
        ColorStop { offset: s(1.0), color: Rgba { a: s(0.25), ..rgba(0, 0, 255, 255) } },
        ColorStop { offset: s(0.0), color: Rgba { a: s(0.25), ..rgba(255, 0, 0, 255) } },
        ColorStop { offset: s(0.5), color: Rgba { a: s(0.25), ..rgba(0, 0, 0, 255) } },
    ];
    assert_eq!(
        paint_source(&Paint::Gradient(linear), s(0.25)).unwrap(),
        Source::Linear { x0: s(0.0), y0: s(1.0), x1: s(2.0), y1: s(3.0), stops }
    );

    let radial = CanvasGradient::new(GradientKind::Radial {
        x0: s(1.0),
        y0: s(2.0),
        r0: s(3.0),
        x1: s(4.0),
        y1: s(5.0),
        r1: s(6.0),
    });
    assert_eq!(
        paint_source(&Paint::Gradient(radial), s(1.0)).unwrap(),
        Source::Radial {
            x0: s(1.0),
            y0: s(2.0),
            r0: s(3.0),
            x1: s(4.0),
            y1: s(5.0),
            r1: s(6.0),
            stops: vec![],
        }
    );

    let pattern = CanvasPattern { repetition: PatternRepetition::Repeat, transform: None };
    match paint_source(&Paint::Pattern(pattern), s(1.0)) {
        Err(error) => {
            assert!(matches!(error, LignumError::Backend(_)));
            assert_eq!(error.detail(), "Pattern painting is not implemented for Cairo backend yet");
            assert_eq!(error.summary(), "Lignum encountered a backend error");
        }
        Ok(_) => panic!("a pattern cannot be painted with"),
    }
    let other = LignumError::Other("why".to_string());
    assert_eq!(other.summary(), "Lignum encountered an error");
    assert_eq!(other.detail(), "why");
}

#[test]
fn quadratic_curves_become_cubic() {
    assert_eq!(
        quadratic_to_cubic(s(0.0), s(0.0), s(3.0), s(6.0), s(9.0), s(0.0)),
        (s(2.0), s(4.0), s(5.0), s(4.0))
    );
    assert_eq!(
        quadratic_to_cubic(s(0.0), s(0.0), s(1000000.0), s(-1.0), s(0.0), s(0.0)),
        (
            Scalar::from_nanos(666_666_666_666_667),
            Scalar::from_nanos(-666_666_667),
            Scalar::from_nanos(666_666_666_666_667),
            Scalar::from_nanos(-666_666_667)
        )
    );
    assert_eq!(
        quadratic_to_cubic(s(1.0), s(1.0), s(1.0), s(1.0), s(1.0), s(1.0)),
        (s(1.0), s(1.0), s(1.0), s(1.0))
    );
}

#[test]
fn text_is_placed_by_alignment_and_baseline() {
    let extents = TextExtents { width: s(40.0), height: s(10.0), y_bearing: s(-8.0) };
    let at = |align, baseline| adjust_text_position(s(100.0), s(50.0), align, baseline, extents);
    assert_eq!(at(TextAlign::Left, TextBaseline::Alphabetic), (s(100.0), s(50.0)));
    assert_eq!(at(TextAlign::Start, TextBaseline::Top), (s(100.0), s(60.0)));
    assert_eq!(at(TextAlign::Center, TextBaseline::Hanging), (s(80.0), s(58.0)));
    assert_eq!(at(TextAlign::Right, TextBaseline::Middle), (s(60.0), s(55.0)));
    assert_eq!(at(TextAlign::End, TextBaseline::Ideographic), (s(60.0), s(51.0)));
    assert_eq!(at(TextAlign::Center, TextBaseline::Bottom), (s(80.0), s(58.0)));
}

#[test]
fn rounded_rectangles_are_four_quarter_circles() {
    let half = Angle::new(Scalar::from_nanos(3_141_592_654), s(-1.0), s(0.0));
    let three = Angle::new(Scalar::from_nanos(4_712_388_980), s(0.0), s(-1.0));
    let one = Angle::new(Scalar::from_nanos(1_570_796_327), s(0.0), s(1.0));
    assert_eq!(quarter_turns(0), Angle::zero());
    assert_eq!(quarter_turns(1), one);
    assert_eq!(quarter_turns(2), half);
    assert_eq!(quarter_turns(3), three);
    assert_eq!(quarter_turns(4), Angle::zero());
    assert_eq!(quarter_turns(255), three);
    let arc = |x: f64, y: f64, r: f64, from: Angle, to: Angle| PathCommand::Arc {
        x: s(x),
        y: s(y),
        radius: s(r),
        start_angle: from,
        end_angle: to,
        ccw: false,
    };
    assert_eq!(
        round_rect_path(s(10.0), s(20.0), s(100.0), s(50.0), &[s(5.0)]),
        vec![
            arc(15.0, 25.0, 5.0, half, three),
            arc(105.0, 25.0, 5.0, three, Angle::zero()),
            arc(105.0, 65.0, 5.0, Angle::zero(), one),
            arc(15.0, 65.0, 5.0, one, half),
            PathCommand::ClosePath,
        ]
    );
    assert_eq!(
        round_rect_path(s(0.0), s(0.0), s(100.0), s(50.0), &[s(40.0)]),
        vec![
            arc(25.0, 25.0, 25.0, half, three),
            arc(75.0, 25.0, 25.0, three, Angle::zero()),
            arc(75.0, 25.0, 25.0, Angle::zero(), one),
            arc(25.0, 25.0, 25.0, one, half),
            PathCommand::ClosePath,
        ]
    );
    assert_eq!(
        round_rect_path(s(0.0), s(0.0), s(10.0), s(10.0), &[s(1.0), s(2.0), s(3.0), s(9.0)]),
        vec![
            arc(1.0, 1.0, 1.0, half, three),
            arc(8.0, 2.0, 2.0, three, Angle::zero()),
            arc(7.0, 7.0, 3.0, Angle::zero(), one),
            arc(5.0, 5.0, 5.0, one, half),
            PathCommand::ClosePath,
        ]
    );
    assert_eq!(round_rect_path(s(0.0), s(0.0), s(10.0), s(10.0), &[]).len(), 5);
}

#[test]
fn fonts_are_parsed_into_size_and_family() {
    let cases: [(&str, f64, &str); 22] = [
        ("16px Sans", 16.0, "Sans"),
        ("12.5px Helvetica", 12.5, "Helvetica"),
        ("bold 10px serif", 10.0, "serif"),
        ("serif 10px bold", 10.0, "bold"),
        ("", 16.0, "Sans"),
        ("   \t\n", 16.0, "Sans"),
        ("px", 16.0, "Sans"),
        ("abcpx Foo", 16.0, "Foo"),
        ("  20px  ", 20.0, "Sans"),
        ("1e2px", 100.0, "Sans"),
        ("-5px X", -5.0, "X"),
        ("+.5px", 0.5, "Sans"),
        ("3.px", 3.0, "Sans"),
        (".px", 16.0, "Sans"),
        ("+px -px", 16.0, "Sans"),
        ("1.2.3px", 16.0, "Sans"),
        ("0.1234567899px", 0.123456789, "Sans"),
        ("10px 20px", 20.0, "Sans"),
        ("10px zpx", 10.0, "Sans"),
        ("12px\u{3000}Foo\u{a0}", 12.0, "Foo"),
        ("7PX", 16.0, "7PX"),
        ("x", 16.0, "x"),
    ];
    for (font, size, family) in cases {
        assert_eq!(parse_font(font), (s(size), family.to_string()), "{:?}", font);
    }
    let powers: [(&str, f64); 16] = [
        ("1.5e1px", 15.0),
        ("25e-1px", 2.5),
        ("1E3px", 1000.0),
        (".5e1px", 5.0),
        ("5.e+2px", 500.0),
        ("-2e0px", -2.0),
        ("12e-10px", 0.000000001),
        ("19e-10px", 0.000000001),
        ("1e-10px", 0.0),
        ("123456789e-17px", 0.000000001),
        ("0e99999999999999999999999999px", 0.0),
        ("1e-99999999999999999999999999px", 0.0),
        ("0.000000000000000000001e21px", 1.0),
        ("1000000000000000000000e-21px", 1.0),
        ("nanpx", 0.0),
        ("-NaNpx", 0.0),
    ];
    for (font, size) in powers {
        assert_eq!(parse_font(font), (s(size), "Sans".to_string()), "{:?}", font);
    }
    for font in ["1epx", "e5px", "1e+px", "1e-px", "1e5.0px", "1e5e5px", "infipx", "napx", "1_0px"] {
        assert_eq!(parse_font(font), (s(16.0), "Sans".to_string()), "{:?}", font);
    }
    for font in ["infpx", "+INFpx", "Infinitypx", "1e30px", "1e99999999999999999999999999px"] {
        assert_eq!(parse_font(font).0, Scalar::from_nanos(i64::MAX), "{:?}", font);
    }
    for font in ["-infpx", "-infinitypx", "-1e30px"] {
        assert_eq!(parse_font(font).0, Scalar::from_nanos(i64::MIN), "{:?}", font);
    }
    assert_eq!(parse_font("99999999999999999999px").0, Scalar::from_nanos(i64::MAX));
    assert_eq!(parse_font("-99999999999999999999999999999999px").0, Scalar::from_nanos(i64::MIN));
    assert_eq!(parse_font("9223372036.854775807px").0, Scalar::from_nanos(i64::MAX));
    assert_eq!(parse_font("-9223372036.854775808px").0, Scalar::from_nanos(i64::MIN));
    assert_eq!(parse_font("9223372036.854775806px").0, Scalar::from_nanos(i64::MAX - 1));
}
