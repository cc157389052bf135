use lignum::api::CanvasDrawImage;
use lignum::api::CanvasFillStrokeStyles;
use lignum::api::CanvasImageData;
use lignum::api::CanvasImageSource;
use lignum::api::CanvasLineStyles;
use lignum::api::CanvasPaths;
use lignum::api::CanvasRectangles;
use lignum::api::CanvasState;
use lignum::api::CanvasText;
use lignum::api::CanvasTransforms;
use lignum::api::CanvasPattern;
use lignum::api::FillRule;
use lignum::api::HitOptions;
use lignum::api::ImageData;
use lignum::api::LineCap;
use lignum::api::LineJoin;
use lignum::api::Paint;
use lignum::api::PatternRepetition;
use lignum::api::TextAlign;
use lignum::api::TextBaseline;
use lignum::backends::encode::data_uri;
use lignum::backends::encode::encode_image_as_data_uri;
use lignum::backends::svg::SvgCanvas;
use lignum::Angle;
use lignum::LignumError;
use lignum::Scalar;
use lignum::Transform;

fn s(v: f64) -> Scalar {
    Scalar::from_nanos((v * 1e9).round() as i64)
}

fn angle(radians: f64) -> Angle {
    Angle::new(s(radians), s(radians.cos()), s(radians.sin()))
}

fn svg_output<F>(f: F) -> String
where
    F: FnOnce(&mut SvgCanvas) -> Result<(), LignumError>,
{
    let buf = Vec::new();
    let mut svg = SvgCanvas::new(buf, s(100.0), s(100.0)).expect("create svg");
    f(&mut svg).expect("draw operations");
    let out = svg.finish().expect("finish svg");
    String::from_utf8(out).expect("utf8")
}

const HEAD: &str = "<?xml version=\"1.0\" encoding=\"UTF-8\"?>\n<svg xmlns=\"http://www.w3.org/2000/svg\" version=\"1.1\" width=\"100\" height=\"100\" viewBox=\"0 0 100 100\">";

fn body_of(out: &str) -> &str {
    let rest = out.strip_prefix(HEAD).expect("the document's head");
    rest.strip_suffix("\n</svg>").expect("the document's end")
}

fn path_data(out: &str) -> &str {
    let start = out.find(" d=\"").expect("path data") + 4;
    let len = out[start..].find('"').expect("the end of the path data");
    &out[start..start + len]
}

struct DummyImage;

impl CanvasImageSource for DummyImage {
    fn width(&self) -> u32 {
        1
    }

    fn height(&self) -> u32 {
        1
    }

    fn data_rgba(&self) -> Option<&[u8]> {
        None
    }
}

#[test]
fn writes_rect_fill() {
    let out = svg_output(|svg| {
        svg.set_fill_style(Paint::Color("red".into()))?;
        svg.fill_rect(s(0.0), s(0.0), s(10.0), s(10.0))
    });

    assert!(out.contains("<rect x=\"0\" y=\"0\" width=\"10\" height=\"10\" fill=\"red\"/>"));
}

#[test]
fn writes_linear_gradient_defs_and_usage() {
    let out = svg_output(|svg| {
        let mut grad = svg.create_linear_gradient(s(0.0), s(0.0), s(10.0), s(0.0))?;
        grad.add_color_stop(s(0.0), "red");
        grad.add_color_stop(s(1.0), "blue");
        svg.set_fill_style(Paint::Gradient(grad))?;
        svg.fill_rect(s(0.0), s(0.0), s(10.0), s(10.0))
    });

    assert!(out.contains("<linearGradient id=\"grad0\" x1=\"0\" y1=\"0\" x2=\"10\" y2=\"0\""));
    assert!(out.contains("<stop offset=\"0\" stop-color=\"red\"/>"));
    assert!(out.contains("<stop offset=\"1\" stop-color=\"blue\"/>"));
    assert!(out.contains("fill=\"url(#grad0)\""));
}

#[test]
fn applies_transform_to_rect() {
    let out = svg_output(|svg| {
        svg.translate(s(5.0), s(6.0))?;
        svg.set_fill_style(Paint::Color("black".into()))?;
        svg.fill_rect(s(0.0), s(0.0), s(4.0), s(4.0))
    });

    assert!(out.contains("transform=\"matrix(1 0 0 1 5 6)\""));
}

#[test]
fn writes_pattern_defs_and_usage() {
    let out = svg_output(|svg| {
        let pat = svg.create_pattern(&DummyImage, PatternRepetition::Repeat)?;
        svg.set_fill_style(Paint::Pattern(pat))?;
        svg.fill_rect(s(0.0), s(0.0), s(5.0), s(5.0))
    });

    assert!(out.contains("<pattern id=\"pat0\""));
    assert!(out.contains("fill=\"url(#pat0)\""));
}

#[test]
fn draw_image_inlines_png_data_uri() {
    let img = ImageData {
        width: 1,
        height: 1,
        data: vec![255, 0, 0, 255],
    };
    let out = svg_output(|svg| svg.draw_image(&img, s(2.0), s(3.0)));

    assert!(out.contains("<image"));
    assert!(out.contains("x=\"2\" y=\"3\" width=\"1\" height=\"1\""));
    assert!(out.contains("href=\"data:image/png;base64,"));
}

#[test]
fn an_empty_drawing_is_a_whole_document() {
    let out = svg_output(|_| Ok(()));
    assert_eq!(out, format!("{}\n</svg>", HEAD));

    let mut behind = SvgCanvas::new(b"<!-- kept -->".to_vec(), s(2.5), s(0.125)).unwrap();
    behind.clear_rect(s(0.0), s(0.0), s(1.0), s(1.0)).unwrap();
    let out = String::from_utf8(behind.finish().unwrap()).unwrap();
    assert_eq!(
        out,
        "<!-- kept --><?xml version=\"1.0\" encoding=\"UTF-8\"?>\n<svg xmlns=\"http://www.w3.org/2000/svg\" version=\"1.1\" width=\"2.5\" height=\"0.125\" viewBox=\"0 0 2.5 0.125\">\n</svg>"
    );
}

#[test]
fn rectangles_are_written_whole() {
    let out = svg_output(|svg| {
        svg.set_fill_style(Paint::Color("red".into()))?;
        svg.fill_rect(s(0.0), s(0.0), s(10.0), s(10.0))?;
        svg.set_global_alpha(s(0.5))?;
        svg.set_stroke_style(Paint::Color("a<b\"&'c>\td".into()))?;
        svg.set_line_width(s(2.5))?;
        svg.scale(s(2.0), s(3.0))?;
        svg.fill_rect(s(-1.5), s(0.0), s(10.0), s(10.0))?;
        svg.stroke_rect(s(1.0), s(2.0), s(3.0), s(4.0))
    });
    assert_eq!(
        body_of(&out),
        "\n  <rect x=\"0\" y=\"0\" width=\"10\" height=\"10\" fill=\"red\"/>\
         \n  <rect x=\"-1.5\" y=\"0\" width=\"10\" height=\"10\" fill=\"red\" opacity=\"0.5\" transform=\"matrix(2 0 0 3 0 0)\"/>\
         \n  <rect x=\"1\" y=\"2\" width=\"3\" height=\"4\" fill=\"none\" stroke=\"a&lt;b&quot;&amp;&apos;c&gt;&#9;d\" stroke-width=\"2.5\" transform=\"matrix(2 0 0 3 0 0)\"/>"
    );
}

#[test]
fn gradients_are_defined_before_use() {
    let out = svg_output(|svg| {
        let mut linear = svg.create_linear_gradient(s(0.0), s(0.0), s(10.0), s(0.0))?;
        linear.add_color_stop(s(1.0), "blue");
        linear.add_color_stop(s(0.0), "red");
        svg.set_fill_style(Paint::Gradient(linear))?;
        svg.fill_rect(s(0.0), s(0.0), s(1.0), s(1.0))?;
        let radial = svg.create_radial_gradient(s(1.0), s(2.0), s(3.0), s(4.0), s(5.0), s(6.0))?;
        svg.set_stroke_style(Paint::Gradient(radial))?;
        svg.stroke_rect(s(0.0), s(0.0), s(1.0), s(1.0))?;
        svg.fill_rect(s(0.0), s(0.0), s(2.0), s(2.0))
    });
    assert_eq!(
        body_of(&out),
        "\n  <defs>\
         \n    <linearGradient id=\"grad0\" x1=\"0\" y1=\"0\" x2=\"10\" y2=\"0\">\
         \n      <stop offset=\"1\" stop-color=\"blue\"/>\
         \n      <stop offset=\"0\" stop-color=\"red\"/>\
         \n    </linearGradient>\
         \n  </defs>\
         \n  <rect x=\"0\" y=\"0\" width=\"1\" height=\"1\" fill=\"url(#grad0)\"/>\
         \n  <defs>\
         \n    <radialGradient id=\"grad1\" cx=\"4\" cy=\"5\" r=\"6\" fx=\"1\" fy=\"2\" fr=\"3\">\
         \n    </radialGradient>\
         \n  </defs>\
         \n  <rect x=\"0\" y=\"0\" width=\"1\" height=\"1\" fill=\"none\" stroke=\"url(#grad1)\" stroke-width=\"1\"/>\
         \n  <defs>\
         \n    <linearGradient id=\"grad2\" x1=\"0\" y1=\"0\" x2=\"10\" y2=\"0\">\
         \n      <stop offset=\"1\" stop-color=\"blue\"/>\
         \n      <stop offset=\"0\" stop-color=\"red\"/>\
         \n    </linearGradient>\
         \n  </defs>\
         \n  <rect x=\"0\" y=\"0\" width=\"2\" height=\"2\" fill=\"url(#grad2)\"/>"
    );
}

#[test]
fn patterns_are_defined_before_use() {
    let out = svg_output(|svg| {
        let plain = svg.create_pattern(&DummyImage, PatternRepetition::NoRepeat)?;
        svg.set_fill_style(Paint::Pattern(plain))?;
        svg.fill_rect(s(0.0), s(0.0), s(5.0), s(5.0))?;
        let turned = CanvasPattern {
            repetition: PatternRepetition::Repeat,
            transform: Some(Transform::new(s(1.0), s(0.0), s(0.0), s(1.0), s(0.5), s(-2.0))),
        };
        svg.set_fill_style(Paint::Pattern(turned))?;
        svg.fill_rect(s(0.0), s(0.0), s(5.0), s(5.0))
    });
    assert_eq!(
        body_of(&out),
        "\n  <defs>\
         \n    <pattern id=\"pat0\" width=\"1\" height=\"1\" patternUnits=\"userSpaceOnUse\">\
         \n      <rect width=\"1\" height=\"1\" fill=\"rgba(0,0,0,0)\"/>\
         \n    </pattern>\
         \n  </defs>\
         \n  <rect x=\"0\" y=\"0\" width=\"5\" height=\"5\" fill=\"url(#pat0)\"/>\
         \n  <defs>\
         \n    <pattern id=\"pat1\" width=\"1\" height=\"1\" patternUnits=\"userSpaceOnUse\" patternTransform=\"matrix(1 0 0 1 0.5 -2)\">\
         \n      <rect width=\"1\" height=\"1\" fill=\"rgba(0,0,0,0)\"/>\
         \n    </pattern>\
         \n  </defs>\
         \n  <rect x=\"0\" y=\"0\" width=\"5\" height=\"5\" fill=\"url(#pat1)\"/>"
    );
}

#[test]
fn paths_are_filled_and_stroked() {
    let out = svg_output(|svg| {
        svg.fill(FillRule::NonZero)?;
        svg.stroke()?;
        svg.move_to(s(1.0), s(2.0))?;
        svg.line_to(s(3.0), s(4.0))?;
        svg.bezier_curve_to(s(1.0), s(1.5), s(2.0), s(2.0), s(5.0), s(6.0))?;
        svg.quadratic_curve_to(s(7.0), s(8.0), s(9.0), s(10.0))?;
        svg.close_path()?;
        svg.rect(s(1.0), s(2.0), s(3.0), s(4.0))?;
        svg.fill(FillRule::EvenOdd)?;
        svg.fill(FillRule::NonZero)?;
        svg.line_to(s(5.0), s(5.0))?;
        svg.set_line_cap(LineCap::Round)?;
        svg.set_line_join(LineJoin::Bevel)?;
        svg.set_line_dash(vec![s(4.0), s(1.5), s(2.0)])?;
        svg.set_line_dash_offset(s(0.5))?;
        svg.stroke()?;
        svg.stroke()
    });
    assert_eq!(
        body_of(&out),
        "\n  <path d=\"M 1 2 L 3 4 C 1 1.5, 2 2, 5 6 Q 7 8, 9 10 Z M 1 2 h 3 v 4 h -3 Z\" fill=\"#000\" stroke=\"none\" fill-rule=\"evenodd\"/>\
         \n  <path d=\"M 0 0 L 5 5\" fill=\"none\" stroke=\"#000\" stroke-width=\"1\" stroke-linecap=\"round\" stroke-linejoin=\"bevel\" stroke-dasharray=\"4 1.5 2\" stroke-dashoffset=\"0.5\"/>"
    );
}

#[test]
fn begin_path_discards_the_path() {
    let out = svg_output(|svg| {
        svg.move_to(s(1.0), s(2.0))?;
        svg.begin_path()?;
        svg.close_path()?;
        svg.fill(FillRule::NonZero)?;
        svg.move_to(s(1.0), s(2.0))?;
        svg.line_to(s(3.0), s(4.0))?;
        svg.reset()?;
        svg.stroke()
    });
    assert_eq!(body_of(&out), "");
}

#[test]
fn arcs_become_elliptical_arc_commands() {
    let quarter = Angle::new(s(1.5707963267948966), s(0.0), s(1.0));
    let out = svg_output(|svg| {
        svg.arc(s(10.0), s(10.0), s(5.0), angle(0.0), quarter, false)?;
        svg.stroke()
    });
    assert_eq!(path_data(&out), "M 0 0 L 15 10 A 5 5 0 0 1 10 15");

    let out = svg_output(|svg| {
        svg.move_to(s(15.0), s(10.0))?;
        svg.arc(s(10.0), s(10.0), s(5.0), angle(0.0), quarter, false)?;
        svg.stroke()
    });
    assert_eq!(path_data(&out), "M 15 10 A 5 5 0 0 1 10 15");

    let turn = Angle::new(s(6.283185307), s(1.0), s(0.0));
    let out = svg_output(|svg| {
        svg.move_to(s(0.0), s(0.0))?;
        svg.arc(s(10.0), s(10.0), s(5.0), angle(0.0), turn, false)?;
        svg.stroke()
    });
    assert_eq!(path_data(&out), "M 0 0 L 15 10 A 5 5 0 1 1 5 10 A 5 5 0 1 1 15 10");

    let out = svg_output(|svg| {
        svg.move_to(s(15.0), s(10.0))?;
        svg.arc(s(10.0), s(10.0), s(5.0), angle(0.0), quarter, true)?;
        svg.stroke()
    });
    assert_eq!(path_data(&out), "M 15 10 A 5 5 0 1 0 5 10 A 5 5 0 0 0 10 15");

    let out = svg_output(|svg| {
        svg.move_to(s(1.0), s(1.0))?;
        svg.arc(s(10.0), s(10.0), s(5.0), angle(1.0), angle(1.0), false)?;
        svg.stroke()
    });
    assert_eq!(path_data(&out), "M 1 1 L 12.70151153 14.207354925");
}

#[test]
fn arcs_are_written_with_the_radius_given() {
    let out = svg_output(|svg| {
        svg.move_to(s(1.0), s(1.0))?;
        svg.arc(s(10.0), s(10.0), s(0.0), angle(0.0), angle(1.0), false)?;
        svg.stroke()
    });
    assert_eq!(path_data(&out), "M 1 1 L 10 10 A 0 0 0 0 1 10 10");

    let out = svg_output(|svg| {
        svg.arc(s(10.0), s(10.0), s(-2.0), angle(0.0), angle(1.0), false)?;
        svg.stroke()
    });
    assert_eq!(path_data(&out), "M 0 0 L 8 10 A -2 -2 0 0 1 8.919395388 8.31705803");
}

#[test]
fn ellipses_go_onto_the_path() {
    let quarter = Angle::new(s(1.5707963267948966), s(0.0), s(1.0));
    let out = svg_output(|svg| {
        svg.ellipse(s(10.0), s(20.0), s(4.0), s(2.0), Angle::zero(), Angle::zero(), quarter, false)?;
        svg.line_to(s(0.0), s(0.0))?;
        svg.stroke()
    });
    assert_eq!(path_data(&out), "M 0 0 L 14 20 A 4 2 0 0 1 10 22 L 0 0");

    let out = svg_output(|svg| {
        svg.move_to(s(10.0), s(24.0))?;
        svg.ellipse(s(10.0), s(20.0), s(4.0), s(2.0), quarter, Angle::zero(), quarter, false)?;
        svg.stroke()
    });
    assert_eq!(path_data(&out), "M 10 24 A 4 2 90 0 1 8 20");

    let turn = Angle::new(s(6.283185307), s(1.0), s(0.0));
    let out = svg_output(|svg| {
        svg.set_fill_style(Paint::Color("green".into()))?;
        svg.ellipse(s(10.0), s(20.0), s(4.0), s(2.0), Angle::zero(), Angle::zero(), turn, false)?;
        svg.fill(FillRule::NonZero)
    });
    assert_eq!(
        body_of(&out),
        "\n  <path d=\"M 0 0 L 14 20 A 4 2 0 1 1 6 20 A 4 2 0 1 1 14 20\" fill=\"green\" stroke=\"none\" fill-rule=\"nonzero\"/>"
    );

    let out = svg_output(|svg| {
        svg.move_to(s(14.0), s(20.0))?;
        svg.ellipse(s(10.0), s(20.0), s(4.0), s(2.0), Angle::zero(), Angle::zero(), quarter, true)?;
        svg.stroke()
    });
    assert_eq!(path_data(&out), "M 14 20 A 4 2 0 1 0 6 20 A 4 2 0 0 0 10 22");
}

#[test]
fn arc_to_rounds_the_corner() {
    let out = svg_output(|svg| {
        svg.move_to(s(0.0), s(0.0))?;
        svg.arc_to(s(10.0), s(0.0), s(10.0), s(10.0), s(5.0))?;
        svg.stroke()
    });
    assert_eq!(path_data(&out), "M 0 0 L 5 0 A 5 5 0 0 1 10 5");

    let out = svg_output(|svg| {
        svg.move_to(s(0.0), s(0.0))?;
        svg.arc_to(s(10.0), s(0.0), s(10.0), s(10.0), s(2.0))?;
        svg.line_to(s(10.0), s(10.0))?;
        svg.stroke()
    });
    assert_eq!(path_data(&out), "M 0 0 L 8 0 A 2 2 0 0 1 10 2 L 10 10");

    let out = svg_output(|svg| {
        svg.move_to(s(0.0), s(0.0))?;
        svg.arc_to(s(10.0), s(0.0), s(10.0), s(-10.0), s(2.0))?;
        svg.stroke()
    });
    assert_eq!(path_data(&out), "M 0 0 L 8 0 A 2 2 0 0 0 10 -2");

    let out = svg_output(|svg| {
        svg.arc_to(s(0.0), s(10.0), s(10.0), s(10.0), s(3.0))?;
        svg.stroke()
    });
    assert_eq!(path_data(&out), "M 0 0 L 0 7 A 3 3 0 0 0 3 10");
}

#[test]
fn arc_to_rounds_a_corner_between_long_edges() {
    let out = svg_output(|svg| {
        svg.move_to(s(0.0), s(0.0))?;
        svg.arc_to(s(200000.0), s(0.0), s(200000.0), s(200000.0), s(5.0))?;
        svg.stroke()
    });
    assert_eq!(path_data(&out), "M 0 0 L 199995 0 A 5 5 0 0 1 200000 5");

    let out = svg_output(|svg| {
        svg.move_to(s(-3000000.0), s(7.0))?;
        svg.arc_to(s(1000000.0), s(7.0), s(1000000.0), s(-2000000.0), s(0.5))?;
        svg.stroke()
    });
    assert_eq!(path_data(&out), "M -3000000 7 L 999999.5 7 A 0.5 0.5 0 0 0 1000000 6.5");
}

#[test]
fn arc_to_keeps_a_degenerate_corner() {
    for (from, corner, to, radius) in [
        ((0.0, 0.0), (10.0, 0.0), (10.0, 10.0), 0.0),
        ((10.0, 0.0), (10.0, 0.0), (10.0, 10.0), 2.0),
        ((0.0, 0.0), (10.0, 0.0), (10.0, 0.0), 2.0),
        ((0.0, 0.0), (10.0, 0.0), (20.0, 0.0), 2.0),
        ((0.0, 0.0), (10.0, 0.0), (5.0, 0.0), 2.0),
    ] {
        let out = svg_output(|svg| {
            svg.move_to(s(from.0), s(from.1))?;
            svg.arc_to(s(corner.0), s(corner.1), s(to.0), s(to.1), s(radius))?;
            svg.stroke()
        });
        assert_eq!(path_data(&out), format!("M {} {} L 10 0", from.0, from.1));
    }
    let out = svg_output(|svg| {
        svg.arc_to(s(10.0), s(0.0), s(10.0), s(10.0), s(0.0))?;
        svg.stroke()
    });
    assert_eq!(path_data(&out), "M 0 0 L 10 0");
}

#[test]
fn text_is_written_with_its_attributes() {
    let out = svg_output(|svg| {
        svg.set_font("12px serif".to_string())?;
        svg.set_text_align(TextAlign::Center)?;
        svg.set_text_baseline(TextBaseline::Top)?;
        svg.fill_text("a < b & \"c\"\n", s(1.0), s(2.0), None)?;
        svg.set_text_align(TextAlign::Right)?;
        svg.set_text_baseline(TextBaseline::Bottom)?;
        svg.fill_text("", s(0.0), s(0.0), Some(s(5.0)))?;
        svg.fill_rect(s(0.0), s(0.0), s(1.0), s(1.0))
    });
    assert_eq!(
        body_of(&out),
        "\n  <text x=\"1\" y=\"2\" fill=\"#000\" font=\"12px serif\" text-anchor=\"middle\" dominant-baseline=\"text-before-edge\">a &lt; b &amp; &quot;c&quot;\n</text>\
         \n  <text x=\"0\" y=\"0\" fill=\"#000\" font=\"12px serif\" text-anchor=\"end\" dominant-baseline=\"text-after-edge\"></text>\
         \n  <rect x=\"0\" y=\"0\" width=\"1\" height=\"1\" fill=\"#000\"/>"
    );
}

#[test]
fn text_anchors_and_baselines_have_their_names() {
    let anchors = [
        (TextAlign::Left, "start"),
        (TextAlign::Start, "start"),
        (TextAlign::Center, "middle"),
        (TextAlign::Right, "end"),
        (TextAlign::End, "end"),
    ];
    for (align, name) in anchors {
        let out = svg_output(|svg| {
            svg.set_text_align(align)?;
            svg.fill_text("t", s(0.0), s(0.0), None)
        });
        assert!(out.contains(&format!("text-anchor=\"{}\"", name)));
    }
    let baselines = [
        (TextBaseline::Top, "text-before-edge"),
        (TextBaseline::Hanging, "hanging"),
        (TextBaseline::Middle, "middle"),
        (TextBaseline::Alphabetic, "alphabetic"),
        (TextBaseline::Ideographic, "ideographic"),
        (TextBaseline::Bottom, "text-after-edge"),
    ];
    for (baseline, name) in baselines {
        let out = svg_output(|svg| {
            svg.set_text_baseline(baseline)?;
            svg.fill_text("t", s(0.0), s(0.0), None)
        });
        assert!(out.contains(&format!("dominant-baseline=\"{}\"", name)));
    }
    let caps = [(LineCap::Butt, "butt"), (LineCap::Round, "round"), (LineCap::Square, "square")];
    for (cap, name) in caps {
        let out = svg_output(|svg| {
            svg.set_line_cap(cap)?;
            svg.move_to(s(0.0), s(0.0))?;
            svg.stroke()
        });
        assert!(out.contains(&format!("stroke-linecap=\"{}\"", name)));
    }
    let joins = [(LineJoin::Round, "round"), (LineJoin::Bevel, "bevel"), (LineJoin::Miter, "miter")];
    for (join, name) in joins {
        let out = svg_output(|svg| {
            svg.set_line_join(join)?;
            svg.move_to(s(0.0), s(0.0))?;
            svg.stroke()
        });
        assert!(out.contains(&format!("stroke-linejoin=\"{}\"", name)));
    }
    let out = svg_output(|svg| {
        svg.move_to(s(0.0), s(0.0))?;
        svg.fill(FillRule::NonZero)
    });
    assert!(out.contains("fill-rule=\"nonzero\""));
}

#[test]
fn images_are_inlined_whole() {
    let img = ImageData { width: 1, height: 1, data: vec![255, 0, 0, 255] };
    let uri = encode_image_as_data_uri(1, 1, Some(&img.data)).unwrap();
    assert!(uri.starts_with("data:image/png;base64,iVBORw0KGgo"));
    assert!(uri.len() > 60);
    assert!(uri.bytes().all(|b| b.is_ascii_graphic()));
    let other = ImageData { width: 1, height: 1, data: vec![0, 255, 0, 255] };
    assert_ne!(encode_image_as_data_uri(1, 1, Some(&other.data)).unwrap(), uri);
    assert_eq!(encode_image_as_data_uri(1, 1, Some(&img.data)).unwrap(), uri);

    let out = svg_output(|svg| {
        svg.translate(s(1.0), s(1.0))?;
        svg.draw_image(&img, s(2.0), s(3.0))?;
        svg.draw_image_scaled(&img, s(2.0), s(3.0), s(40.0), s(50.5))
    });
    assert_eq!(
        body_of(&out),
        format!(
            "\n  <image x=\"2\" y=\"3\" width=\"1\" height=\"1\" href=\"{uri}\" transform=\"matrix(1 0 0 1 1 1)\"/>\
             \n  <image x=\"2\" y=\"3\" width=\"40\" height=\"50.5\" href=\"{uri}\" preserveAspectRatio=\"none\" transform=\"matrix(1 0 0 1 1 1)\"/>"
        )
    );
    let larger = ImageData { width: 3, height: 2, data: (0..24).collect() };
    assert!(encode_image_as_data_uri(3, 2, Some(&larger.data)).is_ok());
    assert!(encode_image_as_data_uri(2, 3, Some(&larger.data)).is_ok());
    assert!(encode_image_as_data_uri(6, 1, Some(&larger.data)).is_ok());
    assert!(encode_image_as_data_uri(3, 3, Some(&larger.data)).is_err());
    assert_eq!(data_uri("QUJD"), "data:image/png;base64,QUJD");
    assert_eq!(data_uri(""), "data:image/png;base64,");
}

fn other_text(r: Result<String, LignumError>) -> String {
    match r {
        Err(LignumError::Other(text)) => text,
        _ => panic!("an error of the other kind"),
    }
}

#[test]
fn images_that_cannot_be_encoded_are_refused() {
    assert_eq!(
        other_text(encode_image_as_data_uri(1, 1, None)),
        "SVG backend does not yet implement image source lacks RGBA"
    );
    let short = ImageData { width: 2, height: 2, data: vec![0; 15] };
    assert!(!other_text(encode_image_as_data_uri(2, 2, Some(&short.data))).is_empty());
    assert!(!other_text(encode_image_as_data_uri(0, 4, Some(&[]))).is_empty());
    assert!(!other_text(encode_image_as_data_uri(4, 0, Some(&[]))).is_empty());
    if usize::BITS <= 64 {
        assert_eq!(
            other_text(encode_image_as_data_uri(u32::MAX, u32::MAX, Some(&[]))),
            "image dimensions overflow"
        );
    }

    let mut svg = SvgCanvas::new(Vec::new(), s(100.0), s(100.0)).unwrap();
    assert!(svg.draw_image(&DummyImage, s(0.0), s(0.0)).is_err());
    assert!(svg.draw_image_scaled(&short, s(0.0), s(0.0), s(1.0), s(1.0)).is_err());
    assert!(svg.draw_encoded_image(1, 1, None, s(0.0), s(0.0)).is_err());
    assert!(svg.draw_encoded_image_scaled(1, 2, Some(&[0; 4]), s(0.0), s(0.0), s(1.0), s(1.0)).is_err());
    let out = String::from_utf8(svg.finish().unwrap()).unwrap();
    assert_eq!(body_of(&out), "");
}

fn refusal(r: Result<(), LignumError>) -> String {
    match r {
        Err(LignumError::Other(text)) => text,
        _ => panic!("an error of the other kind"),
    }
}

#[test]
fn unsupported_operations_say_so() {
    let mut svg = SvgCanvas::new(Vec::new(), s(100.0), s(100.0)).unwrap();
    let img = ImageData { width: 1, height: 1, data: vec![255, 0, 0, 255] };
    svg.move_to(s(1.0), s(1.0)).unwrap();
    assert_eq!(
        refusal(svg.round_rect(s(0.0), s(0.0), s(1.0), s(1.0), &[s(1.0)])),
        "SVG backend does not yet implement round_rect"
    );
    assert_eq!(
        refusal(svg.clip(FillRule::NonZero)),
        "SVG backend does not yet implement clip"
    );
    assert_eq!(
        refusal(svg.stroke_text("t", s(0.0), s(0.0), None)),
        "SVG backend does not yet implement stroke_text"
    );
    assert_eq!(
        refusal(svg.measure_text("t").map(|_| ())),
        "SVG backend does not yet implement measure_text"
    );
    assert_eq!(
        refusal(svg.create_image_data(1, 1).map(|_| ())),
        "SVG backend does not yet implement create_image_data"
    );
    assert_eq!(
        refusal(svg.get_image_data(0, 0, 1, 1).map(|_| ())),
        "SVG backend does not yet implement get_image_data"
    );
    assert_eq!(
        refusal(svg.put_image_data(&img, s(0.0), s(0.0))),
        "SVG backend does not yet implement put_image_data"
    );
    assert_eq!(
        refusal(svg.put_image_data_dirty(&img, s(0.0), s(0.0), 0, 0, 1, 1)),
        "SVG backend does not yet implement put_image_data_dirty"
    );
    assert_eq!(
        refusal(svg.draw_image_subrect(
            &img, s(0.0), s(0.0), s(1.0), s(1.0), s(0.0), s(0.0), s(1.0), s(1.0)
        )),
        "SVG backend does not yet implement draw_image_subrect"
    );
    assert!(!svg.is_point_in_path(s(1.0), s(1.0), HitOptions::default()).unwrap());
    assert!(!svg.is_point_in_stroke(s(1.0), s(1.0)).unwrap());
    svg.stroke().unwrap();
    let out = String::from_utf8(svg.finish().unwrap()).unwrap();
    assert_eq!(path_data(&out), "M 1 1");
}

#[test]
fn the_state_is_saved_and_restored() {
    let out = svg_output(|svg| {
        svg.set_fill_style(Paint::Color("red".into()))?;
        svg.translate(s(1.0), s(2.0))?;
        svg.save()?;
        svg.set_fill_style(Paint::Color("blue".into()))?;
        svg.set_transform(s(2.0), s(0.0), s(0.0), s(2.0), s(0.0), s(0.0))?;
        svg.transform(s(1.0), s(0.0), s(0.0), s(1.0), s(3.0), s(4.0))?;
        svg.fill_rect(s(0.0), s(0.0), s(1.0), s(1.0))?;
        svg.restore()?;
        svg.fill_rect(s(0.0), s(0.0), s(1.0), s(1.0))?;
        svg.restore()?;
        svg.rotate(Angle::new(s(1.5707963267948966), s(0.0), s(1.0)))?;
        svg.fill_rect(s(0.0), s(0.0), s(1.0), s(1.0))?;
        svg.reset_transform()?;
        svg.fill_rect(s(0.0), s(0.0), s(1.0), s(1.0))
    });
    assert_eq!(
        body_of(&out),
        "\n  <rect x=\"0\" y=\"0\" width=\"1\" height=\"1\" fill=\"blue\" transform=\"matrix(2 0 0 2 6 8)\"/>\
         \n  <rect x=\"0\" y=\"0\" width=\"1\" height=\"1\" fill=\"red\" transform=\"matrix(1 0 0 1 1 2)\"/>\
         \n  <rect x=\"0\" y=\"0\" width=\"1\" height=\"1\" fill=\"red\" transform=\"matrix(0 1 -1 0 1 2)\"/>\
         \n  <rect x=\"0\" y=\"0\" width=\"1\" height=\"1\" fill=\"red\"/>"
    );
}
