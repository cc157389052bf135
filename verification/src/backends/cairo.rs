//! What a backend on the Cairo graphics library needs worked out before it
//! can call the library: the library's names for caps, joins, rules,
//! operators and filters, pixels in the layout of its image surfaces, paints
//! as its sources, and the geometry that it has no call of its own for.

use vstd::prelude::*;
use vstd::string::StrSliceExecFns;
use vstd::string::StringExecFns;
use vstd::string::StringSliceAdditionalSpecFns;
use vstd::utf8::encode_utf8;
use crate::backends::encode::pixels_view;
use crate::api::CompositeOperation;
use crate::api::FillRule;
use crate::api::GradientKind;
use crate::api::GradientStop;
use crate::api::GradientStopView;
use crate::api::ImageSmoothingQuality;
use crate::api::LineCap;
use crate::api::LineJoin;
use crate::api::Paint;
use crate::api::PaintView;
use crate::api::TextAlign;
use crate::api::TextBaseline;
use crate::api::stops_view;
use crate::backends::recording::PathCommand;
use crate::error::LignumError;
use crate::geometry::clamp_radii;
use crate::geometry::expand_radii;
use crate::geometry::spec_clamp_radii;
use crate::geometry::spec_expand_radii;
use crate::scalar::saturate;
use crate::scalar::Angle;
use crate::scalar::Scalar;
use crate::scalar::NANOS_PER_UNIT;

verus! {

/// Cairo's names for the ends of a line.
#[derive(Clone, Copy, Debug, PartialEq, Eq, Structural)]
pub enum CairoLineCap {
    Butt,
    Round,
    Square,
}

/// Cairo's names for the corners of a line.
#[derive(Clone, Copy, Debug, PartialEq, Eq, Structural)]
pub enum CairoLineJoin {
    Miter,
    Round,
    Bevel,
}

/// Cairo's names for the rules that say what is inside a path.
#[derive(Clone, Copy, Debug, PartialEq, Eq, Structural)]
pub enum CairoFillRule {
    Winding,
    EvenOdd,
}

/// Cairo's names for the ways of compositing.
#[derive(Clone, Copy, Debug, PartialEq, Eq, Structural)]
pub enum Operator {
    Clear,
    Source,
    Over,
    In,
    Out,
    Atop,
    DestOver,
    DestIn,
    DestOut,
    DestAtop,
    Xor,
    Add,
    Multiply,
    Screen,
    Overlay,
    Darken,
    Lighten,
    ColorDodge,
    ColorBurn,
    HardLight,
    SoftLight,
    Difference,
    Exclusion,
    HslHue,
    HslSaturation,
    HslColor,
    HslLuminosity,
}

/// Cairo's names for the ways of sampling a scaled image.
#[derive(Clone, Copy, Debug, PartialEq, Eq, Structural)]
pub enum Filter {
    Fast,
    Good,
    Best,
    Nearest,
}

/// Cairo's name for a line cap.
pub open spec fn spec_map_line_cap(cap: LineCap) -> CairoLineCap {
    match cap {
        LineCap::Butt => CairoLineCap::Butt,
        LineCap::Round => CairoLineCap::Round,
        LineCap::Square => CairoLineCap::Square,
    }
}

/// Cairo's name for a line join.
pub open spec fn spec_map_line_join(join: LineJoin) -> CairoLineJoin {
    match join {
        LineJoin::Bevel => CairoLineJoin::Bevel,
        LineJoin::Miter => CairoLineJoin::Miter,
        LineJoin::Round => CairoLineJoin::Round,
    }
}

/// Cairo's name for a fill rule: the non-zero rule is its winding rule.
pub open spec fn spec_map_fill_rule(rule: FillRule) -> CairoFillRule {
    match rule {
        FillRule::NonZero => CairoFillRule::Winding,
        FillRule::EvenOdd => CairoFillRule::EvenOdd,
    }
}

/// Cairo's operator for a way of compositing.
pub open spec fn spec_map_composite(op: CompositeOperation) -> Operator {
    match op {
        CompositeOperation::SourceOver => Operator::Over,
        CompositeOperation::SourceIn => Operator::In,
        CompositeOperation::SourceOut => Operator::Out,
        CompositeOperation::SourceAtop => Operator::Atop,
        CompositeOperation::DestinationOver => Operator::DestOver,
        CompositeOperation::DestinationIn => Operator::DestIn,
        CompositeOperation::DestinationOut => Operator::DestOut,
        CompositeOperation::DestinationAtop => Operator::DestAtop,
        CompositeOperation::Lighter => Operator::Add,
        CompositeOperation::Copy => Operator::Source,
        CompositeOperation::Xor => Operator::Xor,
        CompositeOperation::Multiply => Operator::Multiply,
        CompositeOperation::Screen => Operator::Screen,
        CompositeOperation::Overlay => Operator::Overlay,
        CompositeOperation::Darken => Operator::Darken,
        CompositeOperation::Lighten => Operator::Lighten,
        CompositeOperation::ColorDodge => Operator::ColorDodge,
        CompositeOperation::ColorBurn => Operator::ColorBurn,
        CompositeOperation::HardLight => Operator::HardLight,
        CompositeOperation::SoftLight => Operator::SoftLight,
        CompositeOperation::Difference => Operator::Difference,
        CompositeOperation::Exclusion => Operator::Exclusion,
        CompositeOperation::Hue => Operator::HslHue,
        CompositeOperation::Saturation => Operator::HslSaturation,
        CompositeOperation::Color => Operator::HslColor,
        CompositeOperation::Luminosity => Operator::HslLuminosity,
    }
}

/// Cairo's name for a line cap.
pub fn map_line_cap(cap: LineCap) -> (r: CairoLineCap)
    ensures
        r == spec_map_line_cap(cap),
{
    match cap {
        LineCap::Butt => CairoLineCap::Butt,
        LineCap::Round => CairoLineCap::Round,
        LineCap::Square => CairoLineCap::Square,
    }
}

/// The line cap that Cairo names `cap`.
pub fn map_line_cap_back(cap: CairoLineCap) -> (r: LineCap)
    ensures
        spec_map_line_cap(r) == cap,
{
    match cap {
        CairoLineCap::Butt => LineCap::Butt,
        CairoLineCap::Round => LineCap::Round,
        CairoLineCap::Square => LineCap::Square,
    }
}

/// Cairo's name for a line join.
pub fn map_line_join(join: LineJoin) -> (r: CairoLineJoin)
    ensures
        r == spec_map_line_join(join),
{
    match join {
        LineJoin::Bevel => CairoLineJoin::Bevel,
        LineJoin::Miter => CairoLineJoin::Miter,
        LineJoin::Round => CairoLineJoin::Round,
    }
}

/// The line join that Cairo names `join`.
pub fn map_line_join_back(join: CairoLineJoin) -> (r: LineJoin)
    ensures
        spec_map_line_join(r) == join,
{
    match join {
        CairoLineJoin::Bevel => LineJoin::Bevel,
        CairoLineJoin::Miter => LineJoin::Miter,
        CairoLineJoin::Round => LineJoin::Round,
    }
}

/// Cairo's name for a fill rule.
pub fn map_fill_rule(rule: FillRule) -> (r: CairoFillRule)
    ensures
        r == spec_map_fill_rule(rule),
{
    match rule {
        FillRule::NonZero => CairoFillRule::Winding,
        FillRule::EvenOdd => CairoFillRule::EvenOdd,
    }
}

/// Cairo's operator for a way of compositing.
pub fn map_composite(op: CompositeOperation) -> (r: Operator)
    ensures
        r == spec_map_composite(op),
{
    match op {
        CompositeOperation::SourceOver => Operator::Over,
        CompositeOperation::SourceIn => Operator::In,
        CompositeOperation::SourceOut => Operator::Out,
        CompositeOperation::SourceAtop => Operator::Atop,
        CompositeOperation::DestinationOver => Operator::DestOver,
        CompositeOperation::DestinationIn => Operator::DestIn,
        CompositeOperation::DestinationOut => Operator::DestOut,
        CompositeOperation::DestinationAtop => Operator::DestAtop,
        CompositeOperation::Lighter => Operator::Add,
        CompositeOperation::Copy => Operator::Source,
        CompositeOperation::Xor => Operator::Xor,
        CompositeOperation::Multiply => Operator::Multiply,
        CompositeOperation::Screen => Operator::Screen,
        CompositeOperation::Overlay => Operator::Overlay,
        CompositeOperation::Darken => Operator::Darken,
        CompositeOperation::Lighten => Operator::Lighten,
        CompositeOperation::ColorDodge => Operator::ColorDodge,
        CompositeOperation::ColorBurn => Operator::ColorBurn,
        CompositeOperation::HardLight => Operator::HardLight,
        CompositeOperation::SoftLight => Operator::SoftLight,
        CompositeOperation::Difference => Operator::Difference,
        CompositeOperation::Exclusion => Operator::Exclusion,
        CompositeOperation::Hue => Operator::HslHue,
        CompositeOperation::Saturation => Operator::HslSaturation,
        CompositeOperation::Color => Operator::HslColor,
        CompositeOperation::Luminosity => Operator::HslLuminosity,
    }
}

/// Caps, joins and rules keep their identity on the way to Cairo's names:
/// two that differ get names that differ.
pub proof fn lemma_names_are_distinct(
    cap_a: LineCap,
    cap_b: LineCap,
    join_a: LineJoin,
    join_b: LineJoin,
    rule_a: FillRule,
    rule_b: FillRule,
    op_a: CompositeOperation,
    op_b: CompositeOperation,
)
    ensures
        spec_map_line_cap(cap_a) == spec_map_line_cap(cap_b) ==> cap_a == cap_b,
        spec_map_line_join(join_a) == spec_map_line_join(join_b) ==> join_a == join_b,
        spec_map_fill_rule(rule_a) == spec_map_fill_rule(rule_b) ==> rule_a == rule_b,
        spec_map_composite(op_a) == spec_map_composite(op_b) ==> op_a == op_b,
{
}

/// The filter for scaled images: the nearest pixel where smoothing is off,
/// else the faster filter the lower the quality asked for.
pub open spec fn spec_smoothing_filter(enabled: bool, quality: ImageSmoothingQuality) -> Filter {
    if !enabled {
        Filter::Nearest
    } else {
        match quality {
            ImageSmoothingQuality::Low => Filter::Fast,
            ImageSmoothingQuality::Medium => Filter::Good,
            ImageSmoothingQuality::High => Filter::Best,
        }
    }
}

/// The filter for scaled images.
pub fn smoothing_filter(enabled: bool, quality: ImageSmoothingQuality) -> (r: Filter)
    ensures
        r == spec_smoothing_filter(enabled, quality),
{
    if !enabled {
        Filter::Nearest
    } else {
        match quality {
            ImageSmoothingQuality::Low => Filter::Fast,
            ImageSmoothingQuality::Medium => Filter::Good,
            ImageSmoothingQuality::High => Filter::Best,
        }
    }
}

/// Pixels as an image surface of Cairo takes them: four bytes a pixel in
/// the order blue, green, red, alpha, the colours multiplied by the alpha.
#[derive(Debug, PartialEq)]
pub struct SurfaceData {
    pub width: u32,
    pub height: u32,
    /// The bytes of one row.
    pub stride: u64,
    pub data: Vec<u8>,
}

/// A colour channel multiplied by the alpha, rounded to the nearest.
pub open spec fn spec_premultiply(channel: u8, alpha: u8) -> u8 {
    ((channel * alpha + 127) / 255) as u8
}

/// The byte at `i` of the surface made of the pixels `data`.
pub open spec fn spec_surface_byte(data: Seq<u8>, i: int) -> u8 {
    let pixel = i - i % 4;
    if i % 4 == 0 {
        spec_premultiply(data[pixel + 2], data[pixel + 3])
    } else if i % 4 == 1 {
        spec_premultiply(data[pixel + 1], data[pixel + 3])
    } else if i % 4 == 2 {
        spec_premultiply(data[pixel], data[pixel + 3])
    } else {
        data[pixel + 3]
    }
}

/// The bytes of the surface made of the pixels `data`.
pub open spec fn spec_surface_bytes(data: Seq<u8>) -> Seq<u8> {
    Seq::new(data.len(), |i: int| spec_surface_byte(data, i))
}

/// Why pixels cannot become a surface, where they cannot: they are not at
/// hand, they are too many to count, or they are not as many as the width
/// and the height ask for.
pub open spec fn spec_surface_error(width: u32, height: u32, data: Option<Seq<u8>>) -> Option<
    Seq<char>,
> {
    match data {
        None => Some("CanvasImageSource missing RGBA data"@),
        Some(pixels) => if width * height * 4 > usize::MAX {
            Some("image dimensions overflow"@)
        } else if pixels.len() != width * height * 4 {
            Some("RGBA buffer length does not match width*height*4"@)
        } else {
            None
        },
    }
}

fn premultiply(channel: u8, alpha: u8) -> (r: u8)
    ensures
        r == spec_premultiply(channel, alpha),
{
    assert(channel * alpha <= 255 * 255) by (nonlinear_arith)
        requires
            channel <= 255,
            alpha <= 255,
    ;
    (((channel as u32) * (alpha as u32) + 127) / 255) as u8
}

/// The pixels `data` of an image of `width` by `height` as an image
/// surface of Cairo takes them.
pub fn image_surface_from_rgba(width: u32, height: u32, data: Option<&[u8]>) -> (r: Result<
    SurfaceData,
    LignumError,
>)
    ensures
        match r {
            Ok(surface) => spec_surface_error(width, height, pixels_view(data)) is None
                && surface.width == width && surface.height == height && surface.stride == width
                * 4 && surface.data@ == spec_surface_bytes(data.unwrap()@),
            Err(error) => spec_surface_error(width, height, pixels_view(data)) matches Some(text)
                && error.is_other(text),
        },
{
    let data = match data {
        Some(data) => data,
        None => {
            return Err(LignumError::Other(String::from_str("CanvasImageSource missing RGBA data")));
        },
    };
    assert(width * height <= 0xffff_ffff * 0xffff_ffff) by (nonlinear_arith)
        requires
            width <= 0xffff_ffff,
            height <= 0xffff_ffff,
    ;
    let expected: u128 = (width as u128) * (height as u128) * 4;
    if expected > usize::MAX as u128 {
        return Err(LignumError::Other(String::from_str("image dimensions overflow")));
    }
    if data.len() as u128 != expected {
        return Err(
            LignumError::Other(
                String::from_str("RGBA buffer length does not match width*height*4"),
            ),
        );
    }
    let mut buffer: Vec<u8> = Vec::new();
    let mut i: usize = 0;
    while i < data.len()
        invariant
            i <= data.len(),
            i % 4 == 0,
            data@.len() % 4 == 0,
            buffer@.len() == i,
            forall|j: int| 0 <= j < i ==> buffer@[j] == spec_surface_byte(data@, j),
        decreases data.len() - i,
    {
        let alpha = data[i + 3];
        buffer.push(premultiply(data[i + 2], alpha));
        buffer.push(premultiply(data[i + 1], alpha));
        buffer.push(premultiply(data[i], alpha));
        buffer.push(alpha);
        i += 4;
    }
    assert(buffer@ =~= spec_surface_bytes(data@));
    Ok(SurfaceData { width, height, stride: (width as u64) * 4, data: buffer })
}

/// The control points of the cubic curve that runs as the quadratic curve
/// from `(sx, sy)` to `(x, y)` with the control point `(cpx, cpy)` does:
/// two thirds of the way from each end to that control point.
pub open spec fn spec_quadratic_to_cubic(
    sx: Scalar,
    sy: Scalar,
    cpx: Scalar,
    cpy: Scalar,
    x: Scalar,
    y: Scalar,
) -> (Scalar, Scalar, Scalar, Scalar) {
    (
        sx.spec_two_thirds_toward(cpx),
        sy.spec_two_thirds_toward(cpy),
        x.spec_two_thirds_toward(cpx),
        y.spec_two_thirds_toward(cpy),
    )
}

/// The control points of the cubic curve that runs as a quadratic curve does.
pub fn quadratic_to_cubic(sx: Scalar, sy: Scalar, cpx: Scalar, cpy: Scalar, x: Scalar, y: Scalar) -> (r:
    (Scalar, Scalar, Scalar, Scalar))
    ensures
        r == spec_quadratic_to_cubic(sx, sy, cpx, cpy, x, y),
{
    (
        sx.two_thirds_toward(cpx),
        sy.two_thirds_toward(cpy),
        x.two_thirds_toward(cpx),
        y.two_thirds_toward(cpy),
    )
}

/// The measures of a text that placing it needs.
#[derive(Clone, Copy, Debug, PartialEq, Eq, Structural)]
pub struct TextExtents {
    pub width: Scalar,
    pub height: Scalar,
    pub y_bearing: Scalar,
}

/// Where a text starts so that it lies as `align` and `baseline` ask with
/// respect to the anchor `(x, y)`: moved back by none, half or all of its
/// width, and down by the share of its height that the baseline stands for.
pub open spec fn spec_adjust_text_position(
    x: Scalar,
    y: Scalar,
    align: TextAlign,
    baseline: TextBaseline,
    extents: TextExtents,
) -> (Scalar, Scalar) {
    let back = match align {
        TextAlign::Left => Scalar { nanos: 0 },
        TextAlign::Start => Scalar { nanos: 0 },
        TextAlign::Center => extents.width.spec_div(Scalar { nanos: 2_000_000_000 }),
        TextAlign::Right => extents.width,
        TextAlign::End => extents.width,
    };
    let down = match baseline {
        TextBaseline::Top => extents.height,
        TextBaseline::Hanging => extents.height.spec_mul(Scalar { nanos: 800_000_000 }),
        TextBaseline::Middle => extents.height.spec_mul(Scalar { nanos: 500_000_000 }),
        TextBaseline::Alphabetic => Scalar { nanos: 0 },
        TextBaseline::Ideographic => extents.height.spec_mul(Scalar { nanos: 100_000_000 }),
        TextBaseline::Bottom => extents.y_bearing.spec_neg(),
    };
    (x.spec_sub(back), y.spec_add(down))
}

/// Where a text starts so that it lies as `align` and `baseline` ask.
pub fn adjust_text_position(
    x: Scalar,
    y: Scalar,
    align: TextAlign,
    baseline: TextBaseline,
    extents: TextExtents,
) -> (r: (Scalar, Scalar))
    ensures
        r == spec_adjust_text_position(x, y, align, baseline, extents),
{
    let back = match align {
        TextAlign::Left => Scalar::zero(),
        TextAlign::Start => Scalar::zero(),
        TextAlign::Center => extents.width.div(Scalar::from_int(2)),
        TextAlign::Right => extents.width,
        TextAlign::End => extents.width,
    };
    let down = match baseline {
        TextBaseline::Top => extents.height,
        TextBaseline::Hanging => extents.height.mul(Scalar::from_nanos(800_000_000)),
        TextBaseline::Middle => extents.height.mul(Scalar::from_nanos(500_000_000)),
        TextBaseline::Alphabetic => Scalar::zero(),
        TextBaseline::Ideographic => extents.height.mul(Scalar::from_nanos(100_000_000)),
        TextBaseline::Bottom => extents.y_bearing.neg(),
    };
    (x.sub(back), y.add(down))
}

/// The angle of `quarters` quarter turns, within one turn: four quarter
/// turns are none.
pub open spec fn spec_quarter_turns(quarters: u8) -> Angle {
    if quarters % 4 == 0 {
        Angle::spec_zero()
    } else if quarters % 4 == 1 {
        Angle {
            radians: Scalar { nanos: 1_570_796_327 },
            cos: Scalar { nanos: 0 },
            sin: Scalar { nanos: NANOS_PER_UNIT },
        }
    } else if quarters % 4 == 2 {
        Angle {
            radians: Scalar { nanos: 3_141_592_654 },
            cos: Scalar { nanos: -1_000_000_000i64 },
            sin: Scalar { nanos: 0 },
        }
    } else {
        Angle {
            radians: Scalar { nanos: 4_712_388_980 },
            cos: Scalar { nanos: 0 },
            sin: Scalar { nanos: -1_000_000_000i64 },
        }
    }
}

/// The angle of `quarters` quarter turns, within one turn.
pub fn quarter_turns(quarters: u8) -> (r: Angle)
    ensures
        r == spec_quarter_turns(quarters),
{
    let within: u8 = quarters % 4;
    if within == 0 {
        Angle::zero()
    } else if within == 1 {
        Angle::new(Scalar::from_nanos(1_570_796_327), Scalar::zero(), Scalar::one())
    } else if within == 2 {
        Angle::new(
            Scalar::from_nanos(3_141_592_654),
            Scalar::from_nanos(-1_000_000_000),
            Scalar::zero(),
        )
    } else {
        Angle::new(
            Scalar::from_nanos(4_712_388_980),
            Scalar::zero(),
            Scalar::from_nanos(-1_000_000_000),
        )
    }
}

/// The outline of a rounded rectangle: a quarter circle in each corner,
/// from the top left clockwise, and the path closed. Each corner has the
/// radius that the list of radii gives it, held to half the width and half
/// the height.
pub open spec fn spec_round_rect_path(
    x: Scalar,
    y: Scalar,
    w: Scalar,
    h: Scalar,
    radii: Seq<Scalar>,
) -> Seq<PathCommand> {
    let corners = spec_clamp_radii(spec_expand_radii(radii), w, h);
    let right = x.spec_add(w);
    let bottom = y.spec_add(h);
    seq![
        PathCommand::Arc {
            x: x.spec_add(corners.top_left),
            y: y.spec_add(corners.top_left),
            radius: corners.top_left,
            start_angle: spec_quarter_turns(2),
            end_angle: spec_quarter_turns(3),
            ccw: false,
        },
        PathCommand::Arc {
            x: right.spec_sub(corners.top_right),
            y: y.spec_add(corners.top_right),
            radius: corners.top_right,
            start_angle: spec_quarter_turns(3),
            end_angle: spec_quarter_turns(0),
            ccw: false,
        },
        PathCommand::Arc {
            x: right.spec_sub(corners.bottom_right),
            y: bottom.spec_sub(corners.bottom_right),
            radius: corners.bottom_right,
            start_angle: spec_quarter_turns(0),
            end_angle: spec_quarter_turns(1),
            ccw: false,
        },
        PathCommand::Arc {
            x: x.spec_add(corners.bottom_left),
            y: bottom.spec_sub(corners.bottom_left),
            radius: corners.bottom_left,
            start_angle: spec_quarter_turns(1),
            end_angle: spec_quarter_turns(2),
            ccw: false,
        },
        PathCommand::ClosePath,
    ]
}

/// The outline of a rounded rectangle.
pub fn round_rect_path(x: Scalar, y: Scalar, w: Scalar, h: Scalar, radii: &[Scalar]) -> (path: Vec<
    PathCommand,
>)
    ensures
        path@ == spec_round_rect_path(x, y, w, h, radii@),
{
    let corners = clamp_radii(expand_radii(radii), w, h);
    let right = x.add(w);
    let bottom = y.add(h);
    let mut path: Vec<PathCommand> = Vec::new();
    path.push(
        PathCommand::Arc {
            x: x.add(corners.top_left),
            y: y.add(corners.top_left),
            radius: corners.top_left,
            start_angle: quarter_turns(2),
            end_angle: quarter_turns(3),
            ccw: false,
        },
    );
    path.push(
        PathCommand::Arc {
            x: right.sub(corners.top_right),
            y: y.add(corners.top_right),
            radius: corners.top_right,
            start_angle: quarter_turns(3),
            end_angle: quarter_turns(0),
            ccw: false,
        },
    );
    path.push(
        PathCommand::Arc {
            x: right.sub(corners.bottom_right),
            y: bottom.sub(corners.bottom_right),
            radius: corners.bottom_right,
            start_angle: quarter_turns(0),
            end_angle: quarter_turns(1),
            ccw: false,
        },
    );
    path.push(
        PathCommand::Arc {
            x: x.add(corners.bottom_left),
            y: bottom.sub(corners.bottom_left),
            radius: corners.bottom_left,
            start_angle: quarter_turns(1),
            end_angle: quarter_turns(2),
            ccw: false,
        },
    );
    path.push(PathCommand::ClosePath);
    assert(path@ =~= spec_round_rect_path(x, y, w, h, radii@));
    path
}

/// A colour: red, green, blue and alpha, each from zero to one.
#[derive(Clone, Copy, Debug, PartialEq, Eq, Structural)]
pub struct Rgba {
    pub r: Scalar,
    pub g: Scalar,
    pub b: Scalar,
    pub a: Scalar,
}

/// Whether `c` is white space as Unicode has it.
pub open spec fn is_white_space(c: char) -> bool {
    let code = c as u32;
    (0x09 <= code <= 0x0d) || code == 0x20 || code == 0x85 || code == 0xa0 || code == 0x1680 || (
    0x2000 <= code <= 0x200a) || code == 0x2028 || code == 0x2029 || code == 0x202f || code
        == 0x205f || code == 0x3000
}

/// `text` without the white space at its start.
pub open spec fn spec_trim_start(text: Seq<char>) -> Seq<char>
    decreases text.len(),
{
    if text.len() > 0 && is_white_space(text[0]) {
        spec_trim_start(text.drop_first())
    } else {
        text
    }
}

/// `text` without the white space at its end.
pub open spec fn spec_trim_end(text: Seq<char>) -> Seq<char>
    decreases text.len(),
{
    if text.len() > 0 && is_white_space(text.last()) {
        spec_trim_end(text.drop_last())
    } else {
        text
    }
}

/// `text` without the white space at its start and at its end.
pub open spec fn spec_trim(text: Seq<char>) -> Seq<char> {
    spec_trim_end(spec_trim_start(text))
}

/// The text without the white space, in the sense of Unicode, that it
/// starts and ends with.
fn trim(text: &str) -> (r: &str)
    ensures
        r@ == spec_trim(text@),
{
    let chars = chars_of(text);
    let mut from: usize = 0;
    assert(chars@.subrange(0, chars@.len() as int) =~= chars@);
    while from < chars.len() && is_space(chars[from])
        invariant
            from <= chars@.len(),
            spec_trim_start(chars@) == spec_trim_start(
                chars@.subrange(from as int, chars@.len() as int),
            ),
        decreases chars@.len() - from,
    {
        assert(chars@.subrange(from as int, chars@.len() as int).drop_first() =~= chars@.subrange(
            from + 1,
            chars@.len() as int,
        ));
        from += 1;
    }
    let mut to: usize = chars.len();
    while to > from && is_space(chars[to - 1])
        invariant
            from <= to <= chars@.len(),
            spec_trim(chars@) == spec_trim_end(chars@.subrange(from as int, to as int)),
        decreases to - from,
    {
        assert(chars@.subrange(from as int, to as int).drop_last() =~= chars@.subrange(
            from as int,
            to - 1,
        ));
        to -= 1;
    }
    text.substring_char(from, to)
}

/// The value of the hexadecimal digit with the code `byte`, where it is one.
pub open spec fn spec_hex_digit(byte: u8) -> Option<u8> {
    if 0x30 <= byte <= 0x39 {
        Some((byte - 0x30) as u8)
    } else if 0x61 <= byte <= 0x66 {
        Some((byte - 0x61 + 10) as u8)
    } else if 0x41 <= byte <= 0x46 {
        Some((byte - 0x41 + 10) as u8)
    } else {
        None
    }
}

/// The number that two characters spell in base sixteen: two digits, or a
/// plus sign and one digit.
pub open spec fn spec_hex_pair(high: u8, low: u8) -> Option<u8> {
    match spec_hex_digit(low) {
        None => None,
        Some(units) => match spec_hex_digit(high) {
            Some(sixteens) => Some((sixteens * 16 + units) as u8),
            None => if high == 0x2b {
                Some(units)
            } else {
                None
            },
        },
    }
}

/// The channel of the value `value` out of 255.
pub open spec fn spec_channel(value: u8) -> Scalar {
    (Scalar { nanos: (value * NANOS_PER_UNIT) as i64 }).spec_div(Scalar { nanos: 255_000_000_000 })
}

/// The channel that the two characters at `at` spell, or `default` where
/// they spell none.
pub open spec fn spec_channel_at(bytes: Seq<u8>, at: int, default: u8) -> Scalar {
    spec_channel(
        match spec_hex_pair(bytes[at], bytes[at + 1]) {
            Some(value) => value,
            None => default,
        },
    )
}

/// The colour that the bytes of a trimmed text spell: `#rrggbb` is opaque,
/// `#rrggbbaa` has its alpha; a pair of characters that is no number counts
/// as zero, or as full for the alpha; anything else is opaque black.
pub open spec fn spec_color_of(bytes: Seq<u8>) -> Rgba {
    if bytes.len() == 7 && bytes[0] == 0x23 {
        Rgba {
            r: spec_channel_at(bytes, 1, 0),
            g: spec_channel_at(bytes, 3, 0),
            b: spec_channel_at(bytes, 5, 0),
            a: Scalar { nanos: NANOS_PER_UNIT },
        }
    } else if bytes.len() == 9 && bytes[0] == 0x23 {
        Rgba {
            r: spec_channel_at(bytes, 1, 0),
            g: spec_channel_at(bytes, 3, 0),
            b: spec_channel_at(bytes, 5, 0),
            a: spec_channel_at(bytes, 7, 255),
        }
    } else {
        Rgba {
            r: Scalar { nanos: 0 },
            g: Scalar { nanos: 0 },
            b: Scalar { nanos: 0 },
            a: Scalar { nanos: NANOS_PER_UNIT },
        }
    }
}

/// The colour that `text` spells, white space around it aside.
pub open spec fn spec_parse_color(text: Seq<char>) -> Rgba {
    spec_color_of(encode_utf8(spec_trim(text)))
}

fn hex_digit(byte: u8) -> (r: Option<u8>)
    ensures
        r == spec_hex_digit(byte),
{
    if 0x30 <= byte && byte <= 0x39 {
        Some(byte - 0x30)
    } else if 0x61 <= byte && byte <= 0x66 {
        Some(byte - 0x61 + 10)
    } else if 0x41 <= byte && byte <= 0x46 {
        Some(byte - 0x41 + 10)
    } else {
        None
    }
}

fn channel_of(high: u8, low: u8, default: u8) -> (r: Scalar)
    ensures
        r == spec_channel(
            match spec_hex_pair(high, low) {
                Some(value) => value,
                None => default,
            },
        ),
{
    let pair = match hex_digit(low) {
        None => None,
        Some(units) => match hex_digit(high) {
            Some(sixteens) => Some(sixteens * 16 + units),
            None => if high == 0x2b {
                Some(units)
            } else {
                None
            },
        },
    };
    let value: u8 = match pair {
        Some(value) => value,
        None => default,
    };
    Scalar::from_int(value as i32).div(Scalar::from_int(255))
}

/// The colour that `color` spells, white space around it aside.
pub fn parse_color(color: &str) -> (r: Rgba)
    ensures
        r == spec_parse_color(color@),
{
    let bytes = trim(color).as_bytes();
    if bytes.len() == 7 && bytes[0] == 0x23 {
        Rgba {
            r: channel_of(bytes[1], bytes[2], 0),
            g: channel_of(bytes[3], bytes[4], 0),
            b: channel_of(bytes[5], bytes[6], 0),
            a: Scalar::one(),
        }
    } else if bytes.len() == 9 && bytes[0] == 0x23 {
        Rgba {
            r: channel_of(bytes[1], bytes[2], 0),
            g: channel_of(bytes[3], bytes[4], 0),
            b: channel_of(bytes[5], bytes[6], 0),
            a: channel_of(bytes[7], bytes[8], 255),
        }
    } else {
        Rgba { r: Scalar::zero(), g: Scalar::zero(), b: Scalar::zero(), a: Scalar::one() }
    }
}

/// One colour of a gradient as Cairo takes it.
#[derive(Clone, Copy, Debug, PartialEq, Eq, Structural)]
pub struct ColorStop {
    pub offset: Scalar,
    pub color: Rgba,
}

/// What Cairo paints with.
#[derive(Debug, PartialEq)]
pub enum Source {
    Solid(Rgba),
    Linear { x0: Scalar, y0: Scalar, x1: Scalar, y1: Scalar, stops: Vec<ColorStop> },
    Radial {
        x0: Scalar,
        y0: Scalar,
        r0: Scalar,
        x1: Scalar,
        y1: Scalar,
        r1: Scalar,
        stops: Vec<ColorStop>,
    },
}

/// A [`Source`] as a value of specifications.
pub enum SourceView {
    Solid(Rgba),
    Gradient { kind: GradientKind, stops: Seq<ColorStop> },
}

impl View for Source {
    type V = SourceView;

    open spec fn view(&self) -> SourceView {
        match self {
            Source::Solid(color) => SourceView::Solid(*color),
            Source::Linear { x0, y0, x1, y1, stops } => SourceView::Gradient {
                kind: GradientKind::Linear { x0: *x0, y0: *y0, x1: *x1, y1: *y1 },
                stops: stops@,
            },
            Source::Radial { x0, y0, r0, x1, y1, r1, stops } => SourceView::Gradient {
                kind: GradientKind::Radial {
                    x0: *x0,
                    y0: *y0,
                    r0: *r0,
                    x1: *x1,
                    y1: *y1,
                    r1: *r1,
                },
                stops: stops@,
            },
        }
    }
}

/// A colour with its alpha multiplied by the opacity `alpha`.
pub open spec fn spec_faded(color: Rgba, alpha: Scalar) -> Rgba {
    Rgba { a: color.a.spec_mul(alpha), ..color }
}

/// The stops of a gradient as Cairo takes them, in their order: each colour
/// parsed, and its alpha multiplied by the opacity `alpha`.
pub open spec fn spec_color_stops(stops: Seq<GradientStopView>, alpha: Scalar) -> Seq<ColorStop> {
    stops.map_values(
        |stop: GradientStopView|
            ColorStop { offset: stop.offset, color: spec_faded(spec_parse_color(stop.color), alpha) },
    )
}

/// What Cairo paints with for `paint` under the opacity `alpha`, where it
/// can paint with it: a pattern it cannot.
pub open spec fn spec_paint_source(paint: PaintView, alpha: Scalar) -> Option<SourceView> {
    match paint {
        PaintView::Color(text) => Some(SourceView::Solid(spec_faded(spec_parse_color(text), alpha))),
        PaintView::Gradient(gradient) => Some(
            SourceView::Gradient {
                kind: gradient.kind,
                stops: spec_color_stops(gradient.stops, alpha),
            },
        ),
        PaintView::Pattern(_) => None,
    }
}

fn color_stops(stops: &Vec<GradientStop>, alpha: Scalar) -> (r: Vec<ColorStop>)
    ensures
        r@ == spec_color_stops(stops_view(stops@), alpha),
{
    let mut out: Vec<ColorStop> = Vec::new();
    let mut i: usize = 0;
    while i < stops.len()
        invariant
            i <= stops.len(),
            out@.len() == i,
            forall|j: int|
                0 <= j < i ==> out@[j] == (ColorStop {
                    offset: stops@[j].offset,
                    color: spec_faded(spec_parse_color(stops@[j].color@), alpha),
                }),
        decreases stops.len() - i,
    {
        let color = parse_color(stops[i].color.as_str());
        out.push(
            ColorStop {
                offset: stops[i].offset,
                color: Rgba { r: color.r, g: color.g, b: color.b, a: color.a.mul(alpha) },
            },
        );
        i += 1;
    }
    assert(out@ =~= spec_color_stops(stops_view(stops@), alpha));
    out
}

/// What Cairo paints with for `paint` under the opacity `alpha`.
///
/// A pattern is refused: painting with one takes the image it was made of,
/// which a pattern does not keep.
pub fn paint_source(paint: &Paint, alpha: Scalar) -> (r: Result<Source, LignumError>)
    ensures
        match r {
            Ok(source) => spec_paint_source(paint@, alpha) == Some(source@),
            Err(error) => spec_paint_source(paint@, alpha) is None && error.is_backend(
                "Pattern painting is not implemented for Cairo backend yet"@,
            ),
        },
{
    match paint {
        Paint::Color(text) => {
            let color = parse_color(text.as_str());
            Ok(Source::Solid(Rgba { r: color.r, g: color.g, b: color.b, a: color.a.mul(alpha) }))
        },
        Paint::Gradient(gradient) => {
            let stops = color_stops(&gradient.stops, alpha);
            match gradient.kind {
                GradientKind::Linear { x0, y0, x1, y1 } => Ok(
                    Source::Linear { x0, y0, x1, y1, stops },
                ),
                GradientKind::Radial { x0, y0, r0, x1, y1, r1 } => Ok(
                    Source::Radial { x0, y0, r0, x1, y1, r1, stops },
                ),
            }
        },
        Paint::Pattern(_) => Err(
            LignumError::Backend(
                String::from_str("Pattern painting is not implemented for Cairo backend yet"),
            ),
        ),
    }
}

/// The value of the decimal digit `c`, where it is one.
pub open spec fn spec_digit_value(c: char) -> Option<nat> {
    let code = c as u32;
    if 0x30 <= code <= 0x39 {
        Some((code - 0x30) as nat)
    } else {
        None
    }
}

/// The number that decimal digits spell, where they all are digits; no
/// digits spell zero.
pub open spec fn spec_whole(digits: Seq<char>) -> Option<nat>
    decreases digits.len(),
{
    if digits.len() == 0 {
        Some(0)
    } else {
        match (spec_whole(digits.drop_last()), spec_digit_value(digits.last())) {
            (Some(value), Some(digit)) => Some(value * 10 + digit),
            _ => None,
        }
    }
}

/// Ten to the power `n`.
pub open spec fn pow10(n: nat) -> nat
    decreases n,
{
    if n == 0 {
        1
    } else {
        10 * pow10((n - 1) as nat)
    }
}

/// How many billionths a one counts whose place is ten to the power `power`
/// billionths: nothing where that is less than one billionth.
pub open spec fn spec_place(power: int) -> nat {
    if power < 0 {
        0
    } else {
        pow10(power as nat)
    }
}

/// The billionths that digits spell, where they all are digits: a one in
/// the first place counts ten to the power `top` billionths, in the next a
/// tenth of that, and digits below one billionth count nothing.
pub open spec fn spec_digits(digits: Seq<char>, top: int) -> Option<nat>
    decreases digits.len(),
{
    if digits.len() == 0 {
        Some(0)
    } else {
        match (spec_digit_value(digits[0]), spec_digits(digits.drop_first(), top - 1)) {
            (Some(digit), Some(rest)) => Some(digit * spec_place(top) + rest),
            _ => None,
        }
    }
}

/// Where the first `e` or `E` of `text` at or behind `at` stands, or the
/// length of `text` where there is none.
pub open spec fn spec_mark(text: Seq<char>, at: int) -> int
    decreases text.len() - at,
{
    if at >= text.len() || text[at] == 'e' || text[at] == 'E' {
        at
    } else {
        spec_mark(text, at + 1)
    }
}

/// Whether `c` is the small letter `letter` or its capital.
pub open spec fn spec_is_letter(c: char, letter: char) -> bool {
    c == letter || (0x41 <= (c as u32) <= 0x5a && (c as u32) + 0x20 == (letter as u32))
}

/// Whether `text` is `word`, which is in small letters, in small letters or
/// capitals.
pub open spec fn spec_is_word(text: Seq<char>, word: Seq<char>) -> bool {
    text.len() == word.len() && forall|i: int|
        0 <= i < text.len() ==> spec_is_letter(#[trigger] text[i], word[i])
}

/// The power of ten that `text` spells behind the `e` of a number, where it
/// spells one: a sign or none, then digits, at least one. A power beyond a
/// hundred billions of billions counts as that.
pub open spec fn spec_exponent(text: Seq<char>) -> Option<int> {
    let signed = text.len() > 0 && (text[0] == '-' || text[0] == '+');
    let negative = text.len() > 0 && text[0] == '-';
    let digits = if signed {
        text.drop_first()
    } else {
        text
    };
    if digits.len() == 0 {
        None
    } else {
        match spec_whole(digits) {
            Some(value) => {
                let held = if value < 100_000_000_000_000_000_000 {
                    value as int
                } else {
                    100_000_000_000_000_000_000int
                };
                Some(
                    if negative {
                        -held
                    } else {
                        held
                    },
                )
            },
            None => None,
        }
    }
}

/// Where the first decimal point of `text` at or behind `at` stands, or the
/// length of `text` where there is none.
pub open spec fn spec_point(text: Seq<char>, at: int) -> int
    decreases text.len() - at,
{
    if at >= text.len() || text[at] == '.' {
        at
    } else {
        spec_point(text, at + 1)
    }
}

/// The number that digits spell, with its sign: digits, with a decimal
/// point among, before or behind them or without one, and behind them an `e`
/// and a power of ten or neither. The number is cut off behind the ninth
/// decimal place and saturates.
pub open spec fn spec_decimal(body: Seq<char>, negative: bool) -> Option<Scalar> {
    let mark = spec_mark(body, 0);
    let mantissa = body.subrange(0, mark);
    let exponent = if mark < body.len() {
        spec_exponent(body.subrange(mark + 1, body.len() as int))
    } else {
        Some(0int)
    };
    let point = spec_point(mantissa, 0);
    let whole = mantissa.subrange(0, point);
    let fraction = if point < mantissa.len() {
        mantissa.subrange(point + 1, mantissa.len() as int)
    } else {
        Seq::empty()
    };
    if whole.len() + fraction.len() == 0 {
        None
    } else {
        match exponent {
            None => None,
            Some(power) => match (
                spec_digits(whole, power + 8 + whole.len()),
                spec_digits(fraction, power + 8),
            ) {
                (Some(units), Some(rest)) => Some(
                    Scalar {
                        nanos: saturate(
                            if negative {
                                -(units + rest)
                            } else {
                                (units + rest) as int
                            },
                        ),
                    },
                ),
                _ => None,
            },
        }
    }
}

/// The number that `text` spells, where it spells one: a sign or none, and
/// then either digits, as [`spec_decimal`] reads them; or `inf` or
/// `infinity`, which is the largest number; or `nan`, which is zero.
/// Letters may be small or capital.
pub open spec fn spec_parse_number(text: Seq<char>) -> Option<Scalar> {
    let signed = text.len() > 0 && (text[0] == '-' || text[0] == '+');
    let negative = text.len() > 0 && text[0] == '-';
    let body = if signed {
        text.drop_first()
    } else {
        text
    };
    if spec_is_word(body, "inf"@) || spec_is_word(body, "infinity"@) {
        Some(
            Scalar {
                nanos: if negative {
                    i64::MIN
                } else {
                    i64::MAX
                },
            },
        )
    } else if spec_is_word(body, "nan"@) {
        Some(Scalar { nanos: 0 })
    } else {
        spec_decimal(body, negative)
    }
}

/// Where the word that starts at `at` ends: at the first white space at or
/// behind `at`, or at the end of `text`.
pub open spec fn spec_word_end(text: Seq<char>, at: int) -> int
    decreases text.len() - at,
{
    if at >= text.len() || is_white_space(text[at]) {
        at
    } else {
        spec_word_end(text, at + 1)
    }
}

/// The size and the family after `word`: a word that ends in `px` sets the
/// size where what stands before the `px` is a number, and is passed over
/// where it is none; any other word is the family.
pub open spec fn spec_font_word(word: Seq<char>, size: Scalar, family: Seq<char>) -> (
    Scalar,
    Seq<char>,
) {
    if word.len() >= 2 && word[word.len() - 2] == 'p' && word[word.len() - 1] == 'x' {
        match spec_parse_number(word.subrange(0, word.len() - 2)) {
            Some(value) => (value, family),
            None => (size, family),
        }
    } else {
        (size, word)
    }
}

/// The size and the family after the words of `text` from `at` on.
pub open spec fn spec_font_from(text: Seq<char>, at: int, size: Scalar, family: Seq<char>) -> (
    Scalar,
    Seq<char>,
)
    decreases text.len() - at,
{
    if at < 0 || at >= text.len() {
        (size, family)
    } else if is_white_space(text[at]) {
        spec_font_from(text, at + 1, size, family)
    } else {
        let end = spec_word_end(text, at);
        let after = spec_font_word(text.subrange(at, end), size, family);
        spec_font_from(
            text,
            if at < end <= text.len() {
                end
            } else {
                at + 1
            },
            after.0,
            after.1,
        )
    }
}

/// The size in pixels and the family that a font is asked for with: of the
/// words of `text`, the last number before a `px` and the last other word;
/// sixteen pixels and `Sans` where there is none.
pub open spec fn spec_parse_font(text: Seq<char>) -> (Scalar, Seq<char>) {
    spec_font_from(text, 0, Scalar { nanos: 16_000_000_000 }, "Sans"@)
}

fn is_space(c: char) -> (r: bool)
    ensures
        r == is_white_space(c),
{
    let code: u32 = c as u32;
    (0x09 <= code && code <= 0x0d) || code == 0x20 || code == 0x85 || code == 0xa0 || code
        == 0x1680 || (0x2000 <= code && code <= 0x200a) || code == 0x2028 || code == 0x2029
        || code == 0x202f || code == 0x205f || code == 0x3000
}

fn digit_value(c: char) -> (r: Option<u8>)
    ensures
        match r {
            Some(digit) => spec_digit_value(c) == Some(digit as nat) && digit < 10,
            None => spec_digit_value(c) is None,
        },
{
    let code: u32 = c as u32;
    if 0x30 <= code && code <= 0x39 {
        Some((code - 0x30) as u8)
    } else {
        None
    }
}

/// The characters of `text`.
fn chars_of(text: &str) -> (chars: Vec<char>)
    ensures
        chars@ == text@,
{
    let mut chars: Vec<char> = Vec::new();
    for c in it: text.chars()
        invariant
            it.seq() == text@,
            chars@ == text@.take(it.index() as int),
    {
        chars.push(c);
        assert(chars@ =~= text@.take(it.index() + 1));
    }
    assert(chars@ =~= text@);
    chars
}

/// The number that the digits of `chars` from `from` to `to` spell, held to
/// a hundred billions of billions.
fn parse_whole(chars: &Vec<char>, from: usize, to: usize) -> (r: Option<u128>)
    requires
        from <= to <= chars@.len(),
    ensures
        match r {
            Some(value) => spec_whole(chars@.subrange(from as int, to as int)) matches Some(units)
                && value == (if units < 100_000_000_000_000_000_000 {
                units
            } else {
                100_000_000_000_000_000_000
            }),
            None => spec_whole(chars@.subrange(from as int, to as int)) is None,
        },
{
    let mut value: u128 = 0;
    let mut i: usize = from;
    assert(chars@.subrange(from as int, from as int) =~= Seq::<char>::empty());
    while i < to
        invariant
            from <= i <= to <= chars@.len(),
            value <= 100_000_000_000_000_000_000,
            spec_whole(chars@.subrange(from as int, i as int)) matches Some(units) && value == (
            if units < 100_000_000_000_000_000_000 {
                units
            } else {
                100_000_000_000_000_000_000
            }),
        decreases to - i,
    {
        proof {
            let next = chars@.subrange(from as int, i + 1);
            assert(next.drop_last() =~= chars@.subrange(from as int, i as int));
            assert(next.last() == chars@[i as int]);
        }
        match digit_value(chars[i]) {
            Some(digit) => {
                let grown: u128 = value * 10 + (digit as u128);
                value = if grown > 100_000_000_000_000_000_000 {
                    100_000_000_000_000_000_000
                } else {
                    grown
                };
            },
            None => {
                proof {
                    lemma_whole_needs_digits(chars@.subrange(from as int, to as int), i - from);
                }
                return None;
            },
        }
        i += 1;
    }
    Some(value)
}

/// Digits spell a number only if each of them is a digit.
proof fn lemma_whole_needs_digits(digits: Seq<char>, at: int)
    requires
        0 <= at < digits.len(),
        spec_digit_value(digits[at]) is None,
    ensures
        spec_whole(digits) is None,
    decreases digits.len(),
{
    if at < digits.len() - 1 {
        lemma_whole_needs_digits(digits.drop_last(), at);
    }
}

/// Ten to the power `power`.
fn place_of(power: u8) -> (r: u128)
    requires
        power <= 18,
    ensures
        r == pow10(power as nat),
        r <= 1_000_000_000_000_000_000,
{
    proof {
        reveal_with_fuel(pow10, 20);
    }
    let mut r: u128 = 1;
    let mut i: u8 = 0;
    while i < power
        invariant
            i <= power <= 18,
            r == pow10(i as nat),
            pow10(18) == 1_000_000_000_000_000_000,
            r * pow10((18 - i) as nat) == pow10(18),
        decreases power - i,
    {
        assert(r * 10 * pow10((18 - i - 1) as nat) == r * pow10((18 - i) as nat)) by {
            assert(pow10((18 - i) as nat) == 10 * pow10((18 - i - 1) as nat));
            assert(r * 10 * pow10((18 - i - 1) as nat) == r * (10 * pow10((18 - i - 1) as nat)))
                by (nonlinear_arith);
        }
        assert(r * 10 <= pow10(18)) by (nonlinear_arith)
            requires
                r * 10 * pow10((18 - i - 1) as nat) == pow10(18),
                pow10((18 - i - 1) as nat) >= 1,
        ;
        r = r * 10;
        i = i + 1;
    }
    assert(r <= pow10(18)) by (nonlinear_arith)
        requires
            r * pow10((18 - i) as nat) == pow10(18),
            pow10((18 - i) as nat) >= 1,
    ;
    r
}

/// Ten to a power of nineteen or more is ten billions of billions or more.
proof fn lemma_pow10_grows(n: nat)
    ensures
        pow10(n) >= 1,
        n >= 19 ==> pow10(n) >= 10_000_000_000_000_000_000,
    decreases n,
{
    reveal_with_fuel(pow10, 20);
    if n > 19 {
        lemma_pow10_grows((n - 1) as nat);
    } else if n > 0 {
        lemma_pow10_grows((n - 1) as nat);
    }
}

/// The billionths that the digits of `chars` from `from` to `to` spell, held
/// to ten billions of billions.
fn parse_digits(chars: &Vec<char>, from: usize, to: usize, top: i128) -> (r: Option<u128>)
    requires
        from <= to <= chars@.len(),
        -0x10_0000_0000_0000_0000_0000_0000 <= top <= 0x10_0000_0000_0000_0000_0000_0000,
    ensures
        match r {
            Some(value) => spec_digits(chars@.subrange(from as int, to as int), top as int)
                matches Some(total) && value == (if total < 10_000_000_000_000_000_000 {
                total
            } else {
                10_000_000_000_000_000_000
            }),
            None => spec_digits(chars@.subrange(from as int, to as int), top as int) is None,
        },
{
    let ghost all = chars@.subrange(from as int, to as int);
    let ghost mut total: nat = 0;
    let mut value: u128 = 0;
    let mut i: usize = from;
    while i < to
        invariant
            from <= i <= to <= chars@.len(),
            all == chars@.subrange(from as int, to as int),
            -0x10_0000_0000_0000_0000_0000_0000 <= top <= 0x10_0000_0000_0000_0000_0000_0000,
            value == (if total < 10_000_000_000_000_000_000 {
                total
            } else {
                10_000_000_000_000_000_000
            }),
            spec_digits(all, top as int) == (match spec_digits(
                chars@.subrange(i as int, to as int),
                top - (i - from),
            ) {
                Some(rest) => Some((total + rest) as nat),
                None => None,
            }),
        decreases to - i,
    {
        proof {
            let rest = chars@.subrange(i as int, to as int);
            assert(rest.drop_first() =~= chars@.subrange(i + 1, to as int));
            assert(rest[0] == chars@[i as int]);
        }
        let power: i128 = top - ((i - from) as i128);
        match digit_value(chars[i]) {
            Some(digit) => {
                if power >= 19 {
                    if digit > 0 {
                        proof {
                            lemma_pow10_grows(power as nat);
                            assert(digit * pow10(power as nat) >= pow10(power as nat))
                                by (nonlinear_arith)
                                requires
                                    digit >= 1,
                            ;
                            total = (total + digit * spec_place(power as int)) as nat;
                        }
                        value = 10_000_000_000_000_000_000;
                    } else {
                        assert(digit * spec_place(power as int) == 0) by (nonlinear_arith)
                            requires
                                digit == 0,
                        ;
                    }
                } else if power >= 0 {
                    let place = place_of(power as u8);
                    assert((digit as u128) * place <= 9 * place) by (nonlinear_arith)
                        requires
                            digit < 10,
                    ;
                    let grown: u128 = value + (digit as u128) * place;
                    proof {
                        total = (total + digit * spec_place(power as int)) as nat;
                    }
                    value = if grown > 10_000_000_000_000_000_000 {
                        10_000_000_000_000_000_000
                    } else {
                        grown
                    };
                } else {
                    assert(digit * spec_place(power as int) == 0) by (nonlinear_arith)
                        requires
                            spec_place(power as int) == 0,
                    ;
                }
            },
            None => {
                return None;
            },
        }
        i += 1;
    }
    assert(chars@.subrange(to as int, to as int) =~= Seq::<char>::empty());
    Some(value)
}

/// Where the first decimal point of `chars` from `from` to `to` stands.
fn find_point(chars: &Vec<char>, from: usize, to: usize) -> (at: usize)
    requires
        from <= to <= chars@.len(),
    ensures
        from <= at <= to,
        at - from == spec_point(chars@.subrange(from as int, to as int), 0),
{
    let ghost body = chars@.subrange(from as int, to as int);
    let mut at: usize = from;
    while at < to && chars[at] != '.'
        invariant
            from <= at <= to <= chars@.len(),
            body == chars@.subrange(from as int, to as int),
            spec_point(body, 0) == spec_point(body, at - from),
        decreases to - at,
    {
        at += 1;
    }
    at
}

/// Where the first `e` or `E` of `chars` from `from` to `to` stands.
fn find_mark(chars: &Vec<char>, from: usize, to: usize) -> (at: usize)
    requires
        from <= to <= chars@.len(),
    ensures
        from <= at <= to,
        at - from == spec_mark(chars@.subrange(from as int, to as int), 0),
{
    let ghost body = chars@.subrange(from as int, to as int);
    let mut at: usize = from;
    while at < to && chars[at] != 'e' && chars[at] != 'E'
        invariant
            from <= at <= to <= chars@.len(),
            body == chars@.subrange(from as int, to as int),
            spec_mark(body, 0) == spec_mark(body, at - from),
        decreases to - at,
    {
        at += 1;
    }
    at
}

/// Whether the characters of `chars` from `from` to `to` are `word`.
fn is_word(chars: &Vec<char>, from: usize, to: usize, word: &str) -> (r: bool)
    requires
        from <= to <= chars@.len(),
    ensures
        r == spec_is_word(chars@.subrange(from as int, to as int), word@),
{
    let letters = chars_of(word);
    if to - from != letters.len() {
        return false;
    }
    let ghost text = chars@.subrange(from as int, to as int);
    let mut i: usize = 0;
    while i < letters.len()
        invariant
            from <= to <= chars@.len(),
            to - from == letters@.len(),
            i <= letters@.len(),
            letters@ == word@,
            text == chars@.subrange(from as int, to as int),
            forall|j: int| 0 <= j < i ==> spec_is_letter(#[trigger] text[j], word@[j]),
        decreases letters@.len() - i,
    {
        let c: char = chars[from + i];
        let letter: char = letters[i];
        assert(text[i as int] == c && word@[i as int] == letter);
        let code: u32 = c as u32;
        if !(c == letter || (0x41 <= code && code <= 0x5a && code + 0x20 == letter as u32)) {
            return false;
        }
        i += 1;
    }
    true
}

/// The power of ten that the characters of `chars` from `from` to `to` spell.
fn parse_exponent(chars: &Vec<char>, from: usize, to: usize) -> (r: Option<i128>)
    requires
        from <= to <= chars@.len(),
    ensures
        match r {
            Some(power) => spec_exponent(chars@.subrange(from as int, to as int)) == Some(
                power as int,
            ) && -100_000_000_000_000_000_000 <= power <= 100_000_000_000_000_000_000,
            None => spec_exponent(chars@.subrange(from as int, to as int)) is None,
        },
{
    let ghost text = chars@.subrange(from as int, to as int);
    let signed: bool = from < to && (chars[from] == '-' || chars[from] == '+');
    let negative: bool = from < to && chars[from] == '-';
    let start: usize = if signed {
        from + 1
    } else {
        from
    };
    assert((if signed {
        text.drop_first()
    } else {
        text
    }) =~= chars@.subrange(start as int, to as int));
    if start == to {
        return None;
    }
    match parse_whole(chars, start, to) {
        Some(value) => Some(
            if negative {
                -(value as i128)
            } else {
                value as i128
            },
        ),
        None => None,
    }
}

/// The number that the digits of `chars` from `start` to `to` spell, with
/// its sign.
fn parse_decimal(chars: &Vec<char>, start: usize, to: usize, negative: bool) -> (r: Option<Scalar>)
    requires
        start <= to <= chars@.len(),
    ensures
        r == spec_decimal(chars@.subrange(start as int, to as int), negative),
{
    let ghost body = chars@.subrange(start as int, to as int);
    let mark = find_mark(chars, start, to);
    let ghost mantissa = body.subrange(0, mark - start);
    assert(mantissa =~= chars@.subrange(start as int, mark as int));
    let power: Option<i128> = if mark < to {
        assert(body.subrange(mark - start + 1, body.len() as int) =~= chars@.subrange(
            mark + 1,
            to as int,
        ));
        parse_exponent(chars, mark + 1, to)
    } else {
        Some(0)
    };
    let point = find_point(chars, start, mark);
    assert(mantissa.subrange(0, point - start) =~= chars@.subrange(start as int, point as int));
    let fraction_start: usize = if point < mark {
        point + 1
    } else {
        mark
    };
    assert(chars@.subrange(fraction_start as int, mark as int) =~= (if point - start
        < mantissa.len() {
        mantissa.subrange(point - start + 1, mantissa.len() as int)
    } else {
        Seq::empty()
    }));
    if (point - start) + (mark - fraction_start) == 0 {
        return None;
    }
    let power: i128 = match power {
        Some(power) => power,
        None => {
            return None;
        },
    };
    let units = match parse_digits(chars, start, point, power + 8 + ((point - start) as i128)) {
        Some(units) => units,
        None => {
            return None;
        },
    };
    let rest = match parse_digits(chars, fraction_start, mark, power + 8) {
        Some(rest) => rest,
        None => {
            return None;
        },
    };
    Some(with_sign(negative, units + rest))
}

/// The number of the size `total`, held to ten billions of billions, with
/// its sign.
fn with_sign(negative: bool, total: u128) -> (r: Scalar)
    ensures
        r.nanos == saturate(
            if negative {
                -(total as int)
            } else {
                total as int
            },
        ),
{
    if negative {
        if total >= 0x8000_0000_0000_0000 {
            Scalar { nanos: i64::MIN }
        } else {
            Scalar { nanos: -(total as i64) }
        }
    } else {
        if total > 0x7fff_ffff_ffff_ffff {
            Scalar { nanos: i64::MAX }
        } else {
            Scalar { nanos: total as i64 }
        }
    }
}

/// The number that the characters of `chars` from `from` to `to` spell.
fn parse_number(chars: &Vec<char>, from: usize, to: usize) -> (r: Option<Scalar>)
    requires
        from <= to <= chars@.len(),
    ensures
        r == spec_parse_number(chars@.subrange(from as int, to as int)),
{
    let ghost text = chars@.subrange(from as int, to as int);
    let signed: bool = from < to && (chars[from] == '-' || chars[from] == '+');
    let negative: bool = from < to && chars[from] == '-';
    let start: usize = if signed {
        from + 1
    } else {
        from
    };
    assert((if signed {
        text.drop_first()
    } else {
        text
    }) =~= chars@.subrange(start as int, to as int));
    if is_word(chars, start, to, "inf") || is_word(chars, start, to, "infinity") {
        Some(
            Scalar {
                nanos: if negative {
                    i64::MIN
                } else {
                    i64::MAX
                },
            },
        )
    } else if is_word(chars, start, to, "nan") {
        Some(Scalar { nanos: 0 })
    } else {
        parse_decimal(chars, start, to, negative)
    }
}

/// Where the word that starts at `at` ends.
fn word_end(chars: &Vec<char>, at: usize) -> (end: usize)
    requires
        at <= chars@.len(),
    ensures
        at <= end <= chars@.len(),
        end == spec_word_end(chars@, at as int),
{
    let mut end: usize = at;
    while end < chars.len() && !is_space(chars[end])
        invariant
            at <= end <= chars@.len(),
            spec_word_end(chars@, at as int) == spec_word_end(chars@, end as int),
        decreases chars@.len() - end,
    {
        end += 1;
    }
    end
}

/// The size in pixels and the family that a font is asked for with.
pub fn parse_font(font: &str) -> (r: (Scalar, String))
    ensures
        r.0 == spec_parse_font(font@).0,
        r.1@ == spec_parse_font(font@).1,
{
    let chars = chars_of(font);
    let mut size = Scalar::from_int(16);
    let mut family_at: Option<(usize, usize)> = None;
    let ghost mut family = "Sans"@;
    let mut at: usize = 0;
    while at < chars.len()
        invariant
            at <= chars@.len(),
            chars@ == font@,
            match family_at {
                Some((from, to)) => from <= to <= chars@.len() && family == chars@.subrange(
                    from as int,
                    to as int,
                ),
                None => family == "Sans"@,
            },
            spec_font_from(chars@, at as int, size, family) == spec_parse_font(font@),
        decreases chars@.len() - at,
    {
        if is_space(chars[at]) {
            at += 1;
        } else {
            let end = word_end(&chars, at + 1);
            let ghost word = chars@.subrange(at as int, end as int);
            if end - at >= 2 && chars[end - 2] == 'p' && chars[end - 1] == 'x' {
                assert(word.subrange(0, word.len() - 2) =~= chars@.subrange(at as int, end - 2));
                match parse_number(&chars, at, end - 2) {
                    Some(value) => {
                        size = value;
                    },
                    None => {},
                }
            } else {
                family_at = Some((at, end));
                proof {
                    family = word;
                }
            }
            at = end;
        }
    }
    let name = match family_at {
        Some((from, to)) => String::from_str(font.substring_char(from, to)),
        None => String::from_str("Sans"),
    };
    (size, name)
}

} // verus!
