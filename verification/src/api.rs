//! The values that a drawing context works with, and the traits that a
//! backend implements.

use vstd::prelude::*;
use vstd::string::StringExecFns;
use crate::error::LignumError;
use crate::scalar::Angle;
use crate::scalar::Scalar;
use crate::transform::Transform;

verus! {

/// How a pattern repeats its tile.
#[derive(Clone, Copy, Debug, PartialEq, Eq, Structural)]
pub enum PatternRepetition {
    Repeat,
    RepeatX,
    RepeatY,
    NoRepeat,
}

/// The shape of a line's ends.
#[derive(Clone, Copy, Debug, PartialEq, Eq, Structural)]
pub enum LineCap {
    Butt,
    Round,
    Square,
}

/// The shape of the corner where two lines meet.
#[derive(Clone, Copy, Debug, PartialEq, Eq, Structural)]
pub enum LineJoin {
    Round,
    Bevel,
    Miter,
}

/// Where text lies, along the line, with respect to its anchor.
#[derive(Clone, Copy, Debug, PartialEq, Eq, Structural)]
pub enum TextAlign {
    Left,
    Right,
    Center,
    Start,
    End,
}

/// Which line of the text sits on the anchor.
#[derive(Clone, Copy, Debug, PartialEq, Eq, Structural)]
pub enum TextBaseline {
    Top,
    Hanging,
    Middle,
    Alphabetic,
    Ideographic,
    Bottom,
}

/// The direction in which text runs.
#[derive(Clone, Copy, Debug, PartialEq, Eq, Structural)]
pub enum Direction {
    Ltr,
    Rtl,
    Inherit,
}

/// How what is drawn combines with what is already there.
#[derive(Clone, Copy, Debug, PartialEq, Eq, Structural)]
pub enum CompositeOperation {
    SourceOver,
    SourceIn,
    SourceOut,
    SourceAtop,
    DestinationOver,
    DestinationIn,
    DestinationOut,
    DestinationAtop,
    Lighter,
    Copy,
    Xor,
    Multiply,
    Screen,
    Overlay,
    Darken,
    Lighten,
    ColorDodge,
    ColorBurn,
    HardLight,
    SoftLight,
    Difference,
    Exclusion,
    Hue,
    Saturation,
    Color,
    Luminosity,
}

/// Which points count as inside a path.
#[derive(Clone, Copy, Debug, PartialEq, Eq, Structural)]
pub enum FillRule {
    NonZero,
    EvenOdd,
}

/// How carefully a scaled image is smoothed.
#[derive(Clone, Copy, Debug, PartialEq, Eq, Structural)]
pub enum ImageSmoothingQuality {
    Low,
    Medium,
    High,
}

/// The options of a hit test.
#[derive(Clone, Copy, Debug, PartialEq, Eq, Structural)]
pub struct HitOptions {
    pub fill_rule: FillRule,
}

impl Default for HitOptions {
    fn default() -> (r: HitOptions)
        ensures
            r.fill_rule == FillRule::NonZero,
    {
        HitOptions { fill_rule: FillRule::NonZero }
    }
}

/// What measuring a text gives.
#[derive(Clone, Copy, Debug, PartialEq, Eq, Structural)]
pub struct TextMetrics {
    pub width: Scalar,
}

/// One colour of a gradient, at `offset` along it.
#[derive(Debug, PartialEq)]
pub struct GradientStop {
    pub offset: Scalar,
    pub color: String,
}

/// A [`GradientStop`] as a value of specifications.
pub struct GradientStopView {
    pub offset: Scalar,
    pub color: Seq<char>,
}

impl View for GradientStop {
    type V = GradientStopView;

    open spec fn view(&self) -> GradientStopView {
        GradientStopView { offset: self.offset, color: self.color@ }
    }
}

impl Clone for GradientStop {
    fn clone(&self) -> (r: GradientStop)
        ensures
            r@ == self@,
    {
        GradientStop { offset: self.offset, color: self.color.clone() }
    }
}

/// The geometry of a gradient.
#[derive(Clone, Copy, Debug, PartialEq, Eq, Structural)]
pub enum GradientKind {
    /// Along the line from `(x0, y0)` to `(x1, y1)`.
    Linear { x0: Scalar, y0: Scalar, x1: Scalar, y1: Scalar },
    /// Between the circle about `(x0, y0)` of radius `r0` and the circle
    /// about `(x1, y1)` of radius `r1`.
    Radial { x0: Scalar, y0: Scalar, r0: Scalar, x1: Scalar, y1: Scalar, r1: Scalar },
}

/// A gradient: its geometry and its stops, in the order in which they were added.
#[derive(Debug, PartialEq)]
pub struct CanvasGradient {
    pub kind: GradientKind,
    pub stops: Vec<GradientStop>,
}

/// A [`CanvasGradient`] as a value of specifications.
pub struct GradientView {
    pub kind: GradientKind,
    pub stops: Seq<GradientStopView>,
}

/// The stops of a gradient as values of specifications, in their order.
pub open spec fn stops_view(stops: Seq<GradientStop>) -> Seq<GradientStopView> {
    stops.map_values(|stop: GradientStop| stop@)
}

impl View for CanvasGradient {
    type V = GradientView;

    open spec fn view(&self) -> GradientView {
        GradientView { kind: self.kind, stops: stops_view(self.stops@) }
    }
}

impl Clone for CanvasGradient {
    fn clone(&self) -> (r: CanvasGradient)
        ensures
            r@ == self@,
    {
        let mut stops: Vec<GradientStop> = Vec::new();
        let mut i: usize = 0;
        while i < self.stops.len()
            invariant
                i <= self.stops.len(),
                stops.len() == i,
                forall|j: int| 0 <= j < i ==> stops[j]@ == self.stops[j]@,
            decreases self.stops.len() - i,
        {
            stops.push(self.stops[i].clone());
            i += 1;
        }
        assert(stops_view(stops@) =~= stops_view(self.stops@));
        CanvasGradient { kind: self.kind, stops }
    }
}

impl CanvasGradient {
    /// A gradient of the geometry `kind` that has no stop yet.
    pub fn new(kind: GradientKind) -> (r: CanvasGradient)
        ensures
            r@ == (GradientView { kind, stops: Seq::empty() }),
    {
        let r = CanvasGradient { kind, stops: Vec::new() };
        assert(stops_view(r.stops@) =~= Seq::empty());
        r
    }

    /// Adds a stop of `color` at `offset`, behind the stops that are there.
    /// Neither the offset's range nor its order among the others is looked at.
    pub fn add_color_stop(&mut self, offset: Scalar, color: &str)
        ensures
            final(self)@.kind == old(self)@.kind,
            final(self)@.stops == old(self)@.stops.push(
                GradientStopView { offset, color: color@ },
            ),
    {
        self.stops.push(GradientStop { offset, color: String::from_str(color) });
        assert(stops_view(self.stops@) =~= stops_view(old(self).stops@).push(
            GradientStopView { offset, color: color@ },
        ));
    }
}

/// A pattern: how it repeats, and the transform of its tile where it has one.
#[derive(Clone, Copy, Debug, PartialEq, Eq, Structural)]
pub struct CanvasPattern {
    pub repetition: PatternRepetition,
    pub transform: Option<Transform>,
}

/// What a shape is filled or stroked with.
#[derive(Debug, PartialEq)]
pub enum Paint {
    /// A colour, as the text that names it.
    Color(String),
    Gradient(CanvasGradient),
    Pattern(CanvasPattern),
}

/// A [`Paint`] as a value of specifications.
pub enum PaintView {
    Color(Seq<char>),
    Gradient(GradientView),
    Pattern(CanvasPattern),
}

impl View for Paint {
    type V = PaintView;

    open spec fn view(&self) -> PaintView {
        match self {
            Paint::Color(text) => PaintView::Color(text@),
            Paint::Gradient(gradient) => PaintView::Gradient(gradient@),
            Paint::Pattern(pattern) => PaintView::Pattern(*pattern),
        }
    }
}

impl Clone for Paint {
    fn clone(&self) -> (r: Paint)
        ensures
            r@ == self@,
    {
        match self {
            Paint::Color(text) => Paint::Color(text.clone()),
            Paint::Gradient(gradient) => Paint::Gradient(gradient.clone()),
            Paint::Pattern(pattern) => Paint::Pattern(*pattern),
        }
    }
}

/// A rectangle of pixels: four bytes each (red, green, blue, alpha), row by row.
#[derive(Debug, PartialEq)]
pub struct ImageData {
    pub width: u32,
    pub height: u32,
    pub data: Vec<u8>,
}

/// An [`ImageData`] as a value of specifications.
pub struct ImageDataView {
    pub width: u32,
    pub height: u32,
    pub data: Seq<u8>,
}

impl View for ImageData {
    type V = ImageDataView;

    open spec fn view(&self) -> ImageDataView {
        ImageDataView { width: self.width, height: self.height, data: self.data@ }
    }
}

impl Clone for ImageData {
    fn clone(&self) -> (r: ImageData)
        ensures
            r@ == self@,
    {
        let data = self.data.clone();
        assert(data@ =~= self.data@);
        ImageData { width: self.width, height: self.height, data }
    }
}

/// Anything that an image can be drawn from.
///
/// A source may vouch for its answers: where `is_exact` holds of it, its
/// width, height and pixels are what its spec functions say, and whoever
/// draws from it says exactly what is drawn. Of a source that does not
/// vouch, which is what a source is unless it says otherwise, nothing is
/// known beforehand: whoever draws from it takes what it answers. Either
/// way the pixels are checked against the size before they are used.
pub trait CanvasImageSource {
    /// Whether the source answers as its spec functions say.
    open spec fn is_exact(&self) -> bool {
        false
    }

    /// The width in pixels, of a source that vouches for it.
    open spec fn spec_width(&self) -> u32 {
        0
    }

    /// The height in pixels, of a source that vouches for it.
    open spec fn spec_height(&self) -> u32 {
        0
    }

    /// The pixels, of a source that vouches for them.
    open spec fn spec_data_rgba(&self) -> Option<Seq<u8>> {
        None
    }

    /// The width in pixels.
    fn width(&self) -> (w: u32)
        ensures
            self.is_exact() ==> w == self.spec_width(),
    ;

    /// The height in pixels.
    fn height(&self) -> (h: u32)
        ensures
            self.is_exact() ==> h == self.spec_height(),
    ;

    /// The pixels, four bytes each (red, green, blue, alpha), row by row,
    /// where the source has them at hand. Their number is meant to be
    /// `width * height * 4`.
    fn data_rgba(&self) -> (data: Option<&[u8]>)
        ensures
            self.is_exact() ==> (match data {
                Some(bytes) => self.spec_data_rgba() == Some(bytes@),
                None => self.spec_data_rgba() is None,
            }),
    ;
}

impl CanvasImageSource for ImageData {
    open spec fn is_exact(&self) -> bool {
        true
    }

    open spec fn spec_width(&self) -> u32 {
        self.width
    }

    open spec fn spec_height(&self) -> u32 {
        self.height
    }

    open spec fn spec_data_rgba(&self) -> Option<Seq<u8>> {
        Some(self.data@)
    }

    fn width(&self) -> (w: u32) {
        self.width
    }

    fn height(&self) -> (h: u32) {
        self.height
    }

    fn data_rgba(&self) -> (data: Option<&[u8]>) {
        Some(self.data.as_slice())
    }
}

/// The state that `save` keeps and `restore` brings back, and the attributes
/// of compositing and image smoothing.
pub trait CanvasState {
    /// Puts a copy of the drawing state on the stack of saved states.
    fn save(&mut self) -> Result<(), LignumError>;

    /// Takes the state last saved from the stack and makes it the drawing state.
    fn restore(&mut self) -> Result<(), LignumError>;

    /// Sets the drawing state to its defaults; the stack of saved states stays.
    fn reset(&mut self) -> Result<(), LignumError>;

    /// Sets the opacity that everything drawn is multiplied by.
    fn set_global_alpha(&mut self, value: Scalar) -> Result<(), LignumError>;

    /// The opacity that everything drawn is multiplied by.
    fn global_alpha(&self) -> Result<Scalar, LignumError>;

    /// Sets how what is drawn combines with what is there.
    fn set_global_composite_operation(&mut self, op: CompositeOperation) -> Result<
        (),
        LignumError,
    >;

    /// How what is drawn combines with what is there.
    fn global_composite_operation(&self) -> Result<CompositeOperation, LignumError>;

    /// Sets whether scaled images are smoothed.
    fn set_image_smoothing_enabled(&mut self, enabled: bool) -> Result<(), LignumError>;

    /// Whether scaled images are smoothed.
    fn image_smoothing_enabled(&self) -> Result<bool, LignumError>;

    /// Sets how carefully scaled images are smoothed.
    fn set_image_smoothing_quality(&mut self, quality: ImageSmoothingQuality) -> Result<
        (),
        LignumError,
    >;

    /// How carefully scaled images are smoothed.
    fn image_smoothing_quality(&self) -> Result<ImageSmoothingQuality, LignumError>;
}

/// The current transform.
pub trait CanvasTransforms {
    /// Composes the current transform with a scaling.
    fn scale(&mut self, x: Scalar, y: Scalar) -> Result<(), LignumError>;

    /// Composes the current transform with a rotation about the origin.
    fn rotate(&mut self, angle: Angle) -> Result<(), LignumError>;

    /// Composes the current transform with a shift.
    fn translate(&mut self, x: Scalar, y: Scalar) -> Result<(), LignumError>;

    /// Composes the current transform with the transform of the six coefficients.
    fn transform(
        &mut self,
        a: Scalar,
        b: Scalar,
        c: Scalar,
        d: Scalar,
        e: Scalar,
        f: Scalar,
    ) -> Result<(), LignumError>;

    /// Replaces the current transform by the transform of the six coefficients.
    fn set_transform(
        &mut self,
        a: Scalar,
        b: Scalar,
        c: Scalar,
        d: Scalar,
        e: Scalar,
        f: Scalar,
    ) -> Result<(), LignumError>;

    /// Replaces the current transform by the identity.
    fn reset_transform(&mut self) -> Result<(), LignumError>;
}

/// The shadow that is drawn with every shape.
pub trait CanvasCompositing {
    fn set_shadow_offset_x(&mut self, value: Scalar) -> Result<(), LignumError>;

    fn shadow_offset_x(&self) -> Result<Scalar, LignumError>;

    fn set_shadow_offset_y(&mut self, value: Scalar) -> Result<(), LignumError>;

    fn shadow_offset_y(&self) -> Result<Scalar, LignumError>;

    fn set_shadow_blur(&mut self, value: Scalar) -> Result<(), LignumError>;

    fn shadow_blur(&self) -> Result<Scalar, LignumError>;

    fn set_shadow_color(&mut self, value: String) -> Result<(), LignumError>;

    fn shadow_color(&self) -> Result<String, LignumError>;
}

/// How lines are stroked.
pub trait CanvasLineStyles {
    fn set_line_width(&mut self, value: Scalar) -> Result<(), LignumError>;

    fn line_width(&self) -> Result<Scalar, LignumError>;

    fn set_line_cap(&mut self, value: LineCap) -> Result<(), LignumError>;

    fn line_cap(&self) -> Result<LineCap, LignumError>;

    fn set_line_join(&mut self, value: LineJoin) -> Result<(), LignumError>;

    fn line_join(&self) -> Result<LineJoin, LignumError>;

    fn set_miter_limit(&mut self, value: Scalar) -> Result<(), LignumError>;

    fn miter_limit(&self) -> Result<Scalar, LignumError>;

    /// Sets the lengths of the dashes and gaps; none makes a solid line.
    fn set_line_dash(&mut self, segments: Vec<Scalar>) -> Result<(), LignumError>;

    fn line_dash(&self) -> Result<Vec<Scalar>, LignumError>;

    fn set_line_dash_offset(&mut self, value: Scalar) -> Result<(), LignumError>;

    fn line_dash_offset(&self) -> Result<Scalar, LignumError>;
}

/// What shapes are filled and stroked with.
pub trait CanvasFillStrokeStyles {
    fn set_fill_style(&mut self, style: Paint) -> Result<(), LignumError>;

    fn fill_style(&self) -> Result<Paint, LignumError>;

    fn set_stroke_style(&mut self, style: Paint) -> Result<(), LignumError>;

    fn stroke_style(&self) -> Result<Paint, LignumError>;

    /// A gradient along the line from `(x0, y0)` to `(x1, y1)`, without stops.
    fn create_linear_gradient(&mut self, x0: Scalar, y0: Scalar, x1: Scalar, y1: Scalar) -> Result<
        CanvasGradient,
        LignumError,
    >;

    /// A gradient between two circles, without stops.
    fn create_radial_gradient(
        &mut self,
        x0: Scalar,
        y0: Scalar,
        r0: Scalar,
        x1: Scalar,
        y1: Scalar,
        r1: Scalar,
    ) -> Result<CanvasGradient, LignumError>;

    /// A pattern that repeats `image` as `repetition` says.
    fn create_pattern(
        &mut self,
        image: &dyn CanvasImageSource,
        repetition: PatternRepetition,
    ) -> Result<CanvasPattern, LignumError>;
}

/// Rectangles that are drawn at once, apart from the current path.
pub trait CanvasRectangles {
    fn clear_rect(&mut self, x: Scalar, y: Scalar, w: Scalar, h: Scalar) -> Result<
        (),
        LignumError,
    >;

    fn fill_rect(&mut self, x: Scalar, y: Scalar, w: Scalar, h: Scalar) -> Result<(), LignumError>;

    fn stroke_rect(&mut self, x: Scalar, y: Scalar, w: Scalar, h: Scalar) -> Result<
        (),
        LignumError,
    >;
}

/// The current path: building it, and filling, stroking and clipping by it.
pub trait CanvasPaths {
    /// Starts an empty path.
    fn begin_path(&mut self) -> Result<(), LignumError>;

    /// Closes the subpath with a straight line to its start.
    fn close_path(&mut self) -> Result<(), LignumError>;

    /// Starts a subpath at `(x, y)`.
    fn move_to(&mut self, x: Scalar, y: Scalar) -> Result<(), LignumError>;

    /// Adds a straight line to `(x, y)`.
    fn line_to(&mut self, x: Scalar, y: Scalar) -> Result<(), LignumError>;

    /// Adds a cubic curve to `(x, y)` with the two control points given.
    fn bezier_curve_to(
        &mut self,
        cp1x: Scalar,
        cp1y: Scalar,
        cp2x: Scalar,
        cp2y: Scalar,
        x: Scalar,
        y: Scalar,
    ) -> Result<(), LignumError>;

    /// Adds a quadratic curve to `(x, y)` with the control point given.
    fn quadratic_curve_to(&mut self, cpx: Scalar, cpy: Scalar, x: Scalar, y: Scalar) -> Result<
        (),
        LignumError,
    >;

    /// Adds an arc of the circle about `(x, y)`.
    fn arc(
        &mut self,
        x: Scalar,
        y: Scalar,
        radius: Scalar,
        start_angle: Angle,
        end_angle: Angle,
        ccw: bool,
    ) -> Result<(), LignumError>;

    /// Rounds the corner at `(x1, y1)` on the way to `(x2, y2)`.
    fn arc_to(&mut self, x1: Scalar, y1: Scalar, x2: Scalar, y2: Scalar, radius: Scalar) -> Result<
        (),
        LignumError,
    >;

    /// Adds an arc of the ellipse about `(x, y)`, turned by `rotation`.
    fn ellipse(
        &mut self,
        x: Scalar,
        y: Scalar,
        radius_x: Scalar,
        radius_y: Scalar,
        rotation: Angle,
        start_angle: Angle,
        end_angle: Angle,
        ccw: bool,
    ) -> Result<(), LignumError>;

    /// Adds a rectangle as a subpath of its own.
    fn rect(&mut self, x: Scalar, y: Scalar, w: Scalar, h: Scalar) -> Result<(), LignumError>;

    /// Adds a rectangle with rounded corners as a subpath of its own.
    fn round_rect(&mut self, x: Scalar, y: Scalar, w: Scalar, h: Scalar, radii: &[Scalar]) -> Result<
        (),
        LignumError,
    >;

    /// Fills the current path and empties it.
    fn fill(&mut self, fill_rule: FillRule) -> Result<(), LignumError>;

    /// Strokes the current path and empties it.
    fn stroke(&mut self) -> Result<(), LignumError>;

    /// Makes the current path the clip and empties it.
    fn clip(&mut self, fill_rule: FillRule) -> Result<(), LignumError>;

    /// Whether `(x, y)` lies inside the current path.
    fn is_point_in_path(&self, x: Scalar, y: Scalar, opts: HitOptions) -> Result<
        bool,
        LignumError,
    >;

    /// Whether `(x, y)` lies on the stroke of the current path.
    fn is_point_in_stroke(&self, x: Scalar, y: Scalar) -> Result<bool, LignumError>;
}

/// Text: its attributes, drawing it and measuring it.
pub trait CanvasText {
    fn set_font(&mut self, value: String) -> Result<(), LignumError>;

    fn font(&self) -> Result<String, LignumError>;

    fn set_text_align(&mut self, value: TextAlign) -> Result<(), LignumError>;

    fn text_align(&self) -> Result<TextAlign, LignumError>;

    fn set_text_baseline(&mut self, value: TextBaseline) -> Result<(), LignumError>;

    fn text_baseline(&self) -> Result<TextBaseline, LignumError>;

    fn set_direction(&mut self, value: Direction) -> Result<(), LignumError>;

    fn direction(&self) -> Result<Direction, LignumError>;

    fn fill_text(&mut self, text: &str, x: Scalar, y: Scalar, max_width: Option<Scalar>) -> Result<
        (),
        LignumError,
    >;

    fn stroke_text(&mut self, text: &str, x: Scalar, y: Scalar, max_width: Option<Scalar>) -> Result<
        (),
        LignumError,
    >;

    fn measure_text(&self, text: &str) -> Result<TextMetrics, LignumError>;
}

/// Reading and writing pixels.
pub trait CanvasImageData {
    fn create_image_data(&mut self, width: u32, height: u32) -> Result<ImageData, LignumError>;

    fn get_image_data(&self, sx: u32, sy: u32, sw: u32, sh: u32) -> Result<ImageData, LignumError>;

    fn put_image_data(&mut self, data: &ImageData, dx: Scalar, dy: Scalar) -> Result<
        (),
        LignumError,
    >;

    fn put_image_data_dirty(
        &mut self,
        data: &ImageData,
        dx: Scalar,
        dy: Scalar,
        dirty_x: u32,
        dirty_y: u32,
        dirty_width: u32,
        dirty_height: u32,
    ) -> Result<(), LignumError>;
}

/// Drawing images.
pub trait CanvasDrawImage {
    /// Draws `image` in its own size with its corner at `(dx, dy)`.
    fn draw_image(&mut self, image: &dyn CanvasImageSource, dx: Scalar, dy: Scalar) -> Result<
        (),
        LignumError,
    >;

    /// Draws `image` scaled to `dw` by `dh`.
    fn draw_image_scaled(
        &mut self,
        image: &dyn CanvasImageSource,
        dx: Scalar,
        dy: Scalar,
        dw: Scalar,
        dh: Scalar,
    ) -> Result<(), LignumError>;

    /// Draws the part of `image` that the first rectangle cuts out into the second.
    fn draw_image_subrect(
        &mut self,
        image: &dyn CanvasImageSource,
        sx: Scalar,
        sy: Scalar,
        sw: Scalar,
        sh: Scalar,
        dx: Scalar,
        dy: Scalar,
        dw: Scalar,
        dh: Scalar,
    ) -> Result<(), LignumError>;
}

/// Line styles and paints together.
pub trait CanvasPathDrawingStyles: CanvasLineStyles + CanvasFillStrokeStyles {

}

impl<T> CanvasPathDrawingStyles for T where T: CanvasLineStyles + CanvasFillStrokeStyles {

}

/// Everything a drawing context offers.
pub trait CanvasRenderingContext2D:
    CanvasState
    + CanvasTransforms
    + CanvasCompositing
    + CanvasRectangles
    + CanvasPaths
    + CanvasPathDrawingStyles
    + CanvasText
    + CanvasImageData
    + CanvasDrawImage
{

}

} // verus!
