//! A backend that draws nothing and keeps everything: each drawing operation
//! is recorded with the path it consumed and a copy of the drawing state.

use vstd::prelude::*;
use vstd::string::StringExecFns;
use vstd::string::StringSliceAdditionalSpecFns;
use vstd::utf8::encode_utf8;
use crate::api::CanvasCompositing;
use crate::api::CanvasDrawImage;
use crate::api::CanvasFillStrokeStyles;
use crate::api::CanvasGradient;
use crate::api::CanvasImageData;
use crate::api::CanvasImageSource;
use crate::api::CanvasLineStyles;
use crate::api::CanvasPaths;
use crate::api::CanvasPattern;
use crate::api::CanvasRectangles;
use crate::api::CanvasRenderingContext2D;
use crate::api::CanvasState;
use crate::api::CanvasText;
use crate::api::CanvasTransforms;
use crate::api::CompositeOperation;
use crate::api::Direction;
use crate::api::FillRule;
use crate::api::GradientKind;
use crate::api::GradientView;
use crate::api::HitOptions;
use crate::api::ImageData;
use crate::api::ImageDataView;
use crate::api::ImageSmoothingQuality;
use crate::api::LineCap;
use crate::api::LineJoin;
use crate::api::Paint;
use crate::api::PaintView;
use crate::api::PatternRepetition;
use crate::api::TextAlign;
use crate::api::TextBaseline;
use crate::api::TextMetrics;
use crate::error::LignumError;
use crate::geometry::spec_arc_point;
use crate::geometry::spec_ellipse_point;
use crate::geometry::spec_expand_radii;
use crate::geometry::spec_tangent_join;
use crate::geometry::arc_point;
use crate::geometry::ellipse_point;
use crate::geometry::expand_radii;
use crate::geometry::tangent_join;
use crate::geometry::CornerRadii;
use crate::geometry::TangentJoin;
use crate::scalar::saturate;
use crate::scalar::Angle;
use crate::scalar::Scalar;
use crate::scalar::NANOS_PER_UNIT;
use crate::transform::lemma_compose_translation_scaling_associative;
use crate::transform::lemma_translation_then_scaling;
use crate::transform::Transform;

verus! {

/// One step of a path.
#[derive(Clone, Copy, Debug, PartialEq, Eq, Structural)]
pub enum PathCommand {
    MoveTo { x: Scalar, y: Scalar },
    LineTo { x: Scalar, y: Scalar },
    BezierCurveTo { cp1x: Scalar, cp1y: Scalar, cp2x: Scalar, cp2y: Scalar, x: Scalar, y: Scalar },
    QuadraticCurveTo { cpx: Scalar, cpy: Scalar, x: Scalar, y: Scalar },
    Arc { x: Scalar, y: Scalar, radius: Scalar, start_angle: Angle, end_angle: Angle, ccw: bool },
    ArcTo { x1: Scalar, y1: Scalar, x2: Scalar, y2: Scalar, radius: Scalar },
    Ellipse {
        x: Scalar,
        y: Scalar,
        radius_x: Scalar,
        radius_y: Scalar,
        rotation: Angle,
        start_angle: Angle,
        end_angle: Angle,
        ccw: bool,
    },
    Rect { x: Scalar, y: Scalar, w: Scalar, h: Scalar },
    RoundRect { x: Scalar, y: Scalar, w: Scalar, h: Scalar, radii: CornerRadii },
    ClosePath,
}

/// A path as it was when an operation consumed it.
#[derive(Debug, PartialEq)]
pub struct RecordedPath {
    pub commands: Vec<PathCommand>,
}

impl View for RecordedPath {
    type V = Seq<PathCommand>;

    open spec fn view(&self) -> Seq<PathCommand> {
        self.commands@
    }
}

impl Clone for RecordedPath {
    fn clone(&self) -> (r: RecordedPath)
        ensures
            r@ == self@,
    {
        let commands = self.commands.clone();
        assert(commands@ =~= self.commands@);
        RecordedPath { commands }
    }
}

impl RecordedPath {
    /// The path of the commands given.
    pub fn new(commands: Vec<PathCommand>) -> (r: RecordedPath)
        ensures
            r@ == commands@,
    {
        RecordedPath { commands }
    }
}

/// The clip in force: the path that bounds it, the rule that says what is
/// inside, and the transform that was current when the clip was made.
#[derive(Debug, PartialEq)]
pub struct ClipState {
    pub path: RecordedPath,
    pub rule: FillRule,
    pub transform: Transform,
}

/// A [`ClipState`] as a value of specifications.
pub struct ClipView {
    pub path: Seq<PathCommand>,
    pub rule: FillRule,
    pub transform: Transform,
}

impl View for ClipState {
    type V = ClipView;

    open spec fn view(&self) -> ClipView {
        ClipView { path: self.path@, rule: self.rule, transform: self.transform }
    }
}

impl Clone for ClipState {
    fn clone(&self) -> (r: ClipState)
        ensures
            r@ == self@,
    {
        ClipState { path: self.path.clone(), rule: self.rule, transform: self.transform }
    }
}

/// The drawing state: every attribute that `save` keeps.
#[derive(Debug, PartialEq)]
pub struct Snapshot {
    pub global_alpha: Scalar,
    pub composite: CompositeOperation,
    pub image_smoothing_enabled: bool,
    pub image_smoothing_quality: ImageSmoothingQuality,
    pub shadow_offset_x: Scalar,
    pub shadow_offset_y: Scalar,
    pub shadow_blur: Scalar,
    pub shadow_color: String,
    pub line_width: Scalar,
    pub line_cap: LineCap,
    pub line_join: LineJoin,
    pub miter_limit: Scalar,
    pub line_dash: Vec<Scalar>,
    pub line_dash_offset: Scalar,
    pub fill_style: Paint,
    pub stroke_style: Paint,
    pub font: String,
    pub text_align: TextAlign,
    pub text_baseline: TextBaseline,
    pub direction: Direction,
    pub transform: Transform,
    pub clip: Option<ClipState>,
}

/// A [`Snapshot`] as a value of specifications.
pub struct SnapshotView {
    pub global_alpha: Scalar,
    pub composite: CompositeOperation,
    pub image_smoothing_enabled: bool,
    pub image_smoothing_quality: ImageSmoothingQuality,
    pub shadow_offset_x: Scalar,
    pub shadow_offset_y: Scalar,
    pub shadow_blur: Scalar,
    pub shadow_color: Seq<char>,
    pub line_width: Scalar,
    pub line_cap: LineCap,
    pub line_join: LineJoin,
    pub miter_limit: Scalar,
    pub line_dash: Seq<Scalar>,
    pub line_dash_offset: Scalar,
    pub fill_style: PaintView,
    pub stroke_style: PaintView,
    pub font: Seq<char>,
    pub text_align: TextAlign,
    pub text_baseline: TextBaseline,
    pub direction: Direction,
    pub transform: Transform,
    pub clip: Option<ClipView>,
}

/// The clip of a state as a value of specifications.
pub open spec fn clip_view(clip: Option<ClipState>) -> Option<ClipView> {
    match clip {
        Some(state) => Some(state@),
        None => None,
    }
}

impl View for Snapshot {
    type V = SnapshotView;

    open spec fn view(&self) -> SnapshotView {
        SnapshotView {
            global_alpha: self.global_alpha,
            composite: self.composite,
            image_smoothing_enabled: self.image_smoothing_enabled,
            image_smoothing_quality: self.image_smoothing_quality,
            shadow_offset_x: self.shadow_offset_x,
            shadow_offset_y: self.shadow_offset_y,
            shadow_blur: self.shadow_blur,
            shadow_color: self.shadow_color@,
            line_width: self.line_width,
            line_cap: self.line_cap,
            line_join: self.line_join,
            miter_limit: self.miter_limit,
            line_dash: self.line_dash@,
            line_dash_offset: self.line_dash_offset,
            fill_style: self.fill_style@,
            stroke_style: self.stroke_style@,
            font: self.font@,
            text_align: self.text_align,
            text_baseline: self.text_baseline,
            direction: self.direction,
            transform: self.transform,
            clip: clip_view(self.clip),
        }
    }
}

impl Clone for Snapshot {
    fn clone(&self) -> (r: Snapshot)
        ensures
            r@ == self@,
    {
        let line_dash = self.line_dash.clone();
        assert(line_dash@ =~= self.line_dash@);
        let clip = match &self.clip {
            Some(state) => Some(state.clone()),
            None => None,
        };
        Snapshot {
            global_alpha: self.global_alpha,
            composite: self.composite,
            image_smoothing_enabled: self.image_smoothing_enabled,
            image_smoothing_quality: self.image_smoothing_quality,
            shadow_offset_x: self.shadow_offset_x,
            shadow_offset_y: self.shadow_offset_y,
            shadow_blur: self.shadow_blur,
            shadow_color: self.shadow_color.clone(),
            line_width: self.line_width,
            line_cap: self.line_cap,
            line_join: self.line_join,
            miter_limit: self.miter_limit,
            line_dash,
            line_dash_offset: self.line_dash_offset,
            fill_style: self.fill_style.clone(),
            stroke_style: self.stroke_style.clone(),
            font: self.font.clone(),
            text_align: self.text_align,
            text_baseline: self.text_baseline,
            direction: self.direction,
            transform: self.transform,
            clip,
        }
    }
}

impl SnapshotView {
    /// The state of a context that nothing has been set on: opaque, drawn
    /// over what is there, a solid black line of width one with butt caps
    /// and miter joins, black fill, ten-pixel sans-serif text, the identity
    /// transform and no clip.
    pub open spec fn initial() -> SnapshotView {
        SnapshotView {
            global_alpha: Scalar { nanos: NANOS_PER_UNIT },
            composite: CompositeOperation::SourceOver,
            image_smoothing_enabled: true,
            image_smoothing_quality: ImageSmoothingQuality::Low,
            shadow_offset_x: Scalar { nanos: 0 },
            shadow_offset_y: Scalar { nanos: 0 },
            shadow_blur: Scalar { nanos: 0 },
            shadow_color: "rgba(0,0,0,0)"@,
            line_width: Scalar { nanos: NANOS_PER_UNIT },
            line_cap: LineCap::Butt,
            line_join: LineJoin::Miter,
            miter_limit: Scalar { nanos: 10_000_000_000 },
            line_dash: Seq::empty(),
            line_dash_offset: Scalar { nanos: 0 },
            fill_style: PaintView::Color("#000"@),
            stroke_style: PaintView::Color("#000"@),
            font: "10px sans-serif"@,
            text_align: TextAlign::Start,
            text_baseline: TextBaseline::Alphabetic,
            direction: Direction::Inherit,
            transform: Transform::spec_identity(),
            clip: None,
        }
    }
}

impl Default for Snapshot {
    fn default() -> (r: Snapshot)
        ensures
            r@ == SnapshotView::initial(),
    {
        let r = Snapshot {
            global_alpha: Scalar::one(),
            composite: CompositeOperation::SourceOver,
            image_smoothing_enabled: true,
            image_smoothing_quality: ImageSmoothingQuality::Low,
            shadow_offset_x: Scalar::zero(),
            shadow_offset_y: Scalar::zero(),
            shadow_blur: Scalar::zero(),
            shadow_color: String::from_str("rgba(0,0,0,0)"),
            line_width: Scalar::one(),
            line_cap: LineCap::Butt,
            line_join: LineJoin::Miter,
            miter_limit: Scalar::from_int(10),
            line_dash: Vec::new(),
            line_dash_offset: Scalar::zero(),
            fill_style: Paint::Color(String::from_str("#000")),
            stroke_style: Paint::Color(String::from_str("#000")),
            font: String::from_str("10px sans-serif"),
            text_align: TextAlign::Start,
            text_baseline: TextBaseline::Alphabetic,
            direction: Direction::Inherit,
            transform: Transform::identity(),
            clip: None,
        };
        assert(r@.line_dash =~= Seq::empty());
        r
    }
}

/// A drawing state with the states that were saved from it: what a backend
/// keeps that leaves `save` and `restore` to this type.
#[derive(Debug, PartialEq)]
pub struct StateStack {
    /// The drawing state.
    pub live: Snapshot,
    /// The saved states, the one saved last at the end.
    pub saved: Vec<Snapshot>,
}

/// A [`StateStack`] as a value of specifications.
pub struct StateStackView {
    pub live: SnapshotView,
    pub saved: Seq<SnapshotView>,
}

impl View for StateStack {
    type V = StateStackView;

    open spec fn view(&self) -> StateStackView {
        StateStackView { live: self.live@, saved: states_view(self.saved@) }
    }
}

impl StateStackView {
    /// The stack after `save`: a copy of the drawing state is saved.
    pub open spec fn saved(self) -> StateStackView {
        StateStackView { saved: self.saved.push(self.live), ..self }
    }

    /// The stack after `restore`: the state saved last is the drawing state
    /// and is saved no more; with no saved state, the same stack.
    pub open spec fn restored(self) -> StateStackView {
        if self.saved.len() == 0 {
            self
        } else {
            StateStackView { live: self.saved.last(), saved: self.saved.drop_last() }
        }
    }
}

impl StateStack {
    /// The stack of the drawing state `live`, with no saved state.
    pub fn new(live: Snapshot) -> (stack: StateStack)
        ensures
            stack@ == (StateStackView { live: live@, saved: Seq::empty() }),
    {
        let stack = StateStack { live, saved: Vec::new() };
        assert(states_view(stack.saved@) =~= Seq::empty());
        stack
    }

    /// Saves a copy of the drawing state.
    pub fn save(&mut self)
        ensures
            final(self)@ == old(self)@.saved(),
    {
        let state = self.live.clone();
        self.saved.push(state);
        assert(states_view(self.saved@) =~= states_view(old(self).saved@).push(state@));
    }

    /// Makes the state saved last the drawing state, and says whether there
    /// was one.
    pub fn restore(&mut self) -> (found: bool)
        ensures
            final(self)@ == old(self)@.restored(),
            found == (old(self)@.saved.len() > 0),
    {
        match self.saved.pop() {
            Some(state) => {
                self.live = state;
                assert(states_view(self.saved@) =~= states_view(old(self).saved@).drop_last());
                true
            },
            None => false,
        }
    }

    /// How many states are saved.
    pub fn depth(&self) -> (depth: usize)
        ensures
            depth == self@.saved.len(),
    {
        self.saved.len()
    }
}

/// After a `save` and a `restore` the stack is what it was.
pub proof fn lemma_stack_restores_what_it_saved(stack: StateStackView)
    ensures
        stack.saved().restored() == stack,
        stack.saved.len() == 0 ==> stack.restored() == stack,
{
    assert(stack.saved.push(stack.live).drop_last() =~= stack.saved);
}

/// One recorded drawing operation, with the drawing state it was made in.
#[derive(Debug, PartialEq)]
pub enum DrawOp {
    FillPath { path: RecordedPath, state: Snapshot, rule: FillRule },
    StrokePath { path: RecordedPath, state: Snapshot },
    Clip { path: RecordedPath, state: Snapshot, rule: FillRule },
    FillRect { x: Scalar, y: Scalar, w: Scalar, h: Scalar, state: Snapshot },
    StrokeRect { x: Scalar, y: Scalar, w: Scalar, h: Scalar, state: Snapshot },
    FillText { text: String, x: Scalar, y: Scalar, max_width: Option<Scalar>, state: Snapshot },
    StrokeText { text: String, x: Scalar, y: Scalar, max_width: Option<Scalar>, state: Snapshot },
    DrawImage { source_width: u32, source_height: u32, dx: Scalar, dy: Scalar, state: Snapshot },
    DrawImageScaled {
        source_width: u32,
        source_height: u32,
        dx: Scalar,
        dy: Scalar,
        dw: Scalar,
        dh: Scalar,
        state: Snapshot,
    },
    DrawImageSubrect {
        source_width: u32,
        source_height: u32,
        sx: Scalar,
        sy: Scalar,
        sw: Scalar,
        sh: Scalar,
        dx: Scalar,
        dy: Scalar,
        dw: Scalar,
        dh: Scalar,
        state: Snapshot,
    },
    PutImageData { data: ImageData, dx: Scalar, dy: Scalar, state: Snapshot },
    PutImageDataDirty {
        data: ImageData,
        dx: Scalar,
        dy: Scalar,
        dirty_x: u32,
        dirty_y: u32,
        dirty_width: u32,
        dirty_height: u32,
        state: Snapshot,
    },
    ClearRect { x: Scalar, y: Scalar, w: Scalar, h: Scalar, state: Snapshot },
}

/// A [`DrawOp`] as a value of specifications.
pub enum DrawOpView {
    FillPath { path: Seq<PathCommand>, state: SnapshotView, rule: FillRule },
    StrokePath { path: Seq<PathCommand>, state: SnapshotView },
    Clip { path: Seq<PathCommand>, state: SnapshotView, rule: FillRule },
    FillRect { x: Scalar, y: Scalar, w: Scalar, h: Scalar, state: SnapshotView },
    StrokeRect { x: Scalar, y: Scalar, w: Scalar, h: Scalar, state: SnapshotView },
    FillText {
        text: Seq<char>,
        x: Scalar,
        y: Scalar,
        max_width: Option<Scalar>,
        state: SnapshotView,
    },
    StrokeText {
        text: Seq<char>,
        x: Scalar,
        y: Scalar,
        max_width: Option<Scalar>,
        state: SnapshotView,
    },
    DrawImage { source_width: u32, source_height: u32, dx: Scalar, dy: Scalar, state: SnapshotView },
    DrawImageScaled {
        source_width: u32,
        source_height: u32,
        dx: Scalar,
        dy: Scalar,
        dw: Scalar,
        dh: Scalar,
        state: SnapshotView,
    },
    DrawImageSubrect {
        source_width: u32,
        source_height: u32,
        sx: Scalar,
        sy: Scalar,
        sw: Scalar,
        sh: Scalar,
        dx: Scalar,
        dy: Scalar,
        dw: Scalar,
        dh: Scalar,
        state: SnapshotView,
    },
    PutImageData { data: ImageDataView, dx: Scalar, dy: Scalar, state: SnapshotView },
    PutImageDataDirty {
        data: ImageDataView,
        dx: Scalar,
        dy: Scalar,
        dirty_x: u32,
        dirty_y: u32,
        dirty_width: u32,
        dirty_height: u32,
        state: SnapshotView,
    },
    ClearRect { x: Scalar, y: Scalar, w: Scalar, h: Scalar, state: SnapshotView },
}

impl View for DrawOp {
    type V = DrawOpView;

    open spec fn view(&self) -> DrawOpView {
        match self {
            DrawOp::FillPath { path, state, rule } => DrawOpView::FillPath {
                path: path@,
                state: state@,
                rule: *rule,
            },
            DrawOp::StrokePath { path, state } => DrawOpView::StrokePath {
                path: path@,
                state: state@,
            },
            DrawOp::Clip { path, state, rule } => DrawOpView::Clip {
                path: path@,
                state: state@,
                rule: *rule,
            },
            DrawOp::FillRect { x, y, w, h, state } => DrawOpView::FillRect {
                x: *x,
                y: *y,
                w: *w,
                h: *h,
                state: state@,
            },
            DrawOp::StrokeRect { x, y, w, h, state } => DrawOpView::StrokeRect {
                x: *x,
                y: *y,
                w: *w,
                h: *h,
                state: state@,
            },
            DrawOp::FillText { text, x, y, max_width, state } => DrawOpView::FillText {
                text: text@,
                x: *x,
                y: *y,
                max_width: *max_width,
                state: state@,
            },
            DrawOp::StrokeText { text, x, y, max_width, state } => DrawOpView::StrokeText {
                text: text@,
                x: *x,
                y: *y,
                max_width: *max_width,
                state: state@,
            },
            DrawOp::DrawImage { source_width, source_height, dx, dy, state } => DrawOpView::DrawImage {
                source_width: *source_width,
                source_height: *source_height,
                dx: *dx,
                dy: *dy,
                state: state@,
            },
            DrawOp::DrawImageScaled {
                source_width,
                source_height,
                dx,
                dy,
                dw,
                dh,
                state,
            } => DrawOpView::DrawImageScaled {
                source_width: *source_width,
                source_height: *source_height,
                dx: *dx,
                dy: *dy,
                dw: *dw,
                dh: *dh,
                state: state@,
            },
            DrawOp::DrawImageSubrect {
                source_width,
                source_height,
                sx,
                sy,
                sw,
                sh,
                dx,
                dy,
                dw,
                dh,
                state,
            } => DrawOpView::DrawImageSubrect {
                source_width: *source_width,
                source_height: *source_height,
                sx: *sx,
                sy: *sy,
                sw: *sw,
                sh: *sh,
                dx: *dx,
                dy: *dy,
                dw: *dw,
                dh: *dh,
                state: state@,
            },
            DrawOp::PutImageData { data, dx, dy, state } => DrawOpView::PutImageData {
                data: data@,
                dx: *dx,
                dy: *dy,
                state: state@,
            },
            DrawOp::PutImageDataDirty {
                data,
                dx,
                dy,
                dirty_x,
                dirty_y,
                dirty_width,
                dirty_height,
                state,
            } => DrawOpView::PutImageDataDirty {
                data: data@,
                dx: *dx,
                dy: *dy,
                dirty_x: *dirty_x,
                dirty_y: *dirty_y,
                dirty_width: *dirty_width,
                dirty_height: *dirty_height,
                state: state@,
            },
            DrawOp::ClearRect { x, y, w, h, state } => DrawOpView::ClearRect {
                x: *x,
                y: *y,
                w: *w,
                h: *h,
                state: state@,
            },
        }
    }
}

/// The recorded operations as values of specifications, in their order.
pub open spec fn ops_view(ops: Seq<DrawOp>) -> Seq<DrawOpView> {
    ops.map_values(|op: DrawOp| op@)
}

/// Saved states as values of specifications, the oldest first.
pub open spec fn states_view(states: Seq<Snapshot>) -> Seq<SnapshotView> {
    states.map_values(|state: Snapshot| state@)
}

/// A drawing context that records what is drawn on it.
pub struct RecordingCanvas {
    ops: Vec<DrawOp>,
    state: Snapshot,
    stack: Vec<Snapshot>,
    current_path: Vec<PathCommand>,
    current_point: Option<(Scalar, Scalar)>,
    subpath_start: Option<(Scalar, Scalar)>,
}

/// A [`RecordingCanvas`] as a value of specifications.
pub struct RecordingView {
    /// What has been drawn, the first operation first.
    pub ops: Seq<DrawOpView>,
    /// The drawing state.
    pub state: SnapshotView,
    /// The saved states, the one saved last at the end.
    pub stack: Seq<SnapshotView>,
    /// The current path.
    pub path: Seq<PathCommand>,
    /// Where the current path has got to, once it has begun.
    pub current_point: Option<(Scalar, Scalar)>,
    /// Where the current subpath began, once one has.
    pub subpath_start: Option<(Scalar, Scalar)>,
}

impl View for RecordingCanvas {
    type V = RecordingView;

    closed spec fn view(&self) -> RecordingView {
        RecordingView {
            ops: ops_view(self.ops@),
            state: self.state@,
            stack: states_view(self.stack@),
            path: self.current_path@,
            current_point: self.current_point,
            subpath_start: self.subpath_start,
        }
    }
}

impl RecordingView {
    /// A context on which nothing has been done.
    pub open spec fn initial() -> RecordingView {
        RecordingView {
            ops: Seq::empty(),
            state: SnapshotView::initial(),
            stack: Seq::empty(),
            path: Seq::empty(),
            current_point: None,
            subpath_start: None,
        }
    }

    /// The context with `state` for its drawing state.
    pub open spec fn with_state(self, state: SnapshotView) -> RecordingView {
        RecordingView { state, ..self }
    }

    /// The context after `command` has begun a subpath at `(x, y)`.
    pub open spec fn started(self, command: PathCommand, x: Scalar, y: Scalar) -> RecordingView {
        RecordingView {
            path: self.path.push(command),
            current_point: Some((x, y)),
            subpath_start: Some((x, y)),
            ..self
        }
    }

    /// The context after `command` has taken the current path on to `(x, y)`.
    pub open spec fn extended(self, command: PathCommand, x: Scalar, y: Scalar) -> RecordingView {
        RecordingView { path: self.path.push(command), current_point: Some((x, y)), ..self }
    }

    /// The context with a current point: where it has none, a subpath is
    /// begun at the origin.
    pub open spec fn ensured(self) -> RecordingView {
        if self.current_point is None {
            self.started(
                PathCommand::MoveTo { x: Scalar { nanos: 0 }, y: Scalar { nanos: 0 } },
                Scalar { nanos: 0 },
                Scalar { nanos: 0 },
            )
        } else {
            self
        }
    }

    /// The context with an empty current path.
    pub open spec fn emptied(self) -> RecordingView {
        RecordingView { path: Seq::empty(), current_point: None, subpath_start: None, ..self }
    }

    /// The context after `op` has been recorded.
    pub open spec fn recorded(self, op: DrawOpView) -> RecordingView {
        RecordingView { ops: self.ops.push(op), ..self }
    }

    /// The context after `save`.
    pub open spec fn saved(self) -> RecordingView {
        RecordingView { stack: self.stack.push(self.state), ..self }
    }

    /// The context after `restore`: with no saved state, the same context.
    pub open spec fn restored(self) -> RecordingView {
        if self.stack.len() == 0 {
            self
        } else {
            RecordingView { state: self.stack.last(), stack: self.stack.drop_last(), ..self }
        }
    }

    /// The context after `reset`: the drawing state is the initial one and
    /// the current path is empty; the saved states and what was recorded stay.
    pub open spec fn reset(self) -> RecordingView {
        self.with_state(SnapshotView::initial()).emptied()
    }

    /// The context after its transform has been composed with `m`.
    pub open spec fn transformed(self, m: Transform) -> RecordingView {
        self.with_state(
            SnapshotView { transform: self.state.transform.spec_compose(m), ..self.state },
        )
    }

    /// The context after `close_path`: without a subpath, the same context.
    pub open spec fn closed(self) -> RecordingView {
        match self.subpath_start {
            Some(start) => RecordingView {
                path: self.path.push(PathCommand::ClosePath),
                current_point: Some(start),
                ..self
            },
            None => self,
        }
    }

    /// The context after `arc_to`: the corner at `(x1, y1)` between the
    /// current point and `(x2, y2)`. Where the corner stays, the straight
    /// line to it is added; where it is rounded, the request is added as it
    /// was made and the path goes on from where the arc ends.
    pub open spec fn rounded(
        self,
        x1: Scalar,
        y1: Scalar,
        x2: Scalar,
        y2: Scalar,
        radius: Scalar,
    ) -> RecordingView {
        let base = self.ensured();
        let from = base.current_point.unwrap();
        match spec_tangent_join(from.0, from.1, x1, y1, x2, y2, radius) {
            TangentJoin::Line { x, y } => base.extended(PathCommand::LineTo { x, y }, x, y),
            TangentJoin::Round { end_x, end_y, .. } => base.extended(
                PathCommand::ArcTo { x1, y1, x2, y2, radius },
                end_x,
                end_y,
            ),
        }
    }

    /// The context after an image of `width` by `height` pixels has been
    /// drawn in its own size.
    pub open spec fn image_drawn(self, width: u32, height: u32, dx: Scalar, dy: Scalar) -> RecordingView {
        self.recorded(
            DrawOpView::DrawImage {
                source_width: width,
                source_height: height,
                dx,
                dy,
                state: self.state,
            },
        )
    }

    /// The context after an image of `width` by `height` pixels has been
    /// drawn scaled.
    pub open spec fn image_drawn_scaled(
        self,
        width: u32,
        height: u32,
        dx: Scalar,
        dy: Scalar,
        dw: Scalar,
        dh: Scalar,
    ) -> RecordingView {
        self.recorded(
            DrawOpView::DrawImageScaled {
                source_width: width,
                source_height: height,
                dx,
                dy,
                dw,
                dh,
                state: self.state,
            },
        )
    }

    /// The context after a part of an image of `width` by `height` pixels
    /// has been drawn.
    pub open spec fn image_drawn_subrect(
        self,
        width: u32,
        height: u32,
        sx: Scalar,
        sy: Scalar,
        sw: Scalar,
        sh: Scalar,
        dx: Scalar,
        dy: Scalar,
        dw: Scalar,
        dh: Scalar,
    ) -> RecordingView {
        self.recorded(
            DrawOpView::DrawImageSubrect {
                source_width: width,
                source_height: height,
                sx,
                sy,
                sw,
                sh,
                dx,
                dy,
                dw,
                dh,
                state: self.state,
            },
        )
    }

    /// The context after `fill`: with an empty path, the same context.
    pub open spec fn filled(self, rule: FillRule) -> RecordingView {
        if self.path.len() == 0 {
            self
        } else {
            self.emptied().recorded(
                DrawOpView::FillPath { path: self.path, state: self.state, rule },
            )
        }
    }

    /// The context after `stroke`: with an empty path, the same context.
    pub open spec fn stroked(self) -> RecordingView {
        if self.path.len() == 0 {
            self
        } else {
            self.emptied().recorded(DrawOpView::StrokePath { path: self.path, state: self.state })
        }
    }

    /// The drawing state once the current path is its clip, with the
    /// transform that is current now.
    pub open spec fn clipping_state(self, rule: FillRule) -> SnapshotView {
        SnapshotView {
            clip: Some(ClipView { path: self.path, rule, transform: self.state.transform }),
            ..self.state
        }
    }

    /// The context after `clip`: with an empty path, the same context.
    pub open spec fn clipped(self, rule: FillRule) -> RecordingView {
        if self.path.len() == 0 {
            self
        } else {
            self.emptied().with_state(self.clipping_state(rule)).recorded(
                DrawOpView::Clip { path: self.path, state: self.clipping_state(rule), rule },
            )
        }
    }
}

/// How many bytes the pixels of an image of `width` by `height` take.
pub open spec fn spec_pixel_bytes(width: u32, height: u32) -> int {
    width * height * 4
}

/// What measuring a text gives: one unit for each byte of it.
pub open spec fn spec_text_width(text: Seq<char>) -> Scalar {
    Scalar { nanos: saturate(encode_utf8(text).len() * NANOS_PER_UNIT) }
}

/// A buffer of `len` zero bytes.
fn zeroed(len: usize) -> (data: Vec<u8>)
    ensures
        data@ == Seq::new(len as nat, |i: int| 0u8),
{
    let data: Vec<u8> = vec![0u8; len];
    assert(data@ =~= Seq::new(len as nat, |i: int| 0u8));
    data
}

/// A blank image of `width` by `height`: every byte of every pixel is zero.
/// An image whose bytes cannot be counted in a `usize` is an error.
pub fn blank_image(width: u32, height: u32) -> (r: Result<ImageData, LignumError>)
    ensures
        match r {
            Ok(image) => spec_pixel_bytes(width, height) <= usize::MAX && image@ == (ImageDataView {
                width,
                height,
                data: Seq::new(spec_pixel_bytes(width, height) as nat, |i: int| 0u8),
            }),
            Err(error) => spec_pixel_bytes(width, height) > usize::MAX && error.is_other(
                "image dimensions overflow"@,
            ),
        },
{
    assert(width * height <= 0xffff_ffff * 0xffff_ffff) by (nonlinear_arith)
        requires
            width <= 0xffff_ffff,
            height <= 0xffff_ffff,
    ;
    let bytes: u128 = (width as u128) * (height as u128) * 4;
    if bytes > usize::MAX as u128 {
        Err(LignumError::Other(String::from_str("image dimensions overflow")))
    } else {
        Ok(ImageData { width, height, data: zeroed(bytes as usize) })
    }
}

impl RecordingCanvas {
    /// A context on which nothing has been done.
    pub fn new() -> (canvas: RecordingCanvas)
        ensures
            canvas@ == RecordingView::initial(),
    {
        let canvas = RecordingCanvas {
            ops: Vec::new(),
            state: Snapshot::default(),
            stack: Vec::new(),
            current_path: Vec::new(),
            current_point: None,
            subpath_start: None,
        };
        assert(ops_view(canvas.ops@) =~= Seq::empty());
        assert(states_view(canvas.stack@) =~= Seq::empty());
        canvas
    }

    /// What has been drawn, the first operation first.
    pub fn ops(&self) -> (ops: &[DrawOp])
        ensures
            ops_view(ops@) == self@.ops,
    {
        self.ops.as_slice()
    }

    /// What has been drawn, the first operation first.
    pub fn into_ops(self) -> (ops: Vec<DrawOp>)
        ensures
            ops_view(ops@) == self@.ops,
    {
        self.ops
    }

    fn snapshot(&self) -> (state: Snapshot)
        ensures
            state@ == self@.state,
    {
        self.state.clone()
    }

    fn ensure_subpath(&mut self)
        ensures
            final(self)@ == old(self)@.ensured(),
            final(self)@.current_point is Some,
    {
        if self.current_point.is_none() {
            let zero = Scalar::zero();
            self.current_path.push(PathCommand::MoveTo { x: zero, y: zero });
            self.subpath_start = Some((zero, zero));
            self.current_point = Some((zero, zero));
        }
    }

    fn extend_path(&mut self, command: PathCommand, x: Scalar, y: Scalar)
        ensures
            final(self)@ == old(self)@.extended(command, x, y),
    {
        self.current_path.push(command);
        self.current_point = Some((x, y));
    }

    fn start_path(&mut self, command: PathCommand, x: Scalar, y: Scalar)
        ensures
            final(self)@ == old(self)@.started(command, x, y),
    {
        self.current_path.push(command);
        self.subpath_start = Some((x, y));
        self.current_point = Some((x, y));
    }

    fn multiply_transform(&mut self, m: Transform)
        ensures
            final(self)@ == old(self)@.transformed(m),
    {
        self.state.transform = self.state.transform.compose(m);
    }

    fn consume_path(&mut self) -> (path: RecordedPath)
        ensures
            path@ == old(self)@.path,
            final(self)@ == old(self)@.emptied(),
    {
        let mut commands: Vec<PathCommand> = Vec::new();
        std::mem::swap(&mut commands, &mut self.current_path);
        self.current_point = None;
        self.subpath_start = None;
        RecordedPath::new(commands)
    }

    fn record_op(&mut self, op: DrawOp)
        ensures
            final(self)@ == old(self)@.recorded(op@),
    {
        self.ops.push(op);
        assert(ops_view(self.ops@) =~= ops_view(old(self).ops@).push(op@));
    }
}

impl Default for RecordingCanvas {
    fn default() -> (canvas: RecordingCanvas)
        ensures
            canvas@ == RecordingView::initial(),
    {
        RecordingCanvas::new()
    }
}

impl CanvasState for RecordingCanvas {
    fn save(&mut self) -> (r: Result<(), LignumError>)
        ensures
            r is Ok,
            final(self)@ == old(self)@.saved(),
    {
        let state = self.state.clone();
        self.stack.push(state);
        assert(states_view(self.stack@) =~= states_view(old(self).stack@).push(state@));
        Ok(())
    }

    fn restore(&mut self) -> (r: Result<(), LignumError>)
        ensures
            r is Ok,
            final(self)@ == old(self)@.restored(),
    {
        if let Some(state) = self.stack.pop() {
            self.state = state;
            assert(states_view(self.stack@) =~= states_view(old(self).stack@).drop_last());
        }
        Ok(())
    }

    fn reset(&mut self) -> (r: Result<(), LignumError>)
        ensures
            r is Ok,
            final(self)@ == old(self)@.reset(),
    {
        self.state = Snapshot::default();
        self.current_path.clear();
        self.current_point = None;
        self.subpath_start = None;
        Ok(())
    }

    fn set_global_alpha(&mut self, value: Scalar) -> (r: Result<(), LignumError>)
        ensures
            r is Ok,
            final(self)@ == old(self)@.with_state(
                SnapshotView { global_alpha: value, ..old(self)@.state },
            ),
    {
        self.state.global_alpha = value;
        Ok(())
    }

    fn global_alpha(&self) -> (r: Result<Scalar, LignumError>)
        ensures
            r == Ok::<Scalar, LignumError>(self@.state.global_alpha),
    {
        Ok(self.state.global_alpha)
    }

    fn set_global_composite_operation(&mut self, op: CompositeOperation) -> (r: Result<
        (),
        LignumError,
    >)
        ensures
            r is Ok,
            final(self)@ == old(self)@.with_state(
                SnapshotView { composite: op, ..old(self)@.state },
            ),
    {
        self.state.composite = op;
        Ok(())
    }

    fn global_composite_operation(&self) -> (r: Result<CompositeOperation, LignumError>)
        ensures
            r == Ok::<CompositeOperation, LignumError>(self@.state.composite),
    {
        Ok(self.state.composite)
    }

    fn set_image_smoothing_enabled(&mut self, enabled: bool) -> (r: Result<(), LignumError>)
        ensures
            r is Ok,
            final(self)@ == old(self)@.with_state(
                SnapshotView { image_smoothing_enabled: enabled, ..old(self)@.state },
            ),
    {
        self.state.image_smoothing_enabled = enabled;
        Ok(())
    }

    fn image_smoothing_enabled(&self) -> (r: Result<bool, LignumError>)
        ensures
            r == Ok::<bool, LignumError>(self@.state.image_smoothing_enabled),
    {
        Ok(self.state.image_smoothing_enabled)
    }

    fn set_image_smoothing_quality(&mut self, quality: ImageSmoothingQuality) -> (r: Result<
        (),
        LignumError,
    >)
        ensures
            r is Ok,
            final(self)@ == old(self)@.with_state(
                SnapshotView { image_smoothing_quality: quality, ..old(self)@.state },
            ),
    {
        self.state.image_smoothing_quality = quality;
        Ok(())
    }

    fn image_smoothing_quality(&self) -> (r: Result<ImageSmoothingQuality, LignumError>)
        ensures
            r == Ok::<ImageSmoothingQuality, LignumError>(self@.state.image_smoothing_quality),
    {
        Ok(self.state.image_smoothing_quality)
    }
}

impl CanvasTransforms for RecordingCanvas {
    fn scale(&mut self, x: Scalar, y: Scalar) -> (r: Result<(), LignumError>)
        ensures
            r is Ok,
            final(self)@ == old(self)@.transformed(Transform::spec_scaling(x, y)),
    {
        self.multiply_transform(Transform::scaling(x, y));
        Ok(())
    }

    fn rotate(&mut self, angle: Angle) -> (r: Result<(), LignumError>)
        ensures
            r is Ok,
            final(self)@ == old(self)@.transformed(Transform::spec_rotation(angle)),
    {
        self.multiply_transform(Transform::rotation(angle));
        Ok(())
    }

    fn translate(&mut self, x: Scalar, y: Scalar) -> (r: Result<(), LignumError>)
        ensures
            r is Ok,
            final(self)@ == old(self)@.transformed(Transform::spec_translation(x, y)),
    {
        self.multiply_transform(Transform::translation(x, y));
        Ok(())
    }

    fn transform(
        &mut self,
        a: Scalar,
        b: Scalar,
        c: Scalar,
        d: Scalar,
        e: Scalar,
        f: Scalar,
    ) -> (r: Result<(), LignumError>)
        ensures
            r is Ok,
            final(self)@ == old(self)@.transformed(Transform { a, b, c, d, e, f }),
    {
        self.multiply_transform(Transform::new(a, b, c, d, e, f));
        Ok(())
    }

    fn set_transform(
        &mut self,
        a: Scalar,
        b: Scalar,
        c: Scalar,
        d: Scalar,
        e: Scalar,
        f: Scalar,
    ) -> (r: Result<(), LignumError>)
        ensures
            r is Ok,
            final(self)@ == old(self)@.with_state(
                SnapshotView { transform: Transform { a, b, c, d, e, f }, ..old(self)@.state },
            ),
    {
        self.state.transform = Transform::new(a, b, c, d, e, f);
        Ok(())
    }

    fn reset_transform(&mut self) -> (r: Result<(), LignumError>)
        ensures
            r is Ok,
            final(self)@ == old(self)@.with_state(
                SnapshotView { transform: Transform::spec_identity(), ..old(self)@.state },
            ),
    {
        self.state.transform = Transform::identity();
        Ok(())
    }
}

impl CanvasCompositing for RecordingCanvas {
    fn set_shadow_offset_x(&mut self, value: Scalar) -> (r: Result<(), LignumError>)
        ensures
            r is Ok,
            final(self)@ == old(self)@.with_state(
                SnapshotView { shadow_offset_x: value, ..old(self)@.state },
            ),
    {
        self.state.shadow_offset_x = value;
        Ok(())
    }

    fn shadow_offset_x(&self) -> (r: Result<Scalar, LignumError>)
        ensures
            r == Ok::<Scalar, LignumError>(self@.state.shadow_offset_x),
    {
        Ok(self.state.shadow_offset_x)
    }

    fn set_shadow_offset_y(&mut self, value: Scalar) -> (r: Result<(), LignumError>)
        ensures
            r is Ok,
            final(self)@ == old(self)@.with_state(
                SnapshotView { shadow_offset_y: value, ..old(self)@.state },
            ),
    {
        self.state.shadow_offset_y = value;
        Ok(())
    }

    fn shadow_offset_y(&self) -> (r: Result<Scalar, LignumError>)
        ensures
            r == Ok::<Scalar, LignumError>(self@.state.shadow_offset_y),
    {
        Ok(self.state.shadow_offset_y)
    }

    fn set_shadow_blur(&mut self, value: Scalar) -> (r: Result<(), LignumError>)
        ensures
            r is Ok,
            final(self)@ == old(self)@.with_state(
                SnapshotView { shadow_blur: value, ..old(self)@.state },
            ),
    {
        self.state.shadow_blur = value;
        Ok(())
    }

    fn shadow_blur(&self) -> (r: Result<Scalar, LignumError>)
        ensures
            r == Ok::<Scalar, LignumError>(self@.state.shadow_blur),
    {
        Ok(self.state.shadow_blur)
    }

    fn set_shadow_color(&mut self, value: String) -> (r: Result<(), LignumError>)
        ensures
            r is Ok,
            final(self)@ == old(self)@.with_state(
                SnapshotView { shadow_color: value@, ..old(self)@.state },
            ),
    {
        self.state.shadow_color = value;
        Ok(())
    }

    fn shadow_color(&self) -> (r: Result<String, LignumError>)
        ensures
            r matches Ok(text) && text@ == self@.state.shadow_color,
    {
        Ok(self.state.shadow_color.clone())
    }
}

impl CanvasLineStyles for RecordingCanvas {
    fn set_line_width(&mut self, value: Scalar) -> (r: Result<(), LignumError>)
        ensures
            r is Ok,
            final(self)@ == old(self)@.with_state(
                SnapshotView { line_width: value, ..old(self)@.state },
            ),
    {
        self.state.line_width = value;
        Ok(())
    }

    fn line_width(&self) -> (r: Result<Scalar, LignumError>)
        ensures
            r == Ok::<Scalar, LignumError>(self@.state.line_width),
    {
        Ok(self.state.line_width)
    }

    fn set_line_cap(&mut self, value: LineCap) -> (r: Result<(), LignumError>)
        ensures
            r is Ok,
            final(self)@ == old(self)@.with_state(
                SnapshotView { line_cap: value, ..old(self)@.state },
            ),
    {
        self.state.line_cap = value;
        Ok(())
    }

    fn line_cap(&self) -> (r: Result<LineCap, LignumError>)
        ensures
            r == Ok::<LineCap, LignumError>(self@.state.line_cap),
    {
        Ok(self.state.line_cap)
    }

    fn set_line_join(&mut self, value: LineJoin) -> (r: Result<(), LignumError>)
        ensures
            r is Ok,
            final(self)@ == old(self)@.with_state(
                SnapshotView { line_join: value, ..old(self)@.state },
            ),
    {
        self.state.line_join = value;
        Ok(())
    }

    fn line_join(&self) -> (r: Result<LineJoin, LignumError>)
        ensures
            r == Ok::<LineJoin, LignumError>(self@.state.line_join),
    {
        Ok(self.state.line_join)
    }

    fn set_miter_limit(&mut self, value: Scalar) -> (r: Result<(), LignumError>)
        ensures
            r is Ok,
            final(self)@ == old(self)@.with_state(
                SnapshotView { miter_limit: value, ..old(self)@.state },
            ),
    {
        self.state.miter_limit = value;
        Ok(())
    }

    fn miter_limit(&self) -> (r: Result<Scalar, LignumError>)
        ensures
            r == Ok::<Scalar, LignumError>(self@.state.miter_limit),
    {
        Ok(self.state.miter_limit)
    }

    fn set_line_dash(&mut self, segments: Vec<Scalar>) -> (r: Result<(), LignumError>)
        ensures
            r is Ok,
            final(self)@ == old(self)@.with_state(
                SnapshotView { line_dash: segments@, ..old(self)@.state },
            ),
    {
        self.state.line_dash = segments;
        Ok(())
    }

    fn line_dash(&self) -> (r: Result<Vec<Scalar>, LignumError>)
        ensures
            r matches Ok(segments) && segments@ == self@.state.line_dash,
    {
        let segments = self.state.line_dash.clone();
        assert(segments@ =~= self.state.line_dash@);
        Ok(segments)
    }

    fn set_line_dash_offset(&mut self, value: Scalar) -> (r: Result<(), LignumError>)
        ensures
            r is Ok,
            final(self)@ == old(self)@.with_state(
                SnapshotView { line_dash_offset: value, ..old(self)@.state },
            ),
    {
        self.state.line_dash_offset = value;
        Ok(())
    }

    fn line_dash_offset(&self) -> (r: Result<Scalar, LignumError>)
        ensures
            r == Ok::<Scalar, LignumError>(self@.state.line_dash_offset),
    {
        Ok(self.state.line_dash_offset)
    }
}

impl CanvasFillStrokeStyles for RecordingCanvas {
    fn set_fill_style(&mut self, style: Paint) -> (r: Result<(), LignumError>)
        ensures
            r is Ok,
            final(self)@ == old(self)@.with_state(
                SnapshotView { fill_style: style@, ..old(self)@.state },
            ),
    {
        self.state.fill_style = style;
        Ok(())
    }

    fn fill_style(&self) -> (r: Result<Paint, LignumError>)
        ensures
            r matches Ok(style) && style@ == self@.state.fill_style,
    {
        Ok(self.state.fill_style.clone())
    }

    fn set_stroke_style(&mut self, style: Paint) -> (r: Result<(), LignumError>)
        ensures
            r is Ok,
            final(self)@ == old(self)@.with_state(
                SnapshotView { stroke_style: style@, ..old(self)@.state },
            ),
    {
        self.state.stroke_style = style;
        Ok(())
    }

    fn stroke_style(&self) -> (r: Result<Paint, LignumError>)
        ensures
            r matches Ok(style) && style@ == self@.state.stroke_style,
    {
        Ok(self.state.stroke_style.clone())
    }

    fn create_linear_gradient(&mut self, x0: Scalar, y0: Scalar, x1: Scalar, y1: Scalar) -> (r:
        Result<CanvasGradient, LignumError>)
        ensures
            final(self)@ == old(self)@,
            r matches Ok(gradient) && gradient@ == (GradientView {
                kind: GradientKind::Linear { x0, y0, x1, y1 },
                stops: Seq::empty(),
            }),
    {
        Ok(CanvasGradient::new(GradientKind::Linear { x0, y0, x1, y1 }))
    }

    fn create_radial_gradient(
        &mut self,
        x0: Scalar,
        y0: Scalar,
        r0: Scalar,
        x1: Scalar,
        y1: Scalar,
        r1: Scalar,
    ) -> (r: Result<CanvasGradient, LignumError>)
        ensures
            final(self)@ == old(self)@,
            r matches Ok(gradient) && gradient@ == (GradientView {
                kind: GradientKind::Radial { x0, y0, r0, x1, y1, r1 },
                stops: Seq::empty(),
            }),
    {
        Ok(CanvasGradient::new(GradientKind::Radial { x0, y0, r0, x1, y1, r1 }))
    }

    fn create_pattern(&mut self, image: &dyn CanvasImageSource, repetition: PatternRepetition) -> (r:
        Result<CanvasPattern, LignumError>)
        ensures
            final(self)@ == old(self)@,
            r == Ok::<CanvasPattern, LignumError>(CanvasPattern { repetition, transform: None }),
    {
        Ok(CanvasPattern { repetition, transform: None })
    }
}

impl CanvasRectangles for RecordingCanvas {
    fn clear_rect(&mut self, x: Scalar, y: Scalar, w: Scalar, h: Scalar) -> (r: Result<
        (),
        LignumError,
    >)
        ensures
            r is Ok,
            final(self)@ == old(self)@.recorded(
                DrawOpView::ClearRect { x, y, w, h, state: old(self)@.state },
            ),
    {
        let op = DrawOp::ClearRect { x, y, w, h, state: self.snapshot() };
        self.record_op(op);
        Ok(())
    }

    fn fill_rect(&mut self, x: Scalar, y: Scalar, w: Scalar, h: Scalar) -> (r: Result<
        (),
        LignumError,
    >)
        ensures
            r is Ok,
            final(self)@ == old(self)@.recorded(
                DrawOpView::FillRect { x, y, w, h, state: old(self)@.state },
            ),
    {
        let op = DrawOp::FillRect { x, y, w, h, state: self.snapshot() };
        self.record_op(op);
        Ok(())
    }

    fn stroke_rect(&mut self, x: Scalar, y: Scalar, w: Scalar, h: Scalar) -> (r: Result<
        (),
        LignumError,
    >)
        ensures
            r is Ok,
            final(self)@ == old(self)@.recorded(
                DrawOpView::StrokeRect { x, y, w, h, state: old(self)@.state },
            ),
    {
        let op = DrawOp::StrokeRect { x, y, w, h, state: self.snapshot() };
        self.record_op(op);
        Ok(())
    }
}

impl CanvasPaths for RecordingCanvas {
    fn begin_path(&mut self) -> (r: Result<(), LignumError>)
        ensures
            r is Ok,
            final(self)@ == old(self)@.emptied(),
    {
        self.current_path.clear();
        self.current_point = None;
        self.subpath_start = None;
        Ok(())
    }

    fn close_path(&mut self) -> (r: Result<(), LignumError>)
        ensures
            r is Ok,
            final(self)@ == old(self)@.closed(),
    {
        if let Some(start) = self.subpath_start {
            self.current_path.push(PathCommand::ClosePath);
            self.current_point = Some(start);
        }
        Ok(())
    }

    fn move_to(&mut self, x: Scalar, y: Scalar) -> (r: Result<(), LignumError>)
        ensures
            r is Ok,
            final(self)@ == old(self)@.started(PathCommand::MoveTo { x, y }, x, y),
    {
        self.start_path(PathCommand::MoveTo { x, y }, x, y);
        Ok(())
    }

    fn line_to(&mut self, x: Scalar, y: Scalar) -> (r: Result<(), LignumError>)
        ensures
            r is Ok,
            final(self)@ == old(self)@.ensured().extended(PathCommand::LineTo { x, y }, x, y),
    {
        self.ensure_subpath();
        self.extend_path(PathCommand::LineTo { x, y }, x, y);
        Ok(())
    }

    fn bezier_curve_to(
        &mut self,
        cp1x: Scalar,
        cp1y: Scalar,
        cp2x: Scalar,
        cp2y: Scalar,
        x: Scalar,
        y: Scalar,
    ) -> (r: Result<(), LignumError>)
        ensures
            r is Ok,
            final(self)@ == old(self)@.ensured().extended(
                PathCommand::BezierCurveTo { cp1x, cp1y, cp2x, cp2y, x, y },
                x,
                y,
            ),
    {
        self.ensure_subpath();
        self.extend_path(PathCommand::BezierCurveTo { cp1x, cp1y, cp2x, cp2y, x, y }, x, y);
        Ok(())
    }

    fn quadratic_curve_to(&mut self, cpx: Scalar, cpy: Scalar, x: Scalar, y: Scalar) -> (r: Result<
        (),
        LignumError,
    >)
        ensures
            r is Ok,
            final(self)@ == old(self)@.ensured().extended(
                PathCommand::QuadraticCurveTo { cpx, cpy, x, y },
                x,
                y,
            ),
    {
        self.ensure_subpath();
        self.extend_path(PathCommand::QuadraticCurveTo { cpx, cpy, x, y }, x, y);
        Ok(())
    }

    fn arc(
        &mut self,
        x: Scalar,
        y: Scalar,
        radius: Scalar,
        start_angle: Angle,
        end_angle: Angle,
        ccw: bool,
    ) -> (r: Result<(), LignumError>)
        ensures
            r is Ok,
            final(self)@ == old(self)@.ensured().extended(
                PathCommand::Arc { x, y, radius, start_angle, end_angle, ccw },
                spec_arc_point(x, y, radius, end_angle).0,
                spec_arc_point(x, y, radius, end_angle).1,
            ),
    {
        self.ensure_subpath();
        let end = arc_point(x, y, radius, end_angle);
        self.extend_path(
            PathCommand::Arc { x, y, radius, start_angle, end_angle, ccw },
            end.0,
            end.1,
        );
        Ok(())
    }

    fn arc_to(&mut self, x1: Scalar, y1: Scalar, x2: Scalar, y2: Scalar, radius: Scalar) -> (r:
        Result<(), LignumError>)
        ensures
            r is Ok,
            final(self)@ == old(self)@.rounded(x1, y1, x2, y2, radius),
    {
        self.ensure_subpath();
        let from = match self.current_point {
            Some(point) => point,
            None => (Scalar::zero(), Scalar::zero()),
        };
        match tangent_join(from.0, from.1, x1, y1, x2, y2, radius) {
            TangentJoin::Line { x, y } => {
                self.extend_path(PathCommand::LineTo { x, y }, x, y);
            },
            TangentJoin::Round { end_x, end_y, .. } => {
                self.extend_path(PathCommand::ArcTo { x1, y1, x2, y2, radius }, end_x, end_y);
            },
        }
        Ok(())
    }

    fn ellipse(
        &mut self,
        x: Scalar,
        y: Scalar,
        radius_x: Scalar,
        radius_y: Scalar,
        rotation: Angle,
        start_angle: Angle,
        end_angle: Angle,
        ccw: bool,
    ) -> (r: Result<(), LignumError>)
        ensures
            r is Ok,
            final(self)@ == old(self)@.ensured().extended(
                PathCommand::Ellipse {
                    x,
                    y,
                    radius_x,
                    radius_y,
                    rotation,
                    start_angle,
                    end_angle,
                    ccw,
                },
                spec_ellipse_point(x, y, radius_x, radius_y, rotation, end_angle).0,
                spec_ellipse_point(x, y, radius_x, radius_y, rotation, end_angle).1,
            ),
    {
        self.ensure_subpath();
        let end = ellipse_point(x, y, radius_x, radius_y, rotation, end_angle);
        self.extend_path(
            PathCommand::Ellipse {
                x,
                y,
                radius_x,
                radius_y,
                rotation,
                start_angle,
                end_angle,
                ccw,
            },
            end.0,
            end.1,
        );
        Ok(())
    }

    fn rect(&mut self, x: Scalar, y: Scalar, w: Scalar, h: Scalar) -> (r: Result<(), LignumError>)
        ensures
            r is Ok,
            final(self)@ == old(self)@.started(PathCommand::Rect { x, y, w, h }, x, y),
    {
        self.start_path(PathCommand::Rect { x, y, w, h }, x, y);
        Ok(())
    }

    fn round_rect(&mut self, x: Scalar, y: Scalar, w: Scalar, h: Scalar, radii: &[Scalar]) -> (r:
        Result<(), LignumError>)
        ensures
            r is Ok,
            final(self)@ == old(self)@.started(
                PathCommand::RoundRect { x, y, w, h, radii: spec_expand_radii(radii@) },
                x,
                y,
            ),
    {
        let corners = expand_radii(radii);
        self.start_path(PathCommand::RoundRect { x, y, w, h, radii: corners }, x, y);
        Ok(())
    }

    fn fill(&mut self, fill_rule: FillRule) -> (r: Result<(), LignumError>)
        ensures
            r is Ok,
            final(self)@ == old(self)@.filled(fill_rule),
    {
        if self.current_path.len() == 0 {
            return Ok(());
        }
        let path = self.consume_path();
        let op = DrawOp::FillPath { path, state: self.snapshot(), rule: fill_rule };
        self.record_op(op);
        Ok(())
    }

    fn stroke(&mut self) -> (r: Result<(), LignumError>)
        ensures
            r is Ok,
            final(self)@ == old(self)@.stroked(),
    {
        if self.current_path.len() == 0 {
            return Ok(());
        }
        let path = self.consume_path();
        let op = DrawOp::StrokePath { path, state: self.snapshot() };
        self.record_op(op);
        Ok(())
    }

    fn clip(&mut self, fill_rule: FillRule) -> (r: Result<(), LignumError>)
        ensures
            r is Ok,
            final(self)@ == old(self)@.clipped(fill_rule),
    {
        if self.current_path.len() == 0 {
            return Ok(());
        }
        let path = self.consume_path();
        let clip = ClipState { path: path.clone(), rule: fill_rule, transform: self.state.transform };
        self.state.clip = Some(clip);
        let op = DrawOp::Clip { path, state: self.snapshot(), rule: fill_rule };
        self.record_op(op);
        Ok(())
    }

    fn is_point_in_path(&self, x: Scalar, y: Scalar, opts: HitOptions) -> (r: Result<
        bool,
        LignumError,
    >)
        ensures
            r == Ok::<bool, LignumError>(false),
    {
        Ok(false)
    }

    fn is_point_in_stroke(&self, x: Scalar, y: Scalar) -> (r: Result<bool, LignumError>)
        ensures
            r == Ok::<bool, LignumError>(false),
    {
        Ok(false)
    }
}

impl CanvasText for RecordingCanvas {
    fn set_font(&mut self, value: String) -> (r: Result<(), LignumError>)
        ensures
            r is Ok,
            final(self)@ == old(self)@.with_state(SnapshotView { font: value@, ..old(self)@.state }),
    {
        self.state.font = value;
        Ok(())
    }

    fn font(&self) -> (r: Result<String, LignumError>)
        ensures
            r matches Ok(text) && text@ == self@.state.font,
    {
        Ok(self.state.font.clone())
    }

    fn set_text_align(&mut self, value: TextAlign) -> (r: Result<(), LignumError>)
        ensures
            r is Ok,
            final(self)@ == old(self)@.with_state(
                SnapshotView { text_align: value, ..old(self)@.state },
            ),
    {
        self.state.text_align = value;
        Ok(())
    }

    fn text_align(&self) -> (r: Result<TextAlign, LignumError>)
        ensures
            r == Ok::<TextAlign, LignumError>(self@.state.text_align),
    {
        Ok(self.state.text_align)
    }

    fn set_text_baseline(&mut self, value: TextBaseline) -> (r: Result<(), LignumError>)
        ensures
            r is Ok,
            final(self)@ == old(self)@.with_state(
                SnapshotView { text_baseline: value, ..old(self)@.state },
            ),
    {
        self.state.text_baseline = value;
        Ok(())
    }

    fn text_baseline(&self) -> (r: Result<TextBaseline, LignumError>)
        ensures
            r == Ok::<TextBaseline, LignumError>(self@.state.text_baseline),
    {
        Ok(self.state.text_baseline)
    }

    fn set_direction(&mut self, value: Direction) -> (r: Result<(), LignumError>)
        ensures
            r is Ok,
            final(self)@ == old(self)@.with_state(
                SnapshotView { direction: value, ..old(self)@.state },
            ),
    {
        self.state.direction = value;
        Ok(())
    }

    fn direction(&self) -> (r: Result<Direction, LignumError>)
        ensures
            r == Ok::<Direction, LignumError>(self@.state.direction),
    {
        Ok(self.state.direction)
    }

    fn fill_text(&mut self, text: &str, x: Scalar, y: Scalar, max_width: Option<Scalar>) -> (r:
        Result<(), LignumError>)
        ensures
            r is Ok,
            final(self)@ == old(self)@.recorded(
                DrawOpView::FillText { text: text@, x, y, max_width, state: old(self)@.state },
            ),
    {
        let op = DrawOp::FillText {
            text: String::from_str(text),
            x,
            y,
            max_width,
            state: self.snapshot(),
        };
        self.record_op(op);
        Ok(())
    }

    fn stroke_text(&mut self, text: &str, x: Scalar, y: Scalar, max_width: Option<Scalar>) -> (r:
        Result<(), LignumError>)
        ensures
            r is Ok,
            final(self)@ == old(self)@.recorded(
                DrawOpView::StrokeText { text: text@, x, y, max_width, state: old(self)@.state },
            ),
    {
        let op = DrawOp::StrokeText {
            text: String::from_str(text),
            x,
            y,
            max_width,
            state: self.snapshot(),
        };
        self.record_op(op);
        Ok(())
    }

    fn measure_text(&self, text: &str) -> (r: Result<TextMetrics, LignumError>)
        ensures
            r == Ok::<TextMetrics, LignumError>(TextMetrics { width: spec_text_width(text@) }),
    {
        let len: usize = text.as_bytes().len();
        let width = if len as u128 > 9_223_372_036 {
            Scalar::from_nanos(i64::MAX)
        } else {
            Scalar::from_nanos((len as i64) * NANOS_PER_UNIT)
        };
        Ok(TextMetrics { width })
    }
}

impl CanvasImageData for RecordingCanvas {
    fn create_image_data(&mut self, width: u32, height: u32) -> (r: Result<ImageData, LignumError>)
        ensures
            final(self)@ == old(self)@,
            match r {
                Ok(image) => spec_pixel_bytes(width, height) <= usize::MAX && image@ == (
                ImageDataView {
                    width,
                    height,
                    data: Seq::new(spec_pixel_bytes(width, height) as nat, |i: int| 0u8),
                }),
                Err(error) => spec_pixel_bytes(width, height) > usize::MAX && error.is_other(
                    "image dimensions overflow"@,
                ),
            },
    {
        blank_image(width, height)
    }

    fn get_image_data(&self, sx: u32, sy: u32, sw: u32, sh: u32) -> (r: Result<
        ImageData,
        LignumError,
    >)
        ensures
            match r {
                Ok(image) => spec_pixel_bytes(sw, sh) <= usize::MAX && image@ == (ImageDataView {
                    width: sw,
                    height: sh,
                    data: Seq::new(spec_pixel_bytes(sw, sh) as nat, |i: int| 0u8),
                }),
                Err(error) => spec_pixel_bytes(sw, sh) > usize::MAX && error.is_other(
                    "image dimensions overflow"@,
                ),
            },
    {
        blank_image(sw, sh)
    }

    fn put_image_data(&mut self, data: &ImageData, dx: Scalar, dy: Scalar) -> (r: Result<
        (),
        LignumError,
    >)
        ensures
            r is Ok,
            final(self)@ == old(self)@.recorded(
                DrawOpView::PutImageData { data: data@, dx, dy, state: old(self)@.state },
            ),
    {
        let op = DrawOp::PutImageData { data: data.clone(), dx, dy, state: self.snapshot() };
        self.record_op(op);
        Ok(())
    }

    fn put_image_data_dirty(
        &mut self,
        data: &ImageData,
        dx: Scalar,
        dy: Scalar,
        dirty_x: u32,
        dirty_y: u32,
        dirty_width: u32,
        dirty_height: u32,
    ) -> (r: Result<(), LignumError>)
        ensures
            r is Ok,
            final(self)@ == old(self)@.recorded(
                DrawOpView::PutImageDataDirty {
                    data: data@,
                    dx,
                    dy,
                    dirty_x,
                    dirty_y,
                    dirty_width,
                    dirty_height,
                    state: old(self)@.state,
                },
            ),
    {
        let op = DrawOp::PutImageDataDirty {
            data: data.clone(),
            dx,
            dy,
            dirty_x,
            dirty_y,
            dirty_width,
            dirty_height,
            state: self.snapshot(),
        };
        self.record_op(op);
        Ok(())
    }
}

impl RecordingCanvas {
    /// Records that an image of `source_width` by `source_height` pixels is
    /// drawn in its own size with its corner at `(dx, dy)`.
    pub fn draw_sized_image(&mut self, source_width: u32, source_height: u32, dx: Scalar, dy: Scalar)
        ensures
            final(self)@ == old(self)@.image_drawn(source_width, source_height, dx, dy),
    {
        let op = DrawOp::DrawImage { source_width, source_height, dx, dy, state: self.snapshot() };
        self.record_op(op);
    }

    /// Records that an image of `source_width` by `source_height` pixels is
    /// drawn scaled to `dw` by `dh`.
    pub fn draw_sized_image_scaled(
        &mut self,
        source_width: u32,
        source_height: u32,
        dx: Scalar,
        dy: Scalar,
        dw: Scalar,
        dh: Scalar,
    )
        ensures
            final(self)@ == old(self)@.image_drawn_scaled(
                source_width,
                source_height,
                dx,
                dy,
                dw,
                dh,
            ),
    {
        let op = DrawOp::DrawImageScaled {
            source_width,
            source_height,
            dx,
            dy,
            dw,
            dh,
            state: self.snapshot(),
        };
        self.record_op(op);
    }

    /// Records that a part of an image of `source_width` by `source_height`
    /// pixels is drawn into a rectangle.
    pub fn draw_sized_image_subrect(
        &mut self,
        source_width: u32,
        source_height: u32,
        sx: Scalar,
        sy: Scalar,
        sw: Scalar,
        sh: Scalar,
        dx: Scalar,
        dy: Scalar,
        dw: Scalar,
        dh: Scalar,
    )
        ensures
            final(self)@ == old(self)@.image_drawn_subrect(
                source_width,
                source_height,
                sx,
                sy,
                sw,
                sh,
                dx,
                dy,
                dw,
                dh,
            ),
    {
        let op = DrawOp::DrawImageSubrect {
            source_width,
            source_height,
            sx,
            sy,
            sw,
            sh,
            dx,
            dy,
            dw,
            dh,
            state: self.snapshot(),
        };
        self.record_op(op);
    }
}

impl CanvasDrawImage for RecordingCanvas {
    /// Records the drawing of an image of the size that `image` answers:
    /// of the size that its spec functions give, where it vouches for it.
    fn draw_image(&mut self, image: &dyn CanvasImageSource, dx: Scalar, dy: Scalar) -> (r: Result<
        (),
        LignumError,
    >)
        ensures
            r is Ok,
            exists|width: u32, height: u32|
                final(self)@ == #[trigger] old(self)@.image_drawn(width, height, dx, dy),
            image.is_exact() ==> final(self)@ == old(self)@.image_drawn(
                image.spec_width(),
                image.spec_height(),
                dx,
                dy,
            ),
    {
        let width = image.width();
        let height = image.height();
        self.draw_sized_image(width, height, dx, dy);
        Ok(())
    }

    /// Records the drawing of a scaled image of the size that `image` answers.
    fn draw_image_scaled(
        &mut self,
        image: &dyn CanvasImageSource,
        dx: Scalar,
        dy: Scalar,
        dw: Scalar,
        dh: Scalar,
    ) -> (r: Result<(), LignumError>)
        ensures
            r is Ok,
            exists|width: u32, height: u32|
                final(self)@ == #[trigger] old(self)@.image_drawn_scaled(
                    width,
                    height,
                    dx,
                    dy,
                    dw,
                    dh,
                ),
            image.is_exact() ==> final(self)@ == old(self)@.image_drawn_scaled(
                image.spec_width(),
                image.spec_height(),
                dx,
                dy,
                dw,
                dh,
            ),
    {
        let width = image.width();
        let height = image.height();
        self.draw_sized_image_scaled(width, height, dx, dy, dw, dh);
        Ok(())
    }

    /// Records the drawing of a part of an image of the size that `image` answers.
    fn draw_image_subrect(
        &mut self,
        image: &dyn CanvasImageSource,
        sx: Scalar,
        sy: Scalar,
        sw: Scalar,
        sh: Scalar,
        dx: Scalar,
        dy: Scalar,
        dw: Scalar,
        dh: Scalar,
    ) -> (r: Result<(), LignumError>)
        ensures
            r is Ok,
            exists|width: u32, height: u32|
                final(self)@ == #[trigger] old(self)@.image_drawn_subrect(
                    width,
                    height,
                    sx,
                    sy,
                    sw,
                    sh,
                    dx,
                    dy,
                    dw,
                    dh,
                ),
            image.is_exact() ==> final(self)@ == old(self)@.image_drawn_subrect(
                image.spec_width(),
                image.spec_height(),
                sx,
                sy,
                sw,
                sh,
                dx,
                dy,
                dw,
                dh,
            ),
    {
        let width = image.width();
        let height = image.height();
        self.draw_sized_image_subrect(width, height, sx, sy, sw, sh, dx, dy, dw, dh);
        Ok(())
    }
}

impl CanvasRenderingContext2D for RecordingCanvas {

}

/// One step in the life of the drawing state.
pub enum StateStep {
    /// `save`.
    Save,
    /// `restore`.
    Restore,
    /// Any change of the drawing state: it becomes the state given.
    Change(SnapshotView),
}

/// How much higher the stack of saved states stands after `steps`: the
/// saves less the restores.
pub open spec fn net_saves(steps: Seq<StateStep>) -> int
    decreases steps.len(),
{
    if steps.len() == 0 {
        0
    } else {
        net_saves(steps.drop_last()) + match steps.last() {
            StateStep::Save => 1int,
            StateStep::Restore => -1int,
            StateStep::Change(_) => 0int,
        }
    }
}

/// Whether every `restore` among `steps` has a `save` among them before it.
pub open spec fn is_nested(steps: Seq<StateStep>) -> bool
    decreases steps.len(),
{
    steps.len() == 0 || (is_nested(steps.drop_last()) && net_saves(steps) >= 0)
}

impl RecordingView {
    /// The context after one step.
    pub open spec fn stepped(self, step: StateStep) -> RecordingView {
        match step {
            StateStep::Save => self.saved(),
            StateStep::Restore => self.restored(),
            StateStep::Change(state) => self.with_state(state),
        }
    }

    /// The context after `steps`, the first of them first.
    pub open spec fn run(self, steps: Seq<StateStep>) -> RecordingView
        decreases steps.len(),
    {
        if steps.len() == 0 {
            self
        } else {
            self.run(steps.drop_last()).stepped(steps.last())
        }
    }
}

/// Steps whose restores all have their saves among them leave the states
/// that were saved before them where they are, beneath their own.
pub proof fn lemma_nested_steps_keep_stack(view: RecordingView, steps: Seq<StateStep>)
    requires
        is_nested(steps),
    ensures
        view.run(steps).stack.len() == view.stack.len() + net_saves(steps),
        view.run(steps).stack.subrange(0, view.stack.len() as int) == view.stack,
    decreases steps.len(),
{
    if steps.len() == 0 {
        assert(view.stack.subrange(0, view.stack.len() as int) =~= view.stack);
    } else {
        lemma_nested_steps_keep_stack(view, steps.drop_last());
        let before = view.run(steps.drop_last());
        let after = before.stepped(steps.last());
        assert(after.stack.subrange(0, view.stack.len() as int) =~= before.stack.subrange(
            0,
            view.stack.len() as int,
        ));
    }
}

/// Stack discipline: after a `save`, any steps in which saves and restores
/// are matched, and a `restore`, the drawing state is the one that the
/// `save` captured, and the saved states are those that there were before.
pub proof fn lemma_restore_matches_save(view: RecordingView, steps: Seq<StateStep>)
    requires
        is_nested(steps),
        net_saves(steps) == 0,
    ensures
        view.saved().run(steps).restored().state == view.state,
        view.saved().run(steps).restored().stack == view.stack,
{
    let saved = view.saved();
    lemma_nested_steps_keep_stack(saved, steps);
    let after = saved.run(steps);
    assert(after.stack =~= after.stack.subrange(0, saved.stack.len() as int));
    assert(after.stack == saved.stack);
    assert(saved.stack.drop_last() =~= view.stack);
}

/// A `restore` with nothing saved changes nothing.
pub proof fn lemma_restore_on_empty_stack(view: RecordingView)
    requires
        view.stack.len() == 0,
    ensures
        view.restored() == view,
{
}

/// With an empty current path, `fill`, `stroke` and `clip` do nothing: no
/// operation is recorded, and the current point, the clip and all the rest
/// of the context stay as they are.
pub proof fn lemma_empty_path_is_inert(view: RecordingView, rule: FillRule)
    requires
        view.path.len() == 0,
    ensures
        view.filled(rule) == view,
        view.stroked() == view,
        view.clipped(rule) == view,
{
}

/// A clip keeps the transform that was current when it was made: composing
/// the current transform with another afterwards leaves the clip as it is.
pub proof fn lemma_clip_transform_is_frozen(view: RecordingView, rule: FillRule, m: Transform)
    requires
        view.path.len() > 0,
    ensures
        view.clipped(rule).transformed(m).state.clip == Some(
            ClipView { path: view.path, rule, transform: view.state.transform },
        ),
{
}

/// On a context with a current point, `arc_to` with a radius of zero, or
/// with the corner at the current point or at the point after it, adds the
/// straight line to the corner point and nothing else.
pub proof fn lemma_degenerate_arc_to_is_line(
    view: RecordingView,
    x1: Scalar,
    y1: Scalar,
    x2: Scalar,
    y2: Scalar,
    radius: Scalar,
)
    requires
        view.current_point is Some,
        radius.nanos == 0 || view.current_point == Some((x1, y1)) || (x1 == x2 && y1 == y2),
    ensures
        view.rounded(x1, y1, x2, y2, radius) == view.extended(
            PathCommand::LineTo { x: x1, y: y1 },
            x1,
            y1,
        ),
{
}

/// A shift followed by a scaling composes the current transform with one
/// transform, `(sx, 0, 0, sy, tx, ty)`: by the formula of composition, the
/// linear part is scaled column by column and the origin is sent to where
/// the current transform sends `(tx, ty)`.
pub proof fn lemma_translate_then_scale(
    view: RecordingView,
    tx: Scalar,
    ty: Scalar,
    sx: Scalar,
    sy: Scalar,
)
    ensures
        view.transformed(Transform::spec_translation(tx, ty)).transformed(
            Transform::spec_scaling(sx, sy),
        ) == view.transformed(
            Transform {
                a: sx,
                b: Scalar { nanos: 0 },
                c: Scalar { nanos: 0 },
                d: sy,
                e: tx,
                f: ty,
            },
        ),
        view.transformed(Transform::spec_translation(tx, ty)).transformed(
            Transform::spec_scaling(sx, sy),
        ).state.transform == (Transform {
            a: view.state.transform.a.spec_mul(sx),
            b: view.state.transform.b.spec_mul(sx),
            c: view.state.transform.c.spec_mul(sy),
            d: view.state.transform.d.spec_mul(sy),
            e: view.state.transform.spec_apply(tx, ty).0,
            f: view.state.transform.spec_apply(tx, ty).1,
        }),
{
    lemma_compose_translation_scaling_associative(view.state.transform, tx, ty, sx, sy);
    lemma_translation_then_scaling(tx, ty, sx, sy);
}

} // verus!
