//! A backend that writes an SVG document.
//!
//! Rectangles, paths, text and images become elements of the document as
//! they are drawn; gradients and patterns are defined, each under an
//! identifier of its own, just before the element that uses them.

use vstd::prelude::*;
use vstd::string::StringExecFns;
use quick_xml::Writer;
use crate::api::CanvasCompositing;
use crate::api::CanvasFillStrokeStyles;
use crate::api::CanvasImageSource;
use crate::api::CanvasLineStyles;
use crate::api::CanvasState;
use crate::api::CanvasTransforms;
use crate::api::CompositeOperation;
use crate::api::ImageSmoothingQuality;
use crate::api::LineCap;
use crate::api::LineJoin;
use crate::api::PatternRepetition;
use crate::geometry::arc_point;
use crate::geometry::ellipse_point;
use crate::geometry::spec_ellipse_point;
use crate::geometry::spec_arc_point;
use crate::geometry::spec_tangent_join;
use crate::geometry::TangentJoin;
use crate::geometry::FULL_TURN_NANOS;
use crate::geometry::HALF_TURN_NANOS;
use crate::scalar::magnitude;
use crate::scalar::signed;
use crate::scalar::Angle;
use crate::api::CanvasDrawImage;
use crate::api::CanvasImageData;
use crate::api::CanvasPaths;
use crate::api::CanvasRectangles;
use crate::api::CanvasRenderingContext2D;
use crate::api::CanvasText;
use crate::api::Direction;
use crate::api::FillRule;
use crate::api::HitOptions;
use crate::api::ImageData;
use crate::api::TextAlign;
use crate::api::TextBaseline;
use crate::api::TextMetrics;
use crate::backends::encode::encode_image_as_data_uri;
use crate::backends::encode::pixels_view;
use crate::backends::encode::spec_can_encode;
use crate::backends::encode::spec_image_uri;
use crate::geometry::tangent_join;
use crate::api::CanvasGradient;
use crate::api::CanvasPattern;
use crate::api::GradientKind;
use crate::api::GradientStopView;
use crate::api::GradientView;
use crate::api::Paint;
use crate::api::PaintView;
use crate::api::stops_view;
use crate::backends::recording::states_view;
use crate::backends::recording::Snapshot;
use crate::backends::recording::SnapshotView;
use crate::backends::xml::attributes_view;
use crate::backends::xml::document;
use crate::backends::xml::xml_into_inner;
use crate::backends::xml::xml_write_declaration;
use crate::backends::xml::xml_write_empty;
use crate::backends::xml::xml_write_end;
use crate::backends::xml::xml_write_start;
use crate::backends::xml::xml_write_text;
use crate::backends::xml::xml_writer_new;
use crate::backends::xml::XmlAttribute;
use crate::backends::xml::XmlAttributeView;
use crate::backends::xml::XmlDocument;
use crate::error::LignumError;
use crate::scalar::append_decimal;
use crate::scalar::decimal;
use crate::scalar::lemma_decimal_is_injective;
use crate::scalar::Scalar;
use crate::scalar::NANOS_PER_UNIT;
use crate::transform::Transform;

verus! {

/// A drawing context that writes an SVG document into a buffer of bytes.
pub struct SvgCanvas {
    writer: Writer<Vec<u8>>,
    open_root: bool,
    width: Scalar,
    height: Scalar,
    current_path: String,
    current_point: Option<(Scalar, Scalar)>,
    subpath_start: Option<(Scalar, Scalar)>,
    state: Snapshot,
    stack: Vec<Snapshot>,
    gradient_counter: u64,
    pattern_counter: u64,
}

/// An [`SvgCanvas`] as a value of specifications.
pub struct SvgView {
    /// What has been written of the document.
    pub document: XmlDocument,
    /// Whether the root element still waits for its end tag.
    pub open_root: bool,
    /// The width of the drawing.
    pub width: Scalar,
    /// The height of the drawing.
    pub height: Scalar,
    /// The current path, as path data.
    pub path: Seq<char>,
    /// Where the current path has got to, once it has begun.
    pub current_point: Option<(Scalar, Scalar)>,
    /// Where the current subpath began, once one has.
    pub subpath_start: Option<(Scalar, Scalar)>,
    /// The drawing state.
    pub state: SnapshotView,
    /// The saved states, the one saved last at the end.
    pub stack: Seq<SnapshotView>,
    /// How many gradients have been defined.
    pub gradients: nat,
    /// How many patterns have been defined.
    pub patterns: nat,
}

impl View for SvgCanvas {
    type V = SvgView;

    closed spec fn view(&self) -> SvgView {
        SvgView {
            document: document(self.writer),
            open_root: self.open_root,
            width: self.width,
            height: self.height,
            path: self.current_path@,
            current_point: self.current_point,
            subpath_start: self.subpath_start,
            state: self.state@,
            stack: states_view(self.stack@),
            gradients: self.gradient_counter as nat,
            patterns: self.pattern_counter as nat,
        }
    }
}

/// The attribute `name="value"`.
pub open spec fn attribute(name: Seq<char>, value: Seq<char>) -> XmlAttributeView {
    XmlAttributeView { name, value }
}

/// The error of an operation that the SVG backend does not offer.
pub open spec fn spec_not_supported(operation: Seq<char>) -> Seq<char> {
    "SVG backend does not yet implement "@ + operation
}

/// The text `matrix(a b c d e f)` of a transform.
pub open spec fn spec_matrix_text(m: Transform) -> Seq<char> {
    "matrix("@ + m.a.spec_text() + " "@ + m.b.spec_text() + " "@ + m.c.spec_text() + " "@
        + m.d.spec_text() + " "@ + m.e.spec_text() + " "@ + m.f.spec_text() + ")"@
}

/// The attribute that carries the transform, unless it is the identity.
pub open spec fn transform_attributes(m: Transform) -> Seq<XmlAttributeView> {
    if m == Transform::spec_identity() {
        Seq::empty()
    } else {
        seq![attribute("transform"@, spec_matrix_text(m))]
    }
}

/// The attribute that carries the opacity, where it is below one.
pub open spec fn opacity_attributes(alpha: Scalar) -> Seq<XmlAttributeView> {
    if alpha.nanos < NANOS_PER_UNIT {
        seq![attribute("opacity"@, alpha.spec_text())]
    } else {
        Seq::empty()
    }
}

/// The attributes of the root element of a drawing of `width` by `height`.
pub open spec fn root_attributes(width: Scalar, height: Scalar) -> Seq<XmlAttributeView> {
    seq![
        attribute("xmlns"@, "http://www.w3.org/2000/svg"@),
        attribute("version"@, "1.1"@),
        attribute("width"@, width.spec_text()),
        attribute("height"@, height.spec_text()),
        attribute("viewBox"@, "0 0 "@ + width.spec_text() + " "@ + height.spec_text()),
    ]
}

/// The identifier of the gradient defined after `n` others.
pub open spec fn gradient_id(n: nat) -> Seq<char> {
    "grad"@ + decimal(n)
}

/// The identifier of the pattern defined after `n` others.
pub open spec fn pattern_id(n: nat) -> Seq<char> {
    "pat"@ + decimal(n)
}

/// The paint that refers to the definition under `id`.
pub open spec fn url_text(id: Seq<char>) -> Seq<char> {
    "url(#"@ + id + ")"@
}

/// The name of the element that defines a gradient of this geometry.
pub open spec fn gradient_tag(kind: GradientKind) -> Seq<char> {
    match kind {
        GradientKind::Linear { .. } => "linearGradient"@,
        GradientKind::Radial { .. } => "radialGradient"@,
    }
}

/// The attributes of the element that defines a gradient under `id`: for a
/// linear one the two ends of its line; for a radial one the outer circle as
/// centre and radius and the inner one as focus and focal radius.
pub open spec fn gradient_attributes(id: Seq<char>, kind: GradientKind) -> Seq<XmlAttributeView> {
    match kind {
        GradientKind::Linear { x0, y0, x1, y1 } => seq![
            attribute("id"@, id),
            attribute("x1"@, x0.spec_text()),
            attribute("y1"@, y0.spec_text()),
            attribute("x2"@, x1.spec_text()),
            attribute("y2"@, y1.spec_text()),
        ],
        GradientKind::Radial { x0, y0, r0, x1, y1, r1 } => seq![
            attribute("id"@, id),
            attribute("cx"@, x1.spec_text()),
            attribute("cy"@, y1.spec_text()),
            attribute("r"@, r1.spec_text()),
            attribute("fx"@, x0.spec_text()),
            attribute("fy"@, y0.spec_text()),
            attribute("fr"@, r0.spec_text()),
        ],
    }
}

/// The attributes of the element of one stop.
pub open spec fn stop_attributes(stop: GradientStopView) -> Seq<XmlAttributeView> {
    seq![attribute("offset"@, stop.offset.spec_text()), attribute("stop-color"@, stop.color)]
}

/// The document after the stops of a gradient, each an element of its own,
/// in the order in which the gradient holds them.
pub open spec fn stops_written(doc: XmlDocument, stops: Seq<GradientStopView>) -> XmlDocument
    decreases stops.len(),
{
    if stops.len() == 0 {
        doc
    } else {
        stops_written(doc, stops.drop_last()).empty("stop"@, stop_attributes(stops.last()))
    }
}

/// The document after the definition of `gradient` under `id`.
pub open spec fn gradient_defined(doc: XmlDocument, id: Seq<char>, gradient: GradientView) -> XmlDocument {
    stops_written(
        doc.opened("defs"@, Seq::empty()).opened(
            gradient_tag(gradient.kind),
            gradient_attributes(id, gradient.kind),
        ),
        gradient.stops,
    ).closed(gradient_tag(gradient.kind)).closed("defs"@)
}

/// The attributes of the element that defines a pattern under `id`: a tile
/// of one by one in user space, with the pattern's transform where it has one.
pub open spec fn pattern_attributes(id: Seq<char>, pattern: CanvasPattern) -> Seq<XmlAttributeView> {
    seq![
        attribute("id"@, id),
        attribute("width"@, "1"@),
        attribute("height"@, "1"@),
        attribute("patternUnits"@, "userSpaceOnUse"@),
    ] + match pattern.transform {
        Some(m) => seq![attribute("patternTransform"@, spec_matrix_text(m))],
        None => Seq::empty(),
    }
}

/// The attributes of the transparent rectangle that fills a pattern's tile.
pub open spec fn pattern_tile_attributes() -> Seq<XmlAttributeView> {
    seq![
        attribute("width"@, "1"@),
        attribute("height"@, "1"@),
        attribute("fill"@, "rgba(0,0,0,0)"@),
    ]
}

/// The document after the definition of `pattern` under `id`.
pub open spec fn pattern_defined(doc: XmlDocument, id: Seq<char>, pattern: CanvasPattern) -> XmlDocument {
    doc.opened("defs"@, Seq::empty()).opened("pattern"@, pattern_attributes(id, pattern)).empty(
        "rect"@,
        pattern_tile_attributes(),
    ).closed("pattern"@).closed("defs"@)
}

impl SvgView {
    /// The context with `document` for what it has written.
    pub open spec fn with_document(self, document: XmlDocument) -> SvgView {
        SvgView { document, ..self }
    }

    /// The context with `state` for its drawing state.
    pub open spec fn with_state(self, state: SnapshotView) -> SvgView {
        SvgView { state, ..self }
    }

    /// Whether `paint` can be resolved: a gradient or a pattern needs an
    /// identifier, and the count of those defined must be able to grow.
    pub open spec fn can_resolve(self, paint: PaintView) -> bool {
        match paint {
            PaintView::Color(_) => true,
            PaintView::Gradient(_) => self.gradients < u64::MAX,
            PaintView::Pattern(_) => self.patterns < u64::MAX,
        }
    }

    /// What the error says where `paint` cannot be resolved.
    pub open spec fn refusal(self, paint: PaintView) -> Seq<char> {
        match paint {
            PaintView::Pattern(_) => "too many patterns"@,
            _ => "too many gradients"@,
        }
    }

    /// The text by which an element refers to `paint`: a colour is its own
    /// text; a gradient or a pattern is the reference to its definition.
    pub open spec fn paint_text(self, paint: PaintView) -> Seq<char> {
        match paint {
            PaintView::Color(text) => text,
            PaintView::Gradient(_) => url_text(gradient_id(self.gradients)),
            PaintView::Pattern(_) => url_text(pattern_id(self.patterns)),
        }
    }

    /// The context after `paint` has been resolved: a colour changes
    /// nothing; a gradient or a pattern is defined in the document under the
    /// next identifier of its kind, and the count of its kind grows by one.
    pub open spec fn resolved(self, paint: PaintView) -> SvgView {
        match paint {
            PaintView::Color(_) => self,
            PaintView::Gradient(gradient) => SvgView {
                document: gradient_defined(self.document, gradient_id(self.gradients), gradient),
                gradients: self.gradients + 1,
                ..self
            },
            PaintView::Pattern(pattern) => SvgView {
                document: pattern_defined(self.document, pattern_id(self.patterns), pattern),
                patterns: self.patterns + 1,
                ..self
            },
        }
    }
}

/// Appends the attribute `name="value"`.
fn push_attribute(attributes: &mut Vec<XmlAttribute>, name: &str, value: String)
    ensures
        attributes_view(final(attributes)@) == attributes_view(old(attributes)@).push(
            attribute(name@, value@),
        ),
{
    attributes.push(XmlAttribute { name: String::from_str(name), value });
    assert(attributes_view(attributes@) =~= attributes_view(old(attributes)@).push(
        attribute(name@, value@),
    ));
}

/// No attributes.
fn no_attributes() -> (attributes: Vec<XmlAttribute>)
    ensures
        attributes_view(attributes@) == Seq::<XmlAttributeView>::empty(),
{
    let attributes: Vec<XmlAttribute> = Vec::new();
    assert(attributes_view(attributes@) =~= Seq::<XmlAttributeView>::empty());
    attributes
}

/// The text `matrix(a b c d e f)` of a transform.
fn matrix_text(m: Transform) -> (text: String)
    ensures
        text@ == spec_matrix_text(m),
{
    let mut text = String::from_str("matrix(");
    m.a.append_text(&mut text);
    text.append(" ");
    m.b.append_text(&mut text);
    text.append(" ");
    m.c.append_text(&mut text);
    text.append(" ");
    m.d.append_text(&mut text);
    text.append(" ");
    m.e.append_text(&mut text);
    text.append(" ");
    m.f.append_text(&mut text);
    text.append(")");
    assert(text@ =~= spec_matrix_text(m));
    text
}

/// Appends the attribute that carries the transform, unless it is the identity.
fn push_transform(attributes: &mut Vec<XmlAttribute>, m: Transform)
    ensures
        attributes_view(final(attributes)@) == attributes_view(old(attributes)@)
            + transform_attributes(m),
{
    if !m.is_identity() {
        push_attribute(attributes, "transform", matrix_text(m));
    }
    assert(attributes_view(attributes@) =~= attributes_view(old(attributes)@)
        + transform_attributes(m));
}

/// Appends the attribute that carries the opacity, where it is below one.
fn push_opacity(attributes: &mut Vec<XmlAttribute>, alpha: Scalar)
    ensures
        attributes_view(final(attributes)@) == attributes_view(old(attributes)@)
            + opacity_attributes(alpha),
{
    if alpha.nanos < NANOS_PER_UNIT {
        push_attribute(attributes, "opacity", alpha.to_text());
    }
    assert(attributes_view(attributes@) =~= attributes_view(old(attributes)@)
        + opacity_attributes(alpha));
}

/// The identifier made of `prefix` and the number `n`.
fn numbered(prefix: &str, n: u64) -> (id: String)
    ensures
        id@ == prefix@ + decimal(n as nat),
{
    let mut id = String::from_str(prefix);
    append_decimal(&mut id, n);
    id
}

/// The paint that refers to the definition under `id`.
fn url_of(id: &str) -> (text: String)
    ensures
        text@ == url_text(id@),
{
    let mut text = String::from_str("url(#");
    text.append(id);
    text.append(")");
    assert(text@ =~= url_text(id@));
    text
}

/// The error of an operation that the SVG backend does not offer.
fn not_supported(operation: &str) -> (error: LignumError)
    ensures
        error.is_other(spec_not_supported(operation@)),
{
    let mut text = String::from_str("SVG backend does not yet implement ");
    text.append(operation);
    LignumError::Other(text)
}

impl SvgCanvas {
    /// A canvas for a drawing of `width` by `height`, which writes behind
    /// what `inner` holds: first the declaration of XML, then the start tag
    /// of the root element.
    pub fn new(inner: Vec<u8>, width: Scalar, height: Scalar) -> (r: Result<SvgCanvas, LignumError>)
        ensures
            r matches Ok(canvas) && canvas@ == (SvgView {
                document: (XmlDocument { bytes: inner@, indent: 0, breaks: false }).declared().opened(
                    "svg"@,
                    root_attributes(width, height),
                ),
                open_root: true,
                width,
                height,
                path: Seq::empty(),
                current_point: None,
                subpath_start: None,
                state: SnapshotView::initial(),
                stack: Seq::empty(),
                gradients: 0,
                patterns: 0,
            }),
    {
        let mut writer = xml_writer_new(inner);
        xml_write_declaration(&mut writer);
        let mut attributes = no_attributes();
        push_attribute(&mut attributes, "xmlns", String::from_str("http://www.w3.org/2000/svg"));
        push_attribute(&mut attributes, "version", String::from_str("1.1"));
        push_attribute(&mut attributes, "width", width.to_text());
        push_attribute(&mut attributes, "height", height.to_text());
        let mut view_box = String::from_str("0 0 ");
        width.append_text(&mut view_box);
        view_box.append(" ");
        height.append_text(&mut view_box);
        assert(view_box@ =~= "0 0 "@ + width.spec_text() + " "@ + height.spec_text());
        push_attribute(&mut attributes, "viewBox", view_box);
        assert(attributes_view(attributes@) =~= root_attributes(width, height));
        xml_write_start(&mut writer, "svg", &attributes);
        let canvas = SvgCanvas {
            writer,
            open_root: true,
            width,
            height,
            current_path: String::new(),
            current_point: None,
            subpath_start: None,
            state: Snapshot::default(),
            stack: Vec::new(),
            gradient_counter: 0,
            pattern_counter: 0,
        };
        assert(states_view(canvas.stack@) =~= Seq::empty());
        Ok(canvas)
    }

    /// Ends the document: the root element gets its end tag, and the bytes
    /// of the whole document are handed back.
    pub fn finish(self) -> (r: Result<Vec<u8>, LignumError>)
        ensures
            r matches Ok(bytes) && bytes@ == (if self@.open_root {
                self@.document.closed("svg"@)
            } else {
                self@.document
            }).bytes,
    {
        let mut writer = self.writer;
        if self.open_root {
            xml_write_end(&mut writer, "svg");
        }
        Ok(xml_into_inner(writer))
    }

    /// Writes the definition of `gradient` under `id`.
    fn write_gradient_def(&mut self, id: &str, gradient: &CanvasGradient)
        ensures
            final(self)@ == old(self)@.with_document(
                gradient_defined(old(self)@.document, id@, gradient@),
            ),
    {
        let none = no_attributes();
        xml_write_start(&mut self.writer, "defs", &none);
        let mut attributes = no_attributes();
        push_attribute(&mut attributes, "id", String::from_str(id));
        let tag = match gradient.kind {
            GradientKind::Linear { x0, y0, x1, y1 } => {
                push_attribute(&mut attributes, "x1", x0.to_text());
                push_attribute(&mut attributes, "y1", y0.to_text());
                push_attribute(&mut attributes, "x2", x1.to_text());
                push_attribute(&mut attributes, "y2", y1.to_text());
                "linearGradient"
            },
            GradientKind::Radial { x0, y0, r0, x1, y1, r1 } => {
                push_attribute(&mut attributes, "cx", x1.to_text());
                push_attribute(&mut attributes, "cy", y1.to_text());
                push_attribute(&mut attributes, "r", r1.to_text());
                push_attribute(&mut attributes, "fx", x0.to_text());
                push_attribute(&mut attributes, "fy", y0.to_text());
                push_attribute(&mut attributes, "fr", r0.to_text());
                "radialGradient"
            },
        };
        assert(attributes_view(attributes@) =~= gradient_attributes(id@, gradient.kind));
        xml_write_start(&mut self.writer, tag, &attributes);
        let ghost opened = document(self.writer);
        let mut i: usize = 0;
        while i < gradient.stops.len()
            invariant
                i <= gradient.stops.len(),
                document(self.writer) == stops_written(
                    opened,
                    stops_view(gradient.stops@).subrange(0, i as int),
                ),
                self.open_root == old(self).open_root,
                self.width == old(self).width,
                self.height == old(self).height,
                self.current_path == old(self).current_path,
                self.current_point == old(self).current_point,
                self.subpath_start == old(self).subpath_start,
                self.state == old(self).state,
                self.stack == old(self).stack,
                self.gradient_counter == old(self).gradient_counter,
                self.pattern_counter == old(self).pattern_counter,
            decreases gradient.stops.len() - i,
        {
            let stop = &gradient.stops[i];
            let mut stop_attributes_list = no_attributes();
            push_attribute(&mut stop_attributes_list, "offset", stop.offset.to_text());
            push_attribute(&mut stop_attributes_list, "stop-color", stop.color.clone());
            assert(attributes_view(stop_attributes_list@) =~= stop_attributes(stop@));
            xml_write_empty(&mut self.writer, "stop", &stop_attributes_list);
            proof {
                let all = stops_view(gradient.stops@);
                assert(all.subrange(0, i + 1).drop_last() =~= all.subrange(0, i as int));
                assert(all.subrange(0, i + 1).last() == stop@);
            }
            i += 1;
        }
        assert(stops_view(gradient.stops@).subrange(0, i as int) =~= stops_view(gradient.stops@));
        xml_write_end(&mut self.writer, tag);
        xml_write_end(&mut self.writer, "defs");
    }

    /// Writes the definition of `pattern` under `id`.
    fn write_pattern_def(&mut self, id: &str, pattern: &CanvasPattern)
        ensures
            final(self)@ == old(self)@.with_document(
                pattern_defined(old(self)@.document, id@, *pattern),
            ),
    {
        let none = no_attributes();
        xml_write_start(&mut self.writer, "defs", &none);
        let mut attributes = no_attributes();
        push_attribute(&mut attributes, "id", String::from_str(id));
        push_attribute(&mut attributes, "width", String::from_str("1"));
        push_attribute(&mut attributes, "height", String::from_str("1"));
        push_attribute(&mut attributes, "patternUnits", String::from_str("userSpaceOnUse"));
        match pattern.transform {
            Some(m) => {
                push_attribute(&mut attributes, "patternTransform", matrix_text(m));
            },
            None => {},
        }
        assert(attributes_view(attributes@) =~= pattern_attributes(id@, *pattern));
        xml_write_start(&mut self.writer, "pattern", &attributes);
        let mut tile = no_attributes();
        push_attribute(&mut tile, "width", String::from_str("1"));
        push_attribute(&mut tile, "height", String::from_str("1"));
        push_attribute(&mut tile, "fill", String::from_str("rgba(0,0,0,0)"));
        assert(attributes_view(tile@) =~= pattern_tile_attributes());
        xml_write_empty(&mut self.writer, "rect", &tile);
        xml_write_end(&mut self.writer, "pattern");
        xml_write_end(&mut self.writer, "defs");
    }

    /// Defines `gradient` under the next identifier and gives the reference to it.
    fn gradient_paint(&mut self, gradient: &CanvasGradient) -> (r: Result<String, LignumError>)
        ensures
            match r {
                Ok(text) => old(self)@.gradients < u64::MAX && text@ == old(self)@.paint_text(
                    PaintView::Gradient(gradient@),
                ) && final(self)@ == old(self)@.resolved(PaintView::Gradient(gradient@)),
                Err(error) => old(self)@.gradients == u64::MAX && final(self)@ == old(self)@
                    && error.is_other("too many gradients"@),
            },
    {
        if self.gradient_counter == u64::MAX {
            return Err(LignumError::Other(String::from_str("too many gradients")));
        }
        let id = numbered("grad", self.gradient_counter);
        self.gradient_counter = self.gradient_counter + 1;
        self.write_gradient_def(id.as_str(), gradient);
        Ok(url_of(id.as_str()))
    }

    /// Defines `pattern` under the next identifier and gives the reference to it.
    fn pattern_paint(&mut self, pattern: &CanvasPattern) -> (r: Result<String, LignumError>)
        ensures
            match r {
                Ok(text) => old(self)@.patterns < u64::MAX && text@ == old(self)@.paint_text(
                    PaintView::Pattern(*pattern),
                ) && final(self)@ == old(self)@.resolved(PaintView::Pattern(*pattern)),
                Err(error) => old(self)@.patterns == u64::MAX && final(self)@ == old(self)@
                    && error.is_other("too many patterns"@),
            },
    {
        if self.pattern_counter == u64::MAX {
            return Err(LignumError::Other(String::from_str("too many patterns")));
        }
        let id = numbered("pat", self.pattern_counter);
        self.pattern_counter = self.pattern_counter + 1;
        self.write_pattern_def(id.as_str(), pattern);
        Ok(url_of(id.as_str()))
    }

    /// Resolves `paint` into the text by which an element refers to it,
    /// defining it in the document where it needs a definition.
    fn paint_to_str(&mut self, paint: &Paint) -> (r: Result<String, LignumError>)
        ensures
            match r {
                Ok(text) => old(self)@.can_resolve(paint@) && text@ == old(self)@.paint_text(paint@)
                    && final(self)@ == old(self)@.resolved(paint@),
                Err(error) => !old(self)@.can_resolve(paint@) && final(self)@ == old(self)@
                    && error.is_other(old(self)@.refusal(paint@)),
            },
    {
        match paint {
            Paint::Color(text) => Ok(text.clone()),
            Paint::Gradient(gradient) => self.gradient_paint(gradient),
            Paint::Pattern(pattern) => self.pattern_paint(pattern),
        }
    }
}

/// The path data that moves to `(x, y)`.
pub open spec fn move_text(x: Scalar, y: Scalar) -> Seq<char> {
    "M "@ + x.spec_text() + " "@ + y.spec_text()
}

/// The path data of a straight line to `(x, y)`.
pub open spec fn line_text(x: Scalar, y: Scalar) -> Seq<char> {
    "L "@ + x.spec_text() + " "@ + y.spec_text()
}

/// The path data of a cubic curve.
pub open spec fn cubic_text(
    cp1x: Scalar,
    cp1y: Scalar,
    cp2x: Scalar,
    cp2y: Scalar,
    x: Scalar,
    y: Scalar,
) -> Seq<char> {
    "C "@ + cp1x.spec_text() + " "@ + cp1y.spec_text() + ", "@ + cp2x.spec_text() + " "@
        + cp2y.spec_text() + ", "@ + x.spec_text() + " "@ + y.spec_text()
}

/// The path data of a quadratic curve.
pub open spec fn quadratic_text(cpx: Scalar, cpy: Scalar, x: Scalar, y: Scalar) -> Seq<char> {
    "Q "@ + cpx.spec_text() + " "@ + cpy.spec_text() + ", "@ + x.spec_text() + " "@
        + y.spec_text()
}

/// The path data of a rectangle: from its corner along its width, down its
/// height, back along its width, and closed.
pub open spec fn rect_text(x: Scalar, y: Scalar, w: Scalar, h: Scalar) -> Seq<char> {
    "M "@ + x.spec_text() + " "@ + y.spec_text() + " h "@ + w.spec_text() + " v "@
        + h.spec_text() + " h "@ + w.spec_neg().spec_text() + " Z"@
}

/// The digit of a flag.
pub open spec fn flag_text(flag: bool) -> Seq<char> {
    if flag {
        "1"@
    } else {
        "0"@
    }
}

/// The path data of an arc of an ellipse to `(x, y)`: the two radii, the
/// angle in degrees by which the ellipse is turned, `large` for the longer
/// of the two arcs, and `sweep` for the arc that runs with growing angles.
pub open spec fn arc_text(
    radius_x: Scalar,
    radius_y: Scalar,
    turn: Scalar,
    large: bool,
    sweep: bool,
    x: Scalar,
    y: Scalar,
) -> Seq<char> {
    "A "@ + radius_x.spec_text() + " "@ + radius_y.spec_text() + " "@ + turn.spec_text() + " "@
        + flag_text(large) + " "@ + flag_text(sweep) + " "@ + x.spec_text() + " "@
        + y.spec_text()
}

/// An arc of an ellipse as it is written: the radii and the turn of the
/// ellipse, the point where the arc starts, the point opposite it, and the
/// point where the arc ends.
#[derive(Clone, Copy, Debug)]
pub struct ArcRun {
    pub radius_x: Scalar,
    pub radius_y: Scalar,
    /// The angle by which the ellipse is turned, in degrees.
    pub turn: Scalar,
    pub from: (Scalar, Scalar),
    pub opposite: (Scalar, Scalar),
    pub to: (Scalar, Scalar),
}

/// The angle half a turn away from `angle`, as far as its cosine and sine go.
pub open spec fn spec_opposite(angle: Angle) -> Angle {
    Angle { radians: angle.radians, cos: angle.cos.spec_neg(), sin: angle.sin.spec_neg() }
}

/// An angle in degrees.
pub open spec fn spec_degrees(angle: Angle) -> Scalar {
    angle.radians.spec_mul(Scalar { nanos: 180_000_000_000 }).spec_div(
        Scalar { nanos: HALF_TURN_NANOS },
    )
}

/// The arc of the circle about `(x, y)` from `start` to `end`.
pub open spec fn spec_circle_run(x: Scalar, y: Scalar, radius: Scalar, start: Angle, end: Angle) -> ArcRun {
    ArcRun {
        radius_x: radius,
        radius_y: radius,
        turn: Scalar { nanos: 0 },
        from: spec_arc_point(x, y, radius, start),
        opposite: spec_arc_point(x, y, radius, spec_opposite(start)),
        to: spec_arc_point(x, y, radius, end),
    }
}

/// The arc of the ellipse about `(x, y)`, turned by `rotation`, from `start`
/// to `end`.
pub open spec fn spec_ellipse_run(
    x: Scalar,
    y: Scalar,
    radius_x: Scalar,
    radius_y: Scalar,
    rotation: Angle,
    start: Angle,
    end: Angle,
) -> ArcRun {
    ArcRun {
        radius_x,
        radius_y,
        turn: spec_degrees(rotation),
        from: spec_ellipse_point(x, y, radius_x, radius_y, rotation, start),
        opposite: spec_ellipse_point(x, y, radius_x, radius_y, rotation, spec_opposite(start)),
        to: spec_ellipse_point(x, y, radius_x, radius_y, rotation, end),
    }
}

/// Path data with `command` behind it, a space between the two.
pub open spec fn joined(path: Seq<char>, command: Seq<char>) -> Seq<char> {
    if path.len() == 0 {
        command
    } else {
        path + " "@ + command
    }
}

/// The angle that an arc from `start` to `end` turns through, in billionths
/// of a radian: the difference of the two, brought to a turn that is not
/// negative for an arc that runs with growing angles, and not positive for
/// one that runs against them, by whole turns.
pub open spec fn spec_arc_delta(start: Angle, end: Angle, ccw: bool) -> int {
    let delta = end.radians.spec_sub(start.radians).nanos as int;
    if !ccw && delta < 0 {
        delta % (FULL_TURN_NANOS as int)
    } else if ccw && delta > 0 {
        -((-delta) % (FULL_TURN_NANOS as int))
    } else {
        delta
    }
}

/// Whether two points are further apart than a billionth along an axis.
pub open spec fn spec_is_apart(ax: Scalar, ay: Scalar, bx: Scalar, by: Scalar) -> bool {
    ax.spec_sub(bx).spec_abs().nanos > 1 || ay.spec_sub(by).spec_abs().nanos > 1
}

impl SvgView {
    /// The context after `command` has begun a subpath at `(x, y)`.
    pub open spec fn started(self, command: Seq<char>, x: Scalar, y: Scalar) -> SvgView {
        SvgView {
            path: joined(self.path, command),
            current_point: Some((x, y)),
            subpath_start: Some((x, y)),
            ..self
        }
    }

    /// The context after `command` has taken the current path on to `(x, y)`.
    pub open spec fn extended(self, command: Seq<char>, x: Scalar, y: Scalar) -> SvgView {
        SvgView { path: joined(self.path, command), current_point: Some((x, y)), ..self }
    }

    /// The context with a current point: where it has none, a subpath is
    /// begun at the origin.
    pub open spec fn ensured(self) -> SvgView {
        if self.current_point is None {
            self.started(
                move_text(Scalar { nanos: 0 }, Scalar { nanos: 0 }),
                Scalar { nanos: 0 },
                Scalar { nanos: 0 },
            )
        } else {
            self
        }
    }

    /// The context with an empty current path.
    pub open spec fn emptied(self) -> SvgView {
        SvgView { path: Seq::empty(), current_point: None, subpath_start: None, ..self }
    }

    /// The context after `save`.
    pub open spec fn saved(self) -> SvgView {
        SvgView { stack: self.stack.push(self.state), ..self }
    }

    /// The context after `restore`: with no saved state, the same context.
    pub open spec fn restored(self) -> SvgView {
        if self.stack.len() == 0 {
            self
        } else {
            SvgView { state: self.stack.last(), stack: self.stack.drop_last(), ..self }
        }
    }

    /// The context after its transform has been composed with `m`.
    pub open spec fn transformed(self, m: Transform) -> SvgView {
        self.with_state(
            SnapshotView { transform: self.state.transform.spec_compose(m), ..self.state },
        )
    }

    /// The context after `close_path`: without a subpath, the same context.
    pub open spec fn closed(self) -> SvgView {
        match self.subpath_start {
            Some(start) => SvgView {
                path: joined(self.path, "Z"@),
                current_point: Some(start),
                ..self
            },
            None => self,
        }
    }

    /// The context after an element without content has been written.
    pub open spec fn with_empty(self, name: Seq<char>, attributes: Seq<XmlAttributeView>) -> SvgView {
        self.with_document(self.document.empty(name, attributes))
    }

    /// The context after the arcs of `run` that turn through `remaining`
    /// billionths of a radian: half a turn at a time for as long as more
    /// than half a turn remains, each to the point opposite the one before
    /// it, and then the rest, to the point where the arc ends. `flipped`
    /// says whether the path stands opposite the point where the arc starts.
    pub open spec fn arc_steps(self, run: ArcRun, remaining: int, flipped: bool) -> SvgView
        decreases magnitude(remaining),
    {
        if remaining == 0 {
            self
        } else if magnitude(remaining) > HALF_TURN_NANOS {
            let to = if flipped {
                run.from
            } else {
                run.opposite
            };
            self.extended(
                arc_text(run.radius_x, run.radius_y, run.turn, true, remaining > 0, to.0, to.1),
                to.0,
                to.1,
            ).arc_steps(
                run,
                remaining - signed(remaining < 0, HALF_TURN_NANOS as int),
                !flipped,
            )
        } else {
            self.extended(
                arc_text(
                    run.radius_x,
                    run.radius_y,
                    run.turn,
                    magnitude(remaining) >= HALF_TURN_NANOS - 1,
                    remaining > 0,
                    run.to.0,
                    run.to.1,
                ),
                run.to.0,
                run.to.1,
            )
        }
    }

    /// The context after the arc `run` from the angle `start` to the angle
    /// `end`: the path, begun at the origin where it has not begun, is
    /// brought to where the arc starts by a straight line, unless it is
    /// there, and goes along the arc to where it ends.
    pub open spec fn along(self, run: ArcRun, start: Angle, end: Angle, ccw: bool) -> SvgView {
        let base = self.ensured();
        let at = base.current_point.unwrap();
        let lined = if spec_is_apart(at.0, at.1, run.from.0, run.from.1) {
            base.extended(line_text(run.from.0, run.from.1), run.from.0, run.from.1)
        } else {
            base
        };
        lined.arc_steps(run, spec_arc_delta(start, end, ccw), false)
    }

    /// The context after `arc`: the arc of the circle about `(x, y)` from
    /// `start_angle` to `end_angle`. The radius is written as it is given.
    pub open spec fn arced(
        self,
        x: Scalar,
        y: Scalar,
        radius: Scalar,
        start_angle: Angle,
        end_angle: Angle,
        ccw: bool,
    ) -> SvgView {
        self.along(spec_circle_run(x, y, radius, start_angle, end_angle), start_angle, end_angle, ccw)
    }

    /// The context after `ellipse`: the arc of the ellipse about `(x, y)`,
    /// turned by `rotation`, from `start_angle` to `end_angle`.
    pub open spec fn ellipsed(
        self,
        x: Scalar,
        y: Scalar,
        radius_x: Scalar,
        radius_y: Scalar,
        rotation: Angle,
        start_angle: Angle,
        end_angle: Angle,
        ccw: bool,
    ) -> SvgView {
        self.along(
            spec_ellipse_run(x, y, radius_x, radius_y, rotation, start_angle, end_angle),
            start_angle,
            end_angle,
            ccw,
        )
    }

    /// The context after `arc_to`: the corner at `(x1, y1)` between the
    /// current point and `(x2, y2)`. Where the corner stays, the straight
    /// line to it is added; where it is rounded, the straight line to where
    /// the circle touches the first edge, and one arc, the shorter one, to
    /// where it touches the second.
    pub open spec fn rounded(
        self,
        x1: Scalar,
        y1: Scalar,
        x2: Scalar,
        y2: Scalar,
        radius: Scalar,
    ) -> SvgView {
        let base = self.ensured();
        let from = base.current_point.unwrap();
        match spec_tangent_join(from.0, from.1, x1, y1, x2, y2, radius) {
            TangentJoin::Line { x, y } => base.extended(line_text(x, y), x, y),
            TangentJoin::Round { start_x, start_y, end_x, end_y, radius, ccw, .. } => base.extended(
                line_text(start_x, start_y),
                start_x,
                start_y,
            ).extended(
                arc_text(radius, radius, Scalar { nanos: 0 }, false, !ccw, end_x, end_y),
                end_x,
                end_y,
            ),
        }
    }
}

impl SvgCanvas {
    fn push_path(&mut self, command: &str)
        ensures
            final(self)@ == (SvgView { path: joined(old(self)@.path, command@), ..old(self)@ }),
    {
        if !self.current_path.as_str().is_empty() {
            self.current_path.append(" ");
        }
        self.current_path.append(command);
    }

    fn extend_path(&mut self, command: &str, x: Scalar, y: Scalar)
        ensures
            final(self)@ == old(self)@.extended(command@, x, y),
    {
        self.push_path(command);
        self.current_point = Some((x, y));
    }

    fn start_path(&mut self, command: &str, x: Scalar, y: Scalar)
        ensures
            final(self)@ == old(self)@.started(command@, x, y),
    {
        self.push_path(command);
        self.subpath_start = Some((x, y));
        self.current_point = Some((x, y));
    }

    fn ensure_subpath(&mut self)
        ensures
            final(self)@ == old(self)@.ensured(),
            final(self)@.current_point is Some,
    {
        if self.current_point.is_none() {
            let zero = Scalar::zero();
            let command = two_point_text("M ", zero, zero);
            self.start_path(command.as_str(), zero, zero);
        }
    }

    fn clear_path(&mut self)
        ensures
            final(self)@ == old(self)@.emptied(),
    {
        self.current_path = String::new();
        self.current_point = None;
        self.subpath_start = None;
    }

    fn multiply_transform(&mut self, m: Transform)
        ensures
            final(self)@ == old(self)@.transformed(m),
    {
        self.state.transform = self.state.transform.compose(m);
    }

    fn write_empty(&mut self, name: &str, attributes: &Vec<XmlAttribute>)
        ensures
            final(self)@ == old(self)@.with_empty(name@, attributes_view(attributes@)),
    {
        xml_write_empty(&mut self.writer, name, attributes);
    }

    /// Adds the arcs of `run` that turn through `delta` billionths of a radian.
    fn append_arc_segments(&mut self, run: ArcRun, delta: i64)
        ensures
            final(self)@ == old(self)@.arc_steps(run, delta as int, false),
    {
        let mut remaining: i64 = delta;
        let mut flipped: bool = false;
        while remaining > HALF_TURN_NANOS || remaining < -HALF_TURN_NANOS
            invariant
                self@.arc_steps(run, remaining as int, flipped) == old(self)@.arc_steps(
                    run,
                    delta as int,
                    false,
                ),
            decreases magnitude(remaining as int),
        {
            let to = if flipped {
                run.from
            } else {
                run.opposite
            };
            let command = arc_command(
                run.radius_x,
                run.radius_y,
                run.turn,
                true,
                remaining > 0,
                to.0,
                to.1,
            );
            self.extend_path(command.as_str(), to.0, to.1);
            if remaining > 0 {
                remaining = remaining - HALF_TURN_NANOS;
            } else {
                remaining = remaining + HALF_TURN_NANOS;
            }
            flipped = !flipped;
        }
        if remaining != 0 {
            let large = remaining >= HALF_TURN_NANOS - 1 || remaining <= 1 - HALF_TURN_NANOS;
            let command = arc_command(
                run.radius_x,
                run.radius_y,
                run.turn,
                large,
                remaining > 0,
                run.to.0,
                run.to.1,
            );
            self.extend_path(command.as_str(), run.to.0, run.to.1);
        }
    }

    /// Adds the arc `run` from the angle `start` to the angle `end`.
    fn append_arc(&mut self, run: ArcRun, start: Angle, end: Angle, ccw: bool)
        ensures
            final(self)@ == old(self)@.along(run, start, end, ccw),
    {
        self.ensure_subpath();
        let at = match self.current_point {
            Some(point) => point,
            None => (Scalar::zero(), Scalar::zero()),
        };
        if at.0.sub(run.from.0).abs().nanos > 1 || at.1.sub(run.from.1).abs().nanos > 1 {
            let command = two_point_text("L ", run.from.0, run.from.1);
            self.extend_path(command.as_str(), run.from.0, run.from.1);
        }
        let delta = arc_delta(start, end, ccw);
        self.append_arc_segments(run, delta);
    }
}

/// The angle half a turn away from `angle`, as far as its cosine and sine go.
fn opposite(angle: Angle) -> (r: Angle)
    ensures
        r == spec_opposite(angle),
{
    Angle { radians: angle.radians, cos: angle.cos.neg(), sin: angle.sin.neg() }
}

/// An angle in degrees.
fn degrees(angle: Angle) -> (r: Scalar)
    ensures
        r == spec_degrees(angle),
{
    angle.radians.mul(Scalar::from_int(180)).div(Scalar::from_nanos(HALF_TURN_NANOS))
}

/// The path data `letter x y`.
fn two_point_text(letter: &str, x: Scalar, y: Scalar) -> (text: String)
    ensures
        text@ == letter@ + x.spec_text() + " "@ + y.spec_text(),
{
    let mut text = String::from_str(letter);
    x.append_text(&mut text);
    text.append(" ");
    y.append_text(&mut text);
    assert(text@ =~= letter@ + x.spec_text() + " "@ + y.spec_text());
    text
}

/// The path data of an arc of an ellipse.
fn arc_command(
    radius_x: Scalar,
    radius_y: Scalar,
    turn: Scalar,
    large: bool,
    sweep: bool,
    x: Scalar,
    y: Scalar,
) -> (text: String)
    ensures
        text@ == arc_text(radius_x, radius_y, turn, large, sweep, x, y),
{
    let mut text = String::from_str("A ");
    radius_x.append_text(&mut text);
    text.append(" ");
    radius_y.append_text(&mut text);
    text.append(" ");
    turn.append_text(&mut text);
    text.append(" ");
    text.append(if large { "1" } else { "0" });
    text.append(" ");
    text.append(if sweep { "1" } else { "0" });
    text.append(" ");
    x.append_text(&mut text);
    text.append(" ");
    y.append_text(&mut text);
    assert(text@ =~= arc_text(radius_x, radius_y, turn, large, sweep, x, y));
    text
}

/// The angle that an arc from `start` to `end` turns through.
fn arc_delta(start: Angle, end: Angle, ccw: bool) -> (delta: i64)
    ensures
        delta == spec_arc_delta(start, end, ccw),
{
    let difference: i64 = end.radians.sub(start.radians).nanos;
    if !ccw && difference < 0 {
        let back: u64 = (-(difference as i128)) as u64;
        let rest: u64 = back % (FULL_TURN_NANOS as u64);
        assert((difference as int) % (FULL_TURN_NANOS as int) == if rest == 0 {
            0int
        } else {
            FULL_TURN_NANOS - rest
        }) by (nonlinear_arith)
            requires
                difference < 0,
                back == -(difference as int),
                rest == back % (FULL_TURN_NANOS as u64),
                FULL_TURN_NANOS == 6_283_185_307,
        ;
        if rest == 0 {
            0
        } else {
            FULL_TURN_NANOS - (rest as i64)
        }
    } else if ccw && difference > 0 {
        let rest: u64 = (difference as u64) % (FULL_TURN_NANOS as u64);
        assert((-(difference as int)) % (FULL_TURN_NANOS as int) == if rest == 0 {
            0int
        } else {
            FULL_TURN_NANOS - rest
        }) by (nonlinear_arith)
            requires
                difference > 0,
                rest == (difference as int) % (FULL_TURN_NANOS as int),
                FULL_TURN_NANOS == 6_283_185_307,
        ;
        if rest == 0 {
            0
        } else {
            (rest as i64) - FULL_TURN_NANOS
        }
    } else {
        difference
    }
}

impl CanvasState for SvgCanvas {
    fn save(&mut self) -> (r: Result<(), LignumError>)
        ensures
            r is Ok,
            final(self)@ == old(self)@.saved(),
    {
        let state = self.state.clone();
        self.stack.push(state);
        assert(states_view(self.stack@) =~= states_view(old(self).stack@).push(state@));
        Ok(())
    }

    fn restore(&mut self) -> (r: Result<(), LignumError>)
        ensures
            r is Ok,
            final(self)@ == old(self)@.restored(),
    {
        if let Some(state) = self.stack.pop() {
            self.state = state;
            assert(states_view(self.stack@) =~= states_view(old(self).stack@).drop_last());
        }
        Ok(())
    }

    fn reset(&mut self) -> (r: Result<(), LignumError>)
        ensures
            r is Ok,
            final(self)@ == old(self)@.with_state(SnapshotView::initial()).emptied(),
    {
        self.state = Snapshot::default();
        self.clear_path();
        Ok(())
    }

    fn set_global_alpha(&mut self, value: Scalar) -> (r: Result<(), LignumError>)
        ensures
            r is Ok,
            final(self)@ == old(self)@.with_state(
                SnapshotView { global_alpha: value, ..old(self)@.state },
            ),
    {
        self.state.global_alpha = value;
        Ok(())
    }

    fn global_alpha(&self) -> (r: Result<Scalar, LignumError>)
        ensures
            r == Ok::<Scalar, LignumError>(self@.state.global_alpha),
    {
        Ok(self.state.global_alpha)
    }

    fn set_global_composite_operation(&mut self, op: CompositeOperation) -> (r: Result<(), LignumError>)
        ensures
            r is Ok,
            final(self)@ == old(self)@.with_state(
                SnapshotView { composite: op, ..old(self)@.state },
            ),
    {
        self.state.composite = op;
        Ok(())
    }

    fn global_composite_operation(&self) -> (r: Result<CompositeOperation, LignumError>)
        ensures
            r == Ok::<CompositeOperation, LignumError>(self@.state.composite),
    {
        Ok(self.state.composite)
    }

    fn set_image_smoothing_enabled(&mut self, enabled: bool) -> (r: Result<(), LignumError>)
        ensures
            r is Ok,
            final(self)@ == old(self)@.with_state(
                SnapshotView { image_smoothing_enabled: enabled, ..old(self)@.state },
            ),
    {
        self.state.image_smoothing_enabled = enabled;
        Ok(())
    }

    fn image_smoothing_enabled(&self) -> (r: Result<bool, LignumError>)
        ensures
            r == Ok::<bool, LignumError>(self@.state.image_smoothing_enabled),
    {
        Ok(self.state.image_smoothing_enabled)
    }

    fn set_image_smoothing_quality(&mut self, quality: ImageSmoothingQuality) -> (r: Result<(), LignumError>)
        ensures
            r is Ok,
            final(self)@ == old(self)@.with_state(
                SnapshotView { image_smoothing_quality: quality, ..old(self)@.state },
            ),
    {
        self.state.image_smoothing_quality = quality;
        Ok(())
    }

    fn image_smoothing_quality(&self) -> (r: Result<ImageSmoothingQuality, LignumError>)
        ensures
            r == Ok::<ImageSmoothingQuality, LignumError>(self@.state.image_smoothing_quality),
    {
        Ok(self.state.image_smoothing_quality)
    }
}

impl CanvasTransforms for SvgCanvas {
    fn scale(&mut self, x: Scalar, y: Scalar) -> (r: Result<(), LignumError>)
        ensures
            r is Ok,
            final(self)@ == old(self)@.transformed(Transform::spec_scaling(x, y)),
    {
        self.multiply_transform(Transform::scaling(x, y));
        Ok(())
    }

    fn rotate(&mut self, angle: Angle) -> (r: Result<(), LignumError>)
        ensures
            r is Ok,
            final(self)@ == old(self)@.transformed(Transform::spec_rotation(angle)),
    {
        self.multiply_transform(Transform::rotation(angle));
        Ok(())
    }

    fn translate(&mut self, x: Scalar, y: Scalar) -> (r: Result<(), LignumError>)
        ensures
            r is Ok,
            final(self)@ == old(self)@.transformed(Transform::spec_translation(x, y)),
    {
        self.multiply_transform(Transform::translation(x, y));
        Ok(())
    }

    fn transform(
        &mut self,
        a: Scalar,
        b: Scalar,
        c: Scalar,
        d: Scalar,
        e: Scalar,
        f: Scalar,
    ) -> (r: Result<(), LignumError>)
        ensures
            r is Ok,
            final(self)@ == old(self)@.transformed(Transform { a, b, c, d, e, f }),
    {
        self.multiply_transform(Transform::new(a, b, c, d, e, f));
        Ok(())
    }

    fn set_transform(
        &mut self,
        a: Scalar,
        b: Scalar,
        c: Scalar,
        d: Scalar,
        e: Scalar,
        f: Scalar,
    ) -> (r: Result<(), LignumError>)
        ensures
            r is Ok,
            final(self)@ == old(self)@.with_state(
                SnapshotView { transform: Transform { a, b, c, d, e, f }, ..old(self)@.state },
            ),
    {
        self.state.transform = Transform::new(a, b, c, d, e, f);
        Ok(())
    }

    fn reset_transform(&mut self) -> (r: Result<(), LignumError>)
        ensures
            r is Ok,
            final(self)@ == old(self)@.with_state(
                SnapshotView { transform: Transform::spec_identity(), ..old(self)@.state },
            ),
    {
        self.state.transform = Transform::identity();
        Ok(())
    }
}

impl CanvasCompositing for SvgCanvas {
    fn set_shadow_offset_x(&mut self, value: Scalar) -> (r: Result<(), LignumError>)
        ensures
            r is Ok,
            final(self)@ == old(self)@.with_state(
                SnapshotView { shadow_offset_x: value, ..old(self)@.state },
            ),
    {
        self.state.shadow_offset_x = value;
        Ok(())
    }

    fn shadow_offset_x(&self) -> (r: Result<Scalar, LignumError>)
        ensures
            r == Ok::<Scalar, LignumError>(self@.state.shadow_offset_x),
    {
        Ok(self.state.shadow_offset_x)
    }

    fn set_shadow_offset_y(&mut self, value: Scalar) -> (r: Result<(), LignumError>)
        ensures
            r is Ok,
            final(self)@ == old(self)@.with_state(
                SnapshotView { shadow_offset_y: value, ..old(self)@.state },
            ),
    {
        self.state.shadow_offset_y = value;
        Ok(())
    }

    fn shadow_offset_y(&self) -> (r: Result<Scalar, LignumError>)
        ensures
            r == Ok::<Scalar, LignumError>(self@.state.shadow_offset_y),
    {
        Ok(self.state.shadow_offset_y)
    }

    fn set_shadow_blur(&mut self, value: Scalar) -> (r: Result<(), LignumError>)
        ensures
            r is Ok,
            final(self)@ == old(self)@.with_state(
                SnapshotView { shadow_blur: value, ..old(self)@.state },
            ),
    {
        self.state.shadow_blur = value;
        Ok(())
    }

    fn shadow_blur(&self) -> (r: Result<Scalar, LignumError>)
        ensures
            r == Ok::<Scalar, LignumError>(self@.state.shadow_blur),
    {
        Ok(self.state.shadow_blur)
    }

    fn set_shadow_color(&mut self, value: String) -> (r: Result<(), LignumError>)
        ensures
            r is Ok,
            final(self)@ == old(self)@.with_state(
                SnapshotView { shadow_color: value@, ..old(self)@.state },
            ),
    {
        self.state.shadow_color = value;
        Ok(())
    }

    fn shadow_color(&self) -> (r: Result<String, LignumError>)
        ensures
            r matches Ok(text) && text@ == self@.state.shadow_color,
    {
        Ok(self.state.shadow_color.clone())
    }
}

impl CanvasLineStyles for SvgCanvas {
    fn set_line_width(&mut self, value: Scalar) -> (r: Result<(), LignumError>)
        ensures
            r is Ok,
            final(self)@ == old(self)@.with_state(
                SnapshotView { line_width: value, ..old(self)@.state },
            ),
    {
        self.state.line_width = value;
        Ok(())
    }

    fn line_width(&self) -> (r: Result<Scalar, LignumError>)
        ensures
            r == Ok::<Scalar, LignumError>(self@.state.line_width),
    {
        Ok(self.state.line_width)
    }

    fn set_line_cap(&mut self, value: LineCap) -> (r: Result<(), LignumError>)
        ensures
            r is Ok,
            final(self)@ == old(self)@.with_state(
                SnapshotView { line_cap: value, ..old(self)@.state },
            ),
    {
        self.state.line_cap = value;
        Ok(())
    }

    fn line_cap(&self) -> (r: Result<LineCap, LignumError>)
        ensures
            r == Ok::<LineCap, LignumError>(self@.state.line_cap),
    {
        Ok(self.state.line_cap)
    }

    fn set_line_join(&mut self, value: LineJoin) -> (r: Result<(), LignumError>)
        ensures
            r is Ok,
            final(self)@ == old(self)@.with_state(
                SnapshotView { line_join: value, ..old(self)@.state },
            ),
    {
        self.state.line_join = value;
        Ok(())
    }

    fn line_join(&self) -> (r: Result<LineJoin, LignumError>)
        ensures
            r == Ok::<LineJoin, LignumError>(self@.state.line_join),
    {
        Ok(self.state.line_join)
    }

    fn set_miter_limit(&mut self, value: Scalar) -> (r: Result<(), LignumError>)
        ensures
            r is Ok,
            final(self)@ == old(self)@.with_state(
                SnapshotView { miter_limit: value, ..old(self)@.state },
            ),
    {
        self.state.miter_limit = value;
        Ok(())
    }

    fn miter_limit(&self) -> (r: Result<Scalar, LignumError>)
        ensures
            r == Ok::<Scalar, LignumError>(self@.state.miter_limit),
    {
        Ok(self.state.miter_limit)
    }

    fn set_line_dash(&mut self, segments: Vec<Scalar>) -> (r: Result<(), LignumError>)
        ensures
            r is Ok,
            final(self)@ == old(self)@.with_state(
                SnapshotView { line_dash: segments@, ..old(self)@.state },
            ),
    {
        self.state.line_dash = segments;
        Ok(())
    }

    fn line_dash(&self) -> (r: Result<Vec<Scalar>, LignumError>)
        ensures
            r matches Ok(segments) && segments@ == self@.state.line_dash,
    {
        let segments = self.state.line_dash.clone();
        assert(segments@ =~= self.state.line_dash@);
        Ok(segments)
    }

    fn set_line_dash_offset(&mut self, value: Scalar) -> (r: Result<(), LignumError>)
        ensures
            r is Ok,
            final(self)@ == old(self)@.with_state(
                SnapshotView { line_dash_offset: value, ..old(self)@.state },
            ),
    {
        self.state.line_dash_offset = value;
        Ok(())
    }

    fn line_dash_offset(&self) -> (r: Result<Scalar, LignumError>)
        ensures
            r == Ok::<Scalar, LignumError>(self@.state.line_dash_offset),
    {
        Ok(self.state.line_dash_offset)
    }
}

impl CanvasFillStrokeStyles for SvgCanvas {
    fn set_fill_style(&mut self, style: Paint) -> (r: Result<(), LignumError>)
        ensures
            r is Ok,
            final(self)@ == old(self)@.with_state(
                SnapshotView { fill_style: style@, ..old(self)@.state },
            ),
    {
        self.state.fill_style = style;
        Ok(())
    }

    fn fill_style(&self) -> (r: Result<Paint, LignumError>)
        ensures
            r matches Ok(style) && style@ == self@.state.fill_style,
    {
        Ok(self.state.fill_style.clone())
    }

    fn set_stroke_style(&mut self, style: Paint) -> (r: Result<(), LignumError>)
        ensures
            r is Ok,
            final(self)@ == old(self)@.with_state(
                SnapshotView { stroke_style: style@, ..old(self)@.state },
            ),
    {
        self.state.stroke_style = style;
        Ok(())
    }

    fn stroke_style(&self) -> (r: Result<Paint, LignumError>)
        ensures
            r matches Ok(style) && style@ == self@.state.stroke_style,
    {
        Ok(self.state.stroke_style.clone())
    }

    fn create_linear_gradient(&mut self, x0: Scalar, y0: Scalar, x1: Scalar, y1: Scalar) -> (r:
        Result<CanvasGradient, LignumError>)
        ensures
            final(self)@ == old(self)@,
            r matches Ok(gradient) && gradient@ == (GradientView {
                kind: GradientKind::Linear { x0, y0, x1, y1 },
                stops: Seq::empty(),
            }),
    {
        Ok(CanvasGradient::new(GradientKind::Linear { x0, y0, x1, y1 }))
    }

    fn create_radial_gradient(
        &mut self,
        x0: Scalar,
        y0: Scalar,
        r0: Scalar,
        x1: Scalar,
        y1: Scalar,
        r1: Scalar,
    ) -> (r: Result<CanvasGradient, LignumError>)
        ensures
            final(self)@ == old(self)@,
            r matches Ok(gradient) && gradient@ == (GradientView {
                kind: GradientKind::Radial { x0, y0, r0, x1, y1, r1 },
                stops: Seq::empty(),
            }),
    {
        Ok(CanvasGradient::new(GradientKind::Radial { x0, y0, r0, x1, y1, r1 }))
    }

    fn create_pattern(&mut self, image: &dyn CanvasImageSource, repetition: PatternRepetition) -> (r:
        Result<CanvasPattern, LignumError>)
        ensures
            final(self)@ == old(self)@,
            r == Ok::<CanvasPattern, LignumError>(CanvasPattern { repetition, transform: None }),
    {
        Ok(CanvasPattern { repetition, transform: None })
    }
}

/// The value of the attribute `fill-rule`.
pub open spec fn fill_rule_text(rule: FillRule) -> Seq<char> {
    match rule {
        FillRule::NonZero => "nonzero"@,
        FillRule::EvenOdd => "evenodd"@,
    }
}

/// The value of the attribute `stroke-linecap`.
pub open spec fn line_cap_text(cap: LineCap) -> Seq<char> {
    match cap {
        LineCap::Butt => "butt"@,
        LineCap::Round => "round"@,
        LineCap::Square => "square"@,
    }
}

/// The value of the attribute `stroke-linejoin`.
pub open spec fn line_join_text(join: LineJoin) -> Seq<char> {
    match join {
        LineJoin::Round => "round"@,
        LineJoin::Bevel => "bevel"@,
        LineJoin::Miter => "miter"@,
    }
}

/// The value of the attribute `text-anchor`.
pub open spec fn text_anchor_text(align: TextAlign) -> Seq<char> {
    match align {
        TextAlign::Left => "start"@,
        TextAlign::Start => "start"@,
        TextAlign::Center => "middle"@,
        TextAlign::Right => "end"@,
        TextAlign::End => "end"@,
    }
}

/// The value of the attribute `dominant-baseline`.
pub open spec fn baseline_text(baseline: TextBaseline) -> Seq<char> {
    match baseline {
        TextBaseline::Top => "text-before-edge"@,
        TextBaseline::Hanging => "hanging"@,
        TextBaseline::Middle => "middle"@,
        TextBaseline::Alphabetic => "alphabetic"@,
        TextBaseline::Ideographic => "ideographic"@,
        TextBaseline::Bottom => "text-after-edge"@,
    }
}

/// The lengths of dashes and gaps, a space between each two.
pub open spec fn dash_text(dashes: Seq<Scalar>) -> Seq<char>
    decreases dashes.len(),
{
    if dashes.len() == 0 {
        Seq::empty()
    } else if dashes.len() == 1 {
        dashes[0].spec_text()
    } else {
        dash_text(dashes.drop_last()) + " "@ + dashes.last().spec_text()
    }
}

/// The attributes that carry the dashes, where there are any, and the
/// offset into them, where it is not zero.
pub open spec fn dash_attributes(dashes: Seq<Scalar>, offset: Scalar) -> Seq<XmlAttributeView> {
    (if dashes.len() > 0 {
        seq![attribute("stroke-dasharray"@, dash_text(dashes))]
    } else {
        Seq::empty()
    }) + (if offset.nanos != 0 {
        seq![attribute("stroke-dashoffset"@, offset.spec_text())]
    } else {
        Seq::empty()
    })
}

/// The attributes of a filled rectangle.
pub open spec fn fill_rect_attributes(
    x: Scalar,
    y: Scalar,
    w: Scalar,
    h: Scalar,
    fill: Seq<char>,
    state: SnapshotView,
) -> Seq<XmlAttributeView> {
    seq![
        attribute("x"@, x.spec_text()),
        attribute("y"@, y.spec_text()),
        attribute("width"@, w.spec_text()),
        attribute("height"@, h.spec_text()),
        attribute("fill"@, fill),
    ] + opacity_attributes(state.global_alpha) + transform_attributes(state.transform)
}

/// The attributes of a stroked rectangle.
pub open spec fn stroke_rect_attributes(
    x: Scalar,
    y: Scalar,
    w: Scalar,
    h: Scalar,
    stroke: Seq<char>,
    state: SnapshotView,
) -> Seq<XmlAttributeView> {
    seq![
        attribute("x"@, x.spec_text()),
        attribute("y"@, y.spec_text()),
        attribute("width"@, w.spec_text()),
        attribute("height"@, h.spec_text()),
        attribute("fill"@, "none"@),
        attribute("stroke"@, stroke),
        attribute("stroke-width"@, state.line_width.spec_text()),
    ] + transform_attributes(state.transform)
}

/// The attributes of a filled path.
pub open spec fn fill_path_attributes(
    path: Seq<char>,
    fill: Seq<char>,
    rule: FillRule,
    state: SnapshotView,
) -> Seq<XmlAttributeView> {
    seq![
        attribute("d"@, path),
        attribute("fill"@, fill),
        attribute("stroke"@, "none"@),
        attribute("fill-rule"@, fill_rule_text(rule)),
    ] + opacity_attributes(state.global_alpha) + transform_attributes(state.transform)
}

/// The attributes of a stroked path.
pub open spec fn stroke_path_attributes(path: Seq<char>, stroke: Seq<char>, state: SnapshotView) -> Seq<XmlAttributeView> {
    seq![
        attribute("d"@, path),
        attribute("fill"@, "none"@),
        attribute("stroke"@, stroke),
        attribute("stroke-width"@, state.line_width.spec_text()),
        attribute("stroke-linecap"@, line_cap_text(state.line_cap)),
        attribute("stroke-linejoin"@, line_join_text(state.line_join)),
    ] + opacity_attributes(state.global_alpha) + dash_attributes(
        state.line_dash,
        state.line_dash_offset,
    ) + transform_attributes(state.transform)
}

/// The attributes of a text.
pub open spec fn text_attributes(x: Scalar, y: Scalar, fill: Seq<char>, state: SnapshotView) -> Seq<XmlAttributeView> {
    seq![
        attribute("x"@, x.spec_text()),
        attribute("y"@, y.spec_text()),
        attribute("fill"@, fill),
        attribute("font"@, state.font),
        attribute("text-anchor"@, text_anchor_text(state.text_align)),
        attribute("dominant-baseline"@, baseline_text(state.text_baseline)),
    ] + transform_attributes(state.transform)
}

/// The attributes of an image in its own size.
pub open spec fn image_attributes(
    dx: Scalar,
    dy: Scalar,
    width: u32,
    height: u32,
    href: Seq<char>,
    state: SnapshotView,
) -> Seq<XmlAttributeView> {
    seq![
        attribute("x"@, dx.spec_text()),
        attribute("y"@, dy.spec_text()),
        attribute("width"@, decimal(width as nat)),
        attribute("height"@, decimal(height as nat)),
        attribute("href"@, href),
    ] + transform_attributes(state.transform)
}

/// The attributes of an image that is scaled to `dw` by `dh`.
pub open spec fn scaled_image_attributes(
    dx: Scalar,
    dy: Scalar,
    dw: Scalar,
    dh: Scalar,
    href: Seq<char>,
    state: SnapshotView,
) -> Seq<XmlAttributeView> {
    seq![
        attribute("x"@, dx.spec_text()),
        attribute("y"@, dy.spec_text()),
        attribute("width"@, dw.spec_text()),
        attribute("height"@, dh.spec_text()),
        attribute("href"@, href),
        attribute("preserveAspectRatio"@, "none"@),
    ] + transform_attributes(state.transform)
}

impl SvgView {
    /// Whether `fill` can go through: an empty path asks for nothing.
    pub open spec fn can_fill(self) -> bool {
        self.path.len() == 0 || self.can_resolve(self.state.fill_style)
    }

    /// The context after `fill`: with an empty path, the same context; else
    /// the fill paint is resolved, the path is written as an element, and
    /// the current path is empty.
    pub open spec fn filled(self, rule: FillRule) -> SvgView {
        if self.path.len() == 0 {
            self
        } else {
            self.resolved(self.state.fill_style).with_empty(
                "path"@,
                fill_path_attributes(
                    self.path,
                    self.paint_text(self.state.fill_style),
                    rule,
                    self.state,
                ),
            ).emptied()
        }
    }

    /// Whether `stroke` can go through: an empty path asks for nothing.
    pub open spec fn can_stroke(self) -> bool {
        self.path.len() == 0 || self.can_resolve(self.state.stroke_style)
    }

    /// The context after `stroke`: with an empty path, the same context;
    /// else the stroke paint is resolved, the path is written as an element,
    /// and the current path is empty.
    pub open spec fn stroked(self) -> SvgView {
        if self.path.len() == 0 {
            self
        } else {
            self.resolved(self.state.stroke_style).with_empty(
                "path"@,
                stroke_path_attributes(
                    self.path,
                    self.paint_text(self.state.stroke_style),
                    self.state,
                ),
            ).emptied()
        }
    }

    /// The context after an image of `width` by `height` pixels, which are
    /// `data`, has been drawn in its own size; `None` where the image has no
    /// data URI.
    pub open spec fn image_drawn(
        self,
        width: u32,
        height: u32,
        data: Option<Seq<u8>>,
        dx: Scalar,
        dy: Scalar,
    ) -> Option<SvgView> {
        match spec_image_uri(width, height, data) {
            Some(href) => Some(
                self.with_empty(
                    "image"@,
                    image_attributes(dx, dy, width, height, href, self.state),
                ),
            ),
            None => None,
        }
    }

    /// The context after an image of `width` by `height` pixels, which are
    /// `data`, has been drawn scaled to `dw` by `dh`; `None` where the image
    /// has no data URI.
    pub open spec fn image_drawn_scaled(
        self,
        width: u32,
        height: u32,
        data: Option<Seq<u8>>,
        dx: Scalar,
        dy: Scalar,
        dw: Scalar,
        dh: Scalar,
    ) -> Option<SvgView> {
        match spec_image_uri(width, height, data) {
            Some(href) => Some(
                self.with_empty(
                    "image"@,
                    scaled_image_attributes(dx, dy, dw, dh, href, self.state),
                ),
            ),
            None => None,
        }
    }

    /// The context after a text has been written under the fill paint.
    pub open spec fn with_text(self, text: Seq<char>, x: Scalar, y: Scalar) -> SvgView {
        let after = self.resolved(self.state.fill_style);
        after.with_document(
            after.document.opened(
                "text"@,
                text_attributes(x, y, self.paint_text(self.state.fill_style), self.state),
            ).text(text).closed("text"@),
        )
    }
}

fn fill_rule_name(rule: FillRule) -> (name: &'static str)
    ensures
        name@ == fill_rule_text(rule),
{
    match rule {
        FillRule::NonZero => "nonzero",
        FillRule::EvenOdd => "evenodd",
    }
}

fn line_cap_name(cap: LineCap) -> (name: &'static str)
    ensures
        name@ == line_cap_text(cap),
{
    match cap {
        LineCap::Butt => "butt",
        LineCap::Round => "round",
        LineCap::Square => "square",
    }
}

fn line_join_name(join: LineJoin) -> (name: &'static str)
    ensures
        name@ == line_join_text(join),
{
    match join {
        LineJoin::Round => "round",
        LineJoin::Bevel => "bevel",
        LineJoin::Miter => "miter",
    }
}

fn text_anchor_name(align: TextAlign) -> (name: &'static str)
    ensures
        name@ == text_anchor_text(align),
{
    match align {
        TextAlign::Left => "start",
        TextAlign::Start => "start",
        TextAlign::Center => "middle",
        TextAlign::Right => "end",
        TextAlign::End => "end",
    }
}

fn baseline_name(baseline: TextBaseline) -> (name: &'static str)
    ensures
        name@ == baseline_text(baseline),
{
    match baseline {
        TextBaseline::Top => "text-before-edge",
        TextBaseline::Hanging => "hanging",
        TextBaseline::Middle => "middle",
        TextBaseline::Alphabetic => "alphabetic",
        TextBaseline::Ideographic => "ideographic",
        TextBaseline::Bottom => "text-after-edge",
    }
}

/// The lengths of dashes and gaps, a space between each two.
fn dashes_text(dashes: &Vec<Scalar>) -> (text: String)
    ensures
        text@ == dash_text(dashes@),
{
    let mut text = String::new();
    let mut i: usize = 0;
    while i < dashes.len()
        invariant
            i <= dashes.len(),
            text@ == dash_text(dashes@.subrange(0, i as int)),
        decreases dashes.len() - i,
    {
        if i > 0 {
            text.append(" ");
        }
        dashes[i].append_text(&mut text);
        proof {
            let next = dashes@.subrange(0, i + 1);
            assert(next.drop_last() =~= dashes@.subrange(0, i as int));
            assert(next.last() == dashes@[i as int]);
            assert(text@ =~= dash_text(next));
        }
        i += 1;
    }
    assert(dashes@.subrange(0, i as int) =~= dashes@);
    text
}

/// The decimal text of `n`.
fn number_text(n: u32) -> (text: String)
    ensures
        text@ == decimal(n as nat),
{
    let mut text = String::new();
    append_decimal(&mut text, n as u64);
    assert(text@ =~= decimal(n as nat));
    text
}

impl SvgCanvas {
    /// Writes the current path as a filled element and empties it.
    fn flush_path_fill(&mut self, rule: FillRule) -> (r: Result<(), LignumError>)
        ensures
            match r {
                Ok(_) => old(self)@.can_fill() && final(self)@ == old(self)@.filled(rule),
                Err(error) => !old(self)@.can_fill() && final(self)@ == old(self)@
                    && error.is_other(old(self)@.refusal(old(self)@.state.fill_style)),
            },
    {
        if self.current_path.as_str().is_empty() {
            return Ok(());
        }
        let paint = self.state.fill_style.clone();
        let fill = match self.paint_to_str(&paint) {
            Ok(fill) => fill,
            Err(error) => {
                return Err(error);
            },
        };
        let mut attributes = no_attributes();
        push_attribute(&mut attributes, "d", self.current_path.clone());
        push_attribute(&mut attributes, "fill", fill);
        push_attribute(&mut attributes, "stroke", String::from_str("none"));
        push_attribute(&mut attributes, "fill-rule", String::from_str(fill_rule_name(rule)));
        push_opacity(&mut attributes, self.state.global_alpha);
        push_transform(&mut attributes, self.state.transform);
        assert(attributes_view(attributes@) =~= fill_path_attributes(
            old(self)@.path,
            old(self)@.paint_text(old(self)@.state.fill_style),
            rule,
            old(self)@.state,
        ));
        self.write_empty("path", &attributes);
        self.clear_path();
        Ok(())
    }

    /// Writes the current path as a stroked element and empties it.
    fn flush_path_stroke(&mut self) -> (r: Result<(), LignumError>)
        ensures
            match r {
                Ok(_) => old(self)@.can_stroke() && final(self)@ == old(self)@.stroked(),
                Err(error) => !old(self)@.can_stroke() && final(self)@ == old(self)@
                    && error.is_other(old(self)@.refusal(old(self)@.state.stroke_style)),
            },
    {
        if self.current_path.as_str().is_empty() {
            return Ok(());
        }
        let paint = self.state.stroke_style.clone();
        let stroke = match self.paint_to_str(&paint) {
            Ok(stroke) => stroke,
            Err(error) => {
                return Err(error);
            },
        };
        let attributes = stroke_attributes(self.current_path.clone(), stroke, &self.state);
        self.write_empty("path", &attributes);
        self.clear_path();
        Ok(())
    }
}

/// Appends the attributes that carry the dashes and the offset into them.
fn push_dashes(attributes: &mut Vec<XmlAttribute>, dashes: &Vec<Scalar>, offset: Scalar)
    ensures
        attributes_view(final(attributes)@) == attributes_view(old(attributes)@) + dash_attributes(
            dashes@,
            offset,
        ),
{
    if dashes.len() > 0 {
        push_attribute(attributes, "stroke-dasharray", dashes_text(dashes));
    }
    if offset.nanos != 0 {
        push_attribute(attributes, "stroke-dashoffset", offset.to_text());
    }
    assert(attributes_view(attributes@) =~= attributes_view(old(attributes)@) + dash_attributes(
        dashes@,
        offset,
    ));
}

/// The attributes of a stroked path.
fn stroke_attributes(path: String, stroke: String, state: &Snapshot) -> (attributes: Vec<
    XmlAttribute,
>)
    ensures
        attributes_view(attributes@) == stroke_path_attributes(path@, stroke@, state@),
{
    let mut attributes = no_attributes();
    push_attribute(&mut attributes, "d", path);
    push_attribute(&mut attributes, "fill", String::from_str("none"));
    push_attribute(&mut attributes, "stroke", stroke);
    push_attribute(&mut attributes, "stroke-width", state.line_width.to_text());
    push_attribute(
        &mut attributes,
        "stroke-linecap",
        String::from_str(line_cap_name(state.line_cap)),
    );
    push_attribute(
        &mut attributes,
        "stroke-linejoin",
        String::from_str(line_join_name(state.line_join)),
    );
    let ghost head = attributes_view(attributes@);
    assert(head =~= seq![
        attribute("d"@, path@),
        attribute("fill"@, "none"@),
        attribute("stroke"@, stroke@),
        attribute("stroke-width"@, state@.line_width.spec_text()),
        attribute("stroke-linecap"@, line_cap_text(state@.line_cap)),
        attribute("stroke-linejoin"@, line_join_text(state@.line_join)),
    ]);
    push_opacity(&mut attributes, state.global_alpha);
    push_dashes(&mut attributes, &state.line_dash, state.line_dash_offset);
    push_transform(&mut attributes, state.transform);
    assert(attributes_view(attributes@) =~= head + opacity_attributes(state@.global_alpha)
        + dash_attributes(state@.line_dash, state@.line_dash_offset) + transform_attributes(
        state@.transform,
    ));
    attributes
}

impl CanvasRectangles for SvgCanvas {
    fn clear_rect(&mut self, x: Scalar, y: Scalar, w: Scalar, h: Scalar) -> (r: Result<
        (),
        LignumError,
    >)
        ensures
            r is Ok,
            final(self)@ == old(self)@,
    {
        Ok(())
    }

    fn fill_rect(&mut self, x: Scalar, y: Scalar, w: Scalar, h: Scalar) -> (r: Result<
        (),
        LignumError,
    >)
        ensures
            match r {
                Ok(_) => old(self)@.can_resolve(old(self)@.state.fill_style) && final(self)@ == old(
                    self,
                )@.resolved(old(self)@.state.fill_style).with_empty(
                    "rect"@,
                    fill_rect_attributes(
                        x,
                        y,
                        w,
                        h,
                        old(self)@.paint_text(old(self)@.state.fill_style),
                        old(self)@.state,
                    ),
                ),
                Err(error) => !old(self)@.can_resolve(old(self)@.state.fill_style) && final(self)@
                    == old(self)@ && error.is_other(
                    old(self)@.refusal(old(self)@.state.fill_style),
                ),
            },
    {
        let paint = self.state.fill_style.clone();
        let fill = match self.paint_to_str(&paint) {
            Ok(fill) => fill,
            Err(error) => {
                return Err(error);
            },
        };
        let mut attributes = no_attributes();
        push_attribute(&mut attributes, "x", x.to_text());
        push_attribute(&mut attributes, "y", y.to_text());
        push_attribute(&mut attributes, "width", w.to_text());
        push_attribute(&mut attributes, "height", h.to_text());
        push_attribute(&mut attributes, "fill", fill);
        push_opacity(&mut attributes, self.state.global_alpha);
        push_transform(&mut attributes, self.state.transform);
        assert(attributes_view(attributes@) =~= fill_rect_attributes(
            x,
            y,
            w,
            h,
            old(self)@.paint_text(old(self)@.state.fill_style),
            old(self)@.state,
        ));
        self.write_empty("rect", &attributes);
        Ok(())
    }

    fn stroke_rect(&mut self, x: Scalar, y: Scalar, w: Scalar, h: Scalar) -> (r: Result<
        (),
        LignumError,
    >)
        ensures
            match r {
                Ok(_) => old(self)@.can_resolve(old(self)@.state.stroke_style) && final(self)@
                    == old(self)@.resolved(old(self)@.state.stroke_style).with_empty(
                    "rect"@,
                    stroke_rect_attributes(
                        x,
                        y,
                        w,
                        h,
                        old(self)@.paint_text(old(self)@.state.stroke_style),
                        old(self)@.state,
                    ),
                ),
                Err(error) => !old(self)@.can_resolve(old(self)@.state.stroke_style)
                    && final(self)@ == old(self)@ && error.is_other(
                    old(self)@.refusal(old(self)@.state.stroke_style),
                ),
            },
    {
        let paint = self.state.stroke_style.clone();
        let stroke = match self.paint_to_str(&paint) {
            Ok(stroke) => stroke,
            Err(error) => {
                return Err(error);
            },
        };
        let mut attributes = no_attributes();
        push_attribute(&mut attributes, "x", x.to_text());
        push_attribute(&mut attributes, "y", y.to_text());
        push_attribute(&mut attributes, "width", w.to_text());
        push_attribute(&mut attributes, "height", h.to_text());
        push_attribute(&mut attributes, "fill", String::from_str("none"));
        push_attribute(&mut attributes, "stroke", stroke);
        push_attribute(&mut attributes, "stroke-width", self.state.line_width.to_text());
        push_transform(&mut attributes, self.state.transform);
        assert(attributes_view(attributes@) =~= stroke_rect_attributes(
            x,
            y,
            w,
            h,
            old(self)@.paint_text(old(self)@.state.stroke_style),
            old(self)@.state,
        ));
        self.write_empty("rect", &attributes);
        Ok(())
    }
}

impl CanvasPaths for SvgCanvas {
    fn begin_path(&mut self) -> (r: Result<(), LignumError>)
        ensures
            r is Ok,
            final(self)@ == old(self)@.emptied(),
    {
        self.clear_path();
        Ok(())
    }

    fn close_path(&mut self) -> (r: Result<(), LignumError>)
        ensures
            r is Ok,
            final(self)@ == old(self)@.closed(),
    {
        if let Some(start) = self.subpath_start {
            self.extend_path("Z", start.0, start.1);
        }
        Ok(())
    }

    fn move_to(&mut self, x: Scalar, y: Scalar) -> (r: Result<(), LignumError>)
        ensures
            r is Ok,
            final(self)@ == old(self)@.started(move_text(x, y), x, y),
    {
        let command = two_point_text("M ", x, y);
        self.start_path(command.as_str(), x, y);
        Ok(())
    }

    fn line_to(&mut self, x: Scalar, y: Scalar) -> (r: Result<(), LignumError>)
        ensures
            r is Ok,
            final(self)@ == old(self)@.ensured().extended(line_text(x, y), x, y),
    {
        self.ensure_subpath();
        let command = two_point_text("L ", x, y);
        self.extend_path(command.as_str(), x, y);
        Ok(())
    }

    fn bezier_curve_to(
        &mut self,
        cp1x: Scalar,
        cp1y: Scalar,
        cp2x: Scalar,
        cp2y: Scalar,
        x: Scalar,
        y: Scalar,
    ) -> (r: Result<(), LignumError>)
        ensures
            r is Ok,
            final(self)@ == old(self)@.ensured().extended(
                cubic_text(cp1x, cp1y, cp2x, cp2y, x, y),
                x,
                y,
            ),
    {
        self.ensure_subpath();
        let mut command = two_point_text("C ", cp1x, cp1y);
        command.append(", ");
        cp2x.append_text(&mut command);
        command.append(" ");
        cp2y.append_text(&mut command);
        command.append(", ");
        x.append_text(&mut command);
        command.append(" ");
        y.append_text(&mut command);
        assert(command@ =~= cubic_text(cp1x, cp1y, cp2x, cp2y, x, y));
        self.extend_path(command.as_str(), x, y);
        Ok(())
    }

    fn quadratic_curve_to(&mut self, cpx: Scalar, cpy: Scalar, x: Scalar, y: Scalar) -> (r: Result<
        (),
        LignumError,
    >)
        ensures
            r is Ok,
            final(self)@ == old(self)@.ensured().extended(quadratic_text(cpx, cpy, x, y), x, y),
    {
        self.ensure_subpath();
        let mut command = two_point_text("Q ", cpx, cpy);
        command.append(", ");
        x.append_text(&mut command);
        command.append(" ");
        y.append_text(&mut command);
        assert(command@ =~= quadratic_text(cpx, cpy, x, y));
        self.extend_path(command.as_str(), x, y);
        Ok(())
    }

    fn arc(
        &mut self,
        x: Scalar,
        y: Scalar,
        radius: Scalar,
        start_angle: Angle,
        end_angle: Angle,
        ccw: bool,
    ) -> (r: Result<(), LignumError>)
        ensures
            r is Ok,
            final(self)@ == old(self)@.arced(x, y, radius, start_angle, end_angle, ccw),
    {
        let run = ArcRun {
            radius_x: radius,
            radius_y: radius,
            turn: Scalar::zero(),
            from: arc_point(x, y, radius, start_angle),
            opposite: arc_point(x, y, radius, opposite(start_angle)),
            to: arc_point(x, y, radius, end_angle),
        };
        self.append_arc(run, start_angle, end_angle, ccw);
        Ok(())
    }

    fn arc_to(&mut self, x1: Scalar, y1: Scalar, x2: Scalar, y2: Scalar, radius: Scalar) -> (r:
        Result<(), LignumError>)
        ensures
            r is Ok,
            final(self)@ == old(self)@.rounded(x1, y1, x2, y2, radius),
    {
        self.ensure_subpath();
        let from = match self.current_point {
            Some(point) => point,
            None => (Scalar::zero(), Scalar::zero()),
        };
        match tangent_join(from.0, from.1, x1, y1, x2, y2, radius) {
            TangentJoin::Line { x, y } => {
                let command = two_point_text("L ", x, y);
                self.extend_path(command.as_str(), x, y);
            },
            TangentJoin::Round { start_x, start_y, end_x, end_y, radius, ccw, .. } => {
                let line = two_point_text("L ", start_x, start_y);
                self.extend_path(line.as_str(), start_x, start_y);
                let arc = arc_command(radius, radius, Scalar::zero(), false, !ccw, end_x, end_y);
                self.extend_path(arc.as_str(), end_x, end_y);
            },
        }
        Ok(())
    }

    fn ellipse(
        &mut self,
        x: Scalar,
        y: Scalar,
        radius_x: Scalar,
        radius_y: Scalar,
        rotation: Angle,
        start_angle: Angle,
        end_angle: Angle,
        ccw: bool,
    ) -> (r: Result<(), LignumError>)
        ensures
            r is Ok,
            final(self)@ == old(self)@.ellipsed(
                x,
                y,
                radius_x,
                radius_y,
                rotation,
                start_angle,
                end_angle,
                ccw,
            ),
    {
        let run = ArcRun {
            radius_x,
            radius_y,
            turn: degrees(rotation),
            from: ellipse_point(x, y, radius_x, radius_y, rotation, start_angle),
            opposite: ellipse_point(x, y, radius_x, radius_y, rotation, opposite(start_angle)),
            to: ellipse_point(x, y, radius_x, radius_y, rotation, end_angle),
        };
        self.append_arc(run, start_angle, end_angle, ccw);
        Ok(())
    }

    fn rect(&mut self, x: Scalar, y: Scalar, w: Scalar, h: Scalar) -> (r: Result<(), LignumError>)
        ensures
            r is Ok,
            final(self)@ == old(self)@.started(rect_text(x, y, w, h), x, y),
    {
        let mut command = two_point_text("M ", x, y);
        command.append(" h ");
        w.append_text(&mut command);
        command.append(" v ");
        h.append_text(&mut command);
        command.append(" h ");
        w.neg().append_text(&mut command);
        command.append(" Z");
        assert(command@ =~= rect_text(x, y, w, h));
        self.start_path(command.as_str(), x, y);
        Ok(())
    }

    fn round_rect(&mut self, x: Scalar, y: Scalar, w: Scalar, h: Scalar, radii: &[Scalar]) -> (r:
        Result<(), LignumError>)
        ensures
            final(self)@ == old(self)@,
            r matches Err(error) && error.is_other(spec_not_supported("round_rect"@)),
    {
        Err(not_supported("round_rect"))
    }

    fn fill(&mut self, fill_rule: FillRule) -> (r: Result<(), LignumError>)
        ensures
            match r {
                Ok(_) => old(self)@.can_fill() && final(self)@ == old(self)@.filled(fill_rule),
                Err(error) => !old(self)@.can_fill() && final(self)@ == old(self)@
                    && error.is_other(old(self)@.refusal(old(self)@.state.fill_style)),
            },
    {
        self.flush_path_fill(fill_rule)
    }

    fn stroke(&mut self) -> (r: Result<(), LignumError>)
        ensures
            match r {
                Ok(_) => old(self)@.can_stroke() && final(self)@ == old(self)@.stroked(),
                Err(error) => !old(self)@.can_stroke() && final(self)@ == old(self)@
                    && error.is_other(old(self)@.refusal(old(self)@.state.stroke_style)),
            },
    {
        self.flush_path_stroke()
    }

    fn clip(&mut self, fill_rule: FillRule) -> (r: Result<(), LignumError>)
        ensures
            final(self)@ == old(self)@,
            r matches Err(error) && error.is_other(spec_not_supported("clip"@)),
    {
        Err(not_supported("clip"))
    }

    fn is_point_in_path(&self, x: Scalar, y: Scalar, opts: HitOptions) -> (r: Result<
        bool,
        LignumError,
    >)
        ensures
            r == Ok::<bool, LignumError>(false),
    {
        Ok(false)
    }

    fn is_point_in_stroke(&self, x: Scalar, y: Scalar) -> (r: Result<bool, LignumError>)
        ensures
            r == Ok::<bool, LignumError>(false),
    {
        Ok(false)
    }
}

impl CanvasText for SvgCanvas {
    fn set_font(&mut self, value: String) -> (r: Result<(), LignumError>)
        ensures
            r is Ok,
            final(self)@ == old(self)@.with_state(SnapshotView { font: value@, ..old(self)@.state }),
    {
        self.state.font = value;
        Ok(())
    }

    fn font(&self) -> (r: Result<String, LignumError>)
        ensures
            r matches Ok(text) && text@ == self@.state.font,
    {
        Ok(self.state.font.clone())
    }

    fn set_text_align(&mut self, value: TextAlign) -> (r: Result<(), LignumError>)
        ensures
            r is Ok,
            final(self)@ == old(self)@.with_state(
                SnapshotView { text_align: value, ..old(self)@.state },
            ),
    {
        self.state.text_align = value;
        Ok(())
    }

    fn text_align(&self) -> (r: Result<TextAlign, LignumError>)
        ensures
            r == Ok::<TextAlign, LignumError>(self@.state.text_align),
    {
        Ok(self.state.text_align)
    }

    fn set_text_baseline(&mut self, value: TextBaseline) -> (r: Result<(), LignumError>)
        ensures
            r is Ok,
            final(self)@ == old(self)@.with_state(
                SnapshotView { text_baseline: value, ..old(self)@.state },
            ),
    {
        self.state.text_baseline = value;
        Ok(())
    }

    fn text_baseline(&self) -> (r: Result<TextBaseline, LignumError>)
        ensures
            r == Ok::<TextBaseline, LignumError>(self@.state.text_baseline),
    {
        Ok(self.state.text_baseline)
    }

    fn set_direction(&mut self, value: Direction) -> (r: Result<(), LignumError>)
        ensures
            r is Ok,
            final(self)@ == old(self)@.with_state(
                SnapshotView { direction: value, ..old(self)@.state },
            ),
    {
        self.state.direction = value;
        Ok(())
    }

    fn direction(&self) -> (r: Result<Direction, LignumError>)
        ensures
            r == Ok::<Direction, LignumError>(self@.state.direction),
    {
        Ok(self.state.direction)
    }

    fn fill_text(&mut self, text: &str, x: Scalar, y: Scalar, max_width: Option<Scalar>) -> (r:
        Result<(), LignumError>)
        ensures
            match r {
                Ok(_) => old(self)@.can_resolve(old(self)@.state.fill_style) && final(self)@ == old(
                    self,
                )@.with_text(text@, x, y),
                Err(error) => !old(self)@.can_resolve(old(self)@.state.fill_style) && final(self)@
                    == old(self)@ && error.is_other(
                    old(self)@.refusal(old(self)@.state.fill_style),
                ),
            },
    {
        let paint = self.state.fill_style.clone();
        let fill = match self.paint_to_str(&paint) {
            Ok(fill) => fill,
            Err(error) => {
                return Err(error);
            },
        };
        let mut attributes = no_attributes();
        push_attribute(&mut attributes, "x", x.to_text());
        push_attribute(&mut attributes, "y", y.to_text());
        push_attribute(&mut attributes, "fill", fill);
        push_attribute(&mut attributes, "font", self.state.font.clone());
        push_attribute(
            &mut attributes,
            "text-anchor",
            String::from_str(text_anchor_name(self.state.text_align)),
        );
        push_attribute(
            &mut attributes,
            "dominant-baseline",
            String::from_str(baseline_name(self.state.text_baseline)),
        );
        push_transform(&mut attributes, self.state.transform);
        assert(attributes_view(attributes@) =~= text_attributes(
            x,
            y,
            old(self)@.paint_text(old(self)@.state.fill_style),
            old(self)@.state,
        ));
        xml_write_start(&mut self.writer, "text", &attributes);
        xml_write_text(&mut self.writer, text);
        xml_write_end(&mut self.writer, "text");
        Ok(())
    }

    fn stroke_text(&mut self, text: &str, x: Scalar, y: Scalar, max_width: Option<Scalar>) -> (r:
        Result<(), LignumError>)
        ensures
            final(self)@ == old(self)@,
            r matches Err(error) && error.is_other(spec_not_supported("stroke_text"@)),
    {
        Err(not_supported("stroke_text"))
    }

    fn measure_text(&self, text: &str) -> (r: Result<TextMetrics, LignumError>)
        ensures
            r matches Err(error) && error.is_other(spec_not_supported("measure_text"@)),
    {
        Err(not_supported("measure_text"))
    }
}

impl CanvasImageData for SvgCanvas {
    fn create_image_data(&mut self, width: u32, height: u32) -> (r: Result<ImageData, LignumError>)
        ensures
            final(self)@ == old(self)@,
            r matches Err(error) && error.is_other(spec_not_supported("create_image_data"@)),
    {
        Err(not_supported("create_image_data"))
    }

    fn get_image_data(&self, sx: u32, sy: u32, sw: u32, sh: u32) -> (r: Result<
        ImageData,
        LignumError,
    >)
        ensures
            r matches Err(error) && error.is_other(spec_not_supported("get_image_data"@)),
    {
        Err(not_supported("get_image_data"))
    }

    fn put_image_data(&mut self, data: &ImageData, dx: Scalar, dy: Scalar) -> (r: Result<
        (),
        LignumError,
    >)
        ensures
            final(self)@ == old(self)@,
            r matches Err(error) && error.is_other(spec_not_supported("put_image_data"@)),
    {
        Err(not_supported("put_image_data"))
    }

    fn put_image_data_dirty(
        &mut self,
        data: &ImageData,
        dx: Scalar,
        dy: Scalar,
        dirty_x: u32,
        dirty_y: u32,
        dirty_width: u32,
        dirty_height: u32,
    ) -> (r: Result<(), LignumError>)
        ensures
            final(self)@ == old(self)@,
            r matches Err(error) && error.is_other(spec_not_supported("put_image_data_dirty"@)),
    {
        Err(not_supported("put_image_data_dirty"))
    }
}

impl SvgCanvas {
    /// Draws an image of `width` by `height` pixels, which are `data`, in
    /// its own size with its corner at `(dx, dy)`: the image goes into the
    /// document as an element that holds it whole.
    pub fn draw_encoded_image(
        &mut self,
        width: u32,
        height: u32,
        data: Option<&[u8]>,
        dx: Scalar,
        dy: Scalar,
    ) -> (r: Result<(), LignumError>)
        ensures
            r is Ok <==> spec_can_encode(width, height, pixels_view(data)),
            match r {
                Ok(_) => old(self)@.image_drawn(width, height, pixels_view(data), dx, dy)
                    == Some(final(self)@),
                Err(error) => old(self)@.image_drawn(width, height, pixels_view(data), dx, dy)
                    is None && final(self)@ == old(self)@ && error is Other,
            },
    {
        let href = match encode_image_as_data_uri(width, height, data) {
            Ok(href) => href,
            Err(error) => {
                return Err(error);
            },
        };
        let mut attributes = no_attributes();
        push_attribute(&mut attributes, "x", dx.to_text());
        push_attribute(&mut attributes, "y", dy.to_text());
        push_attribute(&mut attributes, "width", number_text(width));
        push_attribute(&mut attributes, "height", number_text(height));
        push_attribute(&mut attributes, "href", href);
        push_transform(&mut attributes, self.state.transform);
        assert(attributes_view(attributes@) =~= image_attributes(
            dx,
            dy,
            width,
            height,
            href@,
            old(self)@.state,
        ));
        self.write_empty("image", &attributes);
        Ok(())
    }

    /// Draws an image of `width` by `height` pixels, which are `data`,
    /// scaled to `dw` by `dh`.
    pub fn draw_encoded_image_scaled(
        &mut self,
        width: u32,
        height: u32,
        data: Option<&[u8]>,
        dx: Scalar,
        dy: Scalar,
        dw: Scalar,
        dh: Scalar,
    ) -> (r: Result<(), LignumError>)
        ensures
            r is Ok <==> spec_can_encode(width, height, pixels_view(data)),
            match r {
                Ok(_) => old(self)@.image_drawn_scaled(
                    width,
                    height,
                    pixels_view(data),
                    dx,
                    dy,
                    dw,
                    dh,
                ) == Some(final(self)@),
                Err(error) => old(self)@.image_drawn_scaled(
                    width,
                    height,
                    pixels_view(data),
                    dx,
                    dy,
                    dw,
                    dh,
                ) is None && final(self)@ == old(self)@ && error is Other,
            },
    {
        let href = match encode_image_as_data_uri(width, height, data) {
            Ok(href) => href,
            Err(error) => {
                return Err(error);
            },
        };
        let mut attributes = no_attributes();
        push_attribute(&mut attributes, "x", dx.to_text());
        push_attribute(&mut attributes, "y", dy.to_text());
        push_attribute(&mut attributes, "width", dw.to_text());
        push_attribute(&mut attributes, "height", dh.to_text());
        push_attribute(&mut attributes, "href", href);
        push_attribute(&mut attributes, "preserveAspectRatio", String::from_str("none"));
        push_transform(&mut attributes, self.state.transform);
        assert(attributes_view(attributes@) =~= scaled_image_attributes(
            dx,
            dy,
            dw,
            dh,
            href@,
            old(self)@.state,
        ));
        self.write_empty("image", &attributes);
        Ok(())
    }
}

impl CanvasDrawImage for SvgCanvas {
    /// Draws what `image` answers for its size and its pixels.
    fn draw_image(&mut self, image: &dyn CanvasImageSource, dx: Scalar, dy: Scalar) -> (r: Result<
        (),
        LignumError,
    >)
        ensures
            exists|width: u32, height: u32, data: Option<Seq<u8>>|
                match #[trigger] old(self)@.image_drawn(width, height, data, dx, dy) {
                    Some(after) => r is Ok && final(self)@ == after,
                    None => r is Err && final(self)@ == old(self)@,
                },
            image.is_exact() ==> (match old(self)@.image_drawn(
                image.spec_width(),
                image.spec_height(),
                image.spec_data_rgba(),
                dx,
                dy,
            ) {
                Some(after) => r is Ok && final(self)@ == after,
                None => r is Err && final(self)@ == old(self)@,
            }),
            image.is_exact() ==> (r is Ok <==> spec_can_encode(
                image.spec_width(),
                image.spec_height(),
                image.spec_data_rgba(),
            )),
    {
        let width = image.width();
        let height = image.height();
        let data = image.data_rgba();
        let r = self.draw_encoded_image(width, height, data, dx, dy);
        proof {
            let outcome = old(self)@.image_drawn(width, height, pixels_view(data), dx, dy);
            assert(match outcome {
                Some(after) => r is Ok && self@ == after,
                None => r is Err && self@ == old(self)@,
            });
        }
        r
    }

    /// Draws, scaled, what `image` answers for its size and its pixels.
    fn draw_image_scaled(
        &mut self,
        image: &dyn CanvasImageSource,
        dx: Scalar,
        dy: Scalar,
        dw: Scalar,
        dh: Scalar,
    ) -> (r: Result<(), LignumError>)
        ensures
            exists|width: u32, height: u32, data: Option<Seq<u8>>|
                match #[trigger] old(self)@.image_drawn_scaled(width, height, data, dx, dy, dw, dh) {
                    Some(after) => r is Ok && final(self)@ == after,
                    None => r is Err && final(self)@ == old(self)@,
                },
            image.is_exact() ==> (match old(self)@.image_drawn_scaled(
                image.spec_width(),
                image.spec_height(),
                image.spec_data_rgba(),
                dx,
                dy,
                dw,
                dh,
            ) {
                Some(after) => r is Ok && final(self)@ == after,
                None => r is Err && final(self)@ == old(self)@,
            }),
            image.is_exact() ==> (r is Ok <==> spec_can_encode(
                image.spec_width(),
                image.spec_height(),
                image.spec_data_rgba(),
            )),
    {
        let width = image.width();
        let height = image.height();
        let data = image.data_rgba();
        let r = self.draw_encoded_image_scaled(width, height, data, dx, dy, dw, dh);
        proof {
            let outcome = old(self)@.image_drawn_scaled(
                width,
                height,
                pixels_view(data),
                dx,
                dy,
                dw,
                dh,
            );
            assert(match outcome {
                Some(after) => r is Ok && self@ == after,
                None => r is Err && self@ == old(self)@,
            });
        }
        r
    }

    fn draw_image_subrect(
        &mut self,
        image: &dyn CanvasImageSource,
        sx: Scalar,
        sy: Scalar,
        sw: Scalar,
        sh: Scalar,
        dx: Scalar,
        dy: Scalar,
        dw: Scalar,
        dh: Scalar,
    ) -> (r: Result<(), LignumError>)
        ensures
            final(self)@ == old(self)@,
            r matches Err(error) && error.is_other(spec_not_supported("draw_image_subrect"@)),
    {
        Err(not_supported("draw_image_subrect"))
    }
}

impl CanvasRenderingContext2D for SvgCanvas {

}

/// Identifiers do not collide: two gradients that are defined after
/// different numbers of others have different identifiers, so have two
/// patterns, and no gradient has the identifier of a pattern.
pub proof fn lemma_identifiers_are_distinct(m: nat, n: nat)
    ensures
        m != n ==> gradient_id(m) != gradient_id(n),
        m != n ==> pattern_id(m) != pattern_id(n),
        gradient_id(m) != pattern_id(n),
{
    reveal_strlit("grad");
    reveal_strlit("pat");
    if gradient_id(m) == gradient_id(n) {
        assert(gradient_id(m).subrange(4, gradient_id(m).len() as int) =~= decimal(m));
        assert(gradient_id(n).subrange(4, gradient_id(n).len() as int) =~= decimal(n));
        lemma_decimal_is_injective(m, n);
    }
    if pattern_id(m) == pattern_id(n) {
        assert(pattern_id(m).subrange(3, pattern_id(m).len() as int) =~= decimal(m));
        assert(pattern_id(n).subrange(3, pattern_id(n).len() as int) =~= decimal(n));
        lemma_decimal_is_injective(m, n);
    }
    assert(gradient_id(m)[0] == 'g');
    assert(pattern_id(n)[0] == 'p');
}

/// A paint that is resolved twice gets two identifiers: the count of its
/// kind grows with each resolution, and what was written stays written.
pub proof fn lemma_resolution_counts_up(view: SvgView, paint: PaintView)
    ensures
        view.resolved(paint).gradients >= view.gradients,
        view.resolved(paint).patterns >= view.patterns,
        paint is Gradient ==> view.resolved(paint).gradients == view.gradients + 1,
        paint is Pattern ==> view.resolved(paint).patterns == view.patterns + 1,
        paint is Gradient ==> view.resolved(paint).paint_text(paint) != view.paint_text(paint),
        paint is Pattern ==> view.resolved(paint).paint_text(paint) != view.paint_text(paint),
{
    reveal_strlit("url(#");
    reveal_strlit(")");
    let before = view.paint_text(paint);
    let after = view.resolved(paint).paint_text(paint);
    if paint is Gradient {
        lemma_identifiers_are_distinct(view.gradients, view.gradients + 1);
        let a = gradient_id(view.gradients);
        let b = gradient_id(view.gradients + 1);
        if before == after {
            assert(before.subrange(5, before.len() - 1) =~= a);
            assert(after.subrange(5, after.len() - 1) =~= b);
        }
    }
    if paint is Pattern {
        lemma_identifiers_are_distinct(view.patterns, view.patterns + 1);
        let a = pattern_id(view.patterns);
        let b = pattern_id(view.patterns + 1);
        if before == after {
            assert(before.subrange(5, before.len() - 1) =~= a);
            assert(after.subrange(5, after.len() - 1) =~= b);
        }
    }
}

/// With an empty current path, `fill` and `stroke` write nothing and change
/// nothing.
pub proof fn lemma_empty_path_writes_nothing(view: SvgView, rule: FillRule)
    requires
        view.path.len() == 0,
    ensures
        view.can_fill() && view.filled(rule) == view,
        view.can_stroke() && view.stroked() == view,
{
}

/// On a context with a current point, `arc_to` with a radius of zero, or
/// with the corner at the current point or at the point after it, adds the
/// straight line to the corner point and nothing else.
pub proof fn lemma_degenerate_arc_to_is_line(
    view: SvgView,
    x1: Scalar,
    y1: Scalar,
    x2: Scalar,
    y2: Scalar,
    radius: Scalar,
)
    requires
        view.current_point is Some,
        radius.nanos == 0 || view.current_point == Some((x1, y1)) || (x1 == x2 && y1 == y2),
    ensures
        view.rounded(x1, y1, x2, y2, radius) == view.extended(line_text(x1, y1), x1, y1),
{
}

/// A corner that is rounded is one straight line and one arc: the line to
/// where the circle touches the first edge, and the shorter arc of the
/// circle to where it touches the second, after which the path stands there.
pub proof fn lemma_rounded_corner_is_one_arc(
    view: SvgView,
    x1: Scalar,
    y1: Scalar,
    x2: Scalar,
    y2: Scalar,
    radius: Scalar,
)
    requires
        view.current_point matches Some(from) && spec_tangent_join(
            from.0,
            from.1,
            x1,
            y1,
            x2,
            y2,
            radius,
        ) is Round,
    ensures
        ({
            let from = view.current_point.unwrap();
            let join = spec_tangent_join(from.0, from.1, x1, y1, x2, y2, radius);
            let after = view.rounded(x1, y1, x2, y2, radius);
            &&& after.path == joined(
                joined(view.path, line_text(join->start_x, join->start_y)),
                arc_text(
                    radius,
                    radius,
                    Scalar { nanos: 0 },
                    false,
                    !join->ccw,
                    join->end_x,
                    join->end_y,
                ),
            )
            &&& after.current_point == Some((join->end_x, join->end_y))
            &&& after.subpath_start == view.subpath_start
            &&& after.document == view.document
        }),
{
}

} // verus!
