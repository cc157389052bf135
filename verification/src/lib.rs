//! A backend-agnostic model of a 2D vector drawing surface.
//!
//! The crate keeps the state of a drawing context (transform, clip, paints,
//! line and text attributes), accumulates path commands, and hands finished
//! paths to a backend: a recorder that keeps every drawing operation, or a
//! writer that emits an SVG document. All coordinates are exact fixed-point
//! numbers, so every operation has a contract that Verus checks.

pub mod api;
pub mod backends;
pub mod error;
pub mod geometry;
pub mod scalar;
pub mod transform;

pub use api::CanvasCompositing;
pub use api::CanvasDrawImage;
pub use api::CanvasFillStrokeStyles;
pub use api::CanvasGradient;
pub use api::CanvasImageData;
pub use api::CanvasImageSource;
pub use api::CanvasLineStyles;
pub use api::CanvasPathDrawingStyles;
pub use api::CanvasPaths;
pub use api::CanvasPattern;
pub use api::CanvasRectangles;
pub use api::CanvasRenderingContext2D;
pub use api::CanvasState;
pub use api::CanvasText;
pub use api::CanvasTransforms;
pub use api::CompositeOperation;
pub use api::Direction;
pub use api::FillRule;
pub use api::GradientKind;
pub use api::GradientStop;
pub use api::HitOptions;
pub use api::ImageData;
pub use api::ImageSmoothingQuality;
pub use api::LineCap;
pub use api::LineJoin;
pub use api::Paint;
pub use api::PatternRepetition;
pub use api::TextAlign;
pub use api::TextBaseline;
pub use api::TextMetrics;
pub use error::LignumError;
pub use scalar::Angle;
pub use scalar::Scalar;
pub use transform::Transform;
