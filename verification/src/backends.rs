//! The backends: a recorder of drawing operations, a writer of SVG
//! documents with the encoders it needs, and the groundwork for a backend on
//! the Cairo graphics library.

pub mod cairo;
pub mod encode;
pub mod recording;
pub mod svg;
pub mod xml;
