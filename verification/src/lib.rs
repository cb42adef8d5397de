//! Verified core of a PDF viewing engine.
//!
//! The library owns the logic of the engine: geometry for markup
//! annotations, pixel post-processing for rendering, the policies that
//! guard page access, the assembly of form-widget reports, and the
//! decision logic of the OCR pipeline.  The native PDF rasterizer and
//! the OCR subprocess are outside collaborators; the thin shell that
//! drives them hands this library plain values and takes plain values
//! back.

pub mod document;
pub mod form;
pub mod geometry;
pub mod markup;
pub mod ocr;
pub mod pixels;
pub mod render;
