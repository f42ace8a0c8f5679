//! A small layered raster editor: tools, drafts, shapes and the rules that
//! turn pointer gestures into committed shapes.
pub mod geometry;
pub mod paint;
pub mod text;
pub mod editor;
pub mod canvas;
pub mod scene;
pub mod laws;
