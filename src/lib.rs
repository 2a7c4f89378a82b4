//! Procedural 2D shapes for a viewer that shows one shape at a time and moves
//! to the next on a click: the mesh generators, the ordered registry of
//! shapes, and the input state machine that picks what to draw.
pub mod geometry;
pub mod registry;
pub mod viewer;
