//! Shape-element construction for a document layout engine.
//!
//! Turns high-level geometric element declarations (rectangle, square,
//! ellipse, circle, image) into a composed tree of renderable layout nodes:
//! a content stack, an optional inscribing padding wrapper, a fixed-size
//! wrapper, and an optional background fill wrapper. Image elements resolve
//! a path and bind a deduplicated resource handle from an explicit cache.

pub mod elements;
pub mod geom;
pub mod layout;
pub mod resource;
