//! Geometry core of a wireframe mesh viewer.
//!
//! The crate holds what a viewer decides without touching a window or a
//! number with a fraction: the text format of a mesh, the mesh store with
//! its resolved triangles, the visibility gates of a frame, the edges of a
//! triangle on screen and the meaning of the movement keys. Coordinates are
//! carried as values of the caller's own point and normal types.

pub mod cull;
pub mod format;
pub mod input;
pub mod mesh;
pub mod screen;
pub mod text;
