//! A field of bouncing balls held between four walls, in fixed-point world
//! coordinates: the scene layout, the cursor tracker, and the scatter that
//! throws every ball towards the cursor while the left button is held.
pub mod geom;
mod random;
pub mod scene;
pub mod cursor;
pub mod scatter;
pub mod frame;
pub mod report;
