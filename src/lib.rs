//! A single plane drawn with a custom, time-animated fragment shader, and the
//! camera that looks at it, described as verified scene composition.
//!
//! [`scene::setup`] fills a scene's mesh, material and entity stores; its
//! contract gives the resulting stores exactly, and the lemmas beside it state
//! what one run adds and what it leaves alone. Positions and sizes are
//! fixed-point integers in thousandths of a world unit.
pub mod geometry;
pub mod material;
pub mod scene;
