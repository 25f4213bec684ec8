//! Core logic of an interactive skybox viewer: a camera-orientation
//! controller that accumulates pointer motion into a clamped yaw/pitch
//! state, and a one-shot pipeline that reinterprets a vertically stacked
//! sprite sheet as a cube texture and rebinds every skybox surface to it.
//!
//! All quantities are modelled as plain integers: angles in millidegrees,
//! texture sizes in pixels, asset handles as numeric ids. The windowing,
//! asset-decoding and rendering machinery around this crate converts
//! between these models and its own types.

pub mod camera;
pub mod cubemap;
pub mod skybox;
pub mod store;
pub mod texture;
