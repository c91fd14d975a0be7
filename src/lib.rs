//! Decoding of scene packages, the wallpaper model, and the per-output
//! surface state machine of a layer-shell wallpaper renderer.

pub mod cursor;
pub mod scene;
pub mod wallpaper;
pub mod surface;
