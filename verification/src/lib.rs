//! Camera normalization for orthographic projections.
//!
//! A `CameraNormalizeMode` decides how an orthographic camera's projection
//! bounds adapt when the window's aspect ratio changes, and
//! `NormalOrthoCameraSystem` recomputes the bounds of every opted-in camera
//! whenever the observed aspect ratio differs from the cached one.
//!
//! Aspect ratios and projection bounds are kept as exact rational numbers
//! (`rational::Ratio`), so every geometric identity of the offset formulas
//! is stated and proved exactly.

pub mod camera;
pub mod rational;
pub mod system;
