//! Scene model, animation and shading-parameter marshaling for a metaball
//! renderer, in fixed-point arithmetic.
//!
//! Lengths, times and angles are `i64` values in millionths (`fixed::ONE` is
//! one metre, one second or one radian). Sines and cosines are evaluated by
//! the caller and handed in as fixed-point values.
pub mod animation;
pub mod camera;
pub mod fixed;
pub mod frames;
pub mod names;
pub mod scene;
pub mod uniforms;

pub use animation::{Animatable, Behavior};
pub use scene::{Axis, Material, Metaball, PointLight, Vec3};
pub use uniforms::Uniforms;
