//! Per-frame kinematics over three-dimensional body landmarks.
//!
//! A frame is a flat buffer of coordinates, three per landmark. The crate
//! blends a frame with the one before it and derives six joint angles from a
//! frame. It never interprets a coordinate: the caller supplies the scalar
//! type together with the arithmetic that blends two samples and the
//! arithmetic that measures an angle, and every contract here says which
//! samples reach that arithmetic and where each result is stored.

pub mod angles;
pub mod error;
pub mod joints;
pub mod landmarks;
pub mod smoothing;

pub use angles::compute_angles;
pub use error::PoseError;
pub use joints::Joint;
pub use landmarks::Landmark;
pub use smoothing::smooth_landmarks;
