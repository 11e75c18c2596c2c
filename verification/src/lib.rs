//! Orbit-camera controller: a camera parameterized by a focus point, a
//! radius and two angles (yaw, pitch), driven by pointer-drag and
//! scroll-wheel input, plus a small clock utility for the host.
//!
//! All quantities are fixed-point integers: angles in microradians,
//! distances in thousandths of a world unit. A host that renders the
//! scene converts these to its own floating-point types.

pub mod camera;
pub mod utils;
