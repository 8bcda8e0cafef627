//! A verified core for an animated "cat paw" desktop overlay.
//!
//! The paw is a small scene graph (arm, palm, shoulder disc and four
//! fingers, each an outline shape wrapping a fill shape) whose transforms
//! are recomputed every frame from the global cursor position, the mouse
//! button state and the frame clock.  This crate holds everything that can
//! be stated and proved: the limb pose solver, the outline-preserving
//! inner-scale rule, the gesture-driven shape animator and the long-press
//! gesture recognizer, together with the frame driver that runs them in
//! order.  Windowing, rendering and raw input polling are left to the host
//! process, which feeds plain sampled values in and reads transforms out.
//!
//! All geometry is carried in fixed-point integers: lengths, positions and
//! scale factors in thousandths of a world unit ("milli"), the openness
//! factor in millionths ("micro"), rotation angles in micro-radians and
//! time in milliseconds.

pub mod animate;
pub mod fixed;
pub mod frame;
pub mod geom;
pub mod gesture;
pub mod outline;
pub mod pose;
pub mod scene;
