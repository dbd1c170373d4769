//! The decisions of the watertight ray/triangle intersection test, after
//!
//! > Sven Woop, Carsten Benthin, and Ingo Wald. "Watertight ray/triangle intersection."
//! > Journal of Computer Graphics Techniques (JCGT) 2.1 (2013): 65-82.
//!
//! The test is arithmetic on a floating-point scalar type of the caller's
//! choice, with a handful of decisions in between. The arithmetic is the
//! caller's; this library holds the decisions, each as a function of what the
//! scalar type answered to a comparison, with a contract that says exactly
//! what is decided:
//!
//! - [`axis`]: which axis of a ray's direction is the dominant one, and the
//!   cyclic order in which a frame holds the three axes;
//! - [`sign`]: how a scalar compares with zero, whether an edge function
//!   calls for the careful recomputation, whether the edge functions
//!   disagree in sign, and whether the determinant is zero;
//! - [`hit`]: what the test reports in the end.
//!
//! [`exact`] proves, with real numbers standing for the scalars, what these
//! decisions mean for the edge functions of a triangle in ray space. No
//! backface culling and no distance culling is decided anywhere.
mod algebra;
pub mod axis;
pub mod exact;
pub mod hit;
pub mod sign;

pub use hit::{outcome, Intersection};
pub use sign::Sign;
