//! Verified core of a small gravitational sandbox: bounded position trails,
//! the time controls that drive the integrator, the deterministic star-field
//! generator and the integer colour rules of the renderer.

pub mod render;
pub mod sim;
pub mod stars;
pub mod trail;
