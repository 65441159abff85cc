//! Origin shifting and bounding-box measurement over a stream of
//! already-tokenized motion-control (g-code) fields.

pub mod token;
pub mod tracker;
pub mod bounds;
pub mod shift;
pub mod laws;
