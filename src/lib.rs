//! Spatial panner: the control-side node model and the render-side decisions
//! that position a mono stream relative to a listener.

pub mod channel;
pub mod node;
pub mod render;
