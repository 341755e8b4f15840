//! Animation engine for a nineteen-node LED flower.

pub mod chase;
pub mod hsv;
pub mod knob;
pub mod m6;
pub mod pwmled;
pub mod ratio;
pub mod render;
pub mod text;
