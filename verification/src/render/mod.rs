//! The animations.

pub mod breath;
pub mod rainbow;
pub mod zoom;

pub use rainbow::Rainbow;
pub use zoom::Zoom;
