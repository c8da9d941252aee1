//! Integer core of a path tracer: frame geometry and the bounce budget of a light path.

pub mod image;
pub mod path;

pub use crate::image::Image;
pub use crate::path::{next_step, start_path, Event, Step};
