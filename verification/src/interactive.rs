//! The individual lines managed by a block.

mod lines;

pub use lines::InteractiveLine;
pub use lines::InteractiveLine as Line;
