//! Management of a fixed block of rewritable lines on an ANSI terminal.
//!
//! A [`Block`] owns an ordered, fixed-length collection of lines together
//! with a tracker for the row the terminal cursor currently occupies. Every
//! operation computes the exact escape-sequence text to emit and commits the
//! tracked cursor row in the same step, so the tracked position never
//! desynchronizes from the position the emitted text produces. The caller
//! writes the returned text to the output stream and flushes it.
//!
//! Exactly one live block should drive a given output stream at a time, and
//! the emission returned by each operation must be written before the next
//! operation is invoked: the contracts relate each emission to the tracked
//! row at the moment of the call.

mod block;
pub mod interactive;
pub mod render;

pub use block::Block;
pub use block::BlockError;
pub use block::Direction;
pub use block::Position;
