//! Fixed-point time: one second is split into `TICKS_PER_SECOND` ticks, a
//! number chosen so that every common frame rate, the NTSC ones included,
//! lands on whole ticks.
pub mod arith;
pub mod duration;
pub mod frames;
pub mod iter;
pub mod rate;
pub mod text;
pub mod tick;
pub mod timecode;

pub use frames::FrameRateConversion;
pub use iter::{TickIter, TickRevIter};
pub use rate::{FrameRate, FramesPerSec};
pub use tick::{Tick, TICKS_PER_SECOND};
