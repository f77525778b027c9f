//! Capture-then-replay audio core.
//!
//! `sample` normalizes raw device samples of the recognized encodings,
//! `capture` accumulates them in delivery order while a capture runs, and
//! `playback` offers the finished capture as a finite pull-based source that
//! advertises its rate, channel count and duration.
use vstd::prelude::*;

pub mod capture;
pub mod error;
pub mod playback;
pub mod sample;

verus! {

} // verus!
