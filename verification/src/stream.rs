use vstd::prelude::*;

use crate::rational::{AVRational, Rational};
use crate::raw::AVCodecParameters;

verus! {

/// A stream of a container (`AVStream`): the values of it that this library reads.
#[derive(Clone, Copy, Debug, PartialEq, Eq)]
pub struct Stream {
    /// The index of the stream in its container.
    pub index: i32,
    /// The format-specific stream id.
    pub id: i32,
    /// The codec parameters, when the stream has them.
    pub codec_parameters: Option<AVCodecParameters>,
    /// The time base of the stream's timestamps.
    pub time_base: Rational,
    /// The start time, when known.
    pub start_time: Option<i64>,
    /// The duration, when known.
    pub duration: Option<i64>,
    /// The frame rate FFmpeg guesses for the stream (`av_guess_frame_rate`).
    pub guessed_frame_rate: AVRational,
}

} // verus!
