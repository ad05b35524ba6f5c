use vstd::prelude::*;

verus! {

/// `AVERROR(EAGAIN)` as FFmpeg reports it on Linux: output is not available yet.
pub const AVERROR_EAGAIN: i32 = -11;

/// `AVERROR_EOF`: the end of the stream has been reached.
pub const AVERROR_EOF: i32 = -541478725;

/// `AVERROR_INVALIDDATA`: invalid data was found while processing the input.
pub const AVERROR_INVALIDDATA: i32 = -1094995529;

/// A raw FFmpeg return code. Non-negative codes mean success.
#[derive(Clone, Copy, Debug, PartialEq, Eq, Structural)]
pub struct FfmpegErrorCode(pub i32);

impl FfmpegErrorCode {
    /// Whether the code reports success.
    pub open spec fn spec_is_success(self) -> bool {
        self.0 >= 0
    }

    /// Returns `true` when the code reports success (it is not negative).
    pub fn is_success(self) -> (r: bool)
        ensures
            r == self.spec_is_success(),
    {
        self.0 >= 0
    }

    /// Turns the code into a `Result`: `Ok` with the code when it reports success,
    /// otherwise the error that carries it.
    pub fn result(self) -> (r: Result<i32, FfmpegError>)
        ensures
            self.spec_is_success() ==> r == Ok::<i32, FfmpegError>(self.0),
            !self.spec_is_success() ==> r == Err::<i32, FfmpegError>(FfmpegError::Code(self)),
    {
        if self.0 >= 0 {
            Ok(self.0)
        } else {
            Err(FfmpegError::Code(self))
        }
    }
}

/// The errors the library reports.
#[derive(Clone, Copy, Debug, PartialEq, Eq)]
pub enum FfmpegError {
    /// An allocation failed.
    Alloc,
    /// FFmpeg returned an error code.
    Code(FfmpegErrorCode),
    /// No decoder could be found or set up for the stream.
    NoDecoder,
    /// No encoder was given.
    NoEncoder,
    /// No stream could be added.
    NoStream,
    /// No filter was found.
    NoFilter,
    /// No frame was available.
    NoFrame,
    /// An argument was invalid; the message says which.
    Arguments(&'static str),
}

} // verus!
