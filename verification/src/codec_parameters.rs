use vstd::prelude::*;

use crate::encoder::encoding::{context_to_parameters, spec_context_to_parameters};
use crate::encoder::Encoder;
use crate::error::FfmpegError;
use crate::rational::Rational;
use crate::raw::AVCodecParameters;
use crate::stream::Stream;

verus! {

/// Codec parameters taken from a stream or an encoder, with the time base, start
/// time and duration that go with them, to create a stream elsewhere (remuxing).
pub struct CodecParameters {
    params: AVCodecParameters,
    time_base: Rational,
    start_time: Option<i64>,
    duration: Option<i64>,
}

impl CodecParameters {
    /// The codec parameters.
    pub closed spec fn spec_params(&self) -> AVCodecParameters {
        self.params
    }

    /// The time base.
    pub closed spec fn spec_time_base(&self) -> Rational {
        self.time_base
    }

    /// The start time.
    pub closed spec fn spec_start_time(&self) -> Option<i64> {
        self.start_time
    }

    /// The duration.
    pub closed spec fn spec_duration(&self) -> Option<i64> {
        self.duration
    }

    /// Copies the codec parameters, time base, start time and duration of a stream.
    /// Fails when the stream has no codec parameters.
    pub fn from_stream(stream: &Stream) -> (r: Result<CodecParameters, FfmpegError>)
        ensures
            stream.codec_parameters is None ==> (r matches Err(FfmpegError::Arguments(m)) && m@
                == "stream has no codec parameters"@),
            stream.codec_parameters matches Some(p) ==> (r matches Ok(c) && c.spec_params() == p
                && c.spec_time_base() == stream.time_base && c.spec_start_time() == stream.start_time
                && c.spec_duration() == stream.duration),
    {
        let params = match stream.codec_parameters {
            Some(p) => p,
            None => {
                return Err(FfmpegError::Arguments("stream has no codec parameters"));
            },
        };
        Ok(
            CodecParameters {
                params,
                time_base: stream.time_base,
                start_time: stream.start_time,
                duration: stream.duration,
            },
        )
    }

    /// Reads the codec parameters of an encoder, with its outgoing time base; the start
    /// time and duration come from `stream` when one is given.
    pub fn from_encoder(encoder: &Encoder, stream: Option<&Stream>) -> (r: Result<CodecParameters, FfmpegError>)
        ensures
            r matches Ok(c) && c.spec_params() == spec_context_to_parameters(encoder@)
                && c.spec_time_base() == encoder.spec_outgoing_time_base() && c.spec_start_time()
                == (match stream {
                Some(s) => s.start_time,
                None => None,
            }) && c.spec_duration() == (match stream {
                Some(s) => s.duration,
                None => None,
            }),
    {
        let ctx = encoder.codec_context();
        let params = context_to_parameters(&ctx);
        let (start_time, duration) = match stream {
            Some(s) => (s.start_time, s.duration),
            None => (None, None),
        };
        Ok(CodecParameters { params, time_base: encoder.outgoing_time_base(), start_time, duration })
    }

    /// Returns the codec parameters.
    pub fn as_ptr(&self) -> (r: AVCodecParameters)
        ensures
            r == self.spec_params(),
    {
        self.params
    }

    /// Returns the time base.
    pub fn time_base(&self) -> (r: Rational)
        ensures
            r == self.spec_time_base(),
    {
        self.time_base
    }

    /// Sets the time base.
    pub fn set_time_base(&mut self, time_base: Rational)
        ensures
            final(self).spec_time_base() == time_base,
            final(self).spec_params() == old(self).spec_params(),
            final(self).spec_start_time() == old(self).spec_start_time(),
            final(self).spec_duration() == old(self).spec_duration(),
    {
        self.time_base = time_base;
    }

    /// Returns the start time.
    pub fn start_time(&self) -> (r: Option<i64>)
        ensures
            r == self.spec_start_time(),
    {
        self.start_time
    }

    /// Returns the duration.
    pub fn duration(&self) -> (r: Option<i64>)
        ensures
            r == self.spec_duration(),
    {
        self.duration
    }
}

} // verus!
