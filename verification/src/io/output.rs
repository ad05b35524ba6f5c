use vstd::prelude::*;

use crate::codec_parameters::CodecParameters;
use crate::dict::Dictionary;
use crate::enums::{AVFmtFlags, AVFormatFlags};
use crate::error::{FfmpegError, FfmpegErrorCode};
use crate::rational::Rational;
use crate::raw::AVCodecParameters;
use crate::stream::Stream;

verus! {

/// The default size of the I/O buffer of an output.
pub const DEFAULT_BUFFER_SIZE: usize = 4096;

/// `AVFMT_FLAG_AUTO_BSF`: the flags of a new format context.
pub const AVFMT_FLAG_AUTO_BSF: i32 = 2097152;

/// The most streams a format context accepts (its default `max_streams`).
pub const MAX_STREAMS: usize = 1000;

/// A container format to write (`AVOutputFormat`): an opaque handle to FFmpeg's
/// format, zero for none, and the format's capability flags.
#[derive(Clone, Copy, Debug, PartialEq, Eq, Structural)]
pub struct OutputFormat {
    /// The handle of FFmpeg's format; zero for none.
    pub handle: usize,
    /// The capability flags of the format (`AVFMT_*`).
    pub flags: i32,
}

/// The options of an output.
#[derive(Clone, Copy, Debug, PartialEq, Eq, Structural)]
pub struct OutputOptions {
    /// The size of the I/O buffer.
    pub buffer_size: usize,
    /// The container format.
    pub format_ffi: OutputFormat,
}

/// A builder for [`OutputOptions`].
#[derive(Clone, Copy, Debug, PartialEq, Eq, Structural)]
pub struct OutputOptionsBuilder {
    /// The size of the I/O buffer.
    pub buffer_size: usize,
    /// The container format, once set.
    pub format_ffi: Option<OutputFormat>,
}

impl OutputOptions {
    /// Starts a builder with the default buffer size and no format.
    pub fn builder() -> (r: OutputOptionsBuilder)
        ensures
            r.buffer_size == DEFAULT_BUFFER_SIZE,
            r.format_ffi is None,
    {
        OutputOptionsBuilder { buffer_size: DEFAULT_BUFFER_SIZE, format_ffi: None }
    }
}

impl OutputOptionsBuilder {
    /// Sets the size of the I/O buffer.
    pub fn buffer_size(self, buffer_size: usize) -> (r: OutputOptionsBuilder)
        ensures
            r == (OutputOptionsBuilder { buffer_size, ..self }),
    {
        OutputOptionsBuilder { buffer_size, ..self }
    }

    /// Sets the container format; the null format is refused.
    pub fn format_ffi(self, format_ffi: OutputFormat) -> (r: Result<OutputOptionsBuilder, FfmpegError>)
        ensures
            format_ffi.handle == 0 ==> (r matches Err(FfmpegError::Arguments(m)) && m@
                == "could not determine output format"@),
            format_ffi.handle != 0 ==> r == Ok::<OutputOptionsBuilder, FfmpegError>(
                OutputOptionsBuilder { format_ffi: Some(format_ffi), ..self },
            ),
    {
        if format_ffi.handle == 0 {
            return Err(FfmpegError::Arguments("could not determine output format"));
        }
        Ok(OutputOptionsBuilder { format_ffi: Some(format_ffi), ..self })
    }

    /// Builds the options; `None` until a format is set.
    pub fn build(self) -> (r: Option<OutputOptions>)
        ensures
            self.format_ffi is None ==> r is None,
            self.format_ffi matches Some(f) ==> r == Some(
                OutputOptions { buffer_size: self.buffer_size, format_ffi: f },
            ),
    {
        match self.format_ffi {
            Some(f) => Some(OutputOptions { buffer_size: self.buffer_size, format_ffi: f }),
            None => None,
        }
    }
}

/// Where an output is in its life: nothing written, header written, trailer written.
#[derive(Clone, Copy, Debug, PartialEq, Eq, Structural)]
pub enum OutputState {
    /// Nothing has been written yet.
    Uninitialized,
    /// The header has been written.
    HeaderWritten,
    /// The trailer has been written.
    TrailerWritten,
}

/// An operation on an output that writes to it.
#[derive(Clone, Copy, Debug, PartialEq, Eq, Structural)]
pub enum OutputWrite {
    /// Writing the header.
    Header,
    /// Writing the trailer.
    Trailer,
    /// Writing a packet.
    Packet,
    /// Writing a packet with interleaving.
    InterleavedPacket,
}

/// The state an output moves to when `op`, allowed in `state`, succeeds.
pub open spec fn spec_next_state(state: OutputState, op: OutputWrite) -> OutputState {
    match op {
        OutputWrite::Header => OutputState::HeaderWritten,
        OutputWrite::Trailer => OutputState::TrailerWritten,
        _ => state,
    }
}

/// Whether `op` is allowed in `state`: the header only before anything was written,
/// the trailer and packets only after the header and before the trailer.
pub open spec fn spec_allowed(state: OutputState, op: OutputWrite) -> bool {
    match op {
        OutputWrite::Header => state == OutputState::Uninitialized,
        _ => state == OutputState::HeaderWritten,
    }
}

/// The message of the error for `op` when the state forbids it.
pub open spec fn spec_refusal(op: OutputWrite) -> Seq<char> {
    match op {
        OutputWrite::Header => "header already written"@,
        OutputWrite::Trailer => "cannot write trailer before header or after trailer has been written"@,
        OutputWrite::Packet => "cannot write packet before header or after trailer has been written"@,
        OutputWrite::InterleavedPacket => "cannot write interleaved packet before header or after trailer has been written"@,
    }
}

/// An output: where a muxer writes a container.
pub struct Output<T> {
    data: T,
    metadata: Dictionary,
    state: OutputState,
    flags: i32,
    oformat: Option<OutputFormat>,
    streams: Vec<Stream>,
    seekable: bool,
}

impl<T> Output<T> {
    /// The state of the output.
    pub closed spec fn spec_state(&self) -> OutputState {
        self.state
    }

    /// The flags of the format context.
    pub closed spec fn spec_flags(&self) -> i32 {
        self.flags
    }

    /// The container format.
    pub closed spec fn spec_oformat(&self) -> Option<OutputFormat> {
        self.oformat
    }

    /// The streams of the output.
    pub closed spec fn spec_streams(&self) -> Seq<Stream> {
        self.streams@
    }

    /// Whether the output can seek.
    pub closed spec fn spec_seekable(&self) -> bool {
        self.seekable
    }

    /// The data written to.
    pub closed spec fn spec_data(&self) -> T {
        self.data
    }

    /// Whether the streams are numbered in order: stream `i` has index and id `i`.
    pub open spec fn wf(&self) -> bool {
        &&& self.spec_streams().len() <= MAX_STREAMS
        &&& forall|i: int|
            0 <= i < self.spec_streams().len() ==> (#[trigger] self.spec_streams()[i]).index == i
                && self.spec_streams()[i].id == i
    }

    /// Creates an output that writes to `output` with the given options.
    pub fn new(output: T, options: OutputOptions) -> (r: Result<Output<T>, FfmpegError>)
        ensures
            r matches Ok(o) && o.wf() && o.spec_state() == OutputState::Uninitialized && o.spec_flags()
                == AVFMT_FLAG_AUTO_BSF && o.spec_oformat() == Some(options.format_ffi)
                && o.spec_streams().len() == 0 && !o.spec_seekable() && o.spec_data() == output,
    {
        Ok(
            Output {
                data: output,
                metadata: Dictionary::new(),
                state: OutputState::Uninitialized,
                flags: AVFMT_FLAG_AUTO_BSF,
                oformat: Some(options.format_ffi),
                streams: Vec::new(),
                seekable: false,
            },
        )
    }

    /// Creates an output that writes to `output`, which can seek, with the given
    /// options.
    pub fn seekable(output: T, options: OutputOptions) -> (r: Result<Output<T>, FfmpegError>)
        ensures
            r matches Ok(o) && o.wf() && o.spec_state() == OutputState::Uninitialized && o.spec_flags()
                == AVFMT_FLAG_AUTO_BSF && o.spec_oformat() == Some(options.format_ffi)
                && o.spec_streams().len() == 0 && o.spec_seekable() && o.spec_data() == output,
    {
        Ok(
            Output {
                data: output,
                metadata: Dictionary::new(),
                state: OutputState::Uninitialized,
                flags: AVFMT_FLAG_AUTO_BSF,
                oformat: Some(options.format_ffi),
                streams: Vec::new(),
                seekable: true,
            },
        )
    }

    /// Returns the data written to.
    pub fn into_inner(self) -> (r: T)
        ensures
            r == self.spec_data(),
    {
        self.data
    }

    /// Returns the state of the output.
    pub fn state(&self) -> (r: OutputState)
        ensures
            r == self.spec_state(),
    {
        self.state
    }

    /// Returns the streams of the output.
    pub fn streams(&self) -> (r: &Vec<Stream>)
        ensures
            r@ == self.spec_streams(),
    {
        &self.streams
    }

    /// Returns the flags of the format context.
    pub fn flags(&self) -> (r: AVFmtFlags)
        ensures
            r.0 == self.spec_flags(),
    {
        AVFmtFlags(self.flags)
    }

    /// Returns the capability flags of the container format, or `None` without one.
    pub fn output_flags(&self) -> (r: Option<AVFormatFlags>)
        ensures
            self.spec_oformat() is None ==> r is None,
            self.spec_oformat() matches Some(f) ==> r == Some(AVFormatFlags(f.flags)),
    {
        match self.oformat {
            Some(f) => Some(AVFormatFlags(f.flags)),
            None => None,
        }
    }

    /// Adds a new stream, numbered after the existing ones, with no codec parameters,
    /// time base `0/1` and no start time or duration. Returns its index, or `None`
    /// when the output already has the most streams it accepts.
    pub fn add_stream(&mut self) -> (r: Option<usize>)
        requires
            old(self).wf(),
        ensures
            final(self).wf(),
            final(self).spec_state() == old(self).spec_state(),
            final(self).spec_flags() == old(self).spec_flags(),
            final(self).spec_oformat() == old(self).spec_oformat(),
            final(self).spec_seekable() == old(self).spec_seekable(),
            final(self).spec_data() == old(self).spec_data(),
            old(self).spec_streams().len() >= MAX_STREAMS ==> r is None && final(self).spec_streams()
                == old(self).spec_streams(),
            old(self).spec_streams().len() < MAX_STREAMS ==> r == Some(
                old(self).spec_streams().len() as usize,
            ) && final(self).spec_streams() == old(self).spec_streams().push(
                Output::<T>::spec_new_stream(old(self).spec_streams().len() as int, None),
            ),
    {
        self.push_stream(None)
    }

    /// A new stream numbered `index`, with the given codec parameters, time base
    /// `0/1` and no start time, duration or guessed frame rate.
    pub open spec fn spec_new_stream(index: int, codec_parameters: Option<AVCodecParameters>) -> Stream {
        Stream {
            index: index as i32,
            id: index as i32,
            codec_parameters,
            time_base: Rational::spec_zero(),
            start_time: None,
            duration: None,
            guessed_frame_rate: crate::rational::AVRational { num: 0, den: 1 },
        }
    }

    fn push_stream(&mut self, codec_parameters: Option<AVCodecParameters>) -> (r: Option<usize>)
        requires
            old(self).wf(),
        ensures
            final(self).wf(),
            final(self).spec_state() == old(self).spec_state(),
            final(self).spec_flags() == old(self).spec_flags(),
            final(self).spec_oformat() == old(self).spec_oformat(),
            final(self).spec_seekable() == old(self).spec_seekable(),
            final(self).spec_data() == old(self).spec_data(),
            old(self).spec_streams().len() >= MAX_STREAMS ==> r is None && final(self).spec_streams()
                == old(self).spec_streams(),
            old(self).spec_streams().len() < MAX_STREAMS ==> r == Some(
                old(self).spec_streams().len() as usize,
            ) && final(self).spec_streams() == old(self).spec_streams().push(
                Output::<T>::spec_new_stream(old(self).spec_streams().len() as int, codec_parameters),
            ),
    {
        let n = self.streams.len();
        if n >= MAX_STREAMS {
            return None;
        }
        let stream = Stream {
            index: n as i32,
            id: n as i32,
            codec_parameters,
            time_base: Rational::zero(),
            start_time: None,
            duration: None,
            guessed_frame_rate: crate::rational::AVRational { num: 0, den: 1 },
        };
        self.streams.push(stream);
        Some(n)
    }

    /// Copies a stream of another container: a new stream with its codec parameters,
    /// time base, start time and duration. Returns `Ok(None)` when the stream has no
    /// codec parameters or no stream can be added, otherwise the new stream's index.
    pub fn copy_stream(&mut self, stream: &Stream) -> (r: Result<Option<usize>, FfmpegError>)
        requires
            old(self).wf(),
        ensures
            final(self).wf(),
            final(self).spec_state() == old(self).spec_state(),
            final(self).spec_data() == old(self).spec_data(),
            (stream.codec_parameters is None || old(self).spec_streams().len() >= MAX_STREAMS) ==> (r
                matches Ok(None) && final(self).spec_streams() == old(self).spec_streams()),
            (stream.codec_parameters is Some && old(self).spec_streams().len() < MAX_STREAMS) ==> (r
                == Ok::<Option<usize>, FfmpegError>(Some(old(self).spec_streams().len() as usize))
                && final(self).spec_streams() == old(self).spec_streams().push(
                Stream {
                    time_base: stream.time_base,
                    start_time: stream.start_time,
                    duration: stream.duration,
                    ..Output::<T>::spec_new_stream(
                        old(self).spec_streams().len() as int,
                        stream.codec_parameters,
                    )
                },
            )),
    {
        if stream.codec_parameters.is_none() {
            return Ok(None);
        }
        let index = match self.push_stream(stream.codec_parameters) {
            Some(i) => i,
            None => {
                return Ok(None);
            },
        };
        self.set_stream_times(index, stream.time_base, stream.start_time, stream.duration);
        Ok(Some(index))
    }

    /// Creates a stream from codec parameters kept apart from their stream: a new
    /// stream with those parameters, time base, start time and duration. Returns
    /// `Ok(None)` when no stream can be added, otherwise the new stream's index.
    pub fn add_stream_from_codec_parameters(&mut self, params: &CodecParameters) -> (r: Result<Option<usize>, FfmpegError>)
        requires
            old(self).wf(),
        ensures
            final(self).wf(),
            final(self).spec_state() == old(self).spec_state(),
            final(self).spec_data() == old(self).spec_data(),
            old(self).spec_streams().len() >= MAX_STREAMS ==> (r matches Ok(None)
                && final(self).spec_streams() == old(self).spec_streams()),
            old(self).spec_streams().len() < MAX_STREAMS ==> (r == Ok::<Option<usize>, FfmpegError>(
                Some(old(self).spec_streams().len() as usize),
            ) && final(self).spec_streams() == old(self).spec_streams().push(
                Stream {
                    time_base: params.spec_time_base(),
                    start_time: params.spec_start_time(),
                    duration: params.spec_duration(),
                    ..Output::<T>::spec_new_stream(
                        old(self).spec_streams().len() as int,
                        Some(params.spec_params()),
                    )
                },
            )),
    {
        let index = match self.push_stream(Some(params.as_ptr())) {
            Some(i) => i,
            None => {
                return Ok(None);
            },
        };
        self.set_stream_times(index, params.time_base(), params.start_time(), params.duration());
        Ok(Some(index))
    }

    /// Sets the time base, start time and duration of stream `index`.
    pub fn set_stream_times(
        &mut self,
        index: usize,
        time_base: Rational,
        start_time: Option<i64>,
        duration: Option<i64>,
    )
        requires
            old(self).wf(),
            index < old(self).spec_streams().len(),
        ensures
            final(self).wf(),
            final(self).spec_state() == old(self).spec_state(),
            final(self).spec_flags() == old(self).spec_flags(),
            final(self).spec_oformat() == old(self).spec_oformat(),
            final(self).spec_seekable() == old(self).spec_seekable(),
            final(self).spec_data() == old(self).spec_data(),
            final(self).spec_streams() == old(self).spec_streams().update(
                index as int,
                Stream { time_base, start_time, duration, ..old(self).spec_streams()[index as int] },
            ),
    {
        let mut s = self.streams[index];
        s.time_base = time_base;
        s.start_time = start_time;
        s.duration = duration;
        self.streams.set(index, s);
        proof {
            assert forall|i: int| 0 <= i < self.spec_streams().len() implies (
            #[trigger] self.spec_streams()[i]).index == i && self.spec_streams()[i].id == i by {
                if i != index {
                    assert(self.spec_streams()[i] == old(self).spec_streams()[i]);
                }
            }
        }
    }

    /// Sets the codec parameters of stream `index`.
    pub fn set_stream_parameters(&mut self, index: usize, codec_parameters: AVCodecParameters)
        requires
            old(self).wf(),
            index < old(self).spec_streams().len(),
        ensures
            final(self).wf(),
            final(self).spec_state() == old(self).spec_state(),
            final(self).spec_flags() == old(self).spec_flags(),
            final(self).spec_oformat() == old(self).spec_oformat(),
            final(self).spec_seekable() == old(self).spec_seekable(),
            final(self).spec_data() == old(self).spec_data(),
            final(self).spec_streams() == old(self).spec_streams().update(
                index as int,
                Stream { codec_parameters: Some(codec_parameters), ..old(self).spec_streams()[index as int] },
            ),
    {
        let mut s = self.streams[index];
        s.codec_parameters = Some(codec_parameters);
        self.streams.set(index, s);
        proof {
            assert forall|i: int| 0 <= i < self.spec_streams().len() implies (
            #[trigger] self.spec_streams()[i]).index == i && self.spec_streams()[i].id == i by {
                if i != index {
                    assert(self.spec_streams()[i] == old(self).spec_streams()[i]);
                }
            }
        }
    }

    /// Checks `op` against the state, then applies what the write returned (`ret`):
    /// a refusal when the state forbids the write (and then `ret` is not read), the
    /// error for a negative code, and otherwise the next state.
    fn apply_write(&mut self, op: OutputWrite, ret: i32) -> (r: Result<(), FfmpegError>)
        ensures
            !spec_allowed(old(self).spec_state(), op) ==> (r matches Err(FfmpegError::Arguments(m))
                && m@ == spec_refusal(op)),
            spec_allowed(old(self).spec_state(), op) && ret < 0 ==> r == Err::<(), FfmpegError>(
                FfmpegError::Code(FfmpegErrorCode(ret)),
            ),
            spec_allowed(old(self).spec_state(), op) && ret >= 0 ==> r is Ok,
            final(self).spec_state() == (if spec_allowed(old(self).spec_state(), op) && ret >= 0 {
                spec_next_state(old(self).spec_state(), op)
            } else {
                old(self).spec_state()
            }),
            final(self).spec_flags() == old(self).spec_flags(),
            final(self).spec_oformat() == old(self).spec_oformat(),
            final(self).spec_streams() == old(self).spec_streams(),
            final(self).spec_seekable() == old(self).spec_seekable(),
            final(self).spec_data() == old(self).spec_data(),
    {
        proof {
            reveal_strlit("header already written");
            reveal_strlit("cannot write trailer before header or after trailer has been written");
            reveal_strlit("cannot write packet before header or after trailer has been written");
            reveal_strlit(
                "cannot write interleaved packet before header or after trailer has been written",
            );
        }
        let allowed = match op {
            OutputWrite::Header => self.state == OutputState::Uninitialized,
            _ => self.state == OutputState::HeaderWritten,
        };
        if !allowed {
            let msg: &'static str = match op {
                OutputWrite::Header => "header already written",
                OutputWrite::Trailer => "cannot write trailer before header or after trailer has been written",
                OutputWrite::Packet => "cannot write packet before header or after trailer has been written",
                OutputWrite::InterleavedPacket => "cannot write interleaved packet before header or after trailer has been written",
            };
            return Err(FfmpegError::Arguments(msg));
        }
        if ret < 0 {
            return Err(FfmpegError::Code(FfmpegErrorCode(ret)));
        }
        match op {
            OutputWrite::Header => {
                self.state = OutputState::HeaderWritten;
            },
            OutputWrite::Trailer => {
                self.state = OutputState::TrailerWritten;
            },
            _ => {},
        }
        Ok(())
    }

    /// The metadata of the container.
    pub closed spec fn spec_metadata(&self) -> Seq<(Seq<char>, Seq<char>)> {
        self.metadata@
    }

    /// Replaces the metadata of the container.
    pub fn set_metadata(&mut self, metadata: Dictionary)
        ensures
            final(self).spec_metadata() == metadata@,
            final(self).spec_state() == old(self).spec_state(),
            final(self).spec_flags() == old(self).spec_flags(),
            final(self).spec_oformat() == old(self).spec_oformat(),
            final(self).spec_streams() == old(self).spec_streams(),
            final(self).spec_seekable() == old(self).spec_seekable(),
            final(self).spec_data() == old(self).spec_data(),
    {
        self.metadata = metadata;
    }

    /// Returns the metadata of the container.
    pub fn metadata(&self) -> (r: &Dictionary)
        ensures
            r@ == self.spec_metadata(),
    {
        &self.metadata
    }

    /// Returns whether the state allows `op`; the write is made only then.
    pub fn allows(&self, op: OutputWrite) -> (r: bool)
        ensures
            r == spec_allowed(self.spec_state(), op),
    {
        match op {
            OutputWrite::Header => self.state == OutputState::Uninitialized,
            _ => self.state == OutputState::HeaderWritten,
        }
    }

    /// Records the writing of the header, where `ret` is what writing it
    /// (`avformat_write_header`) returned. Fails with "header already written" when
    /// the header was written before.
    pub fn write_header(&mut self, ret: i32) -> (r: Result<(), FfmpegError>)
        ensures
            old(self).spec_state() != OutputState::Uninitialized ==> (r matches Err(
                FfmpegError::Arguments(m),
            ) && m@ == "header already written"@),
            old(self).spec_state() == OutputState::Uninitialized && ret < 0 ==> r == Err::<
                (),
                FfmpegError,
            >(FfmpegError::Code(FfmpegErrorCode(ret))),
            old(self).spec_state() == OutputState::Uninitialized && ret >= 0 ==> r is Ok,
            final(self).spec_state() == (if old(self).spec_state() == OutputState::Uninitialized
                && ret >= 0 {
                OutputState::HeaderWritten
            } else {
                old(self).spec_state()
            }),
            final(self).spec_streams() == old(self).spec_streams(),
            final(self).spec_flags() == old(self).spec_flags(),
            final(self).spec_oformat() == old(self).spec_oformat(),
            final(self).spec_data() == old(self).spec_data(),
    {
        self.apply_write(OutputWrite::Header, ret)
    }

    /// Records the writing of the header with muxer options, where `ret` is what
    /// writing it (`avformat_write_header` with `options`) returned and `unused` the
    /// options that call left in the dictionary, those the muxer did not take; the
    /// state rules are those of [`Output::write_header`]. When the header was written
    /// to, `options` becomes `unused`; otherwise it stays.
    pub fn write_header_with_options(&mut self, options: &mut Dictionary, ret: i32, unused: Dictionary) -> (r:
        Result<(), FfmpegError>)
        ensures
            old(self).spec_state() != OutputState::Uninitialized ==> (r matches Err(
                FfmpegError::Arguments(m),
            ) && m@ == "header already written"@),
            old(self).spec_state() == OutputState::Uninitialized && ret < 0 ==> r == Err::<
                (),
                FfmpegError,
            >(FfmpegError::Code(FfmpegErrorCode(ret))),
            old(self).spec_state() == OutputState::Uninitialized && ret >= 0 ==> r is Ok,
            final(self).spec_state() == (if old(self).spec_state() == OutputState::Uninitialized
                && ret >= 0 {
                OutputState::HeaderWritten
            } else {
                old(self).spec_state()
            }),
            final(self).spec_streams() == old(self).spec_streams(),
            final(self).spec_flags() == old(self).spec_flags(),
            final(self).spec_oformat() == old(self).spec_oformat(),
            final(self).spec_data() == old(self).spec_data(),
            old(self).spec_state() == OutputState::Uninitialized ==> final(options)@ == unused@,
            old(self).spec_state() != OutputState::Uninitialized ==> final(options)@ == old(options)@,
    {
        if self.state == OutputState::Uninitialized {
            *options = unused;
        }
        self.apply_write(OutputWrite::Header, ret)
    }

    /// Records the writing of the trailer, where `ret` is what writing it
    /// (`av_write_trailer`) returned. Fails unless the header was written and the
    /// trailer was not.
    pub fn write_trailer(&mut self, ret: i32) -> (r: Result<(), FfmpegError>)
        ensures
            old(self).spec_state() != OutputState::HeaderWritten ==> (r matches Err(
                FfmpegError::Arguments(m),
            ) && m@ == "cannot write trailer before header or after trailer has been written"@),
            old(self).spec_state() == OutputState::HeaderWritten && ret < 0 ==> r == Err::<
                (),
                FfmpegError,
            >(FfmpegError::Code(FfmpegErrorCode(ret))),
            old(self).spec_state() == OutputState::HeaderWritten && ret >= 0 ==> r is Ok,
            final(self).spec_state() == (if old(self).spec_state() == OutputState::HeaderWritten
                && ret >= 0 {
                OutputState::TrailerWritten
            } else {
                old(self).spec_state()
            }),
            final(self).spec_streams() == old(self).spec_streams(),
            final(self).spec_flags() == old(self).spec_flags(),
            final(self).spec_oformat() == old(self).spec_oformat(),
            final(self).spec_data() == old(self).spec_data(),
    {
        self.apply_write(OutputWrite::Trailer, ret)
    }

    /// Records the writing of a packet with interleaving, where `ret` is what the
    /// write (`av_interleaved_write_frame`) returned. Fails unless the header was
    /// written and the trailer was not.
    pub fn write_interleaved_packet(&mut self, ret: i32) -> (r: Result<(), FfmpegError>)
        ensures
            old(self).spec_state() != OutputState::HeaderWritten ==> (r matches Err(
                FfmpegError::Arguments(m),
            ) && m@
                == "cannot write interleaved packet before header or after trailer has been written"@),
            old(self).spec_state() == OutputState::HeaderWritten && ret < 0 ==> r == Err::<
                (),
                FfmpegError,
            >(FfmpegError::Code(FfmpegErrorCode(ret))),
            old(self).spec_state() == OutputState::HeaderWritten && ret >= 0 ==> r is Ok,
            final(self).spec_state() == old(self).spec_state(),
            final(self).spec_streams() == old(self).spec_streams(),
            final(self).spec_flags() == old(self).spec_flags(),
            final(self).spec_oformat() == old(self).spec_oformat(),
            final(self).spec_data() == old(self).spec_data(),
    {
        self.apply_write(OutputWrite::InterleavedPacket, ret)
    }

    /// Records the writing of a packet without reordering, where `ret` is what the
    /// write (`av_write_frame`) returned. Fails unless the header was written and the
    /// trailer was not.
    pub fn write_packet(&mut self, ret: i32) -> (r: Result<(), FfmpegError>)
        ensures
            old(self).spec_state() != OutputState::HeaderWritten ==> (r matches Err(
                FfmpegError::Arguments(m),
            ) && m@ == "cannot write packet before header or after trailer has been written"@),
            old(self).spec_state() == OutputState::HeaderWritten && ret < 0 ==> r == Err::<
                (),
                FfmpegError,
            >(FfmpegError::Code(FfmpegErrorCode(ret))),
            old(self).spec_state() == OutputState::HeaderWritten && ret >= 0 ==> r is Ok,
            final(self).spec_state() == old(self).spec_state(),
            final(self).spec_streams() == old(self).spec_streams(),
            final(self).spec_flags() == old(self).spec_flags(),
            final(self).spec_oformat() == old(self).spec_oformat(),
            final(self).spec_data() == old(self).spec_data(),
    {
        self.apply_write(OutputWrite::Packet, ret)
    }
}

/// Once an output has left the state in which nothing was written, it never returns
/// to it, and once the trailer is written nothing more can be written: from any state,
/// a successful write moves forward, and a write refused by the state changes nothing.
pub proof fn lemma_output_states_move_forward(state: OutputState, op: OutputWrite)
    ensures
        spec_allowed(state, op) ==> spec_next_state(state, op) != OutputState::Uninitialized,
        state == OutputState::TrailerWritten ==> !spec_allowed(state, op),
        spec_allowed(state, op) && state == OutputState::HeaderWritten ==> (op
            != OutputWrite::Header),
        spec_allowed(state, OutputWrite::Header) ==> !spec_allowed(
            spec_next_state(state, OutputWrite::Header),
            OutputWrite::Header,
        ),
        spec_allowed(state, OutputWrite::Trailer) ==> !spec_allowed(
            spec_next_state(state, OutputWrite::Trailer),
            OutputWrite::Trailer,
        ),
{
}

/// The life of an output, write by write: the header is written once, first; packets,
/// interleaved or not, and the trailer only come after the header and before the
/// trailer; writing the header moves on to "header written", writing the trailer to
/// "trailer written", writing a packet stays where it is.
pub proof fn lemma_output_life(state: OutputState, op: OutputWrite)
    ensures
        spec_allowed(state, OutputWrite::Header) <==> state == OutputState::Uninitialized,
        spec_allowed(state, OutputWrite::Packet) <==> state == OutputState::HeaderWritten,
        spec_allowed(state, OutputWrite::InterleavedPacket) <==> state == OutputState::HeaderWritten,
        spec_allowed(state, OutputWrite::Trailer) <==> state == OutputState::HeaderWritten,
        spec_next_state(state, OutputWrite::Header) == OutputState::HeaderWritten,
        spec_next_state(state, OutputWrite::Trailer) == OutputState::TrailerWritten,
        spec_next_state(state, OutputWrite::Packet) == state,
        spec_next_state(state, OutputWrite::InterleavedPacket) == state,
{
}

} // verus!
