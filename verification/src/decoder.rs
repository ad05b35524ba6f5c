use vstd::prelude::*;

use crate::codec::DecoderCodec;
use crate::enums::{AVHWDeviceType, AVMediaType, AVPixelFormat, AVSampleFormat};
use crate::error::{FfmpegError, FfmpegErrorCode, AVERROR_EAGAIN, AVERROR_EOF};
use crate::frame::{AudioFrame, GenericFrame, VideoFrame};
use crate::rational::{AVRational, Rational};
use crate::raw::{AVCodecContext, AVFrame, BufferRef};
use crate::stream::Stream;

verus! {

/// `FF_THREAD_FRAME`: decode several frames in parallel.
pub const FF_THREAD_FRAME: i32 = 1;

/// `FF_THREAD_SLICE`: decode several slices of a frame in parallel.
pub const FF_THREAD_SLICE: i32 = 2;

/// `AV_CODEC_FLAG_LOW_DELAY`: force low delay.
pub const AV_CODEC_FLAG_LOW_DELAY: i32 = 524288;

/// `AV_PIX_FMT_NONE`: the end of a list of pixel formats, or no pixel format.
pub const AV_PIX_FMT_NONE: i32 = -1;

/// Hardware acceleration options for a decoder.
#[derive(Clone, Copy, Debug, PartialEq, Eq)]
pub struct HardwareAccelerationOptions {
    /// The hardware device type to decode with.
    pub hw_device_type: AVHWDeviceType,
    /// The hardware pixel format to ask for.
    pub hw_pixel_format: AVPixelFormat,
}

/// Which multithreading method a decoder uses.
#[derive(Clone, Copy, Debug, PartialEq, Eq, Structural)]
pub enum ThreadType {
    /// Decode different frames in parallel (adds latency).
    Frame,
    /// Decode different slices of a frame in parallel (no extra latency).
    Slice,
    /// Allow both frame and slice threading (FFmpeg's default).
    FrameAndSlice,
}

impl ThreadType {
    /// The raw `FF_THREAD_*` value of the method.
    pub open spec fn spec_raw(self) -> i32 {
        match self {
            ThreadType::Frame => FF_THREAD_FRAME,
            ThreadType::Slice => FF_THREAD_SLICE,
            ThreadType::FrameAndSlice => 3,
        }
    }

    /// Returns the raw `FF_THREAD_*` value of the method.
    pub fn raw(self) -> (r: i32)
        ensures
            r == self.spec_raw(),
    {
        match self {
            ThreadType::Frame => FF_THREAD_FRAME,
            ThreadType::Slice => FF_THREAD_SLICE,
            ThreadType::FrameAndSlice => {
                assert(1i32 | 2i32 == 3i32) by (bit_vector);
                FF_THREAD_FRAME | FF_THREAD_SLICE
            },
        }
    }
}

/// Options for creating a decoder.
#[derive(Clone, Copy, Debug, PartialEq, Eq)]
pub struct DecoderOptions {
    /// The codec to decode with; the stream's default decoder when `None`.
    pub codec: Option<DecoderCodec>,
    /// The number of threads.
    pub thread_count: i32,
    /// The multithreading method.
    pub thread_type: ThreadType,
    /// Whether to force low-delay mode (`AV_CODEC_FLAG_LOW_DELAY`).
    pub low_delay: bool,
    /// The hardware acceleration to use, if any.
    pub hardware_acceleration: Option<HardwareAccelerationOptions>,
}

impl DecoderOptions {
    /// No codec chosen, one thread, frame and slice threading, no low delay, no
    /// hardware acceleration.
    pub open spec fn spec_default() -> DecoderOptions {
        DecoderOptions {
            codec: None,
            thread_count: 1,
            thread_type: ThreadType::FrameAndSlice,
            low_delay: false,
            hardware_acceleration: None,
        }
    }
}

impl Default for DecoderOptions {
    /// No codec chosen, one thread, frame and slice threading, no low delay, no
    /// hardware acceleration.
    fn default() -> (r: DecoderOptions)
        ensures
            r == DecoderOptions::spec_default(),
    {
        DecoderOptions {
            codec: None,
            thread_count: 1,
            thread_type: ThreadType::FrameAndSlice,
            low_delay: false,
            hardware_acceleration: None,
        }
    }
}

/// What FFmpeg reported while a decoder was set up: the decoder it found for the
/// stream's codec id (`None` when there is none); the codec context it allocated for
/// the codec (`avcodec_alloc_context3`) with the stream's parameters copied into it
/// (`avcodec_parameters_to_context`), as read back after the copy (`None` when the
/// allocation failed), and the return code of the copy; the return code of the
/// hardware device creation (read only with hardware acceleration); the return code
/// of opening the codec (`avcodec_open2`, read only for video and audio), and the
/// context as read back after opening it.
#[derive(Clone, Copy, Debug)]
pub struct DecoderSetupOutcome {
    /// The decoder FFmpeg finds for the stream's codec id.
    pub found_codec: Option<DecoderCodec>,
    /// The allocated context, after the stream's parameters were copied into it.
    pub allocated: Option<AVCodecContext>,
    /// The return code of copying the stream's parameters into the context.
    pub params_ret: i32,
    /// The return code of the hardware device creation.
    pub hw_device_ret: i32,
    /// The return code of opening the codec.
    pub open_ret: i32,
    /// The context after the codec was opened.
    pub opened: AVCodecContext,
}

/// The codec context a decoder for `ist` is configured with before it is opened,
/// from the context FFmpeg allocated with the stream's parameters copied into it:
/// both time bases set to the stream's, the thread count and type of the options, the
/// low-delay flag when asked for, the preferred hardware format with hardware
/// acceleration, and the guessed frame rate for video.
pub open spec fn spec_decoder_context(ist: Stream, options: DecoderOptions, allocated: AVCodecContext) -> AVCodecContext {
    let c1 = AVCodecContext {
        pkt_timebase: ist.time_base.spec_to_av(),
        time_base: ist.time_base.spec_to_av(),
        thread_count: options.thread_count,
        thread_type: options.thread_type.spec_raw(),
        flags: if options.low_delay {
            allocated.flags | AV_CODEC_FLAG_LOW_DELAY
        } else {
            allocated.flags
        },
        ..allocated
    };
    let c2 = match options.hardware_acceleration {
        Some(hw) => AVCodecContext { preferred_hw_format: Some(hw.hw_pixel_format.spec_raw()), ..c1 },
        None => c1,
    };
    if c2.codec_type == AVMediaType::Video.spec_raw() {
        AVCodecContext { framerate: ist.guessed_frame_rate, ..c2 }
    } else {
        c2
    }
}

/// Whether a codec context of media type `codec_type` is opened: video and audio
/// contexts are, others are not.
pub open spec fn spec_opens(codec_type: i32) -> bool {
    codec_type == AVMediaType::Video.spec_raw() || codec_type == AVMediaType::Audio.spec_raw()
}

/// Either a video decoder or an audio decoder.
pub enum Decoder {
    /// A video decoder.
    Video(VideoDecoder),
    /// An audio decoder.
    Audio(AudioDecoder),
}

/// A decoder for any kind of media.
pub struct GenericDecoder {
    decoder: AVCodecContext,
}

impl View for GenericDecoder {
    type V = AVCodecContext;

    closed spec fn view(&self) -> AVCodecContext {
        self.decoder
    }
}

/// A video decoder.
pub struct VideoDecoder(GenericDecoder);

impl View for VideoDecoder {
    type V = AVCodecContext;

    closed spec fn view(&self) -> AVCodecContext {
        self.0@
    }
}

/// An audio decoder.
pub struct AudioDecoder(GenericDecoder);

impl View for AudioDecoder {
    type V = AVCodecContext;

    closed spec fn view(&self) -> AVCodecContext {
        self.0@
    }
}

impl Decoder {
    /// The context of the decoder, whichever kind it is.
    pub open spec fn spec_context(self) -> AVCodecContext {
        match self {
            Decoder::Video(v) => v@,
            Decoder::Audio(a) => a@,
        }
    }

    /// Creates a decoder for `ist` with the default options.
    pub fn new(ist: &Stream, outcome: DecoderSetupOutcome) -> (r: Result<Decoder, FfmpegError>)
        ensures
            Decoder::spec_matches(r, Decoder::spec_with_options(*ist, DecoderOptions::spec_default(), outcome)),
    {
        Self::with_options(ist, DecoderOptions::default(), outcome)
    }

    /// The context of the decoder, or the error, that setting up a decoder for `ist`
    /// with `options` gives when FFmpeg reports `outcome`.
    pub open spec fn spec_with_options(ist: Stream, options: DecoderOptions, outcome: DecoderSetupOutcome) -> Result<
        AVCodecContext,
        FfmpegError,
    > {
        match Decoder::spec_selected(ist, options, outcome.found_codec) {
            Err(e) => Err(e),
            Ok(_) => match Decoder::spec_configured(ist, options, outcome.allocated, outcome.params_ret) {
                Err(e) => Err(e),
                Ok(ctx) => Decoder::spec_finished(
                    ctx,
                    options,
                    outcome.hw_device_ret,
                    outcome.open_ret,
                    outcome.opened,
                ),
            },
        }
    }

    /// Whether `r` is what `spec_with_options` describes: the same error, or a decoder
    /// with the described context that is a video decoder exactly for video.
    pub open spec fn spec_matches(r: Result<Decoder, FfmpegError>, expected: Result<AVCodecContext, FfmpegError>) -> bool {
        match expected {
            Err(e) => r == Err::<Decoder, FfmpegError>(e),
            Ok(ctx) => r matches Ok(d) && d.spec_context() == ctx && (d is Video <==> ctx.codec_type
                == AVMediaType::Video.spec_raw()),
        }
    }

    /// The codec a decoder for `ist` runs: `NoDecoder` when the stream has no codec
    /// parameters, or when no codec is chosen (`options.codec`) or found (what FFmpeg
    /// finds for the stream's codec id) or the codec is empty.
    pub open spec fn spec_selected(ist: Stream, options: DecoderOptions, found_codec: Option<DecoderCodec>) -> Result<
        DecoderCodec,
        FfmpegError,
    > {
        let codec = match options.codec {
            Some(c) => Some(c),
            None => found_codec,
        };
        if ist.codec_parameters is None {
            Err(FfmpegError::NoDecoder)
        } else if codec is None || codec->0.handle == 0 {
            Err(FfmpegError::NoDecoder)
        } else {
            Ok(codec->0)
        }
    }

    /// The first step of setting up a decoder for `ist` with `options`: the codec to
    /// allocate a context for (see [`Decoder::spec_selected`]).
    pub fn select_codec(ist: &Stream, options: &DecoderOptions, found_codec: Option<DecoderCodec>) -> (r: Result<
        DecoderCodec,
        FfmpegError,
    >)
        ensures
            r == Decoder::spec_selected(*ist, *options, found_codec),
    {
        if ist.codec_parameters.is_none() {
            return Err(FfmpegError::NoDecoder);
        }
        let codec = match options.codec {
            Some(c) => c,
            None => match found_codec {
                Some(c) => c,
                None => {
                    return Err(FfmpegError::NoDecoder);
                },
            },
        };
        if codec.is_empty() {
            return Err(FfmpegError::NoDecoder);
        }
        Ok(codec)
    }

    /// The context, or the error, that configuring gives: `Alloc` when FFmpeg
    /// allocated no context, the error code when copying the stream's parameters into
    /// it failed, otherwise the context [`spec_decoder_context`] describes.
    pub open spec fn spec_configured(
        ist: Stream,
        options: DecoderOptions,
        allocated: Option<AVCodecContext>,
        params_ret: i32,
    ) -> Result<AVCodecContext, FfmpegError> {
        match allocated {
            None => Err(FfmpegError::Alloc),
            Some(ctx) => if params_ret < 0 {
                Err(FfmpegError::Code(FfmpegErrorCode(params_ret)))
            } else {
                Ok(spec_decoder_context(ist, options, ctx))
            },
        }
    }

    /// The second step of setting up a decoder for `ist` with `options`, once FFmpeg
    /// allocated a context for the codec and copied the stream's parameters into it:
    /// `allocated` is that context as read back (`None` when the allocation failed),
    /// `params_ret` the return code of the copy. Gives the context to write back
    /// before the hardware device is created and the codec opened.
    pub fn configure(ist: &Stream, options: &DecoderOptions, allocated: Option<AVCodecContext>, params_ret: i32) -> (r:
        Result<AVCodecContext, FfmpegError>)
        ensures
            r == Decoder::spec_configured(*ist, *options, allocated, params_ret),
    {
        let mut ctx = match allocated {
            Some(c) => c,
            None => {
                return Err(FfmpegError::Alloc);
            },
        };
        if params_ret < 0 {
            return Err(FfmpegError::Code(FfmpegErrorCode(params_ret)));
        }
        ctx.pkt_timebase = ist.time_base.to_av();
        ctx.time_base = ist.time_base.to_av();
        ctx.thread_count = options.thread_count;
        ctx.thread_type = options.thread_type.raw();
        if options.low_delay {
            ctx.flags = ctx.flags | AV_CODEC_FLAG_LOW_DELAY;
        }
        match options.hardware_acceleration {
            Some(hw) => {
                ctx.preferred_hw_format = Some(hw.hw_pixel_format.raw());
            },
            None => {},
        }
        if ctx.codec_type == AVMediaType::Video.raw() {
            ctx.framerate = ist.guessed_frame_rate;
        }
        Ok(ctx)
    }

    /// Returns `true` when a configured context is to be opened: for video and audio.
    pub fn opens_codec(ctx: &AVCodecContext) -> (r: bool)
        ensures
            r == spec_opens(ctx.codec_type),
    {
        ctx.codec_type == AVMediaType::Video.raw() || ctx.codec_type == AVMediaType::Audio.raw()
    }

    /// The context of the decoder, or the error, that the last step of setting up
    /// gives: the error code of a failed hardware device creation (with hardware
    /// acceleration), then of a failed opening (for video and audio); `NoDecoder` for
    /// other media; otherwise the context as read back after opening, with the media
    /// type and the preferred hardware format of the configured context.
    pub open spec fn spec_finished(
        ctx: AVCodecContext,
        options: DecoderOptions,
        hw_device_ret: i32,
        open_ret: i32,
        opened: AVCodecContext,
    ) -> Result<AVCodecContext, FfmpegError> {
        if options.hardware_acceleration is Some && hw_device_ret < 0 {
            Err(FfmpegError::Code(FfmpegErrorCode(hw_device_ret)))
        } else if spec_opens(ctx.codec_type) && open_ret < 0 {
            Err(FfmpegError::Code(FfmpegErrorCode(open_ret)))
        } else if spec_opens(ctx.codec_type) {
            Ok(
                AVCodecContext {
                    codec_type: ctx.codec_type,
                    preferred_hw_format: ctx.preferred_hw_format,
                    ..opened
                },
            )
        } else {
            Err(FfmpegError::NoDecoder)
        }
    }

    /// The last step of setting up a decoder, with the configured context `ctx`:
    /// `hw_device_ret` is what creating the hardware device returned (read only with
    /// hardware acceleration), `open_ret` what opening the codec returned (read only
    /// when [`Decoder::opens_codec`] says so) and `opened` the context as read back
    /// after opening it. The decoder is a video or audio decoder after the configured
    /// media type.
    pub fn finish(
        ctx: AVCodecContext,
        options: &DecoderOptions,
        hw_device_ret: i32,
        open_ret: i32,
        opened: AVCodecContext,
    ) -> (r: Result<Decoder, FfmpegError>)
        ensures
            Decoder::spec_matches(r, Decoder::spec_finished(ctx, *options, hw_device_ret, open_ret, opened)),
    {
        if options.hardware_acceleration.is_some() && hw_device_ret < 0 {
            return Err(FfmpegError::Code(FfmpegErrorCode(hw_device_ret)));
        }
        if !Self::opens_codec(&ctx) {
            return Err(FfmpegError::NoDecoder);
        }
        if open_ret < 0 {
            return Err(FfmpegError::Code(FfmpegErrorCode(open_ret)));
        }
        let mut decoder = opened;
        decoder.codec_type = ctx.codec_type;
        decoder.preferred_hw_format = ctx.preferred_hw_format;
        if ctx.codec_type == AVMediaType::Video.raw() {
            Ok(Decoder::Video(VideoDecoder(GenericDecoder { decoder })))
        } else {
            Ok(Decoder::Audio(AudioDecoder(GenericDecoder { decoder })))
        }
    }

    /// Creates a decoder for `ist` with `options`, given what FFmpeg reported while
    /// setting it up: [`Decoder::select_codec`], [`Decoder::configure`] and
    /// [`Decoder::finish`] in turn.
    ///
    /// Fails with `NoDecoder` when the stream has no codec parameters, when no codec
    /// is chosen or found, or when the stream is neither video nor audio; with `Alloc`
    /// when no context was allocated; with the error code when copying the parameters,
    /// creating the hardware device or opening the codec fails. On success the decoder
    /// is a video or audio decoder after the stream's media type, with the context as
    /// FFmpeg left it after opening.
    pub fn with_options(ist: &Stream, options: DecoderOptions, outcome: DecoderSetupOutcome) -> (r:
        Result<Decoder, FfmpegError>)
        ensures
            Decoder::spec_matches(r, Decoder::spec_with_options(*ist, options, outcome)),
    {
        match Self::select_codec(ist, &options, outcome.found_codec) {
            Ok(_) => {},
            Err(e) => {
                return Err(e);
            },
        }
        let ctx = match Self::configure(ist, &options, outcome.allocated, outcome.params_ret) {
            Ok(c) => c,
            Err(e) => {
                return Err(e);
            },
        };
        Self::finish(ctx, &options, outcome.hw_device_ret, outcome.open_ret, outcome.opened)
    }

    /// Returns the video decoder, or the decoder itself when it is not one.
    pub fn video(self) -> (r: Result<VideoDecoder, Decoder>)
        ensures
            self matches Decoder::Video(v) ==> r == Ok::<VideoDecoder, Decoder>(v),
            self matches Decoder::Audio(_) ==> r == Err::<VideoDecoder, Decoder>(self),
    {
        match self {
            Decoder::Video(video) => Ok(video),
            _ => Err(self),
        }
    }

    /// Returns the audio decoder, or the decoder itself when it is not one.
    pub fn audio(self) -> (r: Result<AudioDecoder, Decoder>)
        ensures
            self matches Decoder::Audio(a) ==> r == Ok::<AudioDecoder, Decoder>(a),
            self matches Decoder::Video(_) ==> r == Err::<AudioDecoder, Decoder>(self),
    {
        match self {
            Decoder::Audio(audio) => Ok(audio),
            _ => Err(self),
        }
    }
}

/// Whether `fmt` occurs in `pix_fmts` before its first `AV_PIX_FMT_NONE`, looking
/// from index `from` on.
pub open spec fn spec_listed_from(pix_fmts: Seq<i32>, fmt: i32, from: int) -> bool
    decreases pix_fmts.len() - from,
{
    if from < 0 || from >= pix_fmts.len() || pix_fmts[from] == AV_PIX_FMT_NONE {
        false
    } else if pix_fmts[from] == fmt {
        true
    } else {
        spec_listed_from(pix_fmts, fmt, from + 1)
    }
}

/// The format a decoder's format negotiation picks: the preferred hardware format
/// when the offered list holds it before its end marker, otherwise the first offered
/// format, and `AV_PIX_FMT_NONE` when nothing is offered or no hardware format is
/// preferred.
pub open spec fn spec_decoder_pick_format(preferred: Option<i32>, pix_fmts: Seq<i32>) -> i32 {
    match preferred {
        None => AV_PIX_FMT_NONE,
        Some(p) => if spec_listed_from(pix_fmts, p, 0) {
            p
        } else if pix_fmts.len() > 0 {
            pix_fmts[0]
        } else {
            AV_PIX_FMT_NONE
        },
    }
}

/// Picks the pixel format during a decoder's format negotiation: `preferred` is the
/// hardware format stored with the decoder (`None` when none is), `pix_fmts` the
/// formats the codec offers, ended by `AV_PIX_FMT_NONE`. Returns the preferred format
/// when it is offered, otherwise the first offered format so that decoding goes on in
/// software, and `AV_PIX_FMT_NONE` when nothing is offered.
pub fn get_hw_format(preferred: Option<i32>, pix_fmts: &[i32]) -> (r: i32)
    ensures
        r == spec_decoder_pick_format(preferred, pix_fmts@),
{
    let preferred_format: i32 = match preferred {
        Some(p) => p,
        None => {
            return AV_PIX_FMT_NONE;
        },
    };
    let mut first_format: Option<i32> = None;
    let mut i: usize = 0;
    while i < pix_fmts.len() && pix_fmts[i] != AV_PIX_FMT_NONE
        invariant
            i <= pix_fmts@.len(),
            preferred == Some(preferred_format),
            spec_listed_from(pix_fmts@, preferred_format, 0) == spec_listed_from(
                pix_fmts@,
                preferred_format,
                i as int,
            ),
            i == 0 ==> first_format is None,
            i > 0 ==> first_format == Some(pix_fmts@[0]),
        decreases pix_fmts@.len() - i,
    {
        let current_format = pix_fmts[i];
        if first_format.is_none() {
            first_format = Some(current_format);
        }
        if current_format == preferred_format {
            assert(spec_listed_from(pix_fmts@, preferred_format, i as int));
            return current_format;
        }
        i = i + 1;
    }
    match first_format {
        Some(f) => f,
        None => AV_PIX_FMT_NONE,
    }
}

/// The format a decoder's negotiation picks is the preferred hardware format when
/// that is offered, and otherwise either the first offered format or none: it never
/// picks a format that comes after the first one unless it is the preferred one.
pub proof fn lemma_decoder_pick(preferred: Option<i32>, pix_fmts: Seq<i32>)
    ensures
        preferred matches Some(p) ==> (spec_listed_from(pix_fmts, p, 0) ==> spec_decoder_pick_format(
            preferred,
            pix_fmts,
        ) == p),
        spec_decoder_pick_format(preferred, pix_fmts) == AV_PIX_FMT_NONE || (preferred matches Some(
            p,
        ) && spec_decoder_pick_format(preferred, pix_fmts) == p) || (pix_fmts.len() > 0
            && spec_decoder_pick_format(preferred, pix_fmts) == pix_fmts[0]),
        preferred is None ==> spec_decoder_pick_format(preferred, pix_fmts) == AV_PIX_FMT_NONE,
{
}

/// What one receive call yields for return code `ret`, with `frame` the frame it
/// filled and `time_base` the decoder's time base: nothing for `AVERROR(EAGAIN)` and
/// `AVERROR_EOF`, the frame stamped with the time base for success, the error
/// otherwise.
pub open spec fn spec_received(ret: i32, frame: AVFrame, time_base: crate::rational::AVRational) -> Result<
    Option<AVFrame>,
    FfmpegError,
> {
    if ret == AVERROR_EAGAIN || ret == AVERROR_EOF {
        Ok(None)
    } else if ret >= 0 {
        Ok(Some(AVFrame { time_base: Rational::spec_from_av(time_base).spec_to_av(), ..frame }))
    } else {
        Err(FfmpegError::Code(FfmpegErrorCode(ret)))
    }
}

impl GenericDecoder {
    /// Takes over the values FFmpeg set on the decoder's context while decoding (the
    /// size, formats and rates it found in the stream), as read back in `current`;
    /// the media type and the preferred hardware format stay.
    pub fn sync(&mut self, current: AVCodecContext)
        ensures
            final(self)@ == (AVCodecContext {
                codec_type: old(self)@.codec_type,
                preferred_hw_format: old(self)@.preferred_hw_format,
                ..current
            }),
    {
        let mut c = current;
        c.codec_type = self.decoder.codec_type;
        c.preferred_hw_format = self.decoder.preferred_hw_format;
        self.decoder = c;
    }

    /// Returns the values of the decoder's context.
    pub fn as_raw(&self) -> (r: AVCodecContext)
        ensures
            r == self@,
    {
        self.decoder
    }

    /// Returns the media type.
    pub fn codec_type(&self) -> (r: AVMediaType)
        ensures
            r == AVMediaType::spec_from_raw(self@.codec_type),
    {
        AVMediaType::from_raw(self.decoder.codec_type)
    }

    /// Returns the time base, or `None` when its denominator is zero.
    pub fn time_base(&self) -> (r: Option<Rational>)
        ensures
            self@.time_base.den == 0 ==> r is None,
            self@.time_base.den != 0 ==> r == Some(
                Rational { numerator: self@.time_base.num, denominator: self@.time_base.den },
            ),
    {
        let tb = self.decoder.time_base;
        if tb.den == 0 {
            None
        } else {
            Some(Rational::new(tb.num, tb.den))
        }
    }

    /// Returns the hardware device context, or `None` without hardware acceleration.
    pub fn hw_device_ctx(&self) -> (r: Option<BufferRef>)
        ensures
            self@.hw_device_ctx.0 == 0 ==> r is None,
            self@.hw_device_ctx.0 != 0 ==> r == Some(self@.hw_device_ctx),
    {
        let ctx = self.decoder.hw_device_ctx;
        if ctx.is_null() {
            None
        } else {
            Some(ctx)
        }
    }

    /// Turns the result of one receive call (`avcodec_receive_frame`), its return code
    /// `ret` and the frame it filled, into what the decoder yields: `None` when no frame
    /// is available now or any more, the frame with the decoder's time base on success,
    /// the error otherwise.
    pub fn receive_frame(&self, ret: i32, frame: GenericFrame) -> (r: Result<Option<GenericFrame>, FfmpegError>)
        ensures
            spec_received(ret, frame@, self@.time_base) matches Ok(None) ==> r matches Ok(None),
            spec_received(ret, frame@, self@.time_base) matches Ok(Some(f)) ==> (r matches Ok(
                Some(g),
            ) && g@ == f && g.spec_planes() == frame.spec_planes()),
            spec_received(ret, frame@, self@.time_base) matches Err(e) ==> r == Err::<
                Option<GenericFrame>,
                FfmpegError,
            >(e),
    {
        if ret == AVERROR_EAGAIN || ret == AVERROR_EOF {
            Ok(None)
        } else if ret >= 0 {
            let mut frame = frame;
            frame.set_time_base(Rational::from_av(self.decoder.time_base));
            Ok(Some(frame))
        } else {
            Err(FfmpegError::Code(FfmpegErrorCode(ret)))
        }
    }

    /// Collects the frames a flush yields: `send_eof_ret` is the return code of sending
    /// the end of the stream, `received` the results of the receive calls that
    /// followed, in order, up to the first that yielded no frame.
    ///
    /// Fails with the error of sending the end of the stream, or else with the first
    /// error a receive call reports; otherwise returns the frames received before the
    /// first call that yielded none, each with the decoder's time base and with the
    /// data planes it was received with.
    pub fn flush(&self, send_eof_ret: i32, received: Vec<(i32, GenericFrame)>) -> (r: Result<
        Vec<GenericFrame>,
        FfmpegError,
    >)
        ensures
            send_eof_ret < 0 ==> r == Err::<Vec<GenericFrame>, FfmpegError>(
                FfmpegError::Code(FfmpegErrorCode(send_eof_ret)),
            ),
            send_eof_ret >= 0 ==> match spec_collect(received_views(received@), self@.time_base) {
                Ok(frames) => r matches Ok(v) && frame_views(v@) == frames,
                Err(e) => r == Err::<Vec<GenericFrame>, FfmpegError>(e),
            },
            r matches Ok(v) ==> v@.len() <= received@.len() && forall|j: int|
                0 <= j < v@.len() ==> (#[trigger] v@[j]).spec_planes() == received@[j].1.spec_planes(),
    {
        if send_eof_ret < 0 {
            return Err(FfmpegError::Code(FfmpegErrorCode(send_eof_ret)));
        }
        let ghost tb = self@.time_base;
        let ghost all = received_views(received@);
        let mut frames: Vec<GenericFrame> = Vec::new();
        let mut rest = received;
        while rest.len() > 0
            invariant
                tb == self@.time_base,
                send_eof_ret >= 0,
                all == received_views(received@),
                frames@.len() + rest@.len() == received@.len(),
                rest@ == received@.subrange(frames@.len() as int, received@.len() as int),
                forall|j: int|
                    0 <= j < frames@.len() ==> (#[trigger] frames@[j]).spec_planes()
                        == received@[j].1.spec_planes(),
                spec_collect(all, tb) == (match spec_collect(received_views(rest@), tb) {
                    Ok(s) => Ok(frame_views(frames@) + s),
                    Err(e) => Err(e),
                }),
            decreases rest@.len(),
        {
            let ghost before = received_views(rest@);
            let ghost raw_before = rest@;
            let (ret, frame) = rest.remove(0);
            proof {
                assert(raw_before[0] == received@[frames@.len() as int]);
                assert(rest@ =~= received@.subrange(frames@.len() as int + 1, received@.len() as int));
                assert(received_views(rest@) =~= before.drop_first());
                assert(before[0] == (ret, frame@));
            }
            match self.receive_frame(ret, frame) {
                Ok(Some(f)) => {
                    let ghost old_frames = frame_views(frames@);
                    let ghost fv = f@;
                    frames.push(f);
                    proof {
                        assert(frame_views(frames@) =~= old_frames.push(fv));
                        match spec_collect(received_views(rest@), tb) {
                            Ok(s) => {
                                assert(old_frames + (seq![fv] + s) =~= old_frames.push(fv) + s);
                            },
                            Err(e) => {},
                        }
                    }
                },
                Ok(None) => {
                    proof {
                        assert(frame_views(frames@) + Seq::<AVFrame>::empty() =~= frame_views(
                            frames@,
                        ));
                    }
                    return Ok(frames);
                },
                Err(e) => {
                    return Err(e);
                },
            }
        }
        proof {
            assert(received_views(rest@) =~= Seq::<(i32, AVFrame)>::empty());
            assert(frame_views(frames@) + Seq::<AVFrame>::empty() =~= frame_views(frames@));
        }
        Ok(frames)
    }
}

impl core::ops::Deref for VideoDecoder {
    type Target = GenericDecoder;

    fn deref(&self) -> (r: &GenericDecoder)
        ensures
            r@ == self@,
    {
        &self.0
    }
}

impl VideoDecoder {
    /// Takes over the values FFmpeg set on the decoder's context while decoding; see
    /// [`GenericDecoder::sync`].
    pub fn sync(&mut self, current: AVCodecContext)
        ensures
            final(self)@ == (AVCodecContext {
                codec_type: old(self)@.codec_type,
                preferred_hw_format: old(self)@.preferred_hw_format,
                ..current
            }),
    {
        self.0.sync(current);
    }

    /// Returns the decoder as a generic decoder.
    pub fn as_generic(&self) -> (r: &GenericDecoder)
        ensures
            r@ == self@,
    {
        &self.0
    }

    /// Returns the width of the frames.
    pub fn width(&self) -> (r: i32)
        ensures
            r == self@.width,
    {
        self.0.decoder.width
    }

    /// Returns the height of the frames.
    pub fn height(&self) -> (r: i32)
        ensures
            r == self@.height,
    {
        self.0.decoder.height
    }

    /// Returns the pixel format of the frames.
    pub fn pixel_format(&self) -> (r: AVPixelFormat)
        ensures
            r == AVPixelFormat::spec_from_raw(self@.pix_fmt),
    {
        AVPixelFormat::from_raw(self.0.decoder.pix_fmt)
    }

    /// Returns the frame rate; a zero denominator reads as `0/1`.
    pub fn frame_rate(&self) -> (r: Rational)
        ensures
            r == Rational::spec_from_av(self@.framerate),
    {
        Rational::from_av(self.0.decoder.framerate)
    }

    /// Returns the sample aspect ratio; a zero denominator reads as `0/1`.
    pub fn sample_aspect_ratio(&self) -> (r: Rational)
        ensures
            r == Rational::spec_from_av(self@.sample_aspect_ratio),
    {
        Rational::from_av(self.0.decoder.sample_aspect_ratio)
    }

    /// Turns the result of one receive call into what the decoder yields, as a video
    /// frame.
    pub fn receive_frame(&self, ret: i32, frame: GenericFrame) -> (r: Result<Option<VideoFrame>, FfmpegError>)
        ensures
            spec_received(ret, frame@, self@.time_base) matches Ok(None) ==> r matches Ok(None),
            spec_received(ret, frame@, self@.time_base) matches Ok(Some(f)) ==> (r matches Ok(
                Some(g),
            ) && g@ == f && g.spec_planes() == frame.spec_planes()),
            spec_received(ret, frame@, self@.time_base) matches Err(e) ==> r == Err::<
                Option<VideoFrame>,
                FfmpegError,
            >(e),
    {
        match self.0.receive_frame(ret, frame) {
            Ok(Some(f)) => Ok(Some(f.video())),
            Ok(None) => Ok(None),
            Err(e) => Err(e),
        }
    }

    /// Collects the frames a flush yields, as video frames (see
    /// [`GenericDecoder::flush`]).
    pub fn flush(&self, send_eof_ret: i32, received: Vec<(i32, GenericFrame)>) -> (r: Result<
        Vec<VideoFrame>,
        FfmpegError,
    >)
        ensures
            send_eof_ret < 0 ==> r == Err::<Vec<VideoFrame>, FfmpegError>(
                FfmpegError::Code(FfmpegErrorCode(send_eof_ret)),
            ),
            send_eof_ret >= 0 ==> match spec_collect(received_views(received@), self@.time_base) {
                Ok(frames) => r matches Ok(v) && v@.map_values(|f: VideoFrame| f@) == frames,
                Err(e) => r == Err::<Vec<VideoFrame>, FfmpegError>(e),
            },
            r matches Ok(v) ==> v@.len() <= received@.len() && forall|j: int|
                0 <= j < v@.len() ==> (#[trigger] v@[j]).spec_planes() == received@[j].1.spec_planes(),
    {
        let frames = match self.0.flush(send_eof_ret, received) {
            Ok(f) => f,
            Err(e) => {
                return Err(e);
            },
        };
        let ghost views = frame_views(frames@);
        let ghost all = frames@;
        let mut out: Vec<VideoFrame> = Vec::new();
        let mut rest = frames;
        let mut k: usize = 0;
        let n: usize = rest.len();
        assert(views.len() == n);
        while rest.len() > 0
            invariant
                views.len() <= usize::MAX,
                k + rest@.len() == views.len(),
                k == out@.len(),
                forall|j: int| 0 <= j < rest@.len() ==> #[trigger] rest@[j]@ == views[k + j],
                forall|j: int| 0 <= j < k ==> #[trigger] out@[j]@ == views[j],
                all.len() == views.len(),
                all.len() <= received@.len(),
                forall|j: int| 0 <= j < all.len() ==> (#[trigger] all[j]).spec_planes() == received@[j].1.spec_planes(),
                forall|j: int| 0 <= j < rest@.len() ==> #[trigger] rest@[j] == all[k + j],
                forall|j: int| 0 <= j < k ==> (#[trigger] out@[j]).spec_planes() == all[j].spec_planes(),
            decreases rest@.len(),
        {
            let ghost before = rest@;
            let f = rest.remove(0);
            assert(f == all[k as int]);
            assert(f@ == views[k as int]);
            assert forall|j: int| 0 <= j < rest@.len() implies #[trigger] rest@[j]@ == views[k + 1 + j] by {
                assert(rest@[j] == before[j + 1]);
            }
            assert forall|j: int| 0 <= j < rest@.len() implies #[trigger] rest@[j] == all[k + 1 + j] by {
                assert(rest@[j] == before[j + 1]);
            }
            out.push(f.video());
            k = k + 1;
        }
        assert(out@.map_values(|f: VideoFrame| f@) =~= views);
        Ok(out)
    }
}

impl core::ops::Deref for AudioDecoder {
    type Target = GenericDecoder;

    fn deref(&self) -> (r: &GenericDecoder)
        ensures
            r@ == self@,
    {
        &self.0
    }
}

impl AudioDecoder {
    /// Takes over the values FFmpeg set on the decoder's context while decoding; see
    /// [`GenericDecoder::sync`].
    pub fn sync(&mut self, current: AVCodecContext)
        ensures
            final(self)@ == (AVCodecContext {
                codec_type: old(self)@.codec_type,
                preferred_hw_format: old(self)@.preferred_hw_format,
                ..current
            }),
    {
        self.0.sync(current);
    }

    /// Returns the decoder as a generic decoder.
    pub fn as_generic(&self) -> (r: &GenericDecoder)
        ensures
            r@ == self@,
    {
        &self.0
    }

    /// Returns the sample rate.
    pub fn sample_rate(&self) -> (r: i32)
        ensures
            r == self@.sample_rate,
    {
        self.0.decoder.sample_rate
    }

    /// Returns the number of channels.
    pub fn channels(&self) -> (r: i32)
        ensures
            r == self@.ch_layout.nb_channels,
    {
        self.0.decoder.ch_layout.nb_channels
    }

    /// Returns the sample format.
    pub fn sample_format(&self) -> (r: AVSampleFormat)
        ensures
            r == AVSampleFormat::spec_from_raw(self@.sample_fmt),
    {
        AVSampleFormat::from_raw(self.0.decoder.sample_fmt)
    }

    /// Turns the result of one receive call into what the decoder yields, as an audio
    /// frame.
    pub fn receive_frame(&self, ret: i32, frame: GenericFrame) -> (r: Result<Option<AudioFrame>, FfmpegError>)
        ensures
            spec_received(ret, frame@, self@.time_base) matches Ok(None) ==> r matches Ok(None),
            spec_received(ret, frame@, self@.time_base) matches Ok(Some(f)) ==> (r matches Ok(
                Some(g),
            ) && g@ == f && g.spec_planes() == frame.spec_planes()),
            spec_received(ret, frame@, self@.time_base) matches Err(e) ==> r == Err::<
                Option<AudioFrame>,
                FfmpegError,
            >(e),
    {
        match self.0.receive_frame(ret, frame) {
            Ok(Some(f)) => Ok(Some(f.audio())),
            Ok(None) => Ok(None),
            Err(e) => Err(e),
        }
    }
}

/// The return codes and frame values of a sequence of receive results.
pub open spec fn received_views(received: Seq<(i32, GenericFrame)>) -> Seq<(i32, AVFrame)> {
    received.map_values(|p: (i32, GenericFrame)| (p.0, p.1@))
}

/// The values of a sequence of frames.
pub open spec fn frame_views(frames: Seq<GenericFrame>) -> Seq<AVFrame> {
    frames.map_values(|f: GenericFrame| f@)
}

/// What a flush yields from the results of its receive calls: the frames received
/// before the first call that yielded none, or the first error.
pub open spec fn spec_collect(received: Seq<(i32, AVFrame)>, time_base: crate::rational::AVRational) -> Result<
    Seq<AVFrame>,
    FfmpegError,
>
    decreases received.len(),
{
    if received.len() == 0 {
        Ok(Seq::empty())
    } else {
        match spec_received(received[0].0, received[0].1, time_base) {
            Ok(None) => Ok(Seq::empty()),
            Err(e) => Err(e),
            Ok(Some(f)) => match spec_collect(received.drop_first(), time_base) {
                Ok(s) => Ok(seq![f] + s),
                Err(e) => Err(e),
            },
        }
    }
}

/// What configuring a decoder does to the context FFmpeg allocated: no context is an
/// allocation failure, a failed copy of the stream's parameters is its error code;
/// otherwise both time bases become the stream's, the thread count is the chosen one,
/// the thread type is the raw `FF_THREAD_*` value of the chosen method (1 for
/// frames, 2 for slices, 3 for both) whatever the allocated context held, the
/// low-delay flag (bit 19) is added when asked for, the preferred hardware format is
/// the one asked for, a video context takes the stream's guessed frame rate, and
/// every other field stays as FFmpeg left it.
pub proof fn lemma_decoder_configuration(
    ist: Stream,
    options: DecoderOptions,
    allocated: Option<AVCodecContext>,
    params_ret: i32,
)
    ensures
        allocated is None ==> Decoder::spec_configured(ist, options, allocated, params_ret) == Err::<
            AVCodecContext,
            FfmpegError,
        >(FfmpegError::Alloc),
        allocated is Some && params_ret < 0 ==> Decoder::spec_configured(ist, options, allocated, params_ret)
            == Err::<AVCodecContext, FfmpegError>(FfmpegError::Code(FfmpegErrorCode(params_ret))),
        allocated is Some && params_ret >= 0 ==> ({
            let a = allocated->0;
            let r = Decoder::spec_configured(ist, options, allocated, params_ret);
            let c = r.unwrap();
            &&& r is Ok
            &&& c.time_base == (AVRational { num: ist.time_base.numerator, den: ist.time_base.denominator })
            &&& c.pkt_timebase == c.time_base
            &&& c.thread_count == options.thread_count
            &&& c.thread_type == (match options.thread_type {
                ThreadType::Frame => 1i32,
                ThreadType::Slice => 2i32,
                ThreadType::FrameAndSlice => 3i32,
            })
            &&& c.flags == (if options.low_delay { a.flags | 524288i32 } else { a.flags })
            &&& c.preferred_hw_format == (match options.hardware_acceleration {
                Some(hw) => Some(hw.hw_pixel_format.spec_raw()),
                None => a.preferred_hw_format,
            })
            &&& c.framerate == (if a.codec_type == 0 { ist.guessed_frame_rate } else { a.framerate })
            &&& c.codec_type == a.codec_type && c.codec_id == a.codec_id
            &&& c.width == a.width && c.height == a.height && c.pix_fmt == a.pix_fmt
            &&& c.sample_rate == a.sample_rate && c.sample_fmt == a.sample_fmt
            &&& c.ch_layout == a.ch_layout && c.bit_rate == a.bit_rate
            &&& c.sample_aspect_ratio == a.sample_aspect_ratio
            &&& c.hw_device_ctx == a.hw_device_ctx && c.hw_frames_ctx == a.hw_frames_ctx
        }),
{
}

/// How the last step of setting up a decoder ends: a failed hardware device creation
/// (with hardware acceleration) is its error; then video (media type 0) and audio
/// (media type 1) contexts fail with the error of a failed opening and otherwise give
/// the context as opened, with the configured media type and preferred hardware
/// format; any other media has no decoder.
pub proof fn lemma_decoder_finish(
    ctx: AVCodecContext,
    options: DecoderOptions,
    hw_device_ret: i32,
    open_ret: i32,
    opened: AVCodecContext,
)
    ensures
        ({
            let r = Decoder::spec_finished(ctx, options, hw_device_ret, open_ret, opened);
            let av = ctx.codec_type == 0 || ctx.codec_type == 1;
            &&& options.hardware_acceleration is Some && hw_device_ret < 0 ==> r == Err::<
                AVCodecContext,
                FfmpegError,
            >(FfmpegError::Code(FfmpegErrorCode(hw_device_ret)))
            &&& !(options.hardware_acceleration is Some && hw_device_ret < 0) && av && open_ret < 0 ==> r
                == Err::<AVCodecContext, FfmpegError>(FfmpegError::Code(FfmpegErrorCode(open_ret)))
            &&& !(options.hardware_acceleration is Some && hw_device_ret < 0) && !av ==> r == Err::<
                AVCodecContext,
                FfmpegError,
            >(FfmpegError::NoDecoder)
            &&& !(options.hardware_acceleration is Some && hw_device_ret < 0) && av && open_ret >= 0 ==> r
                == Ok::<AVCodecContext, FfmpegError>(
                AVCodecContext {
                    codec_type: ctx.codec_type,
                    preferred_hw_format: ctx.preferred_hw_format,
                    ..opened
                },
            )
        }),
{
}

/// A frame received from a decoder keeps its values but takes the decoder's time
/// base (a zero denominator reading as `0/1`); the end of the stream and "try again"
/// give no frame, and every other negative code is that error.
pub proof fn lemma_frames_take_the_decoder_time_base(ret: i32, frame: AVFrame, time_base: crate::rational::AVRational)
    ensures
        ret >= 0 ==> spec_received(ret, frame, time_base) == Ok::<Option<AVFrame>, FfmpegError>(
            Some(
                AVFrame {
                    time_base: if time_base.den == 0 {
                        AVRational { num: 0, den: 1 }
                    } else {
                        time_base
                    },
                    ..frame
                },
            ),
        ),
        (ret == -11 || ret == -541478725) ==> spec_received(ret, frame, time_base) == Ok::<
            Option<AVFrame>,
            FfmpegError,
        >(None),
        ret < 0 && ret != -11 && ret != -541478725 ==> spec_received(ret, frame, time_base) == Err::<
            Option<AVFrame>,
            FfmpegError,
        >(FfmpegError::Code(FfmpegErrorCode(ret))),
{
}

/// The default decoder options: no codec chosen, one thread, frame and slice
/// threading (raw value 3), no low delay and no hardware acceleration.
pub proof fn lemma_decoder_default_options()
    ensures
        DecoderOptions::spec_default().codec is None,
        DecoderOptions::spec_default().thread_count == 1,
        DecoderOptions::spec_default().thread_type.spec_raw() == 3,
        !DecoderOptions::spec_default().low_delay,
        DecoderOptions::spec_default().hardware_acceleration is None,
{
}

/// The codec a decoder runs: none without codec parameters, then the chosen codec
/// when one is chosen, the found one otherwise, and none when that is missing or
/// empty (a null handle).
pub proof fn lemma_decoder_codec_choice(ist: Stream, options: DecoderOptions, found_codec: Option<DecoderCodec>)
    ensures
        ({
            let r = Decoder::spec_selected(ist, options, found_codec);
            let wanted = match options.codec {
                Some(c) => Some(c),
                None => found_codec,
            };
            &&& ist.codec_parameters is None ==> r == Err::<DecoderCodec, FfmpegError>(FfmpegError::NoDecoder)
            &&& ist.codec_parameters is Some && (wanted is None || wanted->0.handle == 0) ==> r == Err::<
                DecoderCodec,
                FfmpegError,
            >(FfmpegError::NoDecoder)
            &&& ist.codec_parameters is Some && wanted is Some && wanted->0.handle != 0 ==> r == Ok::<
                DecoderCodec,
                FfmpegError,
            >(wanted->0)
        }),
{
}

/// Setting a decoder up succeeds exactly when every step does: the stream has codec
/// parameters, a non-empty codec is chosen or found, a context was allocated and the
/// parameters copied, the hardware device (when asked for) was created, the media is
/// video or audio and the codec opened. The decoder then runs the opened context with
/// the media type of the allocated one; a video decoder for video (media type 0), an
/// audio decoder for audio (media type 1).
pub proof fn lemma_decoder_setup(ist: Stream, options: DecoderOptions, outcome: DecoderSetupOutcome)
    ensures
        ({
            let r = Decoder::spec_with_options(ist, options, outcome);
            let codec = match options.codec {
                Some(c) => Some(c),
                None => outcome.found_codec,
            };
            let all_good = ist.codec_parameters is Some && codec is Some && codec->0.handle != 0
                && outcome.allocated is Some && outcome.params_ret >= 0 && !(options.hardware_acceleration is Some
                && outcome.hw_device_ret < 0) && (outcome.allocated->0.codec_type == 0
                || outcome.allocated->0.codec_type == 1) && outcome.open_ret >= 0;
            &&& r is Ok <==> all_good
            &&& all_good ==> r->Ok_0.codec_type == outcome.allocated->0.codec_type
            &&& all_good ==> r->Ok_0.width == outcome.opened.width && r->Ok_0.height == outcome.opened.height
                && r->Ok_0.pix_fmt == outcome.opened.pix_fmt && r->Ok_0.time_base == outcome.opened.time_base
                && r->Ok_0.sample_rate == outcome.opened.sample_rate
                && r->Ok_0.sample_fmt == outcome.opened.sample_fmt
                && r->Ok_0.hw_device_ctx == outcome.opened.hw_device_ctx
            &&& ist.codec_parameters is None ==> r == Err::<AVCodecContext, FfmpegError>(FfmpegError::NoDecoder)
            &&& ist.codec_parameters is Some && codec is Some && codec->0.handle != 0 && outcome.allocated is None
                ==> r == Err::<AVCodecContext, FfmpegError>(FfmpegError::Alloc)
        }),
{
}

/// A flush yields, in order, the frames received before the first receive call that
/// gave none, each with the decoder's time base; a first call that gives none yields
/// nothing, and an error before any call that gave none is that error.
pub proof fn lemma_flush_collects(received: Seq<(i32, AVFrame)>, time_base: AVRational)
    ensures
        received.len() == 0 ==> spec_collect(received, time_base) == Ok::<Seq<AVFrame>, FfmpegError>(
            Seq::empty(),
        ),
        received.len() > 0 && (received[0].0 == -11 || received[0].0 == -541478725) ==> spec_collect(
            received,
            time_base,
        ) == Ok::<Seq<AVFrame>, FfmpegError>(Seq::empty()),
        received.len() > 0 && received[0].0 < 0 && received[0].0 != -11 && received[0].0 != -541478725
            ==> spec_collect(received, time_base) == Err::<Seq<AVFrame>, FfmpegError>(
            FfmpegError::Code(FfmpegErrorCode(received[0].0)),
        ),
        spec_collect(received, time_base) matches Ok(frames) ==> frames.len() <= received.len()
            && forall|i: int|
            0 <= i < frames.len() ==> (#[trigger] frames[i]) == (AVFrame {
                time_base: if time_base.den == 0 {
                    AVRational { num: 0, den: 1 }
                } else {
                    time_base
                },
                ..received[i].1
            }),
    decreases received.len(),
{
    if received.len() > 0 {
        let rest = received.drop_first();
        lemma_flush_collects(rest, time_base);
        let tb = if time_base.den == 0 {
            AVRational { num: 0, den: 1 }
        } else {
            time_base
        };
        if received[0].0 >= 0 {
            let f = AVFrame { time_base: tb, ..received[0].1 };
            assert(spec_received(received[0].0, received[0].1, time_base) == Ok::<Option<AVFrame>, FfmpegError>(
                Some(f),
            ));
            match spec_collect(rest, time_base) {
                Ok(s2) => {
                    let frames = seq![f] + s2;
                    assert(spec_collect(received, time_base) == Ok::<Seq<AVFrame>, FfmpegError>(frames));
                    assert forall|i: int| 0 <= i < frames.len() implies (#[trigger] frames[i])
                        == (AVFrame { time_base: tb, ..received[i].1 }) by {
                        if i > 0 {
                            assert(rest[i - 1] == received[i]);
                            assert(frames[i] == s2[i - 1]);
                        }
                    }
                    assert(frames.len() <= received.len());
                },
                Err(_) => {},
            }
        } else {
            assert(spec_collect(received, time_base) matches Ok(fr) ==> fr.len() == 0);
        }
    }
}

/// A format is found in a negotiation list, looking from index `from`, exactly when
/// it sits at some index `j` at or after `from`, with no end marker
/// (`AV_PIX_FMT_NONE`) from `from` up to and including `j`.
pub proof fn lemma_listed_means(pix_fmts: Seq<i32>, fmt: i32, from: int)
    requires
        0 <= from,
    ensures
        spec_listed_from(pix_fmts, fmt, from) <==> exists|j: int|
            from <= j < pix_fmts.len() && #[trigger] pix_fmts[j] == fmt && forall|k: int|
                from <= k <= j ==> #[trigger] pix_fmts[k] != -1i32,
    decreases pix_fmts.len() - from,
{
    if from < pix_fmts.len() && pix_fmts[from] != -1i32 {
        lemma_listed_means(pix_fmts, fmt, from + 1);
        if pix_fmts[from] == fmt {
            assert(forall|k: int| from <= k <= from ==> #[trigger] pix_fmts[k] != -1i32);
        } else {
            if exists|j: int|
                from <= j < pix_fmts.len() && #[trigger] pix_fmts[j] == fmt && forall|k: int|
                    from <= k <= j ==> #[trigger] pix_fmts[k] != -1i32 {
                let j = choose|j: int|
                    from <= j < pix_fmts.len() && #[trigger] pix_fmts[j] == fmt && forall|k: int|
                        from <= k <= j ==> #[trigger] pix_fmts[k] != -1i32;
                assert(j > from);
                assert(forall|k: int| from + 1 <= k <= j ==> #[trigger] pix_fmts[k] != -1i32);
            }
            if spec_listed_from(pix_fmts, fmt, from + 1) {
                let j = choose|j: int|
                    from + 1 <= j < pix_fmts.len() && #[trigger] pix_fmts[j] == fmt && forall|k: int|
                        from + 1 <= k <= j ==> #[trigger] pix_fmts[k] != -1i32;
                assert(forall|k: int| from <= k <= j ==> #[trigger] pix_fmts[k] != -1i32) by {
                    assert forall|k: int| from <= k <= j implies #[trigger] pix_fmts[k] != -1i32 by {
                        if k > from {
                            assert(from + 1 <= k <= j);
                        }
                    }
                }
            }
        }
    } else {
        if exists|j: int|
            from <= j < pix_fmts.len() && #[trigger] pix_fmts[j] == fmt && forall|k: int|
                from <= k <= j ==> #[trigger] pix_fmts[k] != -1i32 {
            let j = choose|j: int|
                from <= j < pix_fmts.len() && #[trigger] pix_fmts[j] == fmt && forall|k: int|
                    from <= k <= j ==> #[trigger] pix_fmts[k] != -1i32;
            assert(pix_fmts[from] != -1i32);
        }
    }
}

} // verus!
