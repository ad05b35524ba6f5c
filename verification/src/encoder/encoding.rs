use vstd::prelude::*;

use crate::codec::EncoderCodec;
use crate::encoder::settings::{spec_apply, spec_settings_error, spec_settings_valid, EncoderSettings};
use crate::enums::{AVFormatFlags, AVMediaType};
use crate::error::{FfmpegError, FfmpegErrorCode, AVERROR_EAGAIN, AVERROR_EOF};
use crate::io::output::{Output, OutputFormat, MAX_STREAMS};
use crate::rational::{rescale_q, spec_rescale_q, AVRational, Rational};
use crate::utils::AV_NOPTS_VALUE;
use crate::raw::{AVChannelLayout, AVCodecContext, AVCodecParameters, AVPacket, BufferRef};
use crate::stream::Stream;

verus! {

/// `AV_CODEC_FLAG_GLOBAL_HEADER`: put global headers in extradata, not in every
/// keyframe.
pub const AV_CODEC_FLAG_GLOBAL_HEADER: i32 = 4194304;

/// `AV_CODEC_CAP_ENCODER_FLUSH`: the encoder can be flushed and reused.
pub const AV_CODEC_CAP_ENCODER_FLUSH: i32 = 2097152;

/// A packet's timestamps converted from time base `from` to time base `to`, as FFmpeg
/// converts them (`av_packet_rescale_ts`): each timestamp that is set, and a positive
/// duration, rescaled (see [`spec_rescale_q`]); the rest kept.
pub open spec fn spec_rescale_packet(p: AVPacket, from: AVRational, to: AVRational) -> AVPacket {
    AVPacket {
        pts: if p.pts == AV_NOPTS_VALUE {
            p.pts
        } else {
            spec_rescale_q(p.pts, from, to)
        },
        dts: if p.dts == AV_NOPTS_VALUE {
            p.dts
        } else {
            spec_rescale_q(p.dts, from, to)
        },
        duration: if p.duration > 0 {
            spec_rescale_q(p.duration, from, to)
        } else {
            p.duration
        },
        ..p
    }
}

/// Converts a packet's timestamps from time base `from` to time base `to`.
pub fn rescale_packet(p: AVPacket, from: AVRational, to: AVRational) -> (r: AVPacket)
    ensures
        r == spec_rescale_packet(p, from, to),
{
    let mut out = p;
    if p.pts != AV_NOPTS_VALUE {
        out.pts = rescale_q(p.pts, from, to);
    }
    if p.dts != AV_NOPTS_VALUE {
        out.dts = rescale_q(p.dts, from, to);
    }
    if p.duration > 0 {
        out.duration = rescale_q(p.duration, from, to);
    }
    out
}

/// A hardware device context handed to an encoder; the default is the null context.
#[derive(Clone, Copy, Debug, PartialEq, Eq, Structural)]
pub struct HwDeviceCtxPtr(pub BufferRef);

impl Default for HwDeviceCtxPtr {
    /// The null context.
    fn default() -> (r: HwDeviceCtxPtr)
        ensures
            r.0.0 == 0,
    {
        HwDeviceCtxPtr(BufferRef(0))
    }
}

impl HwDeviceCtxPtr {
    /// Wraps a device context.
    pub fn new(ptr: BufferRef) -> (r: HwDeviceCtxPtr)
        ensures
            r.0 == ptr,
    {
        HwDeviceCtxPtr(ptr)
    }

    /// Returns `true` for the null context.
    pub fn is_null(&self) -> (r: bool)
        ensures
            r == (self.0.0 == 0),
    {
        self.0.is_null()
    }
}

/// What FFmpeg reported while an encoder was set up: the context allocated for the
/// codec, with the codec's defaults (`None` when allocation failed), the return code
/// of opening the codec, the context as read back once opened (opening sets values
/// of its own, such as the time base an encoder may change or the priming samples of
/// an audio encoder), and the return code of copying the context's parameters to the
/// stream.
#[derive(Clone, Copy, Debug, PartialEq, Eq)]
pub struct EncoderSetupOutcome {
    /// The context allocated for the codec.
    pub allocated: Option<AVCodecContext>,
    /// The return code of opening the codec.
    pub open_ret: i32,
    /// The context after opening.
    pub opened: AVCodecContext,
    /// The return code of copying the parameters to the stream.
    pub params_ret: i32,
}

/// The codec parameters of a freshly reset parameter set: unknown media type, no
/// codec, no format, no size, no rate, no layout.
pub open spec fn spec_parameters_defaults() -> AVCodecParameters {
    AVCodecParameters {
        codec_type: -1i32,
        codec_id: 0,
        format: -1i32,
        bit_rate: 0,
        width: 0,
        height: 0,
        sample_aspect_ratio: AVRational { num: 0, den: 1 },
        framerate: AVRational { num: 0, den: 1 },
        color_range: 0,
        sample_rate: 0,
        ch_layout: AVChannelLayout::spec_zeroed(),
    }
}

/// The codec parameters read from a codec context (`avcodec_parameters_from_context`):
/// the media type, codec id and bit rate; for video the pixel format, size, sample
/// aspect ratio, frame rate and color range; for audio the sample format, sample rate
/// and channel layout.
pub open spec fn spec_context_to_parameters(ctx: AVCodecContext) -> AVCodecParameters {
    let base = AVCodecParameters {
        codec_type: ctx.codec_type,
        codec_id: ctx.codec_id,
        bit_rate: ctx.bit_rate,
        ..spec_parameters_defaults()
    };
    if ctx.codec_type == AVMediaType::Video.spec_raw() {
        AVCodecParameters {
            format: ctx.pix_fmt,
            width: ctx.width,
            height: ctx.height,
            sample_aspect_ratio: ctx.sample_aspect_ratio,
            framerate: ctx.framerate,
            color_range: ctx.color_range,
            ..base
        }
    } else if ctx.codec_type == AVMediaType::Audio.spec_raw() {
        AVCodecParameters {
            format: ctx.sample_fmt,
            sample_rate: ctx.sample_rate,
            ch_layout: ctx.ch_layout,
            ..base
        }
    } else {
        base
    }
}

/// Reads the codec parameters from a codec context.
pub fn context_to_parameters(ctx: &AVCodecContext) -> (r: AVCodecParameters)
    ensures
        r == spec_context_to_parameters(*ctx),
{
    let mut par = AVCodecParameters {
        codec_type: ctx.codec_type,
        codec_id: ctx.codec_id,
        format: -1,
        bit_rate: ctx.bit_rate,
        width: 0,
        height: 0,
        sample_aspect_ratio: AVRational { num: 0, den: 1 },
        framerate: AVRational { num: 0, den: 1 },
        color_range: 0,
        sample_rate: 0,
        ch_layout: AVChannelLayout::zeroed(),
    };
    if ctx.codec_type == AVMediaType::Video.raw() {
        par.format = ctx.pix_fmt;
        par.width = ctx.width;
        par.height = ctx.height;
        par.sample_aspect_ratio = ctx.sample_aspect_ratio;
        par.framerate = ctx.framerate;
        par.color_range = ctx.color_range;
    } else if ctx.codec_type == AVMediaType::Audio.raw() {
        par.format = ctx.sample_fmt;
        par.sample_rate = ctx.sample_rate;
        par.ch_layout = ctx.ch_layout;
    }
    par
}

/// Whether the container format wants global headers.
pub open spec fn spec_global_header(oformat: Option<OutputFormat>) -> bool {
    match oformat {
        Some(f) => f.flags & AVFormatFlags::GlobalHeader != 0,
        None => false,
    }
}

/// The context an encoder is opened with: the allocated context with the incoming
/// time base, the settings applied, the hardware contexts given, and the global
/// header flag when the container wants global headers.
pub open spec fn spec_encoder_context(
    allocated: AVCodecContext,
    incoming_time_base: Rational,
    settings: &EncoderSettings,
    hw_device_ctx: Option<BufferRef>,
    hw_frames_ctx: Option<BufferRef>,
    global_header: bool,
) -> AVCodecContext {
    let c1 = AVCodecContext { time_base: incoming_time_base.spec_to_av(), ..allocated };
    let c2 = spec_apply(settings, c1);
    let c3 = match hw_device_ctx {
        Some(h) => AVCodecContext { hw_device_ctx: h, ..c2 },
        None => c2,
    };
    let c4 = match hw_frames_ctx {
        Some(h) => AVCodecContext { hw_frames_ctx: h, ..c3 },
        None => c3,
    };
    if global_header {
        AVCodecContext { flags: c4.flags | AV_CODEC_FLAG_GLOBAL_HEADER, ..c4 }
    } else {
        c4
    }
}

/// An encoder, attached to a stream of an output.
pub struct Encoder {
    incoming_time_base: Rational,
    outgoing_time_base: Rational,
    encoder: AVCodecContext,
    stream_index: i32,
    previous_dts: i64,
}

impl View for Encoder {
    type V = AVCodecContext;

    closed spec fn view(&self) -> AVCodecContext {
        self.encoder
    }
}

impl Encoder {
    /// The time base of the frames sent to the encoder.
    pub closed spec fn spec_incoming_time_base(&self) -> Rational {
        self.incoming_time_base
    }

    /// The time base of the packets the encoder hands out.
    pub closed spec fn spec_outgoing_time_base(&self) -> Rational {
        self.outgoing_time_base
    }

    /// The index of the encoder's stream in its output.
    pub closed spec fn spec_stream_index(&self) -> i32 {
        self.stream_index
    }

    /// Creates an encoder writing to a new stream of `output`.
    pub fn new<T>(
        codec: EncoderCodec,
        output: &mut Output<T>,
        incoming_time_base: Rational,
        outgoing_time_base: Rational,
        settings: EncoderSettings,
        outcome: EncoderSetupOutcome,
    ) -> (r: Result<Encoder, FfmpegError>)
        requires
            old(output).wf(),
        ensures
            final(output).wf(),
            Encoder::spec_created(
                r,
                codec,
                *old(output),
                *final(output),
                incoming_time_base,
                outgoing_time_base,
                &settings,
                None,
                None,
                outcome,
            ),
    {
        Self::new_inner(codec, output, incoming_time_base, outgoing_time_base, settings, None, None, outcome)
    }

    /// Creates an encoder writing to a new stream of `output`, with a hardware device
    /// context set before the codec is opened.
    pub fn new_with_hw_device<T>(
        codec: EncoderCodec,
        output: &mut Output<T>,
        incoming_time_base: Rational,
        outgoing_time_base: Rational,
        settings: EncoderSettings,
        hw_device_ctx: BufferRef,
        outcome: EncoderSetupOutcome,
    ) -> (r: Result<Encoder, FfmpegError>)
        requires
            old(output).wf(),
        ensures
            final(output).wf(),
            Encoder::spec_created(
                r,
                codec,
                *old(output),
                *final(output),
                incoming_time_base,
                outgoing_time_base,
                &settings,
                Some(hw_device_ctx),
                None,
                outcome,
            ),
    {
        Self::new_inner(
            codec,
            output,
            incoming_time_base,
            outgoing_time_base,
            settings,
            Some(hw_device_ctx),
            None,
            outcome,
        )
    }

    /// Creates an encoder writing to a new stream of `output`, with hardware device and
    /// frames contexts set before the codec is opened.
    pub fn new_with_hw_contexts<T>(
        codec: EncoderCodec,
        output: &mut Output<T>,
        incoming_time_base: Rational,
        outgoing_time_base: Rational,
        settings: EncoderSettings,
        hw_device_ctx: BufferRef,
        hw_frames_ctx: BufferRef,
        outcome: EncoderSetupOutcome,
    ) -> (r: Result<Encoder, FfmpegError>)
        requires
            old(output).wf(),
        ensures
            final(output).wf(),
            Encoder::spec_created(
                r,
                codec,
                *old(output),
                *final(output),
                incoming_time_base,
                outgoing_time_base,
                &settings,
                Some(hw_device_ctx),
                Some(hw_frames_ctx),
                outcome,
            ),
    {
        Self::new_inner(
            codec,
            output,
            incoming_time_base,
            outgoing_time_base,
            settings,
            Some(hw_device_ctx),
            Some(hw_frames_ctx),
            outcome,
        )
    }

    /// Whether `r`, with `before` and `after` the output before and after, is what
    /// creating an encoder gives: `NoEncoder` for the empty codec, `Alloc` when no
    /// context was allocated, `NoStream` when the output takes no more streams (the
    /// output unchanged in these cases); otherwise a new stream is added, and the
    /// result is the settings' error when they are incomplete, the error of opening
    /// the codec or of copying the parameters, or the encoder, whose stream then holds
    /// the context's parameters and the outgoing time base.
    pub open spec fn spec_created<T>(
        r: Result<Encoder, FfmpegError>,
        codec: EncoderCodec,
        before: Output<T>,
        after: Output<T>,
        incoming_time_base: Rational,
        outgoing_time_base: Rational,
        settings: &EncoderSettings,
        hw_device_ctx: Option<BufferRef>,
        hw_frames_ctx: Option<BufferRef>,
        outcome: EncoderSetupOutcome,
    ) -> bool {
        let n = before.spec_streams().len();
        let added = before.spec_streams().push(Output::<T>::spec_new_stream(n as int, None));
        &&& after.spec_state() == before.spec_state()
        &&& after.spec_oformat() == before.spec_oformat()
        &&& after.spec_data() == before.spec_data()
        &&& if codec.handle == 0 {
            r == Err::<Encoder, FfmpegError>(FfmpegError::NoEncoder) && after.spec_streams()
                == before.spec_streams()
        } else if outcome.allocated is None {
            r == Err::<Encoder, FfmpegError>(FfmpegError::Alloc) && after.spec_streams()
                == before.spec_streams()
        } else if n >= MAX_STREAMS {
            r == Err::<Encoder, FfmpegError>(FfmpegError::NoStream) && after.spec_streams()
                == before.spec_streams()
        } else if !spec_settings_valid(settings) {
            (r matches Err(FfmpegError::Arguments(m)) && m@ == spec_settings_error(settings))
                && after.spec_streams() == added
        } else if outcome.open_ret < 0 {
            r == Err::<Encoder, FfmpegError>(FfmpegError::Code(FfmpegErrorCode(outcome.open_ret)))
                && after.spec_streams() == added
        } else if outcome.params_ret < 0 {
            r == Err::<Encoder, FfmpegError>(FfmpegError::Code(FfmpegErrorCode(outcome.params_ret)))
                && after.spec_streams() == added
        } else {
            let ctx = outcome.opened;
            &&& r matches Ok(e)
            &&& e@ == ctx
            &&& e.spec_incoming_time_base() == Rational::spec_from_av(ctx.time_base)
            &&& e.spec_outgoing_time_base() == outgoing_time_base
            &&& e.spec_stream_index() == n
            &&& after.spec_streams() == before.spec_streams().push(
                Stream {
                    codec_parameters: Some(spec_context_to_parameters(ctx)),
                    time_base: outgoing_time_base,
                    ..Output::<T>::spec_new_stream(n as int, None)
                },
            )
        }
    }

    /// Whether `r`, with `before` and `after` the output before and after, is what the
    /// first half of creating an encoder gives: `NoEncoder` for the empty codec,
    /// `Alloc` when no context was allocated, `NoStream` when the output takes no more
    /// streams (the output unchanged in these cases); otherwise a new stream is added,
    /// and the result is the settings' error when they are incomplete, or the context
    /// to open with the index of the new stream.
    pub open spec fn spec_configured<T>(
        r: Result<(AVCodecContext, usize), FfmpegError>,
        codec: EncoderCodec,
        before: Output<T>,
        after: Output<T>,
        incoming_time_base: Rational,
        settings: &EncoderSettings,
        hw_device_ctx: Option<BufferRef>,
        hw_frames_ctx: Option<BufferRef>,
        allocated: Option<AVCodecContext>,
    ) -> bool {
        let n = before.spec_streams().len();
        let added = before.spec_streams().push(Output::<T>::spec_new_stream(n as int, None));
        &&& after.spec_state() == before.spec_state()
        &&& after.spec_oformat() == before.spec_oformat()
        &&& after.spec_data() == before.spec_data()
        &&& if codec.handle == 0 {
            r == Err::<(AVCodecContext, usize), FfmpegError>(FfmpegError::NoEncoder)
                && after.spec_streams() == before.spec_streams()
        } else if allocated is None {
            r == Err::<(AVCodecContext, usize), FfmpegError>(FfmpegError::Alloc)
                && after.spec_streams() == before.spec_streams()
        } else if n >= MAX_STREAMS {
            r == Err::<(AVCodecContext, usize), FfmpegError>(FfmpegError::NoStream)
                && after.spec_streams() == before.spec_streams()
        } else if !spec_settings_valid(settings) {
            (r matches Err(FfmpegError::Arguments(m)) && m@ == spec_settings_error(settings))
                && after.spec_streams() == added
        } else {
            r == Ok::<(AVCodecContext, usize), FfmpegError>(
                (
                    spec_encoder_context(
                        allocated->0,
                        incoming_time_base,
                        settings,
                        hw_device_ctx,
                        hw_frames_ctx,
                        spec_global_header(before.spec_oformat()),
                    ),
                    n as usize,
                ),
            ) && after.spec_streams() == added
        }
    }

    /// The first half of creating an encoder, before the codec is opened: checks the
    /// codec and the allocated context, adds a stream to `output`, and configures the
    /// context with the incoming time base, the settings, the hardware contexts and
    /// the global header flag the container asks for. Returns the context to open and
    /// the index of the new stream.
    pub fn configure<T>(
        codec: EncoderCodec,
        output: &mut Output<T>,
        incoming_time_base: Rational,
        settings: EncoderSettings,
        hw_device_ctx: Option<BufferRef>,
        hw_frames_ctx: Option<BufferRef>,
        allocated: Option<AVCodecContext>,
    ) -> (r: Result<(AVCodecContext, usize), FfmpegError>)
        requires
            old(output).wf(),
        ensures
            final(output).wf(),
            Encoder::spec_configured(
                r,
                codec,
                *old(output),
                *final(output),
                incoming_time_base,
                &settings,
                hw_device_ctx,
                hw_frames_ctx,
                allocated,
            ),
    {
        if codec.is_empty() {
            return Err(FfmpegError::NoEncoder);
        }
        let global_header = match output.output_flags() {
            Some(flags) => flags.contains(AVFormatFlags::GlobalHeader),
            None => false,
        };
        let mut ctx = match allocated {
            Some(c) => c,
            None => {
                return Err(FfmpegError::Alloc);
            },
        };
        let ost = match output.add_stream() {
            Some(i) => i,
            None => {
                return Err(FfmpegError::NoStream);
            },
        };
        ctx.time_base = incoming_time_base.to_av();
        match settings.apply(&mut ctx) {
            Ok(()) => {},
            Err(e) => {
                return Err(e);
            },
        }
        match hw_device_ctx {
            Some(h) => {
                ctx.hw_device_ctx = h;
            },
            None => {},
        }
        match hw_frames_ctx {
            Some(h) => {
                ctx.hw_frames_ctx = h;
            },
            None => {},
        }
        if global_header {
            ctx.flags = ctx.flags | AV_CODEC_FLAG_GLOBAL_HEADER;
        }
        proof {
            assert(global_header == spec_global_header(old(output).spec_oformat()));
        }
        Ok((ctx, ost))
    }

    /// The second half of creating an encoder, once the configured context was
    /// opened: `open_ret` is the return code of opening it, `opened` the context as
    /// read back after opening, `params_ret` the return code of copying its parameters
    /// to stream `stream_index` of `output`. Fails with the first error code;
    /// otherwise the stream gets the opened context's parameters and the outgoing time
    /// base, and the encoder runs the opened context, whose time base is its incoming
    /// time base.
    pub fn finish<T>(
        output: &mut Output<T>,
        stream_index: usize,
        outgoing_time_base: Rational,
        open_ret: i32,
        opened: AVCodecContext,
        params_ret: i32,
    ) -> (r: Result<Encoder, FfmpegError>)
        requires
            old(output).wf(),
            stream_index < old(output).spec_streams().len(),
        ensures
            final(output).wf(),
            final(output).spec_state() == old(output).spec_state(),
            final(output).spec_oformat() == old(output).spec_oformat(),
            final(output).spec_data() == old(output).spec_data(),
            open_ret < 0 ==> r == Err::<Encoder, FfmpegError>(FfmpegError::Code(FfmpegErrorCode(open_ret)))
                && final(output).spec_streams() == old(output).spec_streams(),
            open_ret >= 0 && params_ret < 0 ==> r == Err::<Encoder, FfmpegError>(
                FfmpegError::Code(FfmpegErrorCode(params_ret)),
            ) && final(output).spec_streams() == old(output).spec_streams(),
            open_ret >= 0 && params_ret >= 0 ==> ({
                &&& r matches Ok(e)
                &&& e@ == opened
                &&& e.spec_incoming_time_base() == Rational::spec_from_av(opened.time_base)
                &&& e.spec_outgoing_time_base() == outgoing_time_base
                &&& e.spec_stream_index() == stream_index
                &&& final(output).spec_streams() == old(output).spec_streams().update(
                    stream_index as int,
                    Stream {
                        codec_parameters: Some(spec_context_to_parameters(opened)),
                        time_base: outgoing_time_base,
                        ..old(output).spec_streams()[stream_index as int]
                    },
                )
            }),
    {
        if open_ret < 0 {
            return Err(FfmpegError::Code(FfmpegErrorCode(open_ret)));
        }
        let incoming = Rational::from_av(opened.time_base);
        if params_ret < 0 {
            return Err(FfmpegError::Code(FfmpegErrorCode(params_ret)));
        }
        let par = context_to_parameters(&opened);
        let stream = output.streams()[stream_index];
        output.set_stream_parameters(stream_index, par);
        output.set_stream_times(stream_index, outgoing_time_base, stream.start_time, stream.duration);
        proof {
            assert(output.spec_streams() =~= old(output).spec_streams().update(
                stream_index as int,
                Stream {
                    codec_parameters: Some(spec_context_to_parameters(opened)),
                    time_base: outgoing_time_base,
                    ..old(output).spec_streams()[stream_index as int]
                },
            ));
        }
        Ok(
            Encoder {
                incoming_time_base: incoming,
                outgoing_time_base,
                encoder: opened,
                stream_index: stream_index as i32,
                previous_dts: i64::MIN,
            },
        )
    }

    fn new_inner<T>(
        codec: EncoderCodec,
        output: &mut Output<T>,
        incoming_time_base: Rational,
        outgoing_time_base: Rational,
        settings: EncoderSettings,
        hw_device_ctx: Option<BufferRef>,
        hw_frames_ctx: Option<BufferRef>,
        outcome: EncoderSetupOutcome,
    ) -> (r: Result<Encoder, FfmpegError>)
        requires
            old(output).wf(),
        ensures
            final(output).wf(),
            Encoder::spec_created(
                r,
                codec,
                *old(output),
                *final(output),
                incoming_time_base,
                outgoing_time_base,
                &settings,
                hw_device_ctx,
                hw_frames_ctx,
                outcome,
            ),
    {
        let ghost settings_before = settings;
        let (_configured, ost) = match Self::configure(
            codec,
            output,
            incoming_time_base,
            settings,
            hw_device_ctx,
            hw_frames_ctx,
            outcome.allocated,
        ) {
            Ok(c) => c,
            Err(e) => {
                return Err(e);
            },
        };
        let ghost mid = output.spec_streams();
        let r = Self::finish(output, ost, outgoing_time_base, outcome.open_ret, outcome.opened, outcome.params_ret);
        proof {
            let n = old(output).spec_streams().len();
            if outcome.open_ret >= 0 && outcome.params_ret >= 0 {
                let opened = outcome.opened;
                let expected = Stream {
                    codec_parameters: Some(spec_context_to_parameters(opened)),
                    time_base: outgoing_time_base,
                    ..Output::<T>::spec_new_stream(n as int, None)
                };
                assert(output.spec_streams() =~= old(output).spec_streams().push(expected));
            }
        }
        r
    }

    /// The decoding timestamp of the last packet handed out; `i64::MIN` before the
    /// first.
    pub closed spec fn spec_previous_dts(&self) -> i64 {
        self.previous_dts
    }

    /// Turns the result of one receive call (`avcodec_receive_packet`) into what the
    /// encoder hands out: `ret` is its return code and `packet` the packet it filled,
    /// in the incoming time base. Gives `None` when no packet is available now or any
    /// more, the error for another negative code; otherwise the packet converted to
    /// the outgoing time base (see [`spec_rescale_packet`]) and tagged with the
    /// encoder's stream, remembering its decoding timestamp before the conversion.
    pub fn receive_packet(&mut self, ret: i32, packet: AVPacket) -> (r: Result<Option<AVPacket>, FfmpegError>)
        ensures
            (ret == AVERROR_EAGAIN || ret == AVERROR_EOF) ==> r == Ok::<Option<AVPacket>, FfmpegError>(
                None,
            ) && final(self).spec_previous_dts() == old(self).spec_previous_dts(),
            ret >= 0 ==> r == Ok::<Option<AVPacket>, FfmpegError>(
                Some(
                    AVPacket {
                        stream_index: old(self).spec_stream_index(),
                        ..spec_rescale_packet(
                            packet,
                            old(self).spec_incoming_time_base().spec_to_av(),
                            old(self).spec_outgoing_time_base().spec_to_av(),
                        )
                    },
                ),
            ) && final(self).spec_previous_dts() == packet.dts,
            (ret < 0 && ret != AVERROR_EAGAIN && ret != AVERROR_EOF) ==> r == Err::<
                Option<AVPacket>,
                FfmpegError,
            >(FfmpegError::Code(FfmpegErrorCode(ret))) && final(self).spec_previous_dts() == old(
                self,
            ).spec_previous_dts(),
            final(self)@ == old(self)@,
            final(self).spec_stream_index() == old(self).spec_stream_index(),
            final(self).spec_incoming_time_base() == old(self).spec_incoming_time_base(),
            final(self).spec_outgoing_time_base() == old(self).spec_outgoing_time_base(),
    {
        if ret == AVERROR_EAGAIN || ret == AVERROR_EOF {
            Ok(None)
        } else if ret >= 0 {
            self.previous_dts = packet.dts;
            let rescaled = rescale_packet(packet, self.incoming_time_base.to_av(), self.outgoing_time_base.to_av());
            Ok(Some(AVPacket { stream_index: self.stream_index, ..rescaled }))
        } else {
            Err(FfmpegError::Code(FfmpegErrorCode(ret)))
        }
    }

    /// Returns `true` when the encoder can be flushed and reused, where
    /// `codec_capabilities` are the capability flags of its codec (`AVCodec`):
    /// `AV_CODEC_CAP_ENCODER_FLUSH` is among them.
    pub fn has_flush_capability(&self, codec_capabilities: i32) -> (r: bool)
        ensures
            r == (codec_capabilities & AV_CODEC_CAP_ENCODER_FLUSH != 0),
    {
        codec_capabilities & AV_CODEC_CAP_ENCODER_FLUSH != 0
    }

    /// Returns the index of the encoder's stream in its output.
    pub fn stream_index(&self) -> (r: i32)
        ensures
            r == self.spec_stream_index(),
    {
        self.stream_index
    }

    /// Returns the time base of the frames sent to the encoder.
    pub fn incoming_time_base(&self) -> (r: Rational)
        ensures
            r == self.spec_incoming_time_base(),
    {
        self.incoming_time_base
    }

    /// Returns the time base of the packets the encoder hands out.
    pub fn outgoing_time_base(&self) -> (r: Rational)
        ensures
            r == self.spec_outgoing_time_base(),
    {
        self.outgoing_time_base
    }

    /// Returns the values of the encoder's context.
    pub fn codec_context(&self) -> (r: AVCodecContext)
        ensures
            r == self@,
    {
        self.encoder
    }

    /// Returns the number of priming samples an audio encoder inserts at the start, as
    /// opening the codec set it.
    pub fn initial_padding(&self) -> (r: i32)
        ensures
            r == self@.initial_padding,
    {
        self.encoder.initial_padding
    }
}

/// What a stream learns of an encoder's context (`avcodec_parameters_from_context`):
/// its media type, codec id and bit rate always; for video (media type 0) the pixel
/// format as format, the size, sample aspect ratio, frame rate and color range, with
/// no sample rate or channels; for audio (media type 1) the sample format as format,
/// the sample rate and channel layout, with no size; for other media nothing more,
/// the format being unset (-1).
pub proof fn lemma_parameters_follow_the_context(ctx: AVCodecContext)
    ensures
        ({
            let p = spec_context_to_parameters(ctx);
            &&& p.codec_type == ctx.codec_type && p.codec_id == ctx.codec_id && p.bit_rate == ctx.bit_rate
            &&& ctx.codec_type == 0 ==> {
                &&& p.format == ctx.pix_fmt && p.width == ctx.width && p.height == ctx.height
                &&& p.sample_aspect_ratio == ctx.sample_aspect_ratio && p.framerate == ctx.framerate
                &&& p.color_range == ctx.color_range
                &&& p.sample_rate == 0 && p.ch_layout.nb_channels == 0
            }
            &&& ctx.codec_type == 1 ==> {
                &&& p.format == ctx.sample_fmt && p.sample_rate == ctx.sample_rate
                &&& p.ch_layout == ctx.ch_layout
                &&& p.width == 0 && p.height == 0
            }
            &&& ctx.codec_type != 0 && ctx.codec_type != 1 ==> {
                &&& p.format == -1 && p.width == 0 && p.height == 0 && p.sample_rate == 0
            }
        }),
{
}

/// Converting a timestamp between two equal time bases with a positive numerator and
/// denominator gives it back (save `i64::MIN`, which reads as `-i64::MAX`); doubling
/// the denominator of the target time base doubles it, when that fits; and halves
/// round away from zero (`a + 1/2` seconds in whole seconds is `a + 1`, and its
/// negation `-(a + 1)`).
pub proof fn lemma_rescale_laws(a: i64, tb: AVRational)
    requires
        tb.num > 0,
        tb.den > 0,
    ensures
        a != i64::MIN ==> spec_rescale_q(a, tb, tb) == a,
        0 <= a <= 0x3fff_ffff_ffff_ffff ==> spec_rescale_q(a, AVRational { num: 1, den: 1 }, AVRational {
            num: 1,
            den: 2,
        }) == 2 * a,
        0 <= a <= 0x3fff_ffff_ffff_ffff ==> spec_rescale_q((2 * a + 1) as i64, AVRational { num: 1, den: 2 }, AVRational {
            num: 1,
            den: 1,
        }) == a + 1 && spec_rescale_q((-(2 * a + 1)) as i64, AVRational { num: 1, den: 2 }, AVRational {
            num: 1,
            den: 1,
        }) == -(a + 1),
{
    let b = tb.num * tb.den;
    assert(b > 0) by (nonlinear_arith)
        requires
            tb.num > 0,
            tb.den > 0,
            b == tb.num * tb.den,
    ;
    if a != i64::MIN {
        let m: int = if a < 0 { -a } else { a as int };
        assert((m * b + b / 2) / b == m) by (nonlinear_arith)
            requires
                b > 0,
                m >= 0,
        {
            vstd::arithmetic::div_mod::lemma_div_plus_one(m, b);
            assert(0 <= b / 2 < b);
            vstd::arithmetic::div_mod::lemma_fundamental_div_mod_converse(m * b + b / 2, b, m, b / 2);
        }
    }
}

/// Converting a packet between time bases keeps its stream, keeps unset timestamps
/// unset, and keeps a duration that is not positive.
pub proof fn lemma_packet_rescale_keeps(p: AVPacket, from: AVRational, to: AVRational)
    ensures
        spec_rescale_packet(p, from, to).stream_index == p.stream_index,
        p.pts == AV_NOPTS_VALUE ==> spec_rescale_packet(p, from, to).pts == AV_NOPTS_VALUE,
        p.dts == AV_NOPTS_VALUE ==> spec_rescale_packet(p, from, to).dts == AV_NOPTS_VALUE,
        p.duration <= 0 ==> spec_rescale_packet(p, from, to).duration == p.duration,
        p.pts != AV_NOPTS_VALUE ==> spec_rescale_packet(p, from, to).pts == spec_rescale_q(p.pts, from, to),
        p.dts != AV_NOPTS_VALUE ==> spec_rescale_packet(p, from, to).dts == spec_rescale_q(p.dts, from, to),
{
}

/// What creating an encoder gives: the empty codec is `NoEncoder`, a missing context
/// `Alloc` and a full output `NoStream`, the output's streams then unchanged; in every
/// other case the output gains one stream. An encoder is only made when the codec,
/// the context, the settings, the opening and the copy of the parameters are all
/// good: it then runs the opened context, its stream is the new last stream of the
/// output, numbered after the others, holding the opened context's parameters and
/// the outgoing time base, and the streams before it stay.
pub proof fn lemma_encoder_created<T>(
    r: Result<Encoder, FfmpegError>,
    codec: EncoderCodec,
    before: Output<T>,
    after: Output<T>,
    incoming_time_base: Rational,
    outgoing_time_base: Rational,
    settings: &EncoderSettings,
    hw_device_ctx: Option<BufferRef>,
    hw_frames_ctx: Option<BufferRef>,
    outcome: EncoderSetupOutcome,
)
    requires
        Encoder::spec_created(
            r,
            codec,
            before,
            after,
            incoming_time_base,
            outgoing_time_base,
            settings,
            hw_device_ctx,
            hw_frames_ctx,
            outcome,
        ),
    ensures
        codec.handle == 0 ==> r == Err::<Encoder, FfmpegError>(FfmpegError::NoEncoder),
        codec.handle != 0 && outcome.allocated is None ==> r == Err::<Encoder, FfmpegError>(FfmpegError::Alloc),
        (codec.handle == 0 || outcome.allocated is None || before.spec_streams().len() >= MAX_STREAMS)
            ==> after.spec_streams() == before.spec_streams(),
        !(codec.handle == 0 || outcome.allocated is None || before.spec_streams().len() >= MAX_STREAMS)
            ==> after.spec_streams().len() == before.spec_streams().len() + 1,
        after.spec_state() == before.spec_state(),
        r matches Ok(e) ==> {
            let n = before.spec_streams().len();
            &&& codec.handle != 0 && outcome.allocated is Some && spec_settings_valid(settings)
            &&& outcome.open_ret >= 0 && outcome.params_ret >= 0
            &&& e@ == outcome.opened
            &&& e.spec_stream_index() == n
            &&& e.spec_outgoing_time_base() == outgoing_time_base
            &&& after.spec_streams().len() == n + 1
            &&& after.spec_streams()[n as int].index == n && after.spec_streams()[n as int].id == n
            &&& after.spec_streams()[n as int].codec_parameters == Some(spec_context_to_parameters(outcome.opened))
            &&& after.spec_streams()[n as int].time_base == outgoing_time_base
            &&& forall|i: int| 0 <= i < n ==> #[trigger] after.spec_streams()[i] == before.spec_streams()[i]
        },
{
}

/// The context an encoder is opened with: its time base is the incoming one, its
/// media type and codec id are the allocated context's, the hardware contexts given
/// are set (the allocated ones kept otherwise), the settings' own values are set (the
/// size and pixel format for video, the sample rate, format and layout for audio),
/// and the global header flag (bit 22) is set when the container asks for global
/// headers (bit 6 of its flags).
pub proof fn lemma_encoder_context(
    allocated: AVCodecContext,
    incoming_time_base: Rational,
    settings: &EncoderSettings,
    hw_device_ctx: Option<BufferRef>,
    hw_frames_ctx: Option<BufferRef>,
    oformat: Option<OutputFormat>,
)
    ensures
        ({
            let c = spec_encoder_context(
                allocated,
                incoming_time_base,
                settings,
                hw_device_ctx,
                hw_frames_ctx,
                spec_global_header(oformat),
            );
            &&& c.time_base == (AVRational { num: incoming_time_base.numerator, den: incoming_time_base.denominator })
            &&& c.codec_type == allocated.codec_type && c.codec_id == allocated.codec_id
            &&& c.hw_device_ctx == (match hw_device_ctx { Some(h) => h, None => allocated.hw_device_ctx })
            &&& c.hw_frames_ctx == (match hw_frames_ctx { Some(h) => h, None => allocated.hw_frames_ctx })
            &&& (settings matches EncoderSettings::Video(v) ==> c.width == v.width && c.height == v.height
                && c.pix_fmt == v.pixel_format.spec_raw())
            &&& (settings matches EncoderSettings::Audio(a) ==> c.sample_rate == a.sample_rate
                && c.sample_fmt == a.sample_fmt.spec_raw() && c.ch_layout == a.ch_layout@)
            &&& (oformat matches Some(f) && f.flags & 64 != 0) ==> c.flags & 4194304 != 0
        }),
{
    let c = spec_encoder_context(
        allocated,
        incoming_time_base,
        settings,
        hw_device_ctx,
        hw_frames_ctx,
        spec_global_header(oformat),
    );
    if spec_global_header(oformat) {
        assert(forall|y: i32| #[trigger] (y | 4194304i32) & 4194304i32 != 0) by (bit_vector);
    }
}

/// The first half of creating an encoder: the empty codec, a missing context and a
/// full output are refused with the output's streams unchanged; otherwise a stream
/// is added at the end, numbered after the others, and, when the settings are
/// complete, the context to open is the one [`spec_encoder_context`] describes, for
/// that new stream.
pub proof fn lemma_encoder_configured<T>(
    r: Result<(AVCodecContext, usize), FfmpegError>,
    codec: EncoderCodec,
    before: Output<T>,
    after: Output<T>,
    incoming_time_base: Rational,
    settings: &EncoderSettings,
    hw_device_ctx: Option<BufferRef>,
    hw_frames_ctx: Option<BufferRef>,
    allocated: Option<AVCodecContext>,
)
    requires
        Encoder::spec_configured(
            r,
            codec,
            before,
            after,
            incoming_time_base,
            settings,
            hw_device_ctx,
            hw_frames_ctx,
            allocated,
        ),
    ensures
        codec.handle == 0 ==> r == Err::<(AVCodecContext, usize), FfmpegError>(FfmpegError::NoEncoder),
        codec.handle != 0 && allocated is None ==> r == Err::<(AVCodecContext, usize), FfmpegError>(
            FfmpegError::Alloc,
        ),
        (codec.handle == 0 || allocated is None || before.spec_streams().len() >= MAX_STREAMS)
            ==> after.spec_streams() == before.spec_streams() && r is Err,
        !(codec.handle == 0 || allocated is None || before.spec_streams().len() >= MAX_STREAMS) ==> {
            let n = before.spec_streams().len();
            &&& after.spec_streams().len() == n + 1
            &&& after.spec_streams()[n as int].index == n && after.spec_streams()[n as int].codec_parameters is None
            &&& forall|i: int| 0 <= i < n ==> #[trigger] after.spec_streams()[i] == before.spec_streams()[i]
            &&& (r is Ok <==> spec_settings_valid(settings))
            &&& r matches Ok(p) ==> p.1 == n && p.0 == spec_encoder_context(
                allocated->0,
                incoming_time_base,
                settings,
                hw_device_ctx,
                hw_frames_ctx,
                spec_global_header(before.spec_oformat()),
            )
        },
{
}

} // verus!
