use vstd::prelude::*;

use crate::rational::AVRational;

verus! {

/// A reference to an FFmpeg buffer (`AVBufferRef`), held as an opaque handle; zero is
/// the null reference.
#[derive(Clone, Copy, Debug, PartialEq, Eq, Structural)]
pub struct BufferRef(pub usize);

impl BufferRef {
    /// The null reference.
    pub fn null() -> (r: BufferRef)
        ensures
            r.0 == 0,
    {
        BufferRef(0)
    }

    /// Returns `true` for the null reference.
    pub fn is_null(&self) -> (r: bool)
        ensures
            r == (self.0 == 0),
    {
        self.0 == 0
    }
}

/// The values of an FFmpeg channel layout (`AVChannelLayout`): its order, its number
/// of channels and, for the native order, the mask of the channels it holds.
#[derive(Clone, Copy, Debug, PartialEq, Eq, Structural)]
pub struct AVChannelLayout {
    /// The raw channel order (`AVChannelOrder`).
    pub order: u32,
    /// The number of channels.
    pub nb_channels: i32,
    /// The channel mask, meaningful for the native order.
    pub mask: u64,
}

impl AVChannelLayout {
    /// The all-zero layout: unspecified order, no channels.
    pub open spec fn spec_zeroed() -> AVChannelLayout {
        AVChannelLayout { order: 0, nb_channels: 0, mask: 0 }
    }

    /// Returns the all-zero layout.
    pub fn zeroed() -> (r: AVChannelLayout)
        ensures
            r == Self::spec_zeroed(),
    {
        AVChannelLayout { order: 0, nb_channels: 0, mask: 0 }
    }
}

/// The values of an FFmpeg frame (`AVFrame`) that this library reads and writes.
#[derive(Clone, Copy, Debug, PartialEq, Eq)]
pub struct AVFrame {
    /// Pixel format for video, sample format for audio; `-1` when unset.
    pub format: i32,
    /// Width in pixels.
    pub width: i32,
    /// Height in pixels.
    pub height: i32,
    /// Number of audio samples per channel.
    pub nb_samples: i32,
    /// Line sizes of the data planes.
    pub linesize: [i32; 8],
    /// Presentation timestamp.
    pub pts: i64,
    /// Decoding timestamp of the packet that produced the frame.
    pub pkt_dts: i64,
    /// Best effort timestamp.
    pub best_effort_timestamp: i64,
    /// Duration.
    pub duration: i64,
    /// Time base of the timestamps.
    pub time_base: AVRational,
    /// Sample aspect ratio.
    pub sample_aspect_ratio: AVRational,
    /// Raw picture type.
    pub pict_type: i32,
    /// Frame flags (`AV_FRAME_FLAG_*`).
    pub flags: i32,
    /// Decode error flags.
    pub decode_error_flags: i32,
    /// Audio sample rate.
    pub sample_rate: i32,
    /// Audio channel layout.
    pub ch_layout: AVChannelLayout,
    /// Quality, between 1 (best) and `FF_LAMBDA_MAX` (worst).
    pub quality: i32,
    /// How much the picture must be delayed when decoding.
    pub repeat_pict: i32,
    /// Raw color range.
    pub color_range: u32,
    /// Raw color primaries.
    pub color_primaries: u32,
    /// Raw color transfer characteristic.
    pub color_trc: u32,
    /// Raw color space.
    pub colorspace: u32,
    /// Raw chroma sample location.
    pub chroma_location: u32,
    /// The hardware frames context of a hardware frame; null otherwise.
    pub hw_frames_ctx: BufferRef,
}

/// The values of an FFmpeg codec context (`AVCodecContext`) that this library reads
/// and writes.
#[derive(Clone, Copy, Debug, PartialEq, Eq)]
pub struct AVCodecContext {
    /// Raw media type.
    pub codec_type: i32,
    /// Raw codec id.
    pub codec_id: i32,
    /// Time base of the timestamps.
    pub time_base: AVRational,
    /// Time base of the packets.
    pub pkt_timebase: AVRational,
    /// Frame rate.
    pub framerate: AVRational,
    /// Sample aspect ratio.
    pub sample_aspect_ratio: AVRational,
    /// Width in pixels.
    pub width: i32,
    /// Height in pixels.
    pub height: i32,
    /// Raw pixel format.
    pub pix_fmt: i32,
    /// Audio sample rate.
    pub sample_rate: i32,
    /// Audio channel layout.
    pub ch_layout: AVChannelLayout,
    /// Raw sample format.
    pub sample_fmt: i32,
    /// Number of threads.
    pub thread_count: i32,
    /// Threading method (`FF_THREAD_*`).
    pub thread_type: i32,
    /// Codec flags (`AV_CODEC_FLAG_*`).
    pub flags: i32,
    /// Codec flags (`AV_CODEC_FLAG2_*`).
    pub flags2: i32,
    /// Group of pictures size.
    pub gop_size: i32,
    /// Maximum quantizer.
    pub qmax: i32,
    /// Minimum quantizer.
    pub qmin: i32,
    /// Average bit rate.
    pub bit_rate: i64,
    /// Minimum bit rate.
    pub rc_min_rate: i64,
    /// Maximum bit rate.
    pub rc_max_rate: i64,
    /// Decoder bitstream buffer size.
    pub rc_buffer_size: i32,
    /// Maximum number of B-frames between non-B-frames.
    pub max_b_frames: i32,
    /// Raw color range.
    pub color_range: u32,
    /// Number of priming samples inserted by an audio encoder.
    pub initial_padding: i32,
    /// The hardware device context; null when none.
    pub hw_device_ctx: BufferRef,
    /// The hardware frames context; null when none.
    pub hw_frames_ctx: BufferRef,
    /// The hardware pixel format preferred by the format negotiation callback, when
    /// one is installed.
    pub preferred_hw_format: Option<i32>,
}

impl AVCodecContext {
    /// The all-zero context.
    pub open spec fn spec_zeroed() -> AVCodecContext {
        AVCodecContext {
            codec_type: 0,
            codec_id: 0,
            time_base: AVRational { num: 0, den: 0 },
            pkt_timebase: AVRational { num: 0, den: 0 },
            framerate: AVRational { num: 0, den: 0 },
            sample_aspect_ratio: AVRational { num: 0, den: 0 },
            width: 0,
            height: 0,
            pix_fmt: 0,
            sample_rate: 0,
            ch_layout: AVChannelLayout::spec_zeroed(),
            sample_fmt: 0,
            thread_count: 0,
            thread_type: 0,
            flags: 0,
            flags2: 0,
            gop_size: 0,
            qmax: 0,
            qmin: 0,
            bit_rate: 0,
            rc_min_rate: 0,
            rc_max_rate: 0,
            rc_buffer_size: 0,
            max_b_frames: 0,
            color_range: 0,
            initial_padding: 0,
            hw_device_ctx: BufferRef(0),
            hw_frames_ctx: BufferRef(0),
            preferred_hw_format: None,
        }
    }

    /// Returns the all-zero context, as `std::mem::zeroed` gives it.
    pub fn zeroed() -> (r: AVCodecContext)
        ensures
            r == Self::spec_zeroed(),
    {
        AVCodecContext {
            codec_type: 0,
            codec_id: 0,
            time_base: AVRational { num: 0, den: 0 },
            pkt_timebase: AVRational { num: 0, den: 0 },
            framerate: AVRational { num: 0, den: 0 },
            sample_aspect_ratio: AVRational { num: 0, den: 0 },
            width: 0,
            height: 0,
            pix_fmt: 0,
            sample_rate: 0,
            ch_layout: AVChannelLayout::zeroed(),
            sample_fmt: 0,
            thread_count: 0,
            thread_type: 0,
            flags: 0,
            flags2: 0,
            gop_size: 0,
            qmax: 0,
            qmin: 0,
            bit_rate: 0,
            rc_min_rate: 0,
            rc_max_rate: 0,
            rc_buffer_size: 0,
            max_b_frames: 0,
            color_range: 0,
            initial_padding: 0,
            hw_device_ctx: BufferRef(0),
            hw_frames_ctx: BufferRef(0),
            preferred_hw_format: None,
        }
    }
}

/// The values of an FFmpeg packet (`AVPacket`) that this library reads and writes.
#[derive(Clone, Copy, Debug, PartialEq, Eq, Structural)]
pub struct AVPacket {
    /// Presentation timestamp.
    pub pts: i64,
    /// Decoding timestamp.
    pub dts: i64,
    /// Duration.
    pub duration: i64,
    /// Index of the stream the packet belongs to.
    pub stream_index: i32,
}

/// The values of FFmpeg codec parameters (`AVCodecParameters`) that this library reads.
#[derive(Clone, Copy, Debug, PartialEq, Eq)]
pub struct AVCodecParameters {
    /// Raw media type.
    pub codec_type: i32,
    /// Raw codec id.
    pub codec_id: i32,
    /// Pixel format for video, sample format for audio.
    pub format: i32,
    /// Average bit rate.
    pub bit_rate: i64,
    /// Width in pixels.
    pub width: i32,
    /// Height in pixels.
    pub height: i32,
    /// Sample aspect ratio.
    pub sample_aspect_ratio: AVRational,
    /// Frame rate.
    pub framerate: AVRational,
    /// Raw color range.
    pub color_range: u32,
    /// Audio sample rate.
    pub sample_rate: i32,
    /// Audio channel layout.
    pub ch_layout: AVChannelLayout,
}

} // verus!
