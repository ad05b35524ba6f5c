use vstd::prelude::*;

use crate::enums::AVPixelFormat;
use crate::error::{FfmpegError, FfmpegErrorCode};
use crate::frame::video::spec_new_video_frame;
use crate::frame::generic::{spec_refilled, spec_refills};
use crate::frame::{FrameBuffers, PixFmtDescriptor, VideoFrame};
use crate::raw::AVFrame;
use crate::rational::Rational;
use crate::utils::AV_NOPTS_VALUE;

verus! {

/// The scaling algorithm of a scaler.
#[derive(Clone, Copy, Debug, PartialEq, Eq, Structural)]
pub enum ScalingAlgorithm {
    /// Fast bilinear (fastest, lower quality).
    FastBilinear,
    /// Bilinear (a good balance of speed and quality).
    Bilinear,
    /// Bicubic (higher quality, slower).
    Bicubic,
    /// Experimental.
    Experimental,
    /// Nearest neighbor (fastest, pixelated).
    Point,
    /// Area averaging (good for downscaling).
    Area,
    /// Bicubic for luma, bilinear for chroma.
    Bicublin,
    /// Gaussian.
    Gauss,
    /// Sinc.
    Sinc,
    /// Lanczos (high quality, good for upscaling).
    Lanczos,
    /// Natural bicubic spline.
    Spline,
}

impl ScalingAlgorithm {
    /// The `SWS_*` flag of the algorithm.
    pub open spec fn spec_flags(self) -> i32 {
        match self {
            ScalingAlgorithm::FastBilinear => 1,
            ScalingAlgorithm::Bilinear => 2,
            ScalingAlgorithm::Bicubic => 4,
            ScalingAlgorithm::Experimental => 8,
            ScalingAlgorithm::Point => 16,
            ScalingAlgorithm::Area => 32,
            ScalingAlgorithm::Bicublin => 64,
            ScalingAlgorithm::Gauss => 128,
            ScalingAlgorithm::Sinc => 256,
            ScalingAlgorithm::Lanczos => 512,
            ScalingAlgorithm::Spline => 1024,
        }
    }

    /// Returns the `SWS_*` flag of the algorithm.
    pub fn as_flags(self) -> (r: i32)
        ensures
            r == self.spec_flags(),
    {
        match self {
            ScalingAlgorithm::FastBilinear => 1,
            ScalingAlgorithm::Bilinear => 2,
            ScalingAlgorithm::Bicubic => 4,
            ScalingAlgorithm::Experimental => 8,
            ScalingAlgorithm::Point => 16,
            ScalingAlgorithm::Area => 32,
            ScalingAlgorithm::Bicublin => 64,
            ScalingAlgorithm::Gauss => 128,
            ScalingAlgorithm::Sinc => 256,
            ScalingAlgorithm::Lanczos => 512,
            ScalingAlgorithm::Spline => 1024,
        }
    }
}

/// Each algorithm has its own flag, and each flag is a single bit: distinct
/// algorithms never share a flag, and no flag is a combination of others.
pub proof fn lemma_scaling_flags_distinct(a: ScalingAlgorithm, b: ScalingAlgorithm)
    ensures
        a != b ==> a.spec_flags() != b.spec_flags(),
        a != b ==> a.spec_flags() & b.spec_flags() == 0,
        a.spec_flags() > 0,
{
    let x = a.spec_flags();
    let y = b.spec_flags();
    assert(x == 1 || x == 2 || x == 4 || x == 8 || x == 16 || x == 32 || x == 64 || x == 128 || x
        == 256 || x == 512 || x == 1024);
    assert(y == 1 || y == 2 || y == 4 || y == 8 || y == 16 || y == 32 || y == 64 || y == 128 || y
        == 256 || y == 512 || y == 1024);
    if x != y {
        assert(forall|p: i32, q: i32|
            (p == 1 || p == 2 || p == 4 || p == 8 || p == 16 || p == 32 || p == 64 || p == 128 || p
                == 256 || p == 512 || p == 1024) && (q == 1 || q == 2 || q == 4 || q == 8 || q == 16
                || q == 32 || q == 64 || q == 128 || q == 256 || q == 512 || q == 1024) && p != q
                ==> p & q == 0) by (bit_vector);
    }
}

/// A scaler: converts video frames to another size and pixel format, into a frame it
/// owns.
pub struct VideoScaler {
    context: usize,
    frame: VideoFrame,
    pixel_format: AVPixelFormat,
    width: i32,
    height: i32,
    algorithm: ScalingAlgorithm,
}

impl VideoScaler {
    /// The handle of FFmpeg's scaling context.
    pub closed spec fn spec_context(&self) -> usize {
        self.context
    }

    /// The output pixel format.
    pub closed spec fn spec_pixel_format(&self) -> AVPixelFormat {
        self.pixel_format
    }

    /// The output width.
    pub closed spec fn spec_width(&self) -> i32 {
        self.width
    }

    /// The output height.
    pub closed spec fn spec_height(&self) -> i32 {
        self.height
    }

    /// The scaling algorithm.
    pub closed spec fn spec_algorithm(&self) -> ScalingAlgorithm {
        self.algorithm
    }

    /// The frame the scaler writes into, with its data planes.
    pub closed spec fn spec_output(&self) -> VideoFrame {
        self.frame
    }

    /// Creates a scaler with the bilinear algorithm; see [`VideoScaler::with_algorithm`].
    pub fn new(
        input_width: i32,
        input_height: i32,
        incoming_pixel_fmt: AVPixelFormat,
        width: i32,
        height: i32,
        pixel_format: AVPixelFormat,
        context: usize,
        buffers: FrameBuffers,
        descriptor: Option<PixFmtDescriptor>,
    ) -> (r: Result<VideoScaler, FfmpegError>)
        ensures
            VideoScaler::spec_created(
                r,
                width,
                height,
                pixel_format,
                ScalingAlgorithm::Bilinear,
                context,
                buffers,
                descriptor,
            ),
    {
        Self::with_algorithm(
            input_width,
            input_height,
            incoming_pixel_fmt,
            width,
            height,
            pixel_format,
            ScalingAlgorithm::Bilinear,
            context,
            buffers,
            descriptor,
        )
    }

    /// Whether `r` is what creating a scaler gives when FFmpeg's scaling context
    /// creation (`sws_getContext`) returned `context`, its buffer allocation for the
    /// output frame handed back `buffers`, and `descriptor` is its description of the
    /// output pixel format: `Alloc` for the null context, the output frame's error for
    /// a non-positive output size, otherwise a scaler with the output size, format and
    /// algorithm when the output frame is created, its error when it is not (see
    /// [`VideoFrame::spec_allocated`]).
    pub open spec fn spec_created(
        r: Result<VideoScaler, FfmpegError>,
        width: i32,
        height: i32,
        pixel_format: AVPixelFormat,
        algorithm: ScalingAlgorithm,
        context: usize,
        buffers: FrameBuffers,
        descriptor: Option<PixFmtDescriptor>,
    ) -> bool {
        if context == 0 {
            r == Err::<VideoScaler, FfmpegError>(FfmpegError::Alloc)
        } else if width <= 0 || height <= 0 {
            r matches Err(FfmpegError::Arguments(m)) && m@
                == "width and height must be positive and not 0"@
        } else {
            &&& VideoFrame::spec_allocated(
                match r {
                    Ok(s) => Ok(s.spec_output()),
                    Err(e) => Err(e),
                },
                spec_new_video_frame(
                    width,
                    height,
                    pixel_format,
                    Rational::spec_one(),
                    AV_NOPTS_VALUE,
                    AV_NOPTS_VALUE,
                    0,
                    Rational::spec_zero(),
                ),
                height,
                buffers,
                descriptor,
            )
            &&& r matches Ok(s) ==> {
                &&& s.spec_context() == context
                &&& s.spec_width() == width
                &&& s.spec_height() == height
                &&& s.spec_pixel_format() == pixel_format
                &&& s.spec_algorithm() == algorithm
            }
        }
    }

    /// Creates a scaler from `input_width` x `input_height` frames in
    /// `incoming_pixel_fmt` to `width` x `height` frames in `pixel_format`, where
    /// `context` is the scaling context FFmpeg created for these arguments (zero when
    /// it created none), and `buffers` what its buffer allocation for the output frame
    /// handed back.
    pub fn with_algorithm(
        input_width: i32,
        input_height: i32,
        incoming_pixel_fmt: AVPixelFormat,
        width: i32,
        height: i32,
        pixel_format: AVPixelFormat,
        algorithm: ScalingAlgorithm,
        context: usize,
        buffers: FrameBuffers,
        descriptor: Option<PixFmtDescriptor>,
    ) -> (r: Result<VideoScaler, FfmpegError>)
        ensures
            VideoScaler::spec_created(r, width, height, pixel_format, algorithm, context, buffers, descriptor),
    {
        if context == 0 {
            return Err(FfmpegError::Alloc);
        }
        let frame = match VideoFrame::builder().width(width).height(height).pix_fmt(pixel_format).build(
            buffers,
            descriptor,
        ) {
            Ok(f) => f,
            Err(e) => {
                return Err(e);
            },
        };
        Ok(VideoScaler { context, frame, pixel_format, width, height, algorithm })
    }

    /// Returns the output pixel format.
    pub fn pixel_format(&self) -> (r: AVPixelFormat)
        ensures
            r == self.spec_pixel_format(),
    {
        self.pixel_format
    }

    /// Returns the output width.
    pub fn width(&self) -> (r: i32)
        ensures
            r == self.spec_width(),
    {
        self.width
    }

    /// Returns the output height.
    pub fn height(&self) -> (r: i32)
        ensures
            r == self.spec_height(),
    {
        self.height
    }

    /// Returns the scaling algorithm.
    pub fn algorithm(&self) -> (r: ScalingAlgorithm)
        ensures
            r == self.spec_algorithm(),
    {
        self.algorithm
    }

    /// Finishes scaling `frame`, where `ret` is what scaling its data into the output
    /// frame (`sws_scale`) returned and `scaled` the bytes it wrote into the output
    /// frame's planes, in plane order and memory order.
    ///
    /// Fails with the error for a negative code, and with an argument error when the
    /// bytes do not fit the output frame's planes (see [`spec_refills`]); the output
    /// frame is then unchanged. Otherwise the output frame's planes hold the scaled
    /// bytes, with their line sizes and heights, and it takes the timestamps, duration
    /// and time base of `frame`.
    pub fn process(&mut self, frame: &VideoFrame, ret: i32, scaled: Vec<Vec<u8>>) -> (r: Result<
        &VideoFrame,
        FfmpegError,
    >)
        ensures
            ret < 0 ==> r == Err::<&VideoFrame, FfmpegError>(FfmpegError::Code(FfmpegErrorCode(ret))),
            ret >= 0 && !spec_refills(old(self).spec_output().spec_planes(), scaled@) ==> (r matches Err(
                FfmpegError::Arguments(m),
            ) && m@ == "scaled planes do not fit the output frame"@),
            (ret < 0 || !spec_refills(old(self).spec_output().spec_planes(), scaled@)) ==> (final(self).spec_output()@
                == old(self).spec_output()@ && final(self).spec_output().spec_planes()
                == old(self).spec_output().spec_planes()),
            ret >= 0 && spec_refills(old(self).spec_output().spec_planes(), scaled@) ==> ({
                &&& final(self).spec_output()@ == (AVFrame {
                    pkt_dts: frame@.pkt_dts,
                    pts: frame@.pts,
                    best_effort_timestamp: frame@.pts,
                    duration: frame@.duration,
                    time_base: Rational::spec_from_av(frame@.time_base).spec_to_av(),
                    ..old(self).spec_output()@
                })
                &&& spec_refilled(
                    old(self).spec_output().spec_planes(),
                    final(self).spec_output().spec_planes(),
                    scaled@,
                )
                &&& r matches Ok(f) && f@ == final(self).spec_output()@ && f.spec_planes()
                    == final(self).spec_output().spec_planes()
            }),
            final(self).spec_context() == old(self).spec_context(),
            final(self).spec_width() == old(self).spec_width(),
            final(self).spec_height() == old(self).spec_height(),
            final(self).spec_pixel_format() == old(self).spec_pixel_format(),
            final(self).spec_algorithm() == old(self).spec_algorithm(),
    {
        if ret < 0 {
            return Err(FfmpegError::Code(FfmpegErrorCode(ret)));
        }
        if !self.frame.as_generic_mut().refill_planes(scaled) {
            return Err(FfmpegError::Arguments("scaled planes do not fit the output frame"));
        }
        let mut out = crate::frame::GenericFrame::wrap(self.frame.as_generic().as_raw());
        out.set_dts(frame.dts());
        out.set_pts(frame.pts());
        out.set_duration(frame.duration());
        out.set_time_base(frame.time_base());
        self.frame.as_generic_mut().set_raw(out.as_raw());
        proof {
            crate::utils::lemma_raw_timestamp_round_trip(frame@.pkt_dts);
            crate::utils::lemma_raw_timestamp_round_trip(frame@.pts);
            crate::utils::lemma_raw_timestamp_round_trip(frame@.duration);
        }
        Ok(&self.frame)
    }
}

/// What creating a scaler gives: the null scaling context is an allocation failure;
/// then a non-positive output size is refused, a failed allocation of the output
/// frame is its error; a scaler keeps the context, output size, pixel format and
/// algorithm, and its output frame has that size and format, a `1/1` sample aspect
/// ratio, no timestamps, a zero duration, a `0/1` time base and the allocation's line
/// sizes.
pub proof fn lemma_scaler_created(
    r: Result<VideoScaler, FfmpegError>,
    width: i32,
    height: i32,
    pixel_format: AVPixelFormat,
    algorithm: ScalingAlgorithm,
    context: usize,
    buffers: FrameBuffers,
    descriptor: Option<PixFmtDescriptor>,
)
    requires
        VideoScaler::spec_created(r, width, height, pixel_format, algorithm, context, buffers, descriptor),
    ensures
        context == 0 ==> r == Err::<VideoScaler, FfmpegError>(FfmpegError::Alloc),
        context != 0 && (width <= 0 || height <= 0) ==> r is Err,
        context != 0 && width > 0 && height > 0 && buffers.ret < 0 ==> r == Err::<VideoScaler, FfmpegError>(
            FfmpegError::Code(FfmpegErrorCode(buffers.ret)),
        ),
        r matches Ok(s) ==> {
            &&& context != 0 && width > 0 && height > 0
            &&& s.spec_context() == context && s.spec_width() == width && s.spec_height() == height
            &&& s.spec_pixel_format() == pixel_format && s.spec_algorithm() == algorithm
            &&& s.spec_output()@.width == width && s.spec_output()@.height == height
            &&& s.spec_output()@.format == pixel_format.spec_raw()
            &&& s.spec_output()@.sample_aspect_ratio == (crate::rational::AVRational { num: 1, den: 1 })
            &&& s.spec_output()@.pts == i64::MIN && s.spec_output()@.pkt_dts == i64::MIN
            &&& s.spec_output()@.duration == 0
            &&& s.spec_output()@.time_base == (crate::rational::AVRational { num: 0, den: 1 })
            &&& s.spec_output()@.linesize == buffers.linesize
        },
{
}

} // verus!
