use vstd::prelude::*;

use crate::enums::{AVPictureType, AVPixelFormat};
use crate::error::{FfmpegError, FfmpegErrorCode};
use crate::frame::data::FrameData;
use crate::frame::generic::{
    spec_buffers_fit, spec_planes_from, FrameBuffers, GenericFrame, AV_FRAME_FLAG_KEY, AV_NUM_DATA_POINTERS,
};
use crate::rational::{AVRational, Rational};
use crate::raw::AVFrame;
use crate::utils::AV_NOPTS_VALUE;

verus! {

/// A video frame: a frame with video properties.
pub struct VideoFrame(pub(crate) GenericFrame);

impl View for VideoFrame {
    type V = AVFrame;

    closed spec fn view(&self) -> AVFrame {
        self.0@
    }
}

/// The height in rows of plane `index` of a video frame `frame_height` rows high:
/// one row for the palette of a paletted format (plane 1), the height scaled down by
/// `2^log2_chroma_h` for the other chroma planes, the full height for plane 0.
pub open spec fn spec_plane_height(frame_height: int, index: int, paletted: bool, log2_chroma_h: int) -> int {
    if paletted && index == 1 {
        1
    } else if index > 0 {
        frame_height / vstd::arithmetic::power2::pow2(log2_chroma_h as nat) as int
    } else {
        frame_height
    }
}

/// Computes the height in rows of plane `index` of a video frame.
pub fn plane_height(frame_height: usize, index: usize, paletted: bool, log2_chroma_h: u8) -> (r: usize)
    ensures
        r == spec_plane_height(frame_height as int, index as int, paletted, log2_chroma_h as int),
{
    if paletted && index == 1 {
        1
    } else if index > 0 {
        if log2_chroma_h >= 64 {
            proof {
                vstd::arithmetic::power2::lemma2_to64();
                if log2_chroma_h > 64 {
                    vstd::arithmetic::power2::lemma_pow2_strictly_increases(64, log2_chroma_h as nat);
                }
                let p = vstd::arithmetic::power2::pow2(log2_chroma_h as nat) as int;
                assert(frame_height < p);
                vstd::arithmetic::div_mod::lemma_basic_div_specific_divisor(p);
                assert((frame_height as int) / p == 0);
            }
            0
        } else {
            proof {
                vstd::bits::lemma_u64_shr_is_div(frame_height as u64, log2_chroma_h as u64);
            }
            ((frame_height as u64) >> (log2_chroma_h as u64)) as usize
        }
    } else {
        frame_height
    }
}

/// What FFmpeg's description of a pixel format (`AVPixFmtDescriptor`) tells of its
/// planes: whether plane 1 holds a palette, and the power of two by which the chroma
/// planes are shorter than the frame.
#[derive(Clone, Copy, Debug, PartialEq, Eq, Structural)]
pub struct PixFmtDescriptor {
    /// Whether the format is paletted (`AV_PIX_FMT_FLAG_PAL`).
    pub paletted: bool,
    /// The base-2 logarithm of the vertical chroma subsampling.
    pub log2_chroma_h: u8,
}

/// The heights of the first `count` planes of a video frame `height` rows high in
/// the pixel format `descriptor` describes.
pub open spec fn spec_video_heights(height: i32, descriptor: PixFmtDescriptor, count: nat) -> Seq<i32> {
    Seq::new(
        count,
        |i: int|
            spec_plane_height(
                height as usize as int,
                i,
                descriptor.paletted,
                descriptor.log2_chroma_h as int,
            ) as i32,
    )
}

/// Computes the heights of the first `count` planes of a video frame.
fn video_heights(height: i32, descriptor: PixFmtDescriptor, count: usize) -> (r: Vec<i32>)
    ensures
        r@ == spec_video_heights(height, descriptor, count as nat),
{
    let mut v: Vec<i32> = Vec::new();
    let mut i: usize = 0;
    while i < count
        invariant
            i <= count,
            v@ =~= spec_video_heights(height, descriptor, i as nat),
        decreases count - i,
    {
        let h = plane_height(height as usize, i, descriptor.paletted, descriptor.log2_chroma_h) as i32;
        v.push(h);
        i = i + 1;
    }
    v
}

/// The frame `VideoFrame::new` builds from its arguments.
pub open spec fn spec_new_video_frame(
    width: i32,
    height: i32,
    pix_fmt: AVPixelFormat,
    sample_aspect_ratio: Rational,
    pts: i64,
    dts: i64,
    duration: i64,
    time_base: Rational,
) -> AVFrame {
    AVFrame {
        pict_type: 0,
        width,
        height,
        format: pix_fmt.spec_raw(),
        pts,
        best_effort_timestamp: pts,
        pkt_dts: dts,
        duration,
        time_base: time_base.spec_to_av(),
        sample_aspect_ratio: sample_aspect_ratio.spec_to_av(),
        ..AVFrame::spec_defaults()
    }
}

impl Clone for VideoFrame {
    /// A frame with the same values.
    fn clone(&self) -> (r: VideoFrame)
        ensures
            r@ == self@,
    {
        VideoFrame(self.0.clone())
    }
}

impl core::ops::Deref for VideoFrame {
    type Target = GenericFrame;

    fn deref(&self) -> (r: &GenericFrame)
        ensures
            r@ == self@,
    {
        &self.0
    }
}

impl GenericFrame {
    /// Makes this frame a video frame.
    pub fn video(self) -> (r: VideoFrame)
        ensures
            r@ == self@,
            r.spec_planes() == self.spec_planes(),
    {
        VideoFrame(self)
    }
}

impl VideoFrame {
    /// Whether `r` is what creating a video frame gives for arguments that passed
    /// their checks, where `raw` is the frame those arguments describe, `height` its
    /// height, `buffers` what FFmpeg's buffer allocation handed back and `descriptor`
    /// FFmpeg's description of the pixel format (`None` when it has none).
    ///
    /// A failed allocation gives its error code. Otherwise the frame takes the line
    /// sizes of the allocation; with a description its planes are the allocated
    /// buffers, each as high as [`plane_height`] says, and buffers that do not fit
    /// those sizes give `Alloc`; without one no plane is attached.
    pub open spec fn spec_allocated(
        r: Result<VideoFrame, FfmpegError>,
        raw: AVFrame,
        height: i32,
        buffers: FrameBuffers,
        descriptor: Option<PixFmtDescriptor>,
    ) -> bool {
        if buffers.ret < 0 {
            r == Err::<VideoFrame, FfmpegError>(FfmpegError::Code(FfmpegErrorCode(buffers.ret)))
        } else {
            match descriptor {
                None => r matches Ok(f) && f@ == (AVFrame { linesize: buffers.linesize, ..raw })
                    && spec_planes_from(f.spec_planes(), Seq::empty(), buffers.linesize, Seq::empty()),
                Some(d) => {
                    let heights = spec_video_heights(height, d, buffers.planes@.len());
                    if !spec_buffers_fit(buffers.linesize, buffers.planes@, heights) {
                        r == Err::<VideoFrame, FfmpegError>(FfmpegError::Alloc)
                    } else {
                        r matches Ok(f) && f@ == (AVFrame { linesize: buffers.linesize, ..raw })
                            && spec_planes_from(f.spec_planes(), buffers.planes@, buffers.linesize, heights)
                    }
                },
            }
        }
    }

    /// Creates a video frame of the given size and pixel format, whose data planes
    /// are the buffers FFmpeg allocated for it (`av_frame_get_buffer`, with that
    /// alignment, `0` for automatic), as `buffers` hands them over; `descriptor` is
    /// FFmpeg's description of the pixel format.
    ///
    /// Fails when the width or the height is not positive, or the alignment is
    /// negative; then as [`VideoFrame::spec_allocated`] says.
    pub fn new(
        width: i32,
        height: i32,
        pix_fmt: AVPixelFormat,
        sample_aspect_ratio: Rational,
        pts: i64,
        dts: i64,
        duration: i64,
        time_base: Rational,
        alignment: i32,
        buffers: FrameBuffers,
        descriptor: Option<PixFmtDescriptor>,
    ) -> (r: Result<VideoFrame, FfmpegError>)
        ensures
            (width <= 0 || height <= 0) ==> (r matches Err(FfmpegError::Arguments(m)) && m@
                == "width and height must be positive and not 0"@),
            (width > 0 && height > 0 && alignment < 0) ==> (r matches Err(
                FfmpegError::Arguments(m),
            ) && m@ == "alignment must be positive"@),
            (width > 0 && height > 0 && alignment >= 0) ==> VideoFrame::spec_allocated(
                r,
                spec_new_video_frame(
                    width,
                    height,
                    pix_fmt,
                    sample_aspect_ratio,
                    pts,
                    dts,
                    duration,
                    time_base,
                ),
                height,
                buffers,
                descriptor,
            ),
    {
        if width <= 0 || height <= 0 {
            return Err(FfmpegError::Arguments("width and height must be positive and not 0"));
        }
        if alignment < 0 {
            return Err(FfmpegError::Arguments("alignment must be positive"));
        }
        let generic = GenericFrame::new();
        let mut frame = match generic {
            Ok(f) => f.as_raw(),
            Err(e) => return Err(e),
        };
        frame.pict_type = AVPictureType::NoPicture.raw();
        frame.width = width;
        frame.height = height;
        frame.format = pix_fmt.raw();
        frame.pts = pts;
        frame.best_effort_timestamp = pts;
        frame.pkt_dts = dts;
        frame.duration = duration;
        frame.time_base = time_base.to_av();
        frame.sample_aspect_ratio = sample_aspect_ratio.to_av();
        if buffers.ret < 0 {
            return Err(FfmpegError::Code(FfmpegErrorCode(buffers.ret)));
        }
        let heights = match descriptor {
            Some(d) => video_heights(height, d, buffers.planes.len()),
            None => {
                let empty: Vec<Vec<u8>> = Vec::new();
                let none: Vec<i32> = Vec::new();
                return match GenericFrame::with_buffers(frame, buffers.linesize, empty, &none) {
                    Some(g) => Ok(VideoFrame(g)),
                    None => Err(FfmpegError::Alloc),
                };
            },
        };
        match GenericFrame::with_buffers(frame, buffers.linesize, buffers.planes, &heights) {
            Some(g) => Ok(VideoFrame(g)),
            None => Err(FfmpegError::Alloc),
        }
    }

    /// Starts a builder with the defaults of `new`: sample aspect ratio `1/1`, no
    /// timestamps, zero duration, time base `0/1` and automatic alignment.
    pub fn builder() -> (r: VideoFrameBuilder)
        ensures
            r.width == 0 && r.height == 0 && r.pix_fmt == AVPixelFormat::NoFormat,
            r.sample_aspect_ratio == Rational::spec_one(),
            r.pts == AV_NOPTS_VALUE && r.dts == AV_NOPTS_VALUE && r.duration == 0,
            r.time_base == Rational::spec_zero() && r.alignment == 0,
    {
        VideoFrameBuilder {
            width: 0,
            height: 0,
            pix_fmt: AVPixelFormat::NoFormat,
            sample_aspect_ratio: Rational::one(),
            pts: AV_NOPTS_VALUE,
            dts: AV_NOPTS_VALUE,
            duration: 0,
            time_base: Rational::zero(),
            alignment: 0,
        }
    }

    /// Returns the frame as a generic frame.
    pub fn as_generic(&self) -> (r: &GenericFrame)
        ensures
            r@ == self@,
    {
        &self.0
    }

    /// Returns the frame as a mutable generic frame.
    pub fn as_generic_mut(&mut self) -> (r: &mut GenericFrame)
        ensures
            r@ == old(self)@,
            r.spec_planes() == old(self).spec_planes(),
            final(self)@ == final(r)@,
            final(self).spec_planes() == final(r).spec_planes(),
    {
        &mut self.0
    }

    /// Returns the generic frame.
    pub fn into_generic(self) -> (r: GenericFrame)
        ensures
            r@ == self@,
    {
        self.0
    }

    /// Returns the width.
    pub fn width(&self) -> (r: usize)
        ensures
            r == self@.width as usize,
    {
        self.0.as_raw().width as usize
    }

    /// Returns the height.
    pub fn height(&self) -> (r: usize)
        ensures
            r == self@.height as usize,
    {
        self.0.as_raw().height as usize
    }

    /// Returns the sample aspect ratio; a zero denominator reads as `0/1`.
    pub fn sample_aspect_ratio(&self) -> (r: Rational)
        ensures
            r == Rational::spec_from_av(self@.sample_aspect_ratio),
    {
        Rational::from_av(self.0.as_raw().sample_aspect_ratio)
    }

    /// Sets the sample aspect ratio.
    pub fn set_sample_aspect_ratio(&mut self, sample_aspect_ratio: Rational)
        ensures
            final(self)@ == (AVFrame {
                sample_aspect_ratio: sample_aspect_ratio.spec_to_av(),
                ..old(self)@
            }),
    {
        let mut frame = self.0.as_raw();
        frame.sample_aspect_ratio = sample_aspect_ratio.to_av();
        self.0.set_raw(frame);
    }

    /// Returns `true` when the frame is a key frame.
    pub fn is_keyframe(&self) -> (r: bool)
        ensures
            r == (self@.flags & AV_FRAME_FLAG_KEY != 0),
    {
        self.0.as_raw().flags & AV_FRAME_FLAG_KEY != 0
    }

    /// Returns the picture type.
    pub fn pict_type(&self) -> (r: AVPictureType)
        ensures
            r == AVPictureType::spec_from_raw(self@.pict_type),
    {
        AVPictureType::from_raw(self.0.as_raw().pict_type)
    }

    /// Sets the picture type.
    pub fn set_pict_type(&mut self, pict_type: AVPictureType)
        ensures
            final(self)@ == (AVFrame { pict_type: pict_type.spec_raw(), ..old(self)@ }),
    {
        let mut frame = self.0.as_raw();
        frame.pict_type = pict_type.raw();
        self.0.set_raw(frame);
    }

    /// The data planes attached to the frame, by index.
    pub closed spec fn spec_planes(&self) -> Seq<Option<FrameData>> {
        self.0.spec_planes()
    }

    /// The frame as a generic frame.
    pub closed spec fn as_generic_spec(&self) -> GenericFrame {
        self.0
    }

    /// Attaches `memory` as data plane `index`, with the frame's line size for that
    /// plane and the plane's height for the pixel format `descriptor` describes (see
    /// [`plane_height`]). Returns `false`, and changes nothing, when there is no such
    /// plane or the memory does not hold exactly `|linesize| * height` bytes.
    pub fn attach_plane(&mut self, index: usize, memory: Vec<u8>, descriptor: PixFmtDescriptor) -> (r: bool)
        ensures
            final(self)@ == old(self)@,
            old(self).as_generic_spec().planes_wf() ==> final(self).as_generic_spec().planes_wf(),
            ({
                let h = spec_plane_height(
                    old(self)@.height as usize as int,
                    index as int,
                    descriptor.paletted,
                    descriptor.log2_chroma_h as int,
                ) as i32;
                &&& r == (index < old(self).spec_planes().len() && index < AV_NUM_DATA_POINTERS
                    && FrameData::valid_parts(memory@, old(self)@.linesize[index as int], h))
                &&& !r ==> final(self).spec_planes() == old(self).spec_planes()
                &&& r ==> (final(self).spec_planes()[index as int] matches Some(d) && d.wf()
                    && d.spec_memory() == memory@ && d.spec_linesize() == old(self)@.linesize[
                    index as int] && d.spec_height() == h)
            }),
    {
        let height = plane_height(
            self.0.as_raw().height as usize,
            index,
            descriptor.paletted,
            descriptor.log2_chroma_h,
        ) as i32;
        self.0.attach_plane(index, memory, height)
    }

    /// Returns data plane `index`, where `descriptor` is FFmpeg's description of the
    /// frame's pixel format (`None` when FFmpeg has none): `None` without a
    /// description, past the last plane, or when no plane is attached there.
    pub fn data(&self, index: usize, descriptor: Option<PixFmtDescriptor>) -> (r: Option<&FrameData>)
        ensures
            (descriptor is None || index >= AV_NUM_DATA_POINTERS || index >= self.spec_planes().len())
                ==> r is None,
            (descriptor is Some && index < AV_NUM_DATA_POINTERS && index < self.spec_planes().len())
                ==> match self.spec_planes()[index as int] {
                Some(d) => r == Some(&d),
                None => r is None,
            },
    {
        if descriptor.is_none() || index >= AV_NUM_DATA_POINTERS {
            return None;
        }
        self.0.plane(index)
    }

    /// Returns data plane `index` for writing, under the same conditions as
    /// [`VideoFrame::data`].
    pub fn data_mut(&mut self, index: usize, descriptor: Option<PixFmtDescriptor>) -> (r: Option<&mut FrameData>)
        ensures
            final(self)@ == old(self)@,
            (descriptor is None || index >= AV_NUM_DATA_POINTERS || index >= old(self).spec_planes().len()
                || old(self).spec_planes()[index as int] is None) ==> r is None
                && final(self).spec_planes() == old(self).spec_planes(),
            (descriptor is Some && index < AV_NUM_DATA_POINTERS && index < old(self).spec_planes().len()
                && old(self).spec_planes()[index as int] is Some) ==> (r matches Some(d)
                && *d == old(self).spec_planes()[index as int]->0
                && final(self).spec_planes() == old(self).spec_planes().update(
                index as int,
                Some(*final(d)),
            )),
    {
        if descriptor.is_none() || index >= AV_NUM_DATA_POINTERS {
            return None;
        }
        self.0.plane_mut(index)
    }

    /// Returns the pixel format.
    pub fn format(&self) -> (r: AVPixelFormat)
        ensures
            r == AVPixelFormat::spec_from_raw(self@.format),
    {
        AVPixelFormat::from_raw(self.0.as_raw().format)
    }
}

/// A builder for [`VideoFrame`].
#[derive(Clone, Copy, Debug)]
pub struct VideoFrameBuilder {
    /// The width.
    pub width: i32,
    /// The height.
    pub height: i32,
    /// The pixel format.
    pub pix_fmt: AVPixelFormat,
    /// The sample aspect ratio.
    pub sample_aspect_ratio: Rational,
    /// The presentation timestamp.
    pub pts: i64,
    /// The decoding timestamp.
    pub dts: i64,
    /// The duration.
    pub duration: i64,
    /// The time base.
    pub time_base: Rational,
    /// The alignment of the data planes, `0` for automatic.
    pub alignment: i32,
}

impl VideoFrameBuilder {
    /// Sets the width.
    pub fn width(self, width: i32) -> (r: VideoFrameBuilder)
        ensures
            r == (VideoFrameBuilder { width, ..self }),
    {
        VideoFrameBuilder { width, ..self }
    }

    /// Sets the height.
    pub fn height(self, height: i32) -> (r: VideoFrameBuilder)
        ensures
            r == (VideoFrameBuilder { height, ..self }),
    {
        VideoFrameBuilder { height, ..self }
    }

    /// Sets the pixel format.
    pub fn pix_fmt(self, pix_fmt: AVPixelFormat) -> (r: VideoFrameBuilder)
        ensures
            r == (VideoFrameBuilder { pix_fmt, ..self }),
    {
        VideoFrameBuilder { pix_fmt, ..self }
    }

    /// Sets the sample aspect ratio.
    pub fn sample_aspect_ratio(self, sample_aspect_ratio: Rational) -> (r: VideoFrameBuilder)
        ensures
            r == (VideoFrameBuilder { sample_aspect_ratio, ..self }),
    {
        VideoFrameBuilder { sample_aspect_ratio, ..self }
    }

    /// Sets the presentation timestamp.
    pub fn pts(self, pts: i64) -> (r: VideoFrameBuilder)
        ensures
            r == (VideoFrameBuilder { pts, ..self }),
    {
        VideoFrameBuilder { pts, ..self }
    }

    /// Sets the decoding timestamp.
    pub fn dts(self, dts: i64) -> (r: VideoFrameBuilder)
        ensures
            r == (VideoFrameBuilder { dts, ..self }),
    {
        VideoFrameBuilder { dts, ..self }
    }

    /// Sets the duration.
    pub fn duration(self, duration: i64) -> (r: VideoFrameBuilder)
        ensures
            r == (VideoFrameBuilder { duration, ..self }),
    {
        VideoFrameBuilder { duration, ..self }
    }

    /// Sets the time base.
    pub fn time_base(self, time_base: Rational) -> (r: VideoFrameBuilder)
        ensures
            r == (VideoFrameBuilder { time_base, ..self }),
    {
        VideoFrameBuilder { time_base, ..self }
    }

    /// Sets the alignment of the data planes.
    pub fn alignment(self, alignment: i32) -> (r: VideoFrameBuilder)
        ensures
            r == (VideoFrameBuilder { alignment, ..self }),
    {
        VideoFrameBuilder { alignment, ..self }
    }

    /// Builds the frame with [`VideoFrame::new`], from the buffers FFmpeg allocated
    /// for it and its description of the pixel format.
    pub fn build(self, buffers: FrameBuffers, descriptor: Option<PixFmtDescriptor>) -> (r: Result<
        VideoFrame,
        FfmpegError,
    >)
        ensures
            (self.width <= 0 || self.height <= 0) ==> (r matches Err(FfmpegError::Arguments(m))
                && m@ == "width and height must be positive and not 0"@),
            (self.width > 0 && self.height > 0 && self.alignment < 0) ==> (r matches Err(
                FfmpegError::Arguments(m),
            ) && m@ == "alignment must be positive"@),
            (self.width > 0 && self.height > 0 && self.alignment >= 0) ==> VideoFrame::spec_allocated(
                r,
                spec_new_video_frame(
                    self.width,
                    self.height,
                    self.pix_fmt,
                    self.sample_aspect_ratio,
                    self.pts,
                    self.dts,
                    self.duration,
                    self.time_base,
                ),
                self.height,
                buffers,
                descriptor,
            ),
    {
        VideoFrame::new(
            self.width,
            self.height,
            self.pix_fmt,
            self.sample_aspect_ratio,
            self.pts,
            self.dts,
            self.duration,
            self.time_base,
            self.alignment,
            buffers,
            descriptor,
        )
    }
}

/// The rows of the planes of a video frame `h` rows high: plane 0 has all `h` rows;
/// plane 1 of a paletted format is the one-row palette; every other plane has `h`
/// rows shifted right by the vertical chroma subsampling `k`: all `h` rows when `k` is
/// 0, and the largest count `q` with `q * 2^k <= h` in general, each extra step of
/// subsampling halving it again (rounding down).
pub proof fn lemma_plane_rows(h: nat, i: nat, paletted: bool, k: nat)
    ensures
        i == 0 ==> spec_plane_height(h as int, i as int, paletted, k as int) == h,
        paletted && i == 1 ==> spec_plane_height(h as int, i as int, paletted, k as int) == 1,
        i > 0 && !(paletted && i == 1) ==> {
            let q = spec_plane_height(h as int, i as int, paletted, k as int);
            &&& spec_plane_height(h as int, i as int, paletted, 0) == h
            &&& spec_plane_height(h as int, i as int, paletted, 1) == h / 2
            &&& q >= 0
            &&& q * vstd::arithmetic::power2::pow2(k) <= h
            &&& h < (q + 1) * vstd::arithmetic::power2::pow2(k)
            &&& spec_plane_height(h as int, i as int, paletted, k as int + 1) == q / 2
        },
{
    let p = vstd::arithmetic::power2::pow2(k) as int;
    vstd::arithmetic::power2::lemma_pow2_pos(k);
    vstd::arithmetic::power2::lemma2_to64();
    vstd::arithmetic::power2::lemma_pow2_unfold(k + 1);
    if i > 0 && !(paletted && i == 1) {
        let q = (h as int) / p;
        vstd::arithmetic::div_mod::lemma_fundamental_div_mod(h as int, p);
        vstd::arithmetic::div_mod::lemma_mod_bound(h as int, p);
        vstd::arithmetic::div_mod::lemma_div_pos_is_pos(h as int, p);
        assert(q * p <= h < (q + 1) * p) by (nonlinear_arith)
            requires
                h == p * q + (h as int) % p,
                0 <= (h as int) % p < p,
        ;
        assert(q == spec_plane_height(h as int, i as int, paletted, k as int));
        vstd::arithmetic::div_mod::lemma_div_denominator(h as int, p, 2);
        assert(vstd::arithmetic::power2::pow2(k + 1) == p * 2);
        assert(spec_plane_height(h as int, i as int, paletted, k as int + 1) == (h as int) / (p * 2));
        assert(spec_plane_height(h as int, i as int, paletted, k as int + 1) == q / 2);
        assert(vstd::arithmetic::power2::pow2(0) == 1);
        assert(vstd::arithmetic::power2::pow2(1) == 2);
        assert((h as int) / 1 == h);
        assert(spec_plane_height(h as int, i as int, paletted, 0) == (h as int) / (vstd::arithmetic::power2::pow2(0) as int));
        assert(spec_plane_height(h as int, i as int, paletted, 0) == h);
        assert(spec_plane_height(h as int, i as int, paletted, 1) == h / 2);
    }
}

/// A video frame that building gives holds what it was built with: its size, pixel
/// format, timestamps (the best effort timestamp being the presentation one),
/// duration, time base, sample aspect ratio and no picture type, the line sizes of the
/// allocation, and, with a description of the format, each allocated buffer as the
/// plane at its index with the row count [`plane_height`] gives, no plane past them.
pub proof fn lemma_built_video_frame(
    r: Result<VideoFrame, FfmpegError>,
    width: i32,
    height: i32,
    pix_fmt: AVPixelFormat,
    sample_aspect_ratio: Rational,
    pts: i64,
    dts: i64,
    duration: i64,
    time_base: Rational,
    buffers: FrameBuffers,
    descriptor: Option<PixFmtDescriptor>,
)
    requires
        VideoFrame::spec_allocated(
            r,
            spec_new_video_frame(width, height, pix_fmt, sample_aspect_ratio, pts, dts, duration, time_base),
            height,
            buffers,
            descriptor,
        ),
    ensures
        buffers.ret < 0 ==> r == Err::<VideoFrame, FfmpegError>(FfmpegError::Code(FfmpegErrorCode(buffers.ret))),
        r matches Ok(f) ==> {
            &&& f@.width == width && f@.height == height && f@.format == pix_fmt.spec_raw()
            &&& f@.pts == pts && f@.best_effort_timestamp == pts && f@.pkt_dts == dts
            &&& f@.duration == duration
            &&& f@.time_base == (AVRational { num: time_base.numerator, den: time_base.denominator })
            &&& f@.sample_aspect_ratio == (AVRational {
                num: sample_aspect_ratio.numerator,
                den: sample_aspect_ratio.denominator,
            })
            &&& f@.pict_type == 0 && f@.nb_samples == 0 && f@.ch_layout.nb_channels == 0
            &&& f@.linesize == buffers.linesize
            &&& f.spec_planes().len() == AV_NUM_DATA_POINTERS
            &&& descriptor is None ==> forall|i: int| 0 <= i < AV_NUM_DATA_POINTERS ==> (#[trigger] f.spec_planes()[i]) is None
            &&& descriptor matches Some(d) ==> {
                &&& buffers.planes@.len() <= AV_NUM_DATA_POINTERS
                &&& forall|i: int|
                    0 <= i < buffers.planes@.len() ==> (#[trigger] f.spec_planes()[i] matches Some(p)
                        && p.spec_memory() == buffers.planes@[i]@ && p.spec_linesize() == buffers.linesize[i]
                        && p.spec_height() == spec_plane_height(height as usize as int, i, d.paletted, d.log2_chroma_h as int) as i32)
                &&& forall|i: int| buffers.planes@.len() <= i < AV_NUM_DATA_POINTERS ==> (#[trigger] f.spec_planes()[i]) is None
            }
        },
{
    if buffers.ret >= 0 {
        if let Some(d) = descriptor {
            let heights = spec_video_heights(height, d, buffers.planes@.len());
            if r is Ok {
                assert forall|i: int| 0 <= i < buffers.planes@.len() implies heights[i] == spec_plane_height(
                    height as usize as int,
                    i,
                    d.paletted,
                    d.log2_chroma_h as int,
                ) as i32 by {}
            }
        }
    }
}

} // verus!
