use vstd::prelude::*;

use crate::enums::{AVPixelFormat, AVSampleFormat};
use crate::error::{FfmpegError, FfmpegErrorCode};
use crate::rational::{AVRational, Rational};
use crate::frame::data::FrameData;
use crate::raw::{AVChannelLayout, AVFrame, BufferRef};
use crate::utils::{check_i64, or_nopts, spec_check_i64, spec_or_nopts, AV_NOPTS_VALUE};

verus! {

/// `AV_FRAME_FLAG_KEY`: the frame is a key frame.
pub const AV_FRAME_FLAG_KEY: i32 = 2;

/// The number of data planes (and line sizes) a frame has.
pub const AV_NUM_DATA_POINTERS: usize = 8;

impl AVFrame {
    /// The values of a freshly allocated frame (`av_frame_alloc`): no timestamps, a
    /// zero duration, time base and sample aspect ratio `0/1`, an unset format, no
    /// size, no samples, unspecified color properties.
    pub open spec fn spec_defaults() -> AVFrame {
        AVFrame {
            format: -1i32,
            width: 0,
            height: 0,
            nb_samples: 0,
            linesize: [0i32, 0i32, 0i32, 0i32, 0i32, 0i32, 0i32, 0i32],
            pts: AV_NOPTS_VALUE,
            pkt_dts: AV_NOPTS_VALUE,
            best_effort_timestamp: AV_NOPTS_VALUE,
            duration: 0,
            time_base: AVRational { num: 0, den: 1 },
            sample_aspect_ratio: AVRational { num: 0, den: 1 },
            pict_type: 0,
            flags: 0,
            decode_error_flags: 0,
            sample_rate: 0,
            ch_layout: AVChannelLayout::spec_zeroed(),
            quality: 0,
            repeat_pict: 0,
            color_range: 0,
            color_primaries: 2,
            color_trc: 2,
            colorspace: 2,
            chroma_location: 0,
            hw_frames_ctx: BufferRef(0),
        }
    }

    /// The values of a frame after its properties were copied from another one, where
    /// `dst` is the frame before and `copied` the values FFmpeg's copy
    /// (`av_frame_copy_props`) left: the properties (picture type, sample aspect
    /// ratio, timestamps and duration, sample rate, time base, quality, flags and
    /// color properties) as the copy left them; the format, size, sample count,
    /// channel layout, line sizes and hardware frames context of `dst`, which a copy of
    /// properties never touches.
    pub open spec fn spec_with_props_of(dst: AVFrame, copied: AVFrame) -> AVFrame {
        AVFrame {
            format: dst.format,
            width: dst.width,
            height: dst.height,
            nb_samples: dst.nb_samples,
            ch_layout: dst.ch_layout,
            linesize: dst.linesize,
            hw_frames_ctx: dst.hw_frames_ctx,
            ..copied
        }
    }
}

/// A list of data planes with none attached.
fn no_planes() -> (r: Vec<Option<FrameData>>)
    ensures
        r@.len() == AV_NUM_DATA_POINTERS,
        forall|i: int| 0 <= i < AV_NUM_DATA_POINTERS ==> (#[trigger] r@[i]) is None,
{
    let mut v: Vec<Option<FrameData>> = Vec::new();
    let mut k: usize = 0;
    while k < AV_NUM_DATA_POINTERS
        invariant
            k <= AV_NUM_DATA_POINTERS,
            v@.len() == k,
            forall|i: int| 0 <= i < k ==> (#[trigger] v@[i]) is None,
        decreases AV_NUM_DATA_POINTERS - k,
    {
        v.push(None);
        k = k + 1;
    }
    v
}

/// What FFmpeg's buffer allocation for a frame (`av_frame_get_buffer`) handed back:
/// its return code, the line sizes it set on the frame, and the bytes of the planes it
/// allocated, in plane order. Plane `i` holds `|linesize[i]|` bytes for each of its
/// rows.
pub struct FrameBuffers {
    /// The return code; negative when the allocation failed.
    pub ret: i32,
    /// The line sizes of the frame's planes.
    pub linesize: [i32; 8],
    /// The bytes of the allocated planes, in memory order.
    pub planes: Vec<Vec<u8>>,
}

/// Whether `planes` fit as the first data planes of a frame with line sizes
/// `linesize`, plane `i` having `heights[i]` rows: no more planes than a frame has,
/// a height for each, and each exactly `|linesize[i]| * heights[i]` bytes long.
pub open spec fn spec_buffers_fit(linesize: [i32; 8], planes: Seq<Vec<u8>>, heights: Seq<i32>) -> bool {
    &&& planes.len() <= AV_NUM_DATA_POINTERS
    &&& heights.len() == planes.len()
    &&& forall|i: int|
        0 <= i < planes.len() ==> FrameData::valid_parts(#[trigger] planes[i]@, linesize[i], heights[i])
}

/// Whether `planes` are the data planes that the buffers `buffers` make: plane `i`
/// holds `buffers[i]`, with line size `linesize[i]` and `heights[i]` rows, and no
/// plane is attached past the buffers.
pub open spec fn spec_planes_from(
    planes: Seq<Option<FrameData>>,
    buffers: Seq<Vec<u8>>,
    linesize: [i32; 8],
    heights: Seq<i32>,
) -> bool {
    &&& planes.len() == AV_NUM_DATA_POINTERS
    &&& forall|i: int|
        0 <= i < buffers.len() ==> (#[trigger] planes[i] matches Some(d) && d.wf() && d.spec_memory()
            == buffers[i]@ && d.spec_linesize() == linesize[i] && d.spec_height() == heights[i])
    &&& forall|i: int| buffers.len() <= i < AV_NUM_DATA_POINTERS ==> (#[trigger] planes[i]) is None
}

/// Whether `bytes` can take the place of the first data planes of a frame whose
/// planes are `planes`: each has a plane attached at its index, and holds exactly the
/// bytes that plane's line size and height call for.
pub open spec fn spec_refills(planes: Seq<Option<FrameData>>, bytes: Seq<Vec<u8>>) -> bool {
    &&& bytes.len() <= planes.len()
    &&& forall|i: int|
        0 <= i < bytes.len() ==> (#[trigger] planes[i] matches Some(d) && FrameData::valid_parts(
            bytes[i]@,
            d.spec_linesize() as i32,
            d.spec_height() as i32,
        ))
}

/// Whether `after` is `before` with its first planes refilled with `bytes`: plane `i`
/// holds `bytes[i]` with the line size and height it had, the other planes stay.
pub open spec fn spec_refilled(
    before: Seq<Option<FrameData>>,
    after: Seq<Option<FrameData>>,
    bytes: Seq<Vec<u8>>,
) -> bool {
    &&& after.len() == before.len()
    &&& forall|i: int|
        0 <= i < bytes.len() ==> (#[trigger] after[i] matches Some(e) && e.wf() && e.spec_memory()
            == bytes[i]@ && e.spec_linesize() == before[i]->0.spec_linesize() && e.spec_height()
            == before[i]->0.spec_height())
    &&& forall|i: int| bytes.len() <= i < before.len() ==> #[trigger] after[i] == before[i]
}

/// A frame: the values of an FFmpeg `AVFrame`, and the data planes attached to it.
pub struct GenericFrame {
    frame: AVFrame,
    planes: Vec<Option<FrameData>>,
}

impl View for GenericFrame {
    type V = AVFrame;

    closed spec fn view(&self) -> AVFrame {
        self.frame
    }
}

impl Clone for GenericFrame {
    /// A frame with the same values.
    fn clone(&self) -> (r: GenericFrame)
        ensures
            r@ == self@,
    {
        GenericFrame { frame: self.frame, planes: self.planes.clone() }
    }
}

impl GenericFrame {
    /// Creates a frame with the values of a freshly allocated one.
    pub fn new() -> (r: Result<GenericFrame, FfmpegError>)
        ensures
            r matches Ok(f) && f@ == AVFrame::spec_defaults() && f.planes_wf() && f.spec_planes().len()
                == AV_NUM_DATA_POINTERS,
    {
        Ok(
            GenericFrame {
                frame: AVFrame {
                    format: -1,
                    width: 0,
                    height: 0,
                    nb_samples: 0,
                    linesize: [0i32, 0i32, 0i32, 0i32, 0i32, 0i32, 0i32, 0i32],
                    pts: AV_NOPTS_VALUE,
                    pkt_dts: AV_NOPTS_VALUE,
                    best_effort_timestamp: AV_NOPTS_VALUE,
                    duration: 0,
                    time_base: AVRational { num: 0, den: 1 },
                    sample_aspect_ratio: AVRational { num: 0, den: 1 },
                    pict_type: 0,
                    flags: 0,
                    decode_error_flags: 0,
                    sample_rate: 0,
                    ch_layout: AVChannelLayout::zeroed(),
                    quality: 0,
                    repeat_pict: 0,
                    color_range: 0,
                    color_primaries: 2,
                    color_trc: 2,
                    colorspace: 2,
                    chroma_location: 0,
                    hw_frames_ctx: BufferRef(0),
                },
                planes: no_planes(),
            },
        )
    }

    /// Wraps the values of an existing frame, with no data planes attached.
    pub fn wrap(frame: AVFrame) -> (r: GenericFrame)
        ensures
            r@ == frame,
            r.planes_wf(),
            r.spec_planes().len() == AV_NUM_DATA_POINTERS,
            forall|i: int| 0 <= i < AV_NUM_DATA_POINTERS ==> (#[trigger] r.spec_planes()[i]) is None,
    {
        GenericFrame { frame, planes: no_planes() }
    }

    /// A frame with the values of `frame`, the line sizes `linesize`, and `planes` as
    /// its first data planes, plane `i` having `heights[i]` rows. Returns `None` unless
    /// the planes fit (see [`spec_buffers_fit`]).
    pub fn with_buffers(frame: AVFrame, linesize: [i32; 8], planes: Vec<Vec<u8>>, heights: &Vec<i32>) -> (r:
        Option<GenericFrame>)
        ensures
            r is Some <==> spec_buffers_fit(linesize, planes@, heights@),
            r matches Some(f) ==> f@ == (AVFrame { linesize, ..frame }) && f.planes_wf()
                && spec_planes_from(f.spec_planes(), planes@, linesize, heights@),
    {
        if planes.len() > AV_NUM_DATA_POINTERS || heights.len() != planes.len() {
            return None;
        }
        let n = planes.len();
        let ghost orig = planes@;
        let mut rest = planes;
        let mut out: Vec<Option<FrameData>> = Vec::new();
        let mut k: usize = 0;
        while k < n
            invariant
                orig == planes@,
                n == orig.len(),
                n <= AV_NUM_DATA_POINTERS,
                heights@.len() == n,
                k <= n,
                rest@ == orig.subrange(k as int, n as int),
                out@.len() == k,
                forall|i: int|
                    0 <= i < k ==> (#[trigger] out@[i] matches Some(d) && d.wf() && d.spec_memory()
                        == orig[i]@ && d.spec_linesize() == linesize[i] && d.spec_height() == heights@[i]),
                forall|i: int| 0 <= i < k ==> FrameData::valid_parts(#[trigger] orig[i]@, linesize[i], heights@[i]),
            decreases n - k,
        {
            let m = rest.remove(0);
            assert(m == orig[k as int]);
            assert(rest@ =~= orig.subrange(k + 1, n as int));
            match FrameData::new(m, linesize[k], heights[k]) {
                Some(d) => {
                    out.push(Some(d));
                },
                None => {
                    assert(!FrameData::valid_parts(orig[k as int]@, linesize[k as int], heights@[k as int]));
                    return None;
                },
            }
            k = k + 1;
        }
        while k < AV_NUM_DATA_POINTERS
            invariant
                n <= k <= AV_NUM_DATA_POINTERS,
                n == orig.len(),
                heights@.len() == n,
                out@.len() == k,
                forall|i: int|
                    0 <= i < n ==> (#[trigger] out@[i] matches Some(d) && d.wf() && d.spec_memory()
                        == orig[i]@ && d.spec_linesize() == linesize[i] && d.spec_height() == heights@[i]),
                forall|i: int| n <= i < k ==> (#[trigger] out@[i]) is None,
            decreases AV_NUM_DATA_POINTERS - k,
        {
            out.push(None);
            k = k + 1;
        }
        let mut raw = frame;
        raw.linesize = linesize;
        let r = GenericFrame { frame: raw, planes: out };
        assert(r.planes_wf());
        Some(r)
    }

    /// The data planes attached to the frame, by index; `None` where none is.
    pub closed spec fn spec_planes(&self) -> Seq<Option<FrameData>> {
        self.planes@
    }

    /// Whether every attached plane is well formed.
    pub open spec fn planes_wf(&self) -> bool {
        forall|i: int|
            0 <= i < self.spec_planes().len() ==> (#[trigger] self.spec_planes()[i] matches Some(d)
                ==> d.wf())
    }

    /// Replaces the values of the frame, keeping its data planes.
    pub fn set_raw(&mut self, frame: AVFrame)
        ensures
            final(self)@ == frame,
            final(self).spec_planes() == old(self).spec_planes(),
    {
        self.frame = frame;
    }

    /// Attaches `memory` as data plane `index`, with the frame's line size for that
    /// plane and `height` rows. Returns `false`, and changes nothing, for an index past
    /// the planes or when the memory does not hold exactly `|linesize| * height` bytes
    /// (or that length does not fit in an `i32`).
    pub fn attach_plane(&mut self, index: usize, memory: Vec<u8>, height: i32) -> (r: bool)
        ensures
            final(self)@ == old(self)@,
            old(self).planes_wf() ==> final(self).planes_wf(),
            final(self).spec_planes().len() == old(self).spec_planes().len(),
            r == (index < old(self).spec_planes().len() && index < AV_NUM_DATA_POINTERS
                && FrameData::valid_parts(memory@, old(self)@.linesize[index as int], height)),
            !r ==> final(self).spec_planes() == old(self).spec_planes(),
            r ==> (final(self).spec_planes()[index as int] matches Some(d) && d.wf()
                && d.spec_memory() == memory@ && d.spec_linesize() == old(self)@.linesize[
                index as int] && d.spec_height() == height),
            r ==> forall|j: int|
                0 <= j < old(self).spec_planes().len() && j != index ==> #[trigger] final(self).spec_planes()[j]
                    == old(self).spec_planes()[j],
    {
        if index >= self.planes.len() || index >= AV_NUM_DATA_POINTERS {
            return false;
        }
        match FrameData::new(memory, self.frame.linesize[index], height) {
            Some(d) => {
                self.planes.set(index, Some(d));
                true
            },
            None => false,
        }
    }

    /// Writes `bytes` over the first data planes, plane `i` taking `bytes[i]` in memory
    /// order with the line size and height it had. Returns `false`, and changes
    /// nothing, unless the bytes fit those planes (see [`spec_refills`]).
    pub fn refill_planes(&mut self, bytes: Vec<Vec<u8>>) -> (r: bool)
        ensures
            final(self)@ == old(self)@,
            r == spec_refills(old(self).spec_planes(), bytes@),
            r ==> spec_refilled(old(self).spec_planes(), final(self).spec_planes(), bytes@),
            !r ==> final(self).spec_planes() == old(self).spec_planes(),
            old(self).planes_wf() ==> final(self).planes_wf(),
    {
        let n = bytes.len();
        if n > self.planes.len() {
            return false;
        }
        let ghost orig = bytes@;
        let ghost before = self.planes@;
        let mut rest = bytes;
        let mut fresh: Vec<FrameData> = Vec::new();
        let mut k: usize = 0;
        while k < n
            invariant
                orig == bytes@,
                n == orig.len(),
                n <= before.len(),
                before == self.planes@,
                k <= n,
                rest@ == orig.subrange(k as int, n as int),
                fresh@.len() == k,
                forall|i: int|
                    0 <= i < k ==> (#[trigger] before[i] matches Some(d) && FrameData::valid_parts(
                        orig[i]@,
                        d.spec_linesize() as i32,
                        d.spec_height() as i32,
                    )),
                forall|i: int|
                    0 <= i < k ==> (#[trigger] fresh@[i]).wf() && fresh@[i].spec_memory() == orig[i]@
                        && fresh@[i].spec_linesize() == before[i]->0.spec_linesize()
                        && fresh@[i].spec_height() == before[i]->0.spec_height(),
            decreases n - k,
        {
            let (linesize, height) = match &self.planes[k] {
                Some(d) => (d.linesize(), d.height()),
                None => {
                    assert(!spec_refills(before, orig));
                    return false;
                },
            };
            let m = rest.remove(0);
            assert(m == orig[k as int]);
            assert(rest@ =~= orig.subrange(k + 1, n as int));
            match FrameData::new(m, linesize, height) {
                Some(d) => {
                    fresh.push(d);
                },
                None => {
                    assert(!FrameData::valid_parts(
                        orig[k as int]@,
                        before[k as int]->0.spec_linesize() as i32,
                        before[k as int]->0.spec_height() as i32,
                    ));
                    assert(!spec_refills(before, orig));
                    return false;
                },
            }
            k = k + 1;
        }
        let mut j: usize = 0;
        while j < n
            invariant
                n == orig.len(),
                n <= before.len(),
                j <= n,
                fresh@.len() == n - j,
                self@ == old(self)@,
                self.planes@.len() == before.len(),
                forall|i: int|
                    0 <= i < n - j ==> (#[trigger] fresh@[i]).wf() && fresh@[i].spec_memory() == orig[i + j]@
                        && fresh@[i].spec_linesize() == before[i + j]->0.spec_linesize()
                        && fresh@[i].spec_height() == before[i + j]->0.spec_height(),
                forall|i: int|
                    0 <= i < j ==> (#[trigger] self.planes@[i] matches Some(e) && e.wf() && e.spec_memory()
                        == orig[i]@ && e.spec_linesize() == before[i]->0.spec_linesize()
                        && e.spec_height() == before[i]->0.spec_height()),
                forall|i: int| j <= i < before.len() ==> #[trigger] self.planes@[i] == before[i],
            decreases n - j,
        {
            let ghost f0 = fresh@;
            let d = fresh.remove(0);
            assert forall|i: int| 0 <= i < n - j - 1 implies #[trigger] fresh@[i] == f0[i + 1] by {}
            self.planes.set(j, Some(d));
            j = j + 1;
        }
        assert(spec_refilled(before, self.planes@, orig));
        true
    }

    /// Returns data plane `index`, or `None` when the frame has no such plane.
    pub fn plane(&self, index: usize) -> (r: Option<&FrameData>)
        ensures
            index >= self.spec_planes().len() ==> r is None,
            index < self.spec_planes().len() ==> match self.spec_planes()[index as int] {
                Some(d) => r == Some(&d),
                None => r is None,
            },
    {
        if index >= self.planes.len() {
            return None;
        }
        match &self.planes[index] {
            Some(d) => Some(d),
            None => None,
        }
    }

    /// Returns data plane `index` for writing, or `None` when the frame has no such
    /// plane.
    pub fn plane_mut(&mut self, index: usize) -> (r: Option<&mut FrameData>)
        ensures
            final(self)@ == old(self)@,
            index >= old(self).spec_planes().len() ==> r is None && final(self).spec_planes()
                == old(self).spec_planes(),
            index < old(self).spec_planes().len() && old(self).spec_planes()[index as int] is None ==> r
                is None && final(self).spec_planes() == old(self).spec_planes(),
            index < old(self).spec_planes().len() && old(self).spec_planes()[index as int] is Some ==> (
            r matches Some(d) && *d == old(self).spec_planes()[index as int]->0
                && final(self).spec_planes() == old(self).spec_planes().update(
                index as int,
                Some(*final(d)),
            )),
    {
        if index >= self.planes.len() {
            return None;
        }
        match &mut self.planes[index] {
            Some(d) => Some(d),
            None => None,
        }
    }

    /// Returns the values of the frame.
    pub fn as_raw(&self) -> (r: AVFrame)
        ensures
            r == self@,
    {
        self.frame
    }

    /// Returns the presentation timestamp, `None` when there is none.
    pub fn pts(&self) -> (r: Option<i64>)
        ensures
            r == spec_check_i64(self@.pts),
    {
        check_i64(self.frame.pts)
    }

    /// Sets the presentation timestamp; the best effort timestamp follows it.
    pub fn set_pts(&mut self, pts: Option<i64>)
        ensures
            final(self)@ == (AVFrame {
                pts: spec_or_nopts(pts),
                best_effort_timestamp: spec_or_nopts(pts),
                ..old(self)@
            }),
            final(self).spec_planes() == old(self).spec_planes(),
    {
        self.frame.pts = or_nopts(pts);
        self.frame.best_effort_timestamp = or_nopts(pts);
    }

    /// Returns the duration, `None` when it is `AV_NOPTS_VALUE`.
    pub fn duration(&self) -> (r: Option<i64>)
        ensures
            r == spec_check_i64(self@.duration),
    {
        check_i64(self.frame.duration)
    }

    /// Sets the duration.
    pub fn set_duration(&mut self, duration: Option<i64>)
        ensures
            final(self)@ == (AVFrame { duration: spec_or_nopts(duration), ..old(self)@ }),
            final(self).spec_planes() == old(self).spec_planes(),
    {
        self.frame.duration = or_nopts(duration);
    }

    /// Returns the best effort timestamp, `None` when there is none.
    pub fn best_effort_timestamp(&self) -> (r: Option<i64>)
        ensures
            r == spec_check_i64(self@.best_effort_timestamp),
    {
        check_i64(self.frame.best_effort_timestamp)
    }

    /// Returns the decoding timestamp, `None` when there is none.
    pub fn dts(&self) -> (r: Option<i64>)
        ensures
            r == spec_check_i64(self@.pkt_dts),
    {
        check_i64(self.frame.pkt_dts)
    }

    /// Sets the decoding timestamp.
    pub fn set_dts(&mut self, dts: Option<i64>)
        ensures
            final(self)@ == (AVFrame { pkt_dts: spec_or_nopts(dts), ..old(self)@ }),
            final(self).spec_planes() == old(self).spec_planes(),
    {
        self.frame.pkt_dts = or_nopts(dts);
    }

    /// Returns the time base; a zero denominator reads as `0/1`.
    pub fn time_base(&self) -> (r: Rational)
        ensures
            r == Rational::spec_from_av(self@.time_base),
    {
        Rational::from_av(self.frame.time_base)
    }

    /// Sets the time base.
    pub fn set_time_base(&mut self, time_base: Rational)
        ensures
            final(self)@ == (AVFrame { time_base: time_base.spec_to_av(), ..old(self)@ }),
            final(self).spec_planes() == old(self).spec_planes(),
    {
        self.frame.time_base = time_base.to_av();
    }

    /// Returns the raw format (pixel format for video, sample format for audio).
    pub fn format(&self) -> (r: i32)
        ensures
            r == self@.format,
    {
        self.frame.format
    }

    /// Sets the raw format.
    pub fn set_format(&mut self, format: i32)
        ensures
            final(self)@ == (AVFrame { format, ..old(self)@ }),
            final(self).spec_planes() == old(self).spec_planes(),
    {
        self.frame.format = format;
    }

    /// Sets the format to a pixel format.
    pub fn set_pixel_format(&mut self, format: AVPixelFormat)
        ensures
            final(self)@ == (AVFrame { format: format.spec_raw(), ..old(self)@ }),
            final(self).spec_planes() == old(self).spec_planes(),
    {
        self.frame.format = format.raw();
    }

    /// Sets the format to a sample format.
    pub fn set_sample_format(&mut self, format: AVSampleFormat)
        ensures
            final(self)@ == (AVFrame { format: format.spec_raw(), ..old(self)@ }),
            final(self).spec_planes() == old(self).spec_planes(),
    {
        self.frame.format = format.raw();
    }

    /// Returns the hardware frames context; null when the frame is not a hardware
    /// frame.
    pub fn hwframe_ctx(&self) -> (r: BufferRef)
        ensures
            r == self@.hw_frames_ctx,
    {
        self.frame.hw_frames_ctx
    }

    /// Returns `true` when the frame has channels, which makes it an audio frame.
    pub fn is_audio(&self) -> (r: bool)
        ensures
            r == (self@.ch_layout.nb_channels != 0),
    {
        self.frame.ch_layout.nb_channels != 0
    }

    /// Returns `true` when the frame has a width, which makes it a video frame.
    pub fn is_video(&self) -> (r: bool)
        ensures
            r == (self@.width != 0),
    {
        self.frame.width != 0
    }

    /// Returns the line size of plane `index`, or `None` past the last plane.
    pub fn linesize(&self, index: usize) -> (r: Option<i32>)
        ensures
            index < AV_NUM_DATA_POINTERS ==> r == Some(self@.linesize[index as int]),
            index >= AV_NUM_DATA_POINTERS ==> r is None,
    {
        if index >= AV_NUM_DATA_POINTERS {
            return None;
        }
        Some(self.frame.linesize[index])
    }

    /// Takes the properties copied into this frame from another one
    /// (`av_frame_copy_props`): `ret` is the return code of the copy and `copied` the
    /// frame's values as FFmpeg left them. Fails with the error of a negative code,
    /// changing nothing; otherwise the frame takes the copied properties and keeps its
    /// format, size, sample count, channel layout, line sizes and data (see
    /// [`AVFrame::spec_with_props_of`]).
    pub fn copy_props_from(&mut self, ret: i32, copied: AVFrame) -> (r: Result<(), FfmpegError>)
        ensures
            ret < 0 ==> r == Err::<(), FfmpegError>(FfmpegError::Code(FfmpegErrorCode(ret)))
                && final(self)@ == old(self)@,
            ret >= 0 ==> r == Ok::<(), FfmpegError>(()) && final(self)@ == AVFrame::spec_with_props_of(
                old(self)@,
                copied,
            ),
            final(self).spec_planes() == old(self).spec_planes(),
    {
        if ret < 0 {
            return Err(FfmpegError::Code(FfmpegErrorCode(ret)));
        }
        let mut f = copied;
        f.format = self.frame.format;
        f.width = self.frame.width;
        f.height = self.frame.height;
        f.nb_samples = self.frame.nb_samples;
        f.ch_layout = self.frame.ch_layout;
        f.linesize = self.frame.linesize;
        f.hw_frames_ctx = self.frame.hw_frames_ctx;
        self.frame = f;
        Ok(())
    }
}

/// A timestamp set on a frame reads back: after `set_pts(pts)` the presentation and
/// best effort timestamps read `pts`, after `set_dts(dts)` the decoding timestamp
/// reads `dts`, after `set_duration(d)` the duration reads `d`, unless the value set is
/// `Some(AV_NOPTS_VALUE)`, which reads back as `None`.
pub proof fn lemma_timestamps_read_back(before: AVFrame, pts: Option<i64>, dts: Option<i64>, duration: Option<i64>)
    requires
        pts != Some(AV_NOPTS_VALUE),
        dts != Some(AV_NOPTS_VALUE),
        duration != Some(AV_NOPTS_VALUE),
    ensures
        ({
            let after_pts = AVFrame {
                pts: spec_or_nopts(pts),
                best_effort_timestamp: spec_or_nopts(pts),
                ..before
            };
            spec_check_i64(after_pts.pts) == pts && spec_check_i64(after_pts.best_effort_timestamp)
                == pts
        }),
        spec_check_i64((AVFrame { pkt_dts: spec_or_nopts(dts), ..before }).pkt_dts) == dts,
        spec_check_i64((AVFrame { duration: spec_or_nopts(duration), ..before }).duration)
            == duration,
{
}

/// Copying the properties of a frame never changes its format, size, sample count or
/// channel layout, and its timestamps, duration, time base, picture type and sample
/// aspect ratio read as the copy left them.
pub proof fn lemma_copy_props_reads(dst: AVFrame, copied: AVFrame)
    ensures
        ({
            let after = AVFrame::spec_with_props_of(dst, copied);
            &&& spec_check_i64(after.pts) == spec_check_i64(copied.pts)
            &&& spec_check_i64(after.pkt_dts) == spec_check_i64(copied.pkt_dts)
            &&& spec_check_i64(after.duration) == spec_check_i64(copied.duration)
            &&& Rational::spec_from_av(after.time_base) == Rational::spec_from_av(copied.time_base)
            &&& after.pict_type == copied.pict_type
            &&& after.sample_aspect_ratio == copied.sample_aspect_ratio
            &&& after.format == dst.format
            &&& after.width == dst.width
            &&& after.height == dst.height
            &&& after.nb_samples == dst.nb_samples
            &&& after.ch_layout == dst.ch_layout
        }),
{
}

/// Hardware frame mapping flags (`AV_HWFRAME_MAP_*`).
#[derive(Clone, Copy, Debug, PartialEq, Eq, Structural)]
pub struct HwFrameMapFlags(pub i32);

impl HwFrameMapFlags {
    /// The mapping must be readable.
    pub fn read() -> (r: HwFrameMapFlags)
        ensures
            r.0 == 1,
    {
        HwFrameMapFlags(1)
    }

    /// The mapping must be writeable.
    pub fn write() -> (r: HwFrameMapFlags)
        ensures
            r.0 == 2,
    {
        HwFrameMapFlags(2)
    }

    /// The mapped frame will be overwritten completely.
    pub fn overwrite() -> (r: HwFrameMapFlags)
        ensures
            r.0 == 4,
    {
        HwFrameMapFlags(4)
    }

    /// The mapping must be direct (no copying).
    pub fn direct() -> (r: HwFrameMapFlags)
        ensures
            r.0 == 8,
    {
        HwFrameMapFlags(8)
    }

    /// The flags of both operands.
    pub fn bitor(self, rhs: HwFrameMapFlags) -> (r: HwFrameMapFlags)
        ensures
            r.0 == self.0 | rhs.0,
    {
        HwFrameMapFlags(self.0 | rhs.0)
    }
}

/// A freshly allocated frame has no timestamps (`i64::MIN` for the presentation,
/// decoding and best effort ones), a zero duration, no format (-1), no size, no
/// samples, no channels, no line sizes, time base and sample aspect ratio `0/1`, no
/// picture type, no flags, and no hardware frames context.
pub proof fn lemma_fresh_frame()
    ensures
        ({
            let f = AVFrame::spec_defaults();
            &&& f.pts == i64::MIN && f.pkt_dts == i64::MIN && f.best_effort_timestamp == i64::MIN
            &&& spec_check_i64(f.pts) is None && spec_check_i64(f.pkt_dts) is None
            &&& f.duration == 0 && f.format == -1
            &&& f.width == 0 && f.height == 0 && f.nb_samples == 0 && f.sample_rate == 0
            &&& f.ch_layout.nb_channels == 0
            &&& forall|i: int| 0 <= i < 8 ==> #[trigger] f.linesize[i] == 0
            &&& f.time_base == (AVRational { num: 0, den: 1 })
            &&& f.sample_aspect_ratio == (AVRational { num: 0, den: 1 })
            &&& f.pict_type == 0 && f.flags == 0 && f.hw_frames_ctx.0 == 0
        }),
{
}

/// After copying properties, every property (picture type, sample aspect ratio,
/// timestamps and duration, sample rate, time base, quality, repeat count, flags and
/// color properties) is the copied one, and the structure (format, size, sample
/// count, channel layout, line sizes, hardware frames context) is the frame's own.
pub proof fn lemma_copied_properties(dst: AVFrame, copied: AVFrame)
    ensures
        ({
            let a = AVFrame::spec_with_props_of(dst, copied);
            &&& a.pict_type == copied.pict_type && a.sample_aspect_ratio == copied.sample_aspect_ratio
            &&& a.pts == copied.pts && a.pkt_dts == copied.pkt_dts
            &&& a.best_effort_timestamp == copied.best_effort_timestamp && a.duration == copied.duration
            &&& a.sample_rate == copied.sample_rate && a.time_base == copied.time_base
            &&& a.quality == copied.quality && a.repeat_pict == copied.repeat_pict
            &&& a.flags == copied.flags && a.decode_error_flags == copied.decode_error_flags
            &&& a.color_range == copied.color_range && a.color_primaries == copied.color_primaries
            &&& a.color_trc == copied.color_trc && a.colorspace == copied.colorspace
            &&& a.chroma_location == copied.chroma_location
            &&& a.format == dst.format && a.width == dst.width && a.height == dst.height
            &&& a.nb_samples == dst.nb_samples && a.ch_layout == dst.ch_layout
            &&& a.linesize == dst.linesize && a.hw_frames_ctx == dst.hw_frames_ctx
        }),
{
}

/// Refilling planes with bytes that fit writes each given plane with the bytes, in
/// memory order, and its former line size and height, and leaves the others.
pub proof fn lemma_refill_keeps_layout(before: Seq<Option<FrameData>>, after: Seq<Option<FrameData>>, bytes: Seq<Vec<u8>>)
    requires
        spec_refills(before, bytes),
        spec_refilled(before, after, bytes),
    ensures
        after.len() == before.len(),
        forall|i: int|
            0 <= i < bytes.len() ==> (#[trigger] after[i]) is Some && before[i] is Some
                && after[i]->0.spec_memory() == bytes[i]@ && after[i]->0.spec_len() == before[i]->0.spec_len()
                && after[i]->0.spec_linesize() == before[i]->0.spec_linesize()
                && after[i]->0.spec_height() == before[i]->0.spec_height(),
        forall|i: int| bytes.len() <= i < before.len() ==> #[trigger] after[i] == before[i],
{
    assert forall|i: int| 0 <= i < bytes.len() implies (#[trigger] after[i]) is Some && before[i] is Some
        && after[i]->0.spec_memory() == bytes[i]@ && after[i]->0.spec_len() == before[i]->0.spec_len()
        && after[i]->0.spec_linesize() == before[i]->0.spec_linesize()
        && after[i]->0.spec_height() == before[i]->0.spec_height() by {
        assert(before[i] is Some);
    }
}

/// Bytes refill planes exactly when there are no more of them than planes, and each
/// goes to an attached plane and has its length: `|linesize| * height` bytes.
pub proof fn lemma_refill_fits(planes: Seq<Option<FrameData>>, bytes: Seq<Vec<u8>>, i: int)
    requires
        0 <= i < bytes.len(),
        forall|j: int| 0 <= j < planes.len() ==> (#[trigger] planes[j] matches Some(d) ==> d.wf()),
    ensures
        spec_refills(planes, bytes) ==> i < planes.len() && planes[i] is Some && bytes[i]@.len()
            == planes[i]->0.spec_len(),
{
    if spec_refills(planes, bytes) {
        crate::frame::data::lemma_plane_dimensions(planes[i]->0);
        assert(planes[i] matches Some(d) && FrameData::valid_parts(
            bytes[i]@,
            d.spec_linesize() as i32,
            d.spec_height() as i32,
        ));
    }
}

} // verus!
