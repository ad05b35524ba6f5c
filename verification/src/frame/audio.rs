use vstd::prelude::*;

use crate::enums::AVSampleFormat;
use crate::error::{FfmpegError, FfmpegErrorCode};
use crate::frame::data::FrameData;
use crate::frame::generic::{spec_buffers_fit, spec_planes_from, FrameBuffers, GenericFrame, AV_NUM_DATA_POINTERS};
use crate::rational::{AVRational, Rational};
use crate::raw::{AVChannelLayout, AVFrame};
use crate::utils::AV_NOPTS_VALUE;

verus! {

/// A channel layout that an audio frame or an encoder takes over.
pub struct AudioChannelLayout(AVChannelLayout);

impl View for AudioChannelLayout {
    type V = AVChannelLayout;

    closed spec fn view(&self) -> AVChannelLayout {
        self.0
    }
}

impl Default for AudioChannelLayout {
    /// The all-zero layout: unspecified order, no channels.
    fn default() -> (r: AudioChannelLayout)
        ensures
            r@ == AVChannelLayout::spec_zeroed(),
    {
        AudioChannelLayout(AVChannelLayout::zeroed())
    }
}

impl AudioChannelLayout {
    /// Wraps the values of a channel layout.
    pub fn wrap(layout: AVChannelLayout) -> (r: AudioChannelLayout)
        ensures
            r@ == layout,
    {
        AudioChannelLayout(layout)
    }

    /// Returns a copy of this layout.
    pub fn copy(&self) -> (r: Result<AudioChannelLayout, FfmpegError>)
        ensures
            r matches Ok(c) && c@ == self@,
    {
        Ok(AudioChannelLayout(self.0))
    }

    /// Turns the verdict of FFmpeg's layout check (`av_channel_layout_check`, which
    /// returns `0` for an invalid layout) on this layout into a result: an error for
    /// an invalid layout, `Ok` otherwise.
    pub fn validate(&self, check_result: i32) -> (r: Result<(), FfmpegError>)
        ensures
            check_result == 0 ==> (r matches Err(FfmpegError::Arguments(m)) && m@
                == "invalid channel layout"@),
            check_result != 0 ==> r is Ok,
    {
        if check_result == 0 {
            return Err(FfmpegError::Arguments("invalid channel layout"));
        }
        Ok(())
    }

    /// Returns the number of channels.
    pub fn channel_count(&self) -> (r: i32)
        ensures
            r == self@.nb_channels,
    {
        self.0.nb_channels
    }

    /// Returns the values of the layout.
    pub fn into_inner(self) -> (r: AVChannelLayout)
        ensures
            r == self@,
    {
        self.0
    }

    /// Moves this layout into `layout`.
    pub fn apply(self, layout: &mut AVChannelLayout)
        ensures
            *final(layout) == self@,
    {
        *layout = self.0;
    }
}

/// An audio frame: a frame with audio properties.
pub struct AudioFrame(pub(crate) GenericFrame);

impl View for AudioFrame {
    type V = AVFrame;

    closed spec fn view(&self) -> AVFrame {
        self.0@
    }
}

/// The frame `AudioFrame::new` builds from its arguments.
pub open spec fn spec_new_audio_frame(
    channel_layout: AVChannelLayout,
    nb_samples: i32,
    sample_fmt: AVSampleFormat,
    sample_rate: i32,
    duration: i64,
    pts: i64,
    dts: i64,
    time_base: Rational,
) -> AVFrame {
    AVFrame {
        ch_layout: channel_layout,
        nb_samples,
        format: sample_fmt.spec_raw(),
        sample_rate,
        duration,
        pts,
        best_effort_timestamp: pts,
        time_base: time_base.spec_to_av(),
        pkt_dts: dts,
        ..AVFrame::spec_defaults()
    }
}

impl Clone for AudioFrame {
    /// A frame with the same values.
    fn clone(&self) -> (r: AudioFrame)
        ensures
            r@ == self@,
    {
        AudioFrame(self.0.clone())
    }
}

impl core::ops::Deref for AudioFrame {
    type Target = GenericFrame;

    fn deref(&self) -> (r: &GenericFrame)
        ensures
            r@ == self@,
    {
        &self.0
    }
}

impl GenericFrame {
    /// Makes this frame an audio frame.
    pub fn audio(self) -> (r: AudioFrame)
        ensures
            r@ == self@,
            r.spec_planes() == self.spec_planes(),
    {
        AudioFrame(self)
    }
}

/// `count` heights of one row each: an audio plane is one row of samples.
pub open spec fn spec_audio_heights(count: nat) -> Seq<i32> {
    Seq::new(count, |i: int| 1i32)
}

/// Makes `count` heights of one row each.
fn audio_heights(count: usize) -> (r: Vec<i32>)
    ensures
        r@ == spec_audio_heights(count as nat),
{
    let mut v: Vec<i32> = Vec::new();
    let mut i: usize = 0;
    while i < count
        invariant
            i <= count,
            v@ =~= spec_audio_heights(i as nat),
        decreases count - i,
    {
        v.push(1);
        i = i + 1;
    }
    v
}

impl AudioFrame {
    /// Whether `r` is what creating an audio frame gives for arguments that passed
    /// their checks, where `raw` is the frame those arguments describe and `buffers`
    /// what FFmpeg's buffer allocation handed back: its error code when it failed,
    /// otherwise the frame with the allocation's line sizes and the allocated buffers
    /// as its planes, one row each, or `Alloc` when the buffers do not fit those line
    /// sizes.
    pub open spec fn spec_allocated(r: Result<AudioFrame, FfmpegError>, raw: AVFrame, buffers: FrameBuffers) -> bool {
        let heights = spec_audio_heights(buffers.planes@.len());
        if buffers.ret < 0 {
            r == Err::<AudioFrame, FfmpegError>(FfmpegError::Code(FfmpegErrorCode(buffers.ret)))
        } else if !spec_buffers_fit(buffers.linesize, buffers.planes@, heights) {
            r == Err::<AudioFrame, FfmpegError>(FfmpegError::Alloc)
        } else {
            r matches Ok(f) && f@ == (AVFrame { linesize: buffers.linesize, ..raw })
                && spec_planes_from(f.spec_planes(), buffers.planes@, buffers.linesize, heights)
        }
    }

    /// Creates an audio frame with the given layout, sample count, sample format and
    /// sample rate, whose data planes are the buffers FFmpeg allocated for it
    /// (`av_frame_get_buffer`, with that alignment, `0` for automatic), as `buffers`
    /// hands them over.
    ///
    /// Fails when the sample rate or the sample count is not positive, or the
    /// alignment is negative; then as [`AudioFrame::spec_allocated`] says.
    pub fn new(
        channel_layout: AudioChannelLayout,
        nb_samples: i32,
        sample_fmt: AVSampleFormat,
        sample_rate: i32,
        duration: i64,
        pts: i64,
        dts: i64,
        time_base: Rational,
        alignment: i32,
        buffers: FrameBuffers,
    ) -> (r: Result<AudioFrame, FfmpegError>)
        ensures
            (sample_rate <= 0 || nb_samples <= 0) ==> (r matches Err(FfmpegError::Arguments(m))
                && m@ == "sample_rate and nb_samples must be positive and not 0"@),
            (sample_rate > 0 && nb_samples > 0 && alignment < 0) ==> (r matches Err(
                FfmpegError::Arguments(m),
            ) && m@ == "alignment must be positive"@),
            (sample_rate > 0 && nb_samples > 0 && alignment >= 0) ==> AudioFrame::spec_allocated(
                r,
                spec_new_audio_frame(
                    channel_layout@,
                    nb_samples,
                    sample_fmt,
                    sample_rate,
                    duration,
                    pts,
                    dts,
                    time_base,
                ),
                buffers,
            ),
    {
        if sample_rate <= 0 || nb_samples <= 0 {
            return Err(FfmpegError::Arguments("sample_rate and nb_samples must be positive and not 0"));
        }
        if alignment < 0 {
            return Err(FfmpegError::Arguments("alignment must be positive"));
        }
        let generic = GenericFrame::new();
        let mut frame = match generic {
            Ok(f) => f.as_raw(),
            Err(e) => return Err(e),
        };
        channel_layout.apply(&mut frame.ch_layout);
        frame.nb_samples = nb_samples;
        frame.format = sample_fmt.raw();
        frame.sample_rate = sample_rate;
        frame.duration = duration;
        frame.pts = pts;
        frame.best_effort_timestamp = pts;
        frame.time_base = time_base.to_av();
        frame.pkt_dts = dts;
        if buffers.ret < 0 {
            return Err(FfmpegError::Code(FfmpegErrorCode(buffers.ret)));
        }
        let heights = audio_heights(buffers.planes.len());
        match GenericFrame::with_buffers(frame, buffers.linesize, buffers.planes, &heights) {
            Some(g) => Ok(AudioFrame(g)),
            None => Err(FfmpegError::Alloc),
        }
    }

    /// Starts a builder with the defaults of `new`: an empty channel layout, no
    /// samples, no format, no timestamps, zero duration, time base `0/1` and automatic
    /// alignment.
    pub fn builder() -> (r: AudioFrameBuilder)
        ensures
            r.channel_layout@ == AVChannelLayout::spec_zeroed(),
            r.nb_samples == 0 && r.sample_rate == 0,
            r.sample_fmt == AVSampleFormat::NoFormat,
            r.pts == AV_NOPTS_VALUE && r.dts == AV_NOPTS_VALUE && r.duration == 0,
            r.time_base == Rational::spec_zero() && r.alignment == 0,
    {
        AudioFrameBuilder {
            channel_layout: AudioChannelLayout::default(),
            nb_samples: 0,
            sample_fmt: AVSampleFormat::NoFormat,
            sample_rate: 0,
            duration: 0,
            pts: AV_NOPTS_VALUE,
            dts: AV_NOPTS_VALUE,
            time_base: Rational::zero(),
            alignment: 0,
        }
    }

    /// Returns the frame as a generic frame.
    pub fn as_generic(&self) -> (r: &GenericFrame)
        ensures
            r@ == self@,
    {
        &self.0
    }

    /// Returns the frame as a mutable generic frame.
    pub fn as_generic_mut(&mut self) -> (r: &mut GenericFrame)
        ensures
            r@ == old(self)@,
            r.spec_planes() == old(self).spec_planes(),
            final(self)@ == final(r)@,
            final(self).spec_planes() == final(r).spec_planes(),
    {
        &mut self.0
    }

    /// Returns the generic frame.
    pub fn into_generic(self) -> (r: GenericFrame)
        ensures
            r@ == self@,
    {
        self.0
    }

    /// Returns a copy of the channel layout.
    pub fn channel_layout(&self) -> (r: AudioChannelLayout)
        ensures
            r@ == self@.ch_layout,
    {
        AudioChannelLayout::wrap(self.0.as_raw().ch_layout)
    }

    /// Returns the number of channels.
    pub fn channel_count(&self) -> (r: usize)
        ensures
            r == self@.ch_layout.nb_channels as usize,
    {
        self.0.as_raw().ch_layout.nb_channels as usize
    }

    /// Returns the number of samples per channel.
    pub fn nb_samples(&self) -> (r: i32)
        ensures
            r == self@.nb_samples,
    {
        self.0.as_raw().nb_samples
    }

    /// Returns the sample rate.
    pub fn sample_rate(&self) -> (r: i32)
        ensures
            r == self@.sample_rate,
    {
        self.0.as_raw().sample_rate
    }

    /// Sets the sample rate (truncated to an `i32`).
    pub fn set_sample_rate(&mut self, sample_rate: usize)
        ensures
            final(self)@ == (AVFrame { sample_rate: sample_rate as i32, ..old(self)@ }),
    {
        let mut frame = self.0.as_raw();
        frame.sample_rate = sample_rate as i32;
        self.0.set_raw(frame);
    }

    /// The data planes attached to the frame, by index.
    pub closed spec fn spec_planes(&self) -> Seq<Option<FrameData>> {
        self.0.spec_planes()
    }

    /// Attaches `memory` as data plane `index`: one row of the frame's line size for
    /// that plane. Returns `false`, and changes nothing, when there is no such plane
    /// or the memory does not hold exactly `|linesize|` bytes.
    pub fn attach_plane(&mut self, index: usize, memory: Vec<u8>) -> (r: bool)
        ensures
            final(self)@ == old(self)@,
            r == (index < old(self).spec_planes().len() && index < AV_NUM_DATA_POINTERS
                && FrameData::valid_parts(memory@, old(self)@.linesize[index as int], 1)),
            !r ==> final(self).spec_planes() == old(self).spec_planes(),
            r ==> (final(self).spec_planes()[index as int] matches Some(d) && d.wf()
                && d.spec_memory() == memory@ && d.spec_linesize() == old(self)@.linesize[
                index as int] && d.spec_height() == 1),
    {
        self.0.attach_plane(index, memory, 1)
    }

    /// Returns data plane `index`: `None` past the last plane, when no plane is
    /// attached there, or when its line size is negative.
    pub fn data(&self, index: usize) -> (r: Option<&FrameData>)
        ensures
            (index >= AV_NUM_DATA_POINTERS || index >= self.spec_planes().len()) ==> r is None,
            (index < AV_NUM_DATA_POINTERS && index < self.spec_planes().len()) ==> match self.spec_planes()[
                index as int] {
                Some(d) => if self@.linesize[index as int] < 0 {
                    r is None
                } else {
                    r == Some(&d)
                },
                None => r is None,
            },
    {
        if index >= AV_NUM_DATA_POINTERS {
            return None;
        }
        if self.0.as_raw().linesize[index] < 0 {
            return None;
        }
        self.0.plane(index)
    }

    /// Returns data plane `index` for writing, under the same conditions as
    /// [`AudioFrame::data`].
    pub fn data_mut(&mut self, index: usize) -> (r: Option<&mut FrameData>)
        ensures
            final(self)@ == old(self)@,
            (index >= AV_NUM_DATA_POINTERS || index >= old(self).spec_planes().len()
                || old(self).spec_planes()[index as int] is None || old(self)@.linesize[index as int] < 0)
                ==> r is None && final(self).spec_planes() == old(self).spec_planes(),
            (index < AV_NUM_DATA_POINTERS && index < old(self).spec_planes().len()
                && old(self).spec_planes()[index as int] is Some && old(self)@.linesize[index as int] >= 0)
                ==> (r matches Some(d) && *d == old(self).spec_planes()[index as int]->0
                && final(self).spec_planes() == old(self).spec_planes().update(
                index as int,
                Some(*final(d)),
            )),
    {
        if index >= AV_NUM_DATA_POINTERS {
            return None;
        }
        if self.0.as_raw().linesize[index] < 0 {
            return None;
        }
        self.0.plane_mut(index)
    }

    /// Returns the sample format.
    pub fn format(&self) -> (r: AVSampleFormat)
        ensures
            r == AVSampleFormat::spec_from_raw(self@.format),
    {
        AVSampleFormat::from_raw(self.0.as_raw().format)
    }
}

/// A builder for [`AudioFrame`].
pub struct AudioFrameBuilder {
    /// The channel layout.
    pub channel_layout: AudioChannelLayout,
    /// The number of samples per channel.
    pub nb_samples: i32,
    /// The sample format.
    pub sample_fmt: AVSampleFormat,
    /// The sample rate.
    pub sample_rate: i32,
    /// The duration.
    pub duration: i64,
    /// The presentation timestamp.
    pub pts: i64,
    /// The decoding timestamp.
    pub dts: i64,
    /// The time base.
    pub time_base: Rational,
    /// The alignment of the data planes, `0` for automatic.
    pub alignment: i32,
}

impl AudioFrameBuilder {
    /// Sets the channel layout.
    pub fn channel_layout(self, channel_layout: AudioChannelLayout) -> (r: AudioFrameBuilder)
        ensures
            r.channel_layout@ == channel_layout@,
            r.nb_samples == self.nb_samples && r.sample_fmt == self.sample_fmt,
            r.sample_rate == self.sample_rate && r.duration == self.duration,
            r.pts == self.pts && r.dts == self.dts,
            r.time_base == self.time_base && r.alignment == self.alignment,
    {
        AudioFrameBuilder { channel_layout, ..self }
    }

    /// Sets the number of samples per channel.
    pub fn nb_samples(self, nb_samples: i32) -> (r: AudioFrameBuilder)
        ensures
            r == (AudioFrameBuilder { nb_samples, ..self }),
    {
        AudioFrameBuilder { nb_samples, ..self }
    }

    /// Sets the sample format.
    pub fn sample_fmt(self, sample_fmt: AVSampleFormat) -> (r: AudioFrameBuilder)
        ensures
            r == (AudioFrameBuilder { sample_fmt, ..self }),
    {
        AudioFrameBuilder { sample_fmt, ..self }
    }

    /// Sets the sample rate.
    pub fn sample_rate(self, sample_rate: i32) -> (r: AudioFrameBuilder)
        ensures
            r == (AudioFrameBuilder { sample_rate, ..self }),
    {
        AudioFrameBuilder { sample_rate, ..self }
    }

    /// Sets the duration.
    pub fn duration(self, duration: i64) -> (r: AudioFrameBuilder)
        ensures
            r == (AudioFrameBuilder { duration, ..self }),
    {
        AudioFrameBuilder { duration, ..self }
    }

    /// Sets the presentation timestamp.
    pub fn pts(self, pts: i64) -> (r: AudioFrameBuilder)
        ensures
            r == (AudioFrameBuilder { pts, ..self }),
    {
        AudioFrameBuilder { pts, ..self }
    }

    /// Sets the decoding timestamp.
    pub fn dts(self, dts: i64) -> (r: AudioFrameBuilder)
        ensures
            r == (AudioFrameBuilder { dts, ..self }),
    {
        AudioFrameBuilder { dts, ..self }
    }

    /// Sets the time base.
    pub fn time_base(self, time_base: Rational) -> (r: AudioFrameBuilder)
        ensures
            r == (AudioFrameBuilder { time_base, ..self }),
    {
        AudioFrameBuilder { time_base, ..self }
    }

    /// Sets the alignment of the data planes.
    pub fn alignment(self, alignment: i32) -> (r: AudioFrameBuilder)
        ensures
            r == (AudioFrameBuilder { alignment, ..self }),
    {
        AudioFrameBuilder { alignment, ..self }
    }

    /// Builds the frame with [`AudioFrame::new`], from the buffers FFmpeg allocated
    /// for it.
    pub fn build(self, buffers: FrameBuffers) -> (r: Result<AudioFrame, FfmpegError>)
        ensures
            (self.sample_rate <= 0 || self.nb_samples <= 0) ==> (r matches Err(
                FfmpegError::Arguments(m),
            ) && m@ == "sample_rate and nb_samples must be positive and not 0"@),
            (self.sample_rate > 0 && self.nb_samples > 0 && self.alignment < 0) ==> (r matches Err(
                FfmpegError::Arguments(m),
            ) && m@ == "alignment must be positive"@),
            (self.sample_rate > 0 && self.nb_samples > 0 && self.alignment >= 0)
                ==> AudioFrame::spec_allocated(
                r,
                spec_new_audio_frame(
                    self.channel_layout@,
                    self.nb_samples,
                    self.sample_fmt,
                    self.sample_rate,
                    self.duration,
                    self.pts,
                    self.dts,
                    self.time_base,
                ),
                buffers,
            ),
    {
        AudioFrame::new(
            self.channel_layout,
            self.nb_samples,
            self.sample_fmt,
            self.sample_rate,
            self.duration,
            self.pts,
            self.dts,
            self.time_base,
            self.alignment,
            buffers,
        )
    }
}

/// An audio frame that building gives holds what it was built with: its channel
/// layout, sample count, sample format, sample rate, timestamps (the best effort
/// timestamp being the presentation one), duration and time base, no size, the line
/// sizes of the allocation, and each allocated buffer as the one-row plane at its
/// index, no plane past them; a failed allocation is its error.
pub proof fn lemma_built_audio_frame(
    r: Result<AudioFrame, FfmpegError>,
    channel_layout: AVChannelLayout,
    nb_samples: i32,
    sample_fmt: AVSampleFormat,
    sample_rate: i32,
    duration: i64,
    pts: i64,
    dts: i64,
    time_base: Rational,
    buffers: FrameBuffers,
)
    requires
        AudioFrame::spec_allocated(
            r,
            spec_new_audio_frame(channel_layout, nb_samples, sample_fmt, sample_rate, duration, pts, dts, time_base),
            buffers,
        ),
    ensures
        buffers.ret < 0 ==> r == Err::<AudioFrame, FfmpegError>(FfmpegError::Code(FfmpegErrorCode(buffers.ret))),
        r matches Ok(f) ==> {
            &&& f@.ch_layout == channel_layout && f@.nb_samples == nb_samples
            &&& f@.format == sample_fmt.spec_raw() && f@.sample_rate == sample_rate
            &&& f@.pts == pts && f@.best_effort_timestamp == pts && f@.pkt_dts == dts
            &&& f@.duration == duration
            &&& f@.time_base == (AVRational { num: time_base.numerator, den: time_base.denominator })
            &&& f@.width == 0 && f@.height == 0
            &&& f@.linesize == buffers.linesize
            &&& f.spec_planes().len() == AV_NUM_DATA_POINTERS
            &&& buffers.planes@.len() <= AV_NUM_DATA_POINTERS
            &&& forall|i: int|
                0 <= i < buffers.planes@.len() ==> (#[trigger] f.spec_planes()[i] matches Some(p)
                    && p.spec_memory() == buffers.planes@[i]@ && p.spec_linesize() == buffers.linesize[i]
                    && p.spec_height() == 1)
            &&& forall|i: int| buffers.planes@.len() <= i < AV_NUM_DATA_POINTERS ==> (#[trigger] f.spec_planes()[i]) is None
        },
{
}

} // verus!
