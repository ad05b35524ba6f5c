use vstd::prelude::*;

use crate::decoder::AV_CODEC_FLAG_LOW_DELAY;
use crate::dict::Dictionary;
use crate::enums::{AVPixelFormat, AVSampleFormat};
use crate::error::FfmpegError;
use crate::frame::AudioChannelLayout;
use crate::rational::{AVRational, Rational};
use crate::raw::AVCodecContext;

verus! {

/// The value in `o`, or `default` when there is none.
pub open spec fn or_keep<A>(o: Option<A>, default: A) -> A {
    match o {
        Some(v) => v,
        None => default,
    }
}

/// The settings of a video encoder.
pub struct VideoEncoderSettings {
    /// The width in pixels.
    pub width: i32,
    /// The height in pixels.
    pub height: i32,
    /// The frame rate.
    pub frame_rate: Rational,
    /// The pixel format.
    pub pixel_format: AVPixelFormat,
    /// The group of pictures size.
    pub gop_size: Option<i32>,
    /// The maximum quantizer.
    pub qmax: Option<i32>,
    /// The minimum quantizer.
    pub qmin: Option<i32>,
    /// The number of threads.
    pub thread_count: Option<i32>,
    /// The threading method (`FF_THREAD_*`).
    pub thread_type: Option<i32>,
    /// The sample aspect ratio.
    pub sample_aspect_ratio: Option<Rational>,
    /// The average bit rate.
    pub bitrate: Option<i64>,
    /// The minimum bit rate.
    pub rc_min_rate: Option<i64>,
    /// The maximum bit rate.
    pub rc_max_rate: Option<i64>,
    /// The rate control buffer size.
    pub rc_buffer_size: Option<i32>,
    /// The maximum number of B-frames between non-B-frames.
    pub max_b_frames: Option<i32>,
    /// Options for the codec itself.
    pub codec_specific_options: Option<Dictionary>,
    /// Codec flags (`AV_CODEC_FLAG_*`).
    pub flags: Option<i32>,
    /// Codec flags (`AV_CODEC_FLAG2_*`).
    pub flags2: Option<i32>,
    /// Whether to force low-delay mode (`AV_CODEC_FLAG_LOW_DELAY`).
    pub low_delay: Option<bool>,
    /// The color range: 1 for MPEG (limited), 2 for JPEG (full).
    pub color_range: Option<u32>,
}

/// Whether video settings are complete: a positive size, a positive frame rate and a
/// pixel format.
pub open spec fn spec_video_settings_valid(s: &VideoEncoderSettings) -> bool {
    s.width > 0 && s.height > 0 && s.frame_rate.numerator > 0 && s.pixel_format.spec_raw() != -1
}

/// `ctx` with video settings applied: the size, pixel format and frame rate always,
/// each optional setting that is given, and the low-delay flag added when asked for.
pub open spec fn spec_apply_video(s: &VideoEncoderSettings, ctx: AVCodecContext) -> AVCodecContext {
    let flags = or_keep(s.flags, ctx.flags);
    AVCodecContext {
        width: s.width,
        height: s.height,
        pix_fmt: s.pixel_format.spec_raw(),
        sample_aspect_ratio: match s.sample_aspect_ratio {
            Some(r) => r.spec_to_av(),
            None => ctx.sample_aspect_ratio,
        },
        framerate: s.frame_rate.spec_to_av(),
        thread_count: or_keep(s.thread_count, ctx.thread_count),
        thread_type: or_keep(s.thread_type, ctx.thread_type),
        gop_size: or_keep(s.gop_size, ctx.gop_size),
        qmax: or_keep(s.qmax, ctx.qmax),
        qmin: or_keep(s.qmin, ctx.qmin),
        bit_rate: or_keep(s.bitrate, ctx.bit_rate),
        rc_min_rate: or_keep(s.rc_min_rate, ctx.rc_min_rate),
        rc_max_rate: or_keep(s.rc_max_rate, ctx.rc_max_rate),
        rc_buffer_size: or_keep(s.rc_buffer_size, ctx.rc_buffer_size),
        max_b_frames: or_keep(s.max_b_frames, ctx.max_b_frames),
        flags: if or_keep(s.low_delay, false) {
            flags | AV_CODEC_FLAG_LOW_DELAY
        } else {
            flags
        },
        flags2: or_keep(s.flags2, ctx.flags2),
        color_range: or_keep(s.color_range, ctx.color_range),
        ..ctx
    }
}

impl VideoEncoderSettings {
    /// Starts a builder with nothing set: a zero size, frame rate `0/1`, no pixel
    /// format and no optional setting.
    pub fn builder() -> (r: VideoEncoderSettings)
        ensures
            r.width == 0 && r.height == 0 && r.frame_rate == Rational::spec_zero(),
            r.pixel_format == AVPixelFormat::NoFormat,
            r.gop_size is None && r.qmax is None && r.qmin is None && r.thread_count is None,
            r.thread_type is None && r.sample_aspect_ratio is None && r.bitrate is None,
            r.rc_min_rate is None && r.rc_max_rate is None && r.rc_buffer_size is None,
            r.max_b_frames is None && r.codec_specific_options is None && r.flags is None,
            r.flags2 is None && r.low_delay is None && r.color_range is None,
    {
        VideoEncoderSettings {
            width: 0,
            height: 0,
            frame_rate: Rational::zero(),
            pixel_format: AVPixelFormat::NoFormat,
            gop_size: None,
            qmax: None,
            qmin: None,
            thread_count: None,
            thread_type: None,
            sample_aspect_ratio: None,
            bitrate: None,
            rc_min_rate: None,
            rc_max_rate: None,
            rc_buffer_size: None,
            max_b_frames: None,
            codec_specific_options: None,
            flags: None,
            flags2: None,
            low_delay: None,
            color_range: None,
        }
    }

    /// Finishes the builder.
    pub fn build(self) -> (r: VideoEncoderSettings)
        ensures
            r == self,
    {
        self
    }

    /// Sets the width.
    pub fn width(self, width: i32) -> (r: VideoEncoderSettings)
        ensures
            r == (VideoEncoderSettings { width, ..self }),
    {
        VideoEncoderSettings { width, ..self }
    }

    /// Sets the height.
    pub fn height(self, height: i32) -> (r: VideoEncoderSettings)
        ensures
            r == (VideoEncoderSettings { height, ..self }),
    {
        VideoEncoderSettings { height, ..self }
    }

    /// Sets the frame rate.
    pub fn frame_rate(self, frame_rate: Rational) -> (r: VideoEncoderSettings)
        ensures
            r == (VideoEncoderSettings { frame_rate, ..self }),
    {
        VideoEncoderSettings { frame_rate, ..self }
    }

    /// Sets the pixel format.
    pub fn pixel_format(self, pixel_format: AVPixelFormat) -> (r: VideoEncoderSettings)
        ensures
            r == (VideoEncoderSettings { pixel_format, ..self }),
    {
        VideoEncoderSettings { pixel_format, ..self }
    }

    /// Sets the group of pictures size.
    pub fn gop_size(self, gop_size: i32) -> (r: VideoEncoderSettings)
        ensures
            r == (VideoEncoderSettings { gop_size: Some(gop_size), ..self }),
    {
        VideoEncoderSettings { gop_size: Some(gop_size), ..self }
    }

    /// Sets the maximum quantizer.
    pub fn qmax(self, qmax: i32) -> (r: VideoEncoderSettings)
        ensures
            r == (VideoEncoderSettings { qmax: Some(qmax), ..self }),
    {
        VideoEncoderSettings { qmax: Some(qmax), ..self }
    }

    /// Sets the minimum quantizer.
    pub fn qmin(self, qmin: i32) -> (r: VideoEncoderSettings)
        ensures
            r == (VideoEncoderSettings { qmin: Some(qmin), ..self }),
    {
        VideoEncoderSettings { qmin: Some(qmin), ..self }
    }

    /// Sets the number of threads.
    pub fn thread_count(self, thread_count: i32) -> (r: VideoEncoderSettings)
        ensures
            r == (VideoEncoderSettings { thread_count: Some(thread_count), ..self }),
    {
        VideoEncoderSettings { thread_count: Some(thread_count), ..self }
    }

    /// Sets the threading method.
    pub fn thread_type(self, thread_type: i32) -> (r: VideoEncoderSettings)
        ensures
            r == (VideoEncoderSettings { thread_type: Some(thread_type), ..self }),
    {
        VideoEncoderSettings { thread_type: Some(thread_type), ..self }
    }

    /// Sets the sample aspect ratio.
    pub fn sample_aspect_ratio(self, sample_aspect_ratio: Rational) -> (r: VideoEncoderSettings)
        ensures
            r == (VideoEncoderSettings { sample_aspect_ratio: Some(sample_aspect_ratio), ..self }),
    {
        VideoEncoderSettings { sample_aspect_ratio: Some(sample_aspect_ratio), ..self }
    }

    /// Sets the average bit rate.
    pub fn bitrate(self, bitrate: i64) -> (r: VideoEncoderSettings)
        ensures
            r == (VideoEncoderSettings { bitrate: Some(bitrate), ..self }),
    {
        VideoEncoderSettings { bitrate: Some(bitrate), ..self }
    }

    /// Sets the minimum bit rate.
    pub fn rc_min_rate(self, rc_min_rate: i64) -> (r: VideoEncoderSettings)
        ensures
            r == (VideoEncoderSettings { rc_min_rate: Some(rc_min_rate), ..self }),
    {
        VideoEncoderSettings { rc_min_rate: Some(rc_min_rate), ..self }
    }

    /// Sets the maximum bit rate.
    pub fn rc_max_rate(self, rc_max_rate: i64) -> (r: VideoEncoderSettings)
        ensures
            r == (VideoEncoderSettings { rc_max_rate: Some(rc_max_rate), ..self }),
    {
        VideoEncoderSettings { rc_max_rate: Some(rc_max_rate), ..self }
    }

    /// Sets the rate control buffer size.
    pub fn rc_buffer_size(self, rc_buffer_size: i32) -> (r: VideoEncoderSettings)
        ensures
            r == (VideoEncoderSettings { rc_buffer_size: Some(rc_buffer_size), ..self }),
    {
        VideoEncoderSettings { rc_buffer_size: Some(rc_buffer_size), ..self }
    }

    /// Sets the maximum number of B-frames.
    pub fn max_b_frames(self, max_b_frames: i32) -> (r: VideoEncoderSettings)
        ensures
            r == (VideoEncoderSettings { max_b_frames: Some(max_b_frames), ..self }),
    {
        VideoEncoderSettings { max_b_frames: Some(max_b_frames), ..self }
    }

    /// Sets the options for the codec itself.
    pub fn codec_specific_options(self, options: Dictionary) -> (r: VideoEncoderSettings)
        ensures
            r.codec_specific_options matches Some(d) && d@ == options@,
            r.width == self.width && r.height == self.height && r.frame_rate == self.frame_rate,
            r.pixel_format == self.pixel_format && r.gop_size == self.gop_size,
            r.qmax == self.qmax && r.qmin == self.qmin && r.thread_count == self.thread_count,
            r.thread_type == self.thread_type && r.sample_aspect_ratio == self.sample_aspect_ratio,
            r.bitrate == self.bitrate && r.rc_min_rate == self.rc_min_rate,
            r.rc_max_rate == self.rc_max_rate && r.rc_buffer_size == self.rc_buffer_size,
            r.max_b_frames == self.max_b_frames && r.flags == self.flags,
            r.flags2 == self.flags2 && r.low_delay == self.low_delay,
            r.color_range == self.color_range,
    {
        VideoEncoderSettings { codec_specific_options: Some(options), ..self }
    }

    /// Sets the codec flags.
    pub fn flags(self, flags: i32) -> (r: VideoEncoderSettings)
        ensures
            r == (VideoEncoderSettings { flags: Some(flags), ..self }),
    {
        VideoEncoderSettings { flags: Some(flags), ..self }
    }

    /// Sets the second codec flags.
    pub fn flags2(self, flags2: i32) -> (r: VideoEncoderSettings)
        ensures
            r == (VideoEncoderSettings { flags2: Some(flags2), ..self }),
    {
        VideoEncoderSettings { flags2: Some(flags2), ..self }
    }

    /// Sets whether to force low-delay mode.
    pub fn low_delay(self, low_delay: bool) -> (r: VideoEncoderSettings)
        ensures
            r == (VideoEncoderSettings { low_delay: Some(low_delay), ..self }),
    {
        VideoEncoderSettings { low_delay: Some(low_delay), ..self }
    }

    /// Sets the color range.
    pub fn color_range(self, color_range: u32) -> (r: VideoEncoderSettings)
        ensures
            r == (VideoEncoderSettings { color_range: Some(color_range), ..self }),
    {
        VideoEncoderSettings { color_range: Some(color_range), ..self }
    }

    /// Applies the settings to an encoder's context. Fails, and changes nothing, unless
    /// the size and frame rate are positive and a pixel format is set.
    pub fn apply(self, encoder: &mut AVCodecContext) -> (r: Result<(), FfmpegError>)
        ensures
            !spec_video_settings_valid(&self) ==> (r matches Err(FfmpegError::Arguments(m)) && m@
                == "width, height, frame_rate and pixel_format must be set"@ && *final(encoder)
                == *old(encoder)),
            spec_video_settings_valid(&self) ==> r is Ok && *final(encoder) == spec_apply_video(
                &self,
                *old(encoder),
            ),
    {
        if self.width <= 0 || self.height <= 0 || self.frame_rate.numerator <= 0
            || self.pixel_format.raw() == -1 {
            return Err(FfmpegError::Arguments("width, height, frame_rate and pixel_format must be set"));
        }
        encoder.width = self.width;
        encoder.height = self.height;
        encoder.pix_fmt = self.pixel_format.raw();
        encoder.sample_aspect_ratio = match self.sample_aspect_ratio {
            Some(r) => r.to_av(),
            None => encoder.sample_aspect_ratio,
        };
        encoder.framerate = self.frame_rate.to_av();
        encoder.thread_count = self.thread_count.unwrap_or(encoder.thread_count);
        encoder.thread_type = self.thread_type.unwrap_or(encoder.thread_type);
        encoder.gop_size = self.gop_size.unwrap_or(encoder.gop_size);
        encoder.qmax = self.qmax.unwrap_or(encoder.qmax);
        encoder.qmin = self.qmin.unwrap_or(encoder.qmin);
        encoder.bit_rate = self.bitrate.unwrap_or(encoder.bit_rate);
        encoder.rc_min_rate = self.rc_min_rate.unwrap_or(encoder.rc_min_rate);
        encoder.rc_max_rate = self.rc_max_rate.unwrap_or(encoder.rc_max_rate);
        encoder.rc_buffer_size = self.rc_buffer_size.unwrap_or(encoder.rc_buffer_size);
        encoder.max_b_frames = self.max_b_frames.unwrap_or(encoder.max_b_frames);
        encoder.flags = self.flags.unwrap_or(encoder.flags);
        encoder.flags2 = self.flags2.unwrap_or(encoder.flags2);
        if self.low_delay.unwrap_or(false) {
            encoder.flags = encoder.flags | AV_CODEC_FLAG_LOW_DELAY;
        }
        match self.color_range {
            Some(cr) => {
                encoder.color_range = cr;
            },
            None => {},
        }
        Ok(())
    }
}

/// The settings of an audio encoder.
pub struct AudioEncoderSettings {
    /// The sample rate.
    pub sample_rate: i32,
    /// The channel layout.
    pub ch_layout: AudioChannelLayout,
    /// The sample format.
    pub sample_fmt: AVSampleFormat,
    /// The number of threads.
    pub thread_count: Option<i32>,
    /// The threading method (`FF_THREAD_*`).
    pub thread_type: Option<i32>,
    /// The average bit rate.
    pub bitrate: Option<i64>,
    /// The minimum bit rate.
    pub rc_min_rate: Option<i64>,
    /// The maximum bit rate.
    pub rc_max_rate: Option<i64>,
    /// The rate control buffer size.
    pub rc_buffer_size: Option<i32>,
    /// Options for the codec itself.
    pub codec_specific_options: Option<Dictionary>,
    /// Codec flags (`AV_CODEC_FLAG_*`).
    pub flags: Option<i32>,
    /// Codec flags (`AV_CODEC_FLAG2_*`).
    pub flags2: Option<i32>,
}

/// Whether audio settings are complete: a positive sample rate and a sample format.
pub open spec fn spec_audio_settings_valid(s: &AudioEncoderSettings) -> bool {
    s.sample_rate > 0 && s.sample_fmt.spec_raw() != -1
}

/// `ctx` with audio settings applied: the sample rate, channel layout and sample
/// format always, and each optional setting that is given.
pub open spec fn spec_apply_audio(s: &AudioEncoderSettings, ctx: AVCodecContext) -> AVCodecContext {
    AVCodecContext {
        sample_rate: s.sample_rate,
        ch_layout: s.ch_layout@,
        sample_fmt: s.sample_fmt.spec_raw(),
        thread_count: or_keep(s.thread_count, ctx.thread_count),
        thread_type: or_keep(s.thread_type, ctx.thread_type),
        bit_rate: or_keep(s.bitrate, ctx.bit_rate),
        rc_min_rate: or_keep(s.rc_min_rate, ctx.rc_min_rate),
        rc_max_rate: or_keep(s.rc_max_rate, ctx.rc_max_rate),
        rc_buffer_size: or_keep(s.rc_buffer_size, ctx.rc_buffer_size),
        flags: or_keep(s.flags, ctx.flags),
        flags2: or_keep(s.flags2, ctx.flags2),
        ..ctx
    }
}

impl AudioEncoderSettings {
    /// Starts a builder with nothing set: a zero sample rate, an empty channel layout,
    /// no sample format and no optional setting.
    pub fn builder() -> (r: AudioEncoderSettings)
        ensures
            r.sample_rate == 0 && r.sample_fmt == AVSampleFormat::NoFormat,
            r.ch_layout@ == crate::raw::AVChannelLayout::spec_zeroed(),
            r.thread_count is None && r.thread_type is None && r.bitrate is None,
            r.rc_min_rate is None && r.rc_max_rate is None && r.rc_buffer_size is None,
            r.codec_specific_options is None && r.flags is None && r.flags2 is None,
    {
        AudioEncoderSettings {
            sample_rate: 0,
            ch_layout: AudioChannelLayout::default(),
            sample_fmt: AVSampleFormat::NoFormat,
            thread_count: None,
            thread_type: None,
            bitrate: None,
            rc_min_rate: None,
            rc_max_rate: None,
            rc_buffer_size: None,
            codec_specific_options: None,
            flags: None,
            flags2: None,
        }
    }

    /// Finishes the builder.
    pub fn build(self) -> (r: AudioEncoderSettings)
        ensures
            r == self,
    {
        self
    }

    /// Sets the sample rate.
    pub fn sample_rate(self, sample_rate: i32) -> (r: AudioEncoderSettings)
        ensures
            r == (AudioEncoderSettings { sample_rate, ..self }),
    {
        AudioEncoderSettings { sample_rate, ..self }
    }

    /// Sets the channel layout.
    pub fn ch_layout(self, ch_layout: AudioChannelLayout) -> (r: AudioEncoderSettings)
        ensures
            r == (AudioEncoderSettings { ch_layout, ..self }),
    {
        AudioEncoderSettings { ch_layout, ..self }
    }

    /// Sets the sample format.
    pub fn sample_fmt(self, sample_fmt: AVSampleFormat) -> (r: AudioEncoderSettings)
        ensures
            r == (AudioEncoderSettings { sample_fmt, ..self }),
    {
        AudioEncoderSettings { sample_fmt, ..self }
    }

    /// Sets the number of threads.
    pub fn thread_count(self, thread_count: i32) -> (r: AudioEncoderSettings)
        ensures
            r == (AudioEncoderSettings { thread_count: Some(thread_count), ..self }),
    {
        AudioEncoderSettings { thread_count: Some(thread_count), ..self }
    }

    /// Sets the threading method.
    pub fn thread_type(self, thread_type: i32) -> (r: AudioEncoderSettings)
        ensures
            r == (AudioEncoderSettings { thread_type: Some(thread_type), ..self }),
    {
        AudioEncoderSettings { thread_type: Some(thread_type), ..self }
    }

    /// Sets the average bit rate.
    pub fn bitrate(self, bitrate: i64) -> (r: AudioEncoderSettings)
        ensures
            r == (AudioEncoderSettings { bitrate: Some(bitrate), ..self }),
    {
        AudioEncoderSettings { bitrate: Some(bitrate), ..self }
    }

    /// Sets the minimum bit rate.
    pub fn rc_min_rate(self, rc_min_rate: i64) -> (r: AudioEncoderSettings)
        ensures
            r == (AudioEncoderSettings { rc_min_rate: Some(rc_min_rate), ..self }),
    {
        AudioEncoderSettings { rc_min_rate: Some(rc_min_rate), ..self }
    }

    /// Sets the maximum bit rate.
    pub fn rc_max_rate(self, rc_max_rate: i64) -> (r: AudioEncoderSettings)
        ensures
            r == (AudioEncoderSettings { rc_max_rate: Some(rc_max_rate), ..self }),
    {
        AudioEncoderSettings { rc_max_rate: Some(rc_max_rate), ..self }
    }

    /// Sets the rate control buffer size.
    pub fn rc_buffer_size(self, rc_buffer_size: i32) -> (r: AudioEncoderSettings)
        ensures
            r == (AudioEncoderSettings { rc_buffer_size: Some(rc_buffer_size), ..self }),
    {
        AudioEncoderSettings { rc_buffer_size: Some(rc_buffer_size), ..self }
    }

    /// Sets the options for the codec itself.
    pub fn codec_specific_options(self, options: Dictionary) -> (r: AudioEncoderSettings)
        ensures
            r.codec_specific_options matches Some(d) && d@ == options@,
            r.sample_rate == self.sample_rate && r.ch_layout == self.ch_layout,
            r.sample_fmt == self.sample_fmt && r.thread_count == self.thread_count,
            r.thread_type == self.thread_type && r.bitrate == self.bitrate,
            r.rc_min_rate == self.rc_min_rate && r.rc_max_rate == self.rc_max_rate,
            r.rc_buffer_size == self.rc_buffer_size && r.flags == self.flags,
            r.flags2 == self.flags2,
    {
        AudioEncoderSettings { codec_specific_options: Some(options), ..self }
    }

    /// Sets the codec flags.
    pub fn flags(self, flags: i32) -> (r: AudioEncoderSettings)
        ensures
            r == (AudioEncoderSettings { flags: Some(flags), ..self }),
    {
        AudioEncoderSettings { flags: Some(flags), ..self }
    }

    /// Sets the second codec flags.
    pub fn flags2(self, flags2: i32) -> (r: AudioEncoderSettings)
        ensures
            r == (AudioEncoderSettings { flags2: Some(flags2), ..self }),
    {
        AudioEncoderSettings { flags2: Some(flags2), ..self }
    }

    /// Applies the settings to an encoder's context. Fails, and changes nothing, unless
    /// the sample rate is positive and a sample format is set.
    pub fn apply(self, encoder: &mut AVCodecContext) -> (r: Result<(), FfmpegError>)
        ensures
            !spec_audio_settings_valid(&self) ==> (r matches Err(FfmpegError::Arguments(m)) && m@
                == "sample_rate, channel_layout and sample_fmt must be set"@ && *final(encoder)
                == *old(encoder)),
            spec_audio_settings_valid(&self) ==> r is Ok && *final(encoder) == spec_apply_audio(
                &self,
                *old(encoder),
            ),
    {
        if self.sample_rate <= 0 || self.sample_fmt.raw() == -1 {
            return Err(FfmpegError::Arguments("sample_rate, channel_layout and sample_fmt must be set"));
        }
        encoder.sample_rate = self.sample_rate;
        let ghost layout = self.ch_layout@;
        self.ch_layout.apply(&mut encoder.ch_layout);
        encoder.sample_fmt = self.sample_fmt.raw();
        encoder.thread_count = self.thread_count.unwrap_or(encoder.thread_count);
        encoder.thread_type = self.thread_type.unwrap_or(encoder.thread_type);
        encoder.bit_rate = self.bitrate.unwrap_or(encoder.bit_rate);
        encoder.rc_min_rate = self.rc_min_rate.unwrap_or(encoder.rc_min_rate);
        encoder.rc_max_rate = self.rc_max_rate.unwrap_or(encoder.rc_max_rate);
        encoder.rc_buffer_size = self.rc_buffer_size.unwrap_or(encoder.rc_buffer_size);
        encoder.flags = self.flags.unwrap_or(encoder.flags);
        encoder.flags2 = self.flags2.unwrap_or(encoder.flags2);
        Ok(())
    }
}

/// The settings of an encoder: video or audio.
pub enum EncoderSettings {
    /// Video encoder settings.
    Video(VideoEncoderSettings),
    /// Audio encoder settings.
    Audio(AudioEncoderSettings),
}

/// Whether encoder settings are complete.
pub open spec fn spec_settings_valid(s: &EncoderSettings) -> bool {
    match s {
        EncoderSettings::Video(v) => spec_video_settings_valid(v),
        EncoderSettings::Audio(a) => spec_audio_settings_valid(a),
    }
}

/// `ctx` with encoder settings applied.
pub open spec fn spec_apply(s: &EncoderSettings, ctx: AVCodecContext) -> AVCodecContext {
    match s {
        EncoderSettings::Video(v) => spec_apply_video(v, ctx),
        EncoderSettings::Audio(a) => spec_apply_audio(a, ctx),
    }
}

/// The message of the error for incomplete encoder settings.
pub open spec fn spec_settings_error(s: &EncoderSettings) -> Seq<char> {
    match s {
        EncoderSettings::Video(_) => "width, height, frame_rate and pixel_format must be set"@,
        EncoderSettings::Audio(_) => "sample_rate, channel_layout and sample_fmt must be set"@,
    }
}

impl EncoderSettings {
    /// Applies the settings to an encoder's context. Fails, and changes nothing, when
    /// the settings are incomplete.
    pub fn apply(self, encoder: &mut AVCodecContext) -> (r: Result<(), FfmpegError>)
        ensures
            !spec_settings_valid(&self) ==> (r matches Err(FfmpegError::Arguments(m)) && m@
                == spec_settings_error(&self) && *final(encoder) == *old(encoder)),
            spec_settings_valid(&self) ==> r is Ok && *final(encoder) == spec_apply(
                &self,
                *old(encoder),
            ),
    {
        match self {
            EncoderSettings::Video(video_settings) => video_settings.apply(encoder),
            EncoderSettings::Audio(audio_settings) => audio_settings.apply(encoder),
        }
    }

    /// Returns the options for the codec itself, if any, for changing them.
    pub fn codec_specific_options(&mut self) -> (r: Option<&mut Dictionary>)
        ensures
            match *old(self) {
                EncoderSettings::Video(v) => match v.codec_specific_options {
                    Some(d) => r matches Some(x) && *x == d && *final(self) == EncoderSettings::Video(
                        VideoEncoderSettings { codec_specific_options: Some(*final(x)), ..v },
                    ),
                    None => r is None && *final(self) == *old(self),
                },
                EncoderSettings::Audio(a) => match a.codec_specific_options {
                    Some(d) => r matches Some(x) && *x == d && *final(self) == EncoderSettings::Audio(
                        AudioEncoderSettings { codec_specific_options: Some(*final(x)), ..a },
                    ),
                    None => r is None && *final(self) == *old(self),
                },
            },
    {
        match self {
            EncoderSettings::Video(video_settings) => video_settings.codec_specific_options.as_mut(),
            EncoderSettings::Audio(audio_settings) => audio_settings.codec_specific_options.as_mut(),
        }
    }
}

impl From<VideoEncoderSettings> for EncoderSettings {
    fn from(settings: VideoEncoderSettings) -> (r: EncoderSettings) {
        EncoderSettings::Video(settings)
    }
}

impl vstd::std_specs::convert::FromSpecImpl<VideoEncoderSettings> for EncoderSettings {
    open spec fn obeys_from_spec() -> bool {
        true
    }

    open spec fn from_spec(settings: VideoEncoderSettings) -> EncoderSettings {
        EncoderSettings::Video(settings)
    }
}

impl From<AudioEncoderSettings> for EncoderSettings {
    fn from(settings: AudioEncoderSettings) -> (r: EncoderSettings) {
        EncoderSettings::Audio(settings)
    }
}

impl vstd::std_specs::convert::FromSpecImpl<AudioEncoderSettings> for EncoderSettings {
    open spec fn obeys_from_spec() -> bool {
        true
    }

    open spec fn from_spec(settings: AudioEncoderSettings) -> EncoderSettings {
        EncoderSettings::Audio(settings)
    }
}

/// What applying audio settings does to every field of a codec context: the sample
/// rate, channel layout and sample format are set; the thread count and type, bit
/// rate, rate control values and flags are set when given and kept otherwise; every
/// other field (the media type, the video values, the time base, ...) stays.
pub proof fn lemma_audio_settings_applied(s: &AudioEncoderSettings, ctx: AVCodecContext)
    ensures
        ({
            let c = spec_apply(&EncoderSettings::Audio(*s), ctx);
            &&& c.sample_rate == s.sample_rate
            &&& c.ch_layout == s.ch_layout@
            &&& c.sample_fmt == s.sample_fmt.spec_raw()
            &&& c.thread_count == (match s.thread_count { Some(v) => v, None => ctx.thread_count })
            &&& c.thread_type == (match s.thread_type { Some(v) => v, None => ctx.thread_type })
            &&& c.bit_rate == (match s.bitrate { Some(v) => v, None => ctx.bit_rate })
            &&& c.rc_min_rate == (match s.rc_min_rate { Some(v) => v, None => ctx.rc_min_rate })
            &&& c.rc_max_rate == (match s.rc_max_rate { Some(v) => v, None => ctx.rc_max_rate })
            &&& c.rc_buffer_size == (match s.rc_buffer_size { Some(v) => v, None => ctx.rc_buffer_size })
            &&& c.flags == (match s.flags { Some(v) => v, None => ctx.flags })
            &&& c.flags2 == (match s.flags2 { Some(v) => v, None => ctx.flags2 })
            &&& c.codec_type == ctx.codec_type && c.codec_id == ctx.codec_id
            &&& c.time_base == ctx.time_base && c.pkt_timebase == ctx.pkt_timebase
            &&& c.framerate == ctx.framerate && c.sample_aspect_ratio == ctx.sample_aspect_ratio
            &&& c.width == ctx.width && c.height == ctx.height && c.pix_fmt == ctx.pix_fmt
            &&& c.gop_size == ctx.gop_size && c.qmax == ctx.qmax && c.qmin == ctx.qmin
            &&& c.max_b_frames == ctx.max_b_frames && c.color_range == ctx.color_range
            &&& c.initial_padding == ctx.initial_padding
            &&& c.hw_device_ctx == ctx.hw_device_ctx && c.hw_frames_ctx == ctx.hw_frames_ctx
            &&& c.preferred_hw_format == ctx.preferred_hw_format
        }),
{
}

/// What applying video settings does to every field of a codec context: the size,
/// pixel format and frame rate are set; the sample aspect ratio, thread count and
/// type, group of pictures size, quantizers, bit rate, rate control values, B-frame
/// count, flags and color range are set when given and kept otherwise; the low-delay
/// flag (bit 19) is added when asked for, the other flag bits being those given or
/// kept; every other field (the media type, the audio values, the time base, ...)
/// stays.
pub proof fn lemma_video_settings_applied(s: &VideoEncoderSettings, ctx: AVCodecContext)
    ensures
        ({
            let c = spec_apply(&EncoderSettings::Video(*s), ctx);
            let base_flags = match s.flags { Some(v) => v, None => ctx.flags };
            &&& c.width == s.width && c.height == s.height
            &&& c.pix_fmt == s.pixel_format.spec_raw()
            &&& c.framerate == (AVRational { num: s.frame_rate.numerator, den: s.frame_rate.denominator })
            &&& c.sample_aspect_ratio == (match s.sample_aspect_ratio {
                Some(r) => AVRational { num: r.numerator, den: r.denominator },
                None => ctx.sample_aspect_ratio,
            })
            &&& c.thread_count == (match s.thread_count { Some(v) => v, None => ctx.thread_count })
            &&& c.thread_type == (match s.thread_type { Some(v) => v, None => ctx.thread_type })
            &&& c.gop_size == (match s.gop_size { Some(v) => v, None => ctx.gop_size })
            &&& c.qmax == (match s.qmax { Some(v) => v, None => ctx.qmax })
            &&& c.qmin == (match s.qmin { Some(v) => v, None => ctx.qmin })
            &&& c.bit_rate == (match s.bitrate { Some(v) => v, None => ctx.bit_rate })
            &&& c.rc_min_rate == (match s.rc_min_rate { Some(v) => v, None => ctx.rc_min_rate })
            &&& c.rc_max_rate == (match s.rc_max_rate { Some(v) => v, None => ctx.rc_max_rate })
            &&& c.rc_buffer_size == (match s.rc_buffer_size { Some(v) => v, None => ctx.rc_buffer_size })
            &&& c.max_b_frames == (match s.max_b_frames { Some(v) => v, None => ctx.max_b_frames })
            &&& c.flags2 == (match s.flags2 { Some(v) => v, None => ctx.flags2 })
            &&& c.color_range == (match s.color_range { Some(v) => v, None => ctx.color_range })
            &&& c.flags == (if s.low_delay == Some(true) { base_flags | 524288i32 } else { base_flags })
            &&& c.codec_type == ctx.codec_type && c.codec_id == ctx.codec_id
            &&& c.time_base == ctx.time_base && c.pkt_timebase == ctx.pkt_timebase
            &&& c.sample_rate == ctx.sample_rate && c.ch_layout == ctx.ch_layout
            &&& c.sample_fmt == ctx.sample_fmt && c.initial_padding == ctx.initial_padding
            &&& c.hw_device_ctx == ctx.hw_device_ctx && c.hw_frames_ctx == ctx.hw_frames_ctx
            &&& c.preferred_hw_format == ctx.preferred_hw_format
        }),
{
}

/// Settings are applied exactly when they are complete: video settings with a
/// positive size, a positive frame rate numerator and a pixel format; audio settings
/// with a positive sample rate and a sample format.
pub proof fn lemma_settings_completeness(s: &EncoderSettings)
    ensures
        spec_settings_valid(s) <==> match s {
            EncoderSettings::Video(v) => v.width > 0 && v.height > 0 && v.frame_rate.numerator > 0
                && v.pixel_format.spec_raw() != -1,
            EncoderSettings::Audio(a) => a.sample_rate > 0 && a.sample_fmt.spec_raw() != -1,
        },
{
}

} // verus!
