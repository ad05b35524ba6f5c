use scuffle_ffmpeg::codec::EncoderCodec;
use scuffle_ffmpeg::decoder::AV_CODEC_FLAG_LOW_DELAY;
use scuffle_ffmpeg::dict::Dictionary;
use scuffle_ffmpeg::encoder::encoding::{rescale_packet, EncoderSetupOutcome, AV_CODEC_CAP_ENCODER_FLUSH, AV_CODEC_FLAG_GLOBAL_HEADER};
use scuffle_ffmpeg::encoder::{AudioEncoderSettings, Encoder, EncoderSettings, HwDeviceCtxPtr, VideoEncoderSettings};
use scuffle_ffmpeg::enums::{AVChannelOrder, AVFormatFlags, AVMediaType, AVPixelFormat, AVSampleFormat};
use scuffle_ffmpeg::error::{FfmpegError, FfmpegErrorCode, AVERROR_EAGAIN, AVERROR_EOF};
use scuffle_ffmpeg::frame::AudioChannelLayout;
use scuffle_ffmpeg::io::output::OutputFormat;
use scuffle_ffmpeg::io::{Output, OutputOptions};
use scuffle_ffmpeg::rational::{rescale_q, AVRational, Rational};
use scuffle_ffmpeg::raw::{AVChannelLayout, AVCodecContext, AVPacket, BufferRef};
use scuffle_ffmpeg::utils::AV_NOPTS_VALUE;

fn stereo() -> AudioChannelLayout {
    AudioChannelLayout::wrap(AVChannelLayout { order: AVChannelOrder::Native.raw(), nb_channels: 2, mask: 3 })
}

fn mp4_options() -> OutputOptions {
    OutputOptions::builder()
        .format_ffi(OutputFormat { handle: 0x10, flags: AVFormatFlags::GlobalHeader })
        .unwrap()
        .build()
        .unwrap()
}

#[test]
fn test_video_encoder_apply() {
    let width = 1920;
    let height = 1080;
    let frame_rate = 30;
    let pixel_format = AVPixelFormat::Yuv420p;
    let sample_aspect_ratio = 1;
    let gop_size = 12;
    let qmax = 31;
    let qmin = 1;
    let thread_count = 4;
    let thread_type = 2;
    let bitrate = 8_000;
    let rc_min_rate = 500_000;
    let rc_max_rate = 2_000_000;
    let rc_buffer_size = 1024;
    let max_b_frames = 3;
    let mut codec_specific_options = Dictionary::new();
    codec_specific_options.set("preset", "ultrafast").unwrap();
    codec_specific_options.set("crf", "23").unwrap();
    let flags = 0x01;
    let flags2 = 0x02;

    let low_delay = true;

    let settings = VideoEncoderSettings::builder()
        .width(width)
        .height(height)
        .frame_rate(Rational::from_integer(frame_rate))
        .pixel_format(pixel_format)
        .sample_aspect_ratio(Rational::from_integer(sample_aspect_ratio))
        .gop_size(gop_size)
        .qmax(qmax)
        .qmin(qmin)
        .thread_count(thread_count)
        .thread_type(thread_type)
        .bitrate(bitrate)
        .rc_min_rate(rc_min_rate)
        .rc_max_rate(rc_max_rate)
        .rc_buffer_size(rc_buffer_size)
        .max_b_frames(max_b_frames)
        .codec_specific_options(codec_specific_options)
        .flags(flags)
        .flags2(flags2)
        .low_delay(low_delay)
        .build();

    assert_eq!(settings.width, width);
    assert_eq!(settings.height, height);
    assert_eq!(settings.frame_rate, Rational::from_integer(frame_rate));
    assert_eq!(settings.pixel_format, pixel_format);
    assert_eq!(settings.sample_aspect_ratio, Some(Rational::from_integer(sample_aspect_ratio)));
    assert_eq!(settings.gop_size, Some(gop_size));
    assert_eq!(settings.qmax, Some(qmax));
    assert_eq!(settings.qmin, Some(qmin));
    assert_eq!(settings.thread_count, Some(thread_count));
    assert_eq!(settings.thread_type, Some(thread_type));
    assert_eq!(settings.bitrate, Some(bitrate));
    assert_eq!(settings.rc_min_rate, Some(rc_min_rate));
    assert_eq!(settings.rc_max_rate, Some(rc_max_rate));
    assert_eq!(settings.rc_buffer_size, Some(rc_buffer_size));
    assert_eq!(settings.max_b_frames, Some(max_b_frames));
    assert!(settings.codec_specific_options.is_some());
    let actual_codec_specific_options = settings.codec_specific_options.as_ref().unwrap();
    assert_eq!(actual_codec_specific_options.get("preset"), Some("ultrafast"));
    assert_eq!(actual_codec_specific_options.get("crf"), Some("23"));
    assert_eq!(settings.flags, Some(flags));
    assert_eq!(settings.flags2, Some(flags2));
    assert_eq!(settings.low_delay, Some(low_delay));

    let mut encoder = AVCodecContext::zeroed();
    let result = settings.apply(&mut encoder);
    assert!(result.is_ok(), "Failed to apply settings: {:?}", result.err());

    assert_eq!(encoder.width, width);
    assert_eq!(encoder.height, height);
    assert_eq!(AVPixelFormat::from_raw(encoder.pix_fmt), pixel_format);
    assert_eq!(Rational::from_av(encoder.sample_aspect_ratio), Rational::from_integer(sample_aspect_ratio));
    assert_eq!(Rational::from_av(encoder.framerate), Rational::from_integer(frame_rate));
    assert_eq!(encoder.thread_count, thread_count);
    assert_eq!(encoder.thread_type, thread_type);
    assert_eq!(encoder.gop_size, gop_size);
    assert_eq!(encoder.qmax, qmax);
    assert_eq!(encoder.qmin, qmin);
    assert_eq!(encoder.bit_rate, bitrate);
    assert_eq!(encoder.rc_min_rate, rc_min_rate);
    assert_eq!(encoder.rc_max_rate, rc_max_rate);
    assert_eq!(encoder.rc_buffer_size, rc_buffer_size);
    assert_eq!(encoder.max_b_frames, max_b_frames);
    assert_eq!(encoder.flags, flags | AV_CODEC_FLAG_LOW_DELAY);
    assert_eq!(encoder.flags2, flags2);
}

#[test]
fn test_video_encoder_settings_apply_error() {
    let settings = VideoEncoderSettings::builder()
        .width(0)
        .height(0)
        .pixel_format(AVPixelFormat::Yuv420p)
        .frame_rate(Rational::from_integer(0))
        .build();
    let mut encoder = AVCodecContext::zeroed();
    let result = settings.apply(&mut encoder);

    assert!(result.is_err());
    assert_eq!(
        result.unwrap_err(),
        FfmpegError::Arguments("width, height, frame_rate and pixel_format must be set")
    );
    assert_eq!(encoder, AVCodecContext::zeroed());
}

#[test]
fn test_audio_encoder_apply() {
    let sample_rate = 44100;
    let channel_count = 2;
    let sample_fmt = AVSampleFormat::S16;
    let thread_count = 4;
    let thread_type = 1;
    let bitrate = 128_000;
    let rc_min_rate = 64_000;
    let rc_max_rate = 256_000;
    let rc_buffer_size = 1024;
    let flags = 0x01;
    let flags2 = 0x02;

    let mut codec_specific_options = Dictionary::new();
    codec_specific_options.set("profile", "high").expect("Failed to set profile");

    let settings = AudioEncoderSettings::builder()
        .sample_rate(sample_rate)
        .ch_layout(stereo())
        .sample_fmt(sample_fmt)
        .thread_count(thread_count)
        .thread_type(thread_type)
        .bitrate(bitrate)
        .rc_min_rate(rc_min_rate)
        .rc_max_rate(rc_max_rate)
        .rc_buffer_size(rc_buffer_size)
        .codec_specific_options(codec_specific_options)
        .flags(flags)
        .flags2(flags2)
        .build();

    assert_eq!(settings.sample_rate, sample_rate);
    assert_eq!(settings.ch_layout.channel_count(), channel_count);
    assert_eq!(settings.sample_fmt, sample_fmt);
    assert_eq!(settings.thread_count, Some(thread_count));
    assert_eq!(settings.thread_type, Some(thread_type));
    assert_eq!(settings.bitrate, Some(bitrate));
    assert_eq!(settings.rc_min_rate, Some(rc_min_rate));
    assert_eq!(settings.rc_max_rate, Some(rc_max_rate));
    assert_eq!(settings.rc_buffer_size, Some(rc_buffer_size));
    assert!(settings.codec_specific_options.is_some());

    let actual_codec_specific_options = settings.codec_specific_options.as_ref().unwrap();
    assert_eq!(actual_codec_specific_options.get("profile"), Some("high"));

    assert_eq!(settings.flags, Some(flags));
    assert_eq!(settings.flags2, Some(flags2));
}

#[test]
fn test_audio_encoder_settings_apply_error() {
    let settings = AudioEncoderSettings::builder()
        .sample_rate(0)
        .sample_fmt(AVSampleFormat::NoFormat)
        .ch_layout(stereo())
        .build();

    let mut encoder = AVCodecContext::zeroed();
    let result = settings.apply(&mut encoder);

    assert!(result.is_err());
    assert_eq!(
        result.unwrap_err(),
        FfmpegError::Arguments("sample_rate, channel_layout and sample_fmt must be set")
    );
}

#[test]
fn test_encoder_settings_apply_video() {
    let sample_aspect_ratio = AVRational { num: 1, den: 1 };
    let video_settings = VideoEncoderSettings::builder()
        .width(1920)
        .height(1080)
        .frame_rate(Rational::from_integer(30))
        .pixel_format(AVPixelFormat::Yuv420p)
        .sample_aspect_ratio(Rational::from_av(sample_aspect_ratio))
        .gop_size(12)
        .build();

    let mut encoder = AVCodecContext::zeroed();
    let encoder_settings = EncoderSettings::Video(video_settings);
    let result = encoder_settings.apply(&mut encoder);

    assert!(result.is_ok(), "Failed to apply video settings: {:?}", result.err());
    assert_eq!(encoder.width, 1920);
    assert_eq!(encoder.height, 1080);
    assert_eq!(AVPixelFormat::from_raw(encoder.pix_fmt), AVPixelFormat::Yuv420p);
    assert_eq!(Rational::from_av(encoder.sample_aspect_ratio), Rational::from_av(sample_aspect_ratio));
}

#[test]
fn test_encoder_settings_apply_audio() {
    let audio_settings = AudioEncoderSettings::builder()
        .sample_rate(44100)
        .sample_fmt(AVSampleFormat::Fltp)
        .ch_layout(stereo())
        .thread_count(4)
        .build();

    let mut encoder = AVCodecContext::zeroed();
    let encoder_settings = EncoderSettings::Audio(audio_settings);
    let result = encoder_settings.apply(&mut encoder);

    assert!(result.is_ok(), "Failed to apply audio settings: {:?}", result.err());
    assert_eq!(encoder.sample_rate, 44100);
    assert_eq!(AVSampleFormat::from_raw(encoder.sample_fmt), AVSampleFormat::Fltp);
    assert_eq!(encoder.thread_count, 4);
    assert_eq!(encoder.ch_layout.nb_channels, 2);
}

#[test]
fn test_encoder_settings_codec_specific_options() {
    let mut video_codec_options = Dictionary::new();
    video_codec_options.set("preset", "fast").expect("Failed to set preset");

    let video_settings = VideoEncoderSettings::builder()
        .width(8)
        .height(8)
        .frame_rate(Rational::from_integer(30))
        .pixel_format(AVPixelFormat::Yuv420p)
        .codec_specific_options(video_codec_options.clone())
        .build();
    let mut encoder_settings = EncoderSettings::Video(video_settings);
    let options = encoder_settings.codec_specific_options();

    assert!(options.is_some());
    assert_eq!(options.unwrap().get("preset"), Some("fast"));

    let mut audio_codec_options = Dictionary::new();
    audio_codec_options.set("bitrate", "128k").expect("Failed to set bitrate");
    let audio_settings = AudioEncoderSettings::builder()
        .sample_rate(44100)
        .sample_fmt(AVSampleFormat::Fltp)
        .ch_layout(stereo())
        .thread_count(4)
        .codec_specific_options(audio_codec_options)
        .build();
    let mut encoder_settings = EncoderSettings::Audio(audio_settings);
    let options = encoder_settings.codec_specific_options();

    assert!(options.is_some());
    assert_eq!(options.unwrap().get("bitrate"), Some("128k"));
}

#[test]
fn test_from_video_encoder_settings() {
    let sample_aspect_ratio = AVRational { num: 1, den: 1 };
    let video_settings = VideoEncoderSettings::builder()
        .width(1920)
        .height(1080)
        .frame_rate(Rational::from_integer(30))
        .pixel_format(AVPixelFormat::Yuv420p)
        .sample_aspect_ratio(Rational::from_av(sample_aspect_ratio))
        .gop_size(12)
        .build();
    let encoder_settings: EncoderSettings = video_settings.into();

    if let EncoderSettings::Video(actual_video_settings) = encoder_settings {
        assert_eq!(actual_video_settings.width, 1920);
        assert_eq!(actual_video_settings.height, 1080);
        assert_eq!(actual_video_settings.frame_rate, Rational::from_integer(30));
        assert_eq!(actual_video_settings.pixel_format, AVPixelFormat::Yuv420p);
        assert_eq!(actual_video_settings.sample_aspect_ratio, Some(Rational::from_av(sample_aspect_ratio)));
        assert_eq!(actual_video_settings.gop_size, Some(12));
    } else {
        panic!("Expected EncoderSettings::Video variant");
    }
}

#[test]
fn test_from_audio_encoder_settings() {
    let audio_settings = AudioEncoderSettings::builder()
        .sample_rate(44100)
        .sample_fmt(AVSampleFormat::Fltp)
        .ch_layout(stereo())
        .thread_count(4)
        .build();
    let encoder_settings: EncoderSettings = audio_settings.into();

    if let EncoderSettings::Audio(actual_audio_settings) = encoder_settings {
        assert_eq!(actual_audio_settings.sample_rate, 44100);
        assert_eq!(actual_audio_settings.sample_fmt, AVSampleFormat::Fltp);
        assert_eq!(actual_audio_settings.thread_count, Some(4));
    } else {
        panic!("Expected EncoderSettings::Audio variant");
    }
}

fn allocated_context() -> AVCodecContext {
    let mut allocated = AVCodecContext::zeroed();
    allocated.codec_type = AVMediaType::Video.raw();
    allocated.gop_size = 12;
    allocated
}

/// What FFmpeg reports when setting up an encoder with `settings` and the hardware
/// contexts succeeds: the allocated context holds a video codec's defaults, and the
/// opened one the configured values with the time base the encoder chose.
fn opened_with(
    time_base: AVRational,
    settings: EncoderSettings,
    hw_device_ctx: Option<BufferRef>,
    hw_frames_ctx: Option<BufferRef>,
) -> EncoderSetupOutcome {
    let allocated = allocated_context();
    let mut scratch = Output::new(Vec::<u8>::new(), mp4_options()).unwrap();
    let codec = EncoderCodec { id: 27, handle: 0x99 };
    let configured = match Encoder::configure(
        codec,
        &mut scratch,
        Rational::new(1, 1000),
        settings,
        hw_device_ctx,
        hw_frames_ctx,
        Some(allocated),
    ) {
        Ok((ctx, _)) => ctx,
        Err(_) => allocated,
    };
    let mut opened = configured;
    opened.time_base = time_base;
    EncoderSetupOutcome { allocated: Some(allocated), open_ret: 0, opened, params_ret: 0 }
}

fn opened(time_base: AVRational) -> EncoderSetupOutcome {
    opened_with(time_base, video_settings().into(), None, None)
}

fn video_settings() -> VideoEncoderSettings {
    VideoEncoderSettings::builder()
        .width(64)
        .height(48)
        .frame_rate(Rational::from_integer(30))
        .pixel_format(AVPixelFormat::Yuv420p)
        .build()
}

#[test]
fn test_encoder_new_with_null_codec() {
    let codec = EncoderCodec::empty();
    let mut output = Output::new(Vec::<u8>::new(), mp4_options()).expect("Failed to create Output");
    let incoming_time_base = Rational::new(1, 1000);
    let outgoing_time_base = Rational::new(1, 1000);
    let settings = VideoEncoderSettings::builder()
        .width(0)
        .height(0)
        .pixel_format(AVPixelFormat::Yuv420p)
        .frame_rate(Rational::from_integer(0))
        .build();
    let result = Encoder::new(
        codec,
        &mut output,
        incoming_time_base,
        outgoing_time_base,
        settings.into(),
        opened(AVRational { num: 1, den: 1000 }),
    );

    assert!(matches!(result, Err(FfmpegError::NoEncoder)));
    assert!(output.streams().is_empty());
}

#[test]
fn test_encoder_new_success() {
    let codec = EncoderCodec { id: 27, handle: 0x99 };
    let mut output = Output::new(Vec::<u8>::new(), mp4_options()).expect("Failed to create Output");
    let result = Encoder::new(
        codec,
        &mut output,
        Rational::new(1, 1000),
        Rational::new(1, 90000),
        video_settings().into(),
        opened(AVRational { num: 1, den: 30 }),
    );
    let encoder = result.ok().expect("Expected the encoder to be created");
    assert_eq!(encoder.stream_index(), 0);
    assert_eq!(encoder.incoming_time_base(), Rational::new(1, 30));
    assert_eq!(encoder.outgoing_time_base(), Rational::new(1, 90000));
    assert_eq!(encoder.initial_padding(), 0);
    let ctx = encoder.codec_context();
    assert_eq!(ctx.width, 64);
    assert_eq!(ctx.flags & AV_CODEC_FLAG_GLOBAL_HEADER, AV_CODEC_FLAG_GLOBAL_HEADER);
    assert_eq!(output.streams().len(), 1);
    assert_eq!(output.streams()[0].time_base, Rational::new(1, 90000));
    let params = output.streams()[0].codec_parameters.unwrap();
    assert_eq!(params.width, 64);
    assert_eq!(params.height, 48);
    assert_eq!(params.format, AVPixelFormat::Yuv420p.raw());
}

#[test]
fn encoder_creation_errors() {
    let codec = EncoderCodec { id: 27, handle: 0x99 };
    let mut output = Output::new(Vec::<u8>::new(), mp4_options()).unwrap();

    let mut no_context = opened(AVRational { num: 1, den: 30 });
    no_context.allocated = None;
    let r = Encoder::new(codec, &mut output, Rational::new(1, 30), Rational::new(1, 30), video_settings().into(), no_context);
    assert!(matches!(r, Err(FfmpegError::Alloc)));
    assert!(output.streams().is_empty());

    let mut open_fails = opened(AVRational { num: 1, den: 30 });
    open_fails.open_ret = -22;
    let r = Encoder::new(codec, &mut output, Rational::new(1, 30), Rational::new(1, 30), video_settings().into(), open_fails);
    assert!(matches!(r, Err(FfmpegError::Code(FfmpegErrorCode(-22)))));
    assert_eq!(output.streams().len(), 1);

    let bad = VideoEncoderSettings::builder().width(1).height(1).build();
    let r = Encoder::new(codec, &mut output, Rational::new(1, 30), Rational::new(1, 30), bad.into(), opened(AVRational { num: 1, den: 30 }));
    assert!(matches!(
        r,
        Err(FfmpegError::Arguments("width, height, frame_rate and pixel_format must be set"))
    ));

    let r = Encoder::new_with_hw_contexts(
        codec,
        &mut output,
        Rational::new(1, 30),
        Rational::new(1, 30),
        video_settings().into(),
        BufferRef(5),
        BufferRef(6),
        opened_with(AVRational { num: 1, den: 30 }, video_settings().into(), Some(BufferRef(5)), Some(BufferRef(6))),
    );
    let e = r.ok().unwrap();
    assert_eq!(e.codec_context().hw_device_ctx, BufferRef(5));
    assert_eq!(e.codec_context().hw_frames_ctx, BufferRef(6));
    assert_eq!(e.stream_index(), 2);
}

#[test]
fn encoder_runs_the_opened_context() {
    let codec = EncoderCodec { id: 86018, handle: 0x77 };
    let mut output = Output::new(Vec::<u8>::new(), mp4_options()).unwrap();
    let mut outcome = opened(AVRational { num: 1, den: 48000 });
    // Opening an AAC encoder sets the priming samples it inserts.
    outcome.opened.initial_padding = 1024;
    let e = Encoder::new(codec, &mut output, Rational::new(1, 48000), Rational::new(1, 48000), video_settings().into(), outcome)
        .ok()
        .unwrap();
    assert_eq!(e.initial_padding(), 1024);
    assert_eq!(e.codec_context().initial_padding, 1024);
    assert_eq!(e.incoming_time_base(), Rational::new(1, 48000));
    assert_eq!(e.codec_context().gop_size, 12, "the codec's defaults stay");
}

#[test]
fn hw_device_ctx_ptr() {
    assert!(HwDeviceCtxPtr::default().is_null());
    assert!(!HwDeviceCtxPtr::new(BufferRef(7)).is_null());
}

#[test]
fn dictionary_set_replaces() {
    let mut d = Dictionary::new();
    d.set("a", "1").unwrap();
    d.set("b", "2").unwrap();
    d.set("a", "3").unwrap();
    assert_eq!(d.get("a"), Some("3"));
    assert_eq!(d.get("b"), Some("2"));
    assert_eq!(d.get("c"), None);
}

#[test]
fn receive_packet_converts_to_the_outgoing_time_base() {
    let codec = EncoderCodec { id: 27, handle: 0x99 };
    let mut output = Output::new(Vec::<u8>::new(), mp4_options()).unwrap();
    let mut encoder = Encoder::new(
        codec,
        &mut output,
        Rational::new(1, 1000),
        Rational::new(1, 90000),
        video_settings().into(),
        opened(AVRational { num: 1, den: 1000 }),
    )
    .ok()
    .unwrap();
    let packet = AVPacket { pts: 10, dts: AV_NOPTS_VALUE, duration: 0, stream_index: 7 };
    let out = encoder.receive_packet(0, packet).ok().unwrap().unwrap();
    assert_eq!(out.pts, 900);
    assert_eq!(out.dts, AV_NOPTS_VALUE, "an unset timestamp stays unset");
    assert_eq!(out.duration, 0, "a zero duration stays");
    assert_eq!(out.stream_index, 0);
    let packet = AVPacket { pts: -3, dts: -4, duration: 2, stream_index: 0 };
    let out = encoder.receive_packet(0, packet).ok().unwrap().unwrap();
    assert_eq!((out.pts, out.dts, out.duration), (-270, -360, 180));
    assert!(matches!(encoder.receive_packet(AVERROR_EAGAIN, packet), Ok(None)));
    assert!(matches!(encoder.receive_packet(AVERROR_EOF, packet), Ok(None)));
    assert!(matches!(encoder.receive_packet(-22, packet), Err(FfmpegError::Code(FfmpegErrorCode(-22)))));
}

#[test]
fn rescaling_rounds_halves_away_from_zero() {
    let third = AVRational { num: 1, den: 3 };
    let half = AVRational { num: 1, den: 2 };
    let one = AVRational { num: 1, den: 1 };
    assert_eq!(rescale_q(1, third, half), 1);
    assert_eq!(rescale_q(-1, third, half), -1);
    assert_eq!(rescale_q(1, half, one), 1);
    assert_eq!(rescale_q(-1, half, one), -1);
    assert_eq!(rescale_q(3, half, one), 2);
    assert_eq!(rescale_q(5, one, AVRational { num: 0, den: 1 }), i64::MIN, "no target time base");
    assert_eq!(rescale_q(i64::MAX, one, AVRational { num: 1, den: 2 }), i64::MIN, "past the range");
    assert_eq!(rescale_q(i64::MIN, one, one), -i64::MAX);
    let p = rescale_packet(AVPacket { pts: 1, dts: 2, duration: -1, stream_index: 3 }, half, one);
    assert_eq!((p.pts, p.dts, p.duration, p.stream_index), (1, 1, -1, 3));
}

#[test]
fn flush_capability_reads_the_codec_flags() {
    let codec = EncoderCodec { id: 27, handle: 0x99 };
    let mut output = Output::new(Vec::<u8>::new(), mp4_options()).unwrap();
    let encoder = Encoder::new(
        codec,
        &mut output,
        Rational::new(1, 30),
        Rational::new(1, 30),
        video_settings().into(),
        opened(AVRational { num: 1, den: 30 }),
    )
    .ok()
    .unwrap();
    assert!(encoder.has_flush_capability(AV_CODEC_CAP_ENCODER_FLUSH | 1));
    assert!(!encoder.has_flush_capability(1));
}
