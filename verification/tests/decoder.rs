use scuffle_ffmpeg::codec::DecoderCodec;
use scuffle_ffmpeg::decoder::{
    get_hw_format, Decoder, DecoderOptions, DecoderSetupOutcome, HardwareAccelerationOptions, ThreadType,
    AV_CODEC_FLAG_LOW_DELAY,
};
use scuffle_ffmpeg::enums::{AVChannelOrder, AVHWDeviceType, AVMediaType, AVPixelFormat, AVSampleFormat};
use scuffle_ffmpeg::error::{FfmpegError, FfmpegErrorCode, AVERROR_EAGAIN, AVERROR_EOF};
use scuffle_ffmpeg::frame::GenericFrame;
use scuffle_ffmpeg::rational::{AVRational, Rational};
use scuffle_ffmpeg::raw::{AVChannelLayout, AVCodecContext, AVCodecParameters, BufferRef};
use scuffle_ffmpeg::stream::Stream;

fn video_stream() -> Stream {
    Stream {
        index: 0,
        id: 1,
        codec_parameters: Some(AVCodecParameters {
            codec_type: AVMediaType::Video.raw(),
            codec_id: 27,
            format: AVPixelFormat::Yuv420p.raw(),
            bit_rate: 1_000_000,
            width: 3840,
            height: 2160,
            sample_aspect_ratio: AVRational { num: 1, den: 1 },
            framerate: AVRational { num: 30, den: 1 },
            color_range: 1,
            sample_rate: 0,
            ch_layout: AVChannelLayout { order: 0, nb_channels: 0, mask: 0 },
        }),
        time_base: Rational::new(1, 15360),
        start_time: Some(0),
        duration: Some(15360),
        guessed_frame_rate: AVRational { num: 60, den: 1 },
    }
}

fn audio_stream() -> Stream {
    Stream {
        index: 1,
        id: 2,
        codec_parameters: Some(AVCodecParameters {
            codec_type: AVMediaType::Audio.raw(),
            codec_id: 86018,
            format: AVSampleFormat::Fltp.raw(),
            bit_rate: 128_000,
            width: 0,
            height: 0,
            sample_aspect_ratio: AVRational { num: 0, den: 1 },
            framerate: AVRational { num: 0, den: 1 },
            color_range: 0,
            sample_rate: 48000,
            ch_layout: AVChannelLayout { order: AVChannelOrder::Native.raw(), nb_channels: 2, mask: 3 },
        }),
        time_base: Rational::new(1, 48000),
        start_time: Some(0),
        duration: None,
        guessed_frame_rate: AVRational { num: 0, den: 1 },
    }
}

/// The context FFmpeg allocates for a decoder and fills from the stream's
/// parameters: the media type, codec id and bit rate, and the video or audio values,
/// over a zeroed context.
fn allocated_for(stream: &Stream) -> AVCodecContext {
    let mut c = AVCodecContext::zeroed();
    if let Some(p) = stream.codec_parameters {
        c.codec_type = p.codec_type;
        c.codec_id = p.codec_id;
        c.bit_rate = p.bit_rate;
        if p.codec_type == AVMediaType::Video.raw() {
            c.pix_fmt = p.format;
            c.width = p.width;
            c.height = p.height;
            c.sample_aspect_ratio = p.sample_aspect_ratio;
            c.framerate = p.framerate;
            c.color_range = p.color_range;
        } else if p.codec_type == AVMediaType::Audio.raw() {
            c.sample_fmt = p.format;
            c.sample_rate = p.sample_rate;
            c.ch_layout = p.ch_layout;
        }
    }
    c
}

/// What FFmpeg reports when every step of setting up a decoder for `stream` with
/// `options` succeeds, opening keeping the configured values.
fn outcome_for(stream: &Stream, options: &DecoderOptions) -> DecoderSetupOutcome {
    let allocated = allocated_for(stream);
    let configured = Decoder::configure(stream, options, Some(allocated), 0).ok().unwrap();
    DecoderSetupOutcome {
        found_codec: Some(DecoderCodec { id: 27, handle: 0x1000 }),
        allocated: Some(allocated),
        params_ret: 0,
        hw_device_ret: 0,
        open_ret: 0,
        opened: configured,
    }
}

fn found() -> DecoderSetupOutcome {
    outcome_for(&video_stream(), &DecoderOptions::default())
}

#[test]
fn test_decoder_options_default() {
    let default_options = DecoderOptions::default();

    assert!(default_options.codec.is_none(), "Expected default codec to be None");
    assert_eq!(default_options.thread_count, 1, "Expected default thread_count to be 1");
    assert_eq!(default_options.thread_type, ThreadType::FrameAndSlice);
    assert!(!default_options.low_delay);
    assert!(default_options.hardware_acceleration.is_none());
}

#[test]
fn test_decoder_new() {
    let stream = video_stream();
    let decoder_result = Decoder::new(&stream, found());
    assert!(decoder_result.is_ok(), "Expected Decoder::new to succeed, but it failed");

    let decoder = decoder_result.ok().unwrap();
    if let Decoder::Video(video_decoder) = decoder {
        assert_eq!(video_decoder.width(), 3840, "Expected valid width for video stream");
        assert_eq!(video_decoder.height(), 2160, "Expected valid height for video stream");
        assert_eq!(video_decoder.pixel_format(), AVPixelFormat::Yuv420p);
        assert_eq!(video_decoder.frame_rate(), Rational::new(60, 1));
        assert_eq!(video_decoder.sample_aspect_ratio(), Rational::new(1, 1));
        assert_eq!(video_decoder.time_base(), Some(Rational::new(1, 15360)));
        assert_eq!(video_decoder.codec_type(), AVMediaType::Video);
        assert_eq!(video_decoder.hw_device_ctx(), None);
    } else {
        panic!("Expected a video decoder, but got a different type");
    }
}

#[test]
fn test_decoder_with_options_missing_codec_parameters() {
    let mut stream = video_stream();
    stream.codec_parameters = None;
    let decoder_result = Decoder::with_options(&stream, DecoderOptions::default(), found());

    assert!(decoder_result.is_err(), "Expected Decoder creation to fail");
    if let Err(err) = decoder_result {
        match err {
            FfmpegError::NoDecoder => (),
            _ => panic!("Unexpected error type: {err:?}"),
        }
    }
}

#[test]
fn test_decoder_with_options_non_video_audio_codec_type() {
    let mut stream = video_stream();
    let mut params = stream.codec_parameters.unwrap();
    params.codec_type = AVMediaType::Subtitle.raw();
    stream.codec_parameters = Some(params);
    let decoder_result = Decoder::with_options(&stream, DecoderOptions::default(), outcome_for(&stream, &DecoderOptions::default()));

    assert!(
        decoder_result.is_err(),
        "Expected Decoder creation to fail for non-video/audio codec type"
    );
    if let Err(err) = decoder_result {
        match err {
            FfmpegError::NoDecoder => (),
            _ => panic!("Unexpected error type: {err:?}"),
        }
    }
}

#[test]
fn decoder_without_codec_fails() {
    let stream = video_stream();
    let mut outcome = found();
    outcome.found_codec = None;
    assert!(matches!(Decoder::new(&stream, outcome), Err(FfmpegError::NoDecoder)));
    outcome.found_codec = Some(DecoderCodec::empty());
    assert!(matches!(Decoder::new(&stream, outcome), Err(FfmpegError::NoDecoder)));
}

#[test]
fn decoder_open_failure_is_reported() {
    let stream = video_stream();
    let mut outcome = found();
    outcome.open_ret = -22;
    assert!(matches!(
        Decoder::new(&stream, outcome),
        Err(FfmpegError::Code(FfmpegErrorCode(-22)))
    ));
}

#[test]
fn decoder_context_allocation_failures_are_reported() {
    let stream = video_stream();
    let mut outcome = found();
    outcome.allocated = None;
    assert!(matches!(Decoder::new(&stream, outcome), Err(FfmpegError::Alloc)));
    let mut outcome = found();
    outcome.params_ret = -12;
    assert!(matches!(
        Decoder::new(&stream, outcome),
        Err(FfmpegError::Code(FfmpegErrorCode(-12)))
    ));
}

#[test]
fn decoder_context_is_the_opened_one() {
    let stream = video_stream();
    let mut outcome = found();
    // Opening sets values of its own: here the pixel format the codec decodes to.
    outcome.opened.pix_fmt = AVPixelFormat::Nv12.raw();
    let mut video = Decoder::new(&stream, outcome).ok().unwrap().video().ok().unwrap();
    assert_eq!(video.pixel_format(), AVPixelFormat::Nv12);
    assert_eq!(video.time_base(), Some(Rational::new(1, 15360)));

    let mut current = video.as_generic().as_raw();
    current.width = 1920;
    current.height = 1080;
    video.sync(current);
    assert_eq!(video.width(), 1920);
    assert_eq!(video.height(), 1080);
    assert_eq!(video.codec_type(), AVMediaType::Video);
}

#[test]
fn decoder_configuration_starts_from_the_allocated_context() {
    let stream = video_stream();
    let mut allocated = allocated_for(&stream);
    allocated.qmin = 2;
    allocated.flags = 1;
    let options = DecoderOptions { thread_count: 3, low_delay: true, ..DecoderOptions::default() };
    let ctx = Decoder::configure(&stream, &options, Some(allocated), 0).ok().unwrap();
    assert_eq!(ctx.qmin, 2, "the codec's defaults stay");
    assert_eq!(ctx.flags, 1 | AV_CODEC_FLAG_LOW_DELAY);
    assert_eq!(ctx.thread_count, 3);
    assert_eq!(ctx.framerate, AVRational { num: 60, den: 1 });
    assert!(Decoder::opens_codec(&ctx));
    let mut subtitle = ctx;
    subtitle.codec_type = AVMediaType::Subtitle.raw();
    assert!(!Decoder::opens_codec(&subtitle));
    assert!(matches!(Decoder::select_codec(&stream, &options, None), Err(FfmpegError::NoDecoder)));
    assert_eq!(
        Decoder::select_codec(&stream, &options, Some(DecoderCodec { id: 27, handle: 0x1000 })).ok(),
        Some(DecoderCodec { id: 27, handle: 0x1000 })
    );
}

#[test]
fn decoder_options_are_applied() {
    let stream = video_stream();
    let options = DecoderOptions {
        codec: Some(DecoderCodec { id: 27, handle: 0x2000 }),
        thread_count: 4,
        thread_type: ThreadType::Slice,
        low_delay: true,
        hardware_acceleration: Some(HardwareAccelerationOptions {
            hw_device_type: AVHWDeviceType::Cuda,
            hw_pixel_format: AVPixelFormat::Cuda,
        }),
    };
    let mut outcome = outcome_for(&stream, &options);
    outcome.found_codec = None;
    // The created device is stored in the context before it is opened.
    outcome.opened.hw_device_ctx = BufferRef(0x42);
    let decoder = Decoder::with_options(&stream, options, outcome).ok().unwrap();
    let video = decoder.video().ok().unwrap();
    let ctx = video.as_generic();
    assert_eq!(ctx.hw_device_ctx(), Some(BufferRef(0x42)));
    assert_eq!(ctx.as_raw().preferred_hw_format, Some(AVPixelFormat::Cuda.raw()));
    assert_eq!(ctx.as_raw().thread_count, 4);
    assert_eq!(ctx.as_raw().flags & AV_CODEC_FLAG_LOW_DELAY, AV_CODEC_FLAG_LOW_DELAY);

    let mut failing = outcome;
    failing.hw_device_ret = -12;
    assert!(matches!(
        Decoder::with_options(&stream, options, failing),
        Err(FfmpegError::Code(FfmpegErrorCode(-12)))
    ));
    assert_eq!(AV_CODEC_FLAG_LOW_DELAY, 1 << 19);
}

#[test]
fn audio_decoder_reports_stream_values() {
    let stream = audio_stream();
    let decoder = Decoder::new(&stream, outcome_for(&stream, &DecoderOptions::default())).ok().unwrap();
    let decoder = match decoder.video() {
        Ok(_) => panic!("Expected an audio decoder"),
        Err(d) => d,
    };
    let audio = decoder.audio().ok().unwrap();
    assert_eq!(audio.sample_rate(), 48000);
    assert_eq!(audio.channels(), 2);
    assert_eq!(audio.sample_format(), AVSampleFormat::Fltp);
    assert_eq!(audio.codec_type(), AVMediaType::Audio);
}

#[test]
fn decoder_get_hw_format_prefers_hardware() {
    let cuda = AVPixelFormat::Cuda.raw();
    let yuv = AVPixelFormat::Yuv420p.raw();
    assert_eq!(get_hw_format(Some(cuda), &[yuv, cuda, -1]), cuda);
    assert_eq!(get_hw_format(Some(cuda), &[yuv, -1, cuda]), yuv);
    assert_eq!(get_hw_format(Some(cuda), &[-1]), -1);
    assert_eq!(get_hw_format(Some(cuda), &[]), -1);
    assert_eq!(get_hw_format(None, &[yuv, cuda, -1]), -1);
}

#[test]
fn receive_frame_outcomes() {
    let stream = video_stream();
    let decoder = Decoder::new(&stream, found()).ok().unwrap().video().ok().unwrap();
    let frame = GenericFrame::new().unwrap();
    assert!(matches!(decoder.receive_frame(AVERROR_EAGAIN, frame), Ok(None)));
    let frame = GenericFrame::new().unwrap();
    assert!(matches!(decoder.receive_frame(AVERROR_EOF, frame), Ok(None)));
    let frame = GenericFrame::new().unwrap();
    assert!(matches!(
        decoder.receive_frame(-5, frame),
        Err(FfmpegError::Code(FfmpegErrorCode(-5)))
    ));
    let frame = GenericFrame::new().unwrap();
    let received = decoder.receive_frame(0, frame).ok().unwrap().unwrap();
    assert_eq!(received.time_base(), Rational::new(1, 15360));
}

#[test]
fn flush_collects_until_no_frame() {
    let stream = video_stream();
    let decoder = Decoder::new(&stream, found()).ok().unwrap().video().ok().unwrap();
    let received = vec![
        (0, GenericFrame::new().unwrap()),
        (0, GenericFrame::new().unwrap()),
        (AVERROR_EOF, GenericFrame::new().unwrap()),
        (0, GenericFrame::new().unwrap()),
    ];
    let frames = decoder.flush(0, received).ok().unwrap();
    assert_eq!(frames.len(), 2);
    assert_eq!(frames[0].time_base(), Rational::new(1, 15360));

    let received = vec![(0, GenericFrame::new().unwrap()), (-7, GenericFrame::new().unwrap())];
    assert!(matches!(
        decoder.flush(0, received),
        Err(FfmpegError::Code(FfmpegErrorCode(-7)))
    ));
    assert!(matches!(
        decoder.flush(-9, Vec::new()),
        Err(FfmpegError::Code(FfmpegErrorCode(-9)))
    ));
}
