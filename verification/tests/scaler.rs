use scuffle_ffmpeg::enums::AVPixelFormat;
use scuffle_ffmpeg::error::{FfmpegError, FfmpegErrorCode};
use scuffle_ffmpeg::frame::{FrameBuffers, PixFmtDescriptor, VideoFrame};
use scuffle_ffmpeg::rational::Rational;
use scuffle_ffmpeg::scaler::{ScalingAlgorithm, VideoScaler};

/// FFmpeg's description of RGB24: one plane.
const RGB24: PixFmtDescriptor = PixFmtDescriptor { paletted: false, log2_chroma_h: 0 };
/// FFmpeg's description of YUV420P: chroma planes half as high.
const YUV420P: PixFmtDescriptor = PixFmtDescriptor { paletted: false, log2_chroma_h: 1 };

/// What FFmpeg allocates for an RGB24 frame with 32-byte alignment: one plane whose
/// line size is three bytes a pixel, rounded up to the alignment.
fn rgb24_buffers(width: i32, height: i32) -> FrameBuffers {
    let line = (width * 3 + 31) / 32 * 32;
    let mut linesize = [0i32; 8];
    linesize[0] = line;
    FrameBuffers { ret: 0, linesize, planes: vec![vec![0u8; (line * height) as usize]] }
}

/// What FFmpeg allocates for a YUV420P frame with 32-byte alignment.
fn yuv420p_buffers(width: i32, height: i32) -> FrameBuffers {
    let luma = (width + 31) / 32 * 32;
    let chroma = (luma / 2 + 31) / 32 * 32;
    let mut linesize = [0i32; 8];
    linesize[0] = luma;
    linesize[1] = chroma;
    linesize[2] = chroma;
    let planes = vec![
        vec![0u8; (luma * height) as usize],
        vec![0u8; (chroma * (height / 2)) as usize],
        vec![0u8; (chroma * (height / 2)) as usize],
    ];
    FrameBuffers { ret: 0, linesize, planes }
}

#[test]
fn test_scaler_new() {
    let input_width = 1920;
    let input_height = 1080;
    let incoming_pixel_fmt = AVPixelFormat::Yuv420p;
    let output_width = 1280;
    let output_height = 720;
    let output_pixel_fmt = AVPixelFormat::Rgb24;
    let scaler = VideoScaler::new(
        input_width,
        input_height,
        incoming_pixel_fmt,
        output_width,
        output_height,
        output_pixel_fmt,
        0x5000,
        rgb24_buffers(output_width, output_height),
        Some(RGB24),
    );

    assert!(scaler.is_ok(), "Expected VideoScaler::new to succeed");
    let scaler = scaler.ok().unwrap();

    assert_eq!(scaler.width(), output_width, "Expected VideoScaler width to match the output width");
    assert_eq!(scaler.height(), output_height, "Expected VideoScaler height to match the output height");
    assert_eq!(
        scaler.pixel_format(),
        output_pixel_fmt,
        "Expected VideoScaler pixel format to match the output pixel format"
    );
    assert_eq!(
        scaler.algorithm(),
        ScalingAlgorithm::Bilinear,
        "Expected VideoScaler to use default bilinear algorithm"
    );
}

#[test]
fn test_scaler_with_algorithm() {
    let algorithm = ScalingAlgorithm::Lanczos;
    let scaler = VideoScaler::with_algorithm(
        1920,
        1080,
        AVPixelFormat::Yuv420p,
        1280,
        720,
        AVPixelFormat::Rgb24,
        algorithm,
        0x5000,
        rgb24_buffers(1280, 720),
        Some(RGB24),
    );

    assert!(scaler.is_ok(), "Expected VideoScaler::with_algorithm to succeed");
    let scaler = scaler.ok().unwrap();

    assert_eq!(scaler.algorithm(), algorithm, "Expected VideoScaler to use specified algorithm");
    assert_eq!(scaler.width(), 1280);
    assert_eq!(scaler.height(), 720);
    assert_eq!(scaler.pixel_format(), AVPixelFormat::Rgb24);
}

#[test]
fn scaler_creation_errors() {
    assert!(matches!(
        VideoScaler::new(1920, 1080, AVPixelFormat::Yuv420p, 1280, 720, AVPixelFormat::Rgb24, 0, rgb24_buffers(1280, 720), Some(RGB24)),
        Err(FfmpegError::Alloc)
    ));
    assert!(matches!(
        VideoScaler::new(1920, 1080, AVPixelFormat::Yuv420p, 0, 720, AVPixelFormat::Rgb24, 1, rgb24_buffers(0, 720), Some(RGB24)),
        Err(FfmpegError::Arguments("width and height must be positive and not 0"))
    ));
}

#[test]
fn test_scaler_process() {
    let input_width = 1920;
    let input_height = 1080;
    let incoming_pixel_fmt = AVPixelFormat::Yuv420p;
    let output_width = 1280;
    let output_height = 720;
    let output_pixel_fmt = AVPixelFormat::Rgb24;

    let mut scaler = VideoScaler::new(
        input_width,
        input_height,
        incoming_pixel_fmt,
        output_width,
        output_height,
        output_pixel_fmt,
        0x5000,
        rgb24_buffers(output_width, output_height),
        Some(RGB24),
    )
    .ok()
    .expect("Failed to create VideoScaler");

    let mut input_frame = VideoFrame::builder()
        .width(input_width)
        .height(input_height)
        .pix_fmt(incoming_pixel_fmt)
        .build(yuv420p_buffers(input_width, input_height), Some(YUV420P))
        .ok()
        .expect("Failed to create VideoFrame");

    // Fill the planes with pseudo-random data.
    let mut seed: u32 = 7;
    for data_idx in 0..8 {
        if let Some(data_buf) = input_frame.data_mut(data_idx, Some(YUV420P)) {
            for i in 0..data_buf.len() {
                seed = seed.wrapping_mul(1_103_515_245).wrapping_add(12_345);
                data_buf.set(i, (seed >> 16) as u8);
            }
        }
    }

    // The bytes the scale writes into the output frame: one plane of 3840-byte rows.
    let scaled: Vec<u8> = (0..3840 * 720).map(|i| (i % 251) as u8).collect();
    let result = scaler.process(&input_frame, output_height, vec![scaled.clone()]);

    assert!(result.is_ok(), "Expected VideoScaler::process to succeed");

    let output_frame = result.ok().unwrap();
    assert_eq!(output_frame.width(), 1280);
    assert_eq!(output_frame.height(), 720);
    assert_eq!(output_frame.sample_aspect_ratio(), Rational::new(1, 1));
    assert_eq!(output_frame.pts(), None);
    assert_eq!(output_frame.dts(), None);
    assert_eq!(output_frame.duration(), Some(0));
    assert_eq!(output_frame.best_effort_timestamp(), None);
    assert_eq!(output_frame.time_base(), Rational::new(0, 1));
    assert_eq!(output_frame.format(), AVPixelFormat::Rgb24);
    assert!(!output_frame.is_audio());
    assert!(output_frame.is_video());
    assert!(!output_frame.is_keyframe());
    let plane = output_frame.data(0, Some(RGB24)).unwrap();
    assert_eq!(plane.get_row(1).unwrap(), &scaled[3840..7680]);
}

#[test]
fn scaler_process_takes_timestamps_and_scaled_bytes() {
    let mut scaler = VideoScaler::new(64, 48, AVPixelFormat::Yuv420p, 32, 24, AVPixelFormat::Rgb24, 0x5000, rgb24_buffers(32, 24), Some(RGB24))
        .ok()
        .unwrap();
    let input = VideoFrame::builder()
        .width(64)
        .height(48)
        .pix_fmt(AVPixelFormat::Yuv420p)
        .pts(12)
        .dts(10)
        .duration(3)
        .time_base(Rational::new(1, 30))
        .build(yuv420p_buffers(64, 48), Some(YUV420P))
        .ok()
        .unwrap();
    {
        let out = scaler.process(&input, 24, vec![vec![9u8; 96 * 24]]).ok().unwrap();
        assert_eq!(out.pts(), Some(12));
        assert_eq!(out.dts(), Some(10));
        assert_eq!(out.duration(), Some(3));
        assert_eq!(out.time_base(), Rational::new(1, 30));
        assert_eq!(out.width(), 32);
        assert_eq!(out.format(), AVPixelFormat::Rgb24);
        assert_eq!(out.linesize(0), Some(96));
        let plane = out.data(0, Some(RGB24)).unwrap();
        assert_eq!(plane.height(), 24);
        assert_eq!(plane.at(0), 9);
    }
    assert!(matches!(scaler.process(&input, -1, vec![]), Err(FfmpegError::Code(FfmpegErrorCode(-1)))));
    assert!(matches!(
        scaler.process(&input, 24, vec![vec![1u8; 10]]),
        Err(FfmpegError::Arguments("scaled planes do not fit the output frame"))
    ));
    assert!(matches!(
        scaler.process(&input, 24, vec![vec![1u8; 96 * 24], vec![]]),
        Err(FfmpegError::Arguments("scaled planes do not fit the output frame"))
    ));
    let out = scaler.process(&input, 24, vec![]).ok().unwrap();
    assert_eq!(out.data(0, Some(RGB24)).unwrap().at(0), 9, "planes not given stay");
}

#[test]
fn scaling_flags() {
    assert_eq!(ScalingAlgorithm::FastBilinear.as_flags(), 1);
    assert_eq!(ScalingAlgorithm::Bilinear.as_flags(), 2);
    assert_eq!(ScalingAlgorithm::Bicubic.as_flags(), 4);
    assert_eq!(ScalingAlgorithm::Experimental.as_flags(), 8);
    assert_eq!(ScalingAlgorithm::Point.as_flags(), 16);
    assert_eq!(ScalingAlgorithm::Area.as_flags(), 32);
    assert_eq!(ScalingAlgorithm::Bicublin.as_flags(), 64);
    assert_eq!(ScalingAlgorithm::Gauss.as_flags(), 128);
    assert_eq!(ScalingAlgorithm::Sinc.as_flags(), 256);
    assert_eq!(ScalingAlgorithm::Lanczos.as_flags(), 512);
    assert_eq!(ScalingAlgorithm::Spline.as_flags(), 1024);
}
