use scuffle_ffmpeg::enums::{AVChannelOrder, AVPictureType, AVPixelFormat, AVSampleFormat};
use scuffle_ffmpeg::error::{FfmpegError, FfmpegErrorCode};
use scuffle_ffmpeg::frame::generic::HwFrameMapFlags;
use scuffle_ffmpeg::frame::video::{plane_height, PixFmtDescriptor};
use scuffle_ffmpeg::frame::{AudioChannelLayout, AudioFrame, FrameBuffers, FrameData, GenericFrame, VideoFrame};
use scuffle_ffmpeg::rational::Rational;
use scuffle_ffmpeg::raw::{AVChannelLayout, AVFrame};
use scuffle_ffmpeg::utils::AV_NOPTS_VALUE;

/// The layout FFmpeg's default layout for `channels` channels gives: stereo for two,
/// 5.1 for six.
fn default_layout(channels: i32) -> AudioChannelLayout {
    let mask = match channels {
        1 => 0x4,
        2 => 0x3,
        6 => 0x60f,
        _ => 0,
    };
    AudioChannelLayout::wrap(AVChannelLayout { order: AVChannelOrder::Native.raw(), nb_channels: channels, mask })
}

/// What a successful buffer allocation hands back: plane `i` holds `rows[i]` rows of
/// `linesizes[i]` zero bytes.
fn allocated(linesizes: &[i32], rows: &[i32]) -> FrameBuffers {
    let mut linesize = [0i32; 8];
    let mut planes = Vec::new();
    for (i, (&l, &h)) in linesizes.iter().zip(rows).enumerate() {
        linesize[i] = l;
        planes.push(vec![0u8; (l.abs() * h) as usize]);
    }
    FrameBuffers { ret: 0, linesize, planes }
}

/// FFmpeg's description of YUV420P: chroma planes half as high.
const YUV420P: PixFmtDescriptor = PixFmtDescriptor { paletted: false, log2_chroma_h: 1 };
/// FFmpeg's description of RGB24: one plane.
const RGB24: PixFmtDescriptor = PixFmtDescriptor { paletted: false, log2_chroma_h: 0 };

/// What FFmpeg allocates for a YUV420P frame with 32-byte alignment: the luma line
/// size is the width rounded up to the alignment, each chroma line size half of it,
/// rounded up again, and the chroma planes are half as high.
fn yuv420p_buffers(width: i32, height: i32) -> FrameBuffers {
    let luma = (width + 31) / 32 * 32;
    let chroma = (luma / 2 + 31) / 32 * 32;
    allocated(&[luma, chroma, chroma], &[height, height / 2, height / 2])
}

/// What FFmpeg allocates for an RGB24 frame with 32-byte alignment.
fn rgb24_buffers(width: i32, height: i32) -> FrameBuffers {
    allocated(&[(width * 3 + 31) / 32 * 32], &[height])
}

/// What FFmpeg allocates for an audio frame with 32-byte alignment: one plane per
/// channel for a planar format, one for all channels otherwise; only the first line
/// size is set.
fn audio_buffers(channels: i32, nb_samples: i32, sample_size: i32, planar: bool) -> FrameBuffers {
    let per_plane = if planar { sample_size * nb_samples } else { sample_size * nb_samples * channels };
    let line = (per_plane + 31) / 32 * 32;
    let planes = if planar { channels } else { 1 };
    let mut linesizes = vec![line];
    let mut rows = vec![1];
    for _ in 1..planes {
        linesizes.push(0);
        rows.push(1);
    }
    allocated(&linesizes, &rows)
}

#[test]
fn test_audio_conversion() {
    let frame = GenericFrame::new().expect("Failed to create frame");
    let mut raw = frame.as_raw();
    default_layout(2).apply(&mut raw.ch_layout);
    let audio_frame = GenericFrame::wrap(raw).audio();

    assert!(audio_frame.is_audio(), "The frame should be identified as audio.");
    assert!(!audio_frame.is_video(), "The frame should not be identified as video.");
}

#[test]
fn test_linesize() {
    let frame = VideoFrame::builder()
        .width(1920)
        .height(1080)
        .pix_fmt(AVPixelFormat::Yuv420p)
        .build(yuv420p_buffers(1920, 1080), Some(YUV420P))
        .expect("Failed to create frame");

    assert!(
        frame.linesize(0).unwrap_or(0) > 0,
        "Linesize should be greater than zero for valid index."
    );

    assert!(
        frame.linesize(100).is_none(),
        "Linesize at an invalid index should return None."
    );
}

#[test]
fn test_sample_aspect_ratio() {
    let frame = GenericFrame::new().expect("Failed to create frame");
    let mut video_frame = frame.video();
    let sample_aspect_ratio = Rational::new(16, 9);
    video_frame.set_sample_aspect_ratio(sample_aspect_ratio);

    assert_eq!(
        video_frame.sample_aspect_ratio(),
        sample_aspect_ratio,
        "Sample aspect ratio should match the set value."
    );
}

#[test]
fn test_pict_type() {
    let frame = GenericFrame::new().expect("Failed to create frame");
    let mut video_frame = frame.video();
    video_frame.set_pict_type(AVPictureType::Intra);

    assert_eq!(
        video_frame.pict_type(),
        AVPictureType::Intra,
        "Picture type should match the set value."
    );
}

#[test]
fn test_sample_rate() {
    let mut audio_frame = AudioFrame::builder()
        .channel_layout(default_layout(2))
        .nb_samples(123)
        .sample_fmt(AVSampleFormat::S16)
        .sample_rate(44100)
        .build(audio_buffers(2, 123, 2, false))
        .expect("Failed to create AudioFrame with custom layout");

    audio_frame.set_sample_rate(48000);

    assert_eq!(audio_frame.sample_rate(), 48000, "The sample rate should match the set value.");
}

#[test]
fn frame_data_read() {
    let frame_data = FrameData::new(vec![1, 2, 3, 4, 5, 6], 3, 2).unwrap();

    assert_eq!(*frame_data.get(0).unwrap(), 1);
    assert_eq!(*frame_data.get(5).unwrap(), 6);

    assert_eq!(frame_data.get_row(0).unwrap(), [1, 2, 3]);
    assert_eq!(frame_data.get_row(1).unwrap(), [4, 5, 6]);
    assert!(frame_data.get_row(2).is_none());
}

#[test]
fn frame_data_read_inverse() {
    // Bottom-to-top rows: the memory holds the last row first.
    let frame_data = FrameData::new(vec![1, 2, 3, 4, 5, 6], -3, 2).unwrap();

    assert_eq!(*frame_data.get(0).unwrap(), 4);
    assert_eq!(*frame_data.get(3).unwrap(), 1);
    assert_eq!(*frame_data.get(5).unwrap(), 3);

    assert_eq!(frame_data.get_row(0).unwrap(), [4, 5, 6]);
    assert_eq!(frame_data.get_row(1).unwrap(), [1, 2, 3]);
    assert!(frame_data.get_row(2).is_none());
}

#[test]
fn frame_data_read_out_of_bounds() {
    let inverse_frame_data = FrameData::new(vec![1, 2, 3, 4, 5, 6], -3, 2).unwrap();
    let frame_data = FrameData::new(vec![1, 2, 3, 4, 5, 6], 3, 2).unwrap();

    assert!(inverse_frame_data.get(6).is_none());
    assert!(frame_data.get(6).is_none());
}

#[test]
fn frame_data_write() {
    let mut frame_data = FrameData::new(vec![1, 2, 3, 4, 5, 6], 3, 2).unwrap();

    for i in 1..frame_data.len() {
        let first = frame_data.at(0);
        *frame_data.get_mut(i).unwrap() = first;
    }

    for i in 0..frame_data.len() {
        assert_eq!(frame_data.at(i), 1, "all bytes of frame_data should be 1")
    }
}

#[test]
fn frame_data_write_inverse_lands_in_memory_order() {
    let mut frame_data = FrameData::new(vec![1, 2, 3, 4, 5, 6], -3, 2).unwrap();
    frame_data.set(0, 40);
    assert_eq!(frame_data.get_row(0).unwrap(), [40, 5, 6]);
    assert_eq!(frame_data.get_row(1).unwrap(), [1, 2, 3]);
    assert!(frame_data.get_mut(6).is_none());
}

#[test]
fn frame_data_fill() {
    let mut frame_data = FrameData::new(vec![1, 2, 3, 4, 5, 6], -3, 2).unwrap();
    frame_data.fill(9);
    assert_eq!(frame_data.get_row(0).unwrap(), [9, 9, 9]);
    assert_eq!(frame_data.get_row(1).unwrap(), [9, 9, 9]);
    assert_eq!(frame_data.len(), 6);
    assert_eq!(frame_data.linesize(), -3);
    assert_eq!(frame_data.height(), 2);
    assert!(!frame_data.is_empty());
}

#[test]
fn frame_data_new_rejects_wrong_sizes() {
    assert!(FrameData::new(vec![1, 2, 3], 3, 2).is_none());
    assert!(FrameData::new(vec![], 3, -1).is_none());
    assert!(FrameData::new(vec![], i32::MIN, 0).is_none());
    assert!(FrameData::new(vec![], 0, 5).unwrap().is_empty());
}

/// The values FFmpeg's copy of properties (`av_frame_copy_props(dst, src)`) leaves in
/// `dst`: the properties of `src` over the format, size, sample count, channel layout,
/// line sizes and hardware frames context of `dst`.
fn props_copied(dst: &GenericFrame, src: &GenericFrame) -> AVFrame {
    let d = dst.as_raw();
    AVFrame {
        format: d.format,
        width: d.width,
        height: d.height,
        nb_samples: d.nb_samples,
        ch_layout: d.ch_layout,
        linesize: d.linesize,
        hw_frames_ctx: d.hw_frames_ctx,
        ..src.as_raw()
    }
}

#[test]
fn test_copy_props_from() {
    let mut src_frame = GenericFrame::new().expect("Failed to create source frame");
    src_frame.set_pts(Some(12345));
    src_frame.set_dts(Some(67890));
    src_frame.set_duration(Some(1000));
    src_frame.set_time_base(Rational::new(1, 30));
    src_frame.set_pixel_format(AVPixelFormat::Yuv420p);

    let mut dest_frame = GenericFrame::new().expect("Failed to create destination frame");
    dest_frame.set_pts(Some(99999));
    dest_frame.set_dts(Some(88888));
    dest_frame.set_duration(Some(2000));
    dest_frame.set_time_base(Rational::new(1, 60));
    dest_frame.set_pixel_format(AVPixelFormat::Rgb24);

    let original_dest_format = dest_frame.format();

    assert_ne!(dest_frame.pts(), src_frame.pts());
    assert_ne!(dest_frame.dts(), src_frame.dts());
    assert_ne!(dest_frame.duration(), src_frame.duration());
    assert_ne!(dest_frame.time_base(), src_frame.time_base());

    let copied = props_copied(&dest_frame, &src_frame);
    dest_frame.copy_props_from(0, copied).expect("Failed to copy props");

    assert_eq!(dest_frame.pts(), src_frame.pts());
    assert_eq!(dest_frame.dts(), src_frame.dts());
    assert_eq!(dest_frame.duration(), src_frame.duration());
    assert_eq!(dest_frame.time_base(), src_frame.time_base());

    assert_eq!(dest_frame.format(), original_dest_format);
    assert_ne!(dest_frame.format(), src_frame.format());
}

#[test]
fn test_copy_props_from_video_frames() {
    let mut src_frame = VideoFrame::builder()
        .width(1920)
        .height(1080)
        .pts(100)
        .dts(90)
        .duration(33)
        .time_base(Rational::new(1, 30))
        .pix_fmt(AVPixelFormat::Yuv420p)
        .build(yuv420p_buffers(1920, 1080), Some(YUV420P))
        .expect("Failed to create source video frame");

    src_frame.set_pict_type(AVPictureType::Intra);
    src_frame.set_sample_aspect_ratio(Rational::new(16, 9));

    let mut dest_frame = VideoFrame::builder()
        .width(1280)
        .height(720)
        .pts(200)
        .dts(190)
        .duration(40)
        .time_base(Rational::new(1, 60))
        .pix_fmt(AVPixelFormat::Rgb24)
        .build(rgb24_buffers(1280, 720), Some(RGB24))
        .expect("Failed to create destination video frame");

    dest_frame.set_pict_type(AVPictureType::Predicted);
    dest_frame.set_sample_aspect_ratio(Rational::new(4, 3));

    let original_width = dest_frame.width();
    let original_height = dest_frame.height();
    let original_format = dest_frame.format();

    let copied = props_copied(dest_frame.as_generic(), src_frame.as_generic());
    dest_frame
        .as_generic_mut()
        .copy_props_from(0, copied)
        .expect("Failed to copy props");

    assert_eq!(dest_frame.pts(), src_frame.pts());
    assert_eq!(dest_frame.dts(), src_frame.dts());
    assert_eq!(dest_frame.duration(), src_frame.duration());
    assert_eq!(dest_frame.time_base(), src_frame.time_base());
    assert_eq!(dest_frame.pict_type(), src_frame.pict_type());
    assert_eq!(dest_frame.sample_aspect_ratio(), src_frame.sample_aspect_ratio());

    assert_eq!(dest_frame.width(), original_width);
    assert_eq!(dest_frame.height(), original_height);
    assert_eq!(dest_frame.format(), original_format);
    assert_ne!(dest_frame.width(), src_frame.width());
    assert_ne!(dest_frame.height(), src_frame.height());
    assert_ne!(dest_frame.format(), src_frame.format());
}

#[test]
fn test_copy_props_from_audio_frames() {
    let src_frame = AudioFrame::builder()
        .nb_samples(1024)
        .sample_rate(48000)
        .channel_layout(default_layout(2))
        .sample_fmt(AVSampleFormat::Fltp)
        .pts(500)
        .dts(490)
        .duration(21)
        .time_base(Rational::new(1, 48000))
        .build(audio_buffers(2, 1024, 4, true))
        .expect("Failed to create source audio frame");

    let mut dest_frame = AudioFrame::builder()
        .nb_samples(512)
        .sample_rate(44100)
        .channel_layout(default_layout(6))
        .sample_fmt(AVSampleFormat::S16)
        .pts(600)
        .dts(590)
        .duration(25)
        .time_base(Rational::new(1, 44100))
        .build(audio_buffers(6, 512, 2, false))
        .expect("Failed to create destination audio frame");

    let original_nb_samples = dest_frame.nb_samples();
    let original_channel_count = dest_frame.channel_count();
    let original_format = dest_frame.format();

    let copied = props_copied(dest_frame.as_generic(), src_frame.as_generic());
    dest_frame
        .as_generic_mut()
        .copy_props_from(0, copied)
        .expect("Failed to copy props");

    assert_eq!(dest_frame.pts(), src_frame.pts());
    assert_eq!(dest_frame.dts(), src_frame.dts());
    assert_eq!(dest_frame.duration(), src_frame.duration());
    assert_eq!(dest_frame.time_base(), src_frame.time_base());

    assert_eq!(dest_frame.nb_samples(), original_nb_samples);
    assert_eq!(dest_frame.channel_count(), original_channel_count);
    assert_eq!(dest_frame.format(), original_format);
    assert_ne!(dest_frame.nb_samples(), src_frame.nb_samples());
    assert_ne!(dest_frame.channel_count(), src_frame.channel_count());
    assert_ne!(dest_frame.format(), src_frame.format());
}

#[test]
fn new_frame_has_no_timestamps() {
    let frame = GenericFrame::new().unwrap();
    assert_eq!(frame.pts(), None);
    assert_eq!(frame.dts(), None);
    assert_eq!(frame.best_effort_timestamp(), None);
    assert_eq!(frame.duration(), Some(0));
    assert_eq!(frame.time_base(), Rational::new(0, 1));
    assert_eq!(frame.format(), -1);
    assert!(!frame.is_audio());
    assert!(!frame.is_video());
    assert!(frame.hwframe_ctx().is_null());
}

#[test]
fn set_pts_sets_best_effort_timestamp() {
    let mut frame = GenericFrame::new().unwrap();
    frame.set_pts(Some(42));
    assert_eq!(frame.pts(), Some(42));
    assert_eq!(frame.best_effort_timestamp(), Some(42));
    frame.set_pts(None);
    assert_eq!(frame.pts(), None);
    assert_eq!(frame.as_raw().pts, AV_NOPTS_VALUE);
    frame.set_pts(Some(AV_NOPTS_VALUE));
    assert_eq!(frame.pts(), None);
}

#[test]
fn video_frame_new_errors() {
    let err = VideoFrame::builder()
        .width(0)
        .height(10)
        .pix_fmt(AVPixelFormat::Yuv420p)
        .build(yuv420p_buffers(0, 10), Some(YUV420P));
    assert!(matches!(err, Err(FfmpegError::Arguments("width and height must be positive and not 0"))));
    let err = VideoFrame::builder()
        .width(10)
        .height(10)
        .pix_fmt(AVPixelFormat::Yuv420p)
        .alignment(-1)
        .build(yuv420p_buffers(10, 10), Some(YUV420P));
    assert!(matches!(err, Err(FfmpegError::Arguments("alignment must be positive"))));
    let failed = FrameBuffers { ret: -22, linesize: [0; 8], planes: vec![] };
    let err = VideoFrame::builder().width(10).height(10).pix_fmt(AVPixelFormat::Cuda).build(failed, None);
    assert!(matches!(err, Err(FfmpegError::Code(FfmpegErrorCode(-22)))));
    let short = allocated(&[32, 32, 32], &[10, 10, 5]);
    let err = VideoFrame::builder().width(10).height(10).pix_fmt(AVPixelFormat::Yuv420p).build(short, Some(YUV420P));
    assert!(matches!(err, Err(FfmpegError::Alloc)), "a chroma plane has half the rows");
    let ok = VideoFrame::builder()
        .width(10)
        .height(20)
        .pix_fmt(AVPixelFormat::Yuv420p)
        .pts(7)
        .build(yuv420p_buffers(10, 20), Some(YUV420P))
        .unwrap();
    assert_eq!(ok.width(), 10);
    assert_eq!(ok.height(), 20);
    assert_eq!(ok.format(), AVPixelFormat::Yuv420p);
    assert_eq!(ok.pts(), Some(7));
    assert_eq!(ok.best_effort_timestamp(), Some(7));
    assert_eq!(ok.dts(), None);
    assert_eq!(ok.sample_aspect_ratio(), Rational::new(1, 1));
    assert_eq!(ok.pict_type(), AVPictureType::NoPicture);
    assert_eq!(ok.linesize(0), Some(32));
    assert_eq!(ok.linesize(1), Some(32));
    assert_eq!(ok.linesize(3), Some(0));
    assert!(!ok.is_keyframe());
    assert!(ok.is_video());
}

#[test]
fn video_frame_planes_follow_the_allocation() {
    let frame = VideoFrame::builder()
        .width(16)
        .height(16)
        .pix_fmt(AVPixelFormat::Yuv420p)
        .build(yuv420p_buffers(16, 16), Some(YUV420P))
        .unwrap();
    assert_eq!(frame.data(0, Some(YUV420P)).unwrap().height(), 16);
    assert_eq!(frame.data(1, Some(YUV420P)).unwrap().height(), 8);
    assert_eq!(frame.data(2, Some(YUV420P)).unwrap().height(), 8);
    assert!(frame.data(3, Some(YUV420P)).is_none());
    assert_eq!(frame.data(0, Some(YUV420P)).unwrap().linesize(), 32);

    let undescribed = VideoFrame::builder()
        .width(16)
        .height(16)
        .pix_fmt(AVPixelFormat::Yuv420p)
        .build(yuv420p_buffers(16, 16), None)
        .unwrap();
    assert_eq!(undescribed.linesize(0), Some(32));
    assert!(undescribed.data(0, Some(YUV420P)).is_none(), "no plane is attached without a description");
}

#[test]
fn audio_frame_new_errors() {
    let err = AudioFrame::builder()
        .channel_layout(default_layout(2))
        .nb_samples(0)
        .sample_rate(48000)
        .build(audio_buffers(2, 0, 4, true));
    assert!(matches!(
        err,
        Err(FfmpegError::Arguments("sample_rate and nb_samples must be positive and not 0"))
    ));
    let err = AudioFrame::builder()
        .channel_layout(default_layout(2))
        .nb_samples(10)
        .sample_rate(48000)
        .alignment(-3)
        .build(audio_buffers(2, 10, 4, true));
    assert!(matches!(err, Err(FfmpegError::Arguments("alignment must be positive"))));
    let failed = FrameBuffers { ret: -22, linesize: [0; 8], planes: vec![] };
    let err = AudioFrame::builder().channel_layout(default_layout(2)).nb_samples(10).sample_rate(48000).build(failed);
    assert!(matches!(err, Err(FfmpegError::Code(FfmpegErrorCode(-22)))), "an unset sample format fails to allocate");
    let err = AudioFrame::builder()
        .channel_layout(default_layout(2))
        .nb_samples(10)
        .sample_rate(48000)
        .sample_fmt(AVSampleFormat::Fltp)
        .build(allocated(&[64], &[2]));
    assert!(matches!(err, Err(FfmpegError::Alloc)), "an audio plane is one row");
    let ok = AudioFrame::builder()
        .channel_layout(default_layout(2))
        .nb_samples(10)
        .sample_rate(48000)
        .sample_fmt(AVSampleFormat::Fltp)
        .build(audio_buffers(2, 10, 4, true))
        .unwrap();
    assert_eq!(ok.channel_count(), 2);
    assert_eq!(ok.channel_layout().channel_count(), 2);
    assert_eq!(ok.format(), AVSampleFormat::Fltp);
    assert_eq!(ok.linesize(0), Some(64));
    assert_eq!(ok.data(0).unwrap().len(), 64);
    assert_eq!(ok.data(1).unwrap().len(), 0, "only the first line size is set for audio");
    assert!(ok.data(2).is_none());
    assert!(ok.is_audio());
}

#[test]
fn channel_layout_validation_and_moves() {
    let layout = default_layout(2);
    assert!(layout.validate(1).is_ok());
    assert_eq!(layout.validate(0), Err(FfmpegError::Arguments("invalid channel layout")));
    let copy = layout.copy().unwrap();
    assert_eq!(copy.into_inner(), layout.into_inner());
    let empty = AudioChannelLayout::default();
    assert_eq!(empty.channel_count(), 0);
}

#[test]
fn plane_heights() {
    assert_eq!(plane_height(1080, 0, false, 1), 1080);
    assert_eq!(plane_height(1080, 1, false, 1), 540);
    assert_eq!(plane_height(1080, 2, false, 1), 540);
    assert_eq!(plane_height(1080, 1, true, 1), 1);
    assert_eq!(plane_height(1081, 1, false, 1), 540);
}

#[test]
fn hw_frame_map_flags_combine() {
    let rw = HwFrameMapFlags::read().bitor(HwFrameMapFlags::write());
    assert_eq!(rw.0, 3);
    assert_eq!(HwFrameMapFlags::overwrite().0, 4);
    assert_eq!(HwFrameMapFlags::direct().0, 8);
}

#[test]
fn test_frame_clone() {
    let frame = VideoFrame::builder()
        .width(16)
        .height(16)
        .pts(12)
        .dts(34)
        .duration(5)
        .time_base(Rational::new(1, 30))
        .pix_fmt(AVPixelFormat::Yuv420p)
        .build(yuv420p_buffers(16, 16), Some(YUV420P))
        .expect("failed to build VideoFrame");

    let cloned_frame = frame.clone();

    assert_eq!(
        frame.as_generic().as_raw(),
        cloned_frame.as_generic().as_raw(),
        "Cloned frame should be equal to the original frame."
    );
}

#[test]
fn test_data_allocation_and_access() {
    let mut video_frame = VideoFrame::builder()
        .width(16)
        .height(16)
        .pix_fmt(AVPixelFormat::Yuv420p)
        .alignment(32)
        .build(yuv420p_buffers(16, 16), Some(YUV420P))
        .expect("Failed to create VideoFrame");

    let mut randomized_data: Vec<Vec<u8>> = Vec::with_capacity(video_frame.height());
    let mut seed: u32 = 0x1234_5678;

    if let Some(data) = video_frame.data_mut(0, Some(YUV420P)) {
        let stride = data.linesize().unsigned_abs() as usize;
        for row in 0..data.height() as usize {
            let mut bytes = Vec::with_capacity(stride);
            for _ in 0..stride {
                seed = seed.wrapping_mul(1_103_515_245).wrapping_add(12_345);
                bytes.push((seed >> 16) as u8);
            }
            assert!(data.set_row(row, &bytes));
            randomized_data.push(bytes);
        }
    } else {
        panic!("Failed to get valid data buffer for Y-plane.");
    }

    if let Some(data) = video_frame.data(0, Some(YUV420P)) {
        for row in 0..data.height() {
            let data_slice = data.get_row(row as usize).unwrap();
            assert_eq!(
                data_slice,
                randomized_data[row as usize].as_slice(),
                "Data does not match randomized content."
            );
        }
    } else {
        panic!("Data at index 0 should not be None.");
    }
}

#[test]
fn attached_planes_replace_one_plane() {
    let mut frame = VideoFrame::builder()
        .width(4)
        .height(4)
        .pix_fmt(AVPixelFormat::Yuv420p)
        .build(allocated(&[4, 2, 2], &[4, 2, 2]), Some(YUV420P))
        .unwrap();

    assert!(frame.attach_plane(0, (0..16).collect(), YUV420P));
    assert!(frame.attach_plane(1, vec![7; 4], YUV420P));
    assert!(!frame.attach_plane(2, vec![7; 8], YUV420P), "a chroma plane has half the rows");
    assert!(!frame.attach_plane(8, vec![], YUV420P));

    assert!(frame.data(0, None).is_none());
    let luma = frame.data(0, Some(YUV420P)).unwrap();
    assert_eq!(luma.height(), 4);
    assert_eq!(luma.get_row(3).unwrap(), [12, 13, 14, 15]);
    assert_eq!(frame.data(1, Some(YUV420P)).unwrap().get_row(0).unwrap(), [7, 7]);
    assert_eq!(frame.data(2, Some(YUV420P)).unwrap().get_row(1).unwrap(), [0, 0]);

    frame.data_mut(0, Some(YUV420P)).unwrap().fill(1);
    let luma = frame.data(0, Some(YUV420P)).unwrap();
    for i in 0..luma.len() {
        assert_eq!(luma.at(i), 1);
    }
}

#[test]
fn audio_frame_planes() {
    let mut frame = AudioFrame::builder()
        .channel_layout(default_layout(2))
        .nb_samples(4)
        .sample_rate(48000)
        .sample_fmt(AVSampleFormat::S16)
        .build(allocated(&[16, -16], &[1, 1]))
        .unwrap();
    assert!(frame.attach_plane(0, vec![3; 16]));
    assert!(frame.attach_plane(1, vec![4; 16]));
    assert!(!frame.attach_plane(2, vec![4; 16]));
    assert_eq!(frame.data(0).unwrap().get_row(0).unwrap(), [3u8; 16]);
    assert!(frame.data(1).is_none(), "a negative line size gives no data");
    assert!(frame.data(2).is_none());
    assert!(frame.data(9).is_none());
}

#[test]
fn test_alloc_frame_buffer() {
    let cases = [(0, true), (3, true), (32, true), (-1, false)];

    for alignment in cases {
        let frame = AudioFrame::builder()
            .sample_fmt(AVSampleFormat::S16)
            .nb_samples(1024)
            .channel_layout(default_layout(1))
            .alignment(alignment.0)
            .sample_rate(44100)
            .build(audio_buffers(1, 1024, 2, false));

        assert_eq!(frame.is_ok(), alignment.1)
    }
}

#[test]
fn copy_props_keeps_the_structure_and_reports_failures() {
    let mut dest = VideoFrame::builder()
        .width(16)
        .height(16)
        .pix_fmt(AVPixelFormat::Yuv420p)
        .build(yuv420p_buffers(16, 16), Some(YUV420P))
        .unwrap();
    let mut src = GenericFrame::new().unwrap();
    src.set_pts(Some(5));
    // Whatever the copy left in the structural fields, the frame keeps its own.
    let r = dest.as_generic_mut().copy_props_from(0, src.as_raw());
    assert!(r.is_ok());
    assert_eq!(dest.pts(), Some(5));
    assert_eq!(dest.width(), 16);
    assert_eq!(dest.format(), AVPixelFormat::Yuv420p);
    assert_eq!(dest.linesize(0), Some(32));
    assert_eq!(dest.data(0, Some(YUV420P)).unwrap().height(), 16);
    let mut failing = GenericFrame::new().unwrap();
    failing.set_pts(Some(9));
    let r = dest.as_generic_mut().copy_props_from(-12, failing.as_raw());
    assert!(matches!(r, Err(FfmpegError::Code(FfmpegErrorCode(-12)))));
    assert_eq!(dest.pts(), Some(5));
}

#[test]
fn frame_data_set_row() {
    let mut up = FrameData::new(vec![1, 2, 3, 4, 5, 6], 3, 2).unwrap();
    assert!(up.set_row(1, &[7, 8, 9]));
    assert_eq!(up.as_memory(), &[1, 2, 3, 7, 8, 9]);
    assert!(!up.set_row(2, &[0, 0, 0]));
    assert!(!up.set_row(0, &[0, 0]));
    assert_eq!(up.get_row(0).unwrap(), [1, 2, 3]);

    let mut down = FrameData::new(vec![1, 2, 3, 4, 5, 6], -3, 2).unwrap();
    assert!(down.set_row(0, &[7, 8, 9]));
    assert_eq!(down.get_row(0).unwrap(), [7, 8, 9]);
    assert_eq!(down.as_memory(), &[1, 2, 3, 7, 8, 9], "the top row is last in memory");
}

#[test]
fn audio_frame_data_mut() {
    let mut frame = AudioFrame::builder()
        .channel_layout(default_layout(2))
        .nb_samples(4)
        .sample_rate(48000)
        .sample_fmt(AVSampleFormat::S16)
        .build(allocated(&[16, -16], &[1, 1]))
        .unwrap();
    frame.data_mut(0).unwrap().fill(5);
    assert_eq!(frame.data(0).unwrap().get_row(0).unwrap(), [5u8; 16]);
    assert!(frame.data_mut(1).is_none(), "a negative line size gives no data");
    assert!(frame.data_mut(2).is_none());
    assert!(frame.data_mut(8).is_none());
}
