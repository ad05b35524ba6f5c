use scuffle_ffmpeg::enums::{
    AVChannelOrder, AVFmtFlags, AVFormatFlags, AVHWDeviceType, AVMediaType, AVPictureType, AVPixelFormat,
    AVSampleFormat,
};
use scuffle_ffmpeg::error::{FfmpegError, FfmpegErrorCode};
use scuffle_ffmpeg::rational::{AVRational, Rational};
use scuffle_ffmpeg::utils::{check_i64, or_nopts, AV_NOPTS_VALUE};

#[test]
fn rational_conversions() {
    assert_eq!(Rational::from_av(AVRational { num: 1, den: 0 }), Rational::zero());
    assert_eq!(Rational::from_av(AVRational { num: 3, den: 4 }), Rational::new(3, 4));
    assert_eq!(Rational::new(3, 4).to_av(), AVRational { num: 3, den: 4 });
    assert_eq!(Rational::one(), Rational::new(1, 1));
    assert_eq!(Rational::from_integer(30), Rational::new(30, 1));
}

#[test]
fn enum_raw_values_round_trip() {
    assert_eq!(AVPixelFormat::Yuv420p.raw(), 0);
    assert_eq!(AVPixelFormat::from_raw(0), AVPixelFormat::Yuv420p);
    assert_eq!(AVPixelFormat::from_raw(-1), AVPixelFormat::NoFormat);
    assert_eq!(AVPixelFormat::from_raw(99999), AVPixelFormat::Other(99999));
    assert_eq!(AVSampleFormat::from_raw(AVSampleFormat::Fltp.raw()), AVSampleFormat::Fltp);
    assert_eq!(AVMediaType::from_raw(AVMediaType::Audio.raw()), AVMediaType::Audio);
    assert_eq!(AVPictureType::from_raw(1), AVPictureType::Intra);
    assert_eq!(AVChannelOrder::from_raw(AVChannelOrder::Native.raw()), AVChannelOrder::Native);
    assert_eq!(AVHWDeviceType::from_raw(AVHWDeviceType::Cuda.raw()), AVHWDeviceType::Cuda);
    assert_eq!(AVHWDeviceType::default(), AVHWDeviceType::NoDevice);
}

#[test]
fn format_flags() {
    let f = AVFormatFlags(AVFormatFlags::GlobalHeader | AVFormatFlags::NoFile);
    assert!(f.contains(AVFormatFlags::GlobalHeader));
    assert!(!f.contains(AVFormatFlags::NoTimestamps));
    assert_eq!(f.bitand(AVFormatFlags(AVFormatFlags::NoFile)).0, AVFormatFlags::NoFile);
    assert_eq!(AVFmtFlags(AVFmtFlags::GenPts).bitor(AVFmtFlags(AVFmtFlags::AutoBsf)).0, 1 | 2097152);
    assert_eq!(AVFmtFlags::from_u32(0x100000).0, AVFmtFlags::Shortest);
    assert_eq!(AVFormatFlags(AVFormatFlags::AllowFlush).to_u32(), 0x10000);
}

#[test]
fn timestamps() {
    assert_eq!(check_i64(AV_NOPTS_VALUE), None);
    assert_eq!(check_i64(5), Some(5));
    assert_eq!(or_nopts(None), AV_NOPTS_VALUE);
    assert_eq!(or_nopts(Some(5)), 5);
}

#[test]
fn error_codes() {
    assert_eq!(FfmpegErrorCode(3).result(), Ok(3));
    assert_eq!(FfmpegErrorCode(-1).result(), Err(FfmpegError::Code(FfmpegErrorCode(-1))));
    assert!(FfmpegErrorCode(0).is_success());
}

#[test]
fn enum_values_compare_by_their_raw_value() {
    assert_eq!(AVPixelFormat::Other(0), AVPixelFormat::Yuv420p);
    assert_ne!(AVPixelFormat::Other(1), AVPixelFormat::Yuv420p);
    assert_eq!(AVHWDeviceType::Other(2), AVHWDeviceType::Cuda);
    assert_eq!(AVSampleFormat::Other(1), AVSampleFormat::S16);
    assert_eq!(AVMediaType::Other(0), AVMediaType::Video);
    assert_ne!(AVMediaType::Other(1), AVMediaType::Video);
}
