use scuffle_ffmpeg::enums::{AVHWDeviceType, AVPixelFormat};
use scuffle_ffmpeg::error::{FfmpegError, FfmpegErrorCode, AVERROR_INVALIDDATA};
use scuffle_ffmpeg::frame::{GenericFrame, VideoFrame};
use scuffle_ffmpeg::hardware::{
    find_hw_config_for_codec, get_hw_format, has_nul_byte, AVCodecHWConfig, HardwareConfig, HardwareContext,
};
use scuffle_ffmpeg::raw::BufferRef;

#[test]
fn test_hardware_config_default() {
    let config = HardwareConfig::default();
    assert_eq!(config.device_type, AVHWDeviceType::NoDevice);
    assert!(!config.is_hardware_accelerated());
}

#[test]
fn test_hardware_config_cuda() {
    let config = HardwareConfig::cuda();
    assert_eq!(config.device_type, AVHWDeviceType::Cuda);
    assert!(config.is_hardware_accelerated());
    assert!(config.auto_transfer);
}

#[test]
fn test_hardware_config_vaapi() {
    let config = HardwareConfig::vaapi();
    assert_eq!(config.device_type, AVHWDeviceType::Vaapi);
    assert!(config.is_hardware_accelerated());
    assert!(config.auto_transfer);
}

#[test]
fn test_hardware_config_with_device() {
    let config = HardwareConfig::cuda().with_device("/dev/nvidia0");
    assert_eq!(config.device, Some("/dev/nvidia0".to_string()));
}

#[test]
fn test_hardware_config_with_auto_transfer() {
    let config = HardwareConfig::cuda().with_auto_transfer(false);
    assert!(!config.auto_transfer);
}

#[test]
fn test_hw_device_type_display() {
    assert_eq!(AVHWDeviceType::Cuda.display_name(), "cuda");
    assert_eq!(AVHWDeviceType::Vaapi.display_name(), "vaapi");
    assert_eq!(AVHWDeviceType::NoDevice.display_name(), "none");
}

#[test]
fn test_hw_device_type_find_by_name() {
    assert_eq!(AVHWDeviceType::find_by_name("cuda", AVHWDeviceType::Cuda.raw()), Some(AVHWDeviceType::Cuda));
    assert_eq!(AVHWDeviceType::find_by_name("vaapi", AVHWDeviceType::Vaapi.raw()), Some(AVHWDeviceType::Vaapi));
    assert_eq!(AVHWDeviceType::find_by_name("nonexistent", 0), None);
    assert_eq!(AVHWDeviceType::find_by_name("cu\0da", AVHWDeviceType::Cuda.raw()), None);
}

#[test]
fn hardware_context_from_creation_results() {
    let ctx = HardwareContext::new(AVHWDeviceType::Cuda, 0, BufferRef(0x10)).ok().unwrap();
    assert_eq!(ctx.device_type(), AVHWDeviceType::Cuda);
    assert_eq!(ctx.hw_pixel_format(), AVPixelFormat::Cuda);
    assert_eq!(ctx.as_ptr(), BufferRef(0x10));

    let ctx = HardwareContext::new(AVHWDeviceType::Vaapi, 0, BufferRef(0x10)).ok().unwrap();
    assert_eq!(ctx.hw_pixel_format(), AVPixelFormat::Vaapi);

    assert!(matches!(
        HardwareContext::new(AVHWDeviceType::Cuda, -12, BufferRef(0)),
        Err(FfmpegError::Code(FfmpegErrorCode(-12)))
    ));
    assert!(matches!(HardwareContext::new(AVHWDeviceType::Cuda, 0, BufferRef(0)), Err(FfmpegError::Alloc)));
    assert!(matches!(
        HardwareContext::new(AVHWDeviceType::Qsv, 0, BufferRef(1)),
        Err(FfmpegError::NoDecoder)
    ));
}

#[test]
fn hardware_context_device_check() {
    assert!(HardwareContext::check_device(None).is_ok());
    assert!(HardwareContext::check_device(Some("/dev/dri/renderD128")).is_ok());
    assert_eq!(
        HardwareContext::check_device(Some("bad\0name")),
        Err(FfmpegError::Code(FfmpegErrorCode(AVERROR_INVALIDDATA)))
    );
    assert!(has_nul_byte("a\0"));
    assert!(!has_nul_byte("abc"));
}

#[test]
fn hardware_context_recognizes_hw_frames() {
    let ctx = HardwareContext::new(AVHWDeviceType::Cuda, 0, BufferRef(0x10)).ok().unwrap();
    // Hardware frames come from the hardware frames context, not from a buffer
    // allocation, so both frames are described by their values alone.
    let mut hw = GenericFrame::new().unwrap();
    hw.set_pixel_format(AVPixelFormat::Cuda);
    let hw: VideoFrame = hw.video();
    let mut sw = GenericFrame::new().unwrap();
    sw.set_pixel_format(AVPixelFormat::Nv12);
    let sw: VideoFrame = sw.video();
    assert!(ctx.is_hw_frame(&hw));
    assert!(!ctx.is_hw_frame(&sw));
}

#[test]
fn hardware_get_hw_format_needs_the_preferred_format() {
    let cuda = AVPixelFormat::Cuda.raw();
    let nv12 = AVPixelFormat::Nv12.raw();
    assert_eq!(get_hw_format(Some(cuda), &[nv12, cuda, -1]), cuda);
    assert_eq!(get_hw_format(Some(cuda), &[nv12, -1, cuda]), -1);
    assert_eq!(get_hw_format(None, &[cuda, -1]), -1);
}

#[test]
fn find_hw_config_takes_the_first_match() {
    let configs = [
        AVCodecHWConfig { pix_fmt: AVPixelFormat::Vaapi.raw(), methods: 1, device_type: AVHWDeviceType::Vaapi.raw() },
        AVCodecHWConfig { pix_fmt: AVPixelFormat::Nv12.raw(), methods: 2, device_type: AVHWDeviceType::Cuda.raw() },
        AVCodecHWConfig { pix_fmt: AVPixelFormat::Cuda.raw(), methods: 3, device_type: AVHWDeviceType::Cuda.raw() },
    ];
    assert_eq!(find_hw_config_for_codec(&configs, AVHWDeviceType::Cuda), Some(AVPixelFormat::Cuda));
    assert_eq!(find_hw_config_for_codec(&configs, AVHWDeviceType::Vaapi), Some(AVPixelFormat::Vaapi));
    assert_eq!(find_hw_config_for_codec(&configs, AVHWDeviceType::Qsv), None);
    assert_eq!(find_hw_config_for_codec(&[], AVHWDeviceType::Cuda), None);
}

#[test]
fn device_types_go_by_their_raw_value() {
    let ctx = HardwareContext::new(AVHWDeviceType::Other(2), 0, BufferRef(0x10)).ok().unwrap();
    let mut frame = GenericFrame::new().unwrap();
    frame.set_pixel_format(AVPixelFormat::Cuda);
    assert!(ctx.is_hw_frame(&frame.video()), "raw value 2 is CUDA");
    assert!(matches!(
        HardwareContext::new(AVHWDeviceType::Other(99), 0, BufferRef(0x10)),
        Err(FfmpegError::NoDecoder)
    ));
    let none = HardwareConfig { device_type: AVHWDeviceType::Other(0), ..HardwareConfig::default() };
    assert!(!none.is_hardware_accelerated(), "raw value 0 is no device");
    let vaapi = HardwareConfig { device_type: AVHWDeviceType::Other(3), ..HardwareConfig::default() };
    assert!(vaapi.is_hardware_accelerated());
}
