use vstd::prelude::*;
use vstd::string::StringSliceAdditionalSpecFns;

use crate::enums::{AVHWDeviceType, AVPixelFormat};
use crate::error::{FfmpegError, FfmpegErrorCode, AVERROR_INVALIDDATA};
use crate::frame::VideoFrame;
use crate::raw::BufferRef;

verus! {

/// `AV_PIX_FMT_NONE`: the end of a list of pixel formats, or no pixel format.
pub const AV_PIX_FMT_NONE: i32 = -1;

/// `AV_CODEC_HW_CONFIG_METHOD_HW_DEVICE_CTX`: the codec supports a hardware device
/// context.
pub const AV_CODEC_HW_CONFIG_METHOD_HW_DEVICE_CTX: i32 = 1;

/// The hardware pixel format used with a device type, by its raw value: CUDA frames
/// for CUDA, VA-API surfaces for VA-API; no other device type is supported.
pub open spec fn spec_hw_pixel_format_for(device_type: AVHWDeviceType) -> Option<AVPixelFormat> {
    if device_type.spec_raw() == AVHWDeviceType::Cuda.spec_raw() {
        Some(AVPixelFormat::Cuda)
    } else if device_type.spec_raw() == AVHWDeviceType::Vaapi.spec_raw() {
        Some(AVPixelFormat::Vaapi)
    } else {
        None
    }
}

/// Returns the hardware pixel format used with a device type, or `None` when the
/// device type is not supported.
pub fn hw_pixel_format_for(device_type: AVHWDeviceType) -> (r: Option<AVPixelFormat>)
    ensures
        r == spec_hw_pixel_format_for(device_type),
{
    let raw = device_type.raw();
    if raw == AVHWDeviceType::Cuda.raw() {
        Some(AVPixelFormat::Cuda)
    } else if raw == AVHWDeviceType::Vaapi.raw() {
        Some(AVPixelFormat::Vaapi)
    } else {
        None
    }
}

/// Returns `true` when the UTF-8 bytes of `s` hold a NUL byte, which no C string can
/// carry.
pub fn has_nul_byte(s: &str) -> (r: bool)
    ensures
        r == s.spec_bytes().contains(0u8),
{
    let bytes = s.as_bytes();
    let mut i: usize = 0;
    while i < bytes.len()
        invariant
            bytes@ == s.spec_bytes(),
            i <= bytes@.len(),
            forall|j: int| 0 <= j < i ==> bytes@[j] != 0u8,
        decreases bytes@.len() - i,
    {
        if bytes[i] == 0 {
            assert(s.spec_bytes()[i as int] == 0u8);
            return true;
        }
        i = i + 1;
    }
    false
}

/// A hardware device context for hardware acceleration.
pub struct HardwareContext {
    device_ctx: BufferRef,
    device_type: AVHWDeviceType,
    hw_pixel_format: AVPixelFormat,
}

impl HardwareContext {
    /// The device context.
    pub closed spec fn spec_device_ctx(&self) -> BufferRef {
        self.device_ctx
    }

    /// The device type.
    pub closed spec fn spec_device_type(&self) -> AVHWDeviceType {
        self.device_type
    }

    /// The hardware pixel format.
    pub closed spec fn spec_hw_pixel_format(&self) -> AVPixelFormat {
        self.hw_pixel_format
    }

    /// Checks a device specifier before a device is created for it: a specifier with
    /// a NUL byte is invalid data.
    pub fn check_device(device: Option<&str>) -> (r: Result<(), FfmpegError>)
        ensures
            device matches Some(d) && d.spec_bytes().contains(0u8) ==> r == Err::<(), FfmpegError>(
                FfmpegError::Code(FfmpegErrorCode(AVERROR_INVALIDDATA)),
            ),
            !(device matches Some(d) && d.spec_bytes().contains(0u8)) ==> r is Ok,
    {
        match device {
            Some(d) => {
                if has_nul_byte(d) {
                    Err(FfmpegError::Code(FfmpegErrorCode(AVERROR_INVALIDDATA)))
                } else {
                    Ok(())
                }
            },
            None => Ok(()),
        }
    }

    /// Builds the context from what creating the device (`av_hwdevice_ctx_create`)
    /// gave back: its return code `ret` and the device context it made.
    ///
    /// A negative code is the error; a null context is an allocation failure; a
    /// device type other than CUDA or VA-API is not supported (`NoDecoder`).
    pub fn new(device_type: AVHWDeviceType, ret: i32, device_ctx: BufferRef) -> (r: Result<
        HardwareContext,
        FfmpegError,
    >)
        ensures
            ret < 0 ==> r == Err::<HardwareContext, FfmpegError>(
                FfmpegError::Code(FfmpegErrorCode(ret)),
            ),
            ret >= 0 && device_ctx.0 == 0 ==> r == Err::<HardwareContext, FfmpegError>(
                FfmpegError::Alloc,
            ),
            ret >= 0 && device_ctx.0 != 0 && spec_hw_pixel_format_for(device_type) is None ==> r
                == Err::<HardwareContext, FfmpegError>(FfmpegError::NoDecoder),
            ret >= 0 && device_ctx.0 != 0 && spec_hw_pixel_format_for(device_type) is Some ==> (
            r matches Ok(c) && c.spec_device_ctx() == device_ctx && c.spec_device_type()
                == device_type && Some(c.spec_hw_pixel_format()) == spec_hw_pixel_format_for(
                device_type,
            )),
    {
        if ret < 0 {
            return Err(FfmpegError::Code(FfmpegErrorCode(ret)));
        }
        if device_ctx.is_null() {
            return Err(FfmpegError::Alloc);
        }
        match hw_pixel_format_for(device_type) {
            Some(hw_pixel_format) => Ok(HardwareContext { device_ctx, device_type, hw_pixel_format }),
            None => Err(FfmpegError::NoDecoder),
        }
    }

    /// Returns the device type.
    pub fn device_type(&self) -> (r: AVHWDeviceType)
        ensures
            r == self.spec_device_type(),
    {
        self.device_type
    }

    /// Returns the hardware pixel format.
    pub fn hw_pixel_format(&self) -> (r: AVPixelFormat)
        ensures
            r == self.spec_hw_pixel_format(),
    {
        self.hw_pixel_format
    }

    /// Returns the device context.
    pub fn as_ptr(&self) -> (r: BufferRef)
        ensures
            r == self.spec_device_ctx(),
    {
        self.device_ctx
    }

    /// Returns `true` when the frame is in this context's hardware pixel format.
    pub fn is_hw_frame(&self, frame: &VideoFrame) -> (r: bool)
        ensures
            r == (frame@.format == self.spec_hw_pixel_format().spec_raw()),
    {
        frame.as_generic().format() == self.hw_pixel_format.raw()
    }
}

/// A hardware decoding configuration.
#[derive(Debug, Clone)]
pub struct HardwareConfig {
    /// The hardware device type to use.
    pub device_type: AVHWDeviceType,
    /// The device specifier, if any.
    pub device: Option<String>,
    /// Whether frames are transferred to system memory automatically.
    pub auto_transfer: bool,
}

impl Default for HardwareConfig {
    /// No hardware acceleration, no device, no automatic transfer.
    fn default() -> (r: HardwareConfig)
        ensures
            r.device_type == AVHWDeviceType::NoDevice,
            r.device is None,
            !r.auto_transfer,
    {
        HardwareConfig { device_type: AVHWDeviceType::NoDevice, device: None, auto_transfer: false }
    }
}

impl HardwareConfig {
    /// A configuration for CUDA, with automatic transfer.
    pub fn cuda() -> (r: HardwareConfig)
        ensures
            r.device_type == AVHWDeviceType::Cuda,
            r.device is None,
            r.auto_transfer,
    {
        HardwareConfig { device_type: AVHWDeviceType::Cuda, device: None, auto_transfer: true }
    }

    /// A configuration for VA-API, with automatic transfer.
    pub fn vaapi() -> (r: HardwareConfig)
        ensures
            r.device_type == AVHWDeviceType::Vaapi,
            r.device is None,
            r.auto_transfer,
    {
        HardwareConfig { device_type: AVHWDeviceType::Vaapi, device: None, auto_transfer: true }
    }

    /// Sets the device specifier.
    pub fn with_device(self, device: &str) -> (r: HardwareConfig)
        ensures
            r.device_type == self.device_type,
            r.device matches Some(d) && d@ == device@,
            r.auto_transfer == self.auto_transfer,
    {
        HardwareConfig { device: Some(device.to_owned()), ..self }
    }

    /// Sets whether frames are transferred to system memory automatically.
    pub fn with_auto_transfer(self, auto_transfer: bool) -> (r: HardwareConfig)
        ensures
            r.device_type == self.device_type,
            r.device == self.device,
            r.auto_transfer == auto_transfer,
    {
        HardwareConfig { auto_transfer, ..self }
    }

    /// Returns `true` when a hardware device type is chosen: its raw value is not that
    /// of `AV_HWDEVICE_TYPE_NONE`.
    pub fn is_hardware_accelerated(&self) -> (r: bool)
        ensures
            r == (self.device_type.spec_raw() != AVHWDeviceType::NoDevice.spec_raw()),
    {
        self.device_type.raw() != AVHWDeviceType::NoDevice.raw()
    }
}

/// Whether `fmt` occurs in `pix_fmts` before its first `AV_PIX_FMT_NONE`, looking
/// from index `from` on.
pub open spec fn spec_offered_from(pix_fmts: Seq<i32>, fmt: i32, from: int) -> bool
    decreases pix_fmts.len() - from,
{
    if from < 0 || from >= pix_fmts.len() || pix_fmts[from] == AV_PIX_FMT_NONE {
        false
    } else if pix_fmts[from] == fmt {
        true
    } else {
        spec_offered_from(pix_fmts, fmt, from + 1)
    }
}

/// The format the hardware format negotiation picks: the preferred hardware format
/// when the offered list holds it before its end marker, otherwise none.
pub open spec fn spec_pick_hw_format(preferred: Option<i32>, pix_fmts: Seq<i32>) -> i32 {
    match preferred {
        Some(p) => if spec_offered_from(pix_fmts, p, 0) {
            p
        } else {
            AV_PIX_FMT_NONE
        },
        None => AV_PIX_FMT_NONE,
    }
}

/// Picks the pixel format during format negotiation: `preferred` is the hardware
/// format stored with the codec context (`None` when none is), `pix_fmts` the formats
/// the codec offers, ended by `AV_PIX_FMT_NONE`. Returns the preferred format when it
/// is offered, otherwise `AV_PIX_FMT_NONE`.
pub fn get_hw_format(preferred: Option<i32>, pix_fmts: &[i32]) -> (r: i32)
    ensures
        r == spec_pick_hw_format(preferred, pix_fmts@),
{
    let hw_pix_fmt: i32 = match preferred {
        Some(p) => p,
        None => {
            return AV_PIX_FMT_NONE;
        },
    };
    let mut i: usize = 0;
    while i < pix_fmts.len() && pix_fmts[i] != AV_PIX_FMT_NONE
        invariant
            i <= pix_fmts@.len(),
            preferred == Some(hw_pix_fmt),
            spec_offered_from(pix_fmts@, hw_pix_fmt, 0) == spec_offered_from(
                pix_fmts@,
                hw_pix_fmt,
                i as int,
            ),
        decreases pix_fmts@.len() - i,
    {
        if pix_fmts[i] == hw_pix_fmt {
            assert(spec_offered_from(pix_fmts@, hw_pix_fmt, i as int));
            return pix_fmts[i];
        }
        i = i + 1;
    }
    AV_PIX_FMT_NONE
}

/// One hardware configuration of a codec (`AVCodecHWConfig`).
#[derive(Clone, Copy, Debug, PartialEq, Eq, Structural)]
pub struct AVCodecHWConfig {
    /// The raw pixel format of hardware frames.
    pub pix_fmt: i32,
    /// The set of setup methods (`AV_CODEC_HW_CONFIG_METHOD_*`).
    pub methods: i32,
    /// The raw device type.
    pub device_type: u32,
}

/// Whether a codec's hardware configuration works with a device context of the
/// given type.
pub open spec fn spec_config_matches(config: AVCodecHWConfig, device_type: AVHWDeviceType) -> bool {
    config.methods & AV_CODEC_HW_CONFIG_METHOD_HW_DEVICE_CTX != 0 && config.device_type
        == device_type.spec_raw()
}

/// The pixel format of the first configuration from index `from` on that works with a
/// device context of the given type.
pub open spec fn spec_first_hw_config_from(
    configs: Seq<AVCodecHWConfig>,
    device_type: AVHWDeviceType,
    from: int,
) -> Option<AVPixelFormat>
    decreases configs.len() - from,
{
    if from < 0 || from >= configs.len() {
        None
    } else if spec_config_matches(configs[from], device_type) {
        Some(AVPixelFormat::spec_from_raw(configs[from].pix_fmt))
    } else {
        spec_first_hw_config_from(configs, device_type, from + 1)
    }
}

/// Finds, among a codec's hardware configurations in the order the codec lists them,
/// the first that works with a device context of the given type, and returns its
/// pixel format; `None` when there is none.
pub fn find_hw_config_for_codec(configs: &[AVCodecHWConfig], device_type: AVHWDeviceType) -> (r:
    Option<AVPixelFormat>)
    ensures
        r == spec_first_hw_config_from(configs@, device_type, 0),
{
    let dt = device_type.raw();
    let mut i: usize = 0;
    while i < configs.len()
        invariant
            i <= configs@.len(),
            dt == device_type.spec_raw(),
            spec_first_hw_config_from(configs@, device_type, 0) == spec_first_hw_config_from(
                configs@,
                device_type,
                i as int,
            ),
        decreases configs@.len() - i,
    {
        let config = configs[i];
        if config.methods & AV_CODEC_HW_CONFIG_METHOD_HW_DEVICE_CTX != 0 && config.device_type == dt {
            return Some(AVPixelFormat::from_raw(config.pix_fmt));
        }
        i = i + 1;
    }
    None
}

/// Device types go by their raw value: two device types with the same raw value have
/// the same hardware pixel format; raw value 2 (CUDA) gives CUDA frames, raw value 3
/// (VA-API) VA-API surfaces, and every other one none.
pub proof fn lemma_hw_formats_by_raw_value(a: AVHWDeviceType, b: AVHWDeviceType)
    ensures
        a.spec_raw() == b.spec_raw() ==> spec_hw_pixel_format_for(a) == spec_hw_pixel_format_for(b),
        a.spec_raw() == 2 ==> spec_hw_pixel_format_for(a) == Some(AVPixelFormat::Cuda),
        a.spec_raw() == 3 ==> spec_hw_pixel_format_for(a) == Some(AVPixelFormat::Vaapi),
        a.spec_raw() != 2 && a.spec_raw() != 3 ==> spec_hw_pixel_format_for(a) is None,
{
}

/// A format is found in a negotiation list, looking from index `from`, exactly when
/// it sits at some index `j` at or after `from`, with no end marker
/// (`AV_PIX_FMT_NONE`) from `from` up to and including `j`.
pub proof fn lemma_offered_means(pix_fmts: Seq<i32>, fmt: i32, from: int)
    requires
        0 <= from,
    ensures
        spec_offered_from(pix_fmts, fmt, from) <==> exists|j: int|
            from <= j < pix_fmts.len() && #[trigger] pix_fmts[j] == fmt && forall|k: int|
                from <= k <= j ==> #[trigger] pix_fmts[k] != -1i32,
    decreases pix_fmts.len() - from,
{
    if from < pix_fmts.len() && pix_fmts[from] != -1i32 {
        lemma_offered_means(pix_fmts, fmt, from + 1);
        if pix_fmts[from] == fmt {
            assert(forall|k: int| from <= k <= from ==> #[trigger] pix_fmts[k] != -1i32);
        } else {
            if exists|j: int|
                from <= j < pix_fmts.len() && #[trigger] pix_fmts[j] == fmt && forall|k: int|
                    from <= k <= j ==> #[trigger] pix_fmts[k] != -1i32 {
                let j = choose|j: int|
                    from <= j < pix_fmts.len() && #[trigger] pix_fmts[j] == fmt && forall|k: int|
                        from <= k <= j ==> #[trigger] pix_fmts[k] != -1i32;
                assert(j > from);
                assert(forall|k: int| from + 1 <= k <= j ==> #[trigger] pix_fmts[k] != -1i32);
            }
            if spec_offered_from(pix_fmts, fmt, from + 1) {
                let j = choose|j: int|
                    from + 1 <= j < pix_fmts.len() && #[trigger] pix_fmts[j] == fmt && forall|k: int|
                        from + 1 <= k <= j ==> #[trigger] pix_fmts[k] != -1i32;
                assert(forall|k: int| from <= k <= j ==> #[trigger] pix_fmts[k] != -1i32) by {
                    assert forall|k: int| from <= k <= j implies #[trigger] pix_fmts[k] != -1i32 by {
                        if k > from {
                            assert(from + 1 <= k <= j);
                        }
                    }
                }
            }
        }
    } else {
        if exists|j: int|
            from <= j < pix_fmts.len() && #[trigger] pix_fmts[j] == fmt && forall|k: int|
                from <= k <= j ==> #[trigger] pix_fmts[k] != -1i32 {
            let j = choose|j: int|
                from <= j < pix_fmts.len() && #[trigger] pix_fmts[j] == fmt && forall|k: int|
                    from <= k <= j ==> #[trigger] pix_fmts[k] != -1i32;
            assert(pix_fmts[from] != -1i32);
        }
    }
}

/// The hardware negotiation picks the preferred format exactly when it is offered
/// before the end marker, and otherwise no format (-1): it never falls back to
/// another offered format.
pub proof fn lemma_hw_pick(preferred: Option<i32>, pix_fmts: Seq<i32>)
    ensures
        spec_pick_hw_format(preferred, pix_fmts) == -1 || preferred == Some(spec_pick_hw_format(preferred, pix_fmts)),
        preferred is Some && preferred->0 != -1 ==> (spec_offered_from(pix_fmts, preferred->0, 0)
            <==> spec_pick_hw_format(preferred, pix_fmts) == preferred->0),
        preferred is None ==> spec_pick_hw_format(preferred, pix_fmts) == -1,
{
}

} // verus!
