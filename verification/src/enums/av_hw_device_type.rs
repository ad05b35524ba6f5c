use vstd::prelude::*;
use vstd::string::StringSliceAdditionalSpecFns;

verus! {

/// Hardware device types used for hardware acceleration (FFmpeg's `AVHWDeviceType`).
#[derive(Clone, Copy, Debug, Eq)]
pub enum AVHWDeviceType {
    /// No hardware acceleration (`AV_HWDEVICE_TYPE_NONE`).
    NoDevice,
    /// VDPAU.
    Vdpau,
    /// CUDA.
    Cuda,
    /// VA-API.
    Vaapi,
    /// DXVA2.
    Dxva2,
    /// Intel Quick Sync Video.
    Qsv,
    /// VideoToolbox.
    Videotoolbox,
    /// D3D11VA.
    D3d11va,
    /// DRM.
    Drm,
    /// OpenCL.
    Opencl,
    /// MediaCodec.
    Mediacodec,
    /// Vulkan.
    Vulkan,
    /// D3D12VA.
    D3d12va,
    /// Any other raw device type value.
    Other(u32),
}

impl AVHWDeviceType {
    /// The raw FFmpeg value of the variant.
    pub open spec fn spec_raw(self) -> u32 {
        match self {
            AVHWDeviceType::NoDevice => 0u32,
            AVHWDeviceType::Vdpau => 1u32,
            AVHWDeviceType::Cuda => 2u32,
            AVHWDeviceType::Vaapi => 3u32,
            AVHWDeviceType::Dxva2 => 4u32,
            AVHWDeviceType::Qsv => 5u32,
            AVHWDeviceType::Videotoolbox => 6u32,
            AVHWDeviceType::D3d11va => 7u32,
            AVHWDeviceType::Drm => 8u32,
            AVHWDeviceType::Opencl => 9u32,
            AVHWDeviceType::Mediacodec => 10u32,
            AVHWDeviceType::Vulkan => 11u32,
            AVHWDeviceType::D3d12va => 12u32,
            AVHWDeviceType::Other(v) => v,
        }
    }

    /// The variant for a raw FFmpeg value; values without a named variant become `Other`.
    pub open spec fn spec_from_raw(v: u32) -> AVHWDeviceType {
        if v == 0u32 {
            AVHWDeviceType::NoDevice
        } else if v == 1u32 {
            AVHWDeviceType::Vdpau
        } else if v == 2u32 {
            AVHWDeviceType::Cuda
        } else if v == 3u32 {
            AVHWDeviceType::Vaapi
        } else if v == 4u32 {
            AVHWDeviceType::Dxva2
        } else if v == 5u32 {
            AVHWDeviceType::Qsv
        } else if v == 6u32 {
            AVHWDeviceType::Videotoolbox
        } else if v == 7u32 {
            AVHWDeviceType::D3d11va
        } else if v == 8u32 {
            AVHWDeviceType::Drm
        } else if v == 9u32 {
            AVHWDeviceType::Opencl
        } else if v == 10u32 {
            AVHWDeviceType::Mediacodec
        } else if v == 11u32 {
            AVHWDeviceType::Vulkan
        } else if v == 12u32 {
            AVHWDeviceType::D3d12va
        } else {
            AVHWDeviceType::Other(v)
        }
    }

    /// Whether the value is in its one canonical form: `Other` only holds values
    /// without a named variant.
    pub open spec fn is_canonical(self) -> bool {
        self matches AVHWDeviceType::Other(v) ==> AVHWDeviceType::spec_from_raw(v) is Other
    }

    /// Returns the raw FFmpeg value.
    pub fn raw(self) -> (r: u32)
        ensures
            r == self.spec_raw(),
    {
        match self {
            AVHWDeviceType::NoDevice => 0,
            AVHWDeviceType::Vdpau => 1,
            AVHWDeviceType::Cuda => 2,
            AVHWDeviceType::Vaapi => 3,
            AVHWDeviceType::Dxva2 => 4,
            AVHWDeviceType::Qsv => 5,
            AVHWDeviceType::Videotoolbox => 6,
            AVHWDeviceType::D3d11va => 7,
            AVHWDeviceType::Drm => 8,
            AVHWDeviceType::Opencl => 9,
            AVHWDeviceType::Mediacodec => 10,
            AVHWDeviceType::Vulkan => 11,
            AVHWDeviceType::D3d12va => 12,
            AVHWDeviceType::Other(v) => v,
        }
    }

    /// Returns the value for a raw FFmpeg value.
    pub fn from_raw(v: u32) -> (r: AVHWDeviceType)
        ensures
            r == AVHWDeviceType::spec_from_raw(v),
            r.spec_raw() == v,
            r.is_canonical(),
    {
        if v == 0 {
            AVHWDeviceType::NoDevice
        } else if v == 1 {
            AVHWDeviceType::Vdpau
        } else if v == 2 {
            AVHWDeviceType::Cuda
        } else if v == 3 {
            AVHWDeviceType::Vaapi
        } else if v == 4 {
            AVHWDeviceType::Dxva2
        } else if v == 5 {
            AVHWDeviceType::Qsv
        } else if v == 6 {
            AVHWDeviceType::Videotoolbox
        } else if v == 7 {
            AVHWDeviceType::D3d11va
        } else if v == 8 {
            AVHWDeviceType::Drm
        } else if v == 9 {
            AVHWDeviceType::Opencl
        } else if v == 10 {
            AVHWDeviceType::Mediacodec
        } else if v == 11 {
            AVHWDeviceType::Vulkan
        } else if v == 12 {
            AVHWDeviceType::D3d12va
        } else {
            AVHWDeviceType::Other(v)
        }
    }
}

/// A raw value survives the trip into a `AVHWDeviceType` and back.
pub proof fn lemma_av_hw_device_type_raw_round_trip(v: u32)
    ensures
        AVHWDeviceType::spec_from_raw(v).spec_raw() == v,
        AVHWDeviceType::spec_from_raw(v).is_canonical(),
{
}

/// A canonical `AVHWDeviceType` survives the trip to its raw value and back.
pub proof fn lemma_av_hw_device_type_value_round_trip(x: AVHWDeviceType)
    requires
        x.is_canonical(),
    ensures
        AVHWDeviceType::spec_from_raw(x.spec_raw()) == x,
{
}

impl AVHWDeviceType {
    /// The lower-case name of the device type; `"unknown"` for values without a
    /// named variant.
    pub open spec fn spec_display_name(self) -> Seq<char> {
        match self {
            AVHWDeviceType::NoDevice => "none"@,
            AVHWDeviceType::Vdpau => "vdpau"@,
            AVHWDeviceType::Cuda => "cuda"@,
            AVHWDeviceType::Vaapi => "vaapi"@,
            AVHWDeviceType::Dxva2 => "dxva2"@,
            AVHWDeviceType::Qsv => "qsv"@,
            AVHWDeviceType::Videotoolbox => "videotoolbox"@,
            AVHWDeviceType::D3d11va => "d3d11va"@,
            AVHWDeviceType::Drm => "drm"@,
            AVHWDeviceType::Opencl => "opencl"@,
            AVHWDeviceType::Mediacodec => "mediacodec"@,
            AVHWDeviceType::Vulkan => "vulkan"@,
            AVHWDeviceType::D3d12va => "d3d12va"@,
            AVHWDeviceType::Other(_) => "unknown"@,
        }
    }

    /// Returns the lower-case name of the device type, as it is displayed.
    pub fn display_name(&self) -> (r: &'static str)
        ensures
            r@ == self.spec_display_name(),
    {
        proof {
            reveal_strlit("none");
            reveal_strlit("vdpau");
            reveal_strlit("cuda");
            reveal_strlit("vaapi");
            reveal_strlit("dxva2");
            reveal_strlit("qsv");
            reveal_strlit("videotoolbox");
            reveal_strlit("d3d11va");
            reveal_strlit("drm");
            reveal_strlit("opencl");
            reveal_strlit("mediacodec");
            reveal_strlit("vulkan");
            reveal_strlit("d3d12va");
            reveal_strlit("unknown");
        }
        match *self {
            AVHWDeviceType::NoDevice => "none",
            AVHWDeviceType::Vdpau => "vdpau",
            AVHWDeviceType::Cuda => "cuda",
            AVHWDeviceType::Vaapi => "vaapi",
            AVHWDeviceType::Dxva2 => "dxva2",
            AVHWDeviceType::Qsv => "qsv",
            AVHWDeviceType::Videotoolbox => "videotoolbox",
            AVHWDeviceType::D3d11va => "d3d11va",
            AVHWDeviceType::Drm => "drm",
            AVHWDeviceType::Opencl => "opencl",
            AVHWDeviceType::Mediacodec => "mediacodec",
            AVHWDeviceType::Vulkan => "vulkan",
            AVHWDeviceType::D3d12va => "d3d12va",
            AVHWDeviceType::Other(_) => "unknown",
        }
    }

    /// Finds a device type by name, where `lookup` is the raw value FFmpeg's lookup by
    /// name (`av_hwdevice_find_type_by_name`) returned for `name`: `None` for a name
    /// with a NUL byte (no lookup is made) or when the lookup found nothing
    /// (`AV_HWDEVICE_TYPE_NONE`), otherwise the type.
    pub fn find_by_name(name: &str, lookup: u32) -> (r: Option<AVHWDeviceType>)
        ensures
            name.spec_bytes().contains(0u8) ==> r is None,
            !name.spec_bytes().contains(0u8) && lookup == 0 ==> r is None,
            !name.spec_bytes().contains(0u8) && lookup != 0 ==> r == Some(
                AVHWDeviceType::spec_from_raw(lookup),
            ),
    {
        if crate::hardware::has_nul_byte(name) {
            return None;
        }
        if lookup == 0 {
            None
        } else {
            Some(AVHWDeviceType::from_raw(lookup))
        }
    }
}

impl Default for AVHWDeviceType {
    /// No hardware acceleration.
    fn default() -> (r: AVHWDeviceType)
        ensures
            r == AVHWDeviceType::NoDevice,
    {
        AVHWDeviceType::NoDevice
    }
}

/// Distinct named device types display distinct names.
pub proof fn lemma_display_names_distinct(a: AVHWDeviceType, b: AVHWDeviceType)
    requires
        !(a is Other),
        !(b is Other),
        a != b,
    ensures
        a.spec_display_name() != b.spec_display_name(),
{
    reveal_strlit("none");
    reveal_strlit("vdpau");
    reveal_strlit("cuda");
    reveal_strlit("vaapi");
    reveal_strlit("dxva2");
    reveal_strlit("qsv");
    reveal_strlit("videotoolbox");
    reveal_strlit("d3d11va");
    reveal_strlit("drm");
    reveal_strlit("opencl");
    reveal_strlit("mediacodec");
    reveal_strlit("vulkan");
    reveal_strlit("d3d12va");
    let s = a.spec_display_name();
    let t = b.spec_display_name();
    if s == t {
        assert(s.len() == t.len());
        assert(s[0] == t[0]);
        assert(s[1] == t[1]);
        if s.len() == 7 {
            assert(s[4] == t[4]);
        }
    }
}

impl PartialEq for AVHWDeviceType {
    /// Two values are equal when they stand for the same raw FFmpeg value, whichever
    /// variant holds it.
    fn eq(&self, other: &Self) -> (r: bool) {
        self.raw() == other.raw()
    }
}

impl vstd::std_specs::cmp::PartialEqSpecImpl for AVHWDeviceType {
    open spec fn obeys_eq_spec() -> bool {
        true
    }

    open spec fn eq_spec(&self, other: &Self) -> bool {
        self.spec_raw() == other.spec_raw()
    }
}

} // verus!
