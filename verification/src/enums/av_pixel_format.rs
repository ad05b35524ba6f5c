use vstd::prelude::*;

verus! {

/// Pixel formats: how the pixels of a video frame are laid out in memory,
/// including packed, planar and hardware formats (FFmpeg's `AVPixelFormat`).
#[derive(Clone, Copy, Debug, Eq)]
pub enum AVPixelFormat {
    /// Corresponds to `AV_PIX_FMT_NONE`.
    NoFormat,
    /// Corresponds to `AV_PIX_FMT_YUV420P`.
    Yuv420p,
    /// Corresponds to `AV_PIX_FMT_YUYV422`.
    Yuyv422,
    /// Corresponds to `AV_PIX_FMT_RGB24`.
    Rgb24,
    /// Corresponds to `AV_PIX_FMT_BGR24`.
    Bgr24,
    /// Corresponds to `AV_PIX_FMT_YUV422P`.
    Yuv422p,
    /// Corresponds to `AV_PIX_FMT_YUV444P`.
    Yuv444p,
    /// Corresponds to `AV_PIX_FMT_GRAY8`.
    Gray8,
    /// Corresponds to `AV_PIX_FMT_MONOWHITE`.
    MonoWhite,
    /// Corresponds to `AV_PIX_FMT_MONOBLACK`.
    MonoBlack,
    /// Corresponds to `AV_PIX_FMT_PAL8`.
    Pal8,
    /// Corresponds to `AV_PIX_FMT_YUVJ420P`.
    Yuvj420p,
    /// Corresponds to `AV_PIX_FMT_YUVJ422P`.
    Yuvj422p,
    /// Corresponds to `AV_PIX_FMT_YUVJ444P`.
    Yuvj444p,
    /// Corresponds to `AV_PIX_FMT_UYVY422`.
    Uyvy422,
    /// Corresponds to `AV_PIX_FMT_YUV410P`.
    Yuv410p,
    /// Corresponds to `AV_PIX_FMT_YUV411P`.
    Yuv411p,
    /// Corresponds to `AV_PIX_FMT_UYYVYY411`.
    Uyyvyy411,
    /// Corresponds to `AV_PIX_FMT_BGR8`.
    Bgr8,
    /// Corresponds to `AV_PIX_FMT_BGR4`.
    Bgr4,
    /// Corresponds to `AV_PIX_FMT_BGR4_BYTE`.
    Bgr4Byte,
    /// Corresponds to `AV_PIX_FMT_RGB8`.
    Rgb8,
    /// Corresponds to `AV_PIX_FMT_RGB4`.
    Rgb4,
    /// Corresponds to `AV_PIX_FMT_RGB4_BYTE`.
    Rgb4Byte,
    /// Corresponds to `AV_PIX_FMT_NV12`.
    Nv12,
    /// Corresponds to `AV_PIX_FMT_NV21`.
    Nv21,
    /// Corresponds to `AV_PIX_FMT_ARGB`.
    Argb,
    /// Corresponds to `AV_PIX_FMT_RGBA`.
    Rgba,
    /// Corresponds to `AV_PIX_FMT_ABGR`.
    Abgr,
    /// Corresponds to `AV_PIX_FMT_BGRA`.
    Bgra,
    /// Corresponds to `AV_PIX_FMT_GRAY16BE`.
    Gray16Be,
    /// Corresponds to `AV_PIX_FMT_GRAY16LE`.
    Gray16Le,
    /// Corresponds to `AV_PIX_FMT_YUV440P`.
    Yuv440p,
    /// Corresponds to `AV_PIX_FMT_YUVJ440P`.
    Yuvj440p,
    /// Corresponds to `AV_PIX_FMT_YUVA420P`.
    Yuva420p,
    /// Corresponds to `AV_PIX_FMT_RGB565BE`.
    Rgb565Be,
    /// Corresponds to `AV_PIX_FMT_RGB565LE`.
    Rgb565Le,
    /// Corresponds to `AV_PIX_FMT_RGB555BE`.
    Rgb555Be,
    /// Corresponds to `AV_PIX_FMT_RGB555LE`.
    Rgb555Le,
    /// Corresponds to `AV_PIX_FMT_BGR565BE`.
    Bgr565Be,
    /// Corresponds to `AV_PIX_FMT_BGR565LE`.
    Bgr565Le,
    /// Corresponds to `AV_PIX_FMT_BGR555BE`.
    Bgr555Be,
    /// Corresponds to `AV_PIX_FMT_BGR555LE`.
    Bgr555Le,
    /// Corresponds to `AV_PIX_FMT_YUV420P16BE`.
    Yuv420p16Be,
    /// Corresponds to `AV_PIX_FMT_YUV420P16LE`.
    Yuv420p16Le,
    /// Corresponds to `AV_PIX_FMT_YUV422P16BE`.
    Yuv422p16Be,
    /// Corresponds to `AV_PIX_FMT_YUV422P16LE`.
    Yuv422p16Le,
    /// Corresponds to `AV_PIX_FMT_YUV444P16BE`.
    Yuv444p16Be,
    /// Corresponds to `AV_PIX_FMT_YUV444P16LE`.
    Yuv444p16Le,
    /// Corresponds to `AV_PIX_FMT_RGB48BE`.
    Rgb48Be,
    /// Corresponds to `AV_PIX_FMT_RGB48LE`.
    Rgb48Le,
    /// Corresponds to `AV_PIX_FMT_RGBA64BE`.
    Rgba64Be,
    /// Corresponds to `AV_PIX_FMT_RGBA64LE`.
    Rgba64Le,
    /// Corresponds to `AV_PIX_FMT_BGRA64BE`.
    Bgra64Be,
    /// Corresponds to `AV_PIX_FMT_BGRA64LE`.
    Bgra64Le,
    /// Corresponds to `AV_PIX_FMT_VAAPI`.
    Vaapi,
    /// Corresponds to `AV_PIX_FMT_GBRP`.
    Gbrp,
    /// Corresponds to `AV_PIX_FMT_DXVA2_VLD`.
    Dxva2Vld,
    /// Corresponds to `AV_PIX_FMT_RGB444LE`.
    Rgb444Le,
    /// Corresponds to `AV_PIX_FMT_RGB444BE`.
    Rgb444Be,
    /// Corresponds to `AV_PIX_FMT_BGR444LE`.
    Bgr444Le,
    /// Corresponds to `AV_PIX_FMT_BGR444BE`.
    Bgr444Be,
    /// Corresponds to `AV_PIX_FMT_YA8`.
    Ya8,
    /// Corresponds to `AV_PIX_FMT_BGR48BE`.
    Bgr48Be,
    /// Corresponds to `AV_PIX_FMT_BGR48LE`.
    Bgr48Le,
    /// Corresponds to `AV_PIX_FMT_VDPAU`.
    Vdpau,
    /// Corresponds to `AV_PIX_FMT_YVYU422`.
    Yvyu422,
    /// Corresponds to `AV_PIX_FMT_YA16BE`.
    Ya16Be,
    /// Corresponds to `AV_PIX_FMT_YA16LE`.
    Ya16Le,
    /// Corresponds to `AV_PIX_FMT_GBRAP`.
    Gbrap,
    /// Corresponds to `AV_PIX_FMT_GBRAP16BE`.
    Gbrap16Be,
    /// Corresponds to `AV_PIX_FMT_GBRAP16LE`.
    Gbrap16Le,
    /// Corresponds to `AV_PIX_FMT_QSV`.
    Qsv,
    /// Corresponds to `AV_PIX_FMT_D3D11VA_VLD`.
    D3d11vaVld,
    /// Corresponds to `AV_PIX_FMT_CUDA`.
    Cuda,
    /// Corresponds to `AV_PIX_FMT_0RGB`.
    ZeroRgb,
    /// Corresponds to `AV_PIX_FMT_RGB0`.
    Rgb0,
    /// Corresponds to `AV_PIX_FMT_0BGR`.
    ZeroBgr,
    /// Corresponds to `AV_PIX_FMT_BGR0`.
    Bgr0,
    /// Corresponds to `AV_PIX_FMT_YUVA422P`.
    Yuva422p,
    /// Corresponds to `AV_PIX_FMT_YUVA444P`.
    Yuva444p,
    /// Corresponds to `AV_PIX_FMT_NV16`.
    Nv16,
    /// Corresponds to `AV_PIX_FMT_P010LE`.
    P010Le,
    /// Corresponds to `AV_PIX_FMT_P010BE`.
    P010Be,
    /// Corresponds to `AV_PIX_FMT_VIDEOTOOLBOX`.
    Videotoolbox,
    /// Corresponds to `AV_PIX_FMT_NB`.
    Nb,
    /// Any other raw pixel format value.
    Other(i32),
}

impl AVPixelFormat {
    /// The raw FFmpeg value of the variant.
    pub open spec fn spec_raw(self) -> i32 {
        match self {
            AVPixelFormat::NoFormat => -1i32,
            AVPixelFormat::Yuv420p => 0i32,
            AVPixelFormat::Yuyv422 => 1i32,
            AVPixelFormat::Rgb24 => 2i32,
            AVPixelFormat::Bgr24 => 3i32,
            AVPixelFormat::Yuv422p => 4i32,
            AVPixelFormat::Yuv444p => 5i32,
            AVPixelFormat::Gray8 => 8i32,
            AVPixelFormat::MonoWhite => 9i32,
            AVPixelFormat::MonoBlack => 10i32,
            AVPixelFormat::Pal8 => 11i32,
            AVPixelFormat::Yuvj420p => 12i32,
            AVPixelFormat::Yuvj422p => 13i32,
            AVPixelFormat::Yuvj444p => 14i32,
            AVPixelFormat::Uyvy422 => 15i32,
            AVPixelFormat::Yuv410p => 6i32,
            AVPixelFormat::Yuv411p => 7i32,
            AVPixelFormat::Uyyvyy411 => 16i32,
            AVPixelFormat::Bgr8 => 17i32,
            AVPixelFormat::Bgr4 => 18i32,
            AVPixelFormat::Bgr4Byte => 19i32,
            AVPixelFormat::Rgb8 => 20i32,
            AVPixelFormat::Rgb4 => 21i32,
            AVPixelFormat::Rgb4Byte => 22i32,
            AVPixelFormat::Nv12 => 23i32,
            AVPixelFormat::Nv21 => 24i32,
            AVPixelFormat::Argb => 25i32,
            AVPixelFormat::Rgba => 26i32,
            AVPixelFormat::Abgr => 27i32,
            AVPixelFormat::Bgra => 28i32,
            AVPixelFormat::Gray16Be => 29i32,
            AVPixelFormat::Gray16Le => 30i32,
            AVPixelFormat::Yuv440p => 31i32,
            AVPixelFormat::Yuvj440p => 32i32,
            AVPixelFormat::Yuva420p => 33i32,
            AVPixelFormat::Rgb565Be => 36i32,
            AVPixelFormat::Rgb565Le => 37i32,
            AVPixelFormat::Rgb555Be => 38i32,
            AVPixelFormat::Rgb555Le => 39i32,
            AVPixelFormat::Bgr565Be => 40i32,
            AVPixelFormat::Bgr565Le => 41i32,
            AVPixelFormat::Bgr555Be => 42i32,
            AVPixelFormat::Bgr555Le => 43i32,
            AVPixelFormat::Yuv420p16Be => 46i32,
            AVPixelFormat::Yuv420p16Le => 45i32,
            AVPixelFormat::Yuv422p16Be => 48i32,
            AVPixelFormat::Yuv422p16Le => 47i32,
            AVPixelFormat::Yuv444p16Be => 50i32,
            AVPixelFormat::Yuv444p16Le => 49i32,
            AVPixelFormat::Rgb48Be => 34i32,
            AVPixelFormat::Rgb48Le => 35i32,
            AVPixelFormat::Rgba64Be => 104i32,
            AVPixelFormat::Rgba64Le => 105i32,
            AVPixelFormat::Bgra64Be => 106i32,
            AVPixelFormat::Bgra64Le => 107i32,
            AVPixelFormat::Vaapi => 44i32,
            AVPixelFormat::Gbrp => 71i32,
            AVPixelFormat::Dxva2Vld => 51i32,
            AVPixelFormat::Rgb444Le => 52i32,
            AVPixelFormat::Rgb444Be => 53i32,
            AVPixelFormat::Bgr444Le => 54i32,
            AVPixelFormat::Bgr444Be => 55i32,
            AVPixelFormat::Ya8 => 56i32,
            AVPixelFormat::Bgr48Be => 57i32,
            AVPixelFormat::Bgr48Le => 58i32,
            AVPixelFormat::Vdpau => 98i32,
            AVPixelFormat::Yvyu422 => 108i32,
            AVPixelFormat::Ya16Be => 109i32,
            AVPixelFormat::Ya16Le => 110i32,
            AVPixelFormat::Gbrap => 111i32,
            AVPixelFormat::Gbrap16Be => 112i32,
            AVPixelFormat::Gbrap16Le => 113i32,
            AVPixelFormat::Qsv => 114i32,
            AVPixelFormat::D3d11vaVld => 116i32,
            AVPixelFormat::Cuda => 117i32,
            AVPixelFormat::ZeroRgb => 118i32,
            AVPixelFormat::Rgb0 => 119i32,
            AVPixelFormat::ZeroBgr => 120i32,
            AVPixelFormat::Bgr0 => 121i32,
            AVPixelFormat::Yuva422p => 78i32,
            AVPixelFormat::Yuva444p => 79i32,
            AVPixelFormat::Nv16 => 101i32,
            AVPixelFormat::P010Le => 158i32,
            AVPixelFormat::P010Be => 159i32,
            AVPixelFormat::Videotoolbox => 157i32,
            AVPixelFormat::Nb => 267i32,
            AVPixelFormat::Other(v) => v,
        }
    }

    /// The variant for a raw FFmpeg value; values without a named variant become `Other`.
    pub open spec fn spec_from_raw(v: i32) -> AVPixelFormat {
        if v == -1i32 {
            AVPixelFormat::NoFormat
        } else if v == 0i32 {
            AVPixelFormat::Yuv420p
        } else if v == 1i32 {
            AVPixelFormat::Yuyv422
        } else if v == 2i32 {
            AVPixelFormat::Rgb24
        } else if v == 3i32 {
            AVPixelFormat::Bgr24
        } else if v == 4i32 {
            AVPixelFormat::Yuv422p
        } else if v == 5i32 {
            AVPixelFormat::Yuv444p
        } else if v == 8i32 {
            AVPixelFormat::Gray8
        } else if v == 9i32 {
            AVPixelFormat::MonoWhite
        } else if v == 10i32 {
            AVPixelFormat::MonoBlack
        } else if v == 11i32 {
            AVPixelFormat::Pal8
        } else if v == 12i32 {
            AVPixelFormat::Yuvj420p
        } else if v == 13i32 {
            AVPixelFormat::Yuvj422p
        } else if v == 14i32 {
            AVPixelFormat::Yuvj444p
        } else if v == 15i32 {
            AVPixelFormat::Uyvy422
        } else if v == 6i32 {
            AVPixelFormat::Yuv410p
        } else if v == 7i32 {
            AVPixelFormat::Yuv411p
        } else if v == 16i32 {
            AVPixelFormat::Uyyvyy411
        } else if v == 17i32 {
            AVPixelFormat::Bgr8
        } else if v == 18i32 {
            AVPixelFormat::Bgr4
        } else if v == 19i32 {
            AVPixelFormat::Bgr4Byte
        } else if v == 20i32 {
            AVPixelFormat::Rgb8
        } else if v == 21i32 {
            AVPixelFormat::Rgb4
        } else if v == 22i32 {
            AVPixelFormat::Rgb4Byte
        } else if v == 23i32 {
            AVPixelFormat::Nv12
        } else if v == 24i32 {
            AVPixelFormat::Nv21
        } else if v == 25i32 {
            AVPixelFormat::Argb
        } else if v == 26i32 {
            AVPixelFormat::Rgba
        } else if v == 27i32 {
            AVPixelFormat::Abgr
        } else if v == 28i32 {
            AVPixelFormat::Bgra
        } else if v == 29i32 {
            AVPixelFormat::Gray16Be
        } else if v == 30i32 {
            AVPixelFormat::Gray16Le
        } else if v == 31i32 {
            AVPixelFormat::Yuv440p
        } else if v == 32i32 {
            AVPixelFormat::Yuvj440p
        } else if v == 33i32 {
            AVPixelFormat::Yuva420p
        } else if v == 36i32 {
            AVPixelFormat::Rgb565Be
        } else if v == 37i32 {
            AVPixelFormat::Rgb565Le
        } else if v == 38i32 {
            AVPixelFormat::Rgb555Be
        } else if v == 39i32 {
            AVPixelFormat::Rgb555Le
        } else if v == 40i32 {
            AVPixelFormat::Bgr565Be
        } else if v == 41i32 {
            AVPixelFormat::Bgr565Le
        } else if v == 42i32 {
            AVPixelFormat::Bgr555Be
        } else if v == 43i32 {
            AVPixelFormat::Bgr555Le
        } else if v == 46i32 {
            AVPixelFormat::Yuv420p16Be
        } else if v == 45i32 {
            AVPixelFormat::Yuv420p16Le
        } else if v == 48i32 {
            AVPixelFormat::Yuv422p16Be
        } else if v == 47i32 {
            AVPixelFormat::Yuv422p16Le
        } else if v == 50i32 {
            AVPixelFormat::Yuv444p16Be
        } else if v == 49i32 {
            AVPixelFormat::Yuv444p16Le
        } else if v == 34i32 {
            AVPixelFormat::Rgb48Be
        } else if v == 35i32 {
            AVPixelFormat::Rgb48Le
        } else if v == 104i32 {
            AVPixelFormat::Rgba64Be
        } else if v == 105i32 {
            AVPixelFormat::Rgba64Le
        } else if v == 106i32 {
            AVPixelFormat::Bgra64Be
        } else if v == 107i32 {
            AVPixelFormat::Bgra64Le
        } else if v == 44i32 {
            AVPixelFormat::Vaapi
        } else if v == 71i32 {
            AVPixelFormat::Gbrp
        } else if v == 51i32 {
            AVPixelFormat::Dxva2Vld
        } else if v == 52i32 {
            AVPixelFormat::Rgb444Le
        } else if v == 53i32 {
            AVPixelFormat::Rgb444Be
        } else if v == 54i32 {
            AVPixelFormat::Bgr444Le
        } else if v == 55i32 {
            AVPixelFormat::Bgr444Be
        } else if v == 56i32 {
            AVPixelFormat::Ya8
        } else if v == 57i32 {
            AVPixelFormat::Bgr48Be
        } else if v == 58i32 {
            AVPixelFormat::Bgr48Le
        } else if v == 98i32 {
            AVPixelFormat::Vdpau
        } else if v == 108i32 {
            AVPixelFormat::Yvyu422
        } else if v == 109i32 {
            AVPixelFormat::Ya16Be
        } else if v == 110i32 {
            AVPixelFormat::Ya16Le
        } else if v == 111i32 {
            AVPixelFormat::Gbrap
        } else if v == 112i32 {
            AVPixelFormat::Gbrap16Be
        } else if v == 113i32 {
            AVPixelFormat::Gbrap16Le
        } else if v == 114i32 {
            AVPixelFormat::Qsv
        } else if v == 116i32 {
            AVPixelFormat::D3d11vaVld
        } else if v == 117i32 {
            AVPixelFormat::Cuda
        } else if v == 118i32 {
            AVPixelFormat::ZeroRgb
        } else if v == 119i32 {
            AVPixelFormat::Rgb0
        } else if v == 120i32 {
            AVPixelFormat::ZeroBgr
        } else if v == 121i32 {
            AVPixelFormat::Bgr0
        } else if v == 78i32 {
            AVPixelFormat::Yuva422p
        } else if v == 79i32 {
            AVPixelFormat::Yuva444p
        } else if v == 101i32 {
            AVPixelFormat::Nv16
        } else if v == 158i32 {
            AVPixelFormat::P010Le
        } else if v == 159i32 {
            AVPixelFormat::P010Be
        } else if v == 157i32 {
            AVPixelFormat::Videotoolbox
        } else if v == 267i32 {
            AVPixelFormat::Nb
        } else {
            AVPixelFormat::Other(v)
        }
    }

    /// Whether the value is in its one canonical form: `Other` only holds values
    /// without a named variant.
    pub open spec fn is_canonical(self) -> bool {
        self matches AVPixelFormat::Other(v) ==> AVPixelFormat::spec_from_raw(v) is Other
    }

    /// Returns the raw FFmpeg value.
    pub fn raw(self) -> (r: i32)
        ensures
            r == self.spec_raw(),
    {
        match self {
            AVPixelFormat::NoFormat => -1,
            AVPixelFormat::Yuv420p => 0,
            AVPixelFormat::Yuyv422 => 1,
            AVPixelFormat::Rgb24 => 2,
            AVPixelFormat::Bgr24 => 3,
            AVPixelFormat::Yuv422p => 4,
            AVPixelFormat::Yuv444p => 5,
            AVPixelFormat::Gray8 => 8,
            AVPixelFormat::MonoWhite => 9,
            AVPixelFormat::MonoBlack => 10,
            AVPixelFormat::Pal8 => 11,
            AVPixelFormat::Yuvj420p => 12,
            AVPixelFormat::Yuvj422p => 13,
            AVPixelFormat::Yuvj444p => 14,
            AVPixelFormat::Uyvy422 => 15,
            AVPixelFormat::Yuv410p => 6,
            AVPixelFormat::Yuv411p => 7,
            AVPixelFormat::Uyyvyy411 => 16,
            AVPixelFormat::Bgr8 => 17,
            AVPixelFormat::Bgr4 => 18,
            AVPixelFormat::Bgr4Byte => 19,
            AVPixelFormat::Rgb8 => 20,
            AVPixelFormat::Rgb4 => 21,
            AVPixelFormat::Rgb4Byte => 22,
            AVPixelFormat::Nv12 => 23,
            AVPixelFormat::Nv21 => 24,
            AVPixelFormat::Argb => 25,
            AVPixelFormat::Rgba => 26,
            AVPixelFormat::Abgr => 27,
            AVPixelFormat::Bgra => 28,
            AVPixelFormat::Gray16Be => 29,
            AVPixelFormat::Gray16Le => 30,
            AVPixelFormat::Yuv440p => 31,
            AVPixelFormat::Yuvj440p => 32,
            AVPixelFormat::Yuva420p => 33,
            AVPixelFormat::Rgb565Be => 36,
            AVPixelFormat::Rgb565Le => 37,
            AVPixelFormat::Rgb555Be => 38,
            AVPixelFormat::Rgb555Le => 39,
            AVPixelFormat::Bgr565Be => 40,
            AVPixelFormat::Bgr565Le => 41,
            AVPixelFormat::Bgr555Be => 42,
            AVPixelFormat::Bgr555Le => 43,
            AVPixelFormat::Yuv420p16Be => 46,
            AVPixelFormat::Yuv420p16Le => 45,
            AVPixelFormat::Yuv422p16Be => 48,
            AVPixelFormat::Yuv422p16Le => 47,
            AVPixelFormat::Yuv444p16Be => 50,
            AVPixelFormat::Yuv444p16Le => 49,
            AVPixelFormat::Rgb48Be => 34,
            AVPixelFormat::Rgb48Le => 35,
            AVPixelFormat::Rgba64Be => 104,
            AVPixelFormat::Rgba64Le => 105,
            AVPixelFormat::Bgra64Be => 106,
            AVPixelFormat::Bgra64Le => 107,
            AVPixelFormat::Vaapi => 44,
            AVPixelFormat::Gbrp => 71,
            AVPixelFormat::Dxva2Vld => 51,
            AVPixelFormat::Rgb444Le => 52,
            AVPixelFormat::Rgb444Be => 53,
            AVPixelFormat::Bgr444Le => 54,
            AVPixelFormat::Bgr444Be => 55,
            AVPixelFormat::Ya8 => 56,
            AVPixelFormat::Bgr48Be => 57,
            AVPixelFormat::Bgr48Le => 58,
            AVPixelFormat::Vdpau => 98,
            AVPixelFormat::Yvyu422 => 108,
            AVPixelFormat::Ya16Be => 109,
            AVPixelFormat::Ya16Le => 110,
            AVPixelFormat::Gbrap => 111,
            AVPixelFormat::Gbrap16Be => 112,
            AVPixelFormat::Gbrap16Le => 113,
            AVPixelFormat::Qsv => 114,
            AVPixelFormat::D3d11vaVld => 116,
            AVPixelFormat::Cuda => 117,
            AVPixelFormat::ZeroRgb => 118,
            AVPixelFormat::Rgb0 => 119,
            AVPixelFormat::ZeroBgr => 120,
            AVPixelFormat::Bgr0 => 121,
            AVPixelFormat::Yuva422p => 78,
            AVPixelFormat::Yuva444p => 79,
            AVPixelFormat::Nv16 => 101,
            AVPixelFormat::P010Le => 158,
            AVPixelFormat::P010Be => 159,
            AVPixelFormat::Videotoolbox => 157,
            AVPixelFormat::Nb => 267,
            AVPixelFormat::Other(v) => v,
        }
    }

    /// Returns the value for a raw FFmpeg value.
    pub fn from_raw(v: i32) -> (r: AVPixelFormat)
        ensures
            r == AVPixelFormat::spec_from_raw(v),
            r.spec_raw() == v,
            r.is_canonical(),
    {
        if v == -1 {
            AVPixelFormat::NoFormat
        } else if v == 0 {
            AVPixelFormat::Yuv420p
        } else if v == 1 {
            AVPixelFormat::Yuyv422
        } else if v == 2 {
            AVPixelFormat::Rgb24
        } else if v == 3 {
            AVPixelFormat::Bgr24
        } else if v == 4 {
            AVPixelFormat::Yuv422p
        } else if v == 5 {
            AVPixelFormat::Yuv444p
        } else if v == 8 {
            AVPixelFormat::Gray8
        } else if v == 9 {
            AVPixelFormat::MonoWhite
        } else if v == 10 {
            AVPixelFormat::MonoBlack
        } else if v == 11 {
            AVPixelFormat::Pal8
        } else if v == 12 {
            AVPixelFormat::Yuvj420p
        } else if v == 13 {
            AVPixelFormat::Yuvj422p
        } else if v == 14 {
            AVPixelFormat::Yuvj444p
        } else if v == 15 {
            AVPixelFormat::Uyvy422
        } else if v == 6 {
            AVPixelFormat::Yuv410p
        } else if v == 7 {
            AVPixelFormat::Yuv411p
        } else if v == 16 {
            AVPixelFormat::Uyyvyy411
        } else if v == 17 {
            AVPixelFormat::Bgr8
        } else if v == 18 {
            AVPixelFormat::Bgr4
        } else if v == 19 {
            AVPixelFormat::Bgr4Byte
        } else if v == 20 {
            AVPixelFormat::Rgb8
        } else if v == 21 {
            AVPixelFormat::Rgb4
        } else if v == 22 {
            AVPixelFormat::Rgb4Byte
        } else if v == 23 {
            AVPixelFormat::Nv12
        } else if v == 24 {
            AVPixelFormat::Nv21
        } else if v == 25 {
            AVPixelFormat::Argb
        } else if v == 26 {
            AVPixelFormat::Rgba
        } else if v == 27 {
            AVPixelFormat::Abgr
        } else if v == 28 {
            AVPixelFormat::Bgra
        } else if v == 29 {
            AVPixelFormat::Gray16Be
        } else if v == 30 {
            AVPixelFormat::Gray16Le
        } else if v == 31 {
            AVPixelFormat::Yuv440p
        } else if v == 32 {
            AVPixelFormat::Yuvj440p
        } else if v == 33 {
            AVPixelFormat::Yuva420p
        } else if v == 36 {
            AVPixelFormat::Rgb565Be
        } else if v == 37 {
            AVPixelFormat::Rgb565Le
        } else if v == 38 {
            AVPixelFormat::Rgb555Be
        } else if v == 39 {
            AVPixelFormat::Rgb555Le
        } else if v == 40 {
            AVPixelFormat::Bgr565Be
        } else if v == 41 {
            AVPixelFormat::Bgr565Le
        } else if v == 42 {
            AVPixelFormat::Bgr555Be
        } else if v == 43 {
            AVPixelFormat::Bgr555Le
        } else if v == 46 {
            AVPixelFormat::Yuv420p16Be
        } else if v == 45 {
            AVPixelFormat::Yuv420p16Le
        } else if v == 48 {
            AVPixelFormat::Yuv422p16Be
        } else if v == 47 {
            AVPixelFormat::Yuv422p16Le
        } else if v == 50 {
            AVPixelFormat::Yuv444p16Be
        } else if v == 49 {
            AVPixelFormat::Yuv444p16Le
        } else if v == 34 {
            AVPixelFormat::Rgb48Be
        } else if v == 35 {
            AVPixelFormat::Rgb48Le
        } else if v == 104 {
            AVPixelFormat::Rgba64Be
        } else if v == 105 {
            AVPixelFormat::Rgba64Le
        } else if v == 106 {
            AVPixelFormat::Bgra64Be
        } else if v == 107 {
            AVPixelFormat::Bgra64Le
        } else if v == 44 {
            AVPixelFormat::Vaapi
        } else if v == 71 {
            AVPixelFormat::Gbrp
        } else if v == 51 {
            AVPixelFormat::Dxva2Vld
        } else if v == 52 {
            AVPixelFormat::Rgb444Le
        } else if v == 53 {
            AVPixelFormat::Rgb444Be
        } else if v == 54 {
            AVPixelFormat::Bgr444Le
        } else if v == 55 {
            AVPixelFormat::Bgr444Be
        } else if v == 56 {
            AVPixelFormat::Ya8
        } else if v == 57 {
            AVPixelFormat::Bgr48Be
        } else if v == 58 {
            AVPixelFormat::Bgr48Le
        } else if v == 98 {
            AVPixelFormat::Vdpau
        } else if v == 108 {
            AVPixelFormat::Yvyu422
        } else if v == 109 {
            AVPixelFormat::Ya16Be
        } else if v == 110 {
            AVPixelFormat::Ya16Le
        } else if v == 111 {
            AVPixelFormat::Gbrap
        } else if v == 112 {
            AVPixelFormat::Gbrap16Be
        } else if v == 113 {
            AVPixelFormat::Gbrap16Le
        } else if v == 114 {
            AVPixelFormat::Qsv
        } else if v == 116 {
            AVPixelFormat::D3d11vaVld
        } else if v == 117 {
            AVPixelFormat::Cuda
        } else if v == 118 {
            AVPixelFormat::ZeroRgb
        } else if v == 119 {
            AVPixelFormat::Rgb0
        } else if v == 120 {
            AVPixelFormat::ZeroBgr
        } else if v == 121 {
            AVPixelFormat::Bgr0
        } else if v == 78 {
            AVPixelFormat::Yuva422p
        } else if v == 79 {
            AVPixelFormat::Yuva444p
        } else if v == 101 {
            AVPixelFormat::Nv16
        } else if v == 158 {
            AVPixelFormat::P010Le
        } else if v == 159 {
            AVPixelFormat::P010Be
        } else if v == 157 {
            AVPixelFormat::Videotoolbox
        } else if v == 267 {
            AVPixelFormat::Nb
        } else {
            AVPixelFormat::Other(v)
        }
    }
}

/// A raw value survives the trip into a `AVPixelFormat` and back.
pub proof fn lemma_av_pixel_format_raw_round_trip(v: i32)
    ensures
        AVPixelFormat::spec_from_raw(v).spec_raw() == v,
        AVPixelFormat::spec_from_raw(v).is_canonical(),
{
}

/// A canonical `AVPixelFormat` survives the trip to its raw value and back.
pub proof fn lemma_av_pixel_format_value_round_trip(x: AVPixelFormat)
    requires
        x.is_canonical(),
    ensures
        AVPixelFormat::spec_from_raw(x.spec_raw()) == x,
{
}

impl PartialEq for AVPixelFormat {
    /// Two values are equal when they stand for the same raw FFmpeg value, whichever
    /// variant holds it.
    fn eq(&self, other: &Self) -> (r: bool) {
        self.raw() == other.raw()
    }
}

impl vstd::std_specs::cmp::PartialEqSpecImpl for AVPixelFormat {
    open spec fn obeys_eq_spec() -> bool {
        true
    }

    open spec fn eq_spec(&self, other: &Self) -> bool {
        self.spec_raw() == other.spec_raw()
    }
}

} // verus!
