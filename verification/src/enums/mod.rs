/// Channel orders.
pub mod av_channel_order;
/// Format flags.
pub mod av_fmt_flags;
/// Hardware device types.
pub mod av_hw_device_type;
/// Media types.
pub mod av_media_type;
/// Picture types.
pub mod av_picture_type;
/// Pixel formats.
pub mod av_pixel_format;
/// Sample formats.
pub mod av_sample_format;

pub use av_channel_order::AVChannelOrder;
pub use av_fmt_flags::{AVFmtFlags, AVFormatFlags};
pub use av_hw_device_type::AVHWDeviceType;
pub use av_media_type::AVMediaType;
pub use av_picture_type::AVPictureType;
pub use av_pixel_format::AVPixelFormat;
pub use av_sample_format::AVSampleFormat;
