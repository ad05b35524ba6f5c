/// Audio frames and channel layouts.
pub mod audio;
/// The data of one plane of a frame.
pub mod data;
/// Generic frames.
pub mod generic;
/// Video frames.
pub mod video;

pub use audio::{AudioChannelLayout, AudioFrame};
pub use data::FrameData;
pub use generic::{FrameBuffers, GenericFrame, HwFrameMapFlags};
pub use video::{PixFmtDescriptor, VideoFrame};
