/// Encoders.
pub mod encoding;
/// Encoder settings.
pub mod settings;

pub use encoding::{Encoder, HwDeviceCtxPtr};
pub use settings::{AudioEncoderSettings, EncoderSettings, VideoEncoderSettings};
