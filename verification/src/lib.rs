//! A verified model of a safe interface to FFmpeg's media handling: frames, decoders,
//! encoders, filter graphs, scalers, outputs and hardware contexts, over plain values.

/// Error handling.
pub mod error;
/// Rational number specific functionality.
pub mod rational;

/// FFmpeg enumerations.
pub mod enums;

/// The values of FFmpeg's structures that the library reads and writes.
pub mod raw;
/// Timestamp helpers.
pub mod utils;

/// Decoder and encoder implementations.
pub mod codec;
/// Codec parameters kept apart from their stream.
pub mod codec_parameters;
/// Decoders.
pub mod decoder;
/// Dictionaries of string options.
pub mod dict;
/// Encoders.
pub mod encoder;
/// Input and output of containers.
pub mod io;
/// Streams of a container.
pub mod stream;

/// Filter graphs.
pub mod filter_graph;
/// Frames and their data planes.
pub mod frame;
/// Hardware acceleration contexts and configurations.
pub mod hardware;
/// Video scaling.
pub mod scaler;

pub use enums::{AVChannelOrder, AVFmtFlags, AVFormatFlags, AVHWDeviceType, AVMediaType, AVPictureType, AVPixelFormat, AVSampleFormat};
