use vstd::prelude::*;

verus! {

/// A decoder implementation (`AVCodec`), held as the codec id it decodes and an opaque
/// handle to FFmpeg's codec; a zero handle is the empty codec.
#[derive(Clone, Copy, Debug, PartialEq, Eq, Structural)]
pub struct DecoderCodec {
    /// The raw codec id.
    pub id: i32,
    /// The handle of FFmpeg's codec; zero for none.
    pub handle: usize,
}

impl DecoderCodec {
    /// The empty codec.
    pub fn empty() -> (r: DecoderCodec)
        ensures
            r.handle == 0 && r.id == 0,
    {
        DecoderCodec { id: 0, handle: 0 }
    }

    /// Returns `true` for the empty codec.
    pub fn is_empty(&self) -> (r: bool)
        ensures
            r == (self.handle == 0),
    {
        self.handle == 0
    }
}

/// An encoder implementation (`AVCodec`), held as the codec id it encodes and an opaque
/// handle to FFmpeg's codec; a zero handle is the empty codec.
#[derive(Clone, Copy, Debug, PartialEq, Eq, Structural)]
pub struct EncoderCodec {
    /// The raw codec id.
    pub id: i32,
    /// The handle of FFmpeg's codec; zero for none.
    pub handle: usize,
}

impl EncoderCodec {
    /// The empty codec.
    pub fn empty() -> (r: EncoderCodec)
        ensures
            r.handle == 0 && r.id == 0,
    {
        EncoderCodec { id: 0, handle: 0 }
    }

    /// Returns `true` for the empty codec.
    pub fn is_empty(&self) -> (r: bool)
        ensures
            r == (self.handle == 0),
    {
        self.handle == 0
    }
}

} // verus!
