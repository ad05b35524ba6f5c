use vstd::prelude::*;

verus! {

/// Media types (FFmpeg's `AVMediaType`).
#[derive(Clone, Copy, Debug, Eq)]
pub enum AVMediaType {
    /// Usually treated as data (`AVMEDIA_TYPE_UNKNOWN`).
    Unknown,
    /// Video.
    Video,
    /// Audio.
    Audio,
    /// Opaque data, usually continuous.
    Data,
    /// Subtitles.
    Subtitle,
    /// Opaque data, usually sparse.
    Attachment,
    /// The number of media types, not a type.
    Nb,
    /// Any other raw media type value.
    Other(i32),
}

impl AVMediaType {
    /// The raw FFmpeg value of the variant.
    pub open spec fn spec_raw(self) -> i32 {
        match self {
            AVMediaType::Unknown => -1i32,
            AVMediaType::Video => 0i32,
            AVMediaType::Audio => 1i32,
            AVMediaType::Data => 2i32,
            AVMediaType::Subtitle => 3i32,
            AVMediaType::Attachment => 4i32,
            AVMediaType::Nb => 5i32,
            AVMediaType::Other(v) => v,
        }
    }

    /// The variant for a raw FFmpeg value; values without a named variant become `Other`.
    pub open spec fn spec_from_raw(v: i32) -> AVMediaType {
        if v == -1i32 {
            AVMediaType::Unknown
        } else if v == 0i32 {
            AVMediaType::Video
        } else if v == 1i32 {
            AVMediaType::Audio
        } else if v == 2i32 {
            AVMediaType::Data
        } else if v == 3i32 {
            AVMediaType::Subtitle
        } else if v == 4i32 {
            AVMediaType::Attachment
        } else if v == 5i32 {
            AVMediaType::Nb
        } else {
            AVMediaType::Other(v)
        }
    }

    /// Whether the value is in its one canonical form: `Other` only holds values
    /// without a named variant.
    pub open spec fn is_canonical(self) -> bool {
        self matches AVMediaType::Other(v) ==> AVMediaType::spec_from_raw(v) is Other
    }

    /// Returns the raw FFmpeg value.
    pub fn raw(self) -> (r: i32)
        ensures
            r == self.spec_raw(),
    {
        match self {
            AVMediaType::Unknown => -1,
            AVMediaType::Video => 0,
            AVMediaType::Audio => 1,
            AVMediaType::Data => 2,
            AVMediaType::Subtitle => 3,
            AVMediaType::Attachment => 4,
            AVMediaType::Nb => 5,
            AVMediaType::Other(v) => v,
        }
    }

    /// Returns the value for a raw FFmpeg value.
    pub fn from_raw(v: i32) -> (r: AVMediaType)
        ensures
            r == AVMediaType::spec_from_raw(v),
            r.spec_raw() == v,
            r.is_canonical(),
    {
        if v == -1 {
            AVMediaType::Unknown
        } else if v == 0 {
            AVMediaType::Video
        } else if v == 1 {
            AVMediaType::Audio
        } else if v == 2 {
            AVMediaType::Data
        } else if v == 3 {
            AVMediaType::Subtitle
        } else if v == 4 {
            AVMediaType::Attachment
        } else if v == 5 {
            AVMediaType::Nb
        } else {
            AVMediaType::Other(v)
        }
    }
}

/// A raw value survives the trip into a `AVMediaType` and back.
pub proof fn lemma_av_media_type_raw_round_trip(v: i32)
    ensures
        AVMediaType::spec_from_raw(v).spec_raw() == v,
        AVMediaType::spec_from_raw(v).is_canonical(),
{
}

/// A canonical `AVMediaType` survives the trip to its raw value and back.
pub proof fn lemma_av_media_type_value_round_trip(x: AVMediaType)
    requires
        x.is_canonical(),
    ensures
        AVMediaType::spec_from_raw(x.spec_raw()) == x,
{
}

impl PartialEq for AVMediaType {
    /// Two values are equal when they stand for the same raw FFmpeg value, whichever
    /// variant holds it.
    fn eq(&self, other: &Self) -> (r: bool) {
        self.raw() == other.raw()
    }
}

impl vstd::std_specs::cmp::PartialEqSpecImpl for AVMediaType {
    open spec fn obeys_eq_spec() -> bool {
        true
    }

    open spec fn eq_spec(&self, other: &Self) -> bool {
        self.spec_raw() == other.spec_raw()
    }
}

} // verus!
