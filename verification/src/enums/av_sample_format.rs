use vstd::prelude::*;

verus! {

/// Audio sample formats (FFmpeg's `AVSampleFormat`).
#[derive(Clone, Copy, Debug, Eq)]
pub enum AVSampleFormat {
    /// No sample format (`AV_SAMPLE_FMT_NONE`).
    NoFormat,
    /// Unsigned 8 bits.
    U8,
    /// Signed 16 bits.
    S16,
    /// Signed 32 bits.
    S32,
    /// Float.
    Flt,
    /// Double.
    Dbl,
    /// Unsigned 8 bits, planar.
    U8p,
    /// Signed 16 bits, planar.
    S16p,
    /// Signed 32 bits, planar.
    S32p,
    /// Float, planar.
    Fltp,
    /// Double, planar.
    Dblp,
    /// Signed 64 bits.
    S64,
    /// Signed 64 bits, planar.
    S64p,
    /// The number of sample formats, not a format.
    Nb,
    /// Any other raw sample format value.
    Other(i32),
}

impl AVSampleFormat {
    /// The raw FFmpeg value of the variant.
    pub open spec fn spec_raw(self) -> i32 {
        match self {
            AVSampleFormat::NoFormat => -1i32,
            AVSampleFormat::U8 => 0i32,
            AVSampleFormat::S16 => 1i32,
            AVSampleFormat::S32 => 2i32,
            AVSampleFormat::Flt => 3i32,
            AVSampleFormat::Dbl => 4i32,
            AVSampleFormat::U8p => 5i32,
            AVSampleFormat::S16p => 6i32,
            AVSampleFormat::S32p => 7i32,
            AVSampleFormat::Fltp => 8i32,
            AVSampleFormat::Dblp => 9i32,
            AVSampleFormat::S64 => 10i32,
            AVSampleFormat::S64p => 11i32,
            AVSampleFormat::Nb => 12i32,
            AVSampleFormat::Other(v) => v,
        }
    }

    /// The variant for a raw FFmpeg value; values without a named variant become `Other`.
    pub open spec fn spec_from_raw(v: i32) -> AVSampleFormat {
        if v == -1i32 {
            AVSampleFormat::NoFormat
        } else if v == 0i32 {
            AVSampleFormat::U8
        } else if v == 1i32 {
            AVSampleFormat::S16
        } else if v == 2i32 {
            AVSampleFormat::S32
        } else if v == 3i32 {
            AVSampleFormat::Flt
        } else if v == 4i32 {
            AVSampleFormat::Dbl
        } else if v == 5i32 {
            AVSampleFormat::U8p
        } else if v == 6i32 {
            AVSampleFormat::S16p
        } else if v == 7i32 {
            AVSampleFormat::S32p
        } else if v == 8i32 {
            AVSampleFormat::Fltp
        } else if v == 9i32 {
            AVSampleFormat::Dblp
        } else if v == 10i32 {
            AVSampleFormat::S64
        } else if v == 11i32 {
            AVSampleFormat::S64p
        } else if v == 12i32 {
            AVSampleFormat::Nb
        } else {
            AVSampleFormat::Other(v)
        }
    }

    /// Whether the value is in its one canonical form: `Other` only holds values
    /// without a named variant.
    pub open spec fn is_canonical(self) -> bool {
        self matches AVSampleFormat::Other(v) ==> AVSampleFormat::spec_from_raw(v) is Other
    }

    /// Returns the raw FFmpeg value.
    pub fn raw(self) -> (r: i32)
        ensures
            r == self.spec_raw(),
    {
        match self {
            AVSampleFormat::NoFormat => -1,
            AVSampleFormat::U8 => 0,
            AVSampleFormat::S16 => 1,
            AVSampleFormat::S32 => 2,
            AVSampleFormat::Flt => 3,
            AVSampleFormat::Dbl => 4,
            AVSampleFormat::U8p => 5,
            AVSampleFormat::S16p => 6,
            AVSampleFormat::S32p => 7,
            AVSampleFormat::Fltp => 8,
            AVSampleFormat::Dblp => 9,
            AVSampleFormat::S64 => 10,
            AVSampleFormat::S64p => 11,
            AVSampleFormat::Nb => 12,
            AVSampleFormat::Other(v) => v,
        }
    }

    /// Returns the value for a raw FFmpeg value.
    pub fn from_raw(v: i32) -> (r: AVSampleFormat)
        ensures
            r == AVSampleFormat::spec_from_raw(v),
            r.spec_raw() == v,
            r.is_canonical(),
    {
        if v == -1 {
            AVSampleFormat::NoFormat
        } else if v == 0 {
            AVSampleFormat::U8
        } else if v == 1 {
            AVSampleFormat::S16
        } else if v == 2 {
            AVSampleFormat::S32
        } else if v == 3 {
            AVSampleFormat::Flt
        } else if v == 4 {
            AVSampleFormat::Dbl
        } else if v == 5 {
            AVSampleFormat::U8p
        } else if v == 6 {
            AVSampleFormat::S16p
        } else if v == 7 {
            AVSampleFormat::S32p
        } else if v == 8 {
            AVSampleFormat::Fltp
        } else if v == 9 {
            AVSampleFormat::Dblp
        } else if v == 10 {
            AVSampleFormat::S64
        } else if v == 11 {
            AVSampleFormat::S64p
        } else if v == 12 {
            AVSampleFormat::Nb
        } else {
            AVSampleFormat::Other(v)
        }
    }
}

/// A raw value survives the trip into a `AVSampleFormat` and back.
pub proof fn lemma_av_sample_format_raw_round_trip(v: i32)
    ensures
        AVSampleFormat::spec_from_raw(v).spec_raw() == v,
        AVSampleFormat::spec_from_raw(v).is_canonical(),
{
}

/// A canonical `AVSampleFormat` survives the trip to its raw value and back.
pub proof fn lemma_av_sample_format_value_round_trip(x: AVSampleFormat)
    requires
        x.is_canonical(),
    ensures
        AVSampleFormat::spec_from_raw(x.spec_raw()) == x,
{
}

impl PartialEq for AVSampleFormat {
    /// Two values are equal when they stand for the same raw FFmpeg value, whichever
    /// variant holds it.
    fn eq(&self, other: &Self) -> (r: bool) {
        self.raw() == other.raw()
    }
}

impl vstd::std_specs::cmp::PartialEqSpecImpl for AVSampleFormat {
    open spec fn obeys_eq_spec() -> bool {
        true
    }

    open spec fn eq_spec(&self, other: &Self) -> bool {
        self.spec_raw() == other.spec_raw()
    }
}

} // verus!
