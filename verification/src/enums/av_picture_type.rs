use vstd::prelude::*;

verus! {

/// Picture types of a video frame (FFmpeg's `AVPictureType`).
#[derive(Clone, Copy, Debug, Eq)]
pub enum AVPictureType {
    /// Undefined (`AV_PICTURE_TYPE_NONE`).
    NoPicture,
    /// Intra.
    Intra,
    /// Predicted.
    Predicted,
    /// Bi-directionally predicted.
    BiPredicted,
    /// S(GMC)-VOP MPEG-4.
    Sgmc,
    /// Switching intra.
    SwitchingIntra,
    /// Switching predicted.
    SwitchingPredicted,
    /// BI type.
    BiType,
    /// Any other raw picture type value.
    Other(i32),
}

impl AVPictureType {
    /// The raw FFmpeg value of the variant.
    pub open spec fn spec_raw(self) -> i32 {
        match self {
            AVPictureType::NoPicture => 0i32,
            AVPictureType::Intra => 1i32,
            AVPictureType::Predicted => 2i32,
            AVPictureType::BiPredicted => 3i32,
            AVPictureType::Sgmc => 4i32,
            AVPictureType::SwitchingIntra => 5i32,
            AVPictureType::SwitchingPredicted => 6i32,
            AVPictureType::BiType => 7i32,
            AVPictureType::Other(v) => v,
        }
    }

    /// The variant for a raw FFmpeg value; values without a named variant become `Other`.
    pub open spec fn spec_from_raw(v: i32) -> AVPictureType {
        if v == 0i32 {
            AVPictureType::NoPicture
        } else if v == 1i32 {
            AVPictureType::Intra
        } else if v == 2i32 {
            AVPictureType::Predicted
        } else if v == 3i32 {
            AVPictureType::BiPredicted
        } else if v == 4i32 {
            AVPictureType::Sgmc
        } else if v == 5i32 {
            AVPictureType::SwitchingIntra
        } else if v == 6i32 {
            AVPictureType::SwitchingPredicted
        } else if v == 7i32 {
            AVPictureType::BiType
        } else {
            AVPictureType::Other(v)
        }
    }

    /// Whether the value is in its one canonical form: `Other` only holds values
    /// without a named variant.
    pub open spec fn is_canonical(self) -> bool {
        self matches AVPictureType::Other(v) ==> AVPictureType::spec_from_raw(v) is Other
    }

    /// Returns the raw FFmpeg value.
    pub fn raw(self) -> (r: i32)
        ensures
            r == self.spec_raw(),
    {
        match self {
            AVPictureType::NoPicture => 0,
            AVPictureType::Intra => 1,
            AVPictureType::Predicted => 2,
            AVPictureType::BiPredicted => 3,
            AVPictureType::Sgmc => 4,
            AVPictureType::SwitchingIntra => 5,
            AVPictureType::SwitchingPredicted => 6,
            AVPictureType::BiType => 7,
            AVPictureType::Other(v) => v,
        }
    }

    /// Returns the value for a raw FFmpeg value.
    pub fn from_raw(v: i32) -> (r: AVPictureType)
        ensures
            r == AVPictureType::spec_from_raw(v),
            r.spec_raw() == v,
            r.is_canonical(),
    {
        if v == 0 {
            AVPictureType::NoPicture
        } else if v == 1 {
            AVPictureType::Intra
        } else if v == 2 {
            AVPictureType::Predicted
        } else if v == 3 {
            AVPictureType::BiPredicted
        } else if v == 4 {
            AVPictureType::Sgmc
        } else if v == 5 {
            AVPictureType::SwitchingIntra
        } else if v == 6 {
            AVPictureType::SwitchingPredicted
        } else if v == 7 {
            AVPictureType::BiType
        } else {
            AVPictureType::Other(v)
        }
    }
}

/// A raw value survives the trip into a `AVPictureType` and back.
pub proof fn lemma_av_picture_type_raw_round_trip(v: i32)
    ensures
        AVPictureType::spec_from_raw(v).spec_raw() == v,
        AVPictureType::spec_from_raw(v).is_canonical(),
{
}

/// A canonical `AVPictureType` survives the trip to its raw value and back.
pub proof fn lemma_av_picture_type_value_round_trip(x: AVPictureType)
    requires
        x.is_canonical(),
    ensures
        AVPictureType::spec_from_raw(x.spec_raw()) == x,
{
}

impl PartialEq for AVPictureType {
    /// Two values are equal when they stand for the same raw FFmpeg value, whichever
    /// variant holds it.
    fn eq(&self, other: &Self) -> (r: bool) {
        self.raw() == other.raw()
    }
}

impl vstd::std_specs::cmp::PartialEqSpecImpl for AVPictureType {
    open spec fn obeys_eq_spec() -> bool {
        true
    }

    open spec fn eq_spec(&self, other: &Self) -> bool {
        self.spec_raw() == other.spec_raw()
    }
}

} // verus!
